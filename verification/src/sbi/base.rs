//! The base extension: versions, identification, and probing.

use vstd::prelude::*;

use crate::csr;
use crate::machine::{Machine, MachineView};
use crate::sbi::{SbiError, SbiExtension, SbiFunction, SbiResult};
use crate::trap::SbiContext;

verus! {

/// Version of the interface that is implemented: 2.0.
pub const SPEC_VERSION: u64 = 0x2;

/// Id of this implementation: the letters "NSBI".
pub const IMPL_ID: u64 = 0x4E534249;

/// Version of this implementation: 1.0.
pub const IMPL_VERSION: u64 = 0x1;

/// Whether `extension_id` selects an extension that is implemented.
pub open spec fn spec_probe_extension(extension_id: u64) -> bool {
    extension_id == 0x10 || extension_id == 0x54494D45 || extension_id == 0x48574446
}

/// What the base extension answers to `function` with argument `a0`.
pub open spec fn base_reply(function: u64, a0: u64, machine: MachineView) -> (SbiError, u64) {
    if function == 0 {
        (SbiError::Success, SPEC_VERSION)
    } else if function == 1 {
        (SbiError::Success, IMPL_ID)
    } else if function == 2 {
        (SbiError::Success, IMPL_VERSION)
    } else if function == 3 {
        (
            SbiError::Success,
            if spec_probe_extension(a0) {
                1
            } else {
                0
            },
        )
    } else if function == 4 {
        (SbiError::Success, machine.csrs.mhartid)
    } else if function == 5 {
        (SbiError::Success, machine.csrs.mvendorid)
    } else if function == 6 {
        (SbiError::Success, machine.csrs.marchid)
    } else if function == 7 {
        (SbiError::Success, machine.csrs.mimpid)
    } else {
        (SbiError::NotSupported, 0)
    }
}

/// Handler of the base extension. Answers in `a0` and `a1` and writes no
/// other register; a function that the extension does not have is answered
/// with "not supported" and the value zero.
pub fn handle_base_call(function: u64, context: &mut SbiContext, machine: &Machine) -> (r:
    SbiResult<()>)
    ensures
        r is Ok,
        *final(context) == old(context).with_reply(
            base_reply(function, old(context).a0, machine@),
        ),
{
    match SbiFunction::from_id(function) {
        Some(SbiFunction::GetSpecVersion) => {
            context.a0 = SbiError::Success.word();
            context.a1 = SPEC_VERSION;
            Ok(())
        },
        Some(SbiFunction::GetImplId) => {
            context.a0 = SbiError::Success.word();
            context.a1 = IMPL_ID;
            Ok(())
        },
        Some(SbiFunction::GetImplVersion) => {
            context.a0 = SbiError::Success.word();
            context.a1 = IMPL_VERSION;
            Ok(())
        },
        Some(SbiFunction::ProbeExtension) => {
            let extension_id: u64 = context.a0;
            let supported: bool = probe_extension(extension_id);
            context.a0 = SbiError::Success.word();
            context.a1 = if supported {
                1
            } else {
                0
            };
            Ok(())
        },
        Some(SbiFunction::GetMhartid) => {
            let hartid: u64 = csr::read_hart_id(machine);
            context.a0 = SbiError::Success.word();
            context.a1 = hartid;
            Ok(())
        },
        Some(SbiFunction::GetMvendorid) => {
            let mvendorid: u64 = csr::read_mvendorid(machine);
            context.a0 = SbiError::Success.word();
            context.a1 = mvendorid;
            Ok(())
        },
        Some(SbiFunction::GetMarchid) => {
            let marchid: u64 = csr::read_marchid(machine);
            context.a0 = SbiError::Success.word();
            context.a1 = marchid;
            Ok(())
        },
        Some(SbiFunction::GetMimpid) => {
            let mimpid: u64 = csr::read_mimpid(machine);
            context.a0 = SbiError::Success.word();
            context.a1 = mimpid;
            Ok(())
        },
        _ => {
            context.a0 = SbiError::NotSupported.word();
            context.a1 = 0;
            Ok(())
        },
    }
}

/// Whether `extension_id` selects an extension that is implemented.
pub fn probe_extension(extension_id: u64) -> (r: bool)
    ensures
        r == spec_probe_extension(extension_id),
        r == SbiExtension::spec_from_id(extension_id).is_some(),
{
    match SbiExtension::from_id(extension_id) {
        Some(SbiExtension::Base) => true,
        Some(SbiExtension::Timer) => true,
        Some(SbiExtension::HardwareFeatures) => true,
        None => false,
    }
}

/// Probing answers success with the value one for the three extensions
/// that exist, and success with the value zero for every other id.
pub proof fn lemma_probe_extension(extension_id: u64, machine: MachineView)
    ensures
        base_reply(3, extension_id, machine).0 == SbiError::Success,
        base_reply(3, extension_id, machine).1 == if extension_id == 0x10 || extension_id
            == 0x54494D45 || extension_id == 0x48574446 {
            1u64
        } else {
            0u64
        },
{
}

} // verus!
