//! The supervisor binary interface: requests arrive in registers `a0` to
//! `a7`, are dispatched by extension and function id, and answer with an
//! error code in `a0` and a value in `a1`.

use vstd::prelude::*;

use crate::csr::read_misa;
use crate::machine::{Machine, MachineView};
use crate::trap::SbiContext;

pub mod base;
pub mod timer;

verus! {

/// Id of the base extension.
pub const EXTENSION_BASE: u64 = 0x10;

/// Id of the timer extension.
pub const EXTENSION_TIMER: u64 = 0x54494D45;

/// Id of the hardware feature extension.
pub const EXTENSION_HARDWARE_FEATURES: u64 = 0x48574446;

/// SBI extension ID
#[derive(Debug, Clone, Copy, PartialEq, Eq, Structural)]
pub enum SbiExtension {
    Base,
    Timer,
    HardwareFeatures,
}

/// SBI function ID
#[derive(Debug, Clone, Copy, PartialEq, Eq, Structural)]
pub enum SbiFunction {
    // Base extension functions (0x10)
    GetSpecVersion,
    GetImplId,
    GetImplVersion,
    ProbeExtension,
    GetMhartid,
    GetMvendorid,
    GetMarchid,
    GetMimpid,
    // Timer extension functions (0x54494D45)
    SetTimer,
    // Hardware feature extension functions (0x48574446)
    GetHardwareFeatures,
}

/// SBI error code
#[derive(Debug, Clone, Copy, PartialEq, Eq, Structural)]
pub enum SbiError {
    Success,
    Failed,
    NotSupported,
    InvalidParam,
    Denied,
    InvalidAddress,
    AlreadyAvailable,
}

/// SBI calling result
pub type SbiResult<T> = Result<T, SbiError>;

impl SbiExtension {
    /// The id that selects the extension, as passed in `a7`.
    pub open spec fn spec_id(self) -> u64 {
        match self {
            SbiExtension::Base => EXTENSION_BASE,
            SbiExtension::Timer => EXTENSION_TIMER,
            SbiExtension::HardwareFeatures => EXTENSION_HARDWARE_FEATURES,
        }
    }

    /// The extension selected by `id`, if there is one.
    pub open spec fn spec_from_id(id: u64) -> Option<SbiExtension> {
        if id == EXTENSION_BASE {
            Some(SbiExtension::Base)
        } else if id == EXTENSION_TIMER {
            Some(SbiExtension::Timer)
        } else if id == EXTENSION_HARDWARE_FEATURES {
            Some(SbiExtension::HardwareFeatures)
        } else {
            None
        }
    }

    /// The id that selects the extension, as passed in `a7`.
    pub fn id(self) -> (r: u64)
        ensures
            r == self.spec_id(),
    {
        match self {
            SbiExtension::Base => EXTENSION_BASE,
            SbiExtension::Timer => EXTENSION_TIMER,
            SbiExtension::HardwareFeatures => EXTENSION_HARDWARE_FEATURES,
        }
    }

    /// The extension selected by `id`, or `None` for an id that selects
    /// none.
    pub fn from_id(id: u64) -> (r: Option<SbiExtension>)
        ensures
            r == Self::spec_from_id(id),
    {
        if id == EXTENSION_BASE {
            Some(SbiExtension::Base)
        } else if id == EXTENSION_TIMER {
            Some(SbiExtension::Timer)
        } else if id == EXTENSION_HARDWARE_FEATURES {
            Some(SbiExtension::HardwareFeatures)
        } else {
            None
        }
    }
}

impl SbiFunction {
    /// The id that selects the function, as passed in `a6`.
    pub open spec fn spec_id(self) -> u64 {
        match self {
            SbiFunction::GetSpecVersion => 0,
            SbiFunction::GetImplId => 1,
            SbiFunction::GetImplVersion => 2,
            SbiFunction::ProbeExtension => 3,
            SbiFunction::GetMhartid => 4,
            SbiFunction::GetMvendorid => 5,
            SbiFunction::GetMarchid => 6,
            SbiFunction::GetMimpid => 7,
            SbiFunction::SetTimer => 0x100,
            SbiFunction::GetHardwareFeatures => 0x200,
        }
    }

    /// The extension that the function belongs to.
    pub open spec fn spec_extension(self) -> SbiExtension {
        match self {
            SbiFunction::SetTimer => SbiExtension::Timer,
            SbiFunction::GetHardwareFeatures => SbiExtension::HardwareFeatures,
            _ => SbiExtension::Base,
        }
    }

    /// The function selected by `id`, if there is one.
    pub open spec fn spec_from_id(id: u64) -> Option<SbiFunction> {
        if id == 0 {
            Some(SbiFunction::GetSpecVersion)
        } else if id == 1 {
            Some(SbiFunction::GetImplId)
        } else if id == 2 {
            Some(SbiFunction::GetImplVersion)
        } else if id == 3 {
            Some(SbiFunction::ProbeExtension)
        } else if id == 4 {
            Some(SbiFunction::GetMhartid)
        } else if id == 5 {
            Some(SbiFunction::GetMvendorid)
        } else if id == 6 {
            Some(SbiFunction::GetMarchid)
        } else if id == 7 {
            Some(SbiFunction::GetMimpid)
        } else if id == 0x100 {
            Some(SbiFunction::SetTimer)
        } else if id == 0x200 {
            Some(SbiFunction::GetHardwareFeatures)
        } else {
            None
        }
    }

    /// The id that selects the function, as passed in `a6`.
    pub fn id(self) -> (r: u64)
        ensures
            r == self.spec_id(),
    {
        match self {
            SbiFunction::GetSpecVersion => 0,
            SbiFunction::GetImplId => 1,
            SbiFunction::GetImplVersion => 2,
            SbiFunction::ProbeExtension => 3,
            SbiFunction::GetMhartid => 4,
            SbiFunction::GetMvendorid => 5,
            SbiFunction::GetMarchid => 6,
            SbiFunction::GetMimpid => 7,
            SbiFunction::SetTimer => 0x100,
            SbiFunction::GetHardwareFeatures => 0x200,
        }
    }

    /// The extension that the function belongs to.
    pub fn extension(self) -> (r: SbiExtension)
        ensures
            r == self.spec_extension(),
    {
        match self {
            SbiFunction::SetTimer => SbiExtension::Timer,
            SbiFunction::GetHardwareFeatures => SbiExtension::HardwareFeatures,
            _ => SbiExtension::Base,
        }
    }

    /// The function selected by `id`, or `None` for an id that selects
    /// none.
    pub fn from_id(id: u64) -> (r: Option<SbiFunction>)
        ensures
            r == Self::spec_from_id(id),
    {
        if id == 0 {
            Some(SbiFunction::GetSpecVersion)
        } else if id == 1 {
            Some(SbiFunction::GetImplId)
        } else if id == 2 {
            Some(SbiFunction::GetImplVersion)
        } else if id == 3 {
            Some(SbiFunction::ProbeExtension)
        } else if id == 4 {
            Some(SbiFunction::GetMhartid)
        } else if id == 5 {
            Some(SbiFunction::GetMvendorid)
        } else if id == 6 {
            Some(SbiFunction::GetMarchid)
        } else if id == 7 {
            Some(SbiFunction::GetMimpid)
        } else if id == 0x100 {
            Some(SbiFunction::SetTimer)
        } else if id == 0x200 {
            Some(SbiFunction::GetHardwareFeatures)
        } else {
            None
        }
    }
}

impl SbiError {
    /// The error's number: zero for success, negative for each failure.
    pub open spec fn spec_code(self) -> i64 {
        match self {
            SbiError::Success => 0i64,
            SbiError::Failed => -1i64,
            SbiError::NotSupported => -2i64,
            SbiError::InvalidParam => -3i64,
            SbiError::Denied => -4i64,
            SbiError::InvalidAddress => -5i64,
            SbiError::AlreadyAvailable => -6i64,
        }
    }

    /// The error's number as the register `a0` holds it: in two's
    /// complement.
    pub open spec fn spec_word(self) -> u64 {
        match self {
            SbiError::Success => 0,
            SbiError::Failed => 0xFFFF_FFFF_FFFF_FFFF,
            SbiError::NotSupported => 0xFFFF_FFFF_FFFF_FFFE,
            SbiError::InvalidParam => 0xFFFF_FFFF_FFFF_FFFD,
            SbiError::Denied => 0xFFFF_FFFF_FFFF_FFFC,
            SbiError::InvalidAddress => 0xFFFF_FFFF_FFFF_FFFB,
            SbiError::AlreadyAvailable => 0xFFFF_FFFF_FFFF_FFFA,
        }
    }

    /// The error that a value of `a0` stands for, if any.
    pub open spec fn spec_from_word(word: u64) -> Option<SbiError> {
        if word == 0 {
            Some(SbiError::Success)
        } else if word == 0xFFFF_FFFF_FFFF_FFFF {
            Some(SbiError::Failed)
        } else if word == 0xFFFF_FFFF_FFFF_FFFE {
            Some(SbiError::NotSupported)
        } else if word == 0xFFFF_FFFF_FFFF_FFFD {
            Some(SbiError::InvalidParam)
        } else if word == 0xFFFF_FFFF_FFFF_FFFC {
            Some(SbiError::Denied)
        } else if word == 0xFFFF_FFFF_FFFF_FFFB {
            Some(SbiError::InvalidAddress)
        } else if word == 0xFFFF_FFFF_FFFF_FFFA {
            Some(SbiError::AlreadyAvailable)
        } else {
            None
        }
    }

    /// The error's number: zero for success, negative for each failure.
    pub fn code(self) -> (r: i64)
        ensures
            r == self.spec_code(),
    {
        match self {
            SbiError::Success => 0,
            SbiError::Failed => -1,
            SbiError::NotSupported => -2,
            SbiError::InvalidParam => -3,
            SbiError::Denied => -4,
            SbiError::InvalidAddress => -5,
            SbiError::AlreadyAvailable => -6,
        }
    }

    /// The error's number as the register `a0` holds it.
    pub fn word(self) -> (r: u64)
        ensures
            r == self.spec_word(),
            r as int == if self.spec_code() >= 0 {
                self.spec_code() as int
            } else {
                self.spec_code() + 0x1_0000_0000_0000_0000
            },
    {
        match self {
            SbiError::Success => 0,
            SbiError::Failed => 0xFFFF_FFFF_FFFF_FFFF,
            SbiError::NotSupported => 0xFFFF_FFFF_FFFF_FFFE,
            SbiError::InvalidParam => 0xFFFF_FFFF_FFFF_FFFD,
            SbiError::Denied => 0xFFFF_FFFF_FFFF_FFFC,
            SbiError::InvalidAddress => 0xFFFF_FFFF_FFFF_FFFB,
            SbiError::AlreadyAvailable => 0xFFFF_FFFF_FFFF_FFFA,
        }
    }

    /// The error that a value of `a0` stands for, or `None` for a value
    /// that is no error code.
    pub fn from_word(word: u64) -> (r: Option<SbiError>)
        ensures
            r == Self::spec_from_word(word),
    {
        if word == 0 {
            Some(SbiError::Success)
        } else if word == 0xFFFF_FFFF_FFFF_FFFF {
            Some(SbiError::Failed)
        } else if word == 0xFFFF_FFFF_FFFF_FFFE {
            Some(SbiError::NotSupported)
        } else if word == 0xFFFF_FFFF_FFFF_FFFD {
            Some(SbiError::InvalidParam)
        } else if word == 0xFFFF_FFFF_FFFF_FFFC {
            Some(SbiError::Denied)
        } else if word == 0xFFFF_FFFF_FFFF_FFFB {
            Some(SbiError::InvalidAddress)
        } else if word == 0xFFFF_FFFF_FFFF_FFFA {
            Some(SbiError::AlreadyAvailable)
        } else {
            None
        }
    }
}

/// What the hardware feature extension answers to `function`: the feature
/// mask for the one function it has, "not supported" for any other.
pub open spec fn hardware_features_reply(function: u64) -> (SbiError, u64) {
    if function == SbiFunction::GetHardwareFeatures.spec_id() {
        (SbiError::Success, 0)
    } else {
        (SbiError::NotSupported, 0)
    }
}

/// What a call answers: the error for `a0` and the value for `a1`.
pub open spec fn sbi_reply(context: SbiContext, machine: MachineView) -> (SbiError, u64) {
    match SbiExtension::spec_from_id(context.a7) {
        Some(SbiExtension::Base) => base::base_reply(context.a6, context.a0, machine),
        Some(SbiExtension::Timer) => timer::timer_reply(context.a6),
        Some(SbiExtension::HardwareFeatures) => hardware_features_reply(context.a6),
        None => (SbiError::NotSupported, 0),
    }
}

/// The machine after a call: only the timer extension changes it.
pub open spec fn sbi_effect(context: SbiContext, machine: MachineView) -> MachineView {
    match SbiExtension::spec_from_id(context.a7) {
        Some(SbiExtension::Timer) => timer::timer_effect(context.a6, context.a0, machine),
        _ => machine,
    }
}

/// SBI handler: dispatches on the extension id in `a7` and the function id
/// in `a6`. Every request is answered, an unknown one with "not supported"
/// and the value zero; no register but `a0` and `a1` is written.
pub fn handle_sbi_call(context: &mut SbiContext, machine: &mut Machine) -> (r: SbiResult<()>)
    ensures
        r is Ok,
        *final(context) == old(context).with_reply(sbi_reply(*old(context), old(machine)@)),
        final(machine)@ == sbi_effect(*old(context), old(machine)@),
{
    let extension: u64 = context.a7;
    let function: u64 = context.a6;

    match SbiExtension::from_id(extension) {
        Some(SbiExtension::Base) => base::handle_base_call(function, context, machine),
        Some(SbiExtension::Timer) => timer::handle_timer_call(function, context, machine),
        Some(SbiExtension::HardwareFeatures) => {
            handle_hardware_features_call(function, context, machine)
        },
        None => {
            context.a0 = SbiError::NotSupported.word();
            context.a1 = 0;
            Ok(())
        },
    }
}

/// Handler of the hardware feature extension.
pub fn handle_hardware_features_call(
    function: u64,
    context: &mut SbiContext,
    machine: &Machine,
) -> (r: SbiResult<()>)
    ensures
        r is Ok,
        *final(context) == old(context).with_reply(hardware_features_reply(function)),
{
    match SbiFunction::from_id(function) {
        Some(SbiFunction::GetHardwareFeatures) => {
            let features: u64 = get_hardware_features(machine);
            context.a0 = SbiError::Success.word();
            context.a1 = features;
            Ok(())
        },
        _ => {
            context.a0 = SbiError::NotSupported.word();
            context.a1 = 0;
            Ok(())
        },
    }
}

/// The mask of hardware features that the hart offers. No feature is
/// defined yet, so the mask is empty whatever the ISA register holds.
pub fn get_hardware_features(machine: &Machine) -> (features: u64)
    ensures
        features == 0,
{
    let _misa: u64 = read_misa(machine);
    let features: u64 = 0;

    features
}

/// A request that names no known extension, or no function of the extension
/// it names, is answered with "not supported" and the value zero, and
/// leaves the machine as it was.
pub proof fn lemma_unknown_request_not_supported(context: SbiContext, machine: MachineView)
    requires
        SbiExtension::spec_from_id(context.a7) is None || SbiFunction::spec_from_id(context.a6)
            is None || SbiFunction::spec_from_id(context.a6).unwrap().spec_extension().spec_id()
            != context.a7,
    ensures
        sbi_reply(context, machine) == (SbiError::NotSupported, 0u64),
        sbi_effect(context, machine) == machine,
{
}

/// A request for a function of the extension it names is answered with
/// success.
pub proof fn lemma_known_request_succeeds(context: SbiContext, machine: MachineView)
    requires
        SbiFunction::spec_from_id(context.a6) matches Some(function)
            && function.spec_extension().spec_id() == context.a7,
    ensures
        sbi_reply(context, machine).0 == SbiError::Success,
{
}

/// A call that sets the timer answers success with the value zero, and the
/// comparator then reads the deadline that was passed in `a0`.
pub proof fn lemma_set_timer_call(context: SbiContext, machine: MachineView)
    requires
        context.a7 == EXTENSION_TIMER,
        context.a6 == SbiFunction::SetTimer.spec_id(),
    ensures
        sbi_reply(context, machine) == (SbiError::Success, 0u64),
        sbi_effect(context, machine).mtimecmp == context.a0,
        sbi_effect(context, machine) == timer::spec_set_timer(machine, context.a0),
{
}

} // verus!
