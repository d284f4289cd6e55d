use rvmon::csr::{Csr, CsrFile};
use rvmon::machine::{Effect, Machine};
use rvmon::mm::FramePool;
use rvmon::sbi::base::{handle_base_call, probe_extension};
use rvmon::sbi::timer::{handle_timer_call, set_timer};
use rvmon::sbi::{
    get_hardware_features, handle_hardware_features_call, handle_sbi_call, SbiError, SbiExtension,
    SbiFunction,
};
use rvmon::trap::SbiContext;

const NOT_SUPPORTED: u64 = (-2i64) as u64;

fn machine() -> Machine {
    let mut csrs = CsrFile::reset(3, 0x8000_0000_0014_1181);
    csrs.mvendorid = 0x489;
    csrs.marchid = 0x8000_0000_0000_0007;
    csrs.mimpid = 0x2019_0531;
    Machine::new(csrs, 1000, FramePool::new(0x8020_0000, 2, 0, 0xAA).unwrap())
}

fn call(ext: u64, function: u64, a0: u64) -> SbiContext {
    SbiContext { a0, a1: 0x11, a2: 0x22, a3: 0x33, a4: 0x44, a5: 0x55, a6: function, a7: ext }
}

fn untouched(before: &SbiContext, after: &SbiContext) -> bool {
    before.a2 == after.a2
        && before.a3 == after.a3
        && before.a4 == after.a4
        && before.a5 == after.a5
        && before.a6 == after.a6
        && before.a7 == after.a7
}

#[test]
fn get_spec_version_answers_two() {
    let mut m = machine();
    let mut ctx = call(0x10, 0, 0);
    assert_eq!(handle_sbi_call(&mut ctx, &mut m), Ok(()));
    assert_eq!(ctx.a0, 0);
    assert_eq!(ctx.a1, 0x2);
    assert!(m.journal.is_empty());
}

#[test]
fn probe_extension_timer_answers_one() {
    let mut m = machine();
    let mut ctx = call(0x10, 3, 0x54494D45);
    assert_eq!(handle_sbi_call(&mut ctx, &mut m), Ok(()));
    assert_eq!(ctx.a0, 0);
    assert_eq!(ctx.a1, 1);
}

#[test]
fn set_timer_programs_comparator() {
    let mut m = machine();
    let deadline = 5_000_000u64;
    let mut ctx = call(0x54494D45, 0x100, deadline);
    assert_eq!(handle_sbi_call(&mut ctx, &mut m), Ok(()));
    assert_eq!(ctx.a0, 0);
    assert_eq!(ctx.a1, 0);
    assert_eq!(rvmon::csr::read_timecmp(&m), deadline);
    assert_eq!(m.mtimecmp, deadline);
}

#[test]
fn set_timer_masks_the_interrupt_while_it_writes() {
    let mut m = machine();
    m.csrs.mie = 0x888;
    set_timer(&mut m, 77);
    assert_eq!(
        m.journal,
        vec![
            Effect::CsrWrite(Csr::MIE, 0x808),
            Effect::TimecmpWrite(77),
            Effect::CsrWrite(Csr::MIE, 0x888),
        ]
    );
    assert_eq!(m.csrs.mie, 0x888);
    assert_eq!(m.mtimecmp, 77);
    assert_eq!(m.mtime, 1000);
}

#[test]
fn set_timer_enables_a_disabled_timer_interrupt() {
    let mut m = machine();
    m.csrs.mie = 0x8;
    set_timer(&mut m, u64::MAX);
    assert_eq!(m.csrs.mie, 0x88);
    assert_eq!(m.mtimecmp, u64::MAX);
}

#[test]
fn base_calls_answer_versions_and_ids() {
    let m = machine();
    let expected: [(u64, u64); 8] = [
        (0, 0x2),
        (1, 0x4E534249),
        (2, 0x1),
        (3, 0),
        (4, 3),
        (5, 0x489),
        (6, 0x8000_0000_0000_0007),
        (7, 0x2019_0531),
    ];
    for (function, value) in expected {
        let before = call(0x10, function, 0x99);
        let mut ctx = before;
        assert_eq!(handle_base_call(function, &mut ctx, &m), Ok(()));
        assert_eq!(ctx.a0, 0, "function {}", function);
        assert_eq!(ctx.a1, value, "function {}", function);
        assert!(untouched(&before, &ctx));
    }
}

#[test]
fn base_call_unknown_function_is_not_supported() {
    let m = machine();
    for function in [8u64, 0x100, 0x200, u64::MAX] {
        let mut ctx = call(0x10, function, 0x10);
        assert_eq!(handle_base_call(function, &mut ctx, &m), Ok(()));
        assert_eq!(ctx.a0, NOT_SUPPORTED);
        assert_eq!(ctx.a0, 0xFFFF_FFFF_FFFF_FFFE);
        assert_eq!(ctx.a1, 0);
    }
}

#[test]
fn probe_knows_exactly_three_extensions() {
    assert!(probe_extension(0x10));
    assert!(probe_extension(0x54494D45));
    assert!(probe_extension(0x48574446));
    for id in [0u64, 1, 0x11, 0xF, 0x54494D44, 0x54494D46, 0x48574447, 0x735049, u64::MAX] {
        assert!(!probe_extension(id), "id {:#x}", id);
    }
}

#[test]
fn probe_call_answers_zero_with_success_for_other_ids() {
    let mut m = machine();
    for id in [0u64, 0x11, 0x54494D44, u64::MAX] {
        let mut ctx = call(0x10, 3, id);
        assert_eq!(handle_sbi_call(&mut ctx, &mut m), Ok(()));
        assert_eq!(ctx.a0, 0);
        assert_eq!(ctx.a1, 0);
    }
    for id in [0x10u64, 0x54494D45, 0x48574446] {
        let mut ctx = call(0x10, 3, id);
        assert_eq!(handle_sbi_call(&mut ctx, &mut m), Ok(()));
        assert_eq!(ctx.a0, 0);
        assert_eq!(ctx.a1, 1);
    }
}

#[test]
fn unknown_extension_is_not_supported() {
    let mut m = machine();
    for ext in [0u64, 0x11, 0x54494D44, 0x735049, u64::MAX] {
        let before = call(ext, 0, 7);
        let mut ctx = before;
        assert_eq!(handle_sbi_call(&mut ctx, &mut m), Ok(()));
        assert_eq!(ctx.a0, NOT_SUPPORTED);
        assert_eq!(ctx.a1, 0);
        assert!(untouched(&before, &ctx));
    }
    assert!(m.journal.is_empty());
    assert_eq!(m.mtimecmp, u64::MAX);
}

#[test]
fn timer_call_unknown_function_changes_nothing() {
    let mut m = machine();
    let mut ctx = call(0x54494D45, 0, 123);
    assert_eq!(handle_timer_call(0, &mut ctx, &mut m), Ok(()));
    assert_eq!(ctx.a0, NOT_SUPPORTED);
    assert_eq!(ctx.a1, 0);
    assert_eq!(m.mtimecmp, u64::MAX);
    assert!(m.journal.is_empty());
}

#[test]
fn function_of_another_extension_is_not_supported() {
    let mut m = machine();
    let mut ctx = call(0x10, 0x100, 123);
    assert_eq!(handle_sbi_call(&mut ctx, &mut m), Ok(()));
    assert_eq!(ctx.a0, NOT_SUPPORTED);
    assert_eq!(m.mtimecmp, u64::MAX);
    let mut ctx = call(0x54494D45, 0x200, 123);
    assert_eq!(handle_sbi_call(&mut ctx, &mut m), Ok(()));
    assert_eq!(ctx.a0, NOT_SUPPORTED);
    let mut ctx = call(0x48574446, 3, 0x10);
    assert_eq!(handle_sbi_call(&mut ctx, &mut m), Ok(()));
    assert_eq!(ctx.a0, NOT_SUPPORTED);
    assert_eq!(ctx.a1, 0);
}

#[test]
fn hardware_features_mask_is_empty() {
    let mut m = machine();
    assert_eq!(get_hardware_features(&m), 0);
    let mut ctx = call(0x48574446, 0x200, 5);
    assert_eq!(handle_sbi_call(&mut ctx, &mut m), Ok(()));
    assert_eq!(ctx.a0, 0);
    assert_eq!(ctx.a1, 0);
    let mut ctx = call(0x48574446, 0x201, 5);
    assert_eq!(handle_hardware_features_call(0x201, &mut ctx, &m), Ok(()));
    assert_eq!(ctx.a0, NOT_SUPPORTED);
    assert_eq!(ctx.a1, 0);
}

#[test]
fn error_codes_are_the_negative_numbers() {
    let all = [
        (SbiError::Success, 0i64),
        (SbiError::Failed, -1),
        (SbiError::NotSupported, -2),
        (SbiError::InvalidParam, -3),
        (SbiError::Denied, -4),
        (SbiError::InvalidAddress, -5),
        (SbiError::AlreadyAvailable, -6),
    ];
    for (error, code) in all {
        assert_eq!(error.code(), code);
        assert_eq!(error.word(), code as u64);
        assert_eq!(SbiError::from_word(code as u64), Some(error));
    }
    assert_eq!(SbiError::from_word(1), None);
    assert_eq!(SbiError::from_word((-7i64) as u64), None);
}

#[test]
fn extension_and_function_ids() {
    assert_eq!(SbiExtension::Base.id(), 0x10);
    assert_eq!(SbiExtension::Timer.id(), 0x54494D45);
    assert_eq!(SbiExtension::HardwareFeatures.id(), 0x48574446);
    for ext in [SbiExtension::Base, SbiExtension::Timer, SbiExtension::HardwareFeatures] {
        assert_eq!(SbiExtension::from_id(ext.id()), Some(ext));
    }
    assert_eq!(SbiExtension::from_id(0), None);
    let functions = [
        (SbiFunction::GetSpecVersion, 0u64, SbiExtension::Base),
        (SbiFunction::GetImplId, 1, SbiExtension::Base),
        (SbiFunction::GetImplVersion, 2, SbiExtension::Base),
        (SbiFunction::ProbeExtension, 3, SbiExtension::Base),
        (SbiFunction::GetMhartid, 4, SbiExtension::Base),
        (SbiFunction::GetMvendorid, 5, SbiExtension::Base),
        (SbiFunction::GetMarchid, 6, SbiExtension::Base),
        (SbiFunction::GetMimpid, 7, SbiExtension::Base),
        (SbiFunction::SetTimer, 0x100, SbiExtension::Timer),
        (SbiFunction::GetHardwareFeatures, 0x200, SbiExtension::HardwareFeatures),
    ];
    for (function, id, ext) in functions {
        assert_eq!(function.id(), id);
        assert_eq!(function.extension(), ext);
        assert_eq!(SbiFunction::from_id(id), Some(function));
    }
    assert_eq!(SbiFunction::from_id(8), None);
    assert_eq!(SbiFunction::from_id(0x101), None);
}
