use driver_core::buffer::{
    check_min_length, mapping_reusable, MDL_MAPPED_TO_SYSTEM_VA, MDL_SOURCE_IS_NONPAGED_POOL,
};
use driver_core::ctl::{
    ctl_access, ctl_code, ctl_device_type, ctl_function, ctl_method, DEVICE_ZERO, FILE_ANY_ACCESS,
    IOCTL_ZERO_CLEAR_STATS, IOCTL_ZERO_GET_STATS, METHOD_BUFFERED, METHOD_NEITHER,
};
use driver_core::lifecycle::{
    begin_setup, begin_teardown, on_alias_published, on_alias_revoked, on_device_created,
    on_device_destroyed, on_rollback_done, LifecycleAction, LifecyclePhase, StepOutcome,
};
use driver_core::logging::LogLevel;
use driver_core::status::DriverError;

#[test]
fn published_control_codes_match_their_encoding() {
    assert_eq!(
        ctl_code(DEVICE_ZERO, 0x800, METHOD_BUFFERED, FILE_ANY_ACCESS),
        IOCTL_ZERO_GET_STATS
    );
    assert_eq!(
        ctl_code(DEVICE_ZERO, 0x801, METHOD_NEITHER, FILE_ANY_ACCESS),
        IOCTL_ZERO_CLEAR_STATS
    );
    assert_eq!(IOCTL_ZERO_GET_STATS, 0x80222000);
    assert_eq!(IOCTL_ZERO_CLEAR_STATS, 0x80222007);
}

#[test]
fn control_code_fields_decode_back() {
    let code = ctl_code(DEVICE_ZERO, 0x800, METHOD_BUFFERED, FILE_ANY_ACCESS);
    assert_eq!(ctl_device_type(code), DEVICE_ZERO);
    assert_eq!(ctl_function(code), 0x800);
    assert_eq!(ctl_method(code), METHOD_BUFFERED);
    assert_eq!(ctl_access(code), FILE_ANY_ACCESS);

    let code = ctl_code(0x1234, 0xabc, 2, 1);
    assert_eq!(ctl_device_type(code), 0x1234);
    assert_eq!(ctl_function(code), 0xabc);
    assert_eq!(ctl_method(code), 2);
    assert_eq!(ctl_access(code), 1);
}

#[test]
fn length_gate_accepts_exactly_at_the_minimum() {
    assert!(check_min_length(16, 16).is_ok());
    assert!(check_min_length(17, 16).is_ok());
    assert_eq!(check_min_length(15, 16), Err(DriverError::BufferTooSmall));
    assert!(check_min_length(0, 1).is_err());
    assert!(check_min_length(0, 0).is_ok());
}

#[test]
fn mapping_reuse_follows_the_descriptor_flags() {
    assert!(mapping_reusable(MDL_MAPPED_TO_SYSTEM_VA));
    assert!(mapping_reusable(MDL_SOURCE_IS_NONPAGED_POOL));
    assert!(mapping_reusable(MDL_MAPPED_TO_SYSTEM_VA | MDL_SOURCE_IS_NONPAGED_POOL));
    assert!(mapping_reusable(0xffff));
    assert!(!mapping_reusable(0));
    assert!(!mapping_reusable(0x0008));
}

#[test]
fn setup_success_ends_operational() {
    let (phase, action) = begin_setup();
    assert_eq!(action, LifecycleAction::CreateDevice);
    let (phase, action) = on_device_created(phase, StepOutcome::Done);
    assert_eq!(action, LifecycleAction::PublishAlias);
    let (phase, action) = on_alias_published(phase, StepOutcome::Done);
    assert_eq!(phase, LifecyclePhase::Operational);
    assert_eq!(action, LifecycleAction::Report);
}

#[test]
fn create_failure_is_terminal_with_nothing_to_undo() {
    let (phase, _) = begin_setup();
    let (phase, action) = on_device_created(phase, StepOutcome::Failed { status: 0xC000009A });
    assert_eq!(phase, LifecyclePhase::FailedClean { status: 0xC000009A });
    assert_eq!(action, LifecycleAction::Report);
}

#[test]
fn publish_failure_rolls_the_device_back() {
    let (phase, _) = begin_setup();
    let (phase, _) = on_device_created(phase, StepOutcome::Done);
    let (phase, action) = on_alias_published(phase, StepOutcome::Failed { status: 0xC0000035 });
    assert_eq!(phase, LifecyclePhase::RollingBack { status: 0xC0000035 });
    assert_eq!(action, LifecycleAction::DestroyDevice);
    let (phase, action) = on_rollback_done(phase);
    assert_eq!(phase, LifecyclePhase::FailedClean { status: 0xC0000035 });
    assert_eq!(action, LifecycleAction::Report);
}

#[test]
fn teardown_revokes_the_alias_before_destroying() {
    let (phase, _) = begin_setup();
    let (phase, _) = on_device_created(phase, StepOutcome::Done);
    let (phase, _) = on_alias_published(phase, StepOutcome::Done);
    let (phase, action) = begin_teardown(phase);
    assert_eq!(action, LifecycleAction::RevokeAlias);
    let (phase, action) = on_alias_revoked(phase);
    assert_eq!(action, LifecycleAction::DestroyDevice);
    let (phase, action) = on_device_destroyed(phase);
    assert_eq!(phase, LifecyclePhase::Stopped);
    assert_eq!(action, LifecycleAction::Report);
}

#[test]
fn log_levels_carry_the_platform_severities() {
    assert_eq!(LogLevel::Error.severity(), 0);
    assert_eq!(LogLevel::Warning.severity(), 1);
    assert_eq!(LogLevel::Info.severity(), 2);
    assert_eq!(LogLevel::Debug.severity(), 3);
    assert_eq!(LogLevel::Verbose.severity(), 4);
}
