use homemagic_application::automation_compiler::{
    approval_for, canonical_decimal, classify_command, contains_lowercase, pointer_segment, schedule_is_valid,
    time_window_is_valid, timer_in_range, AutomationApprovalRequirement, AutomationSafetyProfile, CommandPayloadKind,
};

#[test]
fn canonical_decimal_contract_is_strict() {
    for valid in ["0", "1", "-1", "12.5", "0.01"] {
        assert!(canonical_decimal(valid), "{valid}");
    }
    for invalid in ["", "+1", "01", "1.0", "1e2", "-0", ".5", "1."] {
        assert!(!canonical_decimal(invalid), "{invalid}");
    }
}

#[test]
fn pointer_segments_escape_tilde_and_slash() {
    assert_eq!(pointer_segment("a/b~c"), "a~1b~0c");
    assert_eq!(pointer_segment("plain"), "plain");
    assert_eq!(pointer_segment(""), "");
}

#[test]
fn schedules_need_five_fields_a_valid_cron_and_a_known_zone() {
    assert!(schedule_is_valid("30 2 * * *", "Europe/Berlin"));
    assert!(!schedule_is_valid("not cron", "Europe/Berlin"));
    assert!(!schedule_is_valid("30 2 * * *", "Mars/Olympus"));
    assert!(!schedule_is_valid("0 30 2 * * *", "Europe/Berlin"));
}

#[test]
fn time_windows_need_a_zone_and_two_clock_times() {
    assert!(time_window_is_valid("UTC", "08:00:00", "17:30:00"));
    assert!(!time_window_is_valid("UTC", "8am", "17:30:00"));
    assert!(!time_window_is_valid("Nowhere/Land", "08:00:00", "17:30:00"));
}

#[test]
fn timers_must_be_positive_and_bounded() {
    assert!(timer_in_range(1, 10));
    assert!(timer_in_range(10, 10));
    assert!(!timer_in_range(0, 10));
    assert!(!timer_in_range(11, 10));
}

#[test]
fn lowercase_containment_ignores_ascii_case() {
    assert!(contains_lowercase("Garage Door Lock", "lock"));
    assert!(!contains_lowercase("Garage", "lock"));
    assert!(contains_lowercase("anything", ""));
}

#[test]
fn position_command_derives_motion_profile_and_approval() {
    let (profile, requirements) = classify_command("position.v1", CommandPayloadKind::PositionGoTo(42));
    assert_eq!(profile, AutomationSafetyProfile::ComfortMotion);
    assert_eq!(requirements.len(), 4);
    let (lock, lock_requirements) = classify_command("door_lock.v1", CommandPayloadKind::Unlock);
    assert_eq!(lock, AutomationSafetyProfile::AccessControl);
    assert!(lock_requirements.is_empty());
    assert_eq!(approval_for(&vec![AutomationSafetyProfile::Comfort]), AutomationApprovalRequirement::ActivationGrant);
    assert_eq!(approval_for(&vec![lock]), AutomationApprovalRequirement::ExplicitUserApproval);
}
