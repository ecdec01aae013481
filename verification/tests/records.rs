use records_and_tracking::methods::attendance::check_status;
use records_and_tracking::methods::files::confirm_update;
use records_and_tracking::methods::staff::{resolve_user_id, UserIdInput};
use records_and_tracking::sync::engine::SYNC_INTERVAL_SECS;

#[test]
fn attendance_is_present_or_absent() {
    assert_eq!(check_status("Present"), Ok(()));
    assert_eq!(check_status("Absent"), Ok(()));
    for status in ["", "present", "Late", "Present ", "Absentee"] {
        assert_eq!(
            check_status(status),
            Err("Invalid status. Must be 'Present' or 'Absent'.".to_string()),
            "{}",
            status
        );
    }
}

#[test]
fn user_id_from_a_number_or_an_object() {
    assert_eq!(resolve_user_id(UserIdInput::Number(Some(12))), Ok(12));
    assert_eq!(resolve_user_id(UserIdInput::Number(None)), Ok(0));
    assert_eq!(resolve_user_id(UserIdInput::Object(Some(-3))), Ok(-3));
    assert_eq!(
        resolve_user_id(UserIdInput::Object(None)),
        Err("Invalid user_id format".to_string())
    );
    assert_eq!(resolve_user_id(UserIdInput::Other), Err("Invalid user_id type".to_string()));
}

#[test]
fn a_user_id_is_cut_to_32_bits() {
    assert_eq!(resolve_user_id(UserIdInput::Number(Some(1 << 32))), Ok(0));
    assert_eq!(resolve_user_id(UserIdInput::Number(Some((1 << 32) + 5))), Ok(5));
    assert_eq!(resolve_user_id(UserIdInput::Object(Some(i64::MAX))), Ok(-1));
    assert_eq!(resolve_user_id(UserIdInput::Object(Some(i32::MAX as i64 + 1))), Ok(i32::MIN));
}

#[test]
fn an_update_that_changed_nothing_found_no_file() {
    assert_eq!(confirm_update(0), Err("No file found with the provided ID.".to_string()));
    assert_eq!(confirm_update(1), Ok(()));
    assert_eq!(confirm_update(7), Ok(()));
}

#[test]
fn periodic_cycles_are_five_minutes_apart() {
    assert_eq!(SYNC_INTERVAL_SECS, 300);
}
