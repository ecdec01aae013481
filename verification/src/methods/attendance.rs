//! Attendance of staff.

use vstd::prelude::*;
use vstd::string::*;
use crate::text::str_eq;

verus! {

/// The attendance of one member of staff on one day.
#[derive(Debug, Clone, PartialEq)]
pub struct Attendance {
    pub attendance_id: i32,
    pub staff_id: i32,
    /// The day, as `YYYY-MM-DD`.
    pub date: String,
    /// `Present` or `Absent`.
    pub status: String,
    pub reason: Option<String>,
    pub half_day: bool,
    pub comments: Option<String>,
}

/// Whether a status is one that attendance knows: `Present` or `Absent`.
pub open spec fn is_attendance_status(status: Seq<char>) -> bool {
    status == "Present"@ || status == "Absent"@
}

/// Accepts the status of an attendance record, or says in words why not.
pub fn check_status(status: &str) -> (checked: Result<(), String>)
    ensures
        match checked {
            Ok(_) => is_attendance_status(status@),
            Err(message) => !is_attendance_status(status@) && message@
                == "Invalid status. Must be 'Present' or 'Absent'."@,
        },
{
    if str_eq(status, "Present") || str_eq(status, "Absent") {
        Ok(())
    } else {
        Err(String::from_str("Invalid status. Must be 'Present' or 'Absent'."))
    }
}

} // verus!
