//! Notifications.

use vstd::prelude::*;

verus! {

/// A notification to one user, or to all.
#[derive(Debug, Clone, PartialEq)]
pub struct Notification {
    pub notification_id: i32,
    pub message: String,
    /// `Info`, `Warning`, `Error` or `Success`.
    pub notification_type: String,
    pub date_created: String,
    pub read_status: bool,
    pub user_id: Option<i32>,
}

} // verus!
