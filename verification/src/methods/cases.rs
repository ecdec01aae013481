//! Cases.

use vstd::prelude::*;

verus! {

/// A case, as the case commands list it.
#[derive(Debug, Clone, PartialEq)]
pub struct Case {
    pub case_id: i32,
    pub title: String,
    pub status: String,
    pub assigned_staff_id: Option<i32>,
    pub priority: String,
    pub date_created: String,
}

} // verus!
