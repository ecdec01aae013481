//! Offenders and their history.

use vstd::prelude::*;

verus! {

/// An offender, as the offender commands list it.
#[derive(Debug, Clone)]
pub struct Offender {
    pub offender_id: Option<i64>,
    pub full_name: String,
    pub national_id: Option<String>,
    pub date_of_birth: Option<String>,
    pub gender: Option<String>,
    pub photo_path: Option<String>,
    pub notes: Option<String>,
    pub date_created: Option<String>,
    /// The file that the offender belongs to.
    pub file_id: Option<i64>,
    pub penalty: Option<String>,
    pub penalty_notes: Option<String>,
}

/// One entry of an offender's history.
#[derive(Debug, Clone)]
pub struct OffenderHistory {
    pub id: Option<i64>,
    pub offender_id: i64,
    pub file_id: Option<i64>,
    pub case_id: Option<i64>,
    pub offense_date: Option<String>,
    pub penalty: Option<String>,
    pub penalty_notes: Option<String>,
    pub notes: Option<String>,
    pub created_at: Option<String>,
}

} // verus!
