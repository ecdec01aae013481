//! Case files.

use vstd::prelude::*;
use vstd::string::*;
use crate::config::supabase::QueryFilter;

verus! {

/// A case file.
#[derive(Debug)]
pub struct File {
    pub file_id: i32,
    pub case_number: String,
    pub case_type: String,
    pub purpose: String,
    pub uploaded_by: i32,
    pub current_location: String,
    pub notes: Option<String>,
    pub date_recieved: Option<String>,
    pub required_on: Option<String>,
    pub required_on_signature: Option<String>,
    pub date_returned: Option<String>,
    pub date_returned_signature: Option<String>,
    /// The soft-delete mark as the table service holds it: 0 or 1.
    pub deleted: Option<i32>,
    pub is_deleted: Option<bool>,
}

/// The time that an RFC 3339 text names, written as the table service
/// compares it: date, time of day to the microsecond, and `+00`. `None`
/// where the text is no RFC 3339 time.
pub uninterp spec fn filter_time_of(text: Seq<char>) -> Option<Seq<char>>;

/// Reads an RFC 3339 text with `chrono::DateTime::parse_from_rfc3339`, takes
/// the instant to UTC and writes it with `format` as
/// `%Y-%m-%d %H:%M:%S%.6f+00`. Claimed is that the result depends on the
/// text alone, and is `None` exactly where the text does not parse.
#[verifier::external_body]
fn filter_time(text: &str) -> (written: Option<String>)
    ensures
        match written {
            Some(w) => filter_time_of(text@) == Some(w@),
            None => filter_time_of(text@).is_none(),
        },
{
    match chrono::DateTime::parse_from_rfc3339(text) {
        Ok(t) => Some(t.with_timezone(&chrono::Utc).format("%Y-%m-%d %H:%M:%S%.6f+00").to_string()),
        Err(_) => None,
    }
}

/// Reads the clock with `chrono::Utc::now` and writes the reading with
/// `format` as `%Y-%m-%d %H:%M:%S%.6f+00`. Nothing is claimed of the
/// reading.
#[verifier::external_body]
fn filter_time_now() -> (written: String) {
    chrono::Utc::now().format("%Y-%m-%d %H:%M:%S%.6f+00").to_string()
}

/// The condition that selects the files modified after the time that
/// `time_text` names.
pub fn modified_after(time_text: &str) -> (filter: QueryFilter)
    ensures
        filter.column@ == "last_modified"@,
        filter.condition@ == "gt."@ + time_text@,
{
    let mut condition = String::from_str("gt.");
    condition.append(time_text);
    QueryFilter { column: String::from_str("last_modified"), condition }
}

/// The condition that selects the files modified since the last sync, whose
/// time is stored as RFC 3339 text. Where none is stored, or what is stored
/// is no such text, the present time takes its place.
pub fn modified_since_last_sync(stored: Option<&str>) -> (filter: QueryFilter)
    ensures
        filter.column@ == "last_modified"@,
        filter.condition@.len() >= 3,
        filter.condition@.subrange(0, 3) == "gt."@,
        match stored {
            Some(text) => match filter_time_of(text@) {
                Some(written) => filter.condition@ == "gt."@ + written,
                None => true,
            },
            None => true,
        },
{
    proof {
        reveal_strlit("gt.");
    }
    let written = match stored {
        Some(text) => filter_time(text),
        None => None,
    };
    let filter = match written {
        Some(time_text) => modified_after(time_text.as_str()),
        None => {
            let now = filter_time_now();
            modified_after(now.as_str())
        },
    };
    assert(filter.condition@.subrange(0, 3) =~= "gt."@);
    filter
}

/// What the update of a file answers, by the number of rows that changed:
/// an update that changed none found no file.
pub fn confirm_update(rows_updated: usize) -> (confirmed: Result<(), String>)
    ensures
        match confirmed {
            Ok(_) => rows_updated > 0,
            Err(message) => rows_updated == 0 && message@
                == "No file found with the provided ID."@,
        },
{
    if rows_updated == 0 {
        Err(String::from_str("No file found with the provided ID."))
    } else {
        Ok(())
    }
}

} // verus!
