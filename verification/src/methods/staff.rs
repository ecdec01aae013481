//! Staff.

use vstd::prelude::*;
use vstd::string::*;

verus! {

/// A member of staff.
#[derive(Debug, Clone, PartialEq)]
pub struct Staff {
    pub staff_id: i32,
    pub user_id: i32,
    pub role: String,
    pub contact_number: Option<String>,
    pub status: String,
}

/// The user that a new member of staff belongs to, as a caller names it: by
/// a number, or by an object that holds the number under `user_id`. `None`
/// stands for a number that is no 64-bit integer, and for an object without
/// such a number.
#[derive(Clone, Copy, PartialEq, Eq, Structural, Debug)]
pub enum UserIdInput {
    Number(Option<i64>),
    Object(Option<i64>),
    Other,
}

/// The user identifier that an input names. A number that is no integer
/// counts as zero; an integer is cut to its low 32 bits.
pub open spec fn user_id_of(input: UserIdInput) -> Option<i32> {
    match input {
        UserIdInput::Number(Some(n)) => Some(n as i32),
        UserIdInput::Number(None) => Some(0i32),
        UserIdInput::Object(Some(n)) => Some(n as i32),
        UserIdInput::Object(None) => None,
        UserIdInput::Other => None,
    }
}

/// The user identifier that an input names, or in words why it names none.
pub fn resolve_user_id(input: UserIdInput) -> (resolved: Result<i32, String>)
    ensures
        match resolved {
            Ok(id) => user_id_of(input) == Some(id),
            Err(message) => user_id_of(input).is_none() && message@ == (if input is Object {
                "Invalid user_id format"@
            } else {
                "Invalid user_id type"@
            }),
        },
{
    match input {
        UserIdInput::Number(Some(n)) => Ok(#[verifier::truncate] (n as i32)),
        UserIdInput::Number(None) => Ok(0),
        UserIdInput::Object(Some(n)) => Ok(#[verifier::truncate] (n as i32)),
        UserIdInput::Object(None) => Err(String::from_str("Invalid user_id format")),
        UserIdInput::Other => Err(String::from_str("Invalid user_id type")),
    }
}

} // verus!
