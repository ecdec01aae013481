//! Users.

use vstd::prelude::*;

verus! {

/// A user of the application.
#[derive(Debug, Clone, PartialEq)]
pub struct User {
    pub user_id: i32,
    pub name: String,
    pub role: String,
    pub email: String,
    pub phone_number: Option<String>,
    pub password_hash: String,
    pub status: String,
}

} // verus!
