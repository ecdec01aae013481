//! The records that the commands of the application take and give, and what
//! those commands decide before and after they reach a store.

pub mod attendance;
pub mod auth;
pub mod cases;
pub mod files;
pub mod notifications;
pub mod offenders;
pub mod staff;
pub mod users;
