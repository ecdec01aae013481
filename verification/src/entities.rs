//! Records of the local store as they are handed to its users.

pub mod offenders;
