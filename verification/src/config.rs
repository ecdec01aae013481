//! What the library knows of the two remote services: the document store and
//! the table service.

pub mod firebase;
pub mod supabase;
