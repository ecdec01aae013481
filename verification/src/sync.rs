//! One sync cycle: what is uploaded, what is downloaded, how a conflict is
//! settled and where the next cycle resumes.

pub mod clock;
pub mod engine;
pub mod laws;
pub mod mapper;
pub mod model;
pub mod pull;
pub mod push;
pub mod tables;
