//! Turns the transactions of one block into persistable transaction entities.

pub mod id;
pub mod json;
pub mod model;
pub mod transform;
pub mod laws;
