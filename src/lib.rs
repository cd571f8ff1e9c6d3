//! A content-addressed entry store with tagged, directed links between
//! entries, and the user / commitment handlers built on it.
pub mod address;
pub mod record;
pub mod store;
pub mod links;
pub mod resolve;
pub mod zome;
pub mod laws;
