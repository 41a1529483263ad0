//! Resolving gofile content identifiers, walking a folder listing one level
//! deep, and checking each stored file against its MD5 digest.

pub mod digest;
pub mod error;
pub mod resolve;
pub mod walk;
