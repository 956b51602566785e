//! Finds files with identical content in one directory and moves a copy of
//! each duplicate into a `dupes` subdirectory.
//!
//! The library holds every decision of a scan; the caller performs the file
//! system work that each decision asks for and reports back what happened.

pub mod path;
pub mod digest;
pub mod index;
pub mod scan;
pub mod model;
