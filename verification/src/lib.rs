//! Command-line front end of the chamber compiler wrapper.
//!
//! An argument vector is classified as a build to run, a request for the
//! usage text, or a parse error; a build is then completed with the
//! conventional search paths and system root.

pub mod config;
pub mod crate_types;
pub mod driver;
pub mod options;
