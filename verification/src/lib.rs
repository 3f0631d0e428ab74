//! Mirror lookup and submodule-manifest rewriting for repositories that are
//! cloned from a secondary hosting service.
//!
//! The library holds the logic of the tool: building the duplicate-check
//! request, classifying the response, extracting the mirror URL from the
//! HTML fragment in the response message, and rewriting the lines of a
//! `.gitmodules` manifest. The surrounding binary does the network and file
//! I/O and hands plain byte values in and out.

pub mod errors;
pub mod manifest;
pub mod resolver;
pub mod scan;
