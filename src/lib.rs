//! A small HTTP file server, split into verified decisions (which response a
//! request gets) and the unverified plumbing that performs network and file I/O.

pub mod config;
pub mod laws;
pub mod mime;
pub mod reply;
pub mod router;
