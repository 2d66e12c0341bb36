//! Client-side logic for driving an eSCL ("AirScan") network scanner:
//! building the scan-settings document, classifying the scanner's replies
//! while submitting a job, and pacing the document-fetch loop.
//!
//! The library itself performs no I/O: a host program posts the requests,
//! sleeps, and writes files, and feeds every reply back into the state
//! machines defined here.

pub mod fetch;
pub mod filename;
pub mod settings;
pub mod submit;
pub mod urlops;
