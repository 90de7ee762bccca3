//! A small library behind a command-line screenshot utility: it parses the
//! utility's arguments and sequences the capture workflow (launch a browser,
//! open a tab, navigate, wait for a readiness marker, capture a JPEG, write it
//! to disk), leaving the browser calls and the file write to the binary.

pub mod capture;
pub mod cli;
