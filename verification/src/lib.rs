//! A temporary shared clipboard: one text value that expires after a
//! time-to-live, the parsing of the requests that read and write it, and the
//! decisions that the server takes for each request.
pub mod state;
pub mod text;
pub mod headers;
pub mod service;
pub mod request;
pub mod handling;
