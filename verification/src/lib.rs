//! A cross-platform process sandbox: given a command line and a set of
//! resource ceilings, it plans an isolated run of the target program —
//! CPU-time, wall-time, memory, output-size and process-count limits, stream
//! redirections, fresh kernel namespaces or a job object — decodes what the
//! wait returned, and renders the result record as JSON.
//!
//! The platform calls themselves (clone, exec, wait, the process and job
//! handles) are made by the binary around this library; everything this
//! library states about limits, plans, decoding and the JSON form is
//! verified.

pub mod error;
pub mod opts;
pub mod river;
pub mod runner;
pub mod sandbox;
pub mod status;
pub mod sys;
pub mod text;
pub mod utils;
