//! Code review of uploaded applications.
//!
//! An application arrives as a zip archive. Its files are stored in one
//! transaction (`services`), listed page by page (`listing`, `detail`), and
//! analysed on request by a language model (`openai`), whose answers are
//! cached per file and kind (`analysis`), per application (`summary`) and, as
//! a graph script, per file (`graph`).
//!
//! Nothing here talks to storage, to the network or to the file system. A
//! request is served by a machine that says what to ask next and takes what
//! came back; the caller does the asking.

pub mod analysis;
pub mod archive;
pub mod detail;
pub mod errors;
pub mod graph;
pub mod handlers;
pub mod json;
pub mod listing;
pub mod models;
pub mod openai;
pub mod query;
pub mod reply;
pub mod services;
pub mod summary;
pub mod text;
