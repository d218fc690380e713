//! Client-side core of a command-line front end for a PACS server.
//!
//! The library models the four record kinds of the DICOM hierarchy
//! (patients, studies, series, instances), resolves user-selected column
//! subsets, projects records into tabular reports, parses `Name=Value`
//! tag pairs, and merges the mutually exclusive sources of an
//! anonymization or modification request into one canonical object.
//! Network transport, file reading and argument parsing live outside the
//! library; its functions take and return plain values.

pub mod columns;
pub mod config;
pub mod entity;
pub mod errors;
pub mod listing;
pub mod modality;
pub mod options;
pub mod project;
pub mod tables;
pub mod tagpairs;
pub mod text;
