//! Client-side core for a document-management REST service: credential
//! building, session authorization, query assembly, folder and document
//! collections, batch operations and storage reporting.
pub mod authorize;
pub mod document;
pub mod encode;
pub mod error;
pub mod export;
pub mod file;
pub mod import;
pub mod names;
pub mod report;
pub mod request;
pub mod text;
