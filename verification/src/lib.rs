//! Verified core of an image-annotation service.
//!
//! The service stores images in a blob store and their metadata (image rows,
//! bounding-box annotations, canvas dimensions) in a relational store. The
//! modules here hold the logic that is worth proving: the upload saga that
//! keeps the two stores consistent, the atomic replace-all-annotations
//! transaction, the multipart ingest decisions, and the text building for
//! store keys and SQL statements. The unverified binary around this crate
//! performs the actual network calls and feeds their outcomes back in.

pub mod annotation;
pub mod blob;
pub mod ingest;
pub mod meta;
pub mod pages;
pub mod replace;
pub mod sql;
pub mod text;
pub mod upload;
