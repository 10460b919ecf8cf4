//! A job-listing aggregation library.
//!
//! The library's core is an ingestion pipeline: a paginating fetcher walks a
//! remote job-search provider page by page, its results are normalized into
//! the internal schema, and a dedup writer inserts them into a store in one
//! transaction, classifying each record as inserted or skipped by a
//! URL-uniqueness rule.  The HTTP transport and the real database live
//! outside the library; the decisions they carry out are made here.

pub mod adzuna;
pub mod errors;
pub mod models;
pub mod pagination;
pub mod search;
pub mod store;
pub mod writer;
