//! A search-result scraping engine: it shapes paginated queries for a
//! third-party search HTML endpoint, extracts structured result records from
//! returned markup, caches raw pages in a bounded least-recently-used store,
//! and aggregates results across pages until an end-of-results heuristic
//! fires. Network transport itself lives outside this crate; the modules here
//! hold the request shaping, extraction rules, cache, and pagination logic,
//! each with a verified contract.

pub mod cache;
pub mod dates;
pub mod parser;
pub mod request;
pub mod scrape;
pub mod session;
pub mod urls;
