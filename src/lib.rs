//! Calendar sources addressed by URL or path, their identity hash, and the
//! policy that decides when a local cache of their content is read or refreshed.
pub mod caching;
pub mod fetcher;
