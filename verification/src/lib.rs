//! A paginated article store: records kept in two content variants, listed
//! page by page, soft-deleted, and removed only by callers who may do so.

pub mod api;
pub mod article;
pub mod host;
pub mod laws;
pub mod mutation;
pub mod paging;
pub mod permission;
pub mod query;
pub mod store;
pub mod table;
