//! Query construction, response reading and replication paging for RESO Web API
//! (OData) servers.
//!
//! The crate is organised leaf-first:
//!
//! - [`text`]: the string primitives every clause is rendered with;
//! - [`error`]: the one error type of the crate;
//! - [`query`]: the immutable query model and its rendering;
//! - [`builder`]: the fluent builder that validates clause combinations;
//! - [`replication`]: the replication query, its builder and its pages;
//! - [`json`]: JSON documents held as text and read through `serde_json`;
//! - [`adapter`]: what a server's reply means for each kind of request;
//! - [`pagination`]: the driver that follows continuation links;
//! - [`report`]: a plain-text listing of a response's records.
//!
//! Nothing here performs I/O: a caller sends the rendered request over a
//! transport of its choice and hands the reply back as plain values.

pub mod adapter;
pub mod builder;
pub mod error;
pub mod json;
pub mod pagination;
pub mod query;
pub mod replication;
pub mod report;
pub mod text;

pub use crate::adapter::{
    next_page_request, query_request, read_count, read_replication, read_response, records_of,
    replication_request, Method, Reply, Request,
};
pub use crate::builder::{
    build_count_query, build_query, build_query_by_key, build_query_with_expand,
    build_query_with_order, build_query_with_pagination, build_query_with_select, BuilderView,
    QueryBuilder,
};
pub use crate::error::ResoError;
pub use crate::json::{Document, Field};
pub use crate::pagination::{collect_pages, Collected, PaginationDriver, Step};
pub use crate::query::{Direction, OrderBy, Query, QueryView};
pub use crate::replication::{
    build_replication_query, PageView, ReplicationBuilderView, ReplicationQuery,
    ReplicationQueryBuilder, ReplicationQueryView, ReplicationResponse,
};
pub use crate::report::records_report;
