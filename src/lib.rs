//! Astronomical observation logs: request and document schema, owner-scoped
//! filters, an in-process log collection, and the decisions of the request
//! handlers.
//!
//! The data-access operations (`log_insertion`, `log_retrieval`,
//! `log_replacement`, `log_listing`, `log_deletion`) and their laws are stated
//! and proved of `LogStore`, the collection held in this process. The deployed
//! service runs database-backed functions of the same names in its binary,
//! which send the filters built here to the document database; that I/O is
//! not verified.

pub mod schema;
pub mod filter;
pub mod store;
pub mod access;
pub mod config;
pub mod handler;

pub use access::{log_deletion, log_insertion, log_listing, log_replacement, log_retrieval};
pub use config::{Config, ConfigError};
pub use filter::LogFilter;
pub use handler::{add_response, found_log, ok_response, HandlerError, Response};
pub use schema::{
    DeleteLogRequest, GetListRequest, GetLogRequest, Log, LogId, Observation, ObservationRequest,
};
pub use store::{DeleteResult, LogStore, StoreError, UpdateResult};
