//! Request-building, retry, session and query logic for Flowfull and
//! Flowless-compatible backends.

use vstd::prelude::*;

pub mod auth;
pub mod bridge;
pub mod client;
pub mod config;
pub mod error;
pub mod headers;
pub mod json;
pub mod middleware;
pub mod operators;
pub mod payments;
pub mod pieces;
pub mod query;
pub mod request;
pub mod session;
pub mod storage;
pub mod response;
pub mod text;
pub mod timestamp;
pub mod upload;
pub mod urls;

pub use bridge::{BridgeValidator, BridgeValidatorBuilder, SessionData, ValidationMode, ValidationOptions};
pub use config::{ClientConfig, ClientConfigBuilder, RetryConfig};
pub use error::{FlowfullError, Result};
pub use json::JsonValue;
pub use operators::{
    between, contains, ends_with, eq, gt, gte, ilike, in_op, is_null, like, lt, lte, ne, not_between,
    not_in, not_null, op, starts_with, FilterOperator,
};
pub use query::{QueryBuilder, SortDirection};
pub use request::RequestOptions;
pub use response::{ApiResponse, PaginationMeta, RawResponse};
pub use session::{PUBFLOW_SESSION_ID, PUBFLOW_USER_DATA};
pub use storage::FileStorage;
pub use upload::{UploadBuilder, UploadFile};

verus! {
} // verus!
