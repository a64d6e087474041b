//! Bridge validation: checking a user's session from a backend.

pub mod types;
pub mod validator;

pub use types::{SessionData, ValidationMode, ValidationOptions};
pub use validator::{BridgeValidator, BridgeValidatorBuilder};
