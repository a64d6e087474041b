//! Web-framework middleware: the decisions it makes, apart from the
//! framework's request and response types.

pub mod axum;
