//! Declarative HTTP request descriptors with a verified compilation pipeline.
//!
//! A request type is described by a small annotation grammar (method, URL
//! template, response shape, and per-field roles).  This crate compiles such
//! annotations into validated descriptors, evaluates them into concrete
//! request parts (path, query, headers, body), and resolves the standard
//! `{code, msg, data}` response envelope into a typed payload.

use vstd::prelude::*;

pub mod container;
pub mod emit;
pub mod envelope;
pub mod errors;
pub mod fields;
pub mod grammar;
pub mod pipeline;
pub mod request;
pub mod schema;
pub mod serialize;
pub mod strutil;
pub mod utils;

pub use container::Method;
pub use container::RequestVariable;
pub use errors::LarkError;
pub use fields::FieldVariable;
pub use fields::FieldsVariable;
pub use fields::VariableMode;
pub use schema::Body;
pub use schema::BodyResponse;
pub use schema::FlattenResponse;
pub use schema::Request;
pub use schema::Response;
pub use serialize::RequestSerialize;
pub use utils::replace_path_params;

verus! {

/// Result type used throughout the crate: success or a coded error.
pub type LarkResult<T> = core::result::Result<T, LarkError>;

} // verus!
