//! A schema-validation engine over dynamically shaped data.
//!
//! Data is represented by [`AS3Data`], a closed tree of objects, lists and
//! scalars; the rules it must satisfy are an [`AS3Validator`] tree of the
//! same shape. Validation walks the two trees together and returns either
//! success or the first violation found, as an `AS3ValidationError`. A
//! validator tree can also be built from a declarative configuration
//! document.

pub mod builder;
pub mod data;
pub mod dec;
pub mod document;
pub mod engine;
pub mod error;
pub mod laws;
pub mod model;
pub mod pattern;
pub mod validator;

pub use data::AS3Data;
pub use dec::Dec;
pub use document::Document;
pub use error::{AS3ValidationError, BuildError};
pub use validator::AS3Validator;
