//! The configuration object of an ETL pipeline: how raw tabular files become
//! analytic fields and aggregation units. The library decodes the object from
//! its JSON document tree, checks its cross-references, encodes it back and
//! summarizes it, each step proved against a model of the wire format.
pub mod analysis;
pub mod decode;
pub mod encode;
pub mod error;
pub mod json;
pub mod model;
pub mod number;
pub mod path;
pub mod roundtrip;
pub mod schema;
pub mod summary;
pub mod validate;
pub mod wire;

pub use error::{Error, Kind};
