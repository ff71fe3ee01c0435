//! The inputs of an analysis.
use vstd::prelude::*;
use crate::error::Error;

verus! {

/// Where the data of an analysis comes from.
#[derive(Debug)]
pub enum DataSource {
    Buffer,
    File(String),
}

/// A computation over an analysis input; it holds no state yet.
#[derive(Debug)]
pub struct Computation {}

impl Computation {
    /// A computation over any input; it cannot fail.
    pub fn new<T>(input: T) -> (r: Result<Computation, Error>)
        ensures
            r is Ok,
    {
        Ok(Computation {})
    }
}

} // verus!
