//! Results of calls that may throw.

use vstd::prelude::*;
use crate::handle::Handle;

verus! {

/// The sign that an exception is being thrown in the environment.
#[derive(Debug)]
pub struct Throw;

/// The result of a computation that might throw.
pub type NeonResult<T> = Result<T, Throw>;

/// The result of a computation that produces a handle or throws.
pub type JsResult<T> = NeonResult<Handle<T>>;

} // verus!
