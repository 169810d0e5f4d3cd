//! Data types shared by the whole API.

use vstd::prelude::*;

use crate::errors::Error;

verus! {

/// The result of every fallible operation of this crate.
pub type APIResult<T> = Result<T, Error>;

} // verus!
