//! Readiness of a service.

use vstd::prelude::*;

verus! {

/// Whether a service can take a request now.
#[derive(Debug)]
pub enum Poll<T> {
    Ready(T),
    Pending,
}

} // verus!
