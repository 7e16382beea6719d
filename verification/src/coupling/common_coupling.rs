//! Common coupling: two or more modules share access to the same global,
//! mutable state, typically through raw pointers or mutable statics.  The
//! remedy shown here is to avoid raw pointers and, where state must be
//! shared, to hold it in an owned, synchronized type.

use vstd::prelude::*;
use std::sync::Arc;
use std::sync::Mutex;

verus! {

/// Relies on `std::sync::Mutex`: declared so the type can stand in a field;
/// nothing is assumed of its behaviour.
#[verifier::external_type_specification]
#[verifier::external_body]
#[verifier::reject_recursive_types(T)]
pub struct ExMutex<T: ?Sized>(Mutex<T>);

/// Shared state done safely: an owned counter behind a synchronized handle
/// instead of a raw pointer into another module's data.
pub struct State {
    count: Arc<Mutex<i32>>,
}

} // verus!
