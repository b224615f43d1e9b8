//! The application state marker.
use vstd::prelude::*;

verus! {

/// The state of an application, handed to every callback of its event loop.
pub trait AppState {}

impl AppState for () {}

} // verus!
