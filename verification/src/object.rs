//! The root of the query surface.

use vstd::prelude::*;

verus! {

/// Marks the root object that queries are resolved against.
///
/// It carries no data: resolvers reach everything they need through the
/// context that the serving layer hands them.
#[derive(Clone, Copy, Debug)]
pub struct Query;

} // verus!
