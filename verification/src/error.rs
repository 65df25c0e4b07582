use vstd::prelude::*;

verus! {

/// A request that does not have the shape of an order: it is no object, it
/// holds one of an order's keys twice or with something other than a string
/// under it, or, read strictly, it holds a key that an order does not have.
#[derive(Clone, Copy, Debug, PartialEq, Eq, Structural)]
pub struct MalformedAppData;

} // verus!
