//! Composing a router with the routes that a page declares.

use vstd::prelude::*;

verus! {

/// A helper for building a router step by step: any value can be handed to a
/// function that returns the next stage.
pub trait BuildExt: Sized {
    /// Applies `item` to the current router and returns what it built.
    fn with<U>(self, item: impl FnOnce(Self) -> U) -> (built: U)
        requires
            item.requires((self,)),
        ensures
            item.ensures((self,), built),
    {
        item(self)
    }
}

impl<T: Sized> BuildExt for T {

}

} // verus!
