//! Taking the single item of a sequence that should hold exactly one.

use vstd::prelude::*;

verus! {

/// A sequence of items from which the one item can be taken when there is
/// exactly one.
pub trait ExactlyOne: Sized {
    type Item;

    spec fn items(&self) -> Seq<Self::Item>;

    /// The item, if there is exactly one; `None` for none or several.
    fn exactly_one(self) -> (r: Option<Self::Item>)
        ensures
            r == if self.items().len() == 1 {
                Some(self.items()[0])
            } else {
                None
            },
    ;
}

impl<T> ExactlyOne for Vec<T> {
    type Item = T;

    open spec fn items(&self) -> Seq<T> {
        self@
    }

    fn exactly_one(self) -> (r: Option<T>) {
        let mut items = self;
        if items.len() == 1 {
            items.pop()
        } else {
            None
        }
    }
}

} // verus!
