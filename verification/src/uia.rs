//! The UIA backend's verified parts: role and state mapping, layout
//! filtering, node identities, and navigation directions.

use vstd::prelude::*;

pub mod map;
pub mod registry;

verus! {

/// A direction to navigate from an element: parent, next and previous
/// sibling, first child.
#[derive(Clone, Copy, Debug, PartialEq, Eq)]
pub enum NavigateDirection {
    /// The element's parent.
    Parent,
    /// The next sibling in tree order.
    NextSibling,
    /// The previous sibling in tree order.
    PreviousSibling,
    /// The first child.
    FirstChild,
}

} // verus!
