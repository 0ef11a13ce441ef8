//! A minimal block-formatting layout engine: it mirrors a document tree into a
//! tree of renderable boxes, filtering out nodes styled `display: none`
//! together with their whole subtrees, and then computes each box's size and
//! position in two ordered passes.

use vstd::prelude::*;

pub mod constants;
pub mod cssom;
pub mod dom;
pub mod layout_object;
pub mod layout_view;
pub mod token;

verus! {

} // verus!
