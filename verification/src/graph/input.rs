//! The inputs of the sub graph.

use vstd::prelude::*;

verus! {

/// The view that the sub graph renders.
pub const VIEW_ENTITY: &'static str = "view_entity";

} // verus!
