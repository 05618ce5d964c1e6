//! Marker type for entities a host composes out of parts.

use vstd::prelude::*;

verus! {

/// A tag a host attaches to data it treats as one part of an entity.
#[derive(Clone, Copy, Debug)]
pub struct Component;

} // verus!
