//! Seals the key sizes: only the sizes of this module implement them.

use vstd::prelude::*;

verus! {

/// Implemented by the key sizes only.
pub trait Sealed {

}

} // verus!
