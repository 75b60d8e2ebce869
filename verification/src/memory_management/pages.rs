//! Pages supported by Tock.

use super::granules::Granule;
use vstd::prelude::*;

verus! {

/// A standard 4KiB page.
#[derive(Clone, Copy)]
pub struct Page4KiB;

impl Granule for Page4KiB {
    open spec fn spec_size_u8() -> nat {
        4096
    }

    proof fn lemma_size_bounds() {
    }

    fn size_u8() -> (r: usize) {
        4096
    }
}

} // verus!
