//! The 32 KB cartridge board: the payload maps the cartridge space directly.

use vstd::prelude::*;

use crate::cartridges::{slice_to_vec, Cartridge};

verus! {

/// A 32 KB read-only cartridge.
#[derive(Debug, Clone)]
pub struct Cartridge32K {
    pub data: Vec<u8>,
}

impl View for Cartridge32K {
    type V = Seq<u8>;

    open spec fn view(&self) -> Seq<u8> {
        self.data@
    }
}

impl Cartridge for Cartridge32K {
    open spec fn spec_payload_len() -> nat {
        0x8000
    }

    open spec fn wf(&self) -> bool {
        self.data@.len() == 0x8000
    }

    fn from_slice(slice: &[u8]) -> (r: Self)
        ensures
            r@ == slice@,
    {
        Cartridge32K { data: slice_to_vec(slice) }
    }

    fn read_byte(&self, address: u16) -> (r: u8)
        ensures
            r == self@[address as int],
    {
        self.data[address as usize]
    }
}

} // verus!
