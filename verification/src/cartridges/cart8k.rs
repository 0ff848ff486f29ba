//! The 8 KB cartridge board: a fixed window mirroring the payload across the
//! cartridge space.

use vstd::prelude::*;

use crate::cartridges::{slice_to_vec, Cartridge};

verus! {

/// An 8 KB read-only cartridge.
#[derive(Debug, Clone)]
pub struct Cartridge8K {
    pub data: Vec<u8>,
}

impl View for Cartridge8K {
    type V = Seq<u8>;

    open spec fn view(&self) -> Seq<u8> {
        self.data@
    }
}

impl Cartridge for Cartridge8K {
    open spec fn spec_payload_len() -> nat {
        0x2000
    }

    open spec fn wf(&self) -> bool {
        self.data@.len() == 0x2000
    }

    fn from_slice(slice: &[u8]) -> (r: Self)
        ensures
            r@ == slice@,
    {
        Cartridge8K { data: slice_to_vec(slice) }
    }

    /// The 8 KB payload mirrored through the whole cartridge space.
    fn read_byte(&self, address: u16) -> (r: u8)
        ensures
            r == self@[address as int % 0x2000],
    {
        self.data[(address % 0x2000) as usize]
    }
}

} // verus!
