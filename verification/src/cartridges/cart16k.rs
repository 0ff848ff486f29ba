//! The 16 KB cartridge board: a fixed window mirroring the payload across
//! the cartridge space.

use vstd::prelude::*;

use crate::cartridges::{slice_to_vec, Cartridge};

verus! {

/// A 16 KB read-only cartridge.
#[derive(Debug, Clone)]
pub struct Cartridge16K {
    pub data: Vec<u8>,
}

impl View for Cartridge16K {
    type V = Seq<u8>;

    open spec fn view(&self) -> Seq<u8> {
        self.data@
    }
}

impl Cartridge for Cartridge16K {
    open spec fn spec_payload_len() -> nat {
        0x4000
    }

    open spec fn wf(&self) -> bool {
        self.data@.len() == 0x4000
    }

    fn from_slice(slice: &[u8]) -> (r: Self)
        ensures
            r@ == slice@,
    {
        Cartridge16K { data: slice_to_vec(slice) }
    }

    /// The 16 KB payload mirrored through the whole cartridge space.
    fn read_byte(&self, address: u16) -> (r: u8)
        ensures
            r == self@[address as int % 0x4000],
    {
        self.data[(address % 0x4000) as usize]
    }
}

} // verus!
