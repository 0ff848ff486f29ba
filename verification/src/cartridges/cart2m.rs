//! The 2 MB bank-switched cartridge board: 128 banks of 16 KB.  The lower
//! half of the cartridge space reads the bank selected by the bank-mask
//! register; the upper half is hard-mapped to bank 0x7F as a fixed boot bank.

use vstd::prelude::*;

use crate::cartridges::{slice_to_vec, Cartridge};

verus! {

/// Model of the bank-switched cartridge: payload, shift register, and the
/// latched bank mask.
#[verifier::ext_equal]
pub ghost struct Cart2MState {
    pub data: Seq<u8>,
    pub shifter: u8,
    pub mask: u16,
}

/// A 2 MB bank-switched cartridge.  The shift register is clocked by the
/// I/O-adapter output register; the latched mask selects the lower window's
/// bank.
#[derive(Debug, Clone)]
pub struct Cartridge2M {
    pub data: Vec<u8>,
    pub bank_shifter: u8,
    pub bank_mask: u16,
}

impl View for Cartridge2M {
    type V = Cart2MState;

    open spec fn view(&self) -> Cart2MState {
        Cart2MState { data: self.data@, shifter: self.bank_shifter, mask: self.bank_mask }
    }
}

impl Cartridge for Cartridge2M {
    open spec fn spec_payload_len() -> nat {
        0x200000
    }

    open spec fn wf(&self) -> bool {
        self.data@.len() == 0x200000
    }

    fn from_slice(slice: &[u8]) -> (r: Self)
        ensures
            r@ == (Cart2MState { data: slice@, shifter: 0, mask: 0x7E }),
    {
        Cartridge2M { data: slice_to_vec(slice), bank_shifter: 0, bank_mask: 0x7E }
    }

    /// The upper 16 KB window always reads fixed bank 0x7F regardless of the
    /// selected bank index; the lower window reads the bank the mask selects.
    fn read_byte(&self, address: u16) -> (r: u8)
        ensures
            address >= 0x4000 ==> r == self@.data[0x7F * 0x4000 + (address as int % 0x4000)],
            address < 0x4000 ==> r == self@.data[(self@.mask as int % 128) * 0x4000
                + address as int],
    {
        if address >= 0x4000 {
            self.data[0x7F * 0x4000 + (address % 0x4000) as usize]
        } else {
            self.data[(self.bank_mask % 128) as usize * 0x4000 + address as usize]
        }
    }
}

} // verus!
