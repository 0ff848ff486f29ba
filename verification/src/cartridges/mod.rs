//! Cartridge abstraction: a pluggable read-only (or bank-switchable) ROM
//! backing store, with the hardware variant selected by payload size alone.

pub mod cart16k;
pub mod cart2m;
pub mod cart32k;
pub mod cart8k;

pub use cart16k::Cartridge16K;
pub use cart2m::{Cart2MState, Cartridge2M};
pub use cart32k::Cartridge32K;
pub use cart8k::Cartridge8K;

use vstd::prelude::*;

verus! {

/// Copy a byte slice into a fresh vector.
pub fn slice_to_vec(s: &[u8]) -> (v: Vec<u8>)
    ensures
        v@ == s@,
{
    let mut v: Vec<u8> = Vec::new();
    let mut i: usize = 0;
    while i < s.len()
        invariant
            i <= s@.len(),
            v@ == s@.subrange(0, i as int),
        decreases s@.len() - i,
    {
        v.push(s[i]);
        assert(v@ =~= s@.subrange(0, i + 1));
        i += 1;
    }
    proof {
        assert(v@ =~= s@);
    }
    v
}

/// Capability of every cartridge backing store.
pub trait Cartridge: Sized {
    /// The payload length from which this hardware variant is built.
    spec fn spec_payload_len() -> nat;

    /// Well-formedness of the backing store.
    spec fn wf(&self) -> bool;

    /// Construct a cartridge sized to its payload.
    fn from_slice(slice: &[u8]) -> (r: Self)
        requires
            slice@.len() == Self::spec_payload_len(),
        ensures
            r.wf(),
    ;

    /// Read a byte of cartridge space: the 32 KB window above 0x8000,
    /// pre-offset by 0x8000 by the bus.
    fn read_byte(&self, address: u16) -> u8
        requires
            self.wf(),
            address < 0x8000,
    ;

    /// Write a byte of cartridge space; the store itself is read-only on
    /// every variant, so the write is ignored.  (Bank-switchable hardware is
    /// driven through the I/O-adapter shift register instead.)
    fn write_byte(&mut self, address: u16, data: u8)
        requires
            old(self).wf(),
        ensures
            *final(self) == *old(self),
    {
    }
}

/// Mathematical model of a cartridge: its payload and, for the
/// bank-switched variant, its shift-register state.
#[verifier::ext_equal]
pub ghost enum CartModel {
    C8(Seq<u8>),
    C32(Seq<u8>),
    C2m(Cart2MState),
}

/// The byte a cartridge returns at `address` of cartridge space.
pub open spec fn spec_cart_read(c: CartModel, address: u16) -> u8 {
    match c {
        CartModel::C8(data) => data[address as int % 0x2000],
        CartModel::C32(data) => data[address as int],
        CartModel::C2m(s) => if address >= 0x4000 {
            s.data[0x7F * 0x4000 + (address as int % 0x4000)]
        } else {
            s.data[(s.mask as int % 128) * 0x4000 + address as int]
        },
    }
}

/// The loaded cartridge, with the hardware variant fixed at load time by the
/// payload length.
#[derive(Debug, Clone)]
pub enum CartridgeType {
    Cart8k(Cartridge8K),
    Cart32k(Cartridge32K),
    Cart2m(Box<Cartridge2M>),
}

impl View for CartridgeType {
    type V = CartModel;

    open spec fn view(&self) -> CartModel {
        match self {
            CartridgeType::Cart8k(c) => CartModel::C8(c@),
            CartridgeType::Cart32k(c) => CartModel::C32(c@),
            CartridgeType::Cart2m(c) => CartModel::C2m(c@),
        }
    }
}

impl CartridgeType {
    /// Well-formedness: the backing store matches the variant's size.
    pub open spec fn wf(&self) -> bool {
        match self {
            CartridgeType::Cart8k(c) => c.wf(),
            CartridgeType::Cart32k(c) => c.wf(),
            CartridgeType::Cart2m(c) => c.wf(),
        }
    }

    /// Select and build the hardware variant from the payload length:
    /// 8 KB, 32 KB, or the 2 MB bank-switched board.  Any other length is a
    /// fatal configuration error, excluded here.
    pub fn from_slice(slice: &[u8]) -> (r: Self)
        requires
            slice@.len() == 0x2000 || slice@.len() == 0x8000 || slice@.len() == 0x200000,
        ensures
            r.wf(),
            slice@.len() == 0x2000 ==> r@ == CartModel::C8(slice@),
            slice@.len() == 0x8000 ==> r@ == CartModel::C32(slice@),
            slice@.len() == 0x200000 ==> r@ == CartModel::C2m(
                (Cart2MState { data: slice@, shifter: 0, mask: 0x7E }),
            ),
    {
        if slice.len() == 0x2000 {
            CartridgeType::Cart8k(Cartridge8K::from_slice(slice))
        } else if slice.len() == 0x8000 {
            CartridgeType::Cart32k(Cartridge32K::from_slice(slice))
        } else {
            CartridgeType::Cart2m(Box::new(Cartridge2M::from_slice(slice)))
        }
    }

    /// Read a byte of cartridge space through the variant's mapping.
    pub fn read_byte(&self, address: u16) -> (r: u8)
        requires
            self.wf(),
            address < 0x8000,
        ensures
            r == spec_cart_read(self@, address),
    {
        match self {
            CartridgeType::Cart8k(c) => c.read_byte(address),
            CartridgeType::Cart32k(c) => c.read_byte(address),
            CartridgeType::Cart2m(c) => c.read_byte(address),
        }
    }

    /// Write a byte of cartridge space: ignored, the store is read-only.
    pub fn write_byte(&mut self, address: u16, data: u8)
        requires
            old(self).wf(),
        ensures
            *final(self) == *old(self),
    {
        match self {
            CartridgeType::Cart2m(c) => c.write_byte(address, data),
            _ => (),
        }
    }
}

} // verus!
