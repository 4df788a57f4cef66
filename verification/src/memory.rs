//! A flat 64 KiB memory with byte and little-endian word access.

use vstd::prelude::*;
use crate::word::{spec_u16_from_le, spec_hi_byte, spec_lo_byte, wrap16};

verus! {

/// Size of the address space: the full 16-bit range.
pub const MEMORY_SIZE: usize = 0x10000;

/// A flat 64 KiB RAM. Every 16-bit address is readable and writable.
pub struct Memory {
    ram: Vec<u8>,
}

impl View for Memory {
    type V = Seq<u8>;

    closed spec fn view(&self) -> Seq<u8> {
        self.ram@
    }
}

impl Memory {
    #[verifier::type_invariant]
    spec fn type_inv(self) -> bool {
        self.ram@.len() == MEMORY_SIZE
    }

    pub fn new() -> (r: Memory)
        ensures
            r@ == Seq::<u8>::new(MEMORY_SIZE as nat, |i: int| 0u8),
    {
        let ram = zeroed_ram();
        proof {
            assert(ram@ =~= Seq::<u8>::new(MEMORY_SIZE as nat, |i: int| 0u8));
        }
        Memory { ram }
    }

    pub fn read_from_8b(&self, address: u16) -> (r: u8)
        ensures
            r == self@[address as int],
    {
        proof {
            use_type_invariant(self);
        }
        self.ram[address as usize]
    }

    pub fn write_to_8b(&mut self, address: u16, value: u8)
        ensures
            final(self)@ == old(self)@.update(address as int, value),
    {
        proof {
            use_type_invariant(&*self);
        }
        self.ram[address as usize] = value;
    }

    /// Read the little-endian 16-bit value at `address`, the second byte
    /// coming from `address + 1` with wraparound.
    pub fn read_from_16b(&self, address: u16) -> (r: u16)
        ensures
            r == spec_u16_from_le(self@[address as int], self@[wrap16(address + 1) as int]),
    {
        let lo = self.read_from_8b(address);
        let hi = self.read_from_8b(crate::word::wrapping_add16(address, 1));
        lo as u16 + 256 * (hi as u16)
    }

    /// Write `value` little-endian at `address` and `address + 1`, with
    /// wraparound.
    pub fn write_to_16b(&mut self, address: u16, value: u16)
        ensures
            final(self)@ == old(self)@.update(address as int, spec_lo_byte(value)).update(
                wrap16(address + 1) as int,
                spec_hi_byte(value),
            ),
    {
        self.write_to_8b(address, (value % 256) as u8);
        self.write_to_8b(crate::word::wrapping_add16(address, 1), (value / 256) as u8);
    }

    /// Copy a ROM image into RAM starting at address zero; bytes past the
    /// end of the address space are ignored.
    pub fn load_rom(&mut self, data: Vec<u8>)
        ensures
            final(self)@.len() == old(self)@.len(),
            forall|i: int|
                0 <= i < MEMORY_SIZE ==> final(self)@[i] == if i < data@.len() {
                    data@[i]
                } else {
                    old(self)@[i]
                },
    {
        proof {
            use_type_invariant(&*self);
        }
        let count = if data.len() < MEMORY_SIZE {
            data.len()
        } else {
            MEMORY_SIZE
        };
        let mut i: usize = 0;
        while i < count
            invariant
                count <= data@.len(),
                count <= MEMORY_SIZE,
                i <= count,
                self.ram@.len() == MEMORY_SIZE,
                forall|j: int| 0 <= j < i ==> self.ram@[j] == data@[j],
                forall|j: int| i <= j < MEMORY_SIZE ==> self.ram@[j] == old(self)@[j],
            decreases count - i,
        {
            self.ram[i] = data[i];
            i += 1;
        }
    }
}

/// A 64 KiB vector of zero bytes.
fn zeroed_ram() -> (r: Vec<u8>)
    ensures
        r@.len() == MEMORY_SIZE,
        forall|i: int| 0 <= i < MEMORY_SIZE ==> r@[i] == 0u8,
{
    let mut ram: Vec<u8> = Vec::new();
    let mut i: usize = 0;
    while i < MEMORY_SIZE
        invariant
            i <= MEMORY_SIZE,
            ram@.len() == i,
            forall|j: int| 0 <= j < i ==> ram@[j] == 0u8,
        decreases MEMORY_SIZE - i,
    {
        ram.push(0);
        i += 1;
    }
    ram
}

} // verus!
