//! A flat ROM cartridge image; bank switching is out of scope.

use vstd::prelude::*;

verus! {

/// Size of a flat (unbanked) cartridge ROM image.
pub const CARTRIDGE_SIZE: usize = 0x8000;

/// A flat cartridge ROM, all zero until an image is copied in.
pub struct Cartridge {
    rom: Vec<u8>,
}

impl View for Cartridge {
    type V = Seq<u8>;

    closed spec fn view(&self) -> Seq<u8> {
        self.rom@
    }
}

impl Cartridge {
    pub fn new() -> (r: Cartridge)
        ensures
            r@.len() == CARTRIDGE_SIZE,
            forall|i: int| 0 <= i < CARTRIDGE_SIZE ==> r@[i] == 0u8,
    {
        let mut rom: Vec<u8> = Vec::new();
        let mut i: usize = 0;
        while i < CARTRIDGE_SIZE
            invariant
                i <= CARTRIDGE_SIZE,
                rom@.len() == i,
                forall|j: int| 0 <= j < i ==> rom@[j] == 0u8,
            decreases CARTRIDGE_SIZE - i,
        {
            rom.push(0);
            i += 1;
        }
        Cartridge { rom }
    }
}

} // verus!
