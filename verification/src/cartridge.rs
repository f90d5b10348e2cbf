//! The cartridge contract: a raw byte sequence that becomes the ROM backing
//! store at bus construction. Reading the image from disk is the surrounding
//! application's concern, not the core's.

use vstd::prelude::*;

verus! {

pub struct Cartridge {
    pub rom: Vec<u8>,
}

impl Cartridge {
    /// Wrap a raw ROM image. The bus expects exactly the 32KB the address
    /// space maps.
    pub fn from_rom(rom: Vec<u8>) -> (r: Cartridge)
        ensures
            r.rom@ == rom@,
    {
        Cartridge { rom }
    }
}

} // verus!
