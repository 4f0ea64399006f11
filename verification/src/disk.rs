//! A program image ("ROM") as plain bytes, ready to be loaded into RAM.

use vstd::prelude::*;
use crate::cpu::CpuError;

verus! {

/// The largest program the machine can hold: memory below 0x200 is reserved
/// for the font, so 4096 - 0x200 bytes remain.
pub const MAX_ROM_BYTES: usize = 3584;

/// A raw program image: the bytes read from storage and how many of them
/// are meaningful.
pub struct Disk {
    /// The image bytes; entries at `size` and beyond are padding.
    pub rom: [u8; 4095],
    /// How many leading bytes of `rom` belong to the program.
    pub size: usize,
}

impl Disk {
    /// Packs raw bytes into a `Disk`. Rejects images that could not be
    /// loaded at 0x200 without running past the end of memory.
    pub fn from_bytes(bytes: &Vec<u8>) -> (r: Result<Disk, CpuError>)
        ensures
            bytes@.len() > MAX_ROM_BYTES ==> r == Err::<Disk, CpuError>(CpuError::RomTooLarge),
            bytes@.len() <= MAX_ROM_BYTES ==> {
                &&& r is Ok
                &&& r->Ok_0.size == bytes@.len()
                &&& forall|j: int| 0 <= j < bytes@.len() ==> r->Ok_0.rom[j] == bytes@[j]
                &&& forall|j: int| bytes@.len() <= j < 4095 ==> r->Ok_0.rom[j] == 0
            },
    {
        if bytes.len() > MAX_ROM_BYTES {
            return Err(CpuError::RomTooLarge);
        }
        let mut rom = [0u8; 4095];
        let n = bytes.len();
        for i in 0..n
            invariant
                n == bytes@.len() <= 3584,
                forall|j: int| 0 <= j < i ==> rom[j] == bytes@[j],
                forall|j: int| i <= j < 4095 ==> rom[j] == 0,
        {
            rom[i] = bytes[i];
        }
        Ok(Disk { rom, size: n })
    }
}

} // verus!
