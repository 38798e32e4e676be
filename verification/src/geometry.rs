//! Geometry of the flash region: base address, page size, capacity, and the
//! byte layout of halfwords, as pure functions.

use vstd::prelude::*;

verus! {

/// First byte address of the flash region.
pub const FLASH_BASE: u32 = 0x0800_0000;

/// Size in bytes of one erasable page (2 KiB for this family).
pub const PAGE_SIZE_BYTES: u32 = 2048;

/// Total capacity in bytes of the flash region (256 KiB device).
pub const FLASH_SIZE_BYTES: u32 = 0x0004_0000;

/// Number of erasable pages in the region.
pub const PAGE_COUNT: u32 = FLASH_SIZE_BYTES / PAGE_SIZE_BYTES;

/// Absolute byte address within the flash region.
#[derive(Clone, Copy, PartialEq, Eq, Structural, Debug)]
pub struct Address(pub u32);

/// A byte count (a page size, the total size).
#[derive(Clone, Copy, PartialEq, Eq, Structural, Debug)]
pub struct AddressOffset(pub u32);

/// Zero-based index of an erasable page.
#[derive(Clone, Copy, PartialEq, Eq, Structural, Debug)]
pub struct Page(pub u32);

/// Whether byte address `a` lies inside the flash region.
pub open spec fn addr_in_flash(a: u32) -> bool {
    FLASH_BASE <= a < FLASH_BASE + FLASH_SIZE_BYTES
}

/// Index of the byte at address `a` in the model of the flash contents,
/// which is a sequence starting at `FLASH_BASE`.
pub open spec fn mem_index(a: u32) -> int {
    a - FLASH_BASE
}

/// Index of the page containing byte address `a`.
pub open spec fn page_of_addr(a: u32) -> int {
    mem_index(a) / (PAGE_SIZE_BYTES as int)
}

/// First byte address of page `p`.
pub open spec fn page_base_addr(p: int) -> int {
    FLASH_BASE + p * PAGE_SIZE_BYTES
}

/// Whether `p` is a page index of this device.
pub open spec fn page_in_flash(p: int) -> bool {
    0 <= p < PAGE_COUNT
}

/// Low byte of a halfword, as stored at the even address.
pub open spec fn lo_byte(v: u16) -> u8 {
    (v & 0xff) as u8
}

/// High byte of a halfword, as stored at the odd address.
pub open spec fn hi_byte(v: u16) -> u8 {
    (v >> 8) as u8
}

/// The halfword formed by the two bytes of `mem` at `mem_index(a)`,
/// low byte first.
pub open spec fn halfword_at(mem: Seq<u8>, a: u32) -> u16 {
    (mem[mem_index(a)] as u16) | ((mem[mem_index(a) + 1] as u16) << 8)
}

/// A halfword is recovered exactly from its two stored bytes.
pub proof fn lemma_halfword_bytes_round_trip(v: u16)
    ensures
        ((lo_byte(v) as u16) | ((hi_byte(v) as u16) << 8)) == v,
{
    assert((((v & 0xff) as u8 as u16) | (((v >> 8) as u8 as u16) << 8)) == v) by (bit_vector);
}

} // verus!
