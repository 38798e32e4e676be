//! The register port: exclusive, ownership-transferred access to the flash
//! controller's registers (KEYR, CR, SR, AR) and to the memory-mapped array,
//! plus the unlock sequencer that re-arms the controller after every lock.

use vstd::prelude::*;

verus! {

use crate::geometry::{addr_in_flash, mem_index, lo_byte, hi_byte, FLASH_SIZE_BYTES};

/// First word of the unlock key sequence written to KEYR.
pub const KEY1: u32 = 0x4567_0123;

/// Second word of the unlock key sequence written to KEYR.
pub const KEY2: u32 = 0xCDEF_89AB;

/// Register-level access to one flash controller peripheral.
///
/// A value of an implementing type is the capability for that peripheral:
/// the controller consumes it at construction and it is never duplicated.
/// The spec functions model the registers bit by bit and the flash contents
/// as a byte sequence starting at `FLASH_BASE`. The busy and end-of-operation
/// flags and, during an erase, the memory are owned by the hardware: after an
/// operation is triggered, no method promises anything about them, and the
/// state machine learns of progress only by reading them again.
pub trait FlashPort: Sized {
    /// CR.PG — halfword programming enabled.
    spec fn pg(&self) -> bool;

    /// CR.PER — page erase enabled.
    spec fn per(&self) -> bool;

    /// CR.STRT — start bit of the erase.
    spec fn strt(&self) -> bool;

    /// CR.LOCK — control register locked against mutation.
    spec fn locked(&self) -> bool;

    /// KEYR has received the first key word and awaits the second.
    spec fn key_armed(&self) -> bool;

    /// SR.BSY — an erase or program cycle is in progress.
    spec fn bsy(&self) -> bool;

    /// SR.EOP — end of operation, to be cleared by software.
    spec fn eop(&self) -> bool;

    /// AR — target address of a page erase.
    spec fn ar(&self) -> u32;

    /// The flash contents, one byte per address from `FLASH_BASE` up.
    spec fn mem(&self) -> Seq<u8>;

    /// Read SR.BSY.
    fn read_bsy(&self) -> (r: bool)
        ensures
            r == self.bsy(),
    ;

    /// Read SR.EOP.
    fn read_eop(&self) -> (r: bool)
        ensures
            r == self.eop(),
    ;

    /// Write one word to KEYR. The two fixed key words in order clear the
    /// lock bit; anything else merely disarms the sequence.
    fn write_keyr(&mut self, key: u32)
        requires
            old(self).locked(),
        ensures
            final(self).key_armed() == (!old(self).key_armed() && key == KEY1),
            final(self).locked() == !(old(self).key_armed() && key == KEY2),
            final(self).pg() == old(self).pg(),
            final(self).per() == old(self).per(),
            final(self).strt() == old(self).strt(),
            final(self).bsy() == old(self).bsy(),
            final(self).eop() == old(self).eop(),
            final(self).ar() == old(self).ar(),
            final(self).mem() == old(self).mem(),
    ;

    /// Set CR.PER (page erase enable).
    fn set_per(&mut self)
        requires
            !old(self).locked(),
        ensures
            final(self).per(),
            final(self).pg() == old(self).pg(),
            final(self).strt() == old(self).strt(),
            !final(self).locked(),
            final(self).key_armed() == old(self).key_armed(),
            final(self).bsy() == old(self).bsy(),
            final(self).eop() == old(self).eop(),
            final(self).ar() == old(self).ar(),
            final(self).mem() == old(self).mem(),
    ;

    /// Clear CR.PER.
    fn clear_per(&mut self)
        requires
            !old(self).locked(),
        ensures
            !final(self).per(),
            final(self).pg() == old(self).pg(),
            final(self).strt() == old(self).strt(),
            !final(self).locked(),
            final(self).key_armed() == old(self).key_armed(),
            final(self).bsy() == old(self).bsy(),
            final(self).eop() == old(self).eop(),
            final(self).ar() == old(self).ar(),
            final(self).mem() == old(self).mem(),
    ;

    /// Set CR.PG (programming enable).
    fn set_pg(&mut self)
        requires
            !old(self).locked(),
        ensures
            final(self).pg(),
            final(self).per() == old(self).per(),
            final(self).strt() == old(self).strt(),
            !final(self).locked(),
            final(self).key_armed() == old(self).key_armed(),
            final(self).bsy() == old(self).bsy(),
            final(self).eop() == old(self).eop(),
            final(self).ar() == old(self).ar(),
            final(self).mem() == old(self).mem(),
    ;

    /// Clear CR.PG.
    fn clear_pg(&mut self)
        requires
            !old(self).locked(),
        ensures
            !final(self).pg(),
            final(self).per() == old(self).per(),
            final(self).strt() == old(self).strt(),
            !final(self).locked(),
            final(self).key_armed() == old(self).key_armed(),
            final(self).bsy() == old(self).bsy(),
            final(self).eop() == old(self).eop(),
            final(self).ar() == old(self).ar(),
            final(self).mem() == old(self).mem(),
    ;

    /// Write AR, the target address of the next page erase.
    fn write_ar(&mut self, a: u32)
        requires
            !old(self).locked(),
        ensures
            final(self).ar() == a,
            final(self).pg() == old(self).pg(),
            final(self).per() == old(self).per(),
            final(self).strt() == old(self).strt(),
            !final(self).locked(),
            final(self).key_armed() == old(self).key_armed(),
            final(self).bsy() == old(self).bsy(),
            final(self).eop() == old(self).eop(),
            final(self).mem() == old(self).mem(),
    ;

    /// Set CR.STRT: with the erase enabled, the erase begins and the busy
    /// flag rises. From here until the busy flag is seen clear again, the
    /// erased page's bytes belong to the hardware; the end-of-operation flag
    /// rises only when the cycle finishes.
    fn set_strt(&mut self)
        requires
            !old(self).locked(),
        ensures
            final(self).strt(),
            final(self).pg() == old(self).pg(),
            final(self).per() == old(self).per(),
            !final(self).locked(),
            final(self).key_armed() == old(self).key_armed(),
            final(self).bsy() == (old(self).bsy() || old(self).per()),
            final(self).eop() == old(self).eop(),
            final(self).ar() == old(self).ar(),
            final(self).mem() == old(self).mem(),
    ;

    /// Set CR.LOCK, re-locking the controller; the key sequence is disarmed
    /// and must be issued anew before the next mutation.
    fn set_lock(&mut self)
        ensures
            final(self).locked(),
            !final(self).key_armed(),
            final(self).pg() == old(self).pg(),
            final(self).per() == old(self).per(),
            final(self).strt() == old(self).strt(),
            final(self).bsy() == old(self).bsy(),
            final(self).eop() == old(self).eop(),
            final(self).ar() == old(self).ar(),
            final(self).mem() == old(self).mem(),
    ;

    /// Clear SR.EOP (it is set by hardware and cleared by software).
    fn clear_eop(&mut self)
        ensures
            !final(self).eop(),
            final(self).pg() == old(self).pg(),
            final(self).per() == old(self).per(),
            final(self).strt() == old(self).strt(),
            final(self).locked() == old(self).locked(),
            final(self).key_armed() == old(self).key_armed(),
            final(self).bsy() == old(self).bsy(),
            final(self).ar() == old(self).ar(),
            final(self).mem() == old(self).mem(),
    ;

    /// Program one halfword at an even address: the memory-mapped write that
    /// stores the low byte at `a` and the high byte at `a + 1`. The program
    /// cycle makes the busy flag rise until the hardware finishes it.
    fn program(&mut self, a: u32, v: u16)
        requires
            !old(self).locked(),
            old(self).pg(),
            old(self).mem().len() == FLASH_SIZE_BYTES,
            addr_in_flash(a),
            a % 2 == 0,
        ensures
            final(self).mem() == old(self).mem()
                .update(mem_index(a), lo_byte(v))
                .update(mem_index(a) + 1, hi_byte(v)),
            final(self).bsy(),
            final(self).pg() == old(self).pg(),
            final(self).per() == old(self).per(),
            final(self).strt() == old(self).strt(),
            !final(self).locked(),
            final(self).key_armed() == old(self).key_armed(),
            final(self).eop() == old(self).eop(),
            final(self).ar() == old(self).ar(),
    ;

    /// Read the byte at address `a`: the direct memory-mapped read path.
    fn read_mem(&self, a: u32) -> (r: u8)
        requires
            self.mem().len() == FLASH_SIZE_BYTES,
            addr_in_flash(a),
        ensures
            r == self.mem()[mem_index(a)],
    ;
}

/// The unlock sequencer: issues the two-word key sequence, after which the
/// control register accepts mutation. Re-run after every lock.
pub fn unlock<P: FlashPort>(port: &mut P)
    requires
        old(port).locked(),
        !old(port).key_armed(),
    ensures
        !final(port).locked(),
        !final(port).key_armed(),
        final(port).pg() == old(port).pg(),
        final(port).per() == old(port).per(),
        final(port).strt() == old(port).strt(),
        final(port).bsy() == old(port).bsy(),
        final(port).eop() == old(port).eop(),
        final(port).ar() == old(port).ar(),
        final(port).mem() == old(port).mem(),
{
    port.write_keyr(KEY1);
    port.write_keyr(KEY2);
}

} // verus!
