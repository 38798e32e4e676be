//! A simulated register and memory file: an implementation of the register
//! port that keeps the registers as plain fields and the flash contents as a
//! byte vector, so the state machine can be driven without hardware. The
//! hardware's own side of the protocol — finishing a busy cycle, erasing the
//! targeted page, raising the end-of-operation flag — happens in [`SimPort::step`],
//! which the surrounding loop calls between polls.

use vstd::prelude::*;

verus! {

use crate::geometry::{page_of_addr, FLASH_BASE, FLASH_SIZE_BYTES, PAGE_SIZE_BYTES};
use crate::port::{FlashPort, KEY1, KEY2};

/// The contents after the page with index `p` has been erased: every byte of
/// that page reads `0xff`, the rest is unchanged.
pub open spec fn erased_page_mem(mem: Seq<u8>, p: int) -> Seq<u8> {
    Seq::new(mem.len(), |i: int| if i / (PAGE_SIZE_BYTES as int) == p {
        0xffu8
    } else {
        mem[i]
    })
}

/// A flash controller peripheral in simulation: registers and memory.
pub struct SimPort {
    /// CR.PG
    pub pg: bool,
    /// CR.PER
    pub per: bool,
    /// CR.STRT
    pub strt: bool,
    /// CR.LOCK
    pub lock: bool,
    /// KEYR holds the first key word and awaits the second.
    pub key_armed: bool,
    /// SR.BSY
    pub bsy: bool,
    /// SR.EOP
    pub eop: bool,
    /// AR
    pub ar: u32,
    /// The flash contents, one byte per address from `FLASH_BASE` up.
    pub mem: Vec<u8>,
}

impl SimPort {
    /// A freshly reset peripheral: locked, no operation pending, every byte
    /// of the flash erased.
    pub fn new() -> (r: SimPort)
        ensures
            r.locked(),
            !r.key_armed(),
            !r.pg(),
            !r.per(),
            !r.strt(),
            !r.bsy(),
            !r.eop(),
            r.ar() == 0,
            r.mem().len() == FLASH_SIZE_BYTES,
            forall|i: int| 0 <= i < r.mem().len() ==> r.mem()[i] == 0xffu8,
    {
        let mut mem: Vec<u8> = Vec::new();
        let mut i: usize = 0;
        while i < FLASH_SIZE_BYTES as usize
            invariant
                i <= FLASH_SIZE_BYTES,
                mem@.len() == i,
                forall|j: int| 0 <= j < i ==> mem@[j] == 0xffu8,
            decreases FLASH_SIZE_BYTES - i,
        {
            mem.push(0xff);
            i = i + 1;
        }
        SimPort {
            pg: false,
            per: false,
            strt: false,
            lock: true,
            key_armed: false,
            bsy: false,
            eop: false,
            ar: 0,
            mem,
        }
    }

    /// One step of the hardware's side of the protocol: a busy cycle
    /// finishes. If a triggered page erase was in progress, the page
    /// containing the address in AR is erased; either way the busy flag
    /// clears and the end-of-operation flag rises. Idle hardware does
    /// nothing.
    pub fn step(&mut self)
        ensures
            final(self).pg() == old(self).pg(),
            final(self).per() == old(self).per(),
            final(self).strt() == old(self).strt(),
            final(self).locked() == old(self).locked(),
            final(self).key_armed() == old(self).key_armed(),
            final(self).ar() == old(self).ar(),
            final(self).bsy() == false,
            final(self).eop() == (old(self).eop() || old(self).bsy()),
            final(self).mem() == if old(self).bsy() && old(self).per() && old(self).strt() {
                erased_page_mem(old(self).mem(), page_of_addr(old(self).ar()))
            } else {
                old(self).mem()
            },
    {
        if self.bsy {
            if self.per && self.strt {
                self.erase_targeted_page();
            }
            self.bsy = false;
            self.eop = true;
        }
    }

    /// Erase the page containing the address in AR, if that address lies in
    /// the flash region and the page lies within the memory vector.
    fn erase_targeted_page(&mut self)
        ensures
            final(self).mem() == erased_page_mem(old(self).mem(), page_of_addr(old(self).ar())),
            final(self).pg() == old(self).pg(),
            final(self).per() == old(self).per(),
            final(self).strt() == old(self).strt(),
            final(self).locked() == old(self).locked(),
            final(self).key_armed() == old(self).key_armed(),
            final(self).bsy() == old(self).bsy(),
            final(self).eop() == old(self).eop(),
            final(self).ar() == old(self).ar(),
    {
        let ghost p = page_of_addr(self.ar);
        let ghost mem0 = self.mem@;
        if self.ar >= FLASH_BASE {
            let off: u32 = self.ar - FLASH_BASE;
            assert((off / PAGE_SIZE_BYTES) * PAGE_SIZE_BYTES <= off) by (nonlinear_arith)
                requires PAGE_SIZE_BYTES == 2048;
            let start: usize = ((off / PAGE_SIZE_BYTES) * PAGE_SIZE_BYTES) as usize;
            assert(start + PAGE_SIZE_BYTES <= u32::MAX);
            assert(start == p * (PAGE_SIZE_BYTES as int));
            let mut j: usize = start;
            while j < start + PAGE_SIZE_BYTES as usize && j < self.mem.len()
                invariant
                    start == p * (PAGE_SIZE_BYTES as int),
                    start + PAGE_SIZE_BYTES <= u32::MAX,
                    start <= j <= start + PAGE_SIZE_BYTES,
                    self.mem@.len() == mem0.len(),
                    forall|k: int| 0 <= k < self.mem@.len() && !(start <= k < j) ==> self.mem@[k] == mem0[k],
                    forall|k: int| start <= k < j && k < self.mem@.len() ==> self.mem@[k] == 0xffu8,
                    self.pg == old(self).pg,
                    self.per == old(self).per,
                    self.strt == old(self).strt,
                    self.lock == old(self).lock,
                    self.key_armed == old(self).key_armed,
                    self.bsy == old(self).bsy,
                    self.eop == old(self).eop,
                    self.ar == old(self).ar,
                decreases start + PAGE_SIZE_BYTES - j,
            {
                self.mem[j] = 0xff;
                j = j + 1;
            }
            proof {
                assert forall|k: int| 0 <= k < self.mem@.len()
                    implies self.mem@[k] == erased_page_mem(mem0, p)[k] by {
                    assert(p >= 0);
                    if k / (PAGE_SIZE_BYTES as int) == p {
                        assert(p * (PAGE_SIZE_BYTES as int) <= k < (p + 1) * (PAGE_SIZE_BYTES as int)) by (nonlinear_arith)
                            requires k / (PAGE_SIZE_BYTES as int) == p, PAGE_SIZE_BYTES == 2048;
                        assert(start <= k < start + PAGE_SIZE_BYTES);
                    } else {
                        assert(!(start <= k < start + PAGE_SIZE_BYTES)) by (nonlinear_arith)
                            requires
                                k / (PAGE_SIZE_BYTES as int) != p,
                                start == p * (PAGE_SIZE_BYTES as int),
                                PAGE_SIZE_BYTES == 2048,
                                k >= 0;
                    }
                }
                assert(self.mem@ =~= erased_page_mem(mem0, p));
            }
        } else {
            proof {
                assert(p < 0) by (nonlinear_arith)
                    requires p == (self.ar - FLASH_BASE) / (PAGE_SIZE_BYTES as int), self.ar < FLASH_BASE, PAGE_SIZE_BYTES == 2048;
                assert forall|k: int| 0 <= k < self.mem@.len()
                    implies erased_page_mem(mem0, p)[k] == self.mem@[k] by {
                    assert(k / (PAGE_SIZE_BYTES as int) >= 0) by (nonlinear_arith)
                        requires k >= 0, PAGE_SIZE_BYTES == 2048;
                }
                assert(self.mem@ =~= erased_page_mem(mem0, p));
            }
        }
    }
}

impl FlashPort for SimPort {
    open spec fn pg(&self) -> bool {
        self.pg
    }

    open spec fn per(&self) -> bool {
        self.per
    }

    open spec fn strt(&self) -> bool {
        self.strt
    }

    open spec fn locked(&self) -> bool {
        self.lock
    }

    open spec fn key_armed(&self) -> bool {
        self.key_armed
    }

    open spec fn bsy(&self) -> bool {
        self.bsy
    }

    open spec fn eop(&self) -> bool {
        self.eop
    }

    open spec fn ar(&self) -> u32 {
        self.ar
    }

    open spec fn mem(&self) -> Seq<u8> {
        self.mem@
    }

    fn read_bsy(&self) -> bool {
        self.bsy
    }

    fn read_eop(&self) -> bool {
        self.eop
    }

    fn write_keyr(&mut self, key: u32) {
        if !self.key_armed {
            self.key_armed = key == KEY1;
        } else {
            if key == KEY2 {
                self.lock = false;
            }
            self.key_armed = false;
        }
    }

    fn set_per(&mut self) {
        self.per = true;
    }

    fn clear_per(&mut self) {
        self.per = false;
    }

    fn set_pg(&mut self) {
        self.pg = true;
    }

    fn clear_pg(&mut self) {
        self.pg = false;
    }

    fn write_ar(&mut self, a: u32) {
        self.ar = a;
    }

    fn set_strt(&mut self) {
        self.strt = true;
        if self.per {
            self.bsy = true;
        }
    }

    fn set_lock(&mut self) {
        self.lock = true;
        self.key_armed = false;
    }

    fn clear_eop(&mut self) {
        self.eop = false;
    }

    fn program(&mut self, a: u32, v: u16) {
        let idx = (a - FLASH_BASE) as usize;
        self.mem[idx] = (v & 0xff) as u8;
        self.mem[idx + 1] = (v >> 8) as u8;
        self.bsy = true;
    }

    fn read_mem(&self, a: u32) -> u8 {
        self.mem[(a - FLASH_BASE) as usize]
    }
}

} // verus!
