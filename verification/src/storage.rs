//! The flash controller: a non-blocking erase/program state machine over the
//! register port, plus the direct memory-mapped read path and the geometry
//! queries.
//!
//! Operations are driven cooperatively: each poll advances at most one
//! hardware step and returns `Pending` ("call again") or `Done`. Transitions
//! are strictly linear along two chains — erase only:
//! `Idle -> EraseStart -> EraseEnd -> Idle`; write:
//! `Idle -> EraseStart -> EraseEnd -> WriteStart -> WriteEnd -> Idle` —
//! and a write always re-enters through the erase chain first
//! (erase-before-write is automatic, not caller-checked).

use vstd::prelude::*;

verus! {

use crate::geometry::{
    addr_in_flash, halfword_at, hi_byte, lo_byte, mem_index, page_base_addr, page_in_flash,
    lemma_halfword_bytes_round_trip, Address, AddressOffset, Page, FLASH_BASE, FLASH_SIZE_BYTES,
    PAGE_SIZE_BYTES,
};
use crate::port::{unlock, FlashPort};

/// Where an in-flight operation stands between polls.
#[derive(Clone, Copy, PartialEq, Eq, Structural, Debug)]
pub enum OperationState {
    /// No operation in flight; the controller is locked.
    Idle,
    /// An erase (or the erase leg of a write) has been requested but not yet
    /// triggered.
    EraseStart,
    /// The erase has been triggered; waiting for the busy flag to clear.
    EraseEnd,
    /// The erase leg is complete; programming has not started yet.
    WriteStart,
    /// The halfwords have been programmed; waiting for the busy flag to clear.
    WriteEnd,
}

/// Outcome of one poll of a non-blocking operation.
#[derive(Clone, Copy, PartialEq, Eq, Structural, Debug)]
pub enum Progress {
    /// Hardware is busy or steps remain: call again.
    Pending,
    /// The operation has completed and the controller has re-locked.
    Done,
}

/// The error surface of the driver. The named fault kinds are the ones this
/// device could report, but the verified operations exclude their causes by
/// precondition (addresses in range and halfword-aligned, the controller
/// well-formed), so an `Err` is never constructed: every poll proves
/// `r is Ok`.
#[derive(Clone, Copy, PartialEq, Eq, Structural, Debug)]
pub enum FlashError {
    /// An address outside the flash region.
    OutOfRange,
    /// An address not aligned to the halfword programming unit.
    AlignmentError,
}

/// A poll that must be repeated.
pub open spec fn pending() -> Result<Progress, FlashError> {
    Ok(Progress::Pending)
}

/// A poll that completed its operation.
pub open spec fn done() -> Result<Progress, FlashError> {
    Ok(Progress::Done)
}

/// `mem` with the halfwords of `buf` stored from address `a` on, advancing
/// two bytes per halfword, low byte at the even address.
pub open spec fn write_halfwords(mem: Seq<u8>, a: u32, buf: Seq<u16>) -> Seq<u8> {
    Seq::new(
        mem.len(),
        |i: int|
            {
                let off = i - mem_index(a);
                if 0 <= off < 2 * buf.len() {
                    if off % 2 == 0 {
                        lo_byte(buf[off / 2])
                    } else {
                        hi_byte(buf[off / 2])
                    }
                } else {
                    mem[i]
                }
            },
    )
}

/// The registers after the erase of the page containing `a` has been
/// triggered: unlocked, erase enable and start bit set, `a` in the address
/// register, the busy flag risen, memory and programming bit untouched. The
/// busy flag and the erased page's bytes now belong to the hardware.
pub open spec fn erase_triggered<P: FlashPort>(pre: P, post: P, a: u32) -> bool {
    &&& !post.locked()
    &&& !post.key_armed()
    &&& post.per()
    &&& post.strt()
    &&& post.ar() == a
    &&& post.bsy()
    &&& post.eop() == pre.eop()
    &&& post.pg() == pre.pg()
    &&& post.mem() == pre.mem()
}

/// The registers after a completed erase has been acknowledged: the
/// end-of-operation flag cleared, the erase enable bit cleared if that flag
/// was set, the lock bit set again, everything else untouched.
pub open spec fn erase_finished<P: FlashPort>(pre: P, post: P) -> bool {
    &&& post.locked()
    &&& !post.key_armed()
    &&& !post.eop()
    &&& post.per() == (pre.per() && !pre.eop())
    &&& post.pg() == pre.pg()
    &&& post.strt() == pre.strt()
    &&& post.bsy() == pre.bsy()
    &&& post.ar() == pre.ar()
    &&& post.mem() == pre.mem()
}

/// The registers after the whole buffer has been programmed in one step:
/// unlocked with the programming bit set, the halfwords stored, the other
/// control bits untouched. The busy flag now belongs to the hardware.
pub open spec fn write_programmed<P: FlashPort>(pre: P, post: P, a: u32, buf: Seq<u16>) -> bool {
    &&& !post.locked()
    &&& !post.key_armed()
    &&& post.pg()
    &&& post.per() == pre.per()
    &&& post.strt() == pre.strt()
    &&& post.bsy() == (pre.bsy() || buf.len() > 0)
    &&& post.eop() == pre.eop()
    &&& post.ar() == pre.ar()
    &&& post.mem() == write_halfwords(pre.mem(), a, buf)
}

/// The registers after a completed write has been acknowledged: the
/// end-of-operation flag and the programming bit cleared, the lock bit set
/// again, memory untouched.
pub open spec fn write_finished<P: FlashPort>(pre: P, post: P) -> bool {
    &&& post.locked()
    &&& !post.key_armed()
    &&& !post.eop()
    &&& !post.pg()
    &&& post.per() == pre.per()
    &&& post.strt() == pre.strt()
    &&& post.bsy() == pre.bsy()
    &&& post.ar() == pre.ar()
    &&& post.mem() == pre.mem()
}

/// The flash controller. It owns the register port — the capability is
/// consumed at construction and the type is not cloneable, so exactly one
/// controller drives a peripheral — and the current operation state.
pub struct Flash<P: FlashPort> {
    /// The register port of the peripheral this controller owns.
    pub port: P,
    /// Where the in-flight operation stands; `Idle` between operations.
    pub state: OperationState,
}

impl<P: FlashPort> Flash<P> {
    /// Well-formedness: the memory model spans the device, the key sequence
    /// is disarmed between polls, and the lock bit agrees with the state —
    /// locked outside the in-flight windows, unlocked inside them.
    pub open spec fn wf(&self) -> bool {
        &&& self.port.mem().len() == FLASH_SIZE_BYTES
        &&& !self.port.key_armed()
        &&& match self.state {
            OperationState::Idle => self.port.locked(),
            OperationState::EraseStart => self.port.locked(),
            OperationState::EraseEnd => !self.port.locked(),
            OperationState::WriteStart => self.port.locked(),
            OperationState::WriteEnd => !self.port.locked(),
        }
    }

    /// Construct the controller by consuming the register port of a locked,
    /// idle peripheral.
    pub fn new(port: P) -> (r: Flash<P>)
        requires
            port.locked(),
            !port.key_armed(),
            port.mem().len() == FLASH_SIZE_BYTES,
        ensures
            r.wf(),
            r.state == OperationState::Idle,
            r.port == port,
    {
        Flash { port, state: OperationState::Idle }
    }

    /// The current position in the operation chains.
    pub fn current_state(&self) -> (r: OperationState)
        ensures
            r == self.state,
    {
        self.state
    }

    /// Fixed base address of the flash region.
    pub fn try_start_address(&self) -> (r: Address)
        ensures
            r.0 == FLASH_BASE,
    {
        Address(FLASH_BASE)
    }

    /// Size of the erasable page containing any address: constant for this
    /// family, parametrized by address for families with non-uniform pages.
    pub fn try_page_size(&self, _address: Address) -> (r: AddressOffset)
        ensures
            r.0 == PAGE_SIZE_BYTES,
    {
        AddressOffset(PAGE_SIZE_BYTES)
    }

    /// Total capacity of the device.
    pub fn try_total_size(&self) -> (r: AddressOffset)
        ensures
            r.0 == FLASH_SIZE_BYTES,
    {
        AddressOffset(FLASH_SIZE_BYTES)
    }

    /// Begin or advance the erase of the page containing `address`.
    ///
    /// A poll in `Idle` only arms the sequence and performs no register
    /// mutation — in particular, polling again after `Done` does not
    /// re-trigger the start bit. The next poll runs the unlock sequence and
    /// triggers the erase; polls after that wait for the busy flag, then
    /// acknowledge completion, re-lock, and return `Done` with the
    /// controller idle, locked and not busy. An erase requested while a
    /// write sequence is in flight is ignored.
    pub fn try_erase_address(&mut self, address: Address) -> (r: Result<Progress, FlashError>)
        requires
            old(self).wf(),
            addr_in_flash(address.0),
        ensures
            final(self).wf(),
            r is Ok,
            old(self).state == OperationState::Idle ==> {
                &&& final(self).state == OperationState::EraseStart
                &&& final(self).port == old(self).port
                &&& r == pending()
            },
            old(self).state == OperationState::EraseStart ==> {
                &&& final(self).state == OperationState::EraseEnd
                &&& erase_triggered(old(self).port, final(self).port, address.0)
                &&& r == pending()
            },
            old(self).state == OperationState::EraseEnd && old(self).port.bsy() ==> {
                &&& *final(self) == *old(self)
                &&& r == pending()
            },
            old(self).state == OperationState::EraseEnd && !old(self).port.bsy() ==> {
                &&& final(self).state == OperationState::Idle
                &&& erase_finished(old(self).port, final(self).port)
                &&& !final(self).port.bsy()
                &&& r == done()
            },
            old(self).state == OperationState::WriteStart || old(self).state
                == OperationState::WriteEnd ==> {
                &&& *final(self) == *old(self)
                &&& r == done()
            },
    {
        match self.state {
            OperationState::Idle => {
                self.state = OperationState::EraseStart;
                Ok(Progress::Pending)
            },
            OperationState::EraseStart => {
                unlock(&mut self.port);
                self.port.set_per();
                self.port.write_ar(address.0);
                self.port.set_strt();
                self.state = OperationState::EraseEnd;
                Ok(Progress::Pending)
            },
            OperationState::EraseEnd => {
                if self.port.read_bsy() {
                    return Ok(Progress::Pending);
                }
                if self.port.read_eop() {
                    self.port.clear_eop();
                    self.port.clear_per();
                }
                self.port.set_lock();
                self.state = OperationState::Idle;
                Ok(Progress::Done)
            },
            OperationState::WriteStart | OperationState::WriteEnd => Ok(Progress::Done),
        }
    }

    /// Begin or advance the erase of page `page`: the page index is turned
    /// into its base address and the erase proceeds as for
    /// [`Self::try_erase_address`].
    pub fn try_erase_page(&mut self, page: Page) -> (r: Result<Progress, FlashError>)
        requires
            old(self).wf(),
            page_in_flash(page.0 as int),
        ensures
            final(self).wf(),
            r is Ok,
            old(self).state == OperationState::Idle ==> {
                &&& final(self).state == OperationState::EraseStart
                &&& final(self).port == old(self).port
                &&& r == pending()
            },
            old(self).state == OperationState::EraseStart ==> {
                &&& final(self).state == OperationState::EraseEnd
                &&& erase_triggered(
                    old(self).port,
                    final(self).port,
                    (FLASH_BASE + page.0 * PAGE_SIZE_BYTES) as u32,
                )
                &&& final(self).port.ar() == page_base_addr(page.0 as int)
                &&& r == pending()
            },
            old(self).state == OperationState::EraseEnd && old(self).port.bsy() ==> {
                &&& *final(self) == *old(self)
                &&& r == pending()
            },
            old(self).state == OperationState::EraseEnd && !old(self).port.bsy() ==> {
                &&& final(self).state == OperationState::Idle
                &&& erase_finished(old(self).port, final(self).port)
                &&& !final(self).port.bsy()
                &&& r == done()
            },
            old(self).state == OperationState::WriteStart || old(self).state
                == OperationState::WriteEnd ==> {
                &&& *final(self) == *old(self)
                &&& r == done()
            },
    {
        let address = Address(FLASH_BASE + page.0 * PAGE_SIZE_BYTES);
        self.try_erase_address(address)
    }

    /// Begin or advance the programming of `buf` at `address`, one halfword
    /// per two byte addresses.
    ///
    /// The sequence always runs the erase chain on the containing page
    /// first — `WriteStart` is entered only from `EraseEnd`, after that
    /// erase has completed and re-locked. The whole buffer is then
    /// transferred in a single state-machine step, and the last polls wait
    /// for the busy flag, acknowledge completion and re-lock. A poll in
    /// `Idle` only arms the sequence and performs no register mutation.
    pub fn try_write_slice(&mut self, address: Address, buf: &Vec<u16>) -> (r: Result<
        Progress,
        FlashError,
    >)
        requires
            old(self).wf(),
            addr_in_flash(address.0),
            address.0 % 2 == 0,
            address.0 + 2 * buf@.len() <= FLASH_BASE + FLASH_SIZE_BYTES,
        ensures
            final(self).wf(),
            r is Ok,
            final(self).state == OperationState::WriteStart && old(self).state
                != OperationState::WriteStart ==> {
                &&& old(self).state == OperationState::EraseEnd
                &&& !old(self).port.bsy()
                &&& erase_finished(old(self).port, final(self).port)
            },
            old(self).state == OperationState::Idle ==> {
                &&& final(self).state == OperationState::EraseStart
                &&& final(self).port == old(self).port
                &&& r == pending()
            },
            old(self).state == OperationState::EraseStart ==> {
                &&& final(self).state == OperationState::EraseEnd
                &&& erase_triggered(old(self).port, final(self).port, address.0)
                &&& r == pending()
            },
            old(self).state == OperationState::EraseEnd && old(self).port.bsy() ==> {
                &&& *final(self) == *old(self)
                &&& r == pending()
            },
            old(self).state == OperationState::EraseEnd && !old(self).port.bsy() ==> {
                &&& final(self).state == OperationState::WriteStart
                &&& erase_finished(old(self).port, final(self).port)
                &&& !final(self).port.bsy()
                &&& r == pending()
            },
            old(self).state == OperationState::WriteStart && old(self).port.bsy() ==> {
                &&& *final(self) == *old(self)
                &&& r == pending()
            },
            old(self).state == OperationState::WriteStart && !old(self).port.bsy() ==> {
                &&& final(self).state == OperationState::WriteEnd
                &&& write_programmed(old(self).port, final(self).port, address.0, buf@)
                &&& r == pending()
            },
            old(self).state == OperationState::WriteEnd && old(self).port.bsy() ==> {
                &&& *final(self) == *old(self)
                &&& r == pending()
            },
            old(self).state == OperationState::WriteEnd && !old(self).port.bsy() ==> {
                &&& final(self).state == OperationState::Idle
                &&& write_finished(old(self).port, final(self).port)
                &&& !final(self).port.bsy()
                &&& r == done()
            },
    {
        match self.state {
            OperationState::Idle => {
                self.state = OperationState::EraseStart;
                Ok(Progress::Pending)
            },
            OperationState::EraseStart | OperationState::EraseEnd => {
                let e = self.try_erase_address(address);
                match e {
                    Ok(Progress::Done) => {
                        self.state = OperationState::WriteStart;
                        Ok(Progress::Pending)
                    },
                    _ => Ok(Progress::Pending),
                }
            },
            OperationState::WriteStart => {
                if self.port.read_bsy() {
                    return Ok(Progress::Pending);
                }
                unlock(&mut self.port);
                self.port.set_pg();
                let ghost port0 = self.port;
                let mut i: usize = 0;
                while i < buf.len()
                    invariant
                        addr_in_flash(address.0),
                        address.0 % 2 == 0,
                        address.0 + 2 * buf@.len() <= FLASH_BASE + FLASH_SIZE_BYTES,
                        i <= buf@.len(),
                        !port0.locked(),
                        !port0.key_armed(),
                        port0.pg(),
                        port0.mem().len() == FLASH_SIZE_BYTES,
                        !self.port.locked(),
                        !self.port.key_armed(),
                        self.port.pg(),
                        self.port.per() == port0.per(),
                        self.port.strt() == port0.strt(),
                        self.port.bsy() == (port0.bsy() || i > 0),
                        self.port.eop() == port0.eop(),
                        self.port.ar() == port0.ar(),
                        self.port.mem() == write_halfwords(
                            port0.mem(),
                            address.0,
                            buf@.take(i as int),
                        ),
                        self.state == OperationState::WriteStart,
                    decreases buf@.len() - i,
                {
                    let a = address.0 + 2 * (i as u32);
                    self.port.program(a, buf[i]);
                    proof {
                        lemma_write_halfwords_step(port0.mem(), address.0, buf@, i as int);
                    }
                    i = i + 1;
                }
                proof {
                    assert(buf@.take(buf@.len() as int) =~= buf@);
                }
                self.state = OperationState::WriteEnd;
                Ok(Progress::Pending)
            },
            OperationState::WriteEnd => {
                if self.port.read_bsy() {
                    return Ok(Progress::Pending);
                }
                self.port.clear_eop();
                self.port.clear_pg();
                self.port.set_lock();
                self.state = OperationState::Idle;
                Ok(Progress::Done)
            },
        }
    }

    /// Begin or advance the programming of the single halfword `word` at
    /// `address`: exactly [`Self::try_write_slice`] with a one-element
    /// buffer, implicit erase of the containing page included.
    pub fn try_write(&mut self, address: Address, word: u16) -> (r: Result<Progress, FlashError>)
        requires
            old(self).wf(),
            addr_in_flash(address.0),
            address.0 % 2 == 0,
            address.0 + 2 <= FLASH_BASE + FLASH_SIZE_BYTES,
        ensures
            final(self).wf(),
            r is Ok,
            final(self).state == OperationState::WriteStart && old(self).state
                != OperationState::WriteStart ==> {
                &&& old(self).state == OperationState::EraseEnd
                &&& !old(self).port.bsy()
                &&& erase_finished(old(self).port, final(self).port)
            },
            old(self).state == OperationState::Idle ==> {
                &&& final(self).state == OperationState::EraseStart
                &&& final(self).port == old(self).port
                &&& r == pending()
            },
            old(self).state == OperationState::EraseStart ==> {
                &&& final(self).state == OperationState::EraseEnd
                &&& erase_triggered(old(self).port, final(self).port, address.0)
                &&& r == pending()
            },
            old(self).state == OperationState::EraseEnd && old(self).port.bsy() ==> {
                &&& *final(self) == *old(self)
                &&& r == pending()
            },
            old(self).state == OperationState::EraseEnd && !old(self).port.bsy() ==> {
                &&& final(self).state == OperationState::WriteStart
                &&& erase_finished(old(self).port, final(self).port)
                &&& !final(self).port.bsy()
                &&& r == pending()
            },
            old(self).state == OperationState::WriteStart && old(self).port.bsy() ==> {
                &&& *final(self) == *old(self)
                &&& r == pending()
            },
            old(self).state == OperationState::WriteStart && !old(self).port.bsy() ==> {
                &&& final(self).state == OperationState::WriteEnd
                &&& write_programmed(old(self).port, final(self).port, address.0, seq![word])
                &&& r == pending()
            },
            old(self).state == OperationState::WriteEnd && old(self).port.bsy() ==> {
                &&& *final(self) == *old(self)
                &&& r == pending()
            },
            old(self).state == OperationState::WriteEnd && !old(self).port.bsy() ==> {
                &&& final(self).state == OperationState::Idle
                &&& write_finished(old(self).port, final(self).port)
                &&& !final(self).port.bsy()
                &&& r == done()
            },
    {
        let mut buf: Vec<u16> = Vec::new();
        buf.push(word);
        proof {
            assert(buf@ =~= seq![word]);
        }
        self.try_write_slice(address, &buf)
    }

    /// Force the controller back to a safe state: clear the enable bits and
    /// the end-of-operation flag, set the lock bit, and reset to `Idle`.
    /// For recovery after an abandoned sequence; an operation in flight, if
    /// any, is not completed, and its fate on the hardware is not stated.
    pub fn abort(&mut self)
        requires
            old(self).wf(),
        ensures
            final(self).wf(),
            final(self).state == OperationState::Idle,
            final(self).port.locked(),
            !final(self).port.key_armed(),
            !final(self).port.per(),
            !final(self).port.pg(),
            !final(self).port.eop(),
            final(self).port.strt() == old(self).port.strt(),
            final(self).port.bsy() == old(self).port.bsy(),
            final(self).port.ar() == old(self).port.ar(),
            final(self).port.mem() == old(self).port.mem(),
    {
        match self.state {
            OperationState::Idle | OperationState::EraseStart | OperationState::WriteStart => {
                unlock(&mut self.port);
            },
            OperationState::EraseEnd | OperationState::WriteEnd => {},
        }
        self.port.clear_per();
        self.port.clear_pg();
        self.port.clear_eop();
        self.port.set_lock();
        self.state = OperationState::Idle;
    }

    /// Read the byte at `address`: the direct memory-mapped path, bypassing
    /// the state machine. No operation may be in flight.
    pub fn try_read(&self, address: Address) -> (r: u8)
        requires
            self.wf(),
            self.state == OperationState::Idle,
            addr_in_flash(address.0),
        ensures
            r == self.port.mem()[mem_index(address.0)],
    {
        self.port.read_mem(address.0)
    }

    /// Read `len` bytes from `address` on: the direct memory-mapped path,
    /// bypassing the state machine. No operation may be in flight.
    pub fn try_read_slice(&self, address: Address, len: usize) -> (r: Vec<u8>)
        requires
            self.wf(),
            self.state == OperationState::Idle,
            addr_in_flash(address.0),
            address.0 + len <= FLASH_BASE + FLASH_SIZE_BYTES,
        ensures
            r@.len() == len,
            forall|i: int| 0 <= i < len ==> r@[i] == self.port.mem()[mem_index(address.0) + i],
    {
        let mut out: Vec<u8> = Vec::new();
        let mut i: usize = 0;
        while i < len
            invariant
                self.wf(),
                addr_in_flash(address.0),
                address.0 + len <= FLASH_BASE + FLASH_SIZE_BYTES,
                i <= len,
                out@.len() == i,
                forall|j: int| 0 <= j < i ==> out@[j] == self.port.mem()[mem_index(address.0) + j],
            decreases len - i,
        {
            let b = self.port.read_mem(address.0 + i as u32);
            out.push(b);
            i = i + 1;
        }
        out
    }
}

/// Storing one more halfword extends the stored image by exactly its two
/// bytes.
proof fn lemma_write_halfwords_step(mem: Seq<u8>, a: u32, buf: Seq<u16>, i: int)
    requires
        mem.len() == FLASH_SIZE_BYTES,
        addr_in_flash(a),
        a % 2 == 0,
        a + 2 * buf.len() <= FLASH_BASE + FLASH_SIZE_BYTES,
        0 <= i < buf.len(),
    ensures
        write_halfwords(mem, a, buf.take(i + 1)) == write_halfwords(mem, a, buf.take(i)).update(
            mem_index(a) + 2 * i,
            lo_byte(buf[i]),
        ).update(mem_index(a) + 2 * i + 1, hi_byte(buf[i])),
{
    let s1 = write_halfwords(mem, a, buf.take(i + 1));
    let t = write_halfwords(mem, a, buf.take(i)).update(
        mem_index(a) + 2 * i,
        lo_byte(buf[i]),
    ).update(mem_index(a) + 2 * i + 1, hi_byte(buf[i]));
    assert forall|k: int| 0 <= k < s1.len() implies s1[k] == t[k] by {
        let off = k - mem_index(a);
        if off == 2 * i {
            assert(off % 2 == 0 && off / 2 == i) by (nonlinear_arith)
                requires
                    off == 2 * i,
                    i >= 0,
            ;
        } else if off == 2 * i + 1 {
            assert(off % 2 == 1 && off / 2 == i) by (nonlinear_arith)
                requires
                    off == 2 * i + 1,
                    i >= 0,
            ;
        } else if 0 <= off < 2 * i {
            assert(0 <= off / 2 < i) by (nonlinear_arith)
                requires
                    0 <= off < 2 * i,
            ;
        } else {
            assert(!(0 <= off < 2 * (i + 1)));
        }
    }
    assert(s1 =~= t);
}

/// The round-trip law: after `write_halfwords` has stored a buffer at an
/// even in-range address, the halfword read back two byte addresses apart is
/// the buffer element, for every position — writing a buffer and reading the
/// same range back yields the buffer unchanged.
pub proof fn lemma_write_read_round_trip(mem: Seq<u8>, a: u32, buf: Seq<u16>, i: int)
    requires
        mem.len() == FLASH_SIZE_BYTES,
        addr_in_flash(a),
        a % 2 == 0,
        a + 2 * buf.len() <= FLASH_BASE + FLASH_SIZE_BYTES,
        0 <= i < buf.len(),
    ensures
        halfword_at(write_halfwords(mem, a, buf), (a + 2 * i) as u32) == buf[i],
{
    let w = write_halfwords(mem, a, buf);
    let k0 = mem_index((a + 2 * i) as u32);
    assert(k0 == mem_index(a) + 2 * i);
    assert((2 * i) % 2 == 0 && (2 * i) / 2 == i && (2 * i + 1) % 2 == 1 && (2 * i + 1) / 2 == i)
        by (nonlinear_arith)
        requires
            i >= 0,
    ;
    assert(w[k0] == lo_byte(buf[i]));
    assert(w[k0 + 1] == hi_byte(buf[i]));
    lemma_halfword_bytes_round_trip(buf[i]);
}

} // verus!
