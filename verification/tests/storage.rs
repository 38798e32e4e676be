use flash_driver::geometry::{Address, AddressOffset, Page, FLASH_BASE, FLASH_SIZE_BYTES, PAGE_SIZE_BYTES};
use flash_driver::sim::SimPort;
use flash_driver::storage::{Flash, OperationState, Progress};

type Sim = Flash<SimPort>;

fn controller() -> Sim {
    Flash::new(SimPort::new())
}

/// Poll `op` until it reports `Done`, advancing the simulated hardware one
/// step whenever a poll leaves it busy — the firmware main loop in miniature.
fn run_to_done(f: &mut Sim, mut op: impl FnMut(&mut Sim) -> Result<Progress, flash_driver::storage::FlashError>) {
    for _ in 0..32 {
        match op(f) {
            Ok(Progress::Done) => return,
            Ok(Progress::Pending) => {
                if f.port.bsy {
                    f.port.step();
                }
            }
            Err(e) => panic!("unexpected flash error: {:?}", e),
        }
    }
    panic!("operation did not complete");
}

fn registers(p: &SimPort) -> (bool, bool, bool, bool, bool, bool, bool, u32) {
    (p.pg, p.per, p.strt, p.lock, p.key_armed, p.bsy, p.eop, p.ar)
}

#[test]
fn geometry_constants() {
    let f = controller();
    assert_eq!(f.try_start_address(), Address(0x0800_0000));
    assert_eq!(f.try_total_size(), AddressOffset(0x0004_0000));
    assert_eq!(f.try_page_size(Address(0)), AddressOffset(2048));
    assert_eq!(f.try_page_size(Address(FLASH_BASE)), AddressOffset(2048));
    assert_eq!(f.try_page_size(Address(u32::MAX)), AddressOffset(2048));
    assert_eq!(FLASH_SIZE_BYTES / PAGE_SIZE_BYTES, 128);
}

#[test]
fn erase_page_zero_scenario() {
    let mut f = controller();
    // first poll only arms the sequence
    assert_eq!(f.try_erase_page(Page(0)), Ok(Progress::Pending));
    assert_eq!(f.current_state(), OperationState::EraseStart);
    assert!(f.port.lock);
    // second poll unlocks and triggers: AR = start address, PER and STRT set
    assert_eq!(f.try_erase_page(Page(0)), Ok(Progress::Pending));
    assert_eq!(f.current_state(), OperationState::EraseEnd);
    assert_eq!(f.port.ar, FLASH_BASE);
    assert!(f.port.per);
    assert!(f.port.strt);
    assert!(!f.port.lock);
    assert!(f.port.bsy);
    // hardware finishes: busy clears, end-of-operation rises
    f.port.step();
    assert!(!f.port.bsy);
    assert!(f.port.eop);
    // completing poll: EOP acknowledged, PER cleared, LOCK set, Idle
    assert_eq!(f.try_erase_page(Page(0)), Ok(Progress::Done));
    assert!(!f.port.per);
    assert!(!f.port.eop);
    assert!(f.port.lock);
    assert!(!f.port.bsy);
    assert_eq!(f.current_state(), OperationState::Idle);
}

#[test]
fn erase_to_completion_leaves_idle_locked() {
    for page in [1u32, 3, 64, 127] {
        let mut f = controller();
        run_to_done(&mut f, |f| f.try_erase_page(Page(page)));
        assert_eq!(f.current_state(), OperationState::Idle);
        assert!(f.port.lock);
        assert!(!f.port.bsy);
        assert_eq!(f.port.ar, FLASH_BASE + page * PAGE_SIZE_BYTES);
    }
}

#[test]
fn erase_address_targets_containing_page() {
    let mut f = controller();
    let a = Address(FLASH_BASE + 3 * PAGE_SIZE_BYTES + 17);
    assert_eq!(f.try_erase_address(a), Ok(Progress::Pending));
    assert_eq!(f.try_erase_address(a), Ok(Progress::Pending));
    assert_eq!(f.port.ar, a.0);
    f.port.step();
    assert_eq!(f.try_erase_address(a), Ok(Progress::Done));
    // the whole containing page reads erased
    let base = Address(FLASH_BASE + 3 * PAGE_SIZE_BYTES);
    let bytes = f.try_read_slice(base, PAGE_SIZE_BYTES as usize);
    assert!(bytes.iter().all(|b| *b == 0xff));
}

#[test]
fn polling_after_done_mutates_no_register() {
    let mut f = controller();
    run_to_done(&mut f, |f| f.try_erase_page(Page(2)));
    let before = registers(&f.port);
    let mem_before = f.port.mem.clone();
    // the poll after Done arms a new sequence but touches no register
    assert_eq!(f.try_erase_page(Page(2)), Ok(Progress::Pending));
    assert_eq!(registers(&f.port), before);
    assert_eq!(f.port.mem, mem_before);
    assert_eq!(f.current_state(), OperationState::EraseStart);
    // same for the poll after a completed write
    let mut g = controller();
    run_to_done(&mut g, |g| g.try_write(Address(FLASH_BASE), 0x1234));
    let before_g = registers(&g.port);
    assert_eq!(g.try_write(Address(FLASH_BASE), 0x1234), Ok(Progress::Pending));
    assert_eq!(registers(&g.port), before_g);
}

#[test]
fn write_beef_scenario() {
    let mut f = controller();
    let a = Address(FLASH_BASE + 4);
    // erase leg first: arm, trigger, wait, finish
    assert_eq!(f.try_write(a, 0xBEEF), Ok(Progress::Pending));
    assert_eq!(f.current_state(), OperationState::EraseStart);
    assert_eq!(f.try_write(a, 0xBEEF), Ok(Progress::Pending));
    assert_eq!(f.current_state(), OperationState::EraseEnd);
    assert_eq!(f.port.ar, a.0);
    f.port.step();
    assert_eq!(f.try_write(a, 0xBEEF), Ok(Progress::Pending));
    assert_eq!(f.current_state(), OperationState::WriteStart);
    assert!(f.port.lock);
    // programming step
    assert_eq!(f.try_write(a, 0xBEEF), Ok(Progress::Pending));
    assert_eq!(f.current_state(), OperationState::WriteEnd);
    assert!(f.port.pg);
    f.port.step();
    assert_eq!(f.try_write(a, 0xBEEF), Ok(Progress::Done));
    assert_eq!(f.current_state(), OperationState::Idle);
    assert!(f.port.lock);
    assert!(!f.port.pg);
    // the halfword is stored low byte first
    assert_eq!(f.try_read(a), 0xEF);
    assert_eq!(f.try_read(Address(a.0 + 1)), 0xBE);
}

#[test]
fn write_enters_write_start_only_after_erase() {
    let mut f = controller();
    let a = Address(FLASH_BASE + 2 * PAGE_SIZE_BYTES);
    let mut seen = Vec::new();
    run_to_done(&mut f, |f| {
        let r = f.try_write(a, 0x00AA);
        seen.push(f.current_state());
        r
    });
    assert_eq!(
        seen,
        vec![
            OperationState::EraseStart,
            OperationState::EraseEnd,
            OperationState::WriteStart,
            OperationState::WriteEnd,
            OperationState::Idle,
        ]
    );
}

#[test]
fn write_slice_read_slice_round_trip() {
    let mut f = controller();
    let a = Address(FLASH_BASE + 5 * PAGE_SIZE_BYTES + 32);
    let buf: Vec<u16> = vec![0x0000, 0x1234, 0xFFFF, 0xBEEF, 0x8001, 0x00FF];
    run_to_done(&mut f, |f| f.try_write_slice(a, &buf));
    let bytes = f.try_read_slice(a, 2 * buf.len());
    let back: Vec<u16> = bytes
        .chunks(2)
        .map(|c| (c[0] as u16) | ((c[1] as u16) << 8))
        .collect();
    assert_eq!(back, buf);
}

#[test]
fn write_slice_batches_whole_buffer_in_one_step() {
    let mut f = controller();
    let a = Address(FLASH_BASE + 64);
    let buf: Vec<u16> = (0..40u16).collect();
    // arm, trigger, erase, finish erase leg
    assert_eq!(f.try_write_slice(a, &buf), Ok(Progress::Pending));
    assert_eq!(f.try_write_slice(a, &buf), Ok(Progress::Pending));
    f.port.step();
    assert_eq!(f.try_write_slice(a, &buf), Ok(Progress::Pending));
    assert_eq!(f.current_state(), OperationState::WriteStart);
    // one poll transfers the whole buffer
    assert_eq!(f.try_write_slice(a, &buf), Ok(Progress::Pending));
    assert_eq!(f.current_state(), OperationState::WriteEnd);
    f.port.step();
    assert_eq!(f.try_write_slice(a, &buf), Ok(Progress::Done));
    for (i, v) in buf.iter().enumerate() {
        assert_eq!(f.try_read(Address(a.0 + 2 * i as u32)), (v & 0xff) as u8);
        assert_eq!(f.try_read(Address(a.0 + 2 * i as u32 + 1)), (v >> 8) as u8);
    }
}

#[test]
fn erase_requested_during_write_is_ignored() {
    let mut f = controller();
    let a = Address(FLASH_BASE);
    // drive the write into WriteStart
    assert_eq!(f.try_write(a, 0x5555), Ok(Progress::Pending));
    assert_eq!(f.try_write(a, 0x5555), Ok(Progress::Pending));
    f.port.step();
    assert_eq!(f.try_write(a, 0x5555), Ok(Progress::Pending));
    assert_eq!(f.current_state(), OperationState::WriteStart);
    let before = registers(&f.port);
    assert_eq!(f.try_erase_page(Page(7)), Ok(Progress::Done));
    assert_eq!(registers(&f.port), before);
    assert_eq!(f.current_state(), OperationState::WriteStart);
}

#[test]
fn abort_recovers_mid_sequence() {
    let mut f = controller();
    // abandon an erase right after the trigger
    assert_eq!(f.try_erase_page(Page(5)), Ok(Progress::Pending));
    assert_eq!(f.try_erase_page(Page(5)), Ok(Progress::Pending));
    assert!(f.port.per && !f.port.lock);
    f.port.step();
    f.abort();
    assert_eq!(f.current_state(), OperationState::Idle);
    assert!(f.port.lock);
    assert!(!f.port.per);
    assert!(!f.port.pg);
    assert!(!f.port.eop);
    // the controller is usable again
    run_to_done(&mut f, |f| f.try_erase_page(Page(6)));
    assert_eq!(f.current_state(), OperationState::Idle);
}

#[test]
fn fresh_flash_reads_erased() {
    let f = controller();
    assert_eq!(f.try_read(Address(FLASH_BASE)), 0xFF);
    let tail = f.try_read_slice(Address(FLASH_BASE + FLASH_SIZE_BYTES - 16), 16);
    assert_eq!(tail, vec![0xFF; 16]);
}

#[test]
fn empty_write_slice_still_erases_page() {
    let mut f = controller();
    let a = Address(FLASH_BASE + 7 * PAGE_SIZE_BYTES);
    let buf: Vec<u16> = vec![0xAAAA];
    run_to_done(&mut f, |f| f.try_write_slice(a, &buf));
    assert_eq!(f.try_read(a), 0xAA);
    let empty: Vec<u16> = Vec::new();
    run_to_done(&mut f, |f| f.try_write_slice(a, &empty));
    // the implicit erase of the containing page ran even for zero halfwords
    assert_eq!(f.try_read(a), 0xFF);
    assert_eq!(f.current_state(), OperationState::Idle);
}

#[test]
fn zero_length_read() {
    let f = controller();
    let bytes = f.try_read_slice(Address(FLASH_BASE), 0);
    assert!(bytes.is_empty());
}

#[test]
fn pending_while_hardware_busy() {
    let mut f = controller();
    assert_eq!(f.try_erase_page(Page(9)), Ok(Progress::Pending));
    assert_eq!(f.try_erase_page(Page(9)), Ok(Progress::Pending));
    // hardware still busy: every poll reports Pending and changes nothing
    let before = registers(&f.port);
    assert_eq!(f.try_erase_page(Page(9)), Ok(Progress::Pending));
    assert_eq!(f.try_erase_page(Page(9)), Ok(Progress::Pending));
    assert_eq!(registers(&f.port), before);
    assert_eq!(f.current_state(), OperationState::EraseEnd);
    f.port.step();
    assert_eq!(f.try_erase_page(Page(9)), Ok(Progress::Done));
}
