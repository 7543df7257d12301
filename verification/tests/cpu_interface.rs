use std::cell::Cell;
use std::cell::RefCell;

use axirq::gic_v2::GicCpuInterface;
use axirq::gic_v2::GicHypervisorInterface;

#[test]
fn spurious_acknowledge_invokes_nothing_and_writes_nothing() {
    let mut gicc = GicCpuInterface::new(1023);
    let count = Cell::new(0u32);
    gicc.handle_irq(|_v| count.set(count.get() + 1));
    assert_eq!(count.get(), 0);
    assert_eq!(gicc.eoir_log().len(), 0);
    assert_eq!(gicc.dir_log().len(), 0);
}

#[test]
fn acknowledge_42_invokes_handler_once_with_42_and_completes_with_42() {
    let mut gicc = GicCpuInterface::new(42);
    let seen: RefCell<Vec<u32>> = RefCell::new(Vec::new());
    gicc.handle_irq(|v| seen.borrow_mut().push(v));
    assert_eq!(*seen.borrow(), vec![42]);
    assert_eq!(*gicc.eoir_log(), vec![42]);
    assert_eq!(gicc.dir_log().len(), 0);
}

#[test]
fn completion_writes_back_the_full_token_not_the_vector() {
    // An acknowledge value may carry more than the 10-bit vector (for a
    // software-generated interrupt, the source core): the handler sees the
    // vector, the completion write carries the whole token.
    let mut gicc = GicCpuInterface::new(0x402);
    let seen: RefCell<Vec<u32>> = RefCell::new(Vec::new());
    gicc.handle_irq(|v| seen.borrow_mut().push(v));
    assert_eq!(*seen.borrow(), vec![2]);
    assert_eq!(*gicc.eoir_log(), vec![0x402]);
}

#[test]
fn spurious_threshold_is_1020() {
    let mut below = GicCpuInterface::new(1019);
    let count = Cell::new(0u32);
    below.handle_irq(|_v| count.set(count.get() + 1));
    assert_eq!(count.get(), 1);
    assert_eq!(*below.eoir_log(), vec![1019]);

    let mut at = GicCpuInterface::new(1020);
    let count = Cell::new(0u32);
    at.handle_irq(|_v| count.set(count.get() + 1));
    assert_eq!(count.get(), 0);
    assert_eq!(at.eoir_log().len(), 0);
}

#[test]
fn init_unmasks_priorities_and_enables() {
    let mut gicc = GicCpuInterface::new(1023);
    gicc.init();
    assert_eq!(gicc.read_ctlr(), 1);
    assert_eq!(gicc.read_pmr(), 0xff);
}

#[test]
fn acknowledge_then_manual_completion() {
    let mut gicc = GicCpuInterface::new(33);
    let token = gicc.iar();
    assert_eq!(token, 33);
    gicc.set_eoi(token);
    gicc.dir(token);
    assert_eq!(*gicc.eoir_log(), vec![33]);
    assert_eq!(*gicc.dir_log(), vec![33]);
}

#[test]
fn list_registers_hold_what_is_written() {
    let mut gich = GicHypervisorInterface::new(4);
    assert_eq!(gich.lr_count(), 4);
    assert_eq!(gich.get_hcr(), 0);
    gich.set_lr(2, 0x9000_0042);
    assert_eq!(gich.get_lr(2), 0x9000_0042);
    assert_eq!(gich.get_lr(0), 0);
    assert_eq!(gich.get_lr(1), 0);
    assert_eq!(gich.get_lr(3), 0);
    gich.set_hcr(1);
    assert_eq!(gich.get_hcr(), 1);
}
