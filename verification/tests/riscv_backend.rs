use std::cell::RefCell;
use std::rc::Rc;

use axirq::irq::HandlerTable;
use axirq::irq::register_handler_common;
use axirq::riscv_irq::CauseHandlers;
use axirq::riscv_irq::INTC_IRQ_BASE;
use axirq::riscv_irq::S_EXT;
use axirq::riscv_irq::S_SOFT;
use axirq::riscv_irq::S_TIMER;
use axirq::riscv_irq::SoftIrqLines;
use axirq::riscv_irq::dispatch_irq;
use axirq::riscv_irq::register_handler;
use axirq::riscv_irq::send_sgi_all;
use axirq::riscv_irq::send_sgi_one;

type Handler = Box<dyn Fn()>;

fn recording_handler(log: &Rc<RefCell<Vec<&'static str>>>, tag: &'static str) -> Handler {
    let log = Rc::clone(log);
    Box::new(move || log.borrow_mut().push(tag))
}

#[test]
fn cause_codes_carry_the_interrupt_bit() {
    assert_eq!(INTC_IRQ_BASE, 1u64 << 63);
    assert_eq!(S_SOFT, INTC_IRQ_BASE + 1);
    assert_eq!(S_TIMER, INTC_IRQ_BASE + 5);
    assert_eq!(S_EXT, INTC_IRQ_BASE + 9);
}

#[test]
fn timer_and_software_causes_register_once() {
    let mut ch: CauseHandlers<Handler> = CauseHandlers::new();
    let mut table: HandlerTable<Handler> = HandlerTable::new(1024);
    let log = Rc::new(RefCell::new(Vec::new()));
    assert!(register_handler(&mut ch, &mut table, S_TIMER, recording_handler(&log, "timer")));
    assert!(!register_handler(&mut ch, &mut table, S_TIMER, recording_handler(&log, "timer2")));
    assert!(register_handler(&mut ch, &mut table, S_SOFT, recording_handler(&log, "ipi")));
    assert!(!register_handler(&mut ch, &mut table, S_SOFT, recording_handler(&log, "ipi2")));

    dispatch_irq(&ch, &table, S_TIMER);
    dispatch_irq(&ch, &table, S_SOFT);
    dispatch_irq(&ch, &table, S_TIMER);
    assert_eq!(*log.borrow(), vec!["timer", "ipi", "timer"]);
}

#[test]
fn external_cause_registers_under_its_cleared_code() {
    let mut ch: CauseHandlers<Handler> = CauseHandlers::new();
    let mut table: HandlerTable<Handler> = HandlerTable::new(1024);
    let log = Rc::new(RefCell::new(Vec::new()));
    assert!(register_handler(&mut ch, &mut table, S_EXT, recording_handler(&log, "ext9")));
    // the slot is the cause code with its interrupt bit cleared: occupied now
    assert!(!register_handler(&mut ch, &mut table, S_EXT, recording_handler(&log, "again")));

    // external events resolve to vector 0 until a controller driver exists,
    // so the handler at 9 is not what dispatch runs
    dispatch_irq(&ch, &table, S_EXT);
    assert_eq!(log.borrow().len(), 0);

    assert!(register_handler_common(&mut table, 0, recording_handler(&log, "ext0")));
    dispatch_irq(&ch, &table, S_EXT);
    assert_eq!(*log.borrow(), vec!["ext0"]);
}

#[test]
fn sgi_one_raises_exactly_the_destination_line() {
    let mut lines = SoftIrqLines::new(4);
    send_sgi_one(&mut lines, 2, 1);
    assert!(!lines.is_pending(0));
    assert!(!lines.is_pending(1));
    assert!(lines.is_pending(2));
    assert!(!lines.is_pending(3));
    // a destination outside the platform is a failed, non-fatal platform call
    send_sgi_one(&mut lines, 9, 1);
    for i in [0usize, 1, 3] {
        assert!(!lines.is_pending(i));
    }
    lines.clear(2);
    assert!(!lines.is_pending(2));
}

#[test]
fn sgi_all_raises_every_line_but_the_sender() {
    let mut lines = SoftIrqLines::new(4);
    send_sgi_all(&mut lines, 1, 1);
    assert!(lines.is_pending(0));
    assert!(!lines.is_pending(1));
    assert!(lines.is_pending(2));
    assert!(lines.is_pending(3));
}
