use std::cell::RefCell;
use std::rc::Rc;

use axirq::InterruptType;
use axirq::gic;
use axirq::gic::MyVgic;
use axirq::gic_v2::GicCpuInterface;
use axirq::gic_v2::GicDistributor;
use axirq::gic_v2::GicHypervisorInterface;
use axirq::translate_irq;
use axirq::irq::HandlerTable;
use axirq::irq::dispatch_irq_common;
use axirq::irq::register_handler_common;

type Handler = Box<dyn Fn()>;

fn recording_handler(log: &Rc<RefCell<Vec<&'static str>>>, tag: &'static str) -> Handler {
    let log = Rc::clone(log);
    Box::new(move || log.borrow_mut().push(tag))
}

#[test]
fn register_twice_keeps_the_first_handler() {
    let mut gicd = GicDistributor::new(0x1f);
    let mut table: HandlerTable<Handler> = HandlerTable::new(1024);
    let log = Rc::new(RefCell::new(Vec::new()));
    assert!(gic::register_handler(&mut gicd, &mut table, 44, recording_handler(&log, "first")));
    assert!(gicd.is_enabled(44));
    assert!(!gic::register_handler(&mut gicd, &mut table, 44, recording_handler(&log, "second")));
    assert!(dispatch_irq_common(&table, 44));
    assert_eq!(*log.borrow(), vec!["first"]);
}

#[test]
fn registration_failure_leaves_enable_state_alone() {
    let mut gicd = GicDistributor::new(0x1f);
    let mut table: HandlerTable<Handler> = HandlerTable::new(1024);
    assert!(!gic::register_handler(&mut gicd, &mut table, 5000, Box::new(|| ())));
    for w in 0..32 {
        assert_eq!(gicd.read_isenabler(w), 0);
    }
    // occupy, then fail: the vector stays enabled exactly once
    assert!(gic::register_handler(&mut gicd, &mut table, 7, Box::new(|| ())));
    gicd.set_enable(7, false);
    assert!(!gic::register_handler(&mut gicd, &mut table, 7, Box::new(|| ())));
    assert!(!gicd.is_enabled(7));
}

#[test]
fn dispatch_without_handler_reports_unhandled() {
    let table: HandlerTable<Handler> = HandlerTable::new(1024);
    assert!(!dispatch_irq_common(&table, 3));
    assert!(!dispatch_irq_common(&table, 5000));
}

#[test]
fn table_capacity_bounds_registration() {
    let mut table: HandlerTable<Handler> = HandlerTable::new(16);
    assert!(register_handler_common(&mut table, 15, Box::new(|| ())));
    assert!(!register_handler_common(&mut table, 16, Box::new(|| ())));
}

#[test]
fn fetch_irq_reads_the_acknowledge_register() {
    let gicc = GicCpuInterface::new(77);
    assert_eq!(gic::fetch_irq(&gicc), 77);
}

#[test]
fn dispatch_zero_runs_the_acknowledge_unit() {
    let mut gicd = GicDistributor::new(0x1f);
    let mut table: HandlerTable<Handler> = HandlerTable::new(1024);
    let log = Rc::new(RefCell::new(Vec::new()));
    assert!(gic::register_handler(&mut gicd, &mut table, 42, recording_handler(&log, "h42")));

    let mut gicc = GicCpuInterface::new(42);
    gic::dispatch_irq(&mut gicc, &table, 0);
    assert_eq!(*log.borrow(), vec!["h42"]);
    assert_eq!(*gicc.eoir_log(), vec![42]);
    assert_eq!(gicc.dir_log().len(), 0);
}

#[test]
fn dispatch_zero_with_spurious_acknowledge_does_nothing() {
    let table: HandlerTable<Handler> = HandlerTable::new(1024);
    let mut gicc = GicCpuInterface::new(1023);
    gic::dispatch_irq(&mut gicc, &table, 0);
    assert_eq!(gicc.eoir_log().len(), 0);
    assert_eq!(gicc.dir_log().len(), 0);
}

#[test]
fn dispatch_fetched_vector_completes_with_split_sequence() {
    let mut gicd = GicDistributor::new(0x1f);
    let mut table: HandlerTable<Handler> = HandlerTable::new(1024);
    let log = Rc::new(RefCell::new(Vec::new()));
    assert!(gic::register_handler(&mut gicd, &mut table, 33, recording_handler(&log, "h33")));

    let mut gicc = GicCpuInterface::new(33);
    let irq = gic::fetch_irq(&gicc);
    gic::dispatch_irq(&mut gicc, &table, irq);
    assert_eq!(*log.borrow(), vec!["h33"]);
    assert_eq!(*gicc.eoir_log(), vec![33]);
    assert_eq!(*gicc.dir_log(), vec![33]);
}

#[test]
fn init_primary_brings_the_whole_controller_up() {
    let mut gicd = GicDistributor::new((1 << 5) | 0x1f);
    let mut gicc = GicCpuInterface::new(1023);
    let mut gicv = GicCpuInterface::new(1023);
    let gich = GicHypervisorInterface::new(4);
    assert!(gic::init_primary(&mut gicd, &mut gicc, &mut gicv, &gich).is_ok());
    assert_eq!(gicd.read_ctlr(), 1);
    assert_eq!(gicc.read_ctlr(), 1);
    assert_eq!(gicc.read_pmr(), 0xff);
    assert_eq!(gicv.read_ctlr(), 1);
    assert_eq!(gicv.read_pmr(), 0xff);

    let mut gicc2 = GicCpuInterface::new(1023);
    gic::init_secondary(&mut gicc2);
    assert_eq!(gicc2.read_ctlr(), 1);
    assert_eq!(gicc2.read_pmr(), 0xff);
}

#[test]
fn vgic_bundle_hands_out_its_blocks() {
    let gicd = GicDistributor::new(0x1f);
    let mut gicc = GicCpuInterface::new(1023);
    gicc.set_pending(42);
    let gicv = GicCpuInterface::new(1023);
    let gich = GicHypervisorInterface::new(4);
    let vgic = MyVgic::new(gicd, gicc, gicv, gich);
    assert_eq!(vgic.get_gicd().read_ctlr(), 0);
    assert_eq!(vgic.get_gicc().iar(), 42);
    assert_eq!(vgic.get_gicv().iar(), 1023);
    assert_eq!(vgic.get_gich().lr_count(), 4);
}

#[test]
fn translate_irq_maps_each_class_to_its_bank() {
    assert_eq!(translate_irq(5, InterruptType::SGI), Some(5));
    assert_eq!(translate_irq(16, InterruptType::SGI), None);
    assert_eq!(translate_irq(14, InterruptType::PPI), Some(30));
    assert_eq!(translate_irq(16, InterruptType::PPI), None);
    assert_eq!(translate_irq(1, InterruptType::SPI), Some(33));
    assert_eq!(translate_irq(992, InterruptType::SPI), None);
    assert_eq!(gic::TIMER_IRQ_NUM, 30);
    assert_eq!(gic::UART_IRQ_NUM, 33);
}
