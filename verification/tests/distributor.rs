use axirq::TriggerMode;
use axirq::gic_v2::GicDistributor;

#[test]
fn cpu_num_and_max_irqs_derive_from_type_register() {
    // Four CPU interfaces (field 3) and 8 * 32 = 256 vectors (field 7).
    let gicd = GicDistributor::new((3 << 5) | 7);
    assert_eq!(gicd.read_typer(), (3 << 5) | 7);
    assert_eq!(gicd.cpu_num(), 4);
    assert_eq!(gicd.max_irqs(), 256);
    let small = GicDistributor::new(0);
    assert_eq!(small.cpu_num(), 1);
    assert_eq!(small.max_irqs(), 32);
}

#[test]
fn max_irqs_never_exceeds_ceiling() {
    // The line-count field is five bits wide, so even an all-ones type
    // register reports exactly the compiled ceiling, never more.
    let mut gicd = GicDistributor::new(0xffff_ffff);
    assert_eq!(gicd.max_irqs(), 1024);
    assert!(gicd.init().is_ok());
}

#[test]
fn configure_edge_sets_trigger_bit_and_level_clears_it() {
    let mut gicd = GicDistributor::new(0x1f);
    let v = 40usize;
    gicd.configure_interrupt(v, TriggerMode::Edge);
    assert!(gicd.is_edge_triggered(v));
    let word = gicd.read_icfgr(v / 16);
    assert_ne!(word & (1 << ((v % 16) * 2 + 1)), 0);
    // the adjacent bit of the same field is untouched
    assert_eq!(word & (1 << ((v % 16) * 2)), 0);
    gicd.configure_interrupt(v, TriggerMode::Level);
    assert!(!gicd.is_edge_triggered(v));
    let word = gicd.read_icfgr(v / 16);
    assert_eq!(word & (1 << ((v % 16) * 2 + 1)), 0);
    assert_eq!(word & (1 << ((v % 16) * 2)), 0);
}

#[test]
fn configure_ignores_private_vectors() {
    let mut gicd = GicDistributor::new(0x1f);
    gicd.configure_interrupt(5, TriggerMode::Edge);
    gicd.configure_interrupt(20, TriggerMode::Edge);
    for i in 0..64 {
        assert_eq!(gicd.read_icfgr(i), 0);
    }
}

#[test]
fn enable_then_disable_leaves_bit_cleared() {
    let mut gicd = GicDistributor::new(0x1f);
    let v = 100usize;
    gicd.set_enable(v, true);
    assert!(gicd.is_enabled(v));
    assert_eq!(gicd.read_isenabler(v / 32), 1 << (v % 32));
    gicd.set_enable(v, false);
    assert!(!gicd.is_enabled(v));
    assert_eq!(gicd.read_isenabler(v / 32), 0);
}

#[test]
fn enable_is_isolated_per_vector() {
    let mut gicd = GicDistributor::new(0x1f);
    gicd.set_enable(64, true);
    gicd.set_enable(65, true);
    gicd.set_enable(64, false);
    assert!(!gicd.is_enabled(64));
    assert!(gicd.is_enabled(65));
}

#[test]
fn priority_round_trip_preserves_word_mates() {
    let mut gicd = GicDistributor::new(0x1f);
    gicd.set_priority(8, 0xaa);
    gicd.set_priority(9, 0xbb);
    gicd.set_priority(10, 0xcc);
    gicd.set_priority(11, 0xdd);
    // rewrite one byte of the shared word
    gicd.set_priority(9, 0x55);
    assert_eq!(gicd.get_priority(8), 0xaa);
    assert_eq!(gicd.get_priority(9), 0x55);
    assert_eq!(gicd.get_priority(10), 0xcc);
    assert_eq!(gicd.get_priority(11), 0xdd);
}

#[test]
fn init_disables_routes_and_configures_everything() {
    // Two CPU interfaces, 1024 vectors.
    let mut gicd = GicDistributor::new((1 << 5) | 0x1f);
    gicd.set_enable(50, true);
    assert!(gicd.init().is_ok());
    assert_eq!(gicd.read_ctlr(), 1);
    assert!(!gicd.is_enabled(50));
    for w in 0..32 {
        assert_eq!(gicd.read_isenabler(w), 0);
        assert_eq!(gicd.read_ispendr(w), 0);
        assert_eq!(gicd.read_isactiver(w), 0);
    }
    // routable vectors target the first core at the lowest priority
    for i in 8..256 {
        assert_eq!(gicd.read_itargetsr(i), 0x01_01_01_01);
        assert_eq!(gicd.read_ipriorityr(i), 0xffff_ffff);
    }
    assert_eq!(gicd.get_priority(40), 0xff);
    // routable vectors are edge-triggered, private ones untouched
    assert!(gicd.is_edge_triggered(32));
    assert!(gicd.is_edge_triggered(1023));
    assert!(!gicd.is_edge_triggered(20));
}

#[test]
fn init_with_one_core_leaves_routing_alone() {
    let mut gicd = GicDistributor::new(0x1f);
    assert!(gicd.init().is_ok());
    assert_eq!(gicd.read_ctlr(), 1);
    for i in 0..256 {
        assert_eq!(gicd.read_itargetsr(i), 0);
        assert_eq!(gicd.read_ipriorityr(i), 0);
    }
}

#[test]
fn send_sgi_encodes_target_and_number() {
    let mut gicd = GicDistributor::new(0x1f);
    gicd.send_sgi(1, 3);
    gicd.send_sgi(0, 15);
    let log = gicd.sgir_log();
    assert_eq!(log.len(), 2);
    assert_eq!(log[0], (1 << 17) | 3);
    assert_eq!(log[1], (1 << 16) | 15);
}
