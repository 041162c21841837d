use fdcan_driver::mode::{Fdcan, OperatingMode};
use fdcan_driver::timing::{calc_fdcan_timings, NominalBitTiming};

#[test]
fn new_handle_is_in_config_mode() {
    let can = Fdcan::new(170_000_000);
    assert_eq!(can.mode(), OperatingMode::Config);
    assert_eq!(can.periph_clock(), 170_000_000);
    assert_eq!(can.nominal_bit_timing(), None);
}

#[test]
fn set_bitrate_stores_computed_timing() {
    let mut can = Fdcan::new(170_000_000);
    can.set_bitrate(250_000);
    assert_eq!(can.nominal_bit_timing(), calc_fdcan_timings(170_000_000, 250_000));
    let t = NominalBitTiming { sync_jump_width: 1, prescaler: 10, seg1: 13, seg2: 2 };
    can.set_nominal_bit_timing(t);
    assert_eq!(can.nominal_bit_timing(), Some(t));
}

#[test]
fn transitions_follow_the_edges() {
    let mut can = Fdcan::new(170_000_000);
    can.set_bitrate(500_000);
    let timing = can.nominal_bit_timing();
    let lb = can.into_internal_loopback_mode();
    assert_eq!(lb.mode(), OperatingMode::InternalLoopback);
    let cfg = lb.into_config_mode();
    assert_eq!(cfg.mode(), OperatingMode::Config);
    let ext = cfg.into_external_loopback_mode();
    assert_eq!(ext.mode(), OperatingMode::ExternalLoopback);
    assert_eq!(ext.nominal_bit_timing(), timing);
    let normal = Fdcan::new(80_000_000).into_normal_mode();
    assert_eq!(normal.mode(), OperatingMode::Normal);
}
