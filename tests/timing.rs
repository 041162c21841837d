use fdcan_driver::timing::{calc_fdcan_timings, NominalBitTiming};

fn timing(prescaler: u16, seg1: u8, seg2: u8) -> NominalBitTiming {
    NominalBitTiming { sync_jump_width: 1, prescaler, seg1, seg2 }
}

#[test]
fn timing_250k_at_170mhz() {
    assert_eq!(calc_fdcan_timings(170_000_000, 250_000), Some(timing(40, 14, 2)));
}

#[test]
fn timing_500k_at_48mhz_uses_sixteen_quanta() {
    assert_eq!(calc_fdcan_timings(48_000_000, 500_000), Some(timing(6, 13, 2)));
}

#[test]
fn timing_1m_caps_quanta_at_ten() {
    assert_eq!(calc_fdcan_timings(80_000_000, 1_000_000), Some(timing(8, 8, 1)));
}

#[test]
fn timing_rounds_toward_zero_past_max_sample_point() {
    // Twelve quanta: rounding to nearest would sample at 916 per mille.
    assert_eq!(calc_fdcan_timings(1_200_000, 100_000), Some(timing(1, 9, 2)));
    // Eleven quanta: rounding to nearest would sample at 909 per mille.
    assert_eq!(calc_fdcan_timings(1_100_000, 100_000), Some(timing(1, 8, 2)));
}

#[test]
fn timing_rejects_low_bitrate() {
    assert_eq!(calc_fdcan_timings(170_000_000, 999), None);
    assert_eq!(calc_fdcan_timings(170_000_000, 0), None);
}

#[test]
fn timing_rejects_when_no_quanta_count_divides() {
    assert_eq!(calc_fdcan_timings(1_900_000, 100_000), None);
}

#[test]
fn timing_rejects_prescaler_over_limit() {
    assert_eq!(calc_fdcan_timings(17_425_000, 1000), None);
}

#[test]
fn timing_rejects_inexact_bitrate() {
    assert_eq!(calc_fdcan_timings(1_799_999, 100_000), None);
}

#[test]
fn timing_rejects_clock_below_bitrate() {
    assert_eq!(calc_fdcan_timings(500_000, 1_000_000), None);
}

#[test]
fn timing_solutions_reproduce_the_ratio() {
    let clocks: [u32; 4] = [8_000_000, 48_000_000, 80_000_000, 170_000_000];
    let rates: [u32; 6] = [10_000, 50_000, 125_000, 250_000, 500_000, 1_000_000];
    for &c in clocks.iter() {
        for &b in rates.iter() {
            if let Some(t) = calc_fdcan_timings(c, b) {
                let q = 1 + t.seg1 as u32 + t.seg2 as u32;
                assert_eq!(t.prescaler as u32 * q, c / b);
                assert!(t.seg1 >= 1 && t.seg1 <= 16);
                assert!(t.seg2 >= 1 && t.seg2 <= 8);
                assert!(t.prescaler >= 1 && t.prescaler <= 1024);
                assert!(1000 * (1 + t.seg1 as u32) / q <= 900);
            }
        }
    }
}
