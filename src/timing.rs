use vstd::prelude::*;

verus! {

/// Largest number of time quanta in the first bit segment.
pub const SEG1_MAX: u8 = 16;

/// Largest number of time quanta in the second bit segment.
pub const SEG2_MAX: u8 = 8;

/// Largest accepted sample point, in thousandths of the bit period.
pub const MAX_SAMPLE_POINT_PERMILL: u32 = 900;

/// Largest accepted prescaler.
pub const PRESCALER_MAX: u32 = 1024;

/// Nominal bit timing: the prescaler and the two segment lengths that divide
/// the peripheral clock into a CAN bit.
#[derive(Clone, Copy, Debug, PartialEq, Eq, Structural)]
pub struct NominalBitTiming {
    pub sync_jump_width: u8,
    pub prescaler: u16,
    pub seg1: u8,
    pub seg2: u8,
}

impl NominalBitTiming {
    /// Every field lies in the range that the controller accepts.
    pub open spec fn wf(&self) -> bool {
        &&& self.sync_jump_width == 1
        &&& 1 <= self.prescaler <= PRESCALER_MAX
        &&& 1 <= self.seg1 <= SEG1_MAX
        &&& 1 <= self.seg2 <= SEG2_MAX
    }

    /// Time quanta in one bit: the synchronisation quantum and both segments.
    pub open spec fn quanta_per_bit(&self) -> nat {
        (1 + self.seg1 + self.seg2) as nat
    }
}

/// Upper bound on the time quanta per bit for a bitrate.
pub open spec fn max_quanta_per_bit(bitrate: u32) -> nat {
    if bitrate >= 1_000_000 {
        10
    } else {
        17
    }
}

/// The largest segment sum `s` with `2 <= s <= top` such that `s + 1` divides
/// `prescaler_bs`, if there is one.
pub open spec fn best_segment_sum(prescaler_bs: nat, top: nat) -> Option<nat>
    decreases top,
{
    if top < 2 {
        None
    } else if prescaler_bs % (top + 1) == 0 {
        Some(top)
    } else {
        best_segment_sum(prescaler_bs, (top - 1) as nat)
    }
}

/// Sample point of a segment split, in thousandths of the bit period.
pub open spec fn sample_point_permill(seg1: int, seg2: int) -> int {
    (1000 * (1 + seg1)) / (1 + seg1 + seg2)
}

/// First segment aimed at a sample point of 7/8, rounded half up.
pub open spec fn seg1_rounded(sum: int) -> int {
    (7 * sum - 1 + 4) / 8
}

/// First segment aimed at a sample point of 7/8, rounded toward zero.
pub open spec fn seg1_truncated(sum: int) -> int {
    (7 * sum - 1) / 8
}

/// Split of a segment sum into `(seg1, seg2)`: rounded to nearest, unless that
/// puts the sample point past the maximum, then rounded toward zero.
pub open spec fn split_segments(sum: int) -> (int, int) {
    let r = seg1_rounded(sum);
    if sample_point_permill(r, sum - r) > MAX_SAMPLE_POINT_PERMILL {
        let t = seg1_truncated(sum);
        (t, sum - t)
    } else {
        (r, sum - r)
    }
}

/// The bit timing chosen for a peripheral clock and a bitrate, or `None` when
/// there is no exact solution.
pub open spec fn bit_timing_for(clock: u32, bitrate: u32) -> Option<NominalBitTiming> {
    if bitrate < 1000 {
        None
    } else {
        let prescaler_bs = (clock / bitrate) as nat;
        match best_segment_sum(prescaler_bs, (max_quanta_per_bit(bitrate) - 1) as nat) {
            None => None,
            Some(sum) => {
                let prescaler = prescaler_bs / (sum + 1);
                let (seg1, seg2) = split_segments(sum as int);
                if prescaler < 1 || prescaler > PRESCALER_MAX || seg1 < 1 || seg1 > SEG1_MAX
                    || seg2 < 1 || seg2 > SEG2_MAX || bitrate as int != clock as int / (prescaler * (1 + seg1
                    + seg2)) {
                    None
                } else {
                    Some(
                        NominalBitTiming {
                            sync_jump_width: 1,
                            prescaler: prescaler as u16,
                            seg1: seg1 as u8,
                            seg2: seg2 as u8,
                        },
                    )
                }
            },
        }
    }
}

proof fn lemma_best_segment_sum(prescaler_bs: nat, top: nat)
    ensures
        match best_segment_sum(prescaler_bs, top) {
            None => true,
            Some(s) => 2 <= s <= top && prescaler_bs % (s + 1) == 0,
        },
    decreases top,
{
    if top >= 2 && prescaler_bs % (top + 1) != 0 {
        lemma_best_segment_sum(prescaler_bs, (top - 1) as nat);
    }
}

proof fn lemma_split_segments(sum: int)
    requires
        2 <= sum <= 16,
    ensures
        1 <= split_segments(sum).0 <= 14,
        1 <= split_segments(sum).1 <= 2,
        split_segments(sum).0 + split_segments(sum).1 == sum,
        sample_point_permill(split_segments(sum).0, split_segments(sum).1)
            <= MAX_SAMPLE_POINT_PERMILL,
{
    if sum == 2 {
        assert(seg1_rounded(2) == 2);
        assert(sample_point_permill(2, 0) == 1000) by (nonlinear_arith);
        assert(seg1_truncated(2) == 1);
        assert(split_segments(2) == (1int, 1int));
        assert(sample_point_permill(1, 1) == 666) by (nonlinear_arith);
    } else if sum == 3 {
        assert(seg1_rounded(3) == 3);
        assert(sample_point_permill(3, 0) == 1000) by (nonlinear_arith);
        assert(seg1_truncated(3) == 2);
        assert(split_segments(3) == (2int, 1int));
        assert(sample_point_permill(2, 1) == 750) by (nonlinear_arith);
    } else if sum == 4 {
        assert(seg1_rounded(4) == 3);
        assert(sample_point_permill(3, 1) == 800) by (nonlinear_arith);
        assert(split_segments(4) == (3int, 1int));
    } else if sum == 5 {
        assert(seg1_rounded(5) == 4);
        assert(sample_point_permill(4, 1) == 833) by (nonlinear_arith);
        assert(split_segments(5) == (4int, 1int));
    } else if sum == 6 {
        assert(seg1_rounded(6) == 5);
        assert(sample_point_permill(5, 1) == 857) by (nonlinear_arith);
        assert(split_segments(6) == (5int, 1int));
    } else if sum == 7 {
        assert(seg1_rounded(7) == 6);
        assert(sample_point_permill(6, 1) == 875) by (nonlinear_arith);
        assert(split_segments(7) == (6int, 1int));
    } else if sum == 8 {
        assert(seg1_rounded(8) == 7);
        assert(sample_point_permill(7, 1) == 888) by (nonlinear_arith);
        assert(split_segments(8) == (7int, 1int));
    } else if sum == 9 {
        assert(seg1_rounded(9) == 8);
        assert(sample_point_permill(8, 1) == 900) by (nonlinear_arith);
        assert(split_segments(9) == (8int, 1int));
    } else if sum == 10 {
        assert(seg1_rounded(10) == 9);
        assert(sample_point_permill(9, 1) == 909) by (nonlinear_arith);
        assert(seg1_truncated(10) == 8);
        assert(split_segments(10) == (8int, 2int));
        assert(sample_point_permill(8, 2) == 818) by (nonlinear_arith);
    } else if sum == 11 {
        assert(seg1_rounded(11) == 10);
        assert(sample_point_permill(10, 1) == 916) by (nonlinear_arith);
        assert(seg1_truncated(11) == 9);
        assert(split_segments(11) == (9int, 2int));
        assert(sample_point_permill(9, 2) == 833) by (nonlinear_arith);
    } else if sum == 12 {
        assert(seg1_rounded(12) == 10);
        assert(sample_point_permill(10, 2) == 846) by (nonlinear_arith);
        assert(split_segments(12) == (10int, 2int));
    } else if sum == 13 {
        assert(seg1_rounded(13) == 11);
        assert(sample_point_permill(11, 2) == 857) by (nonlinear_arith);
        assert(split_segments(13) == (11int, 2int));
    } else if sum == 14 {
        assert(seg1_rounded(14) == 12);
        assert(sample_point_permill(12, 2) == 866) by (nonlinear_arith);
        assert(split_segments(14) == (12int, 2int));
    } else if sum == 15 {
        assert(seg1_rounded(15) == 13);
        assert(sample_point_permill(13, 2) == 875) by (nonlinear_arith);
        assert(split_segments(15) == (13int, 2int));
    } else if sum == 16 {
        assert(seg1_rounded(16) == 14);
        assert(sample_point_permill(14, 2) == 882) by (nonlinear_arith);
        assert(split_segments(16) == (14int, 2int));
    }
}

/// Sample point of a split in thousandths of the bit period.
fn sample_point(seg1: u8, seg2: u8) -> (r: u32)
    requires
        seg1 <= 16,
        seg2 <= 16,
    ensures
        r == sample_point_permill(seg1 as int, seg2 as int),
{
    (1000 * (1 + seg1 as u32)) / (1 + seg1 as u32 + seg2 as u32)
}

/// Computes the nominal bit timing for a peripheral clock (Hz) and a bitrate
/// (bits/s). The result gives exactly the requested bitrate, or is `None`.
pub fn calc_fdcan_timings(periph_clock: u32, can_bitrate: u32) -> (r: Option<NominalBitTiming>)
    ensures
        r == bit_timing_for(periph_clock, can_bitrate),
        can_bitrate < 1000 ==> r is None,
        r matches Some(t) ==> {
            &&& t.wf()
            &&& t.prescaler * t.quanta_per_bit() == periph_clock / can_bitrate
            &&& sample_point_permill(t.seg1 as int, t.seg2 as int) <= MAX_SAMPLE_POINT_PERMILL
        },
{
    if can_bitrate < 1000 {
        return None;
    }
    let max_quanta: u8 = if can_bitrate >= 1_000_000 {
        10
    } else {
        17
    };
    let prescaler_bs: u32 = periph_clock / can_bitrate;
    let ghost pbs = prescaler_bs as nat;
    let ghost top = (max_quanta - 1) as nat;

    // Search for the largest number of quanta per bit that divides the product.
    let mut bs1_bs2_sum: u8 = max_quanta - 1;
    while prescaler_bs % (1 + bs1_bs2_sum) as u32 != 0
        invariant
            2 <= bs1_bs2_sum <= top,
            top == max_quanta_per_bit(can_bitrate) - 1,
            pbs == prescaler_bs,
            prescaler_bs == periph_clock / can_bitrate,
            can_bitrate >= 1000,
            best_segment_sum(pbs, top) == best_segment_sum(pbs, bs1_bs2_sum as nat),
        decreases bs1_bs2_sum,
    {
        if bs1_bs2_sum <= 2 {
            assert(best_segment_sum(pbs, 1) is None);
            assert(best_segment_sum(pbs, bs1_bs2_sum as nat) is None);
            return None;
        }
        bs1_bs2_sum -= 1;
    }
    let ghost sum = bs1_bs2_sum as int;
    assert(best_segment_sum(pbs, top) == Some(sum as nat));

    let prescaler: u32 = prescaler_bs / (1 + bs1_bs2_sum) as u32;
    assert(prescaler == pbs / (sum as nat + 1));
    if prescaler < 1 || prescaler > PRESCALER_MAX {
        return None;
    }
    // Aim at a sample point of 7/8: round to nearest first, and toward zero
    // when that goes past the maximum.
    let mut bs1: u8 = ((7 * bs1_bs2_sum - 1) + 4) / 8;
    let mut bs2: u8 = bs1_bs2_sum - bs1;
    if sample_point(bs1, bs2) > MAX_SAMPLE_POINT_PERMILL {
        bs1 = (7 * bs1_bs2_sum - 1) / 8;
        bs2 = bs1_bs2_sum - bs1;
    }
    proof {
        lemma_split_segments(sum);
    }
    assert(split_segments(sum) == (bs1 as int, bs2 as int));
    if bs1 < 1 || bs1 > SEG1_MAX || bs2 < 1 || bs2 > SEG2_MAX {
        return None;
    }
    assert(prescaler as int * (1 + bs1 + bs2) == prescaler_bs as int) by (nonlinear_arith)
        requires
            prescaler as int == prescaler_bs as int / (1 + sum),
            prescaler_bs as int % (1 + sum) == 0,
            bs1 + bs2 == sum,
            sum >= 2,
    ;
    // The division must give back the requested bitrate exactly.
    if can_bitrate != periph_clock / (prescaler * (1 + bs1 + bs2) as u32) {
        return None;
    }
    Some(
        NominalBitTiming {
            sync_jump_width: 1,
            prescaler: prescaler as u16,
            seg1: bs1,
            seg2: bs2,
        },
    )
}

/// Every solution found reproduces the clock-to-bitrate ratio exactly, keeps
/// each field in its range, and samples no later than the maximum.
pub proof fn lemma_timing_solution_exact(clock: u32, bitrate: u32)
    requires
        bit_timing_for(clock, bitrate) is Some,
    ensures
        ({
            let t = bit_timing_for(clock, bitrate)->0;
            &&& t.prescaler * t.quanta_per_bit() == clock / bitrate
            &&& t.wf()
            &&& sample_point_permill(t.seg1 as int, t.seg2 as int) <= MAX_SAMPLE_POINT_PERMILL
        }),
{
    let pbs = (clock / bitrate) as nat;
    let top = (max_quanta_per_bit(bitrate) - 1) as nat;
    lemma_best_segment_sum(pbs, top);
    let sum = best_segment_sum(pbs, top)->0;
    lemma_split_segments(sum as int);
    let prescaler = pbs / (sum + 1);
    assert(prescaler * (sum + 1) == pbs) by (nonlinear_arith)
        requires
            prescaler == pbs / (sum + 1),
            pbs % (sum + 1) == 0,
            sum >= 2,
    ;
}

/// A bitrate under 1000 bits/s never has a solution.
pub proof fn lemma_low_bitrate_unsolvable(clock: u32, bitrate: u32)
    requires
        bitrate < 1000,
    ensures
        bit_timing_for(clock, bitrate) is None,
{
}

} // verus!
