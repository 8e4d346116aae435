//! The calibrated step-size selection table.
//!
//! A static ordered table maps a "points-per-burst" metric to an
//! integration step size `dt`.  Thresholds are scanned in decreasing
//! order and the `dt` paired with the first threshold `<=` the metric is
//! chosen; when no threshold qualifies the coarsest step (0.1) is the
//! fallback.  Both the thresholds and the step sizes are held as the bit
//! patterns of the corresponding IEEE-754 doubles, and the scan compares
//! them with the exact bit-level IEEE `<=` of [`crate::fbits`].

use vstd::prelude::*;

use crate::fbits::f64_le;
use crate::fbits::f64_le_b;
use crate::fbits::f64_lt_b;
use crate::fbits::is_nan_b;

verus! {

/// Threshold 577638.0, paired with dt 0.0005.
pub const PTS_0: u64 = 0x4121_A0CC_0000_0000;

/// Threshold 286092.5, paired with dt 0.001.
pub const PTS_1: u64 = 0x4111_7632_0000_0000;

/// Threshold 189687.0, paired with dt 0.0015.
pub const PTS_2: u64 = 0x4107_27B8_0000_0000;

/// Threshold 142001.8, paired with dt 0.002.
pub const PTS_3: u64 = 0x4101_558E_6666_6666;

/// Threshold 94527.4, paired with dt 0.003.
pub const PTS_4: u64 = 0x40F7_13F6_6666_6666;

/// Threshold 56664.4, paired with dt 0.005.
pub const PTS_5: u64 = 0x40EB_AB0C_CCCC_CCCD;

/// Threshold 28313.6, paired with dt 0.01.
pub const PTS_6: u64 = 0x40DB_A666_6666_6666;

/// Threshold 18381.1, paired with dt 0.015.
pub const PTS_7: u64 = 0x40D1_F346_6666_6666;

/// Threshold 14223.2, paired with dt 0.02.
pub const PTS_8: u64 = 0x40CB_C799_9999_999A;

/// Threshold 9497.0, paired with dt 0.03.
pub const PTS_9: u64 = 0x40C2_8C80_0000_0000;

/// Threshold 5716.9, paired with dt 0.05.
pub const PTS_10: u64 = 0x40B6_54E6_6666_6666;

/// Threshold 2829.7, paired with dt 0.1.
pub const PTS_11: u64 = 0x40A6_1B66_6666_6666;

/// dt 0.0005.
pub const DT_0: u64 = 0x3F40_624D_D2F1_A9FC;

/// dt 0.001.
pub const DT_1: u64 = 0x3F50_624D_D2F1_A9FC;

/// dt 0.0015.
pub const DT_2: u64 = 0x3F58_9374_BC6A_7EFA;

/// dt 0.002.
pub const DT_3: u64 = 0x3F60_624D_D2F1_A9FC;

/// dt 0.003.
pub const DT_4: u64 = 0x3F68_9374_BC6A_7EFA;

/// dt 0.005.
pub const DT_5: u64 = 0x3F74_7AE1_47AE_147B;

/// dt 0.01.
pub const DT_6: u64 = 0x3F84_7AE1_47AE_147B;

/// dt 0.015.
pub const DT_7: u64 = 0x3F8E_B851_EB85_1EB8;

/// dt 0.02.
pub const DT_8: u64 = 0x3F94_7AE1_47AE_147B;

/// dt 0.03.
pub const DT_9: u64 = 0x3F9E_B851_EB85_1EB8;

/// dt 0.05.
pub const DT_10: u64 = 0x3FA9_9999_9999_999A;

/// dt 0.1.
pub const DT_11: u64 = 0x3FB9_9999_9999_999A;

/// The step size the table pairs with a points-per-burst metric: the
/// `dt` of the first threshold, in decreasing threshold order, that is
/// `<=` the metric, and the coarsest `dt` when none is (in particular
/// for a NaN metric, which no threshold compares `<=` to).
pub open spec fn select_dt_b(pts_match: u64) -> u64 {
    if f64_le_b(PTS_0, pts_match) {
        DT_0
    } else if f64_le_b(PTS_1, pts_match) {
        DT_1
    } else if f64_le_b(PTS_2, pts_match) {
        DT_2
    } else if f64_le_b(PTS_3, pts_match) {
        DT_3
    } else if f64_le_b(PTS_4, pts_match) {
        DT_4
    } else if f64_le_b(PTS_5, pts_match) {
        DT_5
    } else if f64_le_b(PTS_6, pts_match) {
        DT_6
    } else if f64_le_b(PTS_7, pts_match) {
        DT_7
    } else if f64_le_b(PTS_8, pts_match) {
        DT_8
    } else if f64_le_b(PTS_9, pts_match) {
        DT_9
    } else if f64_le_b(PTS_10, pts_match) {
        DT_10
    } else {
        DT_11
    }
}

/// Scans the thresholds in decreasing order and returns the `dt` paired
/// with the first one `<=` the metric; the coarsest `dt` when none is.
pub fn select_dt(pts_match: u64) -> (r: u64)
    ensures
        r == select_dt_b(pts_match),
{
    if f64_le(PTS_0, pts_match) {
        DT_0
    } else if f64_le(PTS_1, pts_match) {
        DT_1
    } else if f64_le(PTS_2, pts_match) {
        DT_2
    } else if f64_le(PTS_3, pts_match) {
        DT_3
    } else if f64_le(PTS_4, pts_match) {
        DT_4
    } else if f64_le(PTS_5, pts_match) {
        DT_5
    } else if f64_le(PTS_6, pts_match) {
        DT_6
    } else if f64_le(PTS_7, pts_match) {
        DT_7
    } else if f64_le(PTS_8, pts_match) {
        DT_8
    } else if f64_le(PTS_9, pts_match) {
        DT_9
    } else if f64_le(PTS_10, pts_match) {
        DT_10
    } else {
        DT_11
    }
}

/// Law: the selected step size is monotone — a smaller points-per-burst
/// metric never selects a finer (smaller) `dt`.  Stated contrapositively:
/// whenever `p <= q` in the IEEE sense, the `dt` selected for `q` is
/// `<=` the `dt` selected for `p`.
pub proof fn lemma_dt_table_monotone(p: u64, q: u64)
    requires
        f64_le_b(p, q),
    ensures
        f64_le_b(select_dt_b(q), select_dt_b(p)),
{
}

/// Law: at each literal threshold the selection matches the table
/// exactly: the metric equal to a threshold selects the `dt` paired
/// with that threshold.
pub proof fn lemma_dt_table_exact_at_thresholds()
    ensures
        select_dt_b(PTS_0) == DT_0,
        select_dt_b(PTS_1) == DT_1,
        select_dt_b(PTS_2) == DT_2,
        select_dt_b(PTS_3) == DT_3,
        select_dt_b(PTS_4) == DT_4,
        select_dt_b(PTS_5) == DT_5,
        select_dt_b(PTS_6) == DT_6,
        select_dt_b(PTS_7) == DT_7,
        select_dt_b(PTS_8) == DT_8,
        select_dt_b(PTS_9) == DT_9,
        select_dt_b(PTS_10) == DT_10,
        select_dt_b(PTS_11) == DT_11,
{
}

/// Law: whatever the metric — a NaN pattern included — the selected
/// step size is one of the twelve calibrated table entries, and is
/// never a NaN and never zero or negative.
pub proof fn lemma_dt_table_in_range(pts_match: u64)
    ensures
        f64_le_b(DT_0, select_dt_b(pts_match)),
        f64_le_b(select_dt_b(pts_match), DT_11),
        !is_nan_b(select_dt_b(pts_match)),
        f64_lt_b(crate::fbits::ZERO_BITS, select_dt_b(pts_match)),
{
}

} // verus!
