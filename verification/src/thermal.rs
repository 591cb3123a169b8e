//! Two-point thermometer calibration for the 6-byte accessory payload.
//!
//! Bytes 1-2 and 3-4 are little-endian 16-bit readings in hundredths of a
//! degree; the byte pair `(0xf2, 0x7f)` at positions 3-4 marks the secondary
//! sensor absent. All arithmetic here stays in the integer domain the
//! firmware works in: values are hundredths of a degree, except the
//! corrected offset, which is kept in half-hundredths because the firmware
//! halves an integer difference. A host that wants degrees divides by 100
//! (or 200 for the half-hundredth field).
//!
//! The fold of the positive difference into `(100, 200]` followed by the
//! `+50` adjustment below 100 compensates for a wrap artifact of the
//! sensor. It is an empirically derived correction, not a physically
//! principled one, and must not be "simplified": the constants 100, 200
//! and 50 are calibration constants matching the device firmware.

use vstd::prelude::*;

verus! {

/// One calibrated sample, in hundredths of a degree except where noted.
#[derive(Clone, Copy, Debug, PartialEq, Eq, Structural)]
pub struct ThermalSample {
    /// The primary reading `t0`.
    pub raw: u16,
    /// The secondary reading `t1`; zero when the sentinel marks it absent.
    pub secondary: u16,
    /// `t0` plus the clamped half-difference, in HALF-hundredths of a
    /// degree (twice the value in hundredths, so the halving stays exact).
    pub offset_corrected: i32,
    /// The wrap-corrected reading `t4`.
    pub smoothed: u32,
}

/// Primary reading: bytes 1-2, little-endian.
pub open spec fn spec_t0(p: Seq<u8>) -> int
    recommends
        p.len() == 6,
{
    (p[2] as int) * 256 + (p[1] as int)
}

/// Secondary reading: bytes 3-4, little-endian.
pub open spec fn spec_t1(p: Seq<u8>) -> int
    recommends
        p.len() == 6,
{
    (p[4] as int) * 256 + (p[3] as int)
}

/// The sentinel pair at bytes 3-4 that marks the secondary sensor absent.
pub open spec fn secondary_absent(p: Seq<u8>) -> bool
    recommends
        p.len() == 6,
{
    p[3] == 0xf2u8 && p[4] == 0x7fu8
}

/// Fold a positive difference down by hundreds while it exceeds 200.
pub open spec fn fold_wrap(off: int) -> int
    decreases off,
{
    if off > 200 {
        fold_wrap(off - 100)
    } else {
        off
    }
}

/// The fold leaves a value at or below the boundary unchanged, and brings
/// any value above it into `(100, 200]`, so the `+50` adjustment only ever
/// applies to differences that were below 100 to begin with.
pub proof fn lemma_fold_wrap_range(diff: int)
    requires
        diff > 200,
    ensures
        100 < fold_wrap(diff) <= 200,
    decreases diff,
{
    if diff - 100 > 200 {
        lemma_fold_wrap_range(diff - 100);
    } else {
        assert(fold_wrap(diff - 100) == diff - 100);
    }
}

/// The wrap correction added to `t0` for a positive difference: the folded
/// difference, pushed up by 50 when it fell below 100.
pub open spec fn spec_smooth_adjust(diff: int) -> int
    recommends
        diff > 0,
{
    if fold_wrap(diff) < 100 {
        fold_wrap(diff) + 50
    } else {
        fold_wrap(diff)
    }
}

/// The sample a 6-byte payload calibrates to. With the sentinel the
/// secondary is absent: no offset, `smoothed` is the raw reading. Otherwise
/// the offset is half the difference `t0 - t1`, clamped above at one
/// hundredth, and a positive difference is folded into the smoothed value.
pub open spec fn spec_calibrate(p: Seq<u8>) -> ThermalSample
    recommends
        p.len() == 6,
{
    let t0 = spec_t0(p);
    if secondary_absent(p) {
        ThermalSample {
            raw: t0 as u16,
            secondary: 0u16,
            offset_corrected: (2 * t0) as i32,
            smoothed: t0 as u32,
        }
    } else {
        let t1 = spec_t1(p);
        let diff = t0 - t1;
        let offset_halves = if diff > 2 {
            2int
        } else {
            diff
        };
        let smoothed = if diff > 0 {
            t0 + spec_smooth_adjust(diff)
        } else {
            t0
        };
        ThermalSample {
            raw: t0 as u16,
            secondary: t1 as u16,
            offset_corrected: (2 * t0 + offset_halves) as i32,
            smoothed: smoothed as u32,
        }
    }
}

/// Calibrate one 6-byte payload.
pub fn calibrate(data: &[u8]) -> (r: ThermalSample)
    requires
        data@.len() == 6,
    ensures
        r == spec_calibrate(data@),
{
    let t0: u32 = (data[2] as u32) * 256 + (data[1] as u32);
    if data[3] == 0xf2 && data[4] == 0x7f {
        ThermalSample { raw: t0 as u16, secondary: 0, offset_corrected: 2 * (t0 as i32), smoothed: t0 }
    } else {
        let t1: u32 = (data[4] as u32) * 256 + (data[3] as u32);
        let diff: i32 = (t0 as i32) - (t1 as i32);
        let offset_halves: i32 = if diff > 2 {
            2
        } else {
            diff
        };
        let mut smoothed: u32 = t0;
        if diff > 0 {
            let mut off: u32 = diff as u32;
            while off > 200
                invariant
                    1 <= off <= 0xffff,
                    fold_wrap(off as int) == fold_wrap(diff as int),
                decreases off,
            {
                off = off - 100;
            }
            if off < 100 {
                off = off + 50;
            }
            assert(off == spec_smooth_adjust(diff as int));
            smoothed = t0 + off;
        }
        ThermalSample {
            raw: t0 as u16,
            secondary: t1 as u16,
            offset_corrected: 2 * (t0 as i32) + offset_halves,
            smoothed,
        }
    }
}

/// Parse one notification payload from the thermometer accessory: a sample
/// for every 6-byte payload, nothing for any other length.
pub fn parse_mmc_data(data: &[u8]) -> (r: Option<ThermalSample>)
    ensures
        data@.len() == 6 ==> r == Some(spec_calibrate(data@)),
        data@.len() != 6 ==> r is None,
{
    if data.len() == 6 {
        Some(calibrate(data))
    } else {
        None
    }
}

} // verus!
