//! Per-oscillator quant bookkeeping: the effective quant count and keeping each
//! layer's per-segment interpolation modes sized to it.
use vstd::prelude::*;

use crate::quant_interp::{
    fill_segment_interps, resize_segment_interps, spec_segment_count, WtQuantInterp,
};

verus! {

/// Quant count an oscillator renders with: 255 stays 255 (full resolution), a non-zero
/// setting is used as is, 0 falls back to the number of stored wave slots (at most 255),
/// and to 16 when there are none.
pub open spec fn spec_effective_wave_quant(wave_quant: u8, wave_slots: nat) -> u8 {
    if wave_quant == 255 {
        255
    } else if wave_quant > 0 {
        wave_quant
    } else if wave_slots > 0 {
        if wave_slots < 255 {
            wave_slots as u8
        } else {
            255
        }
    } else {
        16
    }
}

/// Number of quant knobs for a quant setting: 255 means 256 knobs, 0 means none.
pub open spec fn spec_quant_slot_count(wave_quant: u8) -> nat {
    if wave_quant == 255 {
        256
    } else {
        wave_quant as nat
    }
}

pub fn effective_wave_quant(wave_quant: u8, wave_slots: usize) -> (r: u8)
    ensures
        r == spec_effective_wave_quant(wave_quant, wave_slots as nat),
{
    if wave_quant == 255 {
        return 255;
    }
    if wave_quant > 0 {
        wave_quant
    } else if wave_slots != 0 {
        if wave_slots < 255 {
            wave_slots as u8
        } else {
            255
        }
    } else {
        16
    }
}

/// Knob count that each layer's segment modes are sized for.
pub fn quant_slot_count(wave_quant: u8) -> (r: usize)
    ensures
        r == spec_quant_slot_count(wave_quant),
{
    if wave_quant == 255 {
        256
    } else {
        wave_quant as usize
    }
}

/// Size a layer's per-segment modes to `slot_count` knobs, keeping existing entries and
/// giving new segments the layer's curve-wide mode.
pub fn ensure_segment_interps(curve: WtQuantInterp, segments: &mut Vec<WtQuantInterp>, slot_count: usize)
    ensures
        final(segments)@.len() == spec_segment_count(slot_count as nat),
        forall|i: int|
            0 <= i < final(segments)@.len() ==> #[trigger] final(segments)@[i] == if i
                < old(segments)@.len() {
                old(segments)@[i]
            } else {
                curve
            },
{
    if segments.len() == 0 && crate::quant_interp::segment_count(slot_count) > 0 {
        fill_segment_interps(segments, slot_count, curve);
    } else {
        resize_segment_interps(segments, slot_count, curve);
    }
}

} // verus!
