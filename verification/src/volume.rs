//! The audio state and how one wheel notch moves the volume.
//!
//! A notch first snaps the volume to the nearest multiple of the step
//! (halves round up), then moves one step up or down, staying within
//! `0..=MAX_VOLUME`.

use vstd::prelude::*;
use vstd::arithmetic::div_mod::{
    lemma_fundamental_div_mod,
    lemma_fundamental_div_mod_converse,
    lemma_mod_add_multiples_vanish,
    lemma_mod_multiples_basic,
    lemma_mod_pos_bound,
    lemma_mod_sub_multiples_vanish,
};
use vstd::arithmetic::mul::lemma_mul_is_commutative;

verus! {

/// Highest volume, in percent.
pub const MAX_VOLUME: u8 = 100;

/// Volume assumed when the audio endpoint cannot be read at start-up.
pub const FALLBACK_VOLUME: u8 = 50;

/// What the application believes the system audio to be.
#[derive(Clone, Copy, Debug, PartialEq, Eq, Structural)]
pub struct AudioState {
    /// Master volume in percent.
    pub volume: u8,
    /// Whether the endpoint is muted.
    pub muted: bool,
}

impl AudioState {
    /// The volume lies in `0..=MAX_VOLUME`.
    pub open spec fn wf(self) -> bool {
        self.volume <= MAX_VOLUME
    }
}

/// The multiple of `step` nearest to `volume`, halves rounding up.
pub open spec fn snapped(volume: int, step: int) -> int {
    step * ((volume + step / 2) / step)
}

/// The volume after one notch: up or down one step from the snapped volume,
/// kept within `0..=MAX_VOLUME`.
pub open spec fn notch(volume: int, step: int, increase: bool) -> int {
    let r = snapped(volume, step);
    if increase {
        if r + step < MAX_VOLUME {
            r + step
        } else {
            MAX_VOLUME as int
        }
    } else {
        if r - step > 0 {
            r - step
        } else {
            0
        }
    }
}

/// Bounds of the snapped volume: within half a step of `volume`, and a
/// multiple of `step`.
proof fn lemma_snapped(volume: int, step: int)
    requires
        0 <= volume,
        1 <= step,
    ensures
        0 <= snapped(volume, step),
        snapped(volume, step) <= volume + step / 2,
        volume + step / 2 - step < snapped(volume, step),
        snapped(volume, step) % step == 0,
{
    let a = volume + step / 2;
    let q = a / step;
    lemma_fundamental_div_mod(a, step);
    lemma_mod_pos_bound(a, step);
    assert(0 <= q) by (nonlinear_arith)
        requires
            a == step * q + a % step,
            0 <= a % step < step,
            0 <= a,
            1 <= step,
    ;
    assert(0 <= step * q) by (nonlinear_arith)
        requires
            0 <= q,
            1 <= step,
    ;
    lemma_mul_is_commutative(step, q);
    lemma_mod_multiples_basic(q, step);
}

/// A volume that is already a multiple of the step stays where it is when
/// snapped.
proof fn lemma_snapped_on_grid(volume: int, step: int)
    requires
        0 <= volume,
        1 <= step,
        volume % step == 0,
    ensures
        snapped(volume, step) == volume,
{
    let k = volume / step;
    lemma_fundamental_div_mod(volume, step);
    lemma_mul_is_commutative(step, k);
    lemma_fundamental_div_mod_converse(volume + step / 2, step, k, step / 2);
}

/// The volume after one wheel notch of `step` percent points from `volume`,
/// upwards when `increase` holds.
pub fn notch_volume(volume: u8, step: u8, increase: bool) -> (v: u8)
    requires
        step >= 1,
    ensures
        v == notch(volume as int, step as int, increase),
{
    proof {
        lemma_snapped(volume as int, step as int);
    }
    let s: u16 = step as u16;
    let a: u16 = volume as u16 + s / 2;
    let rounded: u16 = s * (a / s);
    if increase {
        let up: u16 = rounded + s;
        if up < MAX_VOLUME as u16 {
            up as u8
        } else {
            MAX_VOLUME
        }
    } else {
        if rounded > s {
            (rounded - s) as u8
        } else {
            0
        }
    }
}

/// Law: a notch up never leaves `0..=MAX_VOLUME`, raises any volume below
/// `MAX_VOLUME`, and moves by at most one and a half steps.
pub proof fn law_notch_up_raises(volume: u8, step: u8)
    requires
        step >= 1,
    ensures
        0 <= notch(volume as int, step as int, true) <= 100,
        volume < 100 ==> volume < notch(volume as int, step as int, true),
        notch(volume as int, step as int, true) <= volume + step + step / 2,
{
    lemma_snapped(volume as int, step as int);
}

/// Law: a notch down never goes below zero, lowers any volume above zero,
/// never raises the volume, and moves by at most one and a half steps.
pub proof fn law_notch_down_lowers(volume: u8, step: u8)
    requires
        step >= 1,
    ensures
        0 <= notch(volume as int, step as int, false) <= volume,
        volume > 0 ==> notch(volume as int, step as int, false) < volume,
        volume - step - step / 2 <= notch(volume as int, step as int, false),
{
    lemma_snapped(volume as int, step as int);
}

/// Law: after a notch the volume is a multiple of the step, or at the end of
/// the range it was clamped to.
pub proof fn law_notch_lands_on_grid(volume: u8, step: u8, increase: bool)
    requires
        step >= 1,
    ensures
        ({
            let v = notch(volume as int, step as int, increase);
            v % (step as int) == 0 || (increase && v == MAX_VOLUME) || (!increase && v == 0)
        }),
{
    lemma_snapped(volume as int, step as int);
    let r = snapped(volume as int, step as int);
    let s = step as int;
    lemma_mod_add_multiples_vanish(r, s);
    lemma_mod_sub_multiples_vanish(r, s);
}

/// Law: on a volume that is a multiple of the step, a notch down undoes a
/// notch up and a notch up undoes a notch down, as long as neither reaches
/// the ends of the range.
pub proof fn law_notch_round_trip(volume: u8, step: u8)
    requires
        step >= 1,
        volume <= MAX_VOLUME,
        volume as int % step as int == 0,
    ensures
        volume + step < MAX_VOLUME ==> notch(
            notch(volume as int, step as int, true),
            step as int,
            false,
        ) == volume,
        step < volume ==> notch(notch(volume as int, step as int, false), step as int, true)
            == volume,
{
    let v = volume as int;
    let s = step as int;
    lemma_snapped_on_grid(v, s);
    lemma_mod_add_multiples_vanish(v, s);
    lemma_mod_sub_multiples_vanish(v, s);
    if v + s < MAX_VOLUME {
        lemma_snapped_on_grid(v + s, s);
    }
    if s < v {
        lemma_snapped_on_grid(v - s, s);
    }
}

/// Law: every volume has a nearest multiple of the step, halves rounding up:
/// a `k` with `k * step - step / 2 <= volume < k * step + step - step / 2`.
pub proof fn law_nearest_multiple_exists(volume: u8, step: u8)
    requires
        step >= 1,
    ensures
        exists|k: int|
            k * step - step / 2 <= volume < #[trigger] (k * step) + step - step / 2,
{
    let s = step as int;
    let a = volume as int + s / 2;
    let k = a / s;
    lemma_fundamental_div_mod(a, s);
    lemma_mod_pos_bound(a, s);
    lemma_mul_is_commutative(s, k);
    assert(k * s - s / 2 <= volume < k * s + s - s / 2);
}

/// Law: a notch starts from the multiple `k * step` nearest to the volume
/// (halves rounding up) and moves one full step from it: up to
/// `k * step + step`, at most `MAX_VOLUME`, or down to `k * step - step`, at
/// least zero. With `law_nearest_multiple_exists` this fixes the result of
/// every notch.
pub proof fn law_notch_from_nearest_multiple(volume: u8, step: u8, k: int)
    requires
        step >= 1,
        k * step - step / 2 <= volume < k * step + step - step / 2,
    ensures
        notch(volume as int, step as int, true) == (if k * step + step < 100 {
            k * step + step
        } else {
            100
        }),
        notch(volume as int, step as int, false) == (if k * step - step > 0 {
            k * step - step
        } else {
            0
        }),
{
    let s = step as int;
    let a = volume as int + s / 2;
    lemma_fundamental_div_mod_converse(a, s, k, a - k * s);
    lemma_mul_is_commutative(s, k);
}

} // verus!
