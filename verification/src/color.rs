//! Background-color generation: a cyclic counter driven through a
//! three-phase wave so the backdrop cycles smoothly through the rainbow.
//!
//! Each frame advances the counter once, modulo a configurable period. The
//! red, green and blue channels read the same wave at phases separated by a
//! third of the period, and every channel stays within 1..=255; after one
//! full period each channel returns to its start value.

use vstd::arithmetic::div_mod::{
    lemma_add_mod_noop, lemma_div_is_ordered, lemma_div_multiples_vanish, lemma_div_pos_is_pos,
    lemma_mod_add_multiples_vanish, lemma_small_mod,
};
use vstd::prelude::*;

verus! {

/// Default period of the color cycle, in frames.
pub const DEFAULT_COLOR_PERIOD: u32 = 4096;

/// Largest accepted period: keeps all wave arithmetic inside `u64`.
pub const MAX_COLOR_PERIOD: u32 = 0x0010_0000;

/// Rational approximation of the rising half of a sine arch, scaled to
/// 0..=127: `16 x (h - x) * 127 / (5 h^2 - 4 x (h - x))` for `0 <= x < h`.
pub open spec fn rise(x: int, h: int) -> int
    recommends
        1 <= h,
        0 <= x < h,
{
    let t = x * (h - x);
    (16 * t * 127) / (5 * (h * h) - 4 * t)
}

/// One channel's value at position `x` of a cycle of length `p`: a wave that
/// climbs from 128 to near 255 over the first half and dips to near 1 over
/// the second, mirroring `floor(127 sin) + 128`.
pub open spec fn wave(x: int, p: int) -> int
    recommends
        2 <= p,
        0 <= x < p,
{
    let h1 = p / 2;
    let h2 = p - h1;
    if x < h1 {
        128 + rise(x, h1)
    } else {
        128 - rise(x - h1, h2)
    }
}

/// Phase shift of the green channel: a third of a turn past blue.
pub open spec fn green_shift(p: int) -> int {
    (2 * p) / 3
}

/// Phase shift of the blue channel: a third of a turn.
pub open spec fn blue_shift(p: int) -> int {
    p / 3
}

/// The value a channel with phase shift `shift` shows at tick `t` of a cycle
/// with period `p`.
pub open spec fn channel_at(t: nat, p: int, shift: int) -> int
    recommends
        2 <= p,
        0 <= shift,
{
    wave(((t as int % p) + shift) % p, p)
}

/// `rise` stays within 0..=127 on its domain.
pub proof fn lemma_rise_range(x: int, h: int)
    requires
        1 <= h,
        0 <= x < h,
    ensures
        0 <= rise(x, h) <= 127,
{
    let t = x * (h - x);
    assert(0 <= t && 4 * t <= h * h) by (nonlinear_arith)
        requires
            1 <= h,
            0 <= x < h,
            t == x * (h - x),
    {
        assert((h - 2 * x) * (h - 2 * x) >= 0);
    }
    let num = 16 * t * 127;
    let den = 5 * (h * h) - 4 * t;
    assert(den >= 4 * (h * h));
    assert(h * h >= 1) by (nonlinear_arith)
        requires
            h >= 1,
    ;
    assert(num >= 0);
    assert(num <= 127 * den) by (nonlinear_arith)
        requires
            num == 16 * t * 127,
            den == 5 * (h * h) - 4 * t,
            4 * t <= h * h,
            t >= 0,
    ;
    assert(rise(x, h) == num / den);
    assert(num / den >= 0) by {
        lemma_div_pos_is_pos(num, den);
    }
    assert(num / den <= 127) by {
        lemma_div_is_ordered(num, 127 * den, den);
        lemma_div_multiples_vanish(127, den);
    }
}

/// Every channel value is a valid, never-black byte: within 1..=255.
pub proof fn lemma_wave_range(x: int, p: int)
    requires
        2 <= p,
        0 <= x < p,
    ensures
        1 <= wave(x, p) <= 255,
{
    let h1 = p / 2;
    let h2 = p - h1;
    if x < h1 {
        lemma_rise_range(x, h1);
    } else {
        lemma_rise_range(x - h1, h2);
    }
}

/// The color cycle is periodic: after one full period every channel shows
/// its start value again.
pub proof fn lemma_color_periodic(t: nat, p: int, shift: int)
    requires
        2 <= p,
        0 <= shift,
    ensures
        channel_at(t + p as nat, p, shift) == channel_at(t, p, shift),
{
    lemma_mod_add_multiples_vanish(t as int, p);
}

/// Compute `rise(x, h)` exactly, in machine arithmetic.
fn rise_exec(x: u64, h: u64) -> (r: u64)
    requires
        1 <= h <= 0x0008_0000,
        x < h,
    ensures
        r == rise(x as int, h as int),
        r <= 127,
{
    proof {
        lemma_rise_range(x as int, h as int);
        assert(x * (h - x) <= h * h && 4 * (x * (h - x)) <= h * h && 1 <= h * h && h * h
            <= 0x0008_0000 * 0x0008_0000) by (nonlinear_arith)
            requires
                1 <= h <= 0x0008_0000,
                0 <= x < h,
        {
            assert((h - 2 * x) * (h - 2 * x) >= 0);
        }
    }
    let d = h - x;
    let t = x * d;
    let num = 16 * t * 127;
    let den = 5 * (h * h) - 4 * t;
    num / den
}

/// Compute one channel's wave value; always within 1..=255.
fn wave_exec(x: u32, p: u32) -> (r: u8)
    requires
        2 <= p <= MAX_COLOR_PERIOD,
        x < p,
    ensures
        r == wave(x as int, p as int),
        1 <= r <= 255,
{
    let h1 = p / 2;
    let h2 = p - h1;
    if x < h1 {
        let up = rise_exec(x as u64, h1 as u64);
        proof {
            lemma_rise_range(x as int, h1 as int);
        }
        128 + (up as u8)
    } else {
        let down = rise_exec((x - h1) as u64, h2 as u64);
        proof {
            lemma_rise_range((x - h1) as int, h2 as int);
        }
        128 - (down as u8)
    }
}

/// The cyclic background-color generator.
pub struct ColorCycle {
    counter: u32,
    period: u32,
    ticks: Ghost<nat>,
}

impl ColorCycle {
    /// The configured period, in frames.
    pub closed spec fn period(&self) -> u32 {
        self.period
    }

    /// How many frames this cycle has produced.
    pub closed spec fn ticks(&self) -> nat {
        self.ticks@
    }

    /// Internal consistency: the counter is the tick count modulo the period.
    pub closed spec fn wf(&self) -> bool {
        &&& 2 <= self.period <= MAX_COLOR_PERIOD
        &&& self.counter as nat == self.ticks@ % self.period as nat
    }

    /// A fresh cycle with the given period, at its start position.
    pub fn new(period: u32) -> (r: ColorCycle)
        requires
            2 <= period <= MAX_COLOR_PERIOD,
        ensures
            r.wf(),
            r.period() == period,
            r.ticks() == 0,
    {
        proof {
            lemma_small_mod(0, period as nat);
        }
        ColorCycle { counter: 0, period, ticks: Ghost(0) }
    }

    /// Advance one frame and produce the background color for it, as RGBA
    /// bytes with full alpha. Each channel is the shared wave read at that
    /// channel's phase, and stays within 1..=255.
    pub fn advance(&mut self) -> (rgba: (u8, u8, u8, u8))
        requires
            old(self).wf(),
        ensures
            final(self).wf(),
            final(self).period() == old(self).period(),
            final(self).ticks() == old(self).ticks() + 1,
            rgba.0 == channel_at(final(self).ticks(), old(self).period() as int, 0),
            rgba.1 == channel_at(
                final(self).ticks(),
                old(self).period() as int,
                green_shift(old(self).period() as int),
            ),
            rgba.2 == channel_at(
                final(self).ticks(),
                old(self).period() as int,
                blue_shift(old(self).period() as int),
            ),
            rgba.3 == 255,
            1 <= rgba.0 <= 255,
            1 <= rgba.1 <= 255,
            1 <= rgba.2 <= 255,
    {
        let p = self.period;
        self.counter = (self.counter + 1) % p;
        proof {
            self.ticks@ = self.ticks@ + 1;
            lemma_add_mod_noop(old(self).ticks() as int, 1, p as int);
            lemma_small_mod(1, p as nat);
            lemma_small_mod(self.counter as nat, p as nat);
        }
        let g_shift = (2 * p) / 3;
        let b_shift = p / 3;
        let red = wave_exec(self.counter, p);
        let green = wave_exec((self.counter + g_shift) % p, p);
        let blue = wave_exec((self.counter + b_shift) % p, p);
        (red, green, blue, 255)
    }
}

} // verus!
