//! Sizing policy of the bar, and its resolution into a number of fill-steps.
use vstd::prelude::*;

verus! {

/// A proportion is written in millionths: `Proportional(PROPORTION_SCALE)` is
/// the whole terminal width.
pub const PROPORTION_SCALE: i64 = 1_000_000;

/// The default policy is a third of the terminal: `Proportional(DEFAULT_PROPORTION)`.
pub const DEFAULT_PROPORTION: i64 = 330_000;

/// Width taken for a proportional bar when the terminal's width cannot be read.
pub const FALLBACK_WIDTH: usize = 50;

/// Characters of a frame besides its steps: the two brackets and ` (100%)`.
pub const DECORATION: usize = 9;

/// How wide the bar is drawn. Both lengths count the whole frame, the
/// percentage and its parentheses included.
///
/// `Absolute(n)` asks for `n` characters. A length that leaves no room for a
/// step gives a bar of a single step; one wider than the terminal is drawn
/// as asked.
///
/// `Proportional(p)` asks for the fraction `p / PROPORTION_SCALE` of the
/// terminal's width. It is read again at every frame, so a resized terminal
/// is followed; values below zero count as zero and values above
/// `PROPORTION_SCALE` as the whole width.
#[derive(Clone, Copy, Debug, PartialEq, Eq, Structural)]
pub enum Length {
    Absolute(usize),
    Proportional(i64),
}

/// A proportion brought into `[0, PROPORTION_SCALE]`.
pub open spec fn clamp_proportion(p: int) -> int {
    if p < 0 {
        0
    } else if p > PROPORTION_SCALE {
        PROPORTION_SCALE as int
    } else {
        p
    }
}

/// The whole length of a frame, in characters, under a policy and a terminal
/// width (`None` where the width could not be read).
pub open spec fn spec_bar_length(len: Length, width: Option<u16>) -> nat {
    match len {
        Length::Absolute(n) => n as nat,
        Length::Proportional(p) => match width {
            Some(w) => (w as int * clamp_proportion(p as int) / PROPORTION_SCALE as int) as nat,
            None => FALLBACK_WIDTH as nat,
        },
    }
}

/// The number of fill-steps of a frame of the given length: what the
/// decoration leaves, and never less than one.
pub open spec fn spec_steps_of(bar_len: nat) -> nat {
    if bar_len > DECORATION {
        (bar_len - DECORATION) as nat
    } else {
        1
    }
}

/// The number of fill-steps under a policy and a terminal width.
pub open spec fn spec_resolve(len: Length, width: Option<u16>) -> nat {
    spec_steps_of(spec_bar_length(len, width))
}

/// The whole length of a frame, in characters.
pub fn bar_length(len: Length, width: Option<u16>) -> (r: usize)
    ensures
        r == spec_bar_length(len, width),
{
    match len {
        Length::Absolute(n) => n,
        Length::Proportional(p) => match width {
            Some(w) => {
                let q: i64 = if p < 0 {
                    0
                } else if p > PROPORTION_SCALE {
                    PROPORTION_SCALE
                } else {
                    p
                };
                let wide: u64 = w as u64;
                let part: u64 = q as u64;
                assert(wide * part <= 65535 * 1_000_000) by (nonlinear_arith)
                    requires
                        wide <= 65535,
                        part <= 1_000_000,
                ;
                let r: u64 = wide * part / (PROPORTION_SCALE as u64);
                assert(r <= 65535) by (nonlinear_arith)
                    requires
                        r == wide * part / 1_000_000,
                        wide * part <= 65535 * 1_000_000,
                ;
                r as usize
            },
            None => FALLBACK_WIDTH,
        },
    }
}

/// The number of fill-steps of a frame of the given length.
pub fn steps_of(bar_len: usize) -> (r: usize)
    ensures
        r == spec_steps_of(bar_len as nat),
        r >= 1,
{
    if bar_len > DECORATION {
        bar_len - DECORATION
    } else {
        1
    }
}

/// Resolves a policy into a number of fill-steps, for the terminal width
/// `width` (`None` where it could not be read).
pub fn resolve(len: Length, width: Option<u16>) -> (r: usize)
    ensures
        r == spec_resolve(len, width),
        r >= 1,
{
    steps_of(bar_length(len, width))
}

/// A proportion below zero resolves as zero does, and one above the whole
/// width resolves as the whole width does, whatever the terminal's width.
pub proof fn lemma_proportion_clamped(p: i64, width: Option<u16>)
    ensures
        p < 0 ==> spec_resolve(Length::Proportional(p), width) == spec_resolve(
            Length::Proportional(0),
            width,
        ),
        p > PROPORTION_SCALE ==> spec_resolve(Length::Proportional(p), width) == spec_resolve(
            Length::Proportional(PROPORTION_SCALE),
            width,
        ),
{
}

/// An absolute length that leaves no room past the decoration for more than
/// one step resolves to exactly one step.
pub proof fn lemma_short_absolute_single_step(n: usize, width: Option<u16>)
    requires
        n <= DECORATION + 1,
    ensures
        spec_resolve(Length::Absolute(n), width) == 1,
{
}

} // verus!
