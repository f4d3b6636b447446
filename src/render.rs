//! The text of a frame: the bar, its percentage, and what overwrites the
//! previous frame on the terminal.
use vstd::prelude::*;
use vstd::string::*;

verus! {

/// `n` copies of `c`.
pub open spec fn repeat(c: char, n: nat) -> Seq<char> {
    Seq::new(n, |i: int| c)
}

/// The nearest whole number to `a / b`, a half rounded up.
pub open spec fn round_div(a: nat, b: nat) -> nat
    recommends
        b > 0,
{
    (2 * a + b) / (2 * b)
}

/// The number of filled steps among `steps` after `curr` of `total` elements.
/// An empty traversal (`total == 0`) and one that has run past its declared
/// total show a full bar.
pub open spec fn spec_filled(curr: nat, total: nat, steps: nat) -> nat {
    if total == 0 || curr >= total {
        steps
    } else {
        curr * steps / total
    }
}

/// The percentage shown after `curr` of `total` elements: `100 * curr / total`
/// rounded to the nearest whole number, and 100 where `total == 0` or
/// `curr >= total`.
pub open spec fn spec_percent(curr: nat, total: nat) -> nat {
    if total == 0 || curr >= total {
        100
    } else {
        round_div(100 * curr, total)
    }
}

/// The decimal digit `d`.
pub open spec fn digit_char(d: nat) -> char {
    (d + 48) as char
}

/// A percentage right-aligned in three columns.
pub open spec fn spec_percent_text(p: nat) -> Seq<char> {
    if p < 10 {
        seq![' ', ' ', digit_char(p)]
    } else if p < 100 {
        seq![' ', digit_char(p / 10), digit_char(p % 10)]
    } else {
        seq![digit_char(p / 100), digit_char(p / 10 % 10), digit_char(p % 10)]
    }
}

/// A frame: `[`, the filled steps as `#`, the others as spaces, `] (`, the
/// percentage in three columns and `%)`.
pub open spec fn spec_frame(filled: nat, steps: nat, pct: nat) -> Seq<char> {
    seq!['['] + repeat('#', filled) + repeat(' ', (steps - filled) as nat) + seq![']', ' ', '(']
        + spec_percent_text(pct) + seq!['%', ')']
}

/// The frame after `curr` of `total` elements, on a bar of `steps` steps.
pub open spec fn spec_frame_for(curr: nat, total: nat, steps: nat) -> Seq<char> {
    spec_frame(spec_filled(curr, total, steps), steps, spec_percent(curr, total))
}

/// What replaces the previous frame with `frame`. Where the terminal's width
/// is known the line is first blanked: a carriage return, a space for each
/// column and another carriage return. The frame then ends with a carriage
/// return, so that the next one starts at column 0; after the last frame of a
/// traversal a line feed follows.
pub open spec fn spec_overwrite(frame: Seq<char>, width: Option<u16>, done: bool) -> Seq<char> {
    let blank = match width {
        Some(w) => seq!['\r'] + repeat(' ', w as nat) + seq!['\r'],
        None => Seq::<char>::empty(),
    };
    let end = if done {
        seq!['\r', '\n']
    } else {
        seq!['\r']
    };
    blank + frame + end
}

/// A line written over the bar: a carriage return, `text`, spaces up to the
/// terminal's width where `text` is shorter, and a line feed.
pub open spec fn spec_line_over_bar(text: Seq<char>, width: nat) -> Seq<char> {
    let pad: nat = if text.len() < width {
        (width - text.len()) as nat
    } else {
        0
    };
    seq!['\r'] + text + repeat(' ', pad) + seq!['\n']
}

/// While `0 <= curr <= total` and `total > 0`, the percentage is the whole
/// number nearest to `100 * curr / total` (a half rounds up), and lies in
/// `[0, 100]`.
pub proof fn lemma_percent_nearest(curr: nat, total: nat)
    requires
        total > 0,
        curr <= total,
    ensures
        2 * total * spec_percent(curr, total) <= 200 * curr + total,
        200 * curr + total < 2 * total * (spec_percent(curr, total) + 1),
        spec_percent(curr, total) <= 100,
{
    let p = spec_percent(curr, total);
    if curr < total {
        assert(2 * total * p <= 200 * curr + total < 2 * total * (p + 1)) by (nonlinear_arith)
            requires
                p == (2 * (100 * curr) + total) / (2 * total),
                total > 0,
        ;
        assert(p <= 100) by (nonlinear_arith)
            requires
                p == (2 * (100 * curr) + total) / (2 * total),
                curr < total,
        ;
    } else {
        assert(200 * curr + total < 2 * total * (100 + 1)) by (nonlinear_arith)
            requires
                curr == total,
                total > 0,
        ;
    }
}

/// An empty traversal (`total == 0`) shows 100% and a full bar, whatever the
/// count and the number of steps.
pub proof fn lemma_empty_total_full(curr: nat, steps: nat)
    ensures
        spec_percent(curr, 0) == 100,
        spec_filled(curr, 0, steps) == steps,
{
}

/// The filled steps never exceed the steps of the bar, and a count past the
/// declared total shows 100%.
pub proof fn lemma_overrun_clamped(curr: nat, total: nat, steps: nat)
    ensures
        spec_filled(curr, total, steps) <= steps,
        curr > total ==> spec_percent(curr, total) == 100,
{
    if total > 0 && curr < total {
        assert(curr * steps / total <= steps) by (nonlinear_arith)
            requires
                curr < total,
        ;
    }
}

/// The number of filled steps.
pub fn filled_steps(curr: usize, total: usize, steps: usize) -> (r: usize)
    ensures
        r == spec_filled(curr as nat, total as nat, steps as nat),
        r <= steps,
{
    if total == 0 || curr >= total {
        steps
    } else {
        let c: u128 = curr as u128;
        let s: u128 = steps as u128;
        let t: u128 = total as u128;
        assert(c * s <= 0xffff_ffff_ffff_ffff * 0xffff_ffff_ffff_ffff) by (nonlinear_arith)
            requires
                c <= 0xffff_ffff_ffff_ffff,
                s <= 0xffff_ffff_ffff_ffff,
        ;
        let q: u128 = c * s / t;
        assert(q <= s) by (nonlinear_arith)
            requires
                q as int == (c as int * s as int) / (t as int),
                c < t,
        ;
        q as usize
    }
}

/// The percentage shown.
pub fn percent(curr: usize, total: usize) -> (r: usize)
    ensures
        r == spec_percent(curr as nat, total as nat),
        r <= 100,
{
    if total == 0 || curr >= total {
        100
    } else {
        let c: u128 = curr as u128;
        let t: u128 = total as u128;
        let q: u128 = (200 * c + t) / (2 * t);
        assert(q <= 100) by (nonlinear_arith)
            requires
                q as int == (200 * c as int + t as int) / (2 * t as int),
                c < t,
        ;
        q as usize
    }
}

/// Appends `n` copies of the one character of `c`.
fn push_repeat(s: &mut String, c: &str, n: usize)
    requires
        c@.len() == 1,
    ensures
        final(s)@ == old(s)@ + repeat(c@[0], n as nat),
{
    let ghost start = s@;
    let mut i: usize = 0;
    while i < n
        invariant
            i <= n,
            c@.len() == 1,
            s@ == start + repeat(c@[0], i as nat),
        decreases n - i,
    {
        s.append(c);
        i += 1;
        assert(s@ =~= start + repeat(c@[0], i as nat));
    }
    assert(s@ =~= start + repeat(c@[0], n as nat));
}

/// The decimal digit `d` as text.
fn digit(d: usize) -> (r: &'static str)
    requires
        d < 10,
    ensures
        r@ == seq![digit_char(d as nat)],
{
    proof {
        reveal_strlit("0");
        reveal_strlit("1");
        reveal_strlit("2");
        reveal_strlit("3");
        reveal_strlit("4");
        reveal_strlit("5");
        reveal_strlit("6");
        reveal_strlit("7");
        reveal_strlit("8");
        reveal_strlit("9");
    }
    match d {
        0 => "0",
        1 => "1",
        2 => "2",
        3 => "3",
        4 => "4",
        5 => "5",
        6 => "6",
        7 => "7",
        8 => "8",
        _ => "9",
    }
}

/// Appends a percentage right-aligned in three columns.
fn push_percent(s: &mut String, p: usize)
    requires
        p <= 100,
    ensures
        final(s)@ == old(s)@ + spec_percent_text(p as nat),
{
    let ghost start = s@;
    proof {
        reveal_strlit(" ");
    }
    if p < 10 {
        s.append(" ");
        s.append(" ");
        s.append(digit(p));
    } else if p < 100 {
        s.append(" ");
        s.append(digit(p / 10));
        s.append(digit(p % 10));
    } else {
        s.append(digit(p / 100));
        s.append(digit(p / 10 % 10));
        s.append(digit(p % 10));
    }
    assert(s@ =~= start + spec_percent_text(p as nat));
}

/// A frame with `filled` of `steps` steps filled and the percentage `pct`.
fn frame_text(filled: usize, steps: usize, pct: usize) -> (r: String)
    requires
        filled <= steps,
        pct <= 100,
    ensures
        r@ == spec_frame(filled as nat, steps as nat, pct as nat),
{
    proof {
        reveal_strlit("[");
        reveal_strlit("#");
        reveal_strlit(" ");
        reveal_strlit("] (");
        reveal_strlit("%)");
    }
    let mut s = String::new();
    s.append("[");
    push_repeat(&mut s, "#", filled);
    push_repeat(&mut s, " ", steps - filled);
    s.append("] (");
    push_percent(&mut s, pct);
    s.append("%)");
    assert(s@ =~= spec_frame(filled as nat, steps as nat, pct as nat));
    s
}

/// The frame after `curr` of `total` elements, on a bar of `steps` steps.
pub fn render_frame(curr: usize, total: usize, steps: usize) -> (r: String)
    ensures
        r@ == spec_frame_for(curr as nat, total as nat, steps as nat),
{
    frame_text(filled_steps(curr, total, steps), steps, percent(curr, total))
}

/// The text that replaces the previous frame with `frame`, for the terminal
/// width `width` (`None` where it could not be read); `done` marks the last
/// frame of a traversal.
pub fn overwrite(frame: &str, width: Option<u16>, done: bool) -> (r: String)
    ensures
        r@ == spec_overwrite(frame@, width, done),
{
    proof {
        reveal_strlit("\r");
        reveal_strlit(" ");
        reveal_strlit("\r\n");
    }
    let mut s = String::new();
    if let Some(w) = width {
        s.append("\r");
        push_repeat(&mut s, " ", w as usize);
        s.append("\r");
    }
    s.append(frame);
    if done {
        s.append("\r\n");
    } else {
        s.append("\r");
    }
    assert(s@ =~= spec_overwrite(frame@, width, done));
    s
}

/// The line that writes `text` over the bar on a terminal `width` columns
/// wide. A text wider than the terminal is written whole, with no padding.
pub fn line_over_bar(text: &str, width: u16) -> (r: String)
    ensures
        r@ == spec_line_over_bar(text@, width as nat),
{
    proof {
        reveal_strlit("\r");
        reveal_strlit(" ");
        reveal_strlit("\n");
    }
    let n: usize = text.unicode_len();
    let w: usize = width as usize;
    let pad: usize = if n < w {
        w - n
    } else {
        0
    };
    let mut s = String::new();
    s.append("\r");
    s.append(text);
    push_repeat(&mut s, " ", pad);
    s.append("\n");
    assert(s@ =~= spec_line_over_bar(text@, width as nat));
    s
}

} // verus!
