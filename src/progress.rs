//! The refresh controller: a wrapped iterator that counts what it hands out
//! and, at each step, produces the text that redraws the bar.
use vstd::prelude::*;
use vstd::std_specs::iter::IteratorSpec;
use crate::length::{resolve, spec_resolve, Length, DEFAULT_PROPORTION};
use crate::render::{
    line_over_bar, overwrite, render_frame, spec_frame_for, spec_line_over_bar, spec_overwrite,
};

verus! {

/// Relies on terminal_size::terminal_size: the width in columns of the
/// terminal behind standard output, standard error or standard input, or
/// `None` where none of them is a terminal. The answer depends on the
/// terminal at the time of the call, so nothing is stated of it.
#[verifier::external_body]
fn terminal_width() -> (r: Option<u16>) {
    match terminal_size::terminal_size() {
        Some((terminal_size::Width(w), _)) => Some(w),
        None => None,
    }
}

/// The count after one more element: one up, held at `usize::MAX`.
pub open spec fn spec_count_up(curr: nat) -> nat {
    if curr < usize::MAX {
        curr + 1
    } else {
        curr
    }
}

/// The text written at one step of a traversal, after `curr` of `total`
/// elements, under the policy `len` and the terminal width `width`. `done`
/// marks the step on which the wrapped iterator ran out: its frame is full
/// and shows 100%, and a line feed follows it.
pub open spec fn spec_step_text(
    curr: nat,
    total: nat,
    len: Length,
    width: Option<u16>,
    done: bool,
) -> Seq<char> {
    let steps = spec_resolve(len, width);
    let shown = if done {
        total
    } else {
        curr
    };
    spec_overwrite(spec_frame_for(shown, total, steps), width, done)
}

/// An iterator wrapped with a progress bar.
///
/// It hands out the elements of the wrapped iterator unchanged and counts
/// them; at each step it also gives the text that redraws the bar, for the
/// caller to write to the terminal.
pub struct Prgrs<T: Iterator> {
    iter: T,
    size: usize,
    curr: usize,
    len: Length,
}

impl<T: Iterator> Prgrs<T> {
    /// The wrapped iterator.
    pub closed spec fn inner(&self) -> T {
        self.iter
    }

    /// The number of elements declared at construction.
    pub closed spec fn total(&self) -> nat {
        self.size as nat
    }

    /// The number of elements handed out so far.
    pub closed spec fn current(&self) -> nat {
        self.curr as nat
    }

    /// The sizing policy in force.
    pub closed spec fn length(&self) -> Length {
        self.len
    }

    /// Wraps `it`, which is declared to hold `size` elements. The bar takes a
    /// third of the terminal until another length is set.
    pub fn new(it: T, size: usize) -> (r: Self)
        ensures
            r.inner() == it,
            r.total() == size,
            r.current() == 0,
            r.length() == Length::Proportional(DEFAULT_PROPORTION),
    {
        Prgrs { iter: it, size, curr: 0, len: Length::Proportional(DEFAULT_PROPORTION) }
    }

    /// Sets the length of the bar from the next step on.
    pub fn set_length(&mut self, len: Length)
        ensures
            final(self).length() == len,
            final(self).inner() == old(self).inner(),
            final(self).total() == old(self).total(),
            final(self).current() == old(self).current(),
    {
        self.len = len;
    }

    /// Sets the length of the bar and hands the wrapper back, for use in a
    /// chain of calls.
    pub fn set_length_move(self, len: Length) -> (r: Self)
        ensures
            r.length() == len,
            r.inner() == self.inner(),
            r.total() == self.total(),
            r.current() == self.current(),
    {
        let mut s = self;
        s.set_length(len);
        s
    }

    /// Takes the next element of the wrapped iterator, and the text that
    /// redraws the bar for the count after it.
    ///
    /// The element is the one the wrapped iterator gives, unchanged. On an
    /// element the count goes one up; once the wrapped iterator has run out,
    /// the count stays, the bar is drawn full at 100% and the text ends with a
    /// line feed, so that what follows starts on a fresh line. The terminal's
    /// width is read anew at every step.
    pub fn advance(&mut self) -> (r: (Option<T::Item>, String))
        ensures
            final(self).total() == old(self).total(),
            final(self).length() == old(self).length(),
            final(self).inner().obeys_prophetic_iter_laws()
                == old(self).inner().obeys_prophetic_iter_laws(),
            old(self).inner().obeys_prophetic_iter_laws() ==> {
                if old(self).inner().remaining().len() > 0 {
                    &&& r.0 == Some(old(self).inner().remaining()[0])
                    &&& final(self).inner().remaining()
                        == old(self).inner().remaining().drop_first()
                } else {
                    &&& r.0 is None
                    &&& final(self).inner().remaining() == old(self).inner().remaining()
                }
            },
            r.0 is Some ==> final(self).current() == spec_count_up(old(self).current()),
            r.0 is None ==> final(self).current() == old(self).current(),
            exists|w: Option<u16>|
                r.1@ == #[trigger] spec_step_text(
                    final(self).current(),
                    final(self).total(),
                    final(self).length(),
                    w,
                    r.0 is None,
                ),
            r.1@.len() > 0,
            r.0 is Some ==> r.1@.last() == '\r',
            r.0 is None ==> r.1@.last() == '\n',
    {
        let next = self.iter.next();
        let done = next.is_none();
        if !done && self.curr < usize::MAX {
            self.curr = self.curr + 1;
        }
        let width = terminal_width();
        let steps = resolve(self.len, width);
        let shown = if done {
            self.size
        } else {
            self.curr
        };
        let frame = render_frame(shown, self.size, steps);
        let text = overwrite(frame.as_str(), width, done);
        assert(done == next is None);
        assert(text@ == spec_step_text(self.current(), self.total(), self.length(), width, done));
        (next, text)
    }
}

/// The line that writes `text` over the bar and moves below it, or `None`
/// where the terminal's width cannot be read; the caller may then print
/// `text` plainly.
pub fn write_line_text(text: &str) -> (r: Option<String>)
    ensures
        r matches Some(s) ==> exists|w: u16| s@ == #[trigger] spec_line_over_bar(text@, w as nat),
{
    match terminal_width() {
        Some(w) => Some(line_over_bar(text, w)),
        None => None,
    }
}

} // verus!
