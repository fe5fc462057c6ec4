//! A dictator without the entropy helper: seeded, reproducible decisions only.

use vstd::prelude::*;
use std::ops::Range;
use crate::dictator::{Dictator, DictatorView, Question};

verus! {

/// A source of reproducible random decisions, driven by a seed. It answers exactly as a `Dictator`
/// made from the same seed and asked the same questions.
pub struct BenevolentDictator {
    inner: Dictator,
}

impl View for BenevolentDictator {
    type V = DictatorView;

    closed spec fn view(&self) -> DictatorView {
        self.inner@
    }
}

impl BenevolentDictator {
    pub closed spec fn inv(&self) -> bool {
        self.inner.inv()
    }

    /// A dictator that has answered nothing yet.
    pub fn new(seed: u64) -> (r: BenevolentDictator)
        ensures
            r.inv(),
            r@ == (DictatorView { seed, asked: Seq::empty() }),
    {
        BenevolentDictator { inner: Dictator::new(seed) }
    }

    /// Yes with chance `numerator` in `denominator`. The `question` is a label only.
    pub fn please(&mut self, question: &str, numerator: u32, denominator: u32) -> (r: bool)
        requires
            old(self).inv(),
            0 < denominator,
            numerator <= denominator,
        ensures
            final(self).inv(),
            ({
                let q = Question::Please { numerator, denominator };
                &&& r == (old(self)@.answer(q) == 1)
                &&& final(self)@ == old(self)@.after(q)
            }),
            numerator == 0 ==> !r,
            numerator == denominator ==> r,
    {
        self.inner.please(question, numerator, denominator)
    }

    /// A number drawn evenly from `range`. The `what` is a label only.
    pub fn pick(&mut self, what: &str, range: Range<i32>) -> (r: i32)
        requires
            old(self).inv(),
            range.start < range.end,
        ensures
            final(self).inv(),
            ({
                let q = Question::Pick { low: range.start, high: range.end };
                &&& r == old(self)@.answer(q)
                &&& final(self)@ == old(self)@.after(q)
            }),
            range.start <= r < range.end,
    {
        self.inner.pick(what, range)
    }
}

} // verus!
