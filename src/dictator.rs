//! Seeded, reproducible decisions: Bernoulli trials and picks from a range.
//!
//! A dictator's answers depend on its seed and on the questions it was asked before, in order, and
//! on nothing else: the same seed asked the same questions gives the same answers on every run.

use vstd::prelude::*;
use std::ops::Range;
use rand_chacha::ChaCha8Rng;
use crate::rng::{
    entropy_u64, gen_range_i32, gen_range_usize, gen_ratio, range_draw_i32, range_draw_usize,
    ratio_draw, rng_from_seed, seeded,
};

verus! {

/// A question put to a dictator; the label that comes with it plays no part.
pub enum Question {
    /// Yes with chance `numerator` in `denominator`.
    Please { numerator: u32, denominator: u32 },
    /// A signed number in `low..high`.
    Pick { low: i32, high: i32 },
    /// A size in `low..high`.
    PickSize { low: usize, high: usize },
}

/// The answer to a question on a generator in state `rng` (yes is 1, no is 0), and the state after.
pub open spec fn draw(rng: ChaCha8Rng, q: Question) -> (int, ChaCha8Rng) {
    match q {
        Question::Please { numerator, denominator } => {
            let (yes, next) = ratio_draw(rng, numerator, denominator);
            (if yes { 1 } else { 0 }, next)
        },
        Question::Pick { low, high } => {
            let (v, next) = range_draw_i32(rng, low, high);
            (v as int, next)
        },
        Question::PickSize { low, high } => {
            let (v, next) = range_draw_usize(rng, low, high);
            (v as int, next)
        },
    }
}

/// The generator seeded with `seed` after it answered `asked`, in order.
pub open spec fn replay(seed: u64, asked: Seq<Question>) -> ChaCha8Rng
    decreases asked.len(),
{
    if asked.len() == 0 {
        seeded(seed)
    } else {
        draw(replay(seed, asked.drop_last()), asked.last()).1
    }
}

/// What a dictator is: its seed and the questions it has answered, in order.
pub struct DictatorView {
    pub seed: u64,
    pub asked: Seq<Question>,
}

impl DictatorView {
    /// The answer this dictator gives to `q` next.
    pub open spec fn answer(self, q: Question) -> int {
        draw(replay(self.seed, self.asked), q).0
    }

    /// This dictator once it has answered `q`.
    pub open spec fn after(self, q: Question) -> DictatorView {
        DictatorView { seed: self.seed, asked: self.asked.push(q) }
    }
}

/// Two dictators made from the same seed and asked the same questions in the same order give the
/// same answer to the next question, and are alike again after it: so they answer alike every time.
pub proof fn lemma_reproducible(a: DictatorView, b: DictatorView, q: Question)
    requires
        a.seed == b.seed,
        a.asked == b.asked,
    ensures
        a.answer(q) == b.answer(q),
        a.after(q) == b.after(q),
{
}

/// The answers that a dictator made from `seed` gives to the questions `qs`, asked in order.
pub open spec fn answers(seed: u64, qs: Seq<Question>) -> Seq<int>
    decreases qs.len(),
{
    if qs.len() == 0 {
        Seq::empty()
    } else {
        answers(seed, qs.drop_last()).push(
            (DictatorView { seed, asked: qs.drop_last() }).answer(qs.last()),
        )
    }
}

/// Replaying a run: the `i`-th answer of a run depends only on the seed and the first `i + 1`
/// questions, so two runs from the same seed that agree on their first `k` questions agree on their
/// first `k` answers, whatever they are asked afterwards.
pub proof fn lemma_replay(seed: u64, qs: Seq<Question>, rs: Seq<Question>, k: int)
    requires
        0 <= k <= qs.len(),
        k <= rs.len(),
        qs.take(k) == rs.take(k),
    ensures
        answers(seed, qs).len() == qs.len(),
        answers(seed, qs).take(k) == answers(seed, rs).take(k),
    decreases qs.len() + rs.len(),
{
    lemma_answers_len(seed, qs);
    lemma_answers_len(seed, rs);
    if qs.len() > k {
        assert(qs.drop_last().take(k) =~= qs.take(k));
        lemma_replay(seed, qs.drop_last(), rs, k);
        assert(answers(seed, qs).take(k) =~= answers(seed, qs.drop_last()).take(k));
    } else if rs.len() > k {
        assert(rs.drop_last().take(k) =~= rs.take(k));
        lemma_replay(seed, qs, rs.drop_last(), k);
        assert(answers(seed, rs).take(k) =~= answers(seed, rs.drop_last()).take(k));
    } else {
        assert(qs =~= qs.take(k));
        assert(rs =~= rs.take(k));
    }
}

proof fn lemma_answers_len(seed: u64, qs: Seq<Question>)
    ensures
        answers(seed, qs).len() == qs.len(),
    decreases qs.len(),
{
    if qs.len() > 0 {
        lemma_answers_len(seed, qs.drop_last());
    }
}

/// A source of reproducible random decisions, driven by a seed.
pub struct Dictator {
    seed: u64,
    rng: ChaCha8Rng,
    asked: Ghost<Seq<Question>>,
}

impl View for Dictator {
    type V = DictatorView;

    closed spec fn view(&self) -> DictatorView {
        DictatorView { seed: self.seed, asked: self.asked@ }
    }
}

impl Dictator {
    /// The generator is the one its seed gives, moved on by the questions asked so far.
    pub closed spec fn inv(&self) -> bool {
        self.rng == replay(self.seed, self.asked@)
    }

    /// A dictator that has answered nothing yet.
    pub fn new(seed: u64) -> (r: Dictator)
        ensures
            r.inv(),
            r@ == (DictatorView { seed, asked: Seq::empty() }),
    {
        Dictator { seed, rng: rng_from_seed(seed), asked: Ghost(Seq::empty()) }
    }

    /// Yes with chance `numerator` in `denominator`. The `question` is a label only.
    pub fn please(&mut self, question: &str, numerator: u32, denominator: u32) -> (r: bool)
        requires
            old(self).inv(),
            0 < denominator,
            numerator <= denominator,
        ensures
            final(self).inv(),
            ({
                let q = Question::Please { numerator, denominator };
                &&& r == (old(self)@.answer(q) == 1)
                &&& final(self)@ == old(self)@.after(q)
            }),
            numerator == 0 ==> !r,
            numerator == denominator ==> r,
    {
        let ghost q = Question::Please { numerator, denominator };
        let r = gen_ratio(&mut self.rng, numerator, denominator);
        self.asked = Ghost(self.asked@.push(q));
        proof {
            assert(self.asked@.drop_last() =~= old(self).asked@);
        }
        r
    }

    /// A number drawn evenly from `range`. The `what` is a label only.
    pub fn pick(&mut self, what: &str, range: Range<i32>) -> (r: i32)
        requires
            old(self).inv(),
            range.start < range.end,
        ensures
            final(self).inv(),
            ({
                let q = Question::Pick { low: range.start, high: range.end };
                &&& r == old(self)@.answer(q)
                &&& final(self)@ == old(self)@.after(q)
            }),
            range.start <= r < range.end,
    {
        let ghost q = Question::Pick { low: range.start, high: range.end };
        let r = gen_range_i32(&mut self.rng, range.start, range.end);
        self.asked = Ghost(self.asked@.push(q));
        proof {
            assert(self.asked@.drop_last() =~= old(self).asked@);
        }
        r
    }

    /// A size drawn evenly from `range`. The `what` is a label only.
    pub fn pick_size(&mut self, what: &str, range: Range<usize>) -> (r: usize)
        requires
            old(self).inv(),
            range.start < range.end,
        ensures
            final(self).inv(),
            ({
                let q = Question::PickSize { low: range.start, high: range.end };
                &&& r == old(self)@.answer(q)
                &&& final(self)@ == old(self)@.after(q)
            }),
            range.start <= r < range.end,
    {
        let ghost q = Question::PickSize { low: range.start, high: range.end };
        let r = gen_range_usize(&mut self.rng, range.start, range.end);
        self.asked = Ghost(self.asked@.push(q));
        proof {
            assert(self.asked@.drop_last() =~= old(self).asked@);
        }
        r
    }

    /// A fresh seed from the system's entropy.
    pub fn seed() -> (r: u64) {
        entropy_u64()
    }
}

} // verus!
