use vstd::prelude::*;

use crate::game::{candidates, CorpusIterator, WordleGame};

verus! {

/// How many suggestions a ranking yields at most.
pub const RANKING_CAP: usize = 10;

/// The first `n` elements of `s`, or all of them when `s` is shorter.
pub open spec fn first_n<A>(s: Seq<A>, n: int) -> Seq<A> {
    if n <= 0 {
        Seq::empty()
    } else if n >= s.len() {
        s
    } else {
        s.take(n)
    }
}

/// A scoring strategy: the metric a suggested guess is shown with.
pub trait GuessScorer {
    type Metric;

    fn score(&self, word: &str) -> Self::Metric;
}

/// The default strategy: every candidate gets the same, empty metric.
pub struct PlaceholderScorer;

impl GuessScorer for PlaceholderScorer {
    type Metric = ();

    fn score(&self, _word: &str) -> (r: ()) {
        ()
    }
}

/// The suggested next guesses: the candidates in corpus order, each with the
/// metric of a scoring strategy, at most `RANKING_CAP` of them.
pub struct BestNextGuessIterator<'a, S: GuessScorer = PlaceholderScorer> {
    inner: CorpusIterator<'a>,
    taken: usize,
    scorer: S,
}

impl<'a, S: GuessScorer> BestNextGuessIterator<'a, S> {
    /// The words this ranking has still to yield.
    pub closed spec fn remaining(&self) -> Seq<Seq<char>> {
        first_n(self.inner.remaining(), RANKING_CAP - self.taken)
    }

    pub closed spec fn wf(&self) -> bool {
        self.taken <= RANKING_CAP
    }

    pub fn new(inner: CorpusIterator<'a>, scorer: S) -> (r: Self)
        ensures
            r.wf(),
            r.remaining() == first_n(inner.remaining(), RANKING_CAP as int),
    {
        BestNextGuessIterator { inner, taken: 0, scorer }
    }

    /// The next suggestion, if any.
    pub fn next(&mut self) -> (r: Option<(&'a str, S::Metric)>)
        requires
            old(self).wf(),
        ensures
            final(self).wf(),
            old(self).remaining().len() == 0 ==> r is None && final(self).remaining().len() == 0,
            old(self).remaining().len() > 0 ==> (r matches Some(p) && p.0@ == old(self).remaining()[0]
                && final(self).remaining() == old(self).remaining().drop_first()),
    {
        if self.taken < RANKING_CAP {
            let ghost rest = self.inner.remaining();
            self.taken += 1;
            let r = self.inner.next();
            proof {
                if rest.len() > 0 {
                    assert(self.remaining() =~= first_n(rest, RANKING_CAP - old(self).taken).drop_first());
                }
            }
            match r {
                Some(w) => Some((w, self.scorer.score(w))),
                None => None,
            }
        } else {
            None
        }
    }

    /// Drains the ranking into a vector.
    pub fn collect(self) -> (r: Vec<(&'a str, S::Metric)>)
        requires
            self.wf(),
        ensures
            r@.len() == self.remaining().len(),
            forall|i: int| 0 <= i < r@.len() ==> (#[trigger] r@[i]).0@ == self.remaining()[i],
    {
        let mut it = self;
        let mut out: Vec<(&'a str, S::Metric)> = Vec::new();
        loop
            invariant
                it.wf(),
                out@.len() + it.remaining().len() == self.remaining().len(),
                forall|i: int| 0 <= i < out@.len() ==> (#[trigger] out@[i]).0@ == self.remaining()[i],
                forall|i: int| 0 <= i < it.remaining().len() ==>
                    #[trigger] it.remaining()[i] == self.remaining()[out@.len() + i],
            decreases it.remaining().len(),
        {
            let ghost before = it.remaining();
            match it.next() {
                Some(p) => {
                    out.push(p);
                    assert forall|i: int| 0 <= i < it.remaining().len() implies
                        #[trigger] it.remaining()[i] == self.remaining()[out@.len() + i] by {
                        assert(it.remaining()[i] == before[i + 1]);
                    }
                },
                None => {
                    return out;
                },
            }
        }
    }
}

impl WordleGame {
    /// Suggested next guesses: at most `RANKING_CAP` candidates, in corpus
    /// order, with the placeholder metric.
    pub fn iter_best_next_guess<'a>(&'a self) -> (r: BestNextGuessIterator<'a>)
        ensures
            r.wf(),
            r.remaining() == first_n(candidates(self@), RANKING_CAP as int),
    {
        BestNextGuessIterator::new(self.iter_corpus(), PlaceholderScorer)
    }

    /// Suggested next guesses, scored by `scorer`.
    pub fn iter_scored_guesses<'a, S: GuessScorer>(&'a self, scorer: S) -> (r: BestNextGuessIterator<'a, S>)
        ensures
            r.wf(),
            r.remaining() == first_n(candidates(self@), RANKING_CAP as int),
    {
        BestNextGuessIterator::new(self.iter_corpus(), scorer)
    }
}

} // verus!
