use vstd::prelude::*;

use crate::game::{
    after_exclude, after_guess, candidates, AddGuessError, CorpusIterator, ExcludeWordError,
    GameModel, WordleGame, string_views,
};
use crate::line::{WordleCharStatus, WordleLine};
use crate::ranking::{first_n, BestNextGuessIterator, RANKING_CAP};

verus! {

/// A game whose word length is part of its type and whose guesses are not
/// capped by a number of attempts (only by the range of `usize`).
pub struct NaiveSolver<const WORD_LENGTH: usize> {
    game: WordleGame,
}

impl<const WORD_LENGTH: usize> View for NaiveSolver<WORD_LENGTH> {
    type V = GameModel;

    closed spec fn view(&self) -> GameModel {
        self.game@
    }
}

impl<const WORD_LENGTH: usize> NaiveSolver<WORD_LENGTH> {
    pub closed spec fn wf(&self) -> bool {
        &&& self.game.wf()
        &&& self.game@.word_length == WORD_LENGTH
        &&& self.game@.attempts == usize::MAX
    }

    pub fn new(corpus: Vec<String>) -> (r: Self)
        ensures
            r.wf(),
            r@.corpus == string_views(corpus@),
            r@.lines == Seq::<Seq<(char, WordleCharStatus)>>::empty(),
            r@.excluded == Seq::<Seq<char>>::empty(),
            r@.word_length == WORD_LENGTH,
            r@.attempts == usize::MAX,
    {
        NaiveSolver { game: WordleGame::new(corpus, usize::MAX, WORD_LENGTH) }
    }

    pub fn iter_corpus<'game>(&'game self) -> (r: CorpusIterator<'game>)
        ensures
            r.remaining() == candidates(self@),
    {
        self.game.iter_corpus()
    }

    pub fn add_guess(&mut self, guess: WordleLine) -> (r: Result<(), AddGuessError>)
        requires
            old(self).wf(),
        ensures
            final(self).wf(),
            match after_guess(old(self)@, guess@) {
                Ok(m) => r is Ok && final(self)@ == m,
                Err(e) => r matches Err(err) && err.error == e && err.guess == guess
                    && final(self)@ == old(self)@,
            },
    {
        self.game.add_guess(guess)
    }

    pub fn is_excluded(&self, word: &str) -> (r: bool)
        ensures
            r == self@.excluded.contains(word@),
    {
        self.game.is_excluded(word)
    }

    pub fn exclude(&mut self, word: String) -> (r: Result<(), ExcludeWordError>)
        requires
            old(self).wf(),
        ensures
            final(self).wf(),
            match after_exclude(old(self)@, word@) {
                Ok(m) => r is Ok && final(self)@ == m,
                Err(e) => r == Err::<(), ExcludeWordError>(e) && final(self)@ == old(self)@,
            },
    {
        self.game.exclude(word)
    }

    pub fn performed_guesses(&self) -> (r: usize)
        requires
            self.wf(),
        ensures
            r == self@.lines.len(),
    {
        self.game.performed_guesses()
    }

    /// Suggested next guesses: at most `RANKING_CAP` candidates, in corpus order.
    pub fn iter_best_next_guess<'a>(&'a self) -> (r: BestNextGuessIterator<'a>)
        ensures
            r.wf(),
            r.remaining() == first_n(candidates(self@), RANKING_CAP as int),
    {
        self.game.iter_best_next_guess()
    }
}

} // verus!
