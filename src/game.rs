use vstd::prelude::*;

use crate::line::{line_satisfied, WordleCharStatus, WordleLine};
use vstd::string::StrSliceExecFns;

verus! {

/// The abstract state of a game: the corpus, the accepted guess lines, the
/// excluded words and the two fixed bounds.
pub struct GameModel {
    pub corpus: Seq<Seq<char>>,
    pub lines: Seq<Seq<(char, WordleCharStatus)>>,
    pub excluded: Seq<Seq<char>>,
    pub word_length: usize,
    pub attempts: usize,
}

/// The invariant every reachable game state keeps.
pub open spec fn model_wf(m: GameModel) -> bool {
    &&& m.lines.len() <= m.attempts
    &&& forall|i: int| 0 <= i < m.lines.len() ==> (#[trigger] m.lines[i]).len() == m.word_length
    &&& forall|i: int| 0 <= i < m.excluded.len() ==> (#[trigger] m.excluded[i]).len() == m.word_length
    &&& m.excluded.no_duplicates()
}

/// What `add_guess` does: the new state, or the error that leaves the state as it was.
/// The attempt ceiling is checked before the length.
pub open spec fn after_guess(m: GameModel, line: Seq<(char, WordleCharStatus)>) -> Result<GameModel, AddGuessErrorVariant> {
    if m.lines.len() >= m.attempts {
        Err(AddGuessErrorVariant::NoMoreAttempts { total_attempts: m.attempts })
    } else if line.len() != m.word_length {
        Err(AddGuessErrorVariant::WordLength { expected_length: m.word_length })
    } else {
        Ok(GameModel { lines: m.lines.push(line), ..m })
    }
}

/// What `exclude` does: the new state, or the error that leaves the state as it was.
/// A word already excluded is reported before its length is looked at.
pub open spec fn after_exclude(m: GameModel, word: Seq<char>) -> Result<GameModel, ExcludeWordError> {
    if m.excluded.contains(word) {
        Err(ExcludeWordError::AlreadyExcluded)
    } else if word.len() != m.word_length {
        Err(ExcludeWordError::InvalidLength { expected_length: m.word_length })
    } else {
        Ok(GameModel { excluded: m.excluded.push(word), ..m })
    }
}

/// A word is a candidate when it satisfies every accepted line and is not excluded.
pub open spec fn is_candidate(m: GameModel, word: Seq<char>) -> bool {
    &&& forall|k: int| 0 <= k < m.lines.len() ==> line_satisfied(#[trigger] m.lines[k], word)
    &&& !m.excluded.contains(word)
}

/// The candidates among `words`, in their order.
pub open spec fn candidates_in(m: GameModel, words: Seq<Seq<char>>) -> Seq<Seq<char>>
    decreases words.len(),
{
    if words.len() == 0 {
        Seq::empty()
    } else {
        let rest = candidates_in(m, words.drop_first());
        if is_candidate(m, words[0]) {
            seq![words[0]] + rest
        } else {
            rest
        }
    }
}

/// The candidates of the whole corpus, in corpus order.
pub open spec fn candidates(m: GameModel) -> Seq<Seq<char>> {
    candidates_in(m, m.corpus)
}

/// Error of `exclude`.
#[derive(Debug, Clone, Copy, PartialEq, Eq, Structural)]
pub enum ExcludeWordError {
    InvalidLength { expected_length: usize },
    AlreadyExcluded,
}

/// Which way `add_guess` failed.
#[derive(Debug, Clone, Copy, PartialEq, Eq, Structural)]
pub enum AddGuessErrorVariant {
    WordLength { expected_length: usize },
    NoMoreAttempts { total_attempts: usize },
}

/// Error of `add_guess`; it hands the refused line back to the caller.
#[derive(Debug, PartialEq)]
pub struct AddGuessError {
    pub guess: WordleLine,
    pub error: AddGuessErrorVariant,
}

impl AddGuessError {
    /// A short message for the error.
    pub fn message(&self) -> (r: &'static str)
        ensures
            self.error is WordLength ==> r@ == "Invalid guess length"@,
            self.error is NoMoreAttempts ==> r@ == "No more attempts"@,
    {
        match self.error {
            AddGuessErrorVariant::WordLength { .. } => "Invalid guess length",
            AddGuessErrorVariant::NoMoreAttempts { .. } => "No more attempts",
        }
    }
}

/// Whether two strings hold the same characters.
pub fn same_chars(a: &str, b: &str) -> (r: bool)
    ensures
        r == (a@ == b@),
{
    let n = a.unicode_len();
    if n != b.unicode_len() {
        return false;
    }
    let mut i: usize = 0;
    while i < n
        invariant
            n == a@.len(),
            n == b@.len(),
            i <= n,
            forall|j: int| 0 <= j < i ==> a@[j] == b@[j],
        decreases n - i,
    {
        if a.get_char(i) != b.get_char(i) {
            return false;
        }
        i += 1;
    }
    assert(a@ =~= b@);
    true
}

/// The state of one puzzle session.
pub struct WordleGame {
    lines: Vec<WordleLine>,
    word_length: usize,
    performed_guesses: usize,
    attempts: usize,
    corpus: Vec<String>,
    corpus_exclude: Vec<String>,
}

pub open spec fn string_views(v: Seq<String>) -> Seq<Seq<char>> {
    v.map_values(|s: String| s@)
}

pub open spec fn str_views(v: Seq<&str>) -> Seq<Seq<char>> {
    v.map_values(|w: &str| w@)
}

pub open spec fn line_views(v: Seq<WordleLine>) -> Seq<Seq<(char, WordleCharStatus)>> {
    v.map_values(|l: WordleLine| l@)
}

impl View for WordleGame {
    type V = GameModel;

    closed spec fn view(&self) -> GameModel {
        GameModel {
            corpus: string_views(self.corpus@),
            lines: line_views(self.lines@),
            excluded: string_views(self.corpus_exclude@),
            word_length: self.word_length,
            attempts: self.attempts,
        }
    }
}

impl WordleGame {
    /// The game's invariant; every public operation keeps it.
    pub closed spec fn wf(&self) -> bool {
        &&& model_wf(self@)
        &&& self.performed_guesses == self.lines@.len()
    }

    /// A fresh game over `corpus`, allowing `attempts` guesses of `word_length` letters.
    pub fn new(corpus: Vec<String>, attempts: usize, word_length: usize) -> (r: Self)
        ensures
            r.wf(),
            r@.corpus == string_views(corpus@),
            r@.lines == Seq::<Seq<(char, WordleCharStatus)>>::empty(),
            r@.excluded == Seq::<Seq<char>>::empty(),
            r@.word_length == word_length,
            r@.attempts == attempts,
    {
        let r = WordleGame {
            corpus,
            lines: Vec::new(),
            word_length,
            performed_guesses: 0,
            attempts,
            corpus_exclude: Vec::new(),
        };
        assert(r@.lines =~= Seq::<Seq<(char, WordleCharStatus)>>::empty());
        assert(r@.excluded =~= Seq::<Seq<char>>::empty());
        r
    }

    /// Accepts one more guess line, or hands it back with the reason it was refused.
    pub fn add_guess(&mut self, guess: WordleLine) -> (r: Result<(), AddGuessError>)
        requires
            old(self).wf(),
        ensures
            final(self).wf(),
            match after_guess(old(self)@, guess@) {
                Ok(m) => r is Ok && final(self)@ == m,
                Err(e) => r matches Err(err) && err.error == e && err.guess == guess
                    && final(self)@ == old(self)@,
            },
    {
        if self.performed_guesses == self.attempts {
            Err(AddGuessError {
                guess,
                error: AddGuessErrorVariant::NoMoreAttempts { total_attempts: self.attempts },
            })
        } else if guess.len() != self.word_length {
            Err(AddGuessError {
                guess,
                error: AddGuessErrorVariant::WordLength { expected_length: self.word_length },
            })
        } else {
            let ghost pre = self@;
            self.lines.push(guess);
            self.performed_guesses += 1;
            assert(self@.lines =~= pre.lines.push(guess@));
            assert(self@.excluded == pre.excluded);
            assert(self@.corpus == pre.corpus);
            Ok(())
        }
    }

    /// Whether `word` was excluded.
    pub fn is_excluded(&self, word: &str) -> (r: bool)
        ensures
            r == self@.excluded.contains(word@),
    {
        let n = self.corpus_exclude.len();
        let mut i: usize = 0;
        while i < n
            invariant
                n == self.corpus_exclude@.len(),
                i <= n,
                forall|j: int| 0 <= j < i ==> self.corpus_exclude@[j]@ != word@,
            decreases n - i,
        {
            if same_chars(self.corpus_exclude[i].as_str(), word) {
                assert(self@.excluded[i as int] == word@);
                return true;
            }
            i += 1;
        }
        assert forall|j: int| 0 <= j < self@.excluded.len() implies self@.excluded[j] != word@ by {
            assert(self.corpus_exclude@[j]@ != word@);
        }
        false
    }

    /// Removes `word` from the candidates for the rest of the session.
    pub fn exclude(&mut self, word: String) -> (r: Result<(), ExcludeWordError>)
        requires
            old(self).wf(),
        ensures
            final(self).wf(),
            match after_exclude(old(self)@, word@) {
                Ok(m) => r is Ok && final(self)@ == m,
                Err(e) => r == Err::<(), ExcludeWordError>(e) && final(self)@ == old(self)@,
            },
    {
        if self.is_excluded(word.as_str()) {
            Err(ExcludeWordError::AlreadyExcluded)
        } else if self.word_length == word.as_str().unicode_len() {
            let ghost pre = self@;
            self.corpus_exclude.push(word);
            assert(self@.excluded =~= pre.excluded.push(word@));
            assert(self@.lines == pre.lines);
            assert(self@.corpus == pre.corpus);
            Ok(())
        } else {
            Err(ExcludeWordError::InvalidLength { expected_length: self.word_length })
        }
    }

    /// How many guess lines were accepted.
    pub fn performed_guesses(&self) -> (r: usize)
        requires
            self.wf(),
        ensures
            r == self@.lines.len(),
    {
        self.performed_guesses
    }

    /// Whether `word` satisfies every accepted line.
    fn satisfies_all(&self, word: &str) -> (r: bool)
        ensures
            r == forall|k: int| 0 <= k < self@.lines.len() ==> line_satisfied(#[trigger] self@.lines[k], word@),
    {
        let n = self.lines.len();
        let mut k: usize = 0;
        while k < n
            invariant
                n == self.lines@.len(),
                k <= n,
                forall|j: int| 0 <= j < k ==> line_satisfied(#[trigger] self@.lines[j], word@),
            decreases n - k,
        {
            if !self.lines[k].satisfies(word) {
                assert(!line_satisfied(self@.lines[k as int], word@));
                return false;
            }
            k += 1;
        }
        true
    }

    /// Whether `word` is consistent with every accepted line and not excluded.
    pub fn is_candidate(&self, word: &str) -> (r: bool)
        ensures
            r == is_candidate(self@, word@),
    {
        self.satisfies_all(word) && !self.is_excluded(word)
    }

    /// A fresh scan of the corpus for the current candidates.
    pub fn iter_corpus<'game>(&'game self) -> (r: CorpusIterator<'game>)
        ensures
            r.remaining() == candidates(self@),
    {
        CorpusIterator::new(self)
    }

    fn corpus_len(&self) -> (r: usize)
        ensures
            r == self@.corpus.len(),
    {
        self.corpus.len()
    }

    fn corpus_word<'game>(&'game self, i: usize) -> (r: &'game str)
        requires
            i < self@.corpus.len(),
        ensures
            r@ == self@.corpus[i as int],
    {
        self.corpus[i].as_str()
    }
}

/// A forward scan of the corpus that yields the current candidates in corpus order.
pub struct CorpusIterator<'game> {
    game: &'game WordleGame,
    pos: usize,
}

impl<'game> CorpusIterator<'game> {
    /// The words this scan has still to yield.
    pub closed spec fn remaining(&self) -> Seq<Seq<char>> {
        let m = self.game@;
        if self.pos >= m.corpus.len() {
            Seq::empty()
        } else {
            candidates_in(m, m.corpus.subrange(self.pos as int, m.corpus.len() as int))
        }
    }

    /// A scan of `game`'s corpus from its first word.
    pub fn new(game: &'game WordleGame) -> (r: Self)
        ensures
            r.remaining() == candidates(game@),
    {
        let r = CorpusIterator { game, pos: 0 };
        assert(game@.corpus.subrange(0, game@.corpus.len() as int) =~= game@.corpus);
        r
    }

    /// The next candidate, if any.
    pub fn next(&mut self) -> (r: Option<&'game str>)
        ensures
            old(self).remaining().len() == 0 ==> r is None && final(self).remaining().len() == 0,
            old(self).remaining().len() > 0 ==> (r matches Some(w) && w@ == old(self).remaining()[0]
                && final(self).remaining() == old(self).remaining().drop_first()),
    {
        let game: &'game WordleGame = self.game;
        let n = game.corpus_len();
        while self.pos < n
            invariant
                self.game == old(self).game,
                game == self.game,
                n == game@.corpus.len(),
                self.remaining() == old(self).remaining(),
            decreases n - self.pos,
        {
            let ghost m = game@;
            let ghost rest = m.corpus.subrange(self.pos as int, n as int);
            let word = game.corpus_word(self.pos);
            assert(rest[0] == word@);
            assert(rest.drop_first() =~= m.corpus.subrange(self.pos + 1, n as int));
            let keep = game.is_candidate(word);
            assert(candidates_in(m, rest) == if is_candidate(m, rest[0]) {
                seq![rest[0]] + candidates_in(m, rest.drop_first())
            } else {
                candidates_in(m, rest.drop_first())
            });
            if self.pos + 1 == n {
                assert(candidates_in(m, rest.drop_first()) =~= Seq::<Seq<char>>::empty());
            }
            self.pos += 1;
            if keep {
                return Some(word);
            }
        }
        None
    }

    /// Drains the scan into a vector.
    pub fn collect(self) -> (r: Vec<&'game str>)
        ensures
            str_views(r@) == self.remaining(),
    {
        let mut it = self;
        let ghost all = it.remaining();
        assert(str_views(Seq::<&str>::empty()) =~= Seq::<Seq<char>>::empty());
        let mut out: Vec<&'game str> = Vec::new();
        loop
            invariant
                all == str_views(out@) + it.remaining(),
                all == self.remaining(),
            decreases it.remaining().len(),
        {
            let ghost before = it.remaining();
            match it.next() {
                Some(w) => {
                    out.push(w);
                    assert(before =~= seq![w@] + before.drop_first());
                    assert(all =~= str_views(out@) + it.remaining());
                },
                None => {
                    assert(str_views(out@) + it.remaining() =~= str_views(out@));

                    return out;
                },
            }
        }
    }
}

} // verus!
