use vstd::prelude::*;

use crate::game::{
    after_exclude, after_guess, candidates, candidates_in, is_candidate, AddGuessErrorVariant,
    ExcludeWordError, GameModel,
};
use crate::line::WordleCharStatus;

verus! {

/// The state after submitting `lines` one by one with `add_guess`, or `None`
/// as soon as one of them is refused.
pub open spec fn after_guesses(m: GameModel, lines: Seq<Seq<(char, WordleCharStatus)>>) -> Option<GameModel>
    decreases lines.len(),
{
    if lines.len() == 0 {
        Some(m)
    } else {
        match after_guess(m, lines[0]) {
            Ok(next) => after_guesses(next, lines.drop_first()),
            Err(_) => None,
        }
    }
}

/// A word is among the candidates of `words` exactly when it is one of them
/// and a candidate.
pub proof fn lemma_candidates_in_contains(m: GameModel, words: Seq<Seq<char>>, w: Seq<char>)
    ensures
        candidates_in(m, words).contains(w) <==> (words.contains(w) && is_candidate(m, w)),
    decreases words.len(),
{
    if words.len() > 0 {
        lemma_candidates_in_contains(m, words.drop_first(), w);
        let rest = candidates_in(m, words.drop_first());
        if is_candidate(m, words[0]) {
            assert((seq![words[0]] + rest)[0] == words[0]);
            if rest.contains(w) {
                let j = choose|j: int| 0 <= j < rest.len() && rest[j] == w;
                assert((seq![words[0]] + rest)[j + 1] == w);
            }
            if (seq![words[0]] + rest).contains(w) {
                let j = choose|j: int| 0 <= j < rest.len() + 1 && (seq![words[0]] + rest)[j] == w;
                if j > 0 {
                    assert(rest[j - 1] == w);
                }
            }
        }
        if words.contains(w) {
            let j = choose|j: int| 0 <= j < words.len() && words[j] == w;
            if j > 0 {
                assert(words.drop_first()[j - 1] == w);
            }
        }
        if words.drop_first().contains(w) {
            let j = choose|j: int| 0 <= j < words.len() - 1 && words.drop_first()[j] == w;
            assert(words[j + 1] == w);
        }
    }
}

/// Accepting one more guess line never adds a candidate: the candidates after
/// it are among the candidates before it.
pub proof fn lemma_guess_narrows_candidates(m: GameModel, line: Seq<(char, WordleCharStatus)>, w: Seq<char>)
    requires
        after_guess(m, line) is Ok,
        candidates(after_guess(m, line)->Ok_0).contains(w),
    ensures
        candidates(m).contains(w),
{
    let next = after_guess(m, line)->Ok_0;
    lemma_candidates_in_contains(next, next.corpus, w);
    lemma_candidates_in_contains(m, m.corpus, w);
    assert forall|k: int| 0 <= k < m.lines.len() implies crate::line::line_satisfied(#[trigger] m.lines[k], w) by {
        assert(next.lines[k] == m.lines[k]);
    }
}

/// Excluding a word never adds a candidate either.
pub proof fn lemma_exclude_narrows_candidates(m: GameModel, word: Seq<char>, w: Seq<char>)
    requires
        after_exclude(m, word) is Ok,
        candidates(after_exclude(m, word)->Ok_0).contains(w),
    ensures
        candidates(m).contains(w),
        w != word,
{
    let next = after_exclude(m, word)->Ok_0;
    lemma_candidates_in_contains(next, next.corpus, w);
    lemma_candidates_in_contains(m, m.corpus, w);
    assert(next.excluded[next.excluded.len() - 1] == word);
    if m.excluded.contains(w) {
        let j = choose|j: int| 0 <= j < m.excluded.len() && m.excluded[j] == w;
        assert(next.excluded[j] == w);
    }
}

/// Lines of the game's word length are all accepted while attempts remain,
/// and are appended in order.
pub proof fn lemma_guesses_accepted(m: GameModel, lines: Seq<Seq<(char, WordleCharStatus)>>)
    requires
        m.lines.len() + lines.len() <= m.attempts,
        forall|i: int| 0 <= i < lines.len() ==> (#[trigger] lines[i]).len() == m.word_length,
    ensures
        after_guesses(m, lines) == Some(GameModel { lines: m.lines + lines, ..m }),
    decreases lines.len(),
{
    if lines.len() == 0 {
        assert(m.lines + lines =~= m.lines);
    } else {
        let next = GameModel { lines: m.lines.push(lines[0]), ..m };
        assert(after_guess(m, lines[0]) == Ok::<GameModel, AddGuessErrorVariant>(next));
        assert forall|i: int| 0 <= i < lines.drop_first().len() implies
            (#[trigger] lines.drop_first()[i]).len() == next.word_length by {
            assert(lines.drop_first()[i] == lines[i + 1]);
        }
        lemma_guesses_accepted(next, lines.drop_first());
        assert(next.lines + lines.drop_first() =~= m.lines + lines);
    }
}

/// On a fresh game, `attempts` guesses of the right length are all accepted,
/// and the guess after them is refused with `NoMoreAttempts`, which leaves the
/// state as it was.
pub proof fn lemma_attempt_ceiling(
    m: GameModel,
    lines: Seq<Seq<(char, WordleCharStatus)>>,
    extra: Seq<(char, WordleCharStatus)>,
)
    requires
        m.lines.len() == 0,
        lines.len() == m.attempts,
        forall|i: int| 0 <= i < lines.len() ==> (#[trigger] lines[i]).len() == m.word_length,
    ensures
        after_guesses(m, lines) is Some,
        after_guesses(m, lines)->Some_0.lines.len() == m.attempts,
        after_guess(after_guesses(m, lines)->Some_0, extra) == Err::<GameModel, AddGuessErrorVariant>(
            AddGuessErrorVariant::NoMoreAttempts { total_attempts: m.attempts },
        ),
{
    lemma_guesses_accepted(m, lines);
}

/// Excluding the same word a second time, after it was excluded once, fails
/// with `AlreadyExcluded`; each successful exclusion adds exactly one word.
pub proof fn lemma_exclude_twice(m: GameModel, word: Seq<char>)
    requires
        after_exclude(m, word) is Ok,
    ensures
        after_exclude(m, word)->Ok_0.excluded.len() == m.excluded.len() + 1,
        after_exclude(after_exclude(m, word)->Ok_0, word) == Err::<GameModel, ExcludeWordError>(
            ExcludeWordError::AlreadyExcluded,
        ),
{
    let next = after_exclude(m, word)->Ok_0;
    assert(next.excluded[m.excluded.len() as int] == word);
}

} // verus!
