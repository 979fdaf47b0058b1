use vstd::prelude::*;
use vstd::string::StrSliceExecFns;

verus! {

/// Feedback for one letter of a guess.
#[derive(Debug, Clone, Copy, PartialEq, Eq, Structural)]
pub enum WordleCharStatus {
    /// The letter does not occur in the solution.
    Inexistent,
    /// The letter occurs in the solution, but not at this position.
    Existing,
    /// The letter is at this exact position in the solution.
    Good,
}

/// Positional rule: a `Good` letter must be at its position in the candidate,
/// any other letter must not be.
pub open spec fn position_ok(guessed: char, status: WordleCharStatus, c: char) -> bool {
    match status {
        WordleCharStatus::Good => c == guessed,
        _ => c != guessed,
    }
}

/// Global rule: an `Inexistent` letter must not occur in the candidate, an
/// `Existing` letter must occur somewhere in it.
pub open spec fn presence_ok(guessed: char, status: WordleCharStatus, word: Seq<char>) -> bool {
    match status {
        WordleCharStatus::Inexistent => !word.contains(guessed),
        WordleCharStatus::Existing => word.contains(guessed),
        WordleCharStatus::Good => true,
    }
}

/// A candidate word is consistent with a guess line when it has the line's
/// length and meets the positional and the global rule for every letter.
pub open spec fn line_satisfied(line: Seq<(char, WordleCharStatus)>, word: Seq<char>) -> bool {
    &&& word.len() == line.len()
    &&& forall|i: int| 0 <= i < line.len() ==> position_ok(line[i].0, line[i].1, #[trigger] word[i])
    &&& forall|i: int| 0 <= i < line.len() ==> presence_ok(#[trigger] line[i].0, line[i].1, word)
}

/// One guessed word with the feedback received for each of its letters.
#[derive(Debug, PartialEq, Eq)]
pub struct WordleLine {
    pub chars: Vec<(char, WordleCharStatus)>,
}

impl View for WordleLine {
    type V = Seq<(char, WordleCharStatus)>;

    open spec fn view(&self) -> Seq<(char, WordleCharStatus)> {
        self.chars@
    }
}

/// Whether `c` occurs anywhere in `word`.
pub fn contains_char(word: &str, c: char) -> (r: bool)
    ensures
        r == word@.contains(c),
{
    let n = word.unicode_len();
    let mut i: usize = 0;
    while i < n
        invariant
            n == word@.len(),
            i <= n,
            forall|j: int| 0 <= j < i ==> word@[j] != c,
        decreases n - i,
    {
        if word.get_char(i) == c {
            return true;
        }
        i += 1;
    }
    false
}

impl WordleLine {
    pub fn new(letters: Vec<(char, WordleCharStatus)>) -> (r: WordleLine)
        ensures
            r@ == letters@,
    {
        WordleLine { chars: letters }
    }

    pub fn len(&self) -> (r: usize)
        ensures
            r == self@.len(),
    {
        self.chars.len()
    }

    /// Whether `word` is still a possible solution after this feedback.
    pub fn satisfies(&self, word: &str) -> (r: bool)
        ensures
            r == line_satisfied(self@, word@),
            word@.len() != self@.len() ==> !r,
    {
        let n = word.unicode_len();
        if n != self.chars.len() {
            return false;
        }
        let mut i: usize = 0;
        while i < n
            invariant
                n == word@.len(),
                n == self@.len(),
                i <= n,
                forall|j: int| 0 <= j < i ==> position_ok(self@[j].0, self@[j].1, #[trigger] word@[j]),
            decreases n - i,
        {
            let c = word.get_char(i);
            let (guessed, status) = self.chars[i];
            let ok = match status {
                WordleCharStatus::Good => c == guessed,
                _ => c != guessed,
            };
            if !ok {
                return false;
            }
            i += 1;
        }
        let mut k: usize = 0;
        while k < n
            invariant
                n == word@.len(),
                n == self@.len(),
                k <= n,
                forall|j: int| 0 <= j < n ==> position_ok(self@[j].0, self@[j].1, #[trigger] word@[j]),
                forall|j: int| 0 <= j < k ==> presence_ok(#[trigger] self@[j].0, self@[j].1, word@),
            decreases n - k,
        {
            let (guessed, status) = self.chars[k];
            let ok = match status {
                WordleCharStatus::Inexistent => !contains_char(word, guessed),
                WordleCharStatus::Existing => contains_char(word, guessed),
                WordleCharStatus::Good => true,
            };
            if !ok {
                return false;
            }
            k += 1;
        }
        true
    }
}

} // verus!
