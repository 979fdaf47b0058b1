use vstd::prelude::*;
use vstd::string::StrSliceExecFns;

use crate::line::{WordleCharStatus, WordleLine};

verus! {

/// The feedback letter that one position of a typed word and its mask give:
/// `*` marks an absent letter, `?` a misplaced one, and the letter itself a
/// letter in place. Any other mask character gives nothing.
pub open spec fn encode_letter(ch: char, mask_ch: char) -> Seq<(char, WordleCharStatus)> {
    if mask_ch == '*' {
        seq![(ch, WordleCharStatus::Inexistent)]
    } else if mask_ch == '?' {
        seq![(ch, WordleCharStatus::Existing)]
    } else if mask_ch == ch {
        seq![(ch, WordleCharStatus::Good)]
    } else {
        Seq::empty()
    }
}

/// The feedback letters of the first `n` positions.
pub open spec fn encode_prefix(word: Seq<char>, mask: Seq<char>, n: int) -> Seq<(char, WordleCharStatus)>
    decreases n,
{
    if n <= 0 {
        Seq::empty()
    } else {
        encode_prefix(word, mask, n - 1) + encode_letter(word[n - 1], mask[n - 1])
    }
}

/// Builds the guess line for a typed word and its feedback mask. Positions
/// whose mask character is neither `*`, `?` nor the typed letter are dropped,
/// so the line may come out shorter than the word. Returns `None` when word
/// and mask differ in length.
pub fn parse_guess(word: &str, mask: &str) -> (r: Option<WordleLine>)
    ensures
        word@.len() != mask@.len() ==> r is None,
        word@.len() == mask@.len() ==> (r matches Some(l) && l@ == encode_prefix(word@, mask@, word@.len() as int)),
{
    let n = word.unicode_len();
    if n != mask.unicode_len() {
        return None;
    }
    let mut letters: Vec<(char, WordleCharStatus)> = Vec::new();
    let mut i: usize = 0;
    while i < n
        invariant
            n == word@.len(),
            n == mask@.len(),
            i <= n,
            letters@ == encode_prefix(word@, mask@, i as int),
        decreases n - i,
    {
        let ch = word.get_char(i);
        let mask_ch = mask.get_char(i);
        let ghost before = letters@;
        if mask_ch == '*' {
            letters.push((ch, WordleCharStatus::Inexistent));
        } else if mask_ch == '?' {
            letters.push((ch, WordleCharStatus::Existing));
        } else if mask_ch == ch {
            letters.push((ch, WordleCharStatus::Good));
        }
        assert(letters@ =~= before + encode_letter(ch, mask_ch));
        i += 1;
    }
    Some(WordleLine::new(letters))
}

} // verus!
