use vstd::prelude::*;
use vstd::string::StrSliceExecFns;

use crate::game::string_views;

verus! {

/// What `str::trim` leaves of a string.
pub uninterp spec fn trim_of(s: Seq<char>) -> Seq<char>;

/// What `str::to_lowercase` makes of a string.
pub uninterp spec fn lower_of(s: Seq<char>) -> Seq<char>;

/// Relies on `str::trim`: the result depends on the characters alone.
#[verifier::external_body]
fn trimmed(s: &str) -> (r: &str)
    ensures
        r@ == trim_of(s@),
{
    s.trim()
}

/// Relies on `str::to_lowercase`: the result depends on the characters alone.
#[verifier::external_body]
fn lowercased(s: &str) -> (r: String)
    ensures
        r@ == lower_of(s@),
{
    s.to_lowercase()
}

/// A corpus line as the game compares it: without surrounding whitespace and
/// in lower case.
pub open spec fn normalized(line: Seq<char>) -> Seq<char> {
    lower_of(trim_of(line))
}

/// The words of `words` that have exactly `length` characters, in order.
pub open spec fn of_length(words: Seq<Seq<char>>, length: nat) -> Seq<Seq<char>> {
    words.filter(|w: Seq<char>| w.len() == length)
}

pub fn normalize_line(line: &str) -> (r: String)
    ensures
        r@ == normalized(line@),
{
    lowercased(trimmed(line))
}

/// Keeps the words that have exactly `length` characters, in order.
pub fn keep_words_of_length(words: &Vec<String>, length: usize) -> (r: Vec<String>)
    ensures
        string_views(r@) == of_length(string_views(words@), length as nat),
{
    let ghost all = string_views(words@);
    let mut out: Vec<String> = Vec::new();
    let n = words.len();
    let mut i: usize = 0;
    while i < n
        invariant
            n == all.len(),
            all == string_views(words@),
            i <= n,
            string_views(out@) == of_length(all.take(i as int), length as nat),
        decreases n - i,
    {
        let w = words[i].clone();
        assert(w@ == all[i as int]);
        let ghost before = out@;
        if w.as_str().unicode_len() == length {
            out.push(w);
        }
        proof {
            let pred = |v: Seq<char>| v.len() == length as nat;
            assert(all.take(i + 1) =~= all.take(i as int).push(all[i as int]));
            all.take(i as int).lemma_filter_push(all[i as int], pred);
            assert(string_views(out@) =~= of_length(all.take(i + 1), length as nat));
        }
        i += 1;
    }
    assert(all.take(n as int) =~= all);
    out
}

/// The corpus from the lines of a word list: each line normalized, and only
/// the words of exactly `length` characters kept, in order.
pub fn select_corpus(lines: Vec<String>, length: usize) -> (r: Vec<String>)
    ensures
        string_views(r@) == of_length(string_views(lines@).map_values(|l: Seq<char>| normalized(l)), length as nat),
{
    let mut words: Vec<String> = Vec::new();
    let n = lines.len();
    let mut i: usize = 0;
    while i < n
        invariant
            n == lines@.len(),
            i <= n,
            words@.len() == i,
            forall|k: int| 0 <= k < i ==> #[trigger] words@[k]@ == normalized(lines@[k]@),
        decreases n - i,
    {
        words.push(normalize_line(lines[i].as_str()));
        i += 1;
    }
    assert(string_views(words@) =~= string_views(lines@).map_values(|l: Seq<char>| normalized(l)));
    keep_words_of_length(&words, length)
}

} // verus!
