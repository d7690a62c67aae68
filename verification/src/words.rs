//! Scanning free text for reserved words, and case-insensitive uniqueness
//! of contract names.

use vstd::prelude::*;
use vstd::string::StrSliceExecFns;
use crate::ident::{is_reserved, is_reserved_word, str_eq};
use crate::validate::views_of;

verus! {

/// A character that a word may consist of: an ASCII letter, an ASCII digit
/// or an underscore. The scan is ASCII-only: any other character, accented
/// letters included, separates words.
pub open spec fn word_char(c: char) -> bool {
    ('a' as u32 <= c as u32 && c as u32 <= 'z' as u32) || ('A' as u32 <= c as u32 && c as u32
        <= 'Z' as u32) || ('0' as u32 <= c as u32 && c as u32 <= '9' as u32) || c == '_'
}

fn is_word_char(c: char) -> (r: bool)
    ensures
        r == word_char(c),
{
    let u = c as u32;
    (97 <= u && u <= 122) || (65 <= u && u <= 90) || (48 <= u && u <= 57) || c == '_'
}

/// The position where the word starting at `i` ends: the first position at
/// or after `i` that is past the end or holds no word character.
pub open spec fn word_end(s: Seq<char>, i: int) -> int
    decreases s.len() - i when 0 <= i <= s.len()
{
    if i >= s.len() || !word_char(s[i]) {
        i
    } else {
        word_end(s, i + 1)
    }
}

/// The end of a word lies between its start and the text's end; every
/// character before it is a word character, and the character at it, where
/// there is one, is not.
pub proof fn lemma_word_end(s: Seq<char>, i: int)
    requires
        0 <= i <= s.len(),
    ensures
        i <= word_end(s, i) <= s.len(),
        forall|j: int| i <= j < word_end(s, i) ==> word_char(s[j]),
        word_end(s, i) == s.len() || !word_char(s[word_end(s, i)]),
    decreases s.len() - i,
{
    if i < s.len() && word_char(s[i]) {
        lemma_word_end(s, i + 1);
    }
}

/// Any position with the properties of a word end is the word end.
pub proof fn lemma_word_end_unique(s: Seq<char>, i: int, e: int)
    requires
        0 <= i <= e <= s.len(),
        forall|j: int| i <= j < e ==> word_char(s[j]),
        e == s.len() || !word_char(s[e]),
    ensures
        word_end(s, i) == e,
    decreases e - i,
{
    if i < e {
        lemma_word_end_unique(s, i + 1, e);
    }
}

#[via_fn]
proof fn flagged_from_decreases(s: Seq<char>, i: int) {
    lemma_word_end(s, i);
}

/// The reserved words among the words of a text from position `i` on, in
/// order of appearance, occurrences kept: a word is a maximal run of word
/// characters.
pub open spec fn flagged_from(s: Seq<char>, i: int) -> Seq<Seq<char>>
    decreases s.len() - i when 0 <= i <= s.len() via flagged_from_decreases
{
    if i >= s.len() {
        Seq::empty()
    } else if !word_char(s[i]) {
        flagged_from(s, i + 1)
    } else {
        let w = s.subrange(i, word_end(s, i));
        (if is_reserved(w) {
            seq![w]
        } else {
            Seq::empty()
        }) + flagged_from(s, word_end(s, i))
    }
}

/// The reserved words among the words of a text, in order of appearance.
pub open spec fn flagged_words(s: Seq<char>) -> Seq<Seq<char>> {
    flagged_from(s, 0)
}

/// Scans free text for reserved words: every maximal run of ASCII word
/// characters is a word, and each occurrence of a reserved one is reported,
/// in order. A non-ASCII character ends the word it stands in.
pub fn check_reserved_words(input_string: &str) -> (r: Vec<String>)
    ensures
        views_of(r@) == flagged_words(input_string@),
{
    let n = input_string.unicode_len();
    let mut flagged: Vec<String> = Vec::new();
    let mut i: usize = 0;
    proof {
        assert(views_of(flagged@) =~= Seq::<Seq<char>>::empty());
    }
    while i < n
        invariant
            0 <= i <= n,
            n == input_string@.len(),
            flagged_words(input_string@) == views_of(flagged@) + flagged_from(
                input_string@,
                i as int,
            ),
        decreases n - i,
    {
        let c = input_string.get_char(i);
        if !is_word_char(c) {
            i += 1;
        } else {
            let mut end: usize = i + 1;
            while end < n
                invariant_except_break
                    i < end <= n,
                    n == input_string@.len(),
                    forall|j: int| i <= j < end ==> word_char(input_string@[j]),
                ensures
                    i < end <= n,
                    n == input_string@.len(),
                    forall|j: int| i <= j < end ==> word_char(input_string@[j]),
                    end == n || !word_char(input_string@[end as int]),
                decreases n - end,
            {
                if !is_word_char(input_string.get_char(end)) {
                    break;
                }
                end += 1;
            }
            proof {
                lemma_word_end_unique(input_string@, i as int, end as int);
            }
            let word = input_string.substring_char(i, end);
            let ghost before = views_of(flagged@);
            let ghost w = input_string@.subrange(i as int, end as int);
            if is_reserved_word(word) {
                flagged.push(word.to_owned());
                proof {
                    assert(views_of(flagged@) =~= before.push(w));
                    assert(before + (seq![w] + flagged_from(input_string@, end as int))
                        =~= before.push(w) + flagged_from(input_string@, end as int));
                }
            }
            i = end;
        }
    }
    proof {
        assert(views_of(flagged@) + Seq::<Seq<char>>::empty() =~= views_of(flagged@));
    }
    flagged
}

/// The lower-case image of a string, named after `str::to_lowercase`.
pub uninterp spec fn lower_of(s: Seq<char>) -> Seq<char>;

/// Relies on str::to_lowercase: the result depends on the characters alone.
#[verifier::external_body]
fn lowercase(s: &str) -> (r: String)
    ensures
        r@ == lower_of(s@),
{
    s.to_lowercase()
}

/// Contract names are unique when no two of them agree after
/// lower-casing.
pub open spec fn contract_names_unique(names: Seq<Seq<char>>) -> bool {
    forall|i: int, j: int| 0 <= i < j < names.len() ==> lower_of(names[i]) != lower_of(names[j])
}

/// Decides whether contract names are unique without regard to case.
pub fn are_contract_names_unique(contract_names: &Vec<String>) -> (r: bool)
    ensures
        r == contract_names_unique(views_of(contract_names@)),
{
    let ghost all = views_of(contract_names@);
    let mut seen: Vec<String> = Vec::new();
    let mut i: usize = 0;
    while i < contract_names.len()
        invariant
            i <= contract_names@.len(),
            all == views_of(contract_names@),
            all.len() == contract_names@.len(),
            seen@.len() == i,
            forall|m: int| 0 <= m < i ==> seen@[m]@ == lower_of(all[m]),
            forall|m: int, j: int| 0 <= m < j < i ==> lower_of(all[m]) != lower_of(all[j]),
        decreases contract_names@.len() - i,
    {
        let lowercase_name = lowercase(contract_names[i].as_str());
        proof {
            assert(all[i as int] == contract_names@[i as int]@);
        }
        let mut j: usize = 0;
        while j < seen.len()
            invariant
                j <= seen@.len(),
                i < contract_names@.len(),
                all == views_of(contract_names@),
                all.len() == contract_names@.len(),
                seen@.len() == i,
                lowercase_name@ == lower_of(all[i as int]),
                forall|m: int| 0 <= m < i ==> seen@[m]@ == lower_of(all[m]),
                forall|m: int| 0 <= m < j ==> lower_of(all[m]) != lower_of(all[i as int]),
            decreases seen@.len() - j,
        {
            if str_eq(seen[j].as_str(), lowercase_name.as_str()) {
                proof {
                    assert(lower_of(all[j as int]) == lower_of(all[i as int]));
                }
                return false;
            }
            j += 1;
        }
        seen.push(lowercase_name);
        i += 1;
    }
    true
}

} // verus!
