//! Fuzzy matching of a filter pattern against a torrent name.

use crate::input::chars_of;
use fuzzy_matcher::skim::SkimMatcherV2;
use fuzzy_matcher::FuzzyMatcher;
use vstd::prelude::*;
use vstd::string::StrSliceExecFns;

verus! {

/// Longest pattern or name, in characters, that is handed to the matcher.
/// A longer text is matched by a plain scan of its characters.
pub const MAX_MATCH_CHARS: usize = 1_000_000;

/// The lower-case form of an ASCII letter; any other character is unchanged.
pub open spec fn ascii_lower(c: char) -> char {
    if 'A' <= c && c <= 'Z' {
        ((c as u32) + 32) as char
    } else {
        c
    }
}

/// Two characters are equal up to ASCII case.
pub open spec fn chars_match(a: char, b: char) -> bool {
    ascii_lower(a) == ascii_lower(b)
}

/// `pattern` occurs in `choice` as an ordered, not necessarily contiguous,
/// subsequence, comparing characters up to ASCII case. The empty pattern
/// occurs in every text. The text is scanned once and each character of the
/// pattern is taken at its first chance; that this finds a placement
/// whenever there is one is shown by [`lemma_fuzzy_match_is_subsequence`].
pub open spec fn fuzzy_matches(pattern: Seq<char>, choice: Seq<char>) -> bool
    decreases choice.len(),
{
    if pattern.len() == 0 {
        true
    } else if choice.len() == 0 {
        false
    } else if chars_match(choice[0], pattern[0]) {
        fuzzy_matches(pattern.skip(1), choice.skip(1))
    } else {
        fuzzy_matches(pattern, choice.skip(1))
    }
}

/// `at` places `pattern` in `choice`: it gives each character of the pattern
/// a position in the text that holds the same character up to ASCII case,
/// and the positions increase along the pattern.
pub open spec fn embeds(pattern: Seq<char>, choice: Seq<char>, at: Seq<int>) -> bool {
    &&& at.len() == pattern.len()
    &&& forall|k: int|
        0 <= k < at.len() ==> 0 <= #[trigger] at[k] < choice.len() && chars_match(
            choice[at[k]],
            pattern[k],
        )
    &&& forall|j: int, k: int| 0 <= j < k < at.len() ==> at[j] < at[k]
}

/// A match comes with a placement of the pattern in the text.
pub proof fn lemma_match_gives_embedding(pattern: Seq<char>, choice: Seq<char>) -> (at: Seq<int>)
    requires
        fuzzy_matches(pattern, choice),
    ensures
        embeds(pattern, choice, at),
    decreases choice.len(),
{
    if pattern.len() == 0 {
        Seq::empty()
    } else if chars_match(choice[0], pattern[0]) {
        let rest = lemma_match_gives_embedding(pattern.skip(1), choice.skip(1));
        let at = Seq::new(pattern.len(), |k: int| if k == 0 { 0 } else { rest[k - 1] + 1 });
        assert forall|k: int| 0 <= k < at.len() implies 0 <= #[trigger] at[k] < choice.len()
            && chars_match(choice[at[k]], pattern[k]) by {
            if k > 0 {
                assert(0 <= rest[k - 1] < choice.skip(1).len());
                assert(choice.skip(1)[rest[k - 1]] == choice[at[k]]);
                assert(pattern.skip(1)[k - 1] == pattern[k]);
            }
        }
        assert forall|j: int, k: int| 0 <= j < k < at.len() implies at[j] < at[k] by {
            assert(0 <= rest[k - 1]);
            if j > 0 {
                assert(rest[j - 1] < rest[k - 1]);
            }
        }
        at
    } else {
        let rest = lemma_match_gives_embedding(pattern, choice.skip(1));
        let at = Seq::new(pattern.len(), |k: int| rest[k] + 1);
        assert forall|k: int| 0 <= k < at.len() implies 0 <= #[trigger] at[k] < choice.len()
            && chars_match(choice[at[k]], pattern[k]) by {
            assert(0 <= rest[k] < choice.skip(1).len());
            assert(choice.skip(1)[rest[k]] == choice[at[k]]);
        }
        assert forall|j: int, k: int| 0 <= j < k < at.len() implies at[j] < at[k] by {
            assert(rest[j] < rest[k]);
        }
        at
    }
}

/// A placement of the pattern in the text makes a match.
pub proof fn lemma_embedding_gives_match(pattern: Seq<char>, choice: Seq<char>, at: Seq<int>)
    requires
        embeds(pattern, choice, at),
    ensures
        fuzzy_matches(pattern, choice),
    decreases choice.len(),
{
    if pattern.len() > 0 {
        assert(0 <= at[0] < choice.len());
        if chars_match(choice[0], pattern[0]) {
            let rest = Seq::new((at.len() - 1) as nat, |k: int| at[k + 1] - 1);
            assert forall|k: int| 0 <= k < rest.len() implies 0 <= #[trigger] rest[k]
                < choice.skip(1).len() && chars_match(
                choice.skip(1)[rest[k]],
                pattern.skip(1)[k],
            ) by {
                assert(at[0] < at[k + 1]);
                assert(0 <= at[k + 1] < choice.len());
                assert(choice.skip(1)[rest[k]] == choice[at[k + 1]]);
                assert(pattern.skip(1)[k] == pattern[k + 1]);
            }
            assert forall|j: int, k: int| 0 <= j < k < rest.len() implies rest[j] < rest[k] by {
                assert(at[j + 1] < at[k + 1]);
            }
            lemma_embedding_gives_match(pattern.skip(1), choice.skip(1), rest);
        } else {
            let rest = Seq::new(at.len(), |k: int| at[k] - 1);
            assert forall|k: int| 0 <= k < rest.len() implies 0 <= #[trigger] rest[k]
                < choice.skip(1).len() && chars_match(choice.skip(1)[rest[k]], pattern[k]) by {
                assert(0 <= at[k] < choice.len());
                if k > 0 {
                    assert(at[0] < at[k]);
                }
                assert(choice.skip(1)[rest[k]] == choice[at[k]]);
            }
            assert forall|j: int, k: int| 0 <= j < k < rest.len() implies rest[j] < rest[k] by {
                assert(at[j] < at[k]);
            }
            lemma_embedding_gives_match(pattern, choice.skip(1), rest);
        }
    }
}

/// The pattern matches exactly when it can be placed in the text, wherever
/// its characters fall.
pub proof fn lemma_fuzzy_match_is_subsequence(pattern: Seq<char>, choice: Seq<char>)
    ensures
        fuzzy_matches(pattern, choice) <==> exists|at: Seq<int>| embeds(pattern, choice, at),
{
    if fuzzy_matches(pattern, choice) {
        let at = lemma_match_gives_embedding(pattern, choice);
        assert(embeds(pattern, choice, at));
    }
    if exists|at: Seq<int>| embeds(pattern, choice, at) {
        let at = choose|at: Seq<int>| embeds(pattern, choice, at);
        lemma_embedding_gives_match(pattern, choice, at);
    }
}

/// `SkimMatcherV2::fuzzy_match` of the `fuzzy-matcher` crate, on a matcher
/// set to ignore case. The call walks `choice` once, consuming the next
/// character of `pattern` whenever it equals the current one up to ASCII
/// case, and yields a score exactly when the whole pattern was consumed; an
/// empty pattern always scores. Nothing is claimed about the score itself.
/// The bounds keep the matcher's 32-bit score arithmetic away from overflow.
#[verifier::external_body]
fn skim_score(choice: &str, pattern: &str) -> (score: Option<i64>)
    requires
        choice@.len() <= MAX_MATCH_CHARS,
        pattern@.len() <= MAX_MATCH_CHARS,
    ensures
        score.is_some() == fuzzy_matches(pattern@, choice@),
{
    SkimMatcherV2::default().ignore_case().fuzzy_match(choice, pattern)
}

/// Whether two characters are equal up to ASCII case.
fn chars_equal(a: char, b: char) -> (equal: bool)
    ensures
        equal == chars_match(a, b),
{
    let x = a as u32;
    let y = b as u32;
    let lower_x = if 65 <= x && x <= 90 {
        x + 32
    } else {
        x
    };
    let lower_y = if 65 <= y && y <= 90 {
        y + 32
    } else {
        y
    };
    lower_x == lower_y
}

/// Matches by scanning `choice` once, taking each character of `pattern` at
/// its first chance.
fn scan_matches(choice: &Vec<char>, pattern: &Vec<char>) -> (matched: bool)
    ensures
        matched == fuzzy_matches(pattern@, choice@),
{
    let mut i: usize = 0;
    let mut j: usize = 0;
    proof {
        assert(pattern@.skip(0) =~= pattern@);
        assert(choice@.skip(0) =~= choice@);
    }
    while i < choice.len() && j < pattern.len()
        invariant
            i <= choice.len(),
            j <= pattern.len(),
            fuzzy_matches(pattern@, choice@) == fuzzy_matches(
                pattern@.skip(j as int),
                choice@.skip(i as int),
            ),
        decreases choice.len() - i,
    {
        proof {
            assert(choice@.skip(i as int).skip(1) =~= choice@.skip(i + 1));
            assert(pattern@.skip(j as int).skip(1) =~= pattern@.skip(j + 1));
        }
        if chars_equal(choice[i], pattern[j]) {
            j += 1;
        }
        i += 1;
    }
    j == pattern.len()
}

/// Decides whether `pattern` matches `name`. Texts within
/// [`MAX_MATCH_CHARS`] go to the matcher; longer ones are scanned here.
pub fn name_matches(name: &str, pattern: &str) -> (accepted: bool)
    ensures
        accepted == fuzzy_matches(pattern@, name@),
{
    if pattern.unicode_len() > MAX_MATCH_CHARS || name.unicode_len() > MAX_MATCH_CHARS {
        scan_matches(&chars_of(name), &chars_of(pattern))
    } else {
        skim_score(name, pattern).is_some()
    }
}

} // verus!
