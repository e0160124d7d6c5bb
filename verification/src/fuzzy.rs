//! Case-insensitive subsequence matching.

use vstd::prelude::*;
use vstd::string::StringExecFns;
use vstd::utf8::is_ascii_chars;
use crate::text::chars_of;

verus! {

/// `positions` embeds `pattern` in `text`: one index into `text` for each
/// character of `pattern`, holding that character, the indices strictly
/// increasing.
pub open spec fn embeds(positions: Seq<int>, pattern: Seq<char>, text: Seq<char>) -> bool {
    &&& positions.len() == pattern.len()
    &&& forall|i: int|
        0 <= i < positions.len() ==> 0 <= #[trigger] positions[i] < text.len()
            && text[positions[i]] == pattern[i]
    &&& forall|i: int, j: int|
        0 <= i < j < positions.len() ==> #[trigger] positions[i] < #[trigger] positions[j]
}

/// The characters of `pattern` occur in `text` in the same order, not
/// necessarily next to each other.
pub open spec fn is_subsequence(pattern: Seq<char>, text: Seq<char>) -> bool {
    exists|positions: Seq<int>| embeds(positions, pattern, text)
}

/// The characters that `str::to_lowercase` returns for a string of the
/// characters `text`.
pub uninterp spec fn lowercase_of(text: Seq<char>) -> Seq<char>;

/// The small letter of a capital `A` to `Z`; any other character itself.
pub open spec fn ascii_lower(c: char) -> char {
    if 'A' <= c <= 'Z' {
        ((c as int) + 32) as char
    } else {
        c
    }
}

/// The capital of a small letter `a` to `z`; any other character itself.
pub open spec fn ascii_upper(c: char) -> char {
    if 'a' <= c <= 'z' {
        ((c as int) - 32) as char
    } else {
        c
    }
}

/// `text` with every capital `A` to `Z` replaced by its small letter.
pub open spec fn ascii_lowercase(text: Seq<char>) -> Seq<char> {
    text.map_values(|c: char| ascii_lower(c))
}

/// `text` with every small letter `a` to `z` replaced by its capital.
pub open spec fn ascii_uppercase(text: Seq<char>) -> Seq<char> {
    text.map_values(|c: char| ascii_upper(c))
}

/// The form in which texts are compared. For ASCII text it is the text
/// with its capitals replaced by small letters; for any other text it is
/// whatever the standard library's lowercase mapping makes of it.
pub open spec fn case_folded(text: Seq<char>) -> Seq<char> {
    if is_ascii_chars(text) {
        ascii_lowercase(text)
    } else {
        lowercase_of(text)
    }
}

/// What [`fuzzy_match`] decides: an empty pattern matches every text; any
/// other pattern matches where its folded form is a subsequence of the
/// text's folded form.
pub open spec fn fuzzy_matches(pattern: Seq<char>, text: Seq<char>) -> bool {
    pattern.len() == 0 || is_subsequence(case_folded(pattern), case_folded(text))
}

/// The empty pattern is a subsequence of every text.
pub proof fn lemma_empty_is_subsequence(text: Seq<char>)
    ensures
        is_subsequence(Seq::<char>::empty(), text),
{
    assert(embeds(Seq::<int>::empty(), Seq::<char>::empty(), text));
}

/// Nothing but the empty pattern is a subsequence of the empty text.
pub proof fn lemma_subsequence_of_empty(pattern: Seq<char>)
    requires
        pattern.len() > 0,
    ensures
        !is_subsequence(pattern, Seq::<char>::empty()),
{
    assert forall|positions: Seq<int>|
        !embeds(positions, pattern, Seq::<char>::empty()) by {
        if embeds(positions, pattern, Seq::<char>::empty()) {
            assert(positions[0] < Seq::<char>::empty().len());
        }
    }
}

/// Where pattern and text start with the same character, that character can
/// be matched at the start of the text: nothing is lost by consuming both.
pub proof fn lemma_subsequence_consume(pattern: Seq<char>, text: Seq<char>)
    requires
        pattern.len() > 0,
        text.len() > 0,
        pattern[0] == text[0],
    ensures
        is_subsequence(pattern, text) <==> is_subsequence(pattern.skip(1), text.skip(1)),
{
    if is_subsequence(pattern, text) {
        let e = choose|e: Seq<int>| embeds(e, pattern, text);
        let shifted = Seq::new((e.len() - 1) as nat, |i: int| e[i + 1] - 1);
        assert forall|i: int| 0 <= i < shifted.len() implies 0 <= #[trigger] shifted[i]
            < text.skip(1).len() && text.skip(1)[shifted[i]] == pattern.skip(1)[i] by {
            assert(e[0] < e[i + 1]);
        }
        assert forall|i: int, j: int| 0 <= i < j < shifted.len() implies #[trigger] shifted[i]
            < #[trigger] shifted[j] by {
            assert(e[i + 1] < e[j + 1]);
        }
        assert(embeds(shifted, pattern.skip(1), text.skip(1)));
    }
    if is_subsequence(pattern.skip(1), text.skip(1)) {
        let e = choose|e: Seq<int>| embeds(e, pattern.skip(1), text.skip(1));
        let grown = Seq::new(e.len() + 1, |i: int| if i == 0 { 0 } else { e[i - 1] + 1 });
        assert forall|i: int| 0 <= i < grown.len() implies 0 <= #[trigger] grown[i] < text.len()
            && text[grown[i]] == pattern[i] by {
            if i > 0 {
                assert(text.skip(1)[e[i - 1]] == pattern.skip(1)[i - 1]);
            }
        }
        assert forall|i: int, j: int| 0 <= i < j < grown.len() implies #[trigger] grown[i]
            < #[trigger] grown[j] by {
            if i > 0 {
                assert(e[i - 1] < e[j - 1]);
            } else {
                assert(0 <= e[j - 1]);
            }
        }
        assert(embeds(grown, pattern, text));
    }
}

/// Where pattern and text start with different characters, the first
/// character of the text takes no part in any embedding.
pub proof fn lemma_subsequence_skip(pattern: Seq<char>, text: Seq<char>)
    requires
        pattern.len() > 0,
        text.len() > 0,
        pattern[0] != text[0],
    ensures
        is_subsequence(pattern, text) <==> is_subsequence(pattern, text.skip(1)),
{
    if is_subsequence(pattern, text) {
        let e = choose|e: Seq<int>| embeds(e, pattern, text);
        let shifted = Seq::new(e.len(), |i: int| e[i] - 1);
        assert forall|i: int| 0 <= i < shifted.len() implies 0 <= #[trigger] shifted[i]
            < text.skip(1).len() && text.skip(1)[shifted[i]] == pattern[i] by {
            assert(text[e[0]] == pattern[0]);
            if i > 0 {
                assert(e[0] < e[i]);
            }
        }
        assert forall|i: int, j: int| 0 <= i < j < shifted.len() implies #[trigger] shifted[i]
            < #[trigger] shifted[j] by {
            assert(e[i] < e[j]);
        }
        assert(embeds(shifted, pattern, text.skip(1)));
    }
    if is_subsequence(pattern, text.skip(1)) {
        let e = choose|e: Seq<int>| embeds(e, pattern, text.skip(1));
        let grown = Seq::new(e.len(), |i: int| e[i] + 1);
        assert forall|i: int| 0 <= i < grown.len() implies 0 <= #[trigger] grown[i] < text.len()
            && text[grown[i]] == pattern[i] by {
            assert(text.skip(1)[e[i]] == pattern[i]);
        }
        assert forall|i: int, j: int| 0 <= i < j < grown.len() implies #[trigger] grown[i]
            < #[trigger] grown[j] by {
            assert(e[i] < e[j]);
        }
        assert(embeds(grown, pattern, text));
    }
}

/// Matching looks at the folded forms alone: two patterns with one folded
/// form, both empty or both not, match the same texts, and two texts with
/// one folded form are matched by the same patterns. [`same_lowercase`]
/// tests the two equalities.
pub proof fn lemma_match_ignores_case(
    pattern: Seq<char>,
    other_pattern: Seq<char>,
    text: Seq<char>,
    other_text: Seq<char>,
)
    requires
        case_folded(pattern) == case_folded(other_pattern),
        case_folded(text) == case_folded(other_text),
        pattern.len() == 0 <==> other_pattern.len() == 0,
    ensures
        fuzzy_matches(pattern, text) == fuzzy_matches(other_pattern, other_text),
{
}

/// Matching is the subsequence test on the folded forms, for the empty
/// pattern too.
pub proof fn lemma_match_is_folded_subsequence(pattern: Seq<char>, text: Seq<char>)
    ensures
        fuzzy_matches(pattern, text) == is_subsequence(case_folded(pattern), case_folded(text)),
{
    if pattern.len() == 0 {
        assert(case_folded(pattern) =~= Seq::<char>::empty());
        lemma_empty_is_subsequence(case_folded(text));
    }
}

/// For a pattern and a text that are their own folded forms, matching is
/// the subsequence test and nothing else. [`is_lowercase`] tests whether a
/// string is its own folded form; ASCII text without capitals always is.
pub proof fn lemma_match_is_subsequence(pattern: Seq<char>, text: Seq<char>)
    requires
        case_folded(pattern) == pattern,
        case_folded(text) == text,
    ensures
        fuzzy_matches(pattern, text) == is_subsequence(pattern, text),
{
    lemma_match_is_folded_subsequence(pattern, text);
}

/// ASCII text without capitals is its own folded form.
pub proof fn lemma_small_ascii_is_folded(text: Seq<char>)
    requires
        is_ascii_chars(text),
        forall|i: int| 0 <= i < text.len() ==> !('A' <= #[trigger] text[i] <= 'Z'),
    ensures
        case_folded(text) == text,
{
    assert(ascii_lowercase(text) =~= text);
}

/// Folding ASCII text takes no notice of the case it is written in: the
/// text in capitals and the text in small letters fold to what the text
/// itself folds to, and both are ASCII again.
pub proof fn lemma_ascii_fold_ignores_case(text: Seq<char>)
    requires
        is_ascii_chars(text),
    ensures
        is_ascii_chars(ascii_uppercase(text)),
        is_ascii_chars(ascii_lowercase(text)),
        case_folded(ascii_uppercase(text)) == case_folded(text),
        case_folded(ascii_lowercase(text)) == case_folded(text),
{
    let upper = ascii_uppercase(text);
    let lower = ascii_lowercase(text);
    assert forall|i: int| 0 <= i < text.len() implies '\0' <= #[trigger] upper[i] <= '\u{7f}'
        && '\0' <= #[trigger] lower[i] <= '\u{7f}' && ascii_lower(upper[i]) == lower[i]
        && ascii_lower(lower[i]) == lower[i] by {
        let c = text[i];
        assert('\0' <= c <= '\u{7f}');
        assert(upper[i] == ascii_upper(c));
        assert(lower[i] == ascii_lower(c));
    }
    assert(is_ascii_chars(upper));
    assert(is_ascii_chars(lower));
    assert(ascii_lowercase(upper) =~= lower);
    assert(ascii_lowercase(lower) =~= lower);
}

/// Matching is case-insensitive: on ASCII text, a pattern matches a text
/// exactly where the pattern written in capitals matches the text written
/// in small letters.
pub proof fn lemma_match_upper_pattern_lower_text(pattern: Seq<char>, text: Seq<char>)
    requires
        is_ascii_chars(pattern),
        is_ascii_chars(text),
    ensures
        fuzzy_matches(pattern, text) == fuzzy_matches(
            ascii_uppercase(pattern),
            ascii_lowercase(text),
        ),
{
    lemma_ascii_fold_ignores_case(pattern);
    lemma_ascii_fold_ignores_case(text);
    lemma_match_ignores_case(pattern, ascii_uppercase(pattern), text, ascii_lowercase(text));
}

/// `str::to_lowercase`: the lowercase form of `text` as a new string, which
/// the standard library defines by the lowercase mapping of Unicode. That
/// mapping takes tables to state, so in general the contract only gives
/// the result its name. Within ASCII it comes to this: the letters `A` to
/// `Z` map to `a` to `z`, no other character has a mapping, and no
/// character is mapped with regard to its neighbours. For ASCII text the
/// contract says that outright. Neither claim is proved here.
#[verifier::external_body]
fn lowercase(text: &str) -> (folded: String)
    ensures
        folded@ == lowercase_of(text@),
        is_ascii_chars(text@) ==> folded@ == ascii_lowercase(text@),
{
    text.to_lowercase()
}

/// The folded form of `text`, see [`case_folded`].
pub fn fold_case(text: &str) -> (folded: String)
    ensures
        folded@ == case_folded(text@),
{
    lowercase(text)
}

/// Do `a` and `b` have one folded form, that is, do they differ in case at
/// most?
pub fn same_lowercase(a: &str, b: &str) -> (same: bool)
    ensures
        same == (case_folded(a@) == case_folded(b@)),
{
    let folded_a = fold_case(a);
    let folded_b = fold_case(b);
    folded_a == folded_b
}

/// Is `text` its own folded form?
pub fn is_lowercase(text: &str) -> (own: bool)
    ensures
        own == (case_folded(text@) == text@),
{
    let folded = fold_case(text);
    let given = String::from_str(text);
    folded == given
}

/// Tests whether the characters of `pattern` occur in `text` in order,
/// comparing character by character without any folding. The scan never
/// moves backwards in `text`.
pub fn is_subsequence_of(pattern: &str, text: &str) -> (found: bool)
    ensures
        found == is_subsequence(pattern@, text@),
{
    let p = chars_of(pattern);
    let t = chars_of(text);
    let mut matched: usize = 0;
    let mut scanned: usize = 0;
    assert(p@.skip(0) =~= p@ && t@.skip(0) =~= t@);
    while matched < p.len() && scanned < t.len()
        invariant
            matched <= p.len(),
            scanned <= t.len(),
            is_subsequence(p@, t@) <==> is_subsequence(
                p@.skip(matched as int),
                t@.skip(scanned as int),
            ),
        decreases t.len() - scanned,
    {
        proof {
            let rest_p = p@.skip(matched as int);
            let rest_t = t@.skip(scanned as int);
            assert(rest_t.skip(1) =~= t@.skip(scanned + 1));
            if p[matched as int] == t[scanned as int] {
                lemma_subsequence_consume(rest_p, rest_t);
                assert(rest_p.skip(1) =~= p@.skip(matched + 1));
            } else {
                lemma_subsequence_skip(rest_p, rest_t);
            }
        }
        if p[matched] == t[scanned] {
            matched = matched + 1;
        }
        scanned = scanned + 1;
    }
    proof {
        if matched == p.len() {
            assert(p@.skip(matched as int) =~= Seq::<char>::empty());
            lemma_empty_is_subsequence(t@.skip(scanned as int));
        } else {
            assert(t@.skip(scanned as int) =~= Seq::<char>::empty());
            lemma_subsequence_of_empty(p@.skip(matched as int));
        }
    }
    matched == p.len()
}

/// Does `pattern` match `text`, ignoring case? The empty pattern matches
/// everything; otherwise both are folded to lowercase and the pattern must
/// be a subsequence of the text.
pub fn fuzzy_match(pattern: &str, text: &str) -> (found: bool)
    ensures
        found == fuzzy_matches(pattern@, text@),
        pattern@.len() == 0 ==> found,
{
    if pattern.is_empty() {
        return true;
    }
    let folded_pattern = fold_case(pattern);
    let folded_text = fold_case(text);
    is_subsequence_of(folded_pattern.as_str(), folded_text.as_str())
}

} // verus!
