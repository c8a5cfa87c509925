use vstd::prelude::*;
use unicode_segmentation::UnicodeSegmentation;

verus! {

/// The characters that the validator refuses outright, so that an
/// accepted string is safe to use as a lookup key.
pub open spec fn is_forbidden_char(c: char) -> bool {
    ||| c == '/'
    ||| c == '('
    ||| c == ')'
    ||| c == '"'
    ||| c == '<'
    ||| c == '>'
    ||| c == '\\'
    ||| c == '{'
    ||| c == '}'
}

pub open spec fn has_forbidden_char(s: Seq<char>) -> bool {
    exists|i: int| 0 <= i < s.len() && is_forbidden_char(s[i])
}

/// The Unicode White_Space property, the set of characters that
/// `str::trim` removes from the ends of a string.
pub open spec fn is_whitespace_char(c: char) -> bool {
    ||| c == '\u{0009}'
    ||| c == '\u{000A}'
    ||| c == '\u{000B}'
    ||| c == '\u{000C}'
    ||| c == '\u{000D}'
    ||| c == '\u{0020}'
    ||| c == '\u{0085}'
    ||| c == '\u{00A0}'
    ||| c == '\u{1680}'
    ||| c == '\u{2000}'
    ||| c == '\u{2001}'
    ||| c == '\u{2002}'
    ||| c == '\u{2003}'
    ||| c == '\u{2004}'
    ||| c == '\u{2005}'
    ||| c == '\u{2006}'
    ||| c == '\u{2007}'
    ||| c == '\u{2008}'
    ||| c == '\u{2009}'
    ||| c == '\u{200A}'
    ||| c == '\u{2028}'
    ||| c == '\u{2029}'
    ||| c == '\u{202F}'
    ||| c == '\u{205F}'
    ||| c == '\u{3000}'
}

/// A string is blank when trimming it would leave nothing: every one of
/// its characters is whitespace. The empty string is blank.
pub open spec fn trimmed_empty(s: Seq<char>) -> bool {
    forall|i: int| 0 <= i < s.len() ==> is_whitespace_char(s[i])
}

/// The number of extended grapheme clusters of a string: the
/// user-perceived characters, which may each span several `char`s.
pub uninterp spec fn grapheme_count(s: Seq<char>) -> nat;

/// What the validator decides once the grapheme-cluster count of the
/// string is known.
pub open spec fn is_valid_given_count(s: Seq<char>, graphemes: nat, max_length: nat) -> bool {
    &&& !trimmed_empty(s)
    &&& graphemes <= max_length
    &&& !has_forbidden_char(s)
}

/// Whether an untrusted input string is acceptable: not blank, at most
/// `max_length` grapheme clusters long, and free of forbidden characters.
pub open spec fn is_valid_spec(s: Seq<char>, max_length: nat) -> bool {
    is_valid_given_count(s, grapheme_count(s), max_length)
}

/// Relies on unicode_segmentation's `UnicodeSegmentation::graphemes`
/// for counting extended grapheme clusters; the segmentation of a
/// string depends on its characters alone.
#[verifier::external_body]
fn count_graphemes(s: &str) -> (count: usize)
    ensures
        count == grapheme_count(s@),
{
    s.graphemes(true).count()
}

fn char_is_whitespace(c: char) -> (r: bool)
    ensures
        r == is_whitespace_char(c),
{
    c == '\u{0009}' || c == '\u{000A}' || c == '\u{000B}' || c == '\u{000C}' || c == '\u{000D}'
        || c == '\u{0020}' || c == '\u{0085}' || c == '\u{00A0}' || c == '\u{1680}'
        || c == '\u{2000}' || c == '\u{2001}' || c == '\u{2002}' || c == '\u{2003}'
        || c == '\u{2004}' || c == '\u{2005}' || c == '\u{2006}' || c == '\u{2007}'
        || c == '\u{2008}' || c == '\u{2009}' || c == '\u{200A}' || c == '\u{2028}'
        || c == '\u{2029}' || c == '\u{202F}' || c == '\u{205F}' || c == '\u{3000}'
}

fn char_is_forbidden(c: char) -> (r: bool)
    ensures
        r == is_forbidden_char(c),
{
    c == '/' || c == '(' || c == ')' || c == '"' || c == '<' || c == '>' || c == '\\'
        || c == '{' || c == '}'
}

/// The validator's decision for a string whose grapheme-cluster count
/// has already been computed; everything past the count is verified.
pub fn check_with_grapheme_count(s: &str, graphemes: usize, max_length: usize) -> (valid: bool)
    ensures
        valid == is_valid_given_count(s@, graphemes as nat, max_length as nat),
{
    if graphemes > max_length {
        return false;
    }
    let n = s.unicode_len();
    let mut i: usize = 0;
    let mut all_whitespace = true;
    let mut found_forbidden = false;
    while i < n
        invariant
            n == s@.len(),
            i <= n,
            all_whitespace == (forall|j: int| 0 <= j < i ==> is_whitespace_char(#[trigger] s@[j])),
            found_forbidden == (exists|j: int| 0 <= j < i && is_forbidden_char(#[trigger] s@[j])),
        decreases n - i,
    {
        let c = s.get_char(i);
        if !char_is_whitespace(c) {
            all_whitespace = false;
        }
        if char_is_forbidden(c) {
            found_forbidden = true;
        }
        i += 1;
    }
    !all_whitespace && !found_forbidden
}

/// Decides whether an untrusted input string may be used further: it
/// must not be blank, must not exceed `max_length` user-perceived
/// characters (grapheme clusters, not bytes or code units), and must
/// not contain any of the forbidden characters.
pub fn is_valid_input_string(s: &str, max_length: usize) -> (valid: bool)
    ensures
        valid == is_valid_spec(s@, max_length as nat),
{
    let graphemes = count_graphemes(s);
    check_with_grapheme_count(s, graphemes, max_length)
}

/// A blank string — one whose characters are all whitespace, the empty
/// string included — is rejected, whatever the length limit.
pub proof fn lemma_blank_input_rejected(s: Seq<char>, max_length: nat)
    requires
        trimmed_empty(s),
    ensures
        !is_valid_spec(s, max_length),
{
}

/// A string with more grapheme clusters than the limit is rejected.
pub proof fn lemma_overlong_input_rejected(s: Seq<char>, max_length: nat)
    requires
        grapheme_count(s) > max_length,
    ensures
        !is_valid_spec(s, max_length),
{
}

/// A string containing any forbidden character is rejected, whatever
/// the length limit.
pub proof fn lemma_forbidden_char_rejected(s: Seq<char>, max_length: nat)
    requires
        has_forbidden_char(s),
    ensures
        !is_valid_spec(s, max_length),
{
}

} // verus!
