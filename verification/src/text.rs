//! Text as the board uses it: comparison, search in lists of identifiers, and the few
//! functions of the standard library on characters and strings that identifiers and the card
//! form depend on.
//!
//! Those functions go by Unicode tables too long to state here. Each has a name in the
//! mathematical language instead ([`alphabetic`], [`uppercase`], [`trimmed`] and so on), and
//! the function that calls it is believed to return what the name stands for: that is, to
//! return the same for the same text, and nothing more.

use vstd::prelude::*;

verus! {

/// Whether `char::is_alphabetic` holds of `c` (the Unicode property `Alphabetic`).
pub uninterp spec fn alphabetic(c: char) -> bool;

/// Whether `char::is_alphanumeric` holds of `c` (alphabetic or numeric, by Unicode).
pub uninterp spec fn alphanumeric(c: char) -> bool;

/// What `str::to_uppercase` makes of a text.
pub uninterp spec fn uppercase(text: Seq<char>) -> Seq<char>;

/// What `str::to_lowercase` makes of a text.
pub uninterp spec fn lowercase(text: Seq<char>) -> Seq<char>;

/// What `str::trim` leaves of a text: the text without leading and trailing white space.
pub uninterp spec fn trimmed(text: Seq<char>) -> Seq<char>;

/// The texts of a list of strings.
pub open spec fn texts(list: Seq<String>) -> Seq<Seq<char>> {
    list.map_values(|s: String| s@)
}

/// The text of an optional string.
pub open spec fn optional_text(value: Option<String>) -> Option<Seq<char>> {
    match value {
        Some(s) => Some(s@),
        None => None,
    }
}

/// A text is blank when nothing is left of it after trimming.
pub open spec fn blank(text: Seq<char>) -> bool {
    trimmed(text).len() == 0
}

/// Equality of two string slices, `a == b` of the standard library. Believed: they are equal
/// exactly when they hold the same characters.
#[verifier::external_body]
pub(crate) fn same_text(a: &str, b: &str) -> (same: bool)
    ensures
        same == (a@ == b@),
{
    a == b
}

/// `String::push`. Believed: the string is then what it was with `c` behind it.
#[verifier::external_body]
pub(crate) fn push_char(s: &mut String, c: char)
    ensures
        final(s)@ == old(s)@.push(c),
{
    s.push(c)
}

/// `String::pop`. Believed: the last character, if there is one, is taken off the string and
/// returned; an empty string stays empty and nothing is returned.
#[verifier::external_body]
pub(crate) fn pop_char(s: &mut String) -> (popped: Option<char>)
    ensures
        old(s)@.len() == 0 ==> popped is None && final(s)@ == old(s)@,
        old(s)@.len() > 0 ==> popped == Some(old(s)@.last()) && final(s)@ == old(s)@.drop_last(),
{
    s.pop()
}

/// `char::is_alphabetic`. Believed: the answer depends on the character alone; [`alphabetic`]
/// is its name.
#[verifier::external_body]
pub(crate) fn is_alphabetic(c: char) -> (yes: bool)
    ensures
        yes == alphabetic(c),
{
    c.is_alphabetic()
}

/// `char::is_alphanumeric`. Believed: the answer depends on the character alone;
/// [`alphanumeric`] is its name.
#[verifier::external_body]
pub(crate) fn is_alphanumeric(c: char) -> (yes: bool)
    ensures
        yes == alphanumeric(c),
{
    c.is_alphanumeric()
}

/// `str::to_uppercase`. Believed: the result depends on the text alone; [`uppercase`] is its
/// name.
#[verifier::external_body]
pub(crate) fn to_uppercase(s: &str) -> (upper: String)
    ensures
        upper@ == uppercase(s@),
{
    s.to_uppercase()
}

/// `str::to_lowercase`. Believed: the result depends on the text alone; [`lowercase`] is its
/// name.
#[verifier::external_body]
pub(crate) fn to_lowercase(s: &str) -> (lower: String)
    ensures
        lower@ == lowercase(s@),
{
    s.to_lowercase()
}

/// `str::trim`. Believed: the result depends on the text alone; [`trimmed`] is its name.
/// Believed too, since trimming only takes white space away: of an empty text nothing is
/// left.
#[verifier::external_body]
pub(crate) fn trim(s: &str) -> (rest: &str)
    ensures
        rest@ == trimmed(s@),
        s@.len() == 0 ==> rest@.len() == 0,
{
    s.trim()
}

/// Whether nothing but white space stands in `s`. An empty text is blank.
pub fn is_blank(s: &str) -> (yes: bool)
    ensures
        yes == blank(s@),
        s@.len() == 0 ==> yes,
{
    trim(s).is_empty()
}

/// The position of the first string of `list` that reads `wanted`.
pub fn find_text(list: &Vec<String>, wanted: &str) -> (found: Option<usize>)
    ensures
        match found {
            Some(i) => texts(list@).index_of_first(wanted@) == Some(i as int) && i < list.len(),
            None => texts(list@).index_of_first(wanted@) is None,
        },
{
    let mut i: usize = 0;
    while i < list.len()
        invariant
            i <= list.len(),
            forall|j: int| 0 <= j < i ==> texts(list@)[j] != wanted@,
        decreases list.len() - i,
    {
        if same_text(list[i].as_str(), wanted) {
            proof {
                lemma_first_index(texts(list@), wanted@, i as int);
            }
            return Some(i);
        }
        i += 1;
    }
    proof {
        texts(list@).index_of_first_ensures(wanted@);
    }
    None
}

/// The first position of `x` in `s` is `i` when `x` stands at `i` and nowhere before.
pub proof fn lemma_first_index<A>(s: Seq<A>, x: A, i: int)
    requires
        0 <= i < s.len(),
        s[i] == x,
        forall|j: int| 0 <= j < i ==> s[j] != x,
    ensures
        s.index_of_first(x) == Some(i),
        s.contains(x),
{
    s.index_of_first_ensures(x);
    assert(s.contains(x));
}

} // verus!
