//! Case conversion for generated constructor names.
//!
//! Identifiers in mixed or camel case are rewritten with underscore word
//! separation: a separator is inserted before an uppercase character that
//! follows a lowercase or numeric character, or that ends an uppercase run
//! immediately before a lowercase character.  Every character is lowercased.

use vstd::prelude::*;

verus! {

/// Names the result of `char::is_uppercase` (the Unicode `Uppercase` property).
pub uninterp spec fn upper_char(c: char) -> bool;

/// Names the result of `char::is_lowercase` (the Unicode `Lowercase` property).
pub uninterp spec fn lower_char(c: char) -> bool;

/// Names the result of `char::is_numeric` (the Unicode `N` general categories).
pub uninterp spec fn numeric_char(c: char) -> bool;

/// Names the result of `char::to_lowercase`: the lowercase mapping of a
/// character, which depends on the character alone.
pub uninterp spec fn lowercase_chars(c: char) -> Seq<char>;

/// Relies on `char::is_uppercase`: whether the character has the Unicode
/// `Uppercase` property.
pub assume_specification[ char::is_uppercase ](c: char) -> (r: bool)
    ensures
        r == upper_char(c),
;

/// Relies on `char::is_lowercase`: whether the character has the Unicode
/// `Lowercase` property.
pub assume_specification[ char::is_lowercase ](c: char) -> (r: bool)
    ensures
        r == lower_char(c),
;

/// Relies on `char::is_numeric`: whether the character is in one of the
/// Unicode `N` (number) general categories.
pub assume_specification[ char::is_numeric ](c: char) -> (r: bool)
    ensures
        r == numeric_char(c),
;

/// Relies on `char::to_lowercase`: yields the lowercase mapping of the
/// character as one or more characters.
#[verifier::external_body]
fn char_lowercase(c: char) -> (r: Vec<char>)
    ensures
        r@ == lowercase_chars(c),
        r@.len() >= 1,
{
    c.to_lowercase().collect()
}

/// Relies on `String::from_iter` over `char`: collecting characters yields
/// the string holding exactly those characters.
#[verifier::external_body]
fn chars_to_string(v: Vec<char>) -> (r: String)
    ensures
        r@ == v@,
{
    v.into_iter().collect()
}

/// A word separator belongs directly before position `i` of `s`: the
/// character there is uppercase, and either the previous character is
/// lowercase or numeric, or an uppercase run ends here right before a
/// lowercase character.
pub open spec fn word_boundary(s: Seq<char>, i: int) -> bool {
    &&& 0 < i < s.len()
    &&& upper_char(s[i])
    &&& {
        ||| lower_char(s[i - 1])
        ||| numeric_char(s[i - 1])
        ||| (upper_char(s[i - 1]) && i + 1 < s.len() && lower_char(s[i + 1]))
    }
}

/// The case conversion of the first `n` characters of `s` (with lookahead
/// into all of `s`).
pub open spec fn snake_prefix(s: Seq<char>, n: int) -> Seq<char>
    decreases n,
{
    if n <= 0 {
        Seq::empty()
    } else {
        snake_prefix(s, n - 1) + (if word_boundary(s, n - 1) {
            seq!['_']
        } else {
            Seq::<char>::empty()
        }) + lowercase_chars(s[n - 1])
    }
}

/// The full case conversion of `s`.
pub open spec fn snake_case_of(s: Seq<char>) -> Seq<char> {
    snake_prefix(s, s.len() as int)
}

/// Converts an identifier to snake case: inserts `_` at every word boundary
/// and lowercases every character.  Underscores and numeric runs already in
/// the input are kept as they are.
pub fn to_snake_case(s: &str) -> (r: String)
    ensures
        r@ == snake_case_of(s@),
{
    let n: usize = s.unicode_len();
    let mut acc: Vec<char> = Vec::new();
    let mut i: usize = 0;
    while i < n
        invariant
            n == s@.len(),
            i <= n,
            acc@ == snake_prefix(s@, i as int),
        decreases n - i,
    {
        let c = s.get_char(i);
        let mut boundary = false;
        if i >= 1 && c.is_uppercase() {
            let p = s.get_char(i - 1);
            boundary = p.is_lowercase() || p.is_numeric() || (p.is_uppercase() && i + 1 < n
                && s.get_char(i + 1).is_lowercase());
        }
        assert(boundary == word_boundary(s@, i as int));
        if boundary {
            acc.push('_');
        }
        let mut low = char_lowercase(c);
        acc.append(&mut low);
        assert(acc@ =~= snake_prefix(s@, i + 1 as int));
        i = i + 1;
    }
    chars_to_string(acc)
}

/// A character that the case conversion leaves alone: not uppercase, and its
/// own lowercase mapping.
pub open spec fn snake_char(c: char) -> bool {
    &&& !upper_char(c)
    &&& lowercase_chars(c) == seq![c]
}

/// An already-snake-case string: every character is left alone by the
/// conversion.
pub open spec fn is_snake_case(s: Seq<char>) -> bool {
    forall|i: int| 0 <= i < s.len() ==> snake_char(#[trigger] s[i])
}

proof fn lemma_snake_prefix_identity(s: Seq<char>, n: int)
    requires
        is_snake_case(s),
        0 <= n <= s.len(),
    ensures
        snake_prefix(s, n) == s.take(n),
    decreases n,
{
    if n > 0 {
        lemma_snake_prefix_identity(s, n - 1);
        assert(snake_char(s[n - 1]));
        assert(!word_boundary(s, n - 1));
        assert(snake_prefix(s, n) =~= s.take(n));
    } else {
        assert(snake_prefix(s, n) =~= s.take(n));
    }
}

/// The case conversion is idempotent on already-snake-case input: a string
/// whose characters are all non-uppercase fixed points of lowercasing comes
/// back unchanged.
pub proof fn lemma_snake_case_idempotent(s: Seq<char>)
    requires
        is_snake_case(s),
    ensures
        snake_case_of(s) == s,
{
    lemma_snake_prefix_identity(s, s.len() as int);
    assert(s.take(s.len() as int) =~= s);
}

} // verus!
