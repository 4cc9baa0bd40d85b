//! Base-name handling: trailing-digit stripping and string comparison.
//!
//! Scene-authoring tools commonly suffix duplicated objects with a numeric
//! instance counter ("Sphere", "Sphere1", "Sphere12", ...). Material and
//! texture resolution recovers the shared intent by looking the name up
//! again with its trailing digit run removed; the pure string transform
//! lives here, shared by every call site.

use vstd::prelude::*;

verus! {

/// `c` is one of the ASCII digits '0' through '9'.
pub open spec fn is_digit_char(c: char) -> bool {
    48 <= c as u32 <= 57
}

/// Decides whether `c` is an ASCII digit.
pub fn is_ascii_digit_char(c: char) -> (r: bool)
    ensures
        r == is_digit_char(c),
{
    let u = c as u32;
    48 <= u && u <= 57
}

/// `s` with its maximal suffix of ASCII digits removed. Digits that are
/// followed by a non-digit character stay in place; only the digit run at
/// the very end of the string is dropped.
pub open spec fn strip_spec(s: Seq<char>) -> Seq<char>
    decreases s.len(),
{
    if s.len() > 0 && is_digit_char(s.last()) {
        strip_spec(s.drop_last())
    } else {
        s
    }
}

/// When every character from position `end` on is a digit and the character
/// just before `end` (if any) is not, stripping trailing digits keeps
/// exactly the first `end` characters.
proof fn lemma_strip_is_take(s: Seq<char>, end: int)
    requires
        0 <= end <= s.len(),
        forall|j: int| end <= j < s.len() ==> is_digit_char(#[trigger] s[j]),
        end == 0 || !is_digit_char(s[end - 1]),
    ensures
        strip_spec(s) == s.take(end),
    decreases s.len(),
{
    if s.len() == 0 {
        assert(s.take(end) =~= s);
    } else if end == s.len() {
        if end > 0 && is_digit_char(s.last()) {
            assert(false);
        }
        assert(s.take(end) =~= s);
    } else {
        assert(is_digit_char(s.last()));
        lemma_strip_is_take(s.drop_last(), end);
        assert(s.drop_last().take(end) =~= s.take(end));
    }
}

/// Returns `name` with its maximal run of trailing ASCII digits removed.
pub fn strip_trailing_digits(name: &str) -> (r: String)
    ensures
        r@ == strip_spec(name@),
{
    let n = name.unicode_len();
    let mut end: usize = n;
    while end > 0 && is_ascii_digit_char(name.get_char(end - 1))
        invariant
            end <= n,
            n == name@.len(),
            forall|j: int| end <= j < n ==> is_digit_char(#[trigger] name@[j]),
        decreases end,
    {
        end = end - 1;
    }
    proof {
        lemma_strip_is_take(name@, end as int);
    }
    let kept = name.substring_char(0, end);
    kept.to_owned()
}

/// Compares two strings character by character.
pub fn str_eq(a: &str, b: &str) -> (r: bool)
    ensures
        r == (a@ == b@),
{
    let n = a.unicode_len();
    let m = b.unicode_len();
    if n != m {
        return false;
    }
    let mut i: usize = 0;
    while i < n
        invariant
            i <= n,
            n == a@.len(),
            n == b@.len(),
            forall|j: int| 0 <= j < i ==> a@[j] == b@[j],
        decreases n - i,
    {
        if a.get_char(i) != b.get_char(i) {
            return false;
        }
        i = i + 1;
    }
    proof {
        assert(a@ =~= b@);
    }
    true
}

} // verus!
