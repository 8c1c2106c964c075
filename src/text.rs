//! Small operations on text that the rest of the library builds on.
use vstd::prelude::*;

verus! {

/// What lower-casing turns a text into.
pub uninterp spec fn lower_of(s: Seq<char>) -> Seq<char>;

/// Relies on `str::to_lowercase`: the result depends on the characters of
/// the text alone, and the empty text stays empty.
#[verifier::external_body]
pub(crate) fn lowercase(s: &str) -> (r: String)
    ensures
        r@ == lower_of(s@),
        s@.len() == 0 ==> r@.len() == 0,
{
    s.to_lowercase()
}

/// Relies on `String::push`: the character is appended at the end.
#[verifier::external_body]
pub(crate) fn push_char(s: &mut String, c: char)
    ensures
        final(s)@ == old(s)@.push(c),
{
    s.push(c)
}

/// Relies on `char::to_ascii_uppercase`: `a` to `z` become `A` to `Z`, 32
/// code points lower; every other character stays as it is.
#[verifier::external_body]
pub(crate) fn ascii_upper(c: char) -> (r: char)
    ensures
        ('a' <= c && c <= 'z') ==> r as u32 == c as u32 - 32,
        !('a' <= c && c <= 'z') ==> r == c,
{
    c.to_ascii_uppercase()
}

/// Whether two texts hold the same characters.
pub fn text_eq(a: &str, b: &str) -> (r: bool)
    ensures
        r == (a@ == b@),
{
    a.to_owned() == b.to_owned()
}

/// The characters of a text, one by one.
pub fn chars_of(s: &str) -> (r: Vec<char>)
    ensures
        r@ == s@,
{
    let mut r: Vec<char> = Vec::new();
    for c in it: s.chars()
        invariant
            r@ == it.seq().take(it.index() as int),
    {
        r.push(c);
    }
    proof {
        broadcast use vstd::string::axiom_spec_iter;
    }
    r
}

/// Whether text `a` comes after text `b` in lexicographic order of the
/// characters' code points.
pub open spec fn text_greater(a: Seq<char>, b: Seq<char>) -> bool
    decreases a.len(),
{
    if a.len() == 0 {
        false
    } else if b.len() == 0 {
        true
    } else if a[0] != b[0] {
        (a[0] as u32) > (b[0] as u32)
    } else {
        text_greater(a.drop_first(), b.drop_first())
    }
}

/// No text comes after itself.
pub proof fn lemma_text_greater_irreflexive(a: Seq<char>)
    ensures
        !text_greater(a, a),
    decreases a.len(),
{
    if a.len() > 0 {
        lemma_text_greater_irreflexive(a.drop_first());
    }
}

/// Comparing after a common prefix of length `i` is comparing the rests.
proof fn lemma_text_greater_skip(a: Seq<char>, b: Seq<char>, i: int)
    requires
        0 <= i < a.len(),
        i < b.len(),
        a[i] == b[i],
    ensures
        text_greater(a.skip(i), b.skip(i)) == text_greater(a.skip(i + 1), b.skip(i + 1)),
{
    assert(a.skip(i).drop_first() =~= a.skip(i + 1));
    assert(b.skip(i).drop_first() =~= b.skip(i + 1));
}

/// Whether text `a` comes after text `b`, character by character.
pub fn is_text_greater(a: &str, b: &str) -> (r: bool)
    ensures
        r == text_greater(a@, b@),
{
    let x = chars_of(a);
    let y = chars_of(b);
    let mut i: usize = 0;
    assert(x@.skip(0) =~= x@);
    assert(y@.skip(0) =~= y@);
    while i < x.len() && i < y.len()
        invariant
            x@ == a@,
            y@ == b@,
            i <= x.len(),
            i <= y.len(),
            text_greater(a@, b@) == text_greater(x@.skip(i as int), y@.skip(i as int)),
        decreases x.len() - i,
    {
        if x[i] != y[i] {
            return (x[i] as u32) > (y[i] as u32);
        }
        proof {
            lemma_text_greater_skip(x@, y@, i as int);
        }
        i += 1;
    }
    i < x.len()
}

} // verus!
