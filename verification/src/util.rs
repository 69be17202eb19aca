//! Small shared helpers: filename sanitizing and slice copies.

use vstd::prelude::*;

verus! {

/// Whether `c` survives filename sanitizing unchanged: an ASCII letter or
/// digit, or one of `-`, `_`, `.`.
pub open spec fn is_filename_char(c: char) -> bool {
    ||| ('a' <= c && c <= 'z')
    ||| ('A' <= c && c <= 'Z')
    ||| ('0' <= c && c <= '9')
    ||| c == '-'
    ||| c == '_'
    ||| c == '.'
}

/// The sanitized form of a name: every character that is not kept is replaced
/// by `_`, position by position.
pub open spec fn sanitized(name: Seq<char>) -> Seq<char> {
    Seq::new(name.len(), |i: int| if is_filename_char(name[i]) { name[i] } else { '_' })
}

/// Appends one character to a `String`.
#[verifier::external_body]
pub(crate) fn push_char(s: &mut String, c: char)
    ensures
        final(s)@ == old(s)@.push(c),
{
    s.push(c);
}

/// A vector holding the elements of `s`, in order.
pub(crate) fn copy_slice<T: Copy>(s: &[T]) -> (r: Vec<T>)
    ensures
        r@ == s@,
{
    let mut r: Vec<T> = Vec::new();
    let mut i: usize = 0;
    while i < s.len()
        invariant
            i <= s.len(),
            r@ == s@.take(i as int),
        decreases s.len() - i,
    {
        r.push(s[i]);
        assert(r@ =~= s@.take(i + 1));
        i = i + 1;
    }
    assert(s@.take(s.len() as int) =~= s@);
    r
}

fn keeps(c: char) -> (r: bool)
    ensures
        r == is_filename_char(c),
{
    (c >= 'a' && c <= 'z') || (c >= 'A' && c <= 'Z') || (c >= '0' && c <= '9') || c == '-'
        || c == '_' || c == '.'
}

/// Sanitize a user-supplied download filename for use in a `Content-Disposition`
/// header: keep alphanumerics plus `-_.`, replace everything else with `_`.
pub fn sanitize_filename(name: &str) -> (out: String)
    ensures
        out@ == sanitized(name@),
        out@.len() == name@.len(),
        forall|i: int| #![trigger out@[i]] 0 <= i < name@.len() ==> {
            let c = name@[i];
            if ('A' <= c && c <= 'Z') || ('a' <= c && c <= 'z') || ('0' <= c && c <= '9') || c == '-'
                || c == '_' || c == '.' {
                out@[i] == c
            } else {
                out@[i] == '_'
            }
        },
{
    let mut out = String::new();
    for c in it: name.chars()
        invariant
            it.seq() == name@,
            out@ == sanitized(name@).take(it.index() as int),
    {
        let kept = if keeps(c) { c } else { '_' };
        push_char(&mut out, kept);
        assert(sanitized(name@).take(it.index() as int + 1) =~= out@);
    }
    assert(sanitized(name@).take(name@.len() as int) =~= sanitized(name@));
    out
}

/// A sanitized download name is made only of header-safe characters and
/// keeps its length, and sanitizing it again changes nothing.
pub proof fn lemma_sanitized_is_safe_and_stable(name: Seq<char>)
    ensures
        sanitized(name).len() == name.len(),
        forall|i: int| 0 <= i < sanitized(name).len() ==> is_filename_char(#[trigger] sanitized(name)[i]),
        sanitized(sanitized(name)) == sanitized(name),
{
    assert(sanitized(sanitized(name)) =~= sanitized(name));
}

/// Sanitizing keeps every ASCII letter (upper- and lower-case), every ASCII
/// digit and each of `-`, `_`, `.` at its position, and replaces every other
/// character (spaces, quotes, slashes, control and non-ASCII characters) by
/// `_`; the length is unchanged.
pub proof fn lemma_sanitize_keeps_exactly_ascii_alphanumerics_and_marks(name: Seq<char>)
    ensures
        sanitized(name).len() == name.len(),
        forall|i: int| 0 <= i < name.len() && 'A' <= #[trigger] name[i] && name[i] <= 'Z' ==> sanitized(name)[i] == name[i],
        forall|i: int| 0 <= i < name.len() && 'a' <= #[trigger] name[i] && name[i] <= 'z' ==> sanitized(name)[i] == name[i],
        forall|i: int| 0 <= i < name.len() && '0' <= #[trigger] name[i] && name[i] <= '9' ==> sanitized(name)[i] == name[i],
        forall|i: int| 0 <= i < name.len() && (#[trigger] name[i] == '-' || name[i] == '_' || name[i] == '.')
            ==> sanitized(name)[i] == name[i],
        forall|i: int| 0 <= i < name.len() && !('A' <= #[trigger] name[i] && name[i] <= 'Z')
            && !('a' <= name[i] && name[i] <= 'z') && !('0' <= name[i] && name[i] <= '9') && name[i] != '-'
            && name[i] != '_' && name[i] != '.' ==> sanitized(name)[i] == '_',
{
}

} // verus!
