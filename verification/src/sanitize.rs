//! Sanitized filenames: the deterministic mapping from a URL to the name of
//! its capture file, the sole correlation key between two capture runs.

use vstd::prelude::*;

verus! {

/// A character of a URL mapped to its filesystem-safe form: `:`, `/` and `.`
/// become `_`; every other character is kept.
pub open spec fn sanitize_char(c: char) -> char {
    if c == ':' || c == '/' || c == '.' {
        '_'
    } else {
        c
    }
}

/// The sanitized form of a URL: every reserved character replaced, one for
/// one, so the result always has the length of the input.
pub open spec fn sanitize_spec(url: Seq<char>) -> Seq<char> {
    url.map_values(|c: char| sanitize_char(c))
}

/// The capture file written for a URL is named after its sanitized form,
/// with the raster extension appended.
pub open spec fn capture_filename_spec(url: Seq<char>) -> Seq<char> {
    sanitize_spec(url) + ".png"@
}

/// Relies on String::push: appends the given character to the end of the string.
#[verifier::external_body]
pub(crate) fn push_char(s: &mut String, c: char)
    ensures
        final(s)@ == old(s)@.push(c),
{
    s.push(c);
}

/// Replace every `:`, `/` and `.` of `url` with `_`, keeping all other
/// characters.
pub fn sanitize(url: &str) -> (r: String)
    ensures
        r@ == sanitize_spec(url@),
{
    let mut out = String::new();
    for c in it: url.chars()
        invariant
            it.seq() == url@,
            out@ == sanitize_spec(url@.take(it.index() as int)),
    {
        let mapped: char = if c == ':' || c == '/' || c == '.' {
            '_'
        } else {
            c
        };
        proof {
            assert(out@.push(mapped) =~= sanitize_spec(url@.take(it.index() + 1)));
        }
        push_char(&mut out, mapped);
    }
    proof {
        assert(url@.take(url@.len() as int) =~= url@);
    }
    out
}

/// The name under which a successful capture of `url` is stored.
pub fn capture_filename(url: &str) -> (r: String)
    ensures
        r@ == capture_filename_spec(url@),
{
    let name = sanitize(url);
    name.concat(".png")
}

/// Sanitization is deterministic: two equal URLs map to equal filenames.
pub proof fn lemma_sanitize_deterministic(u1: Seq<char>, u2: Seq<char>)
    requires
        u1 == u2,
    ensures
        sanitize_spec(u1) == sanitize_spec(u2),
        capture_filename_spec(u1) == capture_filename_spec(u2),
{
}

/// Sanitization is total and one-for-one: every URL has a sanitized form, of
/// the URL's own length.
pub proof fn lemma_sanitize_total(url: Seq<char>)
    ensures
        sanitize_spec(url).len() == url.len(),
        forall|i: int| 0 <= i < url.len() ==> sanitize_spec(url)[i] == sanitize_char(url[i]),
{
}

} // verus!
