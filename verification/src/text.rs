//! Text helpers: strings that can be handed to C.

use vstd::prelude::*;

verus! {

/// What `c_string_lossy` makes of a text: every NUL character is written as
/// the two characters `\` and `0`, every other character is kept.
pub open spec fn escape_nuls(s: Seq<char>) -> Seq<char>
    decreases s.len(),
{
    if s.len() == 0 {
        Seq::empty()
    } else if s.last() == '\0' {
        escape_nuls(s.drop_last()) + seq!['\\', '0']
    } else {
        escape_nuls(s.drop_last()).push(s.last())
    }
}

/// True when a text holds no NUL character, so that C can read it whole.
pub open spec fn nul_free(s: Seq<char>) -> bool {
    forall|i: int| 0 <= i < s.len() ==> s[i] != '\0'
}

/// The text that `escape_nuls` makes holds no NUL character.
pub proof fn lemma_escape_nuls_nul_free(s: Seq<char>)
    ensures
        nul_free(escape_nuls(s)),
    decreases s.len(),
{
    if s.len() > 0 {
        lemma_escape_nuls_nul_free(s.drop_last());
    }
}

/// A text without NUL characters is kept as it is by `escape_nuls`.
pub proof fn lemma_escape_nuls_keeps_nul_free(s: Seq<char>)
    requires
        nul_free(s),
    ensures
        escape_nuls(s) == s,
    decreases s.len(),
{
    if s.len() > 0 {
        lemma_escape_nuls_keeps_nul_free(s.drop_last());
        assert(s.drop_last().push(s.last()) == s);
    }
}

/// Appends one character to a `String` (`String::push`).
#[verifier::external_body]
fn push_char(s: &mut String, c: char)
    ensures
        final(s)@ == old(s)@.push(c),
{
    s.push(c);
}

/// Turns a text into one that C can read whole: NUL characters become `\0`.
pub fn c_string_lossy(value: &str) -> (res: String)
    ensures
        res@ == escape_nuls(value@),
        nul_free(res@),
{
    let mut out = String::new();
    let ghost text = value@;
    for c in it: value.chars()
        invariant
            it.seq() == text,
            out@ == escape_nuls(text.take(it.index())),
            nul_free(out@),
    {
        proof {
            assert(text.take(it.index() + 1).drop_last() == text.take(it.index()));
        }
        if c == '\0' {
            push_char(&mut out, '\\');
            push_char(&mut out, '0');
        } else {
            push_char(&mut out, c);
        }
        proof {
            assert(out@ == escape_nuls(text.take(it.index() + 1)));
        }
    }
    proof {
        assert(text.take(text.len() as int) == text);
    }
    out
}

/// Joins two texts into a new `String`.
pub fn joined(a: &str, b: &str) -> (res: String)
    ensures
        res@ == a@ + b@,
{
    let mut out = a.to_owned();
    out.append(b);
    out
}

/// Compares two texts character by character.
pub fn same_text(a: &str, b: &str) -> (res: bool)
    ensures
        res == (a@ == b@),
{
    a.to_owned() == b.to_owned()
}

} // verus!
