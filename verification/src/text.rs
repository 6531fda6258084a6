//! Text made of repeated pieces.

use vstd::prelude::*;
use vstd::utf8::encode_utf8;
use vstd::utf8::is_ascii_chars;

verus! {

/// `n` copies of `s`, one after the other.
pub open spec fn repeated(s: Seq<char>, n: nat) -> Seq<char>
    decreases n,
{
    if n == 0 {
        Seq::empty()
    } else {
        repeated(s, (n - 1) as nat) + s
    }
}

/// A row of `n` dots.
pub open spec fn dots(n: nat) -> Seq<char> {
    Seq::new(n, |_i: int| '.')
}

/// Length in bytes of the UTF-8 encoding of `s`, as the `len` of a string gives it.
pub open spec fn byte_len(s: Seq<char>) -> usize {
    encode_utf8(s).len() as usize
}

/// `str::repeat` of std: a new string made of `n` copies of `s`. It panics
/// when the length of the result overflows, which `requires` leaves out.
#[verifier::external_body]
pub fn str_repeat(s: &str, n: usize) -> (r: String)
    requires
        encode_utf8(s@).len() * n <= isize::MAX,
    ensures
        r@ == repeated(s@, n as nat),
{
    s.repeat(n)
}

/// Repeating a single dot gives a row of dots.
pub proof fn lemma_repeated_dot(n: nat)
    ensures
        repeated(seq!['.'], n) == dots(n),
    decreases n,
{
    if n > 0 {
        lemma_repeated_dot((n - 1) as nat);
        assert(repeated(seq!['.'], n) =~= dots(n));
    } else {
        assert(repeated(seq!['.'], n) =~= dots(n));
    }
}

/// A row of dots takes one byte per dot.
pub proof fn lemma_dots_byte_len(n: nat)
    requires
        n <= usize::MAX,
    ensures
        encode_utf8(dots(n)).len() == n,
        byte_len(dots(n)) == n,
{
    assert(is_ascii_chars(dots(n)));
    vstd::utf8::is_ascii_chars_encode_utf8(dots(n));
}

} // verus!
