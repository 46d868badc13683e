//! Growing a `String` and cutting prefixes out of text.

use vstd::prelude::*;
use vstd::utf8::{decode_utf8, encode_utf8, is_char_boundary};

verus! {

/// The number of bytes that `s` takes in UTF-8.
pub open spec fn byte_len(s: Seq<char>) -> nat {
    encode_utf8(s).len()
}

/// How many bytes UTF-8 takes for `c`: one below U+0080, two below U+0800,
/// three below U+10000, four above.
pub open spec fn utf8_width(c: char) -> nat {
    if (c as u32) < 0x80 {
        1
    } else if (c as u32) < 0x800 {
        2
    } else if (c as u32) < 0x10000 {
        3
    } else {
        4
    }
}

/// The sum of the UTF-8 widths of the characters of `s`.
pub open spec fn total_utf8_width(s: Seq<char>) -> nat
    decreases s.len(),
{
    if s.len() == 0 {
        0
    } else {
        utf8_width(s[0]) + total_utf8_width(s.drop_first())
    }
}

/// The UTF-8 length of a text is the sum of the widths of its characters.
pub proof fn lemma_byte_len_is_total_width(s: Seq<char>)
    ensures
        byte_len(s) == total_utf8_width(s),
    decreases s.len(),
{
    if s.len() > 0 {
        vstd::utf8::char_is_scalar(s[0]);
        lemma_byte_len_is_total_width(s.drop_first());
    }
}

/// `String::push`: appends one character.
#[verifier::external_body]
pub(crate) fn push_char(s: &mut String, c: char)
    ensures
        final(s)@ == old(s)@.push(c),
{
    s.push(c)
}

/// The first `n` characters of `s`, or all of `s` when it is shorter: what
/// `s.chars().take(n)` yields.
pub open spec fn first_chars(s: Seq<char>, n: nat) -> Seq<char> {
    if s.len() <= n {
        s
    } else {
        s.take(n as int)
    }
}

/// The first `n` characters of `s` are its start, as long as `n` or as `s`,
/// whichever is shorter.
pub proof fn lemma_first_chars(s: Seq<char>, n: nat)
    ensures
        first_chars(s, n) == s.subrange(0, if s.len() <= n { s.len() as int } else { n as int }),
{
    if s.len() <= n {
        assert(s =~= s.subrange(0, s.len() as int));
    }
}

/// Appends the first `n` characters of `s` (all of `s` when it is shorter) to `out`.
pub(crate) fn push_first_chars(out: &mut String, s: &str, n: usize)
    ensures
        final(out)@ == old(out)@ + first_chars(s@, n as nat),
{
    let len = s.unicode_len();
    let end = if len <= n {
        len
    } else {
        n
    };
    out.append(s.substring_char(0, end));
    assert(s@.subrange(0, end as int) =~= first_chars(s@, n as nat));
}

/// The characters of `s` whose UTF-8 encoding is the first `k` bytes of the
/// encoding of `s`, the text that `&s[..k]` denotes.
pub open spec fn byte_prefix(s: Seq<char>, k: nat) -> Seq<char> {
    decode_utf8(encode_utf8(s).take(k as int))
}

/// Whether byte `k` of the UTF-8 encoding of `s` starts a character (or ends
/// the text), so that `&s[..k]` is defined.
pub open spec fn on_char_boundary(s: Seq<char>, k: nat) -> bool {
    is_char_boundary(encode_utf8(s), k as int)
}

/// The last character boundary of `s` at or before byte `k`: `k` itself when
/// it is one, else the nearest boundary before it (byte 0 always is one).
pub open spec fn boundary_at_or_before(s: Seq<char>, k: nat) -> nat
    decreases k,
{
    if k == 0 || on_char_boundary(s, k) {
        k
    } else {
        boundary_at_or_before(s, (k - 1) as nat)
    }
}

/// The boundary found by [`boundary_at_or_before`] is a boundary, lies at or
/// before `k`, and no boundary lies between it and `k`.
pub proof fn lemma_boundary_at_or_before(s: Seq<char>, k: nat)
    ensures
        boundary_at_or_before(s, k) <= k,
        on_char_boundary(s, boundary_at_or_before(s, k)),
        forall|j: nat|
            boundary_at_or_before(s, k) < j <= k ==> !#[trigger] on_char_boundary(s, j),
    decreases k,
{
    broadcast use vstd::utf8::encode_utf8_valid_utf8;

    if k == 0 {
        assert(vstd::utf8::valid_utf8(encode_utf8(s)));
        assert(is_char_boundary(encode_utf8(s), 0));
    } else if !on_char_boundary(s, k) {
        lemma_boundary_at_or_before(s, (k - 1) as nat);
    }
}

/// The last character boundary of `s` at or before byte `k`.
pub(crate) fn last_boundary_at_or_before(s: &str, k: usize) -> (b: usize)
    ensures
        b == boundary_at_or_before(s@, k as nat),
{
    let mut b = k;
    while b > 0 && !s.is_char_boundary(b)
        invariant
            b <= k,
            boundary_at_or_before(s@, b as nat) == boundary_at_or_before(s@, k as nat),
        decreases b,
    {
        b = b - 1;
    }
    b
}

/// `&s[..k]`: the first `k` bytes of `s`, which must end on a character boundary.
pub(crate) fn str_byte_prefix(s: &str, k: usize) -> (p: &str)
    requires
        on_char_boundary(s@, k as nat),
    ensures
        p@ == byte_prefix(s@, k as nat),
{
    broadcast use vstd::utf8::encode_utf8_decode_utf8;

    let (head, _tail) = s.split_at(k);
    assert(encode_utf8(head@) =~= encode_utf8(s@).take(k as int));
    head
}

/// Cutting `s` at a character boundary keeps the start of `s`, and the kept
/// part takes exactly the bytes before the cut.
pub proof fn lemma_byte_prefix(s: Seq<char>, k: nat)
    requires
        on_char_boundary(s, k),
        k <= byte_len(s),
    ensures
        byte_prefix(s, k).is_prefix_of(s),
        byte_len(byte_prefix(s, k)) == k,
{
    broadcast use vstd::utf8::encode_utf8_decode_utf8, vstd::utf8::encode_utf8_valid_utf8;

    let bytes = encode_utf8(s);
    vstd::utf8::decode_utf8_split(bytes, k as int);
    vstd::utf8::valid_utf8_split(bytes, k as int);
    assert(bytes.take(k as int) =~= bytes.subrange(0, k as int));
    vstd::utf8::decode_utf8_encode_utf8(bytes.subrange(0, k as int));
    let rest = decode_utf8(bytes.subrange(k as int, bytes.len() as int));
    assert(s =~= byte_prefix(s, k) + rest);
    assert(byte_prefix(s, k) =~= s.take(byte_prefix(s, k).len() as int));
}

} // verus!
