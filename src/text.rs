//! Text fields: NUL-terminated names, permissively decoded UTF-8 and hex.

use vstd::prelude::*;
use vstd::string::StringSliceAdditionalSpecFns;
use vstd::utf8::{decode_utf8, valid_utf8};

verus! {

/// What `String::from_utf8_lossy` makes of a byte sequence.
pub uninterp spec fn lossy_text(b: Seq<u8>) -> Seq<char>;

/// Relies on `String::from_utf8_lossy`: valid UTF-8 decodes unchanged, and
/// each invalid sequence becomes a replacement character.
#[verifier::external_body]
pub(crate) fn text_from_bytes(b: &[u8]) -> (r: String)
    ensures
        r@ == lossy_text(b@),
        valid_utf8(b@) ==> r@ == decode_utf8(b@),
{
    String::from_utf8_lossy(b).into_owned()
}

/// The bytes of `t` before its first NUL byte, or all of `t` if it has none.
pub open spec fn until_nul(t: Seq<u8>) -> Seq<u8>
    decreases t.len(),
{
    if t.len() == 0 {
        t
    } else if t[0] == 0 {
        Seq::empty()
    } else {
        seq![t[0]] + until_nul(t.drop_first())
    }
}

/// A fixed-width text field: at most `max` bytes, cut at the first NUL.
pub open spec fn text_field(s: Seq<u8>, max: nat) -> Seq<u8> {
    until_nul(s.take(if s.len() < max { s.len() as int } else { max as int }))
}

proof fn lemma_until_nul(t: Seq<u8>, i: int)
    requires
        0 <= i <= t.len(),
        forall|j: int| 0 <= j < i ==> t[j] != 0,
        i == t.len() || t[i] == 0,
    ensures
        until_nul(t) == t.take(i),
    decreases t.len(),
{
    if t.len() == 0 {
        assert(t.take(i) =~= t);
    } else if t[0] == 0 {
        assert(t.take(i) =~= Seq::<u8>::empty());
    } else {
        lemma_until_nul(t.drop_first(), i - 1);
        assert(t.take(i) =~= seq![t[0]] + t.drop_first().take(i - 1));
    }
}

/// Decodes a NUL-terminated or fixed-width text field of at most `max_len`
/// bytes.
pub fn parse_string(data: &[u8], max_len: usize) -> (r: String)
    ensures
        r@ == lossy_text(text_field(data@, max_len as nat)),
{
    let limit: usize = if data.len() < max_len {
        data.len()
    } else {
        max_len
    };
    let mut i: usize = 0;
    while i < limit && data[i] != 0
        invariant
            limit <= data@.len(),
            i <= limit,
            forall|j: int| 0 <= j < i ==> data@[j] != 0,
        decreases limit - i,
    {
        i = i + 1;
    }
    proof {
        let t = data@.take(limit as int);
        lemma_until_nul(t, i as int);
        assert(t.take(i as int) =~= data@.subrange(0, i as int));
    }
    text_from_bytes(&data[0..i])
}

/// The lower-case hex digit of a value below 16.
pub open spec fn hex_digit(n: int) -> char {
    if n < 10 {
        (('0' as int) + n) as char
    } else {
        (('a' as int) + n - 10) as char
    }
}

/// Two lower-case hex digits per byte, high nibble first.
pub open spec fn hex_lower(b: Seq<u8>) -> Seq<char> {
    Seq::new(
        2 * b.len(),
        |k: int| if k % 2 == 0 { hex_digit(b[k / 2] as int / 16) } else { hex_digit(b[k / 2] as int % 16) },
    )
}

/// The value of a hex digit byte of either case, or `None`.
pub open spec fn hex_value(c: u8) -> Option<u8> {
    if 0x30 <= c <= 0x39 {
        Some((c - 0x30) as u8)
    } else if 0x41 <= c <= 0x46 {
        Some((c - 0x41 + 10) as u8)
    } else if 0x61 <= c <= 0x66 {
        Some((c - 0x61 + 10) as u8)
    } else {
        None
    }
}

/// Whether `s` is an even number of hex digit bytes.
pub open spec fn is_hex(s: Seq<u8>) -> bool {
    s.len() % 2 == 0 && forall|k: int| 0 <= k < s.len() ==> (#[trigger] hex_value(s[k])) is Some
}

/// The bytes that an even run of hex digits spells, high nibble first.
pub open spec fn unhex(s: Seq<u8>) -> Seq<u8> {
    Seq::new(
        s.len() / 2,
        |i: int| (16 * hex_value(s[2 * i])->0 + hex_value(s[2 * i + 1])->0) as u8,
    )
}

/// Relies on `hex::encode`: two lower-case digits per byte, high nibble first.
#[verifier::external_body]
pub(crate) fn hex_encode(b: &[u8]) -> (r: String)
    ensures
        r@ == hex_lower(b@),
{
    hex::encode(b)
}

/// Relies on `hex::decode`: succeeds exactly on an even number of hex
/// digits of either case, and gives the bytes they spell.
#[verifier::external_body]
pub(crate) fn hex_decode(s: &str) -> (r: Option<Vec<u8>>)
    ensures
        r is Some <==> is_hex(s.spec_bytes()),
        r matches Some(v) ==> v@ == unhex(s.spec_bytes()),
{
    hex::decode(s).ok()
}

} // verus!
