use vstd::prelude::*;

use svix_ksuid::{Ksuid, KsuidLike};

verus! {

/// The number that the bytes `b` denote in big-endian order.
pub open spec fn be_value(b: Seq<u8>) -> nat
    decreases b.len(),
{
    if b.len() == 0 {
        0
    } else {
        be_value(b.drop_last()) * 256 + b.last() as nat
    }
}

/// The base-62 digit for `d` (meant for `d < 62`): `0-9`, then `A-Z`, then
/// `a-z`.
pub open spec fn base62_digit(d: nat) -> char {
    if d < 10 {
        (48 + d) as char
    } else if d < 36 {
        (55 + d) as char
    } else {
        (61 + d) as char
    }
}

/// The last `width` base-62 digits of `n`, most significant first, padded
/// with `'0'` on the left.
pub open spec fn base62_fixed(n: nat, width: nat) -> Seq<char>
    decreases width,
{
    if width == 0 {
        Seq::empty()
    } else {
        base62_fixed(n / 62, (width - 1) as nat).push(base62_digit(n % 62))
    }
}

/// The text of a KSUID: its 20 bytes read as one big-endian number and
/// written as 27 base-62 digits.
pub open spec fn ksuid_text(bytes: Seq<u8>) -> Seq<char> {
    base62_fixed(be_value(bytes), 27)
}

/// The KSUID epoch, in seconds since the Unix epoch.
pub open spec fn ksuid_epoch() -> int {
    1_400_000_000
}

/// The creation time of a KSUID, in seconds since the Unix epoch: its
/// first four bytes (big-endian) count seconds from the KSUID epoch.
pub open spec fn ksuid_timestamp(bytes: Seq<u8>) -> int {
    be_value(bytes.take(4)) + ksuid_epoch()
}

/// `Ksuid::now(None)` of svix_ksuid, handed out as its 20 bytes: the first
/// four hold the current time in seconds since the KSUID epoch, the other
/// sixteen are random. Only the length is stated, as the rest depends on the
/// clock and on the random source (which panics if the operating system
/// gives no randomness).
#[verifier::external_body]
pub(crate) fn new_ksuid_bytes() -> (bytes: Vec<u8>)
    ensures
        bytes.len() == 20,
{
    Ksuid::now(None).bytes().to_vec()
}

/// `Ksuid::to_string` of svix_ksuid on the KSUID with the given bytes:
/// `base_encode::to_string` in base 62 with the alphabet `0-9A-Za-z`
/// (the big-endian number written in base 62), left-padded with `'0'` to
/// 27 characters. Twenty bytes never need more than 27 digits, so the text
/// is exactly those 27 digits.
#[verifier::external_body]
pub(crate) fn ksuid_to_string(bytes: &Vec<u8>) -> (text: String)
    requires
        bytes.len() == 20,
    ensures
        text@ == ksuid_text(bytes@),
{
    let array: [u8; 20] = bytes.as_slice().try_into().unwrap();
    Ksuid::from_bytes(array).to_string()
}

/// `Ksuid::timestamp_seconds` of svix_ksuid on the KSUID with the given
/// bytes: the raw big-endian `u32` of the first four bytes plus the KSUID
/// epoch `1_400_000_000`.
#[verifier::external_body]
pub(crate) fn ksuid_timestamp_seconds(bytes: &Vec<u8>) -> (seconds: i64)
    requires
        bytes.len() == 20,
    ensures
        seconds == ksuid_timestamp(bytes@),
{
    let array: [u8; 20] = bytes.as_slice().try_into().unwrap();
    Ksuid::from_bytes(array).timestamp_seconds()
}

/// Four bytes denote less than `2^32`.
pub proof fn lemma_four_bytes_bound(b: Seq<u8>)
    requires
        b.len() == 4,
    ensures
        be_value(b) < 0x1_0000_0000,
{
    let b3 = b.drop_last();
    let b2 = b3.drop_last();
    let b1 = b2.drop_last();
    let b0 = b1.drop_last();
    assert(b0.len() == 0);
    assert(be_value(b0) == 0);
    assert(be_value(b1) < 256);
    assert(be_value(b2) < 65536);
    assert(be_value(b3) < 0x100_0000);
}

/// A character of the base-62 alphabet: an ASCII digit or letter.
pub open spec fn is_base62_char(c: char) -> bool {
    ('0' <= c && c <= '9') || ('A' <= c && c <= 'Z') || ('a' <= c && c <= 'z')
}

/// `width` base-62 digits are `width` characters of the base-62 alphabet.
pub proof fn lemma_base62_fixed_shape(n: nat, width: nat)
    ensures
        base62_fixed(n, width).len() == width,
        forall|i: int| 0 <= i < width ==> is_base62_char(#[trigger] base62_fixed(n, width)[i]),
    decreases width,
{
    if width > 0 {
        lemma_base62_fixed_shape(n / 62, (width - 1) as nat);
        let d = n % 62;
        assert(is_base62_char(base62_digit(d)));
    }
}

/// The text of a KSUID is 27 characters, each an ASCII digit or letter.
pub proof fn lemma_ksuid_text_shape(bytes: Seq<u8>)
    ensures
        ksuid_text(bytes).len() == 27,
        forall|i: int| 0 <= i < 27 ==> is_base62_char(#[trigger] ksuid_text(bytes)[i]),
{
    lemma_base62_fixed_shape(be_value(bytes), 27);
}

/// A KSUID's creation time lies in the `2^32` seconds that follow the KSUID
/// epoch.
pub proof fn lemma_ksuid_timestamp_range(bytes: Seq<u8>)
    requires
        bytes.len() == 20,
    ensures
        ksuid_epoch() <= ksuid_timestamp(bytes) < ksuid_epoch() + 0x1_0000_0000,
{
    lemma_four_bytes_bound(bytes.take(4));
}

} // verus!
