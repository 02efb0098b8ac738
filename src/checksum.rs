//! Content hashes of artifacts: SHA-256 digests written as lower-case hex.
use vstd::prelude::*;
use crate::text::{push_char, same_text};

verus! {

/// The SHA-256 digest of a byte sequence.
pub uninterp spec fn sha256_of(data: Seq<u8>) -> Seq<u8>;

/// Relies on sha2's `Sha256::digest`: the 32-byte SHA-256 digest of the input,
/// which depends on the bytes alone.
#[verifier::external_body]
fn sha256(data: &[u8]) -> (r: Vec<u8>)
    ensures
        r@ == sha256_of(data@),
        r@.len() == 32,
{
    <sha2::Sha256 as sha2::Digest>::digest(data).to_vec()
}

/// The lower-case hex character of a value below 16.
pub open spec fn hex_char(n: nat) -> char {
    if n < 10 {
        crate::text::decimal_digit(n)
    } else if n == 10 { 'a' }
    else if n == 11 { 'b' }
    else if n == 12 { 'c' }
    else if n == 13 { 'd' }
    else if n == 14 { 'e' }
    else { 'f' }
}

/// Lower-case hex notation of bytes: two characters per byte, high nibble first.
pub open spec fn hex_lower(b: Seq<u8>) -> Seq<char>
    decreases b.len(),
{
    if b.len() == 0 {
        Seq::empty()
    } else {
        let last = b.last();
        hex_lower(b.drop_last()).push(hex_char((last / 16) as nat)).push(
            hex_char((last % 16) as nat),
        )
    }
}

/// The checksum that the catalog stores for an artifact.
pub open spec fn checksum_of(data: Seq<u8>) -> Seq<char> {
    hex_lower(sha256_of(data))
}

fn hex_digit(n: u8) -> (c: char)
    requires
        n < 16,
    ensures
        c == hex_char(n as nat),
{
    match n {
        0 => '0',
        1 => '1',
        2 => '2',
        3 => '3',
        4 => '4',
        5 => '5',
        6 => '6',
        7 => '7',
        8 => '8',
        9 => '9',
        10 => 'a',
        11 => 'b',
        12 => 'c',
        13 => 'd',
        14 => 'e',
        _ => 'f',
    }
}

/// Writes bytes in lower-case hex.
pub fn to_hex(b: &[u8]) -> (r: String)
    ensures
        r@ == hex_lower(b@),
        r@.len() == 2 * b@.len(),
{
    let mut s = String::new();
    let mut i: usize = 0;
    while i < b.len()
        invariant
            i <= b@.len(),
            s@ == hex_lower(b@.subrange(0, i as int)),
            s@.len() == 2 * i,
        decreases b@.len() - i,
    {
        let x = b[i];
        push_char(&mut s, hex_digit(x / 16));
        push_char(&mut s, hex_digit(x % 16));
        proof {
            let next = b@.subrange(0, i + 1);
            assert(next.drop_last() =~= b@.subrange(0, i as int));
            assert(next.last() == x);
        }
        i = i + 1;
    }
    assert(b@.subrange(0, b@.len() as int) =~= b@);
    s
}

/// The checksum of an artifact's bytes: its SHA-256 digest in lower-case hex.
pub fn compute_checksum(data: &[u8]) -> (r: String)
    ensures
        r@ == checksum_of(data@),
        r@.len() == 64,
{
    let d = sha256(data);
    to_hex(d.as_slice())
}

/// Whether a digest, written in lower-case hex, is exactly the expected text.
pub fn checksum_matches(digest: &[u8], expected: &str) -> (r: bool)
    ensures
        r == (hex_lower(digest@) == expected@),
{
    let h = to_hex(digest);
    same_text(h.as_str(), expected)
}

/// Whether `data` hashes to the expected checksum.
pub fn verify_checksum(data: &[u8], expected: &str) -> (r: bool)
    ensures
        r == checksum_accepts(data@, expected@),
{
    let d = sha256(data);
    checksum_matches(d.as_slice(), expected)
}

/// Whether the agent accepts `data` against an expected checksum.
pub open spec fn checksum_accepts(data: Seq<u8>, expected: Seq<char>) -> bool {
    checksum_of(data) == expected
}

/// Round trip: bytes downloaded unchanged are accepted against the checksum that
/// the catalog computed when they were uploaded.
pub proof fn checksum_round_trip(uploaded: Seq<u8>, downloaded: Seq<u8>)
    requires
        downloaded == uploaded,
    ensures
        checksum_accepts(downloaded, checksum_of(uploaded)),
{
}

} // verus!
