//! Salted one-way hashing of client tokens, and constant-time comparison.
//!
//! A stored credential carries `hash_password(token, salt)`: the lowercase
//! hex encoding of the SHA-256 digest of the token's bytes followed by the
//! salt's bytes. Only the digest itself is an outside computation; the
//! concatenation and the hex encoding are verified here.

use vstd::prelude::*;
use vstd::string::StrSliceExecFns;
use vstd::string::StringExecFns;
use vstd::utf8::encode_utf8;
use sha2::Digest;

verus! {

/// The SHA-256 digest of a byte sequence, as the `sha2` crate computes it.
pub uninterp spec fn sha256_digest(data: Seq<u8>) -> Seq<u8>;

/// Relies on `sha2::Sha256` (`Digest::new`/`update`/`finalize`): the digest
/// depends on the input bytes alone.
#[verifier::external_body]
fn sha256(data: &[u8]) -> (r: Vec<u8>)
    ensures
        r@ == sha256_digest(data@),
{
    let mut hasher = sha2::Sha256::new();
    hasher.update(data);
    hasher.finalize().to_vec()
}

/// The lowercase hex digit for a value below 16.
pub open spec fn spec_hex_char(nibble: u8) -> char
    recommends
        nibble < 16,
{
    if nibble == 0 { '0' }
    else if nibble == 1 { '1' }
    else if nibble == 2 { '2' }
    else if nibble == 3 { '3' }
    else if nibble == 4 { '4' }
    else if nibble == 5 { '5' }
    else if nibble == 6 { '6' }
    else if nibble == 7 { '7' }
    else if nibble == 8 { '8' }
    else if nibble == 9 { '9' }
    else if nibble == 10 { 'a' }
    else if nibble == 11 { 'b' }
    else if nibble == 12 { 'c' }
    else if nibble == 13 { 'd' }
    else if nibble == 14 { 'e' }
    else { 'f' }
}

fn hex_str(nibble: u8) -> (r: &'static str)
    requires
        nibble < 16,
    ensures
        r@ =~= seq![spec_hex_char(nibble)],
{
    proof {
        reveal_strlit("0");
        reveal_strlit("1");
        reveal_strlit("2");
        reveal_strlit("3");
        reveal_strlit("4");
        reveal_strlit("5");
        reveal_strlit("6");
        reveal_strlit("7");
        reveal_strlit("8");
        reveal_strlit("9");
        reveal_strlit("a");
        reveal_strlit("b");
        reveal_strlit("c");
        reveal_strlit("d");
        reveal_strlit("e");
        reveal_strlit("f");
    }
    match nibble {
        0 => "0",
        1 => "1",
        2 => "2",
        3 => "3",
        4 => "4",
        5 => "5",
        6 => "6",
        7 => "7",
        8 => "8",
        9 => "9",
        10 => "a",
        11 => "b",
        12 => "c",
        13 => "d",
        14 => "e",
        _ => "f",
    }
}

/// The lowercase hex encoding of a byte sequence: two digits per byte,
/// high nibble first.
pub open spec fn spec_hex_lower(data: Seq<u8>) -> Seq<char>
    decreases data.len(),
{
    if data.len() == 0 {
        Seq::empty()
    } else {
        spec_hex_lower(data.drop_last())
            + seq![spec_hex_char(data.last() / 16), spec_hex_char(data.last() % 16)]
    }
}

/// Encodes bytes as lowercase hex, as `format!("{:x}", digest)` renders a
/// SHA-256 digest.
pub fn hex_lower(data: &Vec<u8>) -> (r: String)
    ensures
        r@ == spec_hex_lower(data@),
{
    let mut out = String::new();
    let mut i: usize = 0;
    while i < data.len()
        invariant
            i <= data@.len(),
            out@ == spec_hex_lower(data@.subrange(0, i as int)),
        decreases data@.len() - i,
    {
        let b = data[i];
        out.append(hex_str(b / 16));
        out.append(hex_str(b % 16));
        proof {
            assert(data@.subrange(0, i + 1).drop_last() =~= data@.subrange(0, i as int));
            assert(data@.subrange(0, i + 1).last() == b);
        }
        i = i + 1;
    }
    proof {
        assert(data@.subrange(0, data@.len() as int) =~= data@);
    }
    out
}

/// What a stored credential's hashed token is: the lowercase hex encoding of
/// the SHA-256 digest of the token's bytes followed by the salt's bytes.
pub open spec fn hash_of(token: Seq<char>, salt: Seq<char>) -> Seq<char> {
    spec_hex_lower(sha256_digest(encode_utf8(token) + encode_utf8(salt)))
}

/// Hashes a plaintext token with the process-wide salt.
pub fn hash_password(password: &str, salt: &str) -> (r: String)
    ensures
        r@ == hash_of(password@, salt@),
{
    let mut data: Vec<u8> = password.as_bytes_vec();
    let mut salt_bytes: Vec<u8> = salt.as_bytes_vec();
    data.append(&mut salt_bytes);
    proof {
        assert(data@ == encode_utf8(password@) + encode_utf8(salt@));
    }
    let digest = sha256(data.as_slice());
    hex_lower(&digest)
}

/// Equality of two byte slices, computed without short-circuiting on the
/// first mismatch: the comparison touches every byte whenever the lengths
/// agree, so its timing does not reveal the position of a difference.
pub fn constant_time_eq(a: &[u8], b: &[u8]) -> (r: bool)
    ensures
        r == (a@ == b@),
{
    if a.len() != b.len() {
        proof {
            assert(a@ != b@);
        }
        return false;
    }
    let mut diff: u8 = 0;
    let mut i: usize = 0;
    while i < a.len()
        invariant
            a@.len() == b@.len(),
            i <= a@.len(),
            diff == 0 <==> (forall|j: int| 0 <= j < i ==> a@[j] == b@[j]),
        decreases a@.len() - i,
    {
        let x = a[i];
        let y = b[i];
        let d = x ^ y;
        proof {
            assert((x ^ y) == 0 <==> x == y) by (bit_vector);
            assert((diff | d) == 0 <==> (diff == 0 && d == 0)) by (bit_vector);
        }
        diff = diff | d;
        i = i + 1;
    }
    if diff == 0 {
        proof {
            assert(a@ =~= b@);
        }
        true
    } else {
        proof {
            assert(a@ != b@);
        }
        false
    }
}

/// Equality of two strings through [`constant_time_eq`] on their UTF-8
/// bytes; byte equality and character equality coincide.
pub fn constant_time_str_eq(a: &str, b: &str) -> (r: bool)
    ensures
        r == (a@ == b@),
{
    let r = constant_time_eq(a.as_bytes(), b.as_bytes());
    proof {
        vstd::utf8::encode_utf8_decode_utf8(a@);
        vstd::utf8::encode_utf8_decode_utf8(b@);
    }
    r
}

} // verus!
