//! Naming the capture binary: the embedded executable's bytes are digested
//! and the digest's hex form is appended to a platform prefix, so that a
//! stale binary on disk is never mistaken for the current one.

use vstd::prelude::*;
use vstd::string::{StringExecFns, StrSliceExecFns};
use sha2::{Digest, Sha256};

verus! {

/// The SHA-256 digest of a byte sequence.
pub uninterp spec fn sha256_of(bytes: Seq<u8>) -> Seq<u8>;

/// Relies on sha2's `Sha256` through the `Digest` trait's one-shot digest:
/// the result depends on the input bytes alone and is 32 bytes long.
#[verifier::external_body]
pub fn sha256_digest(bytes: &[u8]) -> (r: Vec<u8>)
    ensures
        r@ == sha256_of(bytes@),
        r@.len() == 32,
{
    Sha256::digest(bytes).to_vec()
}

/// The character for one hex nibble, lowercase.
pub open spec fn hex_digit(d: u8) -> char {
    if d == 0 {
        '0'
    } else if d == 1 {
        '1'
    } else if d == 2 {
        '2'
    } else if d == 3 {
        '3'
    } else if d == 4 {
        '4'
    } else if d == 5 {
        '5'
    } else if d == 6 {
        '6'
    } else if d == 7 {
        '7'
    } else if d == 8 {
        '8'
    } else if d == 9 {
        '9'
    } else if d == 10 {
        'a'
    } else if d == 11 {
        'b'
    } else if d == 12 {
        'c'
    } else if d == 13 {
        'd'
    } else if d == 14 {
        'e'
    } else {
        'f'
    }
}

/// The lowercase hex form of a byte sequence: two digits per byte, high
/// nibble first.
pub open spec fn hex_of(bytes: Seq<u8>) -> Seq<char> {
    Seq::new(
        bytes.len() * 2,
        |i: int|
            if i % 2 == 0 {
                hex_digit(bytes[i / 2] >> 4)
            } else {
                hex_digit(bytes[i / 2] & 0x0f)
            },
    )
}

/// Relies on hex's `encode`: lowercase, two digits per byte, high nibble
/// first.
#[verifier::external_body]
pub fn hex_encode(bytes: &[u8]) -> (r: String)
    ensures
        r@ == hex_of(bytes@),
{
    hex::encode(bytes)
}

/// The name the capture binary is stored under: the platform prefix, an
/// underscore, and the hex form of the executable bytes' digest. The host
/// picks the prefix for its platform and hands in the embedded bytes.
pub fn get_cli_binary_name(prefix: &str, ecapture_bytes: &[u8]) -> (r: String)
    ensures
        r@ == prefix@ + "_"@ + hex_of(sha256_of(ecapture_bytes@)),
{
    let digest = sha256_digest(ecapture_bytes);
    let hash_string = hex_encode(digest.as_slice());
    let mut s = String::from_str(prefix);
    s.append("_");
    s.append(hash_string.as_str());
    proof {
        assert(s@ =~= prefix@ + "_"@ + hex_of(sha256_of(ecapture_bytes@)));
    }
    s
}

} // verus!
