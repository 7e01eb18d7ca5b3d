//! The checksum engine: the SHA-1 and SHA-256 digests of a file's content,
//! in lower-case hexadecimal.

use crate::document::{Algorithm, FileChecksum};
use sha1::Digest;
use vstd::prelude::*;

verus! {

/// The SHA-1 digest of `data`.
pub uninterp spec fn sha1_of(data: Seq<u8>) -> Seq<u8>;

/// The SHA-256 digest of `data`.
pub uninterp spec fn sha256_of(data: Seq<u8>) -> Seq<u8>;

/// The lower-case hexadecimal digit of `n` (below 16).
pub open spec fn hex_digit(n: u8) -> char {
    seq!['0', '1', '2', '3', '4', '5', '6', '7', '8', '9', 'a', 'b', 'c', 'd', 'e', 'f'][n as int]
}

/// `data` in lower-case hexadecimal, two digits per byte, high digit first.
pub open spec fn hex_of(data: Seq<u8>) -> Seq<char>
    decreases data.len(),
{
    if data.len() == 0 {
        Seq::empty()
    } else {
        hex_of(data.drop_last()) + seq![hex_digit(data.last() / 16), hex_digit(data.last() % 16)]
    }
}

/// Relies on `sha1::Sha1::digest`: the 20-byte SHA-1 digest of `data`.
#[verifier::external_body]
fn sha1_digest(data: &[u8]) -> (r: Vec<u8>)
    ensures
        r@ == sha1_of(data@),
        r@.len() == 20,
{
    sha1::Sha1::digest(data).to_vec()
}

/// Relies on `sha2::Sha256::digest`: the 32-byte SHA-256 digest of `data`.
#[verifier::external_body]
fn sha256_digest(data: &[u8]) -> (r: Vec<u8>)
    ensures
        r@ == sha256_of(data@),
        r@.len() == 32,
{
    sha2::Sha256::digest(data).to_vec()
}

/// Relies on `hex::encode`: two lower-case digits per byte, high digit first.
#[verifier::external_body]
fn to_hex(data: &Vec<u8>) -> (r: String)
    ensures
        r@ == hex_of(data@),
{
    hex::encode(data)
}

/// The view of a list of checksums: each algorithm with its digest.
pub open spec fn checksum_views(sums: Seq<FileChecksum>) -> Seq<(Algorithm, Seq<char>)> {
    sums.map_values(|c: FileChecksum| (c.algorithm, c.checksum_value@))
}

/// Whether `sums` are the checksums of `content`: SHA-1 first, then SHA-256,
/// each in lower-case hexadecimal.
pub open spec fn are_checksums_of(sums: Seq<FileChecksum>, content: Seq<u8>) -> bool {
    checksum_views(sums) == seq![
        (Algorithm::Sha1, hex_of(sha1_of(content))),
        (Algorithm::Sha256, hex_of(sha256_of(content))),
    ]
}

/// The checksums of a file whose content is `content`.
pub fn checksums(content: &[u8]) -> (r: Vec<FileChecksum>)
    ensures
        are_checksums_of(r@, content@),
{
    let d1 = sha1_digest(content);
    let d256 = sha256_digest(content);
    let r = vec![
        FileChecksum { algorithm: Algorithm::Sha1, checksum_value: to_hex(&d1) },
        FileChecksum { algorithm: Algorithm::Sha256, checksum_value: to_hex(&d256) },
    ];
    assert(checksum_views(r@) =~= seq![
        (Algorithm::Sha1, hex_of(sha1_of(content@))),
        (Algorithm::Sha256, hex_of(sha256_of(content@))),
    ]);
    r
}

/// Computing the checksums of the same content twice gives the same
/// digests.
pub proof fn lemma_checksums_deterministic(
    first: Seq<FileChecksum>,
    second: Seq<FileChecksum>,
    content: Seq<u8>,
)
    requires
        are_checksums_of(first, content),
        are_checksums_of(second, content),
    ensures
        checksum_views(first) == checksum_views(second),
{
}

} // verus!
