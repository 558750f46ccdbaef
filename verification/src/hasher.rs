//! The block digest: SHA-256 over the block's fields written out in a fixed
//! order, rendered as sixty-four lowercase hexadecimal characters.

use crate::encoding::{decimal, hex, push_decimal, to_hex};
use sha2::{Digest, Sha256};
use vstd::prelude::*;
use vstd::string::*;
use vstd::utf8::encode_utf8;

verus! {

/// Number of characters in a block digest.
pub const DIGEST_LEN: usize = 64;

/// The SHA-256 digest of a byte string.
pub uninterp spec fn sha256(data: Seq<u8>) -> Seq<u8>;

/// Calls `sha2::Sha256::digest` (the `digest::Digest` method) and copies the
/// output array into a vector. Trusted: the result is SHA-256 of exactly the
/// bytes given, and is thirty-two bytes long, the output size that the
/// `Sha256` type fixes.
#[verifier::external_body]
fn sha256_bytes(data: &Vec<u8>) -> (out: Vec<u8>)
    ensures
        out@ == sha256(data@),
        out@.len() == 32,
{
    Sha256::digest(data).to_vec()
}

/// The bytes that are hashed for a block: index, timestamp, payload,
/// predecessor digest and nonce, in that order and with nothing between
/// them. Numbers are written in decimal and text in UTF-8.
pub open spec fn preimage(
    index: u64,
    timestamp: u64,
    data: Seq<char>,
    prev_hash: Seq<char>,
    nonce: u64,
) -> Seq<u8> {
    decimal(index as nat) + decimal(timestamp as nat) + encode_utf8(data) + encode_utf8(prev_hash)
        + decimal(nonce as nat)
}

/// The digest of a block with the given fields.
pub open spec fn block_digest(
    index: u64,
    timestamp: u64,
    data: Seq<char>,
    prev_hash: Seq<char>,
    nonce: u64,
) -> Seq<char> {
    hex(sha256(preimage(index, timestamp, data, prev_hash, nonce)))
}

/// Writes out the bytes that are hashed for a block.
pub fn block_preimage(index: u64, timestamp: u64, data: &str, prev_hash: &str, nonce: u64) -> (input:
    Vec<u8>)
    ensures
        input@ == preimage(index, timestamp, data@, prev_hash@, nonce),
{
    let mut input: Vec<u8> = Vec::new();
    push_decimal(&mut input, index);
    push_decimal(&mut input, timestamp);
    let mut data_bytes = data.as_bytes_vec();
    input.append(&mut data_bytes);
    let mut prev_bytes = prev_hash.as_bytes_vec();
    input.append(&mut prev_bytes);
    push_decimal(&mut input, nonce);
    assert(input@ =~= preimage(index, timestamp, data@, prev_hash@, nonce));
    input
}

/// Computes the digest of a block with the given fields.
///
/// The result depends on the five fields alone, so equal fields always give
/// the same digest.
pub fn hash_block(index: u64, timestamp: u64, data: &str, prev_hash: &str, nonce: u64) -> (hash:
    String)
    ensures
        hash@ == block_digest(index, timestamp, data@, prev_hash@, nonce),
        hash@.len() == DIGEST_LEN,
{
    let input = block_preimage(index, timestamp, data, prev_hash, nonce);
    let raw = sha256_bytes(&input);
    to_hex(&raw)
}

} // verus!
