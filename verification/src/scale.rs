//! The byte encodings that a resolution exchanges with its collaborators.
//!
//! The encodings themselves are produced and read by `parity_scale_codec`;
//! the functions marked `external_body` below state what it does and are
//! believed, not proved.

use crate::primitives::{AccountId, Index};
use parity_scale_codec::{Decode, Encode};
use vstd::bytes::{spec_u32_from_le_bytes, spec_u32_to_le_bytes};
use vstd::prelude::*;

verus! {

/// The tag that a pool transaction of `account` with index `nonce` provides:
/// the 32 bytes of the account, then the index in four little-endian bytes.
pub open spec fn tag_bytes(account: Seq<u8>, nonce: Index) -> Seq<u8> {
    account + index_bytes(nonce)
}

/// The index that a remote answer holds: its first four bytes, little-endian.
pub open spec fn index_of_bytes(bytes: Seq<u8>) -> Index
    recommends
        bytes.len() >= 4,
{
    spec_u32_from_le_bytes(bytes.subrange(0, 4))
}

/// Calls `Encode::encode` of `parity_scale_codec` on the pair of the account's
/// bytes and the index. A pair is encoded as its first part followed by its
/// second; an array of bytes as the bytes themselves; a `u32` as its four
/// little-endian bytes.
#[verifier::external_body]
pub(crate) fn encode_tag(account: &AccountId, nonce: Index) -> (tag: Vec<u8>)
    ensures
        tag@ == tag_bytes(account@, nonce),
{
    (account.bytes, nonce).encode()
}

/// Calls `Encode::encode` of `parity_scale_codec` on the account's bytes: an
/// array of bytes is encoded as the bytes themselves.
#[verifier::external_body]
pub(crate) fn encode_account(account: &AccountId) -> (data: Vec<u8>)
    ensures
        data@ == account@,
{
    account.bytes.encode()
}

/// Calls `Decode::decode` of `parity_scale_codec` for a `u32` on a byte slice.
/// It reads four bytes as a little-endian number and leaves the rest unread;
/// it fails exactly when fewer than four bytes are there. The failure's own
/// account of itself is left behind.
#[verifier::external_body]
pub(crate) fn decode_index(bytes: &[u8]) -> (decoded: Option<Index>)
    ensures
        decoded is Some <==> bytes@.len() >= 4,
        decoded matches Some(index) ==> index == index_of_bytes(bytes@),
{
    let mut input = bytes;
    u32::decode(&mut input).ok()
}

/// Calls `Decode::decode` of `parity_scale_codec` for an array of 32 bytes on
/// the 32 bytes of a signer: it reads them one by one, so it succeeds and
/// gives the same bytes back.
#[verifier::external_body]
pub(crate) fn decode_account(signer: &[u8; 32]) -> (decoded: Option<[u8; 32]>)
    ensures
        decoded is Some,
        decoded matches Some(bytes) ==> bytes@ == signer@,
{
    let mut input = &signer[..];
    <[u8; 32]>::decode(&mut input).ok()
}

/// The encoding of an index: its four little-endian bytes.
pub open spec fn index_bytes(index: Index) -> Seq<u8> {
    spec_u32_to_le_bytes(index)
}

/// An index is read back from its encoding, whatever bytes follow it.
pub proof fn lemma_index_round_trip(index: Index, rest: Seq<u8>)
    ensures
        (index_bytes(index) + rest).len() >= 4,
        index_of_bytes(index_bytes(index) + rest) == index,
{
    vstd::bytes::lemma_auto_spec_u32_to_from_le_bytes();
    assert((index_bytes(index) + rest).subrange(0, 4) =~= index_bytes(index));
}

/// Tags are told apart by the account and by the index.
pub proof fn lemma_tag_injective(a: Seq<u8>, m: Index, b: Seq<u8>, n: Index)
    requires
        a.len() == b.len(),
    ensures
        tag_bytes(a, m).len() == a.len() + 4,
        tag_bytes(a, m) == tag_bytes(b, n) <==> a == b && m == n,
{
    vstd::bytes::lemma_auto_spec_u32_to_from_le_bytes();
    let s = tag_bytes(a, m);
    let t = tag_bytes(b, n);
    let k = a.len() as int;
    assert(s.subrange(0, k) =~= a);
    assert(t.subrange(0, k) =~= b);
    assert(s.subrange(k, k + 4) =~= index_bytes(m));
    assert(t.subrange(k, k + 4) =~= index_bytes(n));
    if s == t {
        assert(spec_u32_from_le_bytes(index_bytes(m)) == m);
        assert(spec_u32_from_le_bytes(index_bytes(n)) == n);
    }
}

} // verus!
