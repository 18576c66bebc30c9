//! Record type tags.
//!
//! Every record payload starts with an 8-byte discriminator: the first eight
//! bytes of the SHA-256 digest of `"account:"` followed by the record type's
//! name. Distinct record types therefore carry distinct tags in practice,
//! which is what defeats type-cosplay substitution.

use vstd::prelude::*;

use crate::codec::push_bytes;

verus! {

/// The first eight bytes of the SHA-256 digest of `input`.
pub uninterp spec fn sha8(input: Seq<u8>) -> Seq<u8>;

/// Relies on `solana_sha256_hasher::hash`: the SHA-256 digest, a function of
/// the input bytes alone; the first 8 of its 32 digest bytes are kept.
#[verifier::external_body]
fn hash_tag8(input: &Vec<u8>) -> (r: Vec<u8>)
    ensures
        r@ == sha8(input@),
        r@.len() == 8,
{
    let digest = solana_sha256_hasher::hash(input.as_slice());
    digest.to_bytes()[..8].to_vec()
}

/// The ASCII bytes of the fixed prefix `"account:"`.
pub open spec fn account_prefix_spec() -> Seq<u8> {
    seq![97u8, 99u8, 99u8, 111u8, 117u8, 110u8, 116u8, 58u8]
}

/// The tag of the record type called `name`: the truncated digest of the
/// prefixed type name.
pub open spec fn record_tag_spec(name: Seq<u8>) -> Seq<u8> {
    sha8(account_prefix_spec() + name)
}

/// Compute the 8-byte tag for the record type called `name`.
pub fn record_tag(name: &Vec<u8>) -> (r: Vec<u8>)
    ensures
        r@ == record_tag_spec(name@),
        r@.len() == 8,
{
    let mut preimage: Vec<u8> = Vec::new();
    preimage.push(97); // 'a'
    preimage.push(99); // 'c'
    preimage.push(99); // 'c'
    preimage.push(111); // 'o'
    preimage.push(117); // 'u'
    preimage.push(110); // 'n'
    preimage.push(116); // 't'
    preimage.push(58); // ':'
    proof {
        assert(preimage@ =~= account_prefix_spec());
    }
    push_bytes(&mut preimage, name);
    hash_tag8(&preimage)
}

} // verus!
