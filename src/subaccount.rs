use sha2::Digest;
use vstd::prelude::*;

use crate::types::Identity;

verus! {

/// The SHA-256 digest of a byte sequence.
pub uninterp spec fn sha256_of(data: Seq<u8>) -> Seq<u8>;

/// Relies on `sha2::Sha256::digest`: the SHA-256 digest of the bytes given,
/// which depends on those bytes alone.
#[verifier::external_body]
fn sha256(data: &Vec<u8>) -> (r: [u8; 32])
    ensures
        r@ == sha256_of(data@),
{
    sha2::Sha256::digest(data.as_slice()).into()
}

/// The big-endian encoding of a `u64`, most significant byte first.
pub open spec fn be_bytes(t: u64) -> Seq<u8> {
    seq![
        (t >> 56u64) as u8,
        (t >> 48u64) as u8,
        (t >> 40u64) as u8,
        (t >> 32u64) as u8,
        (t >> 24u64) as u8,
        (t >> 16u64) as u8,
        (t >> 8u64) as u8,
        t as u8,
    ]
}

/// The bytes that are hashed to form a deposit subaccount: the user's raw
/// identity bytes followed by the big-endian timelock.
pub open spec fn hash_input(user: Seq<u8>, timelock: u64) -> Seq<u8> {
    user + be_bytes(timelock)
}

/// The deposit subaccount of a (user, timelock) pair.
pub open spec fn subaccount_spec(user: Seq<u8>, timelock: u64) -> Seq<u8> {
    sha256_of(hash_input(user, timelock))
}

/// Builds the hash input of a (user, timelock) pair.
pub fn subaccount_preimage(user: &Identity, timelock: u64) -> (r: Vec<u8>)
    ensures
        r@ == hash_input(user@, timelock),
{
    let mut r: Vec<u8> = user.duplicate().bytes;
    r.push((timelock >> 56u64) as u8);
    r.push((timelock >> 48u64) as u8);
    r.push((timelock >> 40u64) as u8);
    r.push((timelock >> 32u64) as u8);
    r.push((timelock >> 24u64) as u8);
    r.push((timelock >> 16u64) as u8);
    r.push((timelock >> 8u64) as u8);
    r.push(timelock as u8);
    proof {
        assert(r@ =~= hash_input(user@, timelock));
    }
    r
}

/// Derives the deposit subaccount of `user` for `timelock` seconds.
pub fn subaccount_of(user: &Identity, timelock: u64) -> (r: [u8; 32])
    ensures
        r@ == subaccount_spec(user@, timelock),
{
    let data = subaccount_preimage(user, timelock);
    sha256(&data)
}

/// The deposit subaccount of `user` for `timelock` seconds: the SHA-256 digest
/// of the user's raw bytes followed by the big-endian timelock. Any timelock is
/// accepted here, zero included.
pub fn get_deposit_subaccount(user: Identity, timelock: u64) -> (r: [u8; 32])
    ensures
        r@ == subaccount_spec(user@, timelock),
{
    subaccount_of(&user, timelock)
}

/// Distinct timelocks have distinct big-endian encodings.
pub proof fn lemma_be_bytes_injective(a: u64, b: u64)
    requires
        be_bytes(a) == be_bytes(b),
    ensures
        a == b,
{
    assert(be_bytes(a)[0] == be_bytes(b)[0]);
    assert(be_bytes(a)[1] == be_bytes(b)[1]);
    assert(be_bytes(a)[2] == be_bytes(b)[2]);
    assert(be_bytes(a)[3] == be_bytes(b)[3]);
    assert(be_bytes(a)[4] == be_bytes(b)[4]);
    assert(be_bytes(a)[5] == be_bytes(b)[5]);
    assert(be_bytes(a)[6] == be_bytes(b)[6]);
    assert(be_bytes(a)[7] == be_bytes(b)[7]);
    assert(a == b) by (bit_vector)
        requires
            (a >> 56u64) as u8 == (b >> 56u64) as u8,
            (a >> 48u64) as u8 == (b >> 48u64) as u8,
            (a >> 40u64) as u8 == (b >> 40u64) as u8,
            (a >> 32u64) as u8 == (b >> 32u64) as u8,
            (a >> 24u64) as u8 == (b >> 24u64) as u8,
            (a >> 16u64) as u8 == (b >> 16u64) as u8,
            (a >> 8u64) as u8 == (b >> 8u64) as u8,
            a as u8 == b as u8,
    ;
}

/// The subaccount of a (user, timelock) pair is a function of the pair alone,
/// and distinct pairs are hashed from distinct inputs, so their subaccounts
/// differ unless SHA-256 collides.
pub proof fn lemma_subaccount_distinct_inputs(u1: Seq<u8>, t1: u64, u2: Seq<u8>, t2: u64)
    ensures
        (u1 == u2 && t1 == t2) ==> subaccount_spec(u1, t1) == subaccount_spec(u2, t2),
        (u1 != u2 || t1 != t2) ==> hash_input(u1, t1) != hash_input(u2, t2),
{
    if hash_input(u1, t1) == hash_input(u2, t2) {
        let h = hash_input(u1, t1);
        assert(be_bytes(t1).len() == 8 && be_bytes(t2).len() == 8);
        assert(h.len() == u1.len() + 8 && h.len() == u2.len() + 8);
        assert(u1 =~= h.subrange(0, u1.len() as int));
        assert(u2 =~= h.subrange(0, u2.len() as int));
        assert(be_bytes(t1) =~= h.subrange(u1.len() as int, h.len() as int));
        assert(be_bytes(t2) =~= h.subrange(u2.len() as int, h.len() as int));
        lemma_be_bytes_injective(t1, t2);
    }
}

} // verus!
