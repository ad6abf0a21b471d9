use vstd::prelude::*;

use crate::codec;
use crate::crypto::CryptoProvider;
use crate::identity::Identity;

verus! {

/// The canonical byte string a consent signature is made over: the active
/// participant's identity, then the passive participant's identity, then the
/// minimal big-endian encoding of the token identifier.
///
/// The active participant initiates the transfer; the passive participant is
/// the counterpart whose signature is required. Because the two identities
/// enter in role order, a consent for one direction is a different message
/// than a consent for the reverse direction.
pub open spec fn consent_preimage(active: Seq<u8>, passive: Seq<u8>, token_id: u64) -> Seq<u8> {
    active + passive + codec::be_bytes_of(token_id as nat)
}

/// The consent digest: the provider's hash of [`consent_preimage`].
pub open spec fn consent_digest<C: CryptoProvider>(
    crypto: C,
    active: Seq<u8>,
    passive: Seq<u8>,
    token_id: u64,
) -> Seq<u8> {
    crypto.hash_spec(consent_preimage(active, passive, token_id))
}

/// Builds the consent digest for `(active, passive, token_id)`.
pub fn get_hash<C: CryptoProvider>(
    crypto: &C,
    active: &Identity,
    passive: &Identity,
    token_id: u64,
) -> (digest: Vec<u8>)
    ensures
        digest@ == consent_digest(*crypto, active@, passive@, token_id),
        digest@.len() == 32,
{
    let mut buffer: Vec<u8> = Vec::new();
    active.append_to(&mut buffer);
    passive.append_to(&mut buffer);
    codec::push_be_bytes(token_id, &mut buffer);
    proof {
        assert(buffer@ =~= consent_preimage(active@, passive@, token_id));
    }
    crypto.hash32(&buffer)
}

/// Distinct participants produce distinct consent messages in the two role
/// orders: for identities `a != b`, the preimage signed for `(active: a,
/// passive: b)` differs from the one signed for `(active: b, passive: a)`.
/// The digests themselves therefore differ whenever the provider's hash does
/// not collide on this pair of messages, which collision resistance rules out.
pub proof fn lemma_consent_preimage_asymmetric(a: Seq<u8>, b: Seq<u8>, token_id: u64)
    requires
        a.len() == 32,
        b.len() == 32,
        a != b,
    ensures
        consent_preimage(a, b, token_id) != consent_preimage(b, a, token_id),
{
    if forall|i: int| 0 <= i < 32 ==> a[i] == b[i] {
        assert(a =~= b);
    }
    let j = choose|j: int| 0 <= j < 32 && a[j] != b[j];
    assert(consent_preimage(a, b, token_id)[j] == a[j]);
    assert(consent_preimage(b, a, token_id)[j] == b[j]);
}

/// For distinct identities `a != b` the two role-ordered consent digests
/// differ, provided the provider's hash does not collide on that one pair of
/// (distinct, by [`lemma_consent_preimage_asymmetric`]) messages. No 32-byte
/// digest function can avoid such collisions outright, but a
/// collision-resistant one makes them infeasible to exhibit; the proviso is
/// stated here as the hypothesis.
pub proof fn lemma_consent_digest_asymmetric<C: CryptoProvider>(
    crypto: C,
    a: Seq<u8>,
    b: Seq<u8>,
    token_id: u64,
)
    requires
        a.len() == 32,
        b.len() == 32,
        a != b,
        crypto.hash_spec(consent_preimage(a, b, token_id)) == crypto.hash_spec(
            consent_preimage(b, a, token_id),
        ) ==> consent_preimage(a, b, token_id) == consent_preimage(b, a, token_id),
    ensures
        consent_digest(crypto, a, b, token_id) != consent_digest(crypto, b, a, token_id),
{
    lemma_consent_preimage_asymmetric(a, b, token_id);
}

} // verus!
