use vstd::prelude::*;

use crate::crypto::CryptoProvider;

verus! {

/// The accumulator a demo digest starts from.
pub const DEMO_SEED: u64 = 0x100;

/// One accumulation step of the demo hash: multiply, add the byte, add one
/// (so trailing zero bytes still move the accumulator), modulo `2^64`.
pub open spec fn demo_mix(h: u64, b: u8) -> u64 {
    (((h as nat) * 131 + (b as nat) + 1) % 0x10000000000000000) as u64
}

/// The accumulator after folding `data[i..]` into `h`, left to right.
pub open spec fn demo_fold(data: Seq<u8>, i: int, h: u64) -> u64
    decreases data.len() - i,
{
    if i < 0 || i >= data.len() {
        h
    } else {
        demo_fold(data, i + 1, demo_mix(h, data[i]))
    }
}

/// The 64-bit word the demo hash condenses a byte string to.
pub open spec fn demo_word(data: Seq<u8>) -> u64 {
    demo_fold(data, 0, DEMO_SEED)
}

/// Byte `j` (little-endian) of a 64-bit word.
pub open spec fn word_byte(h: u64, j: int) -> u8 {
    ((h as nat) / pow256(j) % 256) as u8
}

/// `256^j` for small non-negative `j`.
pub open spec fn pow256(j: int) -> nat
    decreases j,
{
    if j <= 0 {
        1
    } else {
        256 * pow256(j - 1)
    }
}

proof fn lemma_pow256_pos(j: int)
    ensures
        pow256(j) >= 1,
    decreases j,
{
    if j > 0 {
        lemma_pow256_pos(j - 1);
    }
}

/// The demo digest: the fold word's eight little-endian bytes, repeated to
/// fill 32 bytes.
pub open spec fn demo_digest(data: Seq<u8>) -> Seq<u8> {
    Seq::new(32, |i: int| word_byte(demo_word(data), i % 8))
}

/// Whether `sig` is the demo signature of `msg` under the identity bytes
/// `key`: byte-wise XOR of key and message.
pub open spec fn demo_sig_ok(key: Seq<u8>, msg: Seq<u8>, sig: Seq<u8>) -> bool {
    &&& key.len() == 32
    &&& msg.len() == 32
    &&& sig.len() == 32
    &&& forall|i: int| 0 <= i < 32 ==> sig[i] == (key[i] ^ msg[i])
}

/// A deterministic stand-in for a real cryptographic provider, for tests and
/// demonstrations: a multiplicative fold digest and XOR "signatures" whose
/// signing key is the identity itself. It offers no security whatsoever.
pub struct DemoCrypto;

fn demo_mix_exec(h: u64, b: u8) -> (r: u64)
    ensures
        r == demo_mix(h, b),
{
    let wide: u128 = (h as u128) * 131 + (b as u128) + 1;
    (wide % 0x10000000000000000u128) as u64
}

impl CryptoProvider for DemoCrypto {
    open spec fn hash_spec(&self, data: Seq<u8>) -> Seq<u8> {
        demo_digest(data)
    }

    open spec fn verify_spec(&self, key: Seq<u8>, message: Seq<u8>, signature: Seq<u8>) -> bool {
        demo_sig_ok(key, message, signature)
    }

    fn hash32(&self, data: &Vec<u8>) -> (digest: Vec<u8>) {
        let mut h: u64 = DEMO_SEED;
        let mut i: usize = 0;
        while i < data.len()
            invariant
                i <= data@.len(),
                demo_word(data@) == demo_fold(data@, i as int, h),
            decreases data@.len() - i,
        {
            h = demo_mix_exec(h, data[i]);
            i = i + 1;
        }
        let mut word_bytes: Vec<u8> = Vec::new();
        let mut rest: u64 = h;
        let mut j: usize = 0;
        while j < 8
            invariant
                j <= 8,
                word_bytes@.len() == j,
                rest as nat == (h as nat) / pow256(j as int),
                forall|k: int| 0 <= k < j ==> word_bytes@[k] == word_byte(h, k),
            decreases 8 - j,
        {
            word_bytes.push((rest % 256) as u8);
            proof {
                lemma_pow256_pos(j as int);
                assert((h as nat) / pow256(j as int) / 256 == (h as nat) / pow256(j as int + 1))
                    by {
                    vstd::arithmetic::div_mod::lemma_div_denominator(
                        h as int,
                        pow256(j as int) as int,
                        256,
                    );
                }
            }
            rest = rest / 256;
            j = j + 1;
        }
        let mut digest: Vec<u8> = Vec::new();
        let mut i: usize = 0;
        while i < 32
            invariant
                i <= 32,
                word_bytes@.len() == 8,
                forall|k: int| 0 <= k < 8 ==> word_bytes@[k] == word_byte(h, k),
                digest@.len() == i,
                forall|k: int| 0 <= k < i ==> digest@[k] == word_byte(h, k % 8),
            decreases 32 - i,
        {
            digest.push(word_bytes[i % 8]);
            i = i + 1;
        }
        proof {
            assert(digest@ =~= demo_digest(data@));
        }
        digest
    }

    fn verify(&self, key: &Vec<u8>, message: &Vec<u8>, signature: &Vec<u8>) -> (ok: bool) {
        if key.len() != 32 || message.len() != 32 || signature.len() != 32 {
            return false;
        }
        let mut i: usize = 0;
        while i < 32
            invariant
                key@.len() == 32,
                message@.len() == 32,
                signature@.len() == 32,
                i <= 32,
                forall|k: int| 0 <= k < i ==> signature@[k] == (key@[k] ^ message@[k]),
            decreases 32 - i,
        {
            if signature[i] != key[i] ^ message[i] {
                return false;
            }
            i = i + 1;
        }
        true
    }
}

/// Produces the demo signature of `msg` under the identity bytes `key`: the
/// signature [`DemoCrypto`] accepts for that key and message, and (XOR being
/// what it is) no other.
pub fn demo_sign(key: &Vec<u8>, msg: &Vec<u8>) -> (sig: Vec<u8>)
    requires
        key@.len() == 32,
        msg@.len() == 32,
    ensures
        demo_sig_ok(key@, msg@, sig@),
{
    let mut sig: Vec<u8> = Vec::new();
    let mut i: usize = 0;
    while i < 32
        invariant
            key@.len() == 32,
            msg@.len() == 32,
            i <= 32,
            sig@.len() == i,
            forall|k: int| 0 <= k < i ==> sig@[k] == (key@[k] ^ msg@[k]),
        decreases 32 - i,
    {
        sig.push(key[i] ^ msg[i]);
        i = i + 1;
    }
    sig
}

} // verus!
