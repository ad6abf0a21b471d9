use vstd::prelude::*;

verus! {

/// The hash and signature primitives the transfer engine is built over.
///
/// The engine never fixes a particular algorithm: an execution environment
/// supplies one by implementing this trait, and every contract of the engine
/// speaks of that implementation's own `hash_spec` and `verify_spec`. A
/// deterministic demonstration provider lives in [`crate::demo`].
///
/// The protocol additionally expects `hash_spec` to be collision-resistant;
/// that is a property of the chosen implementation, not something this trait
/// can enforce, so digest distinctness is stated over preimages (see
/// [`crate::consent`]).
pub trait CryptoProvider {
    /// The 32-byte digest this provider assigns to a byte string.
    spec fn hash_spec(&self, data: Seq<u8>) -> Seq<u8>;

    /// Whether `signature` is a valid signature over `message` for the
    /// participant whose raw identity bytes are `key`.
    spec fn verify_spec(&self, key: Seq<u8>, message: Seq<u8>, signature: Seq<u8>) -> bool;

    /// Computes the provider's 32-byte digest of `data`.
    fn hash32(&self, data: &Vec<u8>) -> (digest: Vec<u8>)
        ensures
            digest@ == self.hash_spec(data@),
            digest@.len() == 32,
    ;

    /// Checks `signature` over `message` against the identity bytes `key`.
    fn verify(&self, key: &Vec<u8>, message: &Vec<u8>, signature: &Vec<u8>) -> (ok: bool)
        ensures
            ok == self.verify_spec(key@, message@, signature@),
    ;
}

} // verus!
