use soulbound::codec::be_bytes;
use soulbound::consent::get_hash;
use soulbound::crypto::CryptoProvider;
use soulbound::demo::demo_sign;
use soulbound::demo::DemoCrypto;
use soulbound::engine::SoulboundToken;
use soulbound::engine::TransferError;
use soulbound::identity::Identity;

fn ident(byte: u8) -> Identity {
    Identity::from_bytes(vec![byte; 32]).unwrap()
}

fn sign_consent(crypto: &DemoCrypto, active: &Identity, passive: &Identity, id: u64) -> Vec<u8> {
    let digest = get_hash(crypto, active, passive, id);
    demo_sign(passive.as_bytes(), &digest)
}

fn fresh_state(next_id: u64) -> SoulboundToken {
    let mut s = SoulboundToken::init(String::from("Soulbound"), String::from("SBT"));
    s.set_next_token_id(next_id);
    s
}

#[test]
fn identity_rejects_wrong_width() {
    assert!(Identity::from_bytes(vec![1u8; 31]).is_none());
    assert!(Identity::from_bytes(vec![1u8; 33]).is_none());
    assert!(Identity::from_bytes(Vec::new()).is_none());
    assert!(Identity::from_bytes(vec![1u8; 32]).is_some());
}

#[test]
fn null_identity_is_null() {
    let null = Identity::null();
    assert!(null.is_null());
    assert_eq!(null.as_bytes().as_slice(), &[0u8; 32]);
    assert!(!ident(1).is_null());
}

#[test]
fn identity_duplicate_and_equality() {
    let a = ident(9);
    let copy = a.duplicate();
    assert!(copy == a);
    assert!(a != ident(10));
}

#[test]
fn be_bytes_exact_values() {
    assert_eq!(be_bytes(0), Vec::<u8>::new());
    assert_eq!(be_bytes(1), vec![1u8]);
    assert_eq!(be_bytes(255), vec![255u8]);
    assert_eq!(be_bytes(256), vec![1u8, 0u8]);
    assert_eq!(be_bytes(0x0102), vec![1u8, 2u8]);
    assert_eq!(be_bytes(u64::MAX), vec![255u8; 8]);
}

#[test]
fn demo_hash_is_deterministic_and_32_bytes() {
    let crypto = DemoCrypto;
    let data = vec![1u8, 2u8, 3u8];
    let d1 = crypto.hash32(&data);
    let d2 = crypto.hash32(&data);
    assert_eq!(d1.len(), 32);
    assert_eq!(d1, d2);
    let other = crypto.hash32(&vec![3u8, 2u8, 1u8]);
    assert_ne!(d1, other);
}

#[test]
fn demo_signature_roundtrip() {
    let crypto = DemoCrypto;
    let key = vec![5u8; 32];
    let msg = crypto.hash32(&vec![1u8, 2u8]);
    let sig = demo_sign(&key, &msg);
    assert!(crypto.verify(&key, &msg, &sig));
    let mut bad = sig.clone();
    bad[0] ^= 1;
    assert!(!crypto.verify(&key, &msg, &bad));
    let wrong_key = vec![6u8; 32];
    assert!(!crypto.verify(&wrong_key, &msg, &sig));
}

#[test]
fn digest_matches_hash_of_canonical_preimage() {
    let crypto = DemoCrypto;
    let a = ident(1);
    let b = ident(2);
    let id: u64 = 770;
    let mut preimage = Vec::new();
    preimage.extend_from_slice(a.as_bytes());
    preimage.extend_from_slice(b.as_bytes());
    preimage.extend_from_slice(&[3u8, 2u8]);
    assert_eq!(get_hash(&crypto, &a, &b, id), crypto.hash32(&preimage));
}

#[test]
fn digest_is_asymmetric_in_roles() {
    let crypto = DemoCrypto;
    let a = ident(1);
    let b = ident(2);
    assert_ne!(get_hash(&crypto, &a, &b, 0), get_hash(&crypto, &b, &a, 0));
    assert_ne!(get_hash(&crypto, &a, &b, 7), get_hash(&crypto, &b, &a, 7));
}

#[test]
fn give_transfers_with_recipient_consent() {
    let crypto = DemoCrypto;
    let mut s = fresh_state(1);
    let a = ident(1);
    let b = ident(2);
    let sig = sign_consent(&crypto, &a, &b, 0);
    assert_eq!(s.give(&crypto, &a, &b, 0, &sig), Ok(0));
    assert!(s.token_owner(0) == b);
    assert!(s.used_hash(0));
    let log = s.transfer_log();
    assert_eq!(log.len(), 1);
    assert!(log[0].from == a);
    assert!(log[0].to == b);
    assert_eq!(log[0].token_id, 0);
}

#[test]
fn give_rejects_self_transfer_even_with_valid_signature() {
    let crypto = DemoCrypto;
    let mut s = fresh_state(1);
    let a = ident(1);
    let sig = sign_consent(&crypto, &a, &a, 0);
    assert_eq!(s.give(&crypto, &a, &a, 0, &sig), Err(TransferError::SelfTransfer));
    assert!(s.token_owner(0).is_null());
    assert!(!s.used_hash(0));
    assert!(s.transfer_log().is_empty());
}

#[test]
fn give_rejects_unminted_identifier() {
    let crypto = DemoCrypto;
    let mut s = fresh_state(1);
    let a = ident(1);
    let b = ident(2);
    let sig = sign_consent(&crypto, &a, &b, 1);
    assert_eq!(s.give(&crypto, &a, &b, 1, &sig), Err(TransferError::NotMinted));
}

#[test]
fn give_rejects_invalid_signature() {
    let crypto = DemoCrypto;
    let mut s = fresh_state(1);
    let a = ident(1);
    let b = ident(2);
    // signed by the wrong counterpart: consent must come from the recipient
    let digest = get_hash(&crypto, &a, &b, 0);
    let sig = demo_sign(a.as_bytes(), &digest);
    assert_eq!(s.give(&crypto, &a, &b, 0, &sig), Err(TransferError::InvalidSignature));
    assert!(s.token_owner(0).is_null());
    assert!(!s.used_hash(0));
}

#[test]
fn give_reports_consumed_consent_before_signature_validity() {
    let crypto = DemoCrypto;
    let mut s = fresh_state(1);
    let a = ident(1);
    let b = ident(2);
    let sig = sign_consent(&crypto, &a, &b, 0);
    assert_eq!(s.give(&crypto, &a, &b, 0, &sig), Ok(0));
    // identical resubmission: refused as already used
    assert_eq!(s.give(&crypto, &a, &b, 0, &sig), Err(TransferError::AgreementAlreadyUsed));
    // even a garbage signature reports the consumed consent first
    let garbage = vec![0u8; 32];
    assert_eq!(s.give(&crypto, &a, &b, 0, &garbage), Err(TransferError::AgreementAlreadyUsed));
    // the state did not move
    assert!(s.token_owner(0) == b);
    assert_eq!(s.transfer_log().len(), 1);
}

#[test]
fn give_reports_self_transfer_before_the_range_check() {
    let crypto = DemoCrypto;
    let mut s = fresh_state(1);
    let a = ident(1);
    let sig = vec![0u8; 32];
    assert_eq!(s.give(&crypto, &a, &a, 9, &sig), Err(TransferError::SelfTransfer));
}

#[test]
fn unequip_reports_unauthorized_before_the_range_check() {
    let mut s = fresh_state(1);
    // identifier 9 is unissued, but the caller is not its (null) owner either
    assert_eq!(s.unequip(&ident(1), 9), Err(TransferError::Unauthorized));
}

#[test]
fn take_consumes_consent_without_reassigning_ownership() {
    let crypto = DemoCrypto;
    let mut s = fresh_state(1);
    let a = ident(1);
    let b = ident(2);
    // b consents to relinquish; a takes
    let digest = get_hash(&crypto, &a, &b, 0);
    let sig = demo_sign(b.as_bytes(), &digest);
    assert_eq!(s.take(&crypto, &a, &b, 0, &sig), Ok(0));
    assert!(s.used_hash(0));
    // the ownership record deliberately stays as it was, and nothing is logged
    assert!(s.token_owner(0).is_null());
    assert!(s.transfer_log().is_empty());
}

#[test]
fn take_rejects_self_and_unminted_and_bad_signature() {
    let crypto = DemoCrypto;
    let mut s = fresh_state(1);
    let a = ident(1);
    let b = ident(2);
    let sig = sign_consent(&crypto, &a, &b, 0);
    assert_eq!(s.take(&crypto, &a, &a, 0, &sig), Err(TransferError::SelfTransfer));
    assert_eq!(s.take(&crypto, &a, &b, 5, &sig), Err(TransferError::NotMinted));
    let garbage = vec![9u8; 32];
    assert_eq!(s.take(&crypto, &a, &b, 0, &garbage), Err(TransferError::InvalidSignature));
}

#[test]
fn take_replay_is_rejected() {
    let crypto = DemoCrypto;
    let mut s = fresh_state(1);
    let a = ident(1);
    let b = ident(2);
    let sig = sign_consent(&crypto, &a, &b, 0);
    assert_eq!(s.take(&crypto, &a, &b, 0, &sig), Ok(0));
    assert_eq!(s.take(&crypto, &a, &b, 0, &sig), Err(TransferError::AgreementAlreadyUsed));
}

#[test]
fn safe_check_agreement_orders_its_checks() {
    let crypto = DemoCrypto;
    let mut s = fresh_state(1);
    let a = ident(1);
    let b = ident(2);
    let good = sign_consent(&crypto, &a, &b, 0);
    let garbage = vec![0u8; 32];
    assert_eq!(s.safe_check_agreement(&crypto, &a, &b, 0, &good), Ok(()));
    assert_eq!(
        s.safe_check_agreement(&crypto, &a, &b, 0, &garbage),
        Err(TransferError::InvalidSignature)
    );
    // checking consumes nothing: the same consent still passes, and a
    // consumed one is reported before the signature is even looked at
    assert_eq!(s.give(&crypto, &a, &b, 0, &good), Ok(0));
    assert_eq!(
        s.safe_check_agreement(&crypto, &a, &b, 0, &garbage),
        Err(TransferError::AgreementAlreadyUsed)
    );
}

#[test]
fn unequip_requires_current_owner() {
    let crypto = DemoCrypto;
    let mut s = fresh_state(1);
    let a = ident(1);
    let b = ident(2);
    let sig = sign_consent(&crypto, &a, &b, 0);
    assert_eq!(s.give(&crypto, &a, &b, 0, &sig), Ok(0));
    // the giver is not the owner any more than a stranger is
    assert_eq!(s.unequip(&a, 0), Err(TransferError::Unauthorized));
    assert_eq!(s.unequip(&ident(3), 0), Err(TransferError::Unauthorized));
    assert!(s.token_owner(0) == b);
    assert!(s.used_hash(0));
}

#[test]
fn unequip_rejects_unminted_identifier() {
    let mut s = fresh_state(1);
    // an unissued identifier is owned by the null identity, so only the
    // range check can reject its release
    assert_eq!(s.unequip(&Identity::null(), 4), Err(TransferError::NotMinted));
}

#[test]
fn unequip_releases_and_clears_the_flag() {
    let crypto = DemoCrypto;
    let mut s = fresh_state(1);
    let a = ident(1);
    let b = ident(2);
    let sig = sign_consent(&crypto, &a, &b, 0);
    assert_eq!(s.give(&crypto, &a, &b, 0, &sig), Ok(0));
    assert_eq!(s.unequip(&b, 0), Ok(()));
    assert!(s.token_owner(0).is_null());
    assert!(!s.used_hash(0));
    let log = s.transfer_log();
    assert_eq!(log.len(), 2);
    assert!(log[1].from == b);
    assert!(log[1].to.is_null());
    assert_eq!(log[1].token_id, 0);
}

#[test]
fn released_token_accepts_the_same_signature_again() {
    // consents carry no per-cycle nonce: reuse across equip cycles is
    // intentional
    let crypto = DemoCrypto;
    let mut s = fresh_state(1);
    let a = ident(1);
    let b = ident(2);
    let sig1 = sign_consent(&crypto, &a, &b, 0);
    assert_eq!(s.give(&crypto, &a, &b, 0, &sig1), Ok(0));
    assert!(s.token_owner(0) == b);
    assert!(s.used_hash(0));
    assert_eq!(s.unequip(&b, 0), Ok(()));
    assert!(s.token_owner(0).is_null());
    assert!(!s.used_hash(0));
    assert_eq!(s.give(&crypto, &a, &b, 0, &sig1), Ok(0));
    assert!(s.token_owner(0) == b);
    assert!(s.used_hash(0));
}

#[test]
fn balance_counts_owned_identifiers() {
    let crypto = DemoCrypto;
    let mut s = fresh_state(3);
    let a = ident(1);
    let b = ident(2);
    let c = ident(3);
    assert_eq!(s.balance(&b), 0);
    let sig0 = sign_consent(&crypto, &a, &b, 0);
    let sig2 = sign_consent(&crypto, &a, &b, 2);
    assert_eq!(s.give(&crypto, &a, &b, 0, &sig0), Ok(0));
    assert_eq!(s.give(&crypto, &a, &b, 2, &sig2), Ok(2));
    let sig1 = sign_consent(&crypto, &a, &c, 1);
    assert_eq!(s.give(&crypto, &a, &c, 1, &sig1), Ok(1));
    assert_eq!(s.balance(&b), 2);
    assert_eq!(s.balance(&c), 1);
    assert_eq!(s.balance(&a), 0);
    assert_eq!(s.balance(&Identity::null()), 0);
    assert_eq!(s.unequip(&b, 0), Ok(()));
    assert_eq!(s.balance(&b), 1);
    assert_eq!(s.balance(&Identity::null()), 1);
}

#[test]
fn init_sets_name_symbol_and_empty_state() {
    let s = SoulboundToken::init(String::from("Soulbound"), String::from("SBT"));
    assert_eq!(s.token_name().as_str(), "Soulbound");
    assert_eq!(s.token_symbol().as_str(), "SBT");
    assert_eq!(s.next_token_id(), 0);
    assert!(s.token_owner(0).is_null());
    assert!(!s.used_hash(0));
    assert!(s.transfer_log().is_empty());
}

#[test]
fn set_next_token_id_opens_the_range() {
    let crypto = DemoCrypto;
    let mut s = fresh_state(0);
    let a = ident(1);
    let b = ident(2);
    let sig = sign_consent(&crypto, &a, &b, 0);
    assert_eq!(s.give(&crypto, &a, &b, 0, &sig), Err(TransferError::NotMinted));
    s.set_next_token_id(1);
    assert_eq!(s.next_token_id(), 1);
    assert_eq!(s.give(&crypto, &a, &b, 0, &sig), Ok(0));
}

#[test]
fn end_to_end_exchange() {
    let crypto = DemoCrypto;
    let mut s = fresh_state(1);
    let a = ident(0xAA);
    let b = ident(0xBB);
    // b signs the digest for (active: a, passive: b, id 0)
    let sig1 = sign_consent(&crypto, &a, &b, 0);
    assert_eq!(s.give(&crypto, &a, &b, 0, &sig1), Ok(0));
    assert!(s.token_owner(0) == b);
    assert!(s.used_hash(0));
    assert_eq!(s.unequip(&b, 0), Ok(()));
    assert!(s.token_owner(0).is_null());
    assert!(!s.used_hash(0));
    assert_eq!(s.give(&crypto, &a, &b, 0, &sig1), Ok(0));
    assert!(s.token_owner(0) == b);
    assert_eq!(s.transfer_log().len(), 3);
}
