//! Hashes, keys and signatures of the outside crates.

use secp256k1::{ecdsa, schnorr, Keypair, Message, PublicKey, Secp256k1, SecretKey, XOnlyPublicKey};
use vstd::prelude::*;

use crate::transaction::{Lock, LockView};

verus! {

/// The order of the secp256k1 group.
pub open spec fn curve_order() -> int {
    0xFFFFFFFF_FFFFFFFF_FFFFFFFF_FFFFFFFE_BAAEDCE6_AF48A03B_BFD25E8C_D0364141int
}

/// The integer whose big-endian form is a byte string.
pub open spec fn big_endian(bytes: Seq<u8>) -> int
    decreases bytes.len(),
{
    if bytes.len() == 0 {
        0
    } else {
        big_endian(bytes.drop_last()) * 0x100 + bytes.last()
    }
}

/// Whether a byte string is a secret key: 32 bytes, big-endian, neither zero nor
/// beyond the group order.
pub open spec fn valid_secret(secret: Seq<u8>) -> bool {
    secret.len() == 32 && 0 < big_endian(secret) < curve_order()
}

/// Whether two secret keys are the same or each other's negation modulo the group order.
pub open spec fn equal_or_opposite(a: Seq<u8>, b: Seq<u8>) -> bool {
    a == b || big_endian(a) + big_endian(b) == curve_order()
}

/// What `blake3::hash` returns.
pub uninterp spec fn blake3_of(data: Seq<u8>) -> Seq<u8>;

/// Calls `blake3::hash`: the digest is a function of the data.
#[verifier::external_body]
pub(crate) fn blake3_hash(data: &[u8]) -> (digest: [u8; 32])
    ensures
        digest@ == blake3_of(data@),
{
    *blake3::hash(data).as_bytes()
}

/// What `blake3::keyed_hash` returns.
pub uninterp spec fn blake3_keyed_of(key: Seq<u8>, data: Seq<u8>) -> Seq<u8>;

/// Calls `blake3::keyed_hash`: the digest is a function of the key and the data.
#[verifier::external_body]
pub(crate) fn blake3_keyed_hash(key: &[u8; 32], data: &[u8]) -> (digest: [u8; 32])
    ensures
        digest@ == blake3_keyed_of(key@, data@),
{
    *blake3::keyed_hash(key, data).as_bytes()
}

/// What `Keypair::x_only_public_key` returns for a secret key, serialized.
pub uninterp spec fn x_only_key_of(secret: Seq<u8>) -> Seq<u8>;

/// Calls `Keypair::from_secret_key` and `Keypair::x_only_public_key`: a valid
/// secret has one x-only public key. The key is a point up to its sign, and the point
/// is the secret's multiple of a generator of the whole group, so another valid secret
/// has the same key only where it is the negation of this one.
#[verifier::external_body]
pub(crate) fn x_only_public_key(secret: &[u8; 32]) -> (key: [u8; 32])
    requires
        valid_secret(secret@),
    ensures
        key@ == x_only_key_of(secret@),
        forall|other: Seq<u8>|
            valid_secret(other) && #[trigger] x_only_key_of(other) == key@ ==> equal_or_opposite(
                other,
                secret@,
            ),
{
    let secret = SecretKey::from_slice(secret).unwrap();
    Keypair::from_secret_key(&Secp256k1::new(), &secret).x_only_public_key().0.serialize()
}

/// Whether `schnorr::Signature::verify` accepts a signature of a digest by an
/// x-only public key, false where one of them is malformed.
pub uninterp spec fn schnorr_verifies(signature: Seq<u8>, digest: Seq<u8>, key: Seq<u8>) -> bool;

/// Calls `schnorr::Signature::verify`: the answer is a function of the signature,
/// the digest and the key. A malformed signature or key is an answer of `false`.
#[verifier::external_body]
pub(crate) fn verify_schnorr(signature: &[u8], digest: &[u8; 32], key: &[u8]) -> (valid: bool)
    ensures
        valid == schnorr_verifies(signature@, digest@, key@),
{
    match (schnorr::Signature::from_slice(signature), XOnlyPublicKey::from_slice(key)) {
        (Ok(signature), Ok(key)) => signature.verify(&Message::from_digest(*digest), &key).is_ok(),
        _ => false,
    }
}

/// Calls `Keypair::sign_schnorr`, which draws auxiliary randomness: whatever it
/// draws, the signature verifies under the secret's x-only public key.
#[verifier::external_body]
pub(crate) fn sign_schnorr(secret: &[u8; 32], digest: &[u8; 32]) -> (signature: [u8; 64])
    requires
        valid_secret(secret@),
    ensures
        schnorr_verifies(signature@, digest@, x_only_key_of(secret@)),
{
    let secret = SecretKey::from_slice(secret).unwrap();
    let key = Keypair::from_secret_key(&Secp256k1::new(), &secret);
    key.sign_schnorr(Message::from_digest(*digest)).serialize()
}

/// Whether `ecdsa::Signature::verify` accepts a compact signature of a digest by a
/// public key, false where one of them is malformed.
pub uninterp spec fn ecdsa_verifies(signature: Seq<u8>, digest: Seq<u8>, key: Seq<u8>) -> bool;

/// Calls `ecdsa::Signature::verify`: the answer is a function of the signature, the
/// digest and the key. A malformed signature or key is an answer of `false`.
#[verifier::external_body]
pub(crate) fn verify_ecdsa(signature: &[u8], digest: &[u8; 32], key: &[u8]) -> (valid: bool)
    ensures
        valid == ecdsa_verifies(signature@, digest@, key@),
{
    match (ecdsa::Signature::from_compact(signature), PublicKey::from_slice(key)) {
        (Ok(signature), Ok(key)) => signature.verify(&Message::from_digest(*digest), &key).is_ok(),
        _ => false,
    }
}

/// The BLAKE2b hash that `kaspa_txscript::pay_to_script_hash_script` commits to.
pub uninterp spec fn script_hash_of(redeem_script: Seq<u8>) -> Seq<u8>;

/// The version-0 script-hash envelope: OP_BLAKE2B, a 32-byte push of the hash,
/// OP_EQUAL.
pub open spec fn script_hash_lock(hash: Seq<u8>) -> LockView {
    LockView { version: 0, script: seq![0xaau8, 0x20u8] + hash + seq![0x87u8] }
}

/// Calls `kaspa_txscript::pay_to_script_hash_script`: the lock is the version-0
/// envelope of the 32-byte hash of the redeem script.
#[verifier::external_body]
pub(crate) fn pay_to_script_hash(redeem_script: &[u8]) -> (lock: Lock)
    ensures
        lock@ == script_hash_lock(script_hash_of(redeem_script@)),
        lock@.script.len() == 35,
{
    let key = kaspa_txscript::pay_to_script_hash_script(redeem_script);
    Lock { version: key.version(), script: key.script().to_vec() }
}

} // verus!
