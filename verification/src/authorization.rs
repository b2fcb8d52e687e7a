//! Who may spend a token: signatures and the owner schemes.

use vstd::prelude::*;
use vstd::slice::slice_subrange;

use crate::bytes::same_bytes;
use crate::consensus::{
    consensus_hash_type, ecdsa_hash, ecdsa_signature_hash, in_family, is_in_family, schnorr_hash,
    schnorr_signature_hash,
};
use crate::crypto::{
    blake3_keyed_hash, blake3_keyed_of, ecdsa_verifies, schnorr_verifies, script_hash_lock,
    verify_ecdsa, verify_schnorr,
};
use crate::state::{
    OWNER_COVENANT_ID, OWNER_P2PKH_ECDSA, OWNER_P2PKH_SCHNORR, OWNER_P2PK_SCHNORR, OWNER_P2SH,
};
use crate::transaction::{Lock, Transaction, TransactionView};

verus! {

/// The BLAKE3 key of the public-key hashes: the text `PublicKeyHash`, filled up with
/// zeros.
pub const PUBLIC_KEY_HASH_DOMAIN: [u8; 32] = [
    0x50, 0x75, 0x62, 0x6c, 0x69, 0x63, 0x4b, 0x65, 0x79, 0x48, 0x61, 0x73, 0x68, 0, 0, 0, 0, 0, 0,
    0, 0, 0, 0, 0, 0, 0, 0, 0, 0, 0, 0, 0,
];

/// The hash of a public key that an owner field holds.
pub open spec fn public_key_hash_of(key: Seq<u8>) -> Seq<u8> {
    blake3_keyed_of(PUBLIC_KEY_HASH_DOMAIN@, key)
}

/// The hash of a public key that an owner field holds.
pub fn public_key_hash(key: &[u8]) -> (hash: [u8; 32])
    ensures
        hash@ == public_key_hash_of(key@),
{
    blake3_keyed_hash(&PUBLIC_KEY_HASH_DOMAIN, key)
}

/// Whether 65 bytes are a Schnorr signature of an input by a key: 64 signature bytes,
/// then a signature hash type of the consensus.
pub open spec fn schnorr_authorizes(
    tx: TransactionView,
    index: int,
    key: Seq<u8>,
    signature: Seq<u8>,
) -> bool {
    &&& signature.len() == 65
    &&& consensus_hash_type(signature[64])
    &&& schnorr_verifies(signature.take(64), schnorr_hash(tx, index, signature[64]), key)
}

/// Whether 65 bytes are an ECDSA signature of an input by a key: 64 compact signature
/// bytes, then a signature hash type of the consensus.
pub open spec fn ecdsa_authorizes(
    tx: TransactionView,
    index: int,
    key: Seq<u8>,
    signature: Seq<u8>,
) -> bool {
    &&& signature.len() == 65
    &&& consensus_hash_type(signature[64])
    &&& ecdsa_verifies(signature.take(64), ecdsa_hash(tx, index, signature[64]), key)
}

/// Whether bytes authorize an input by the owner of its state.
pub open spec fn owner_authorizes(
    tx: TransactionView,
    index: int,
    owner_scheme: u8,
    owner: [u8; 32],
    bytes: Seq<u8>,
) -> bool {
    if owner_scheme == OWNER_P2PK_SCHNORR {
        schnorr_authorizes(tx, index, owner@, bytes)
    } else if owner_scheme == OWNER_P2PKH_SCHNORR {
        &&& bytes.len() == 97
        &&& public_key_hash_of(bytes.take(32)) == owner@
        &&& schnorr_authorizes(tx, index, bytes.take(32), bytes.skip(32))
    } else if owner_scheme == OWNER_P2PKH_ECDSA {
        &&& bytes.len() == 98
        &&& public_key_hash_of(bytes.take(33)) == owner@
        &&& ecdsa_authorizes(tx, index, bytes.take(33), bytes.skip(33))
    } else if owner_scheme == OWNER_P2SH {
        &&& bytes.len() == 1
        &&& bytes[0] < tx.inputs.len()
        &&& tx.inputs[bytes[0] as int].utxo.lock == script_hash_lock(owner@)
    } else if owner_scheme == OWNER_COVENANT_ID {
        &&& bytes.len() == 0
        &&& exists|i: int| 0 <= i < tx.inputs.len() && #[trigger] in_family(tx, i, owner)
    } else {
        false
    }
}

/// Whether a byte is a signature hash type of the consensus.
pub fn is_consensus_hash_type(byte: u8) -> (valid: bool)
    ensures
        valid == consensus_hash_type(byte),
{
    byte == 0x01 || byte == 0x02 || byte == 0x04 || byte == 0x81 || byte == 0x82 || byte == 0x84
}

/// Whether bytes are a Schnorr signature of an input by a key.
pub fn check_schnorr(tx: &Transaction, index: usize, key: &[u8], signature: &[u8]) -> (valid: bool)
    requires
        index < tx.inputs@.len(),
    ensures
        valid == schnorr_authorizes(tx@, index as int, key@, signature@),
{
    if signature.len() != 65 || !is_consensus_hash_type(signature[64]) {
        return false;
    }
    let digest = schnorr_signature_hash(tx, index, signature[64]);
    let bare = slice_subrange(signature, 0, 64);
    assert(bare@ =~= signature@.take(64));
    verify_schnorr(bare, &digest, key)
}

/// Whether bytes are an ECDSA signature of an input by a key.
pub fn check_ecdsa(tx: &Transaction, index: usize, key: &[u8], signature: &[u8]) -> (valid: bool)
    requires
        index < tx.inputs@.len(),
    ensures
        valid == ecdsa_authorizes(tx@, index as int, key@, signature@),
{
    if signature.len() != 65 || !is_consensus_hash_type(signature[64]) {
        return false;
    }
    let digest = ecdsa_signature_hash(tx, index, signature[64]);
    let bare = slice_subrange(signature, 0, 64);
    assert(bare@ =~= signature@.take(64));
    verify_ecdsa(bare, &digest, key)
}

/// Whether a lock is the version-0 envelope of a redeem-script commitment.
pub fn is_script_hash_lock(lock: &Lock, hash: &[u8; 32]) -> (envelope: bool)
    ensures
        envelope == (lock@ == script_hash_lock(hash@)),
{
    if lock.version != 0 || lock.script.len() != 35 || lock.script[0] != 0xaa || lock.script[1]
        != 0x20 || lock.script[34] != 0x87 {
        proof {
            let script = script_hash_lock(hash@).script;
            assert(script.len() == 35 && script[0] == 0xaa && script[1] == 0x20 && script[34]
                == 0x87);
        }
        return false;
    }
    let committed = slice_subrange(lock.script.as_slice(), 2, 34);
    proof {
        let script = script_hash_lock(hash@).script;
        assert(script.subrange(2, 34) =~= hash@);
        if committed@ == hash@ {
            assert(lock.script@ =~= script);
        }
    }
    same_bytes(committed, hash.as_slice())
}

/// Whether an input of the transaction belongs to a covenant family.
pub fn has_family_input(tx: &Transaction, covenant_id: &[u8; 32]) -> (found: bool)
    ensures
        found == exists|i: int|
            0 <= i < tx@.inputs.len() && #[trigger] in_family(tx@, i, *covenant_id),
{
    let mut i: usize = 0;
    while i < tx.inputs.len()
        invariant
            i <= tx.inputs@.len(),
            forall|j: int| 0 <= j < i ==> !#[trigger] in_family(tx@, j, *covenant_id),
        decreases tx.inputs@.len() - i,
    {
        if is_in_family(tx, i, covenant_id) {
            return true;
        }
        i += 1;
    }
    false
}

/// Whether bytes authorize an input by the owner of its state.
pub fn check_owner(
    tx: &Transaction,
    index: usize,
    owner_scheme: u8,
    owner: &[u8; 32],
    bytes: &[u8],
) -> (authorized: bool)
    requires
        index < tx.inputs@.len(),
    ensures
        authorized == owner_authorizes(tx@, index as int, owner_scheme, *owner, bytes@),
{
    if owner_scheme == OWNER_P2PK_SCHNORR {
        check_schnorr(tx, index, owner.as_slice(), bytes)
    } else if owner_scheme == OWNER_P2PKH_SCHNORR {
        if bytes.len() != 97 {
            return false;
        }
        let key = slice_subrange(bytes, 0, 32);
        let signature = slice_subrange(bytes, 32, 97);
        assert(key@ =~= bytes@.take(32));
        assert(signature@ =~= bytes@.skip(32));
        let hash = public_key_hash(key);
        same_bytes(hash.as_slice(), owner.as_slice()) && check_schnorr(tx, index, key, signature)
    } else if owner_scheme == OWNER_P2PKH_ECDSA {
        if bytes.len() != 98 {
            return false;
        }
        let key = slice_subrange(bytes, 0, 33);
        let signature = slice_subrange(bytes, 33, 98);
        assert(key@ =~= bytes@.take(33));
        assert(signature@ =~= bytes@.skip(33));
        let hash = public_key_hash(key);
        same_bytes(hash.as_slice(), owner.as_slice()) && check_ecdsa(tx, index, key, signature)
    } else if owner_scheme == OWNER_P2SH {
        bytes.len() == 1 && (bytes[0] as usize) < tx.inputs.len() && is_script_hash_lock(
            &tx.inputs[bytes[0] as usize].utxo.lock,
            owner,
        )
    } else if owner_scheme == OWNER_COVENANT_ID {
        bytes.len() == 0 && has_family_input(tx, owner)
    } else {
        false
    }
}

} // verus!
