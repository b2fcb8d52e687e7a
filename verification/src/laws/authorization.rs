//! What authorizes a token input, in terms of its bytes.

use vstd::prelude::*;

use crate::authorization::{
    ecdsa_authorizes, owner_authorizes, public_key_hash_of, schnorr_authorizes,
    PUBLIC_KEY_HASH_DOMAIN,
};
use crate::consensus::{ecdsa_hash, in_family, schnorr_hash};
use crate::crypto::{
    blake3_keyed_of, ecdsa_verifies, schnorr_verifies, script_hash_lock,
};
use crate::transaction::TransactionView;

verus! {

/// A transaction signature is 65 bytes: the 65th is one of the six hash types, and the first
/// 64 are a signature, by the key itself, of the digest of that hash type for the input
/// itself. Nothing else is asked of it, and no key, input or hash type is favoured.
pub proof fn law_signature_bytes(
    tx: TransactionView,
    index: int,
    key: Seq<u8>,
    signature: Seq<u8>,
    hash_type: u8,
)
    requires
        signature.len() == 64,
    ensures
        ({
            let known = hash_type == 1 || hash_type == 2 || hash_type == 4 || hash_type == 129
                || hash_type == 130 || hash_type == 132;
            &&& schnorr_authorizes(tx, index, key, signature.push(hash_type)) <==> known
                && schnorr_verifies(signature, schnorr_hash(tx, index, hash_type), key)
            &&& ecdsa_authorizes(tx, index, key, signature.push(hash_type)) <==> known
                && ecdsa_verifies(signature, ecdsa_hash(tx, index, hash_type), key)
        }),
{
    assert(signature.push(hash_type).take(64) =~= signature);
}

/// Bytes of any other length are no transaction signature.
pub proof fn law_signature_length(tx: TransactionView, index: int, key: Seq<u8>, bytes: Seq<u8>)
    requires
        bytes.len() != 65,
    ensures
        !schnorr_authorizes(tx, index, key, bytes),
        !ecdsa_authorizes(tx, index, key, bytes),
{
}

/// A public key is hashed by BLAKE3 under the key that starts with the text `PublicKeyHash`
/// and goes on with zeros.
pub proof fn law_public_key_hash_domain(domain: Seq<u8>, key: Seq<u8>)
    requires
        domain.len() == 32,
        domain.take(13) == seq![
            0x50u8,
            0x75u8,
            0x62u8,
            0x6cu8,
            0x69u8,
            0x63u8,
            0x4bu8,
            0x65u8,
            0x79u8,
            0x48u8,
            0x61u8,
            0x73u8,
            0x68u8,
        ],
        forall|i: int| 13 <= i < 32 ==> #[trigger] domain[i] == 0,
    ensures
        public_key_hash_of(key) == blake3_keyed_of(domain, key),
{
    assert forall|i: int| 0 <= i < 13 implies domain[i] == PUBLIC_KEY_HASH_DOMAIN@[i] by {
        assert(domain[i] == domain.take(13)[i]);
    }
    assert(domain =~= PUBLIC_KEY_HASH_DOMAIN@);
}

/// An owner that is a Schnorr key authorizes by a transaction signature alone.
pub proof fn law_key_owner(tx: TransactionView, index: int, owner: [u8; 32], bytes: Seq<u8>)
    ensures
        owner_authorizes(tx, index, 0x00, owner, bytes) <==> {
            &&& bytes.len() == 65
            &&& {
                ||| bytes[64] == 1
                ||| bytes[64] == 2
                ||| bytes[64] == 4
                ||| bytes[64] == 129
                ||| bytes[64] == 130
                ||| bytes[64] == 132
            }
            &&& schnorr_verifies(
                bytes.subrange(0, 64),
                schnorr_hash(tx, index, bytes[64]),
                owner@,
            )
        },
{
    if bytes.len() == 65 {
        assert(bytes.subrange(0, 64) =~= bytes.take(64));
    }
}

/// An owner that is the hash of a Schnorr key authorizes by the 32-byte key, which must have
/// that hash, and a transaction signature by it.
pub proof fn law_key_hash_owner(
    tx: TransactionView,
    index: int,
    owner: [u8; 32],
    key: Seq<u8>,
    signature: Seq<u8>,
)
    requires
        key.len() == 32,
    ensures
        owner_authorizes(tx, index, 0x01, owner, key + signature) <==> {
            &&& public_key_hash_of(key) == owner@
            &&& schnorr_authorizes(tx, index, key, signature)
        },
{
    assert((key + signature).take(32) =~= key);
    assert((key + signature).skip(32) =~= signature);
}

/// An owner that is the hash of a compressed ECDSA key authorizes by the 33-byte key, which
/// must have that hash, and a transaction signature by it.
pub proof fn law_ecdsa_key_hash_owner(
    tx: TransactionView,
    index: int,
    owner: [u8; 32],
    key: Seq<u8>,
    signature: Seq<u8>,
)
    requires
        key.len() == 33,
    ensures
        owner_authorizes(tx, index, 0x02, owner, key + signature) <==> {
            &&& public_key_hash_of(key) == owner@
            &&& ecdsa_authorizes(tx, index, key, signature)
        },
{
    assert((key + signature).take(33) =~= key);
    assert((key + signature).skip(33) =~= signature);
}

/// Bytes too short to hold a key authorize for neither kind of key hash.
pub proof fn law_key_hash_owner_needs_a_key(
    tx: TransactionView,
    index: int,
    owner: [u8; 32],
    bytes: Seq<u8>,
)
    ensures
        bytes.len() < 32 ==> !owner_authorizes(tx, index, 0x01, owner, bytes),
        bytes.len() < 33 ==> !owner_authorizes(tx, index, 0x02, owner, bytes),
{
}

/// An owner that is a script commitment authorizes by one byte: the position of any input of
/// the transaction whose spent output is locked by the envelope of that commitment.
pub proof fn law_script_owner(tx: TransactionView, index: int, owner: [u8; 32], bytes: Seq<u8>)
    ensures
        owner_authorizes(tx, index, 0x03, owner, bytes) <==> {
            let lock = tx.inputs[bytes[0] as int].utxo.lock;
            &&& bytes.len() == 1
            &&& bytes[0] < tx.inputs.len()
            &&& lock.version == 0
            &&& lock.script == seq![0xaau8, 0x20u8] + owner@ + seq![0x87u8]
        },
{
    assert(script_hash_lock(owner@).script == seq![0xaau8, 0x20u8] + owner@ + seq![0x87u8]);
}

/// An owner that is a covenant family authorizes by no bytes at all, wherever an input of the
/// transaction spends an output of that family: the first, the last or the input itself.
pub proof fn law_covenant_owner(tx: TransactionView, index: int, owner: [u8; 32], bytes: Seq<u8>)
    ensures
        owner_authorizes(tx, index, 0x04, owner, bytes) <==> {
            &&& bytes.len() == 0
            &&& exists|i: int|
                0 <= i < tx.inputs.len() && (#[trigger] tx.inputs[i]).utxo.covenant_id == Some(
                    owner,
                )
        },
{
    assert forall|i: int| 0 <= i < tx.inputs.len() implies in_family(tx, i, owner) == ((
    #[trigger] tx.inputs[i]).utxo.covenant_id == Some(owner)) by {}
    if exists|i: int|
        0 <= i < tx.inputs.len() && (#[trigger] tx.inputs[i]).utxo.covenant_id == Some(owner) {
        let i = choose|i: int|
            0 <= i < tx.inputs.len() && (#[trigger] tx.inputs[i]).utxo.covenant_id == Some(owner);
        assert(in_family(tx, i, owner));
    }
}

/// No other scheme authorizes anything.
pub proof fn law_unknown_owner(
    tx: TransactionView,
    index: int,
    owner_scheme: u8,
    owner: [u8; 32],
    bytes: Seq<u8>,
)
    requires
        owner_scheme > 0x04,
    ensures
        !owner_authorizes(tx, index, owner_scheme, owner, bytes),
{
}

} // verus!
