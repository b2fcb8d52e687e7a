//! What a borrower may do, in terms of the states before and after and of the bytes shown.

use vstd::prelude::*;

use crate::borrow::{borrow_authorizes, keeps_holding};
use crate::consensus::schnorr_hash;
use crate::crypto::{blake3_of, schnorr_verifies};
use crate::state::{threshold_of, TokenState};
use crate::transaction::TransactionView;

verus! {

/// A holding is kept exactly where the successor has the same owner, owner scheme, borrow
/// scheme and extension commitment, more tokens and no less value. This holds of every owner
/// scheme, every borrow scheme and every amount.
pub proof fn law_holding_is_kept_iff(
    before: TokenState,
    before_value: u64,
    after: TokenState,
    after_value: u64,
)
    ensures
        keeps_holding(before, before_value, after, after_value) <==> {
            &&& before.owner == after.owner
            &&& before.owner_scheme == after.owner_scheme
            &&& before.borrow_scheme == after.borrow_scheme
            &&& before.extension_commitment == after.extension_commitment
            &&& before.amount < after.amount
            &&& before_value <= after_value
        },
{
}

/// Whether a holding is kept does not depend on who owns it, under which schemes and with
/// which commitment: two receives that keep all of these and have the same amounts and values
/// are judged the same.
pub proof fn law_holding_favours_no_owner(
    before: TokenState,
    after: TokenState,
    other_before: TokenState,
    other_after: TokenState,
    before_value: u64,
    after_value: u64,
)
    requires
        before.owner == after.owner,
        before.owner_scheme == after.owner_scheme,
        before.borrow_scheme == after.borrow_scheme,
        before.extension_commitment == after.extension_commitment,
        other_before.owner == other_after.owner,
        other_before.owner_scheme == other_after.owner_scheme,
        other_before.borrow_scheme == other_after.borrow_scheme,
        other_before.extension_commitment == other_after.extension_commitment,
        before.amount == other_before.amount,
        after.amount == other_after.amount,
    ensures
        keeps_holding(before, before_value, after, after_value) == keeps_holding(
            other_before,
            before_value,
            other_after,
            after_value,
        ),
{
}

/// An amount threshold is borrowed by no bytes, with the guard kept, exactly where the
/// increase is greater than the threshold.
pub proof fn law_threshold_borrow(
    tx: TransactionView,
    index: int,
    before: TokenState,
    after: TokenState,
    bytes: Seq<u8>,
)
    requires
        before.borrow_scheme == 0x01,
    ensures
        borrow_authorizes(tx, index, before, after, bytes) <==> {
            &&& bytes.len() == 0
            &&& before.borrow_guard == after.borrow_guard
            &&& threshold_of(before.borrow_guard@) + before.amount < after.amount
        },
{
}

/// A guard key is borrowed by a transaction signature of the borrowed input itself by that
/// key, with the guard kept.
pub proof fn law_signature_borrow(
    tx: TransactionView,
    index: int,
    before: TokenState,
    after: TokenState,
    bytes: Seq<u8>,
)
    requires
        before.borrow_scheme == 0x02,
    ensures
        borrow_authorizes(tx, index, before, after, bytes) <==> {
            &&& before.borrow_guard == after.borrow_guard
            &&& bytes.len() == 65
            &&& {
                ||| bytes[64] == 1
                ||| bytes[64] == 2
                ||| bytes[64] == 4
                ||| bytes[64] == 129
                ||| bytes[64] == 130
                ||| bytes[64] == 132
            }
            &&& schnorr_verifies(
                bytes.subrange(0, 64),
                schnorr_hash(tx, index, bytes[64]),
                before.borrow_guard@,
            )
        },
{
    if bytes.len() == 65 {
        assert(bytes.subrange(0, 64) =~= bytes.take(64));
    }
}

/// A hash chain is borrowed by a next guard, a one-time key, a signature and a hash type,
/// exactly where the guard before is the hash of the next guard and the key, the guard after
/// is the next guard, and the signature is one by that key of the borrowed input itself,
/// wherever in the transaction it stands.
pub proof fn law_chain_borrow(
    tx: TransactionView,
    index: int,
    before: TokenState,
    after: TokenState,
    next_guard: Seq<u8>,
    key: Seq<u8>,
    signature: Seq<u8>,
    hash_type: u8,
)
    requires
        before.borrow_scheme == 0x03,
        next_guard.len() == 32,
        key.len() == 32,
        signature.len() == 64,
    ensures
        borrow_authorizes(
            tx,
            index,
            before,
            after,
            next_guard + key + signature + seq![hash_type],
        ) <==> {
            &&& before.borrow_guard@ == blake3_of(next_guard + key)
            &&& after.borrow_guard@ == next_guard
            &&& {
                ||| hash_type == 1
                ||| hash_type == 2
                ||| hash_type == 4
                ||| hash_type == 129
                ||| hash_type == 130
                ||| hash_type == 132
            }
            &&& schnorr_verifies(signature, schnorr_hash(tx, index, hash_type), key)
        },
{
    let bytes = next_guard + key + signature + seq![hash_type];
    assert(bytes.take(32) =~= next_guard);
    assert(bytes.take(64) =~= next_guard + key);
    assert(bytes.subrange(32, 64) =~= key);
    assert(bytes.skip(64) =~= signature.push(hash_type));
    assert(signature.push(hash_type).take(64) =~= signature);
}

/// A hash chain is borrowed by 129 bytes and by no other number of them.
pub proof fn law_chain_borrow_length(
    tx: TransactionView,
    index: int,
    before: TokenState,
    after: TokenState,
    bytes: Seq<u8>,
)
    requires
        before.borrow_scheme == 0x03,
        bytes.len() != 129,
    ensures
        !borrow_authorizes(tx, index, before, after, bytes),
{
}

/// No other scheme can be borrowed.
pub proof fn law_no_other_borrow(
    tx: TransactionView,
    index: int,
    before: TokenState,
    after: TokenState,
    bytes: Seq<u8>,
)
    requires
        before.borrow_scheme == 0x00 || before.borrow_scheme > 0x03,
    ensures
        !borrow_authorizes(tx, index, before, after, bytes),
{
}

/// Only the guards and the increase of the states enter a borrow: owner, owner scheme and
/// extension commitment do not, nor does the borrow scheme after.
pub proof fn law_borrow_ignores_owners(
    tx: TransactionView,
    index: int,
    before: TokenState,
    after: TokenState,
    other_before: TokenState,
    other_after: TokenState,
    bytes: Seq<u8>,
)
    requires
        before.borrow_scheme == other_before.borrow_scheme,
        before.borrow_guard == other_before.borrow_guard,
        after.borrow_guard == other_after.borrow_guard,
        after.amount - before.amount == other_after.amount - other_before.amount,
    ensures
        borrow_authorizes(tx, index, before, after, bytes) == borrow_authorizes(
            tx,
            index,
            other_before,
            other_after,
            bytes,
        ),
{
}

} // verus!
