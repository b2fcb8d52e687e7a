//! Borrowed receive: adding tokens to an output without its owner's signature.

use vstd::prelude::*;
use vstd::slice::slice_subrange;

use crate::authorization::{check_schnorr, schnorr_authorizes};
use crate::bytes::{same_bytes, same_word};
use crate::crypto::{blake3_hash, blake3_of};
use crate::state::{
    guard_threshold, threshold_of, TokenState, BORROW_AMOUNT_THRESHOLD, BORROW_HASH_CHAIN,
    BORROW_SCHNORR_SIGNATURE,
};
use crate::transaction::{Transaction, TransactionView};

verus! {

/// Whether the successor of a borrowed output keeps what its owner set, gains tokens
/// and does not lose value.
pub open spec fn keeps_holding(
    before: TokenState,
    before_value: u64,
    after: TokenState,
    after_value: u64,
) -> bool {
    &&& after.owner == before.owner
    &&& after.owner_scheme == before.owner_scheme
    &&& after.borrow_scheme == before.borrow_scheme
    &&& after.extension_commitment == before.extension_commitment
    &&& after.amount > before.amount
    &&& after_value >= before_value
}

/// Whether bytes authorize the borrowing of an input under its state's borrow scheme.
pub open spec fn borrow_authorizes(
    tx: TransactionView,
    index: int,
    before: TokenState,
    after: TokenState,
    bytes: Seq<u8>,
) -> bool {
    if before.borrow_scheme == BORROW_AMOUNT_THRESHOLD {
        &&& bytes.len() == 0
        &&& after.borrow_guard == before.borrow_guard
        &&& after.amount - before.amount > threshold_of(before.borrow_guard@)
    } else if before.borrow_scheme == BORROW_SCHNORR_SIGNATURE {
        &&& after.borrow_guard == before.borrow_guard
        &&& schnorr_authorizes(tx, index, before.borrow_guard@, bytes)
    } else if before.borrow_scheme == BORROW_HASH_CHAIN {
        &&& bytes.len() == 129
        &&& after.borrow_guard@ == bytes.take(32)
        &&& before.borrow_guard@ == blake3_of(bytes.take(64))
        &&& schnorr_authorizes(tx, index, bytes.subrange(32, 64), bytes.skip(64))
    } else {
        false
    }
}

/// Whether the successor of a borrowed output keeps what its owner set, gains tokens
/// and does not lose value.
pub fn check_holding(
    before: &TokenState,
    before_value: u64,
    after: &TokenState,
    after_value: u64,
) -> (kept: bool)
    ensures
        kept == keeps_holding(*before, before_value, *after, after_value),
{
    same_word(&after.owner, &before.owner) && after.owner_scheme == before.owner_scheme
        && after.borrow_scheme == before.borrow_scheme && same_word(
        &after.extension_commitment,
        &before.extension_commitment,
    ) && after.amount > before.amount && after_value >= before_value
}

/// Whether a hash chain advances from one guard to another by a link: the link's commitment
/// is the guard before, and the guard that the link shows is the guard after.
pub fn check_link(
    before_guard: &[u8; 32],
    after_guard: &[u8; 32],
    shown_guard: &[u8],
    commitment: &[u8; 32],
) -> (advances: bool)
    ensures
        advances == (after_guard@ == shown_guard@ && before_guard@ == commitment@),
{
    same_bytes(after_guard.as_slice(), shown_guard) && same_word(before_guard, commitment)
}

/// Whether bytes authorize the borrowing of an input under its state's borrow scheme.
pub fn check_borrow(
    tx: &Transaction,
    index: usize,
    before: &TokenState,
    after: &TokenState,
    bytes: &[u8],
) -> (authorized: bool)
    requires
        index < tx.inputs@.len(),
    ensures
        authorized == borrow_authorizes(tx@, index as int, *before, *after, bytes@),
{
    if before.borrow_scheme == BORROW_AMOUNT_THRESHOLD {
        let increase: i128 = after.amount as i128 - before.amount as i128;
        bytes.len() == 0 && same_word(&after.borrow_guard, &before.borrow_guard) && increase
            > guard_threshold(&before.borrow_guard) as i128
    } else if before.borrow_scheme == BORROW_SCHNORR_SIGNATURE {
        same_word(&after.borrow_guard, &before.borrow_guard) && check_schnorr(
            tx,
            index,
            before.borrow_guard.as_slice(),
            bytes,
        )
    } else if before.borrow_scheme == BORROW_HASH_CHAIN {
        if bytes.len() != 129 {
            return false;
        }
        let next_guard = slice_subrange(bytes, 0, 32);
        let link = slice_subrange(bytes, 0, 64);
        let key = slice_subrange(bytes, 32, 64);
        let signature = slice_subrange(bytes, 64, 129);
        assert(next_guard@ =~= bytes@.take(32));
        assert(link@ =~= bytes@.take(64));
        assert(signature@ =~= bytes@.skip(64));
        let commitment = blake3_hash(link);
        check_link(&before.borrow_guard, &after.borrow_guard, next_guard, &commitment)
            && check_schnorr(tx, index, key, signature)
    } else {
        false
    }
}

} // verus!
