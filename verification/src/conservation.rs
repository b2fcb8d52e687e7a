//! What a transfer keeps: the total amount and the extension commitment.

use vstd::prelude::*;

use crate::bytes::same_word;
use crate::state::TokenState;

verus! {

/// The sum of the amounts of some states.
pub open spec fn total(states: Seq<TokenState>) -> int
    decreases states.len(),
{
    if states.len() == 0 {
        0
    } else {
        total(states.drop_last()) + states.last().amount
    }
}

/// Whether no amount is negative and the total fits the integer range.
pub open spec fn spendable(states: Seq<TokenState>) -> bool {
    &&& forall|i: int| 0 <= i < states.len() ==> (#[trigger] states[i]).amount >= 0
    &&& total(states) <= i64::MAX
}

/// Whether a transfer from one list of states to another keeps the total amount.
pub open spec fn conserves(before: Seq<TokenState>, after: Seq<TokenState>) -> bool {
    spendable(before) && spendable(after) && total(before) == total(after)
}

/// Whether all states carry an extension commitment.
pub open spec fn all_carry(states: Seq<TokenState>, commitment: [u8; 32]) -> bool {
    forall|i: int|
        0 <= i < states.len() ==> (#[trigger] states[i]).extension_commitment == commitment
}

/// A total without negative amounts is at least that of any of its beginnings.
proof fn lemma_total_grows(states: Seq<TokenState>, count: int)
    requires
        0 <= count <= states.len(),
        forall|i: int| 0 <= i < states.len() ==> (#[trigger] states[i]).amount >= 0,
    ensures
        total(states.take(count)) <= total(states),
    decreases states.len() - count,
{
    if count == states.len() {
        assert(states.take(count) =~= states);
    } else {
        lemma_total_grows(states, count + 1);
        assert(states.take(count + 1).drop_last() =~= states.take(count));
        assert(states[count].amount >= 0);
    }
}

/// The total amount of some states, where no amount is negative and the total fits.
pub fn spendable_total(states: &Vec<TokenState>) -> (sum: Option<i64>)
    ensures
        sum is Some == spendable(states@),
        sum matches Some(value) ==> value == total(states@),
{
    let mut sum: i64 = 0;
    let mut i: usize = 0;
    while i < states.len()
        invariant
            i <= states@.len(),
            sum == total(states@.take(i as int)),
            sum >= 0,
            forall|j: int| 0 <= j < i ==> (#[trigger] states@[j]).amount >= 0,
        decreases states@.len() - i,
    {
        let amount: i64 = states[i].amount;
        assert(states@.take(i + 1).drop_last() =~= states@.take(i as int));
        if amount < 0 {
            assert(!(states@[i as int].amount >= 0));
            return None;
        }
        if amount > i64::MAX - sum {
            proof {
                if spendable(states@) {
                    lemma_total_grows(states@, i + 1);
                }
            }
            return None;
        }
        sum = sum + amount;
        i += 1;
    }
    assert(states@.take(i as int) =~= states@);
    Some(sum)
}

/// Whether a transfer from one list of states to another keeps the total amount.
pub fn check_conservation(before: &Vec<TokenState>, after: &Vec<TokenState>) -> (kept: bool)
    ensures
        kept == conserves(before@, after@),
{
    match (spendable_total(before), spendable_total(after)) {
        (Some(spent), Some(created)) => spent == created,
        _ => false,
    }
}

/// Whether all states carry an extension commitment.
pub fn check_extension(states: &Vec<TokenState>, commitment: &[u8; 32]) -> (shared: bool)
    ensures
        shared == all_carry(states@, *commitment),
{
    let mut i: usize = 0;
    while i < states.len()
        invariant
            i <= states@.len(),
            forall|j: int|
                0 <= j < i ==> (#[trigger] states@[j]).extension_commitment == *commitment,
        decreases states@.len() - i,
    {
        if !same_word(&states[i].extension_commitment, commitment) {
            assert(states@[i as int].extension_commitment != *commitment);
            return false;
        }
        i += 1;
    }
    true
}

} // verus!
