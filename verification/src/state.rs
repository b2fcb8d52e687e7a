//! Token states: what a token output commits to.

use vstd::prelude::*;

use crate::bytes::little_endian;

verus! {

/// The owner is a Schnorr public key.
pub const OWNER_P2PK_SCHNORR: u8 = 0x00;

/// The owner is the hash of a Schnorr public key.
pub const OWNER_P2PKH_SCHNORR: u8 = 0x01;

/// The owner is the hash of a compressed ECDSA public key.
pub const OWNER_P2PKH_ECDSA: u8 = 0x02;

/// The owner is the commitment of a redeem script.
pub const OWNER_P2SH: u8 = 0x03;

/// The owner is a covenant family.
pub const OWNER_COVENANT_ID: u8 = 0x04;

/// The token cannot be borrowed.
pub const BORROW_DISABLED: u8 = 0x00;

/// Anyone may add more than a threshold of tokens.
pub const BORROW_AMOUNT_THRESHOLD: u8 = 0x01;

/// The holder of the guard key may add tokens.
pub const BORROW_SCHNORR_SIGNATURE: u8 = 0x02;

/// The holder of the next link of a hash chain may add tokens.
pub const BORROW_HASH_CHAIN: u8 = 0x03;

/// The value, in sompi, of the token outputs of the examples.
pub const TOKEN_OUTPUT_SOMPI: u64 = 1_000;

/// The state of one token output, its fields in the order of the layout.
#[derive(Clone, Copy, Debug, PartialEq, Eq)]
pub struct TokenState {
    pub amount: i64,
    pub owner: [u8; 32],
    pub owner_scheme: u8,
    pub borrow_scheme: u8,
    pub borrow_guard: [u8; 32],
    pub extension_commitment: [u8; 32],
}

/// Whether a state has these contents, is owned by a Schnorr key and carries the zero
/// extension commitment of the examples.
pub open spec fn state_is(
    state: TokenState,
    owner: Seq<u8>,
    amount: int,
    borrow_scheme: u8,
    borrow_guard: Seq<u8>,
) -> bool {
    &&& state.amount == amount
    &&& state.owner@ == owner
    &&& state.owner_scheme == OWNER_P2PK_SCHNORR
    &&& state.borrow_scheme == borrow_scheme
    &&& state.borrow_guard@ == borrow_guard
    &&& state.extension_commitment@ == zero_word()
}

/// 32 zero bytes.
pub open spec fn zero_word() -> Seq<u8> {
    Seq::new(32, |i: int| 0u8)
}

/// The integer that the first eight bytes of a guard hold in little-endian
/// signed-magnitude form: the top bit of the eighth byte is the sign.
pub open spec fn threshold_of(guard: Seq<u8>) -> int {
    if guard[7] < 0x80 {
        little_endian(guard)
    } else {
        0x8000_0000_0000_0000 - little_endian(guard)
    }
}

/// Whether a guard holds a threshold and nothing else: eight little-endian bytes, then
/// zeros.
pub open spec fn is_threshold_guard(guard: Seq<u8>, threshold: int) -> bool {
    &&& guard.len() == 32
    &&& little_endian(guard) == threshold
    &&& forall|i: int| 8 <= i < 32 ==> guard[i] == 0
}

/// Whether an output may carry this state's policy: both schemes are known, and
/// an amount threshold is not negative.
pub open spec fn valid_policy(state: TokenState) -> bool {
    &&& state.owner_scheme <= OWNER_COVENANT_ID
    &&& state.borrow_scheme <= BORROW_HASH_CHAIN
    &&& state.borrow_scheme == BORROW_AMOUNT_THRESHOLD ==> threshold_of(state.borrow_guard@) >= 0
}

/// A state owned by a Schnorr key, which cannot be borrowed.
pub fn token_state(owner: &[u8; 32], amount: i64) -> (state: TokenState)
    ensures
        state_is(state, owner@, amount as int, BORROW_DISABLED, zero_word()),
        state.owner == *owner,
        valid_policy(state),
{
    let zero = [0u8; 32];
    assert(zero@ =~= zero_word());
    TokenState {
        amount,
        owner: *owner,
        owner_scheme: OWNER_P2PK_SCHNORR,
        borrow_scheme: BORROW_DISABLED,
        borrow_guard: zero,
        // An arbitrary shared commitment: zero has no special meaning.
        extension_commitment: zero,
    }
}

/// A state owned by a Schnorr key to which anyone may add more than `threshold`
/// tokens: the guard starts with the eight little-endian bytes of the threshold,
/// the rest of it is zero.
pub fn threshold_token_state(owner: &[u8; 32], amount: i64, threshold: i64) -> (state: TokenState)
    requires
        threshold >= 0,
    ensures
        state_is(
            state,
            owner@,
            amount as int,
            BORROW_AMOUNT_THRESHOLD,
            state.borrow_guard@,
        ),
        state.owner == *owner,
        is_threshold_guard(state.borrow_guard@, threshold as int),
        threshold_of(state.borrow_guard@) == threshold,
        valid_policy(state),
{
    let mut state = token_state(owner, amount);
    let q1: i64 = threshold / 0x100;
    let q2: i64 = q1 / 0x100;
    let q3: i64 = q2 / 0x100;
    let q4: i64 = q3 / 0x100;
    let q5: i64 = q4 / 0x100;
    let q6: i64 = q5 / 0x100;
    let q7: i64 = q6 / 0x100;
    let mut guard = [0u8; 32];
    guard[0] = (threshold - q1 * 0x100) as u8;
    guard[1] = (q1 - q2 * 0x100) as u8;
    guard[2] = (q2 - q3 * 0x100) as u8;
    guard[3] = (q3 - q4 * 0x100) as u8;
    guard[4] = (q4 - q5 * 0x100) as u8;
    guard[5] = (q5 - q6 * 0x100) as u8;
    guard[6] = (q6 - q7 * 0x100) as u8;
    guard[7] = q7 as u8;
    state.borrow_scheme = BORROW_AMOUNT_THRESHOLD;
    state.borrow_guard = guard;
    state
}

/// The threshold that a guard holds.
pub fn guard_threshold(guard: &[u8; 32]) -> (threshold: i64)
    ensures
        threshold == threshold_of(guard@),
{
    let low: i64 = guard[0] as i64 + guard[1] as i64 * 0x100 + guard[2] as i64 * 0x1_0000
        + guard[3] as i64 * 0x100_0000 + guard[4] as i64 * 0x1_0000_0000 + guard[5] as i64
        * 0x100_0000_0000 + guard[6] as i64 * 0x1_0000_0000_0000;
    if guard[7] < 0x80 {
        low + guard[7] as i64 * 0x100_0000_0000_0000
    } else {
        -(low + (guard[7] - 0x80) as i64 * 0x100_0000_0000_0000)
    }
}

/// Whether an output may carry a state's policy.
pub fn is_valid_policy(state: &TokenState) -> (valid: bool)
    ensures
        valid == valid_policy(*state),
{
    state.owner_scheme <= OWNER_COVENANT_ID && state.borrow_scheme <= BORROW_HASH_CHAIN && (
    state.borrow_scheme != BORROW_AMOUNT_THRESHOLD || guard_threshold(&state.borrow_guard) >= 0)
}

} // verus!
