//! What token states and the compiled program mean, field by field and byte by byte.

use vstd::prelude::*;

use crate::crypto::{big_endian, curve_order, script_hash_lock, script_hash_of, valid_secret};
use crate::program::ProgramView;
use crate::state::{is_threshold_guard, state_is, threshold_of, valid_policy, TokenState};

verus! {

/// A guard's threshold is the number with the digits of its first eight bytes to the base
/// 256, the first byte the lowest digit; the top bit of the eighth byte is the sign.
pub proof fn law_threshold_is_signed_magnitude(guard: Seq<u8>)
    requires
        guard.len() == 32,
    ensures
        ({
            let magnitude = guard[0] + 256 * (guard[1] + 256 * (guard[2] + 256 * (guard[3] + 256 * (
            guard[4] + 256 * (guard[5] + 256 * (guard[6] + 256 * (guard[7] % 128)))))));
            &&& guard[7] < 128 ==> threshold_of(guard) == magnitude
            &&& guard[7] >= 128 ==> threshold_of(guard) == -magnitude
        }),
{
}

/// A threshold is negative exactly where the sign bit is set and some other bit of the first
/// eight bytes is.
pub proof fn law_threshold_sign(guard: Seq<u8>)
    requires
        guard.len() == 32,
    ensures
        threshold_of(guard) < 0 <==> guard[7] > 128 || guard[7] == 128 && (guard[0] > 0 || guard[1]
            > 0 || guard[2] > 0 || guard[3] > 0 || guard[4] > 0 || guard[5] > 0 || guard[6] > 0),
{
}

/// A policy is valid exactly where the owner scheme is one of the five known ones, the borrow
/// scheme one of the four known ones, and an amount threshold does not read as a negative
/// number. Nothing else of the state matters.
pub proof fn law_policy_is_valid_iff(state: TokenState)
    ensures
        ({
            let scheme = state.owner_scheme;
            let guard = state.borrow_guard@;
            valid_policy(state) <==> {
                &&& scheme == 0x00 || scheme == 0x01 || scheme == 0x02 || scheme == 0x03 || scheme
                    == 0x04
                &&& {
                    ||| state.borrow_scheme == 0x00
                    ||| state.borrow_scheme == 0x02
                    ||| state.borrow_scheme == 0x03
                    ||| state.borrow_scheme == 0x01 && (guard[7] < 128 || guard[7] == 128
                        && guard[0] == 0 && guard[1] == 0 && guard[2] == 0 && guard[3] == 0
                        && guard[4] == 0 && guard[5] == 0 && guard[6] == 0)
                }
            }
        }),
{
    law_threshold_sign(state.borrow_guard@);
}

/// Two states with the same schemes and the same guard both have valid policies or neither
/// has: amount, owner and extension commitment do not enter.
pub proof fn law_policy_ignores_holdings(a: TokenState, b: TokenState)
    requires
        a.owner_scheme == b.owner_scheme,
        a.borrow_scheme == b.borrow_scheme,
        a.borrow_guard == b.borrow_guard,
    ensures
        valid_policy(a) == valid_policy(b),
{
}

/// What [`state_is`] says of each field.
pub proof fn law_state_fields(
    state: TokenState,
    owner: Seq<u8>,
    amount: int,
    borrow_scheme: u8,
    borrow_guard: Seq<u8>,
)
    ensures
        state_is(state, owner, amount, borrow_scheme, borrow_guard) <==> {
            &&& state.amount == amount
            &&& state.owner@ == owner
            &&& state.owner_scheme == 0x00
            &&& state.borrow_scheme == borrow_scheme
            &&& state.borrow_guard@ == borrow_guard
            &&& forall|i: int| 0 <= i < 32 ==> #[trigger] state.extension_commitment@[i] == 0
        },
{
    if forall|i: int| 0 <= i < 32 ==> #[trigger] state.extension_commitment@[i] == 0 {
        assert(state.extension_commitment@ =~= crate::state::zero_word());
    }
}

/// A threshold guard holds the digits of its threshold to the base 256, the lowest first, and
/// zeros.
pub proof fn law_threshold_guard_digits(guard: Seq<u8>, threshold: int)
    ensures
        is_threshold_guard(guard, threshold) <==> {
            &&& guard.len() == 32
            &&& threshold == guard[0] + 256 * (guard[1] + 256 * (guard[2] + 256 * (guard[3] + 256
                * (guard[4] + 256 * (guard[5] + 256 * (guard[6] + 256 * guard[7]))))))
            &&& forall|i: int| 8 <= i < 32 ==> #[trigger] guard[i] == 0
        },
{
}

/// The lock of a token output is the version-0 script of 35 bytes that pushes the hash of
/// the program's prefix, the state's script and the program's suffix, one after the other.
pub proof fn law_token_lock_bytes(program: ProgramView, state_script: Seq<u8>)
    ensures
        program.redeem_script(state_script) == program.prefix + state_script + program.suffix,
        program.token_lock(state_script).version == 0,
        program.token_lock(state_script).script == seq![0xaau8, 0x20u8] + script_hash_of(
            program.prefix + state_script + program.suffix,
        ) + seq![0x87u8],
{
}

/// The script-hash envelope of a hash, byte by byte.
pub proof fn law_envelope_bytes(hash: Seq<u8>)
    requires
        hash.len() == 32,
    ensures
        ({
            let lock = script_hash_lock(hash);
            &&& lock.version == 0
            &&& lock.script.len() == 35
            &&& lock.script[0] == 0xaa
            &&& lock.script[1] == 0x20
            &&& lock.script[34] == 0x87
            &&& forall|i: int| 0 <= i < 32 ==> #[trigger] lock.script[i + 2] == hash[i]
        }),
{
}

/// A byte string is read as a big-endian number, and the secret keys are the 32-byte strings
/// of the numbers between zero and the group order, both excluded.
pub proof fn law_secrets_are_numbers(bytes: Seq<u8>, byte: u8)
    ensures
        big_endian(Seq::<u8>::empty()) == 0,
        big_endian(bytes.push(byte)) == 256 * big_endian(bytes) + byte,
        valid_secret(bytes) <==> bytes.len() == 32 && 0 < big_endian(bytes) && big_endian(bytes)
            < 0xFFFFFFFF_FFFFFFFF_FFFFFFFF_FFFFFFFE_BAAEDCE6_AF48A03B_BFD25E8C_D0364141int,
{
    assert(bytes.push(byte).drop_last() =~= bytes);
    assert(curve_order()
        == 0xFFFFFFFF_FFFFFFFF_FFFFFFFF_FFFFFFFE_BAAEDCE6_AF48A03B_BFD25E8C_D0364141int);
}

} // verus!
