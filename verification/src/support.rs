//! Deterministic keys and signing for the offline examples.

use vstd::prelude::*;

use crate::authorization::schnorr_authorizes;
use crate::bytes::append;
use crate::consensus::schnorr_signature_hash;
use crate::crypto::{
    big_endian, equal_or_opposite, sign_schnorr, valid_secret, x_only_key_of, x_only_public_key,
};
use crate::transaction::{Outpoint, Transaction};

verus! {

/// The signature hash type that covers all inputs and outputs.
pub const SIG_HASH_ALL: u8 = 0x01;

/// The covenant family of the examples.
pub const DEMO_COVENANT_ID: [u8; 32] = [
    0x11, 0x11, 0x11, 0x11, 0x11, 0x11, 0x11, 0x11, 0x11, 0x11, 0x11, 0x11, 0x11, 0x11, 0x11, 0x11,
    0x11, 0x11, 0x11, 0x11, 0x11, 0x11, 0x11, 0x11, 0x11, 0x11, 0x11, 0x11, 0x11, 0x11, 0x11, 0x11,
];

/// A secret key of the secp256k1 group.
#[derive(Clone, Copy)]
pub struct Keypair {
    secret: [u8; 32],
}

impl Keypair {
    #[verifier::type_invariant]
    spec fn valid(self) -> bool {
        valid_secret(self.secret@)
    }

    /// The bytes of the secret key.
    pub closed spec fn secret(self) -> Seq<u8> {
        self.secret@
    }

    /// The bytes of the x-only public key.
    pub open spec fn public(self) -> Seq<u8> {
        x_only_key_of(self.secret())
    }

    /// The x-only public key.
    pub fn public_key(&self) -> (key: [u8; 32])
        ensures
            key@ == self.public(),
    {
        proof {
            use_type_invariant(&*self);
        }
        x_only_public_key(&self.secret)
    }
}

/// The secret that is a byte repeated 32 times.
pub open spec fn demo_secret(seed: u8) -> Seq<u8> {
    Seq::new(32, |i: int| seed)
}

/// The x-only public key of the secret that is a byte repeated 32 times.
pub open spec fn demo_public(seed: u8) -> Seq<u8> {
    x_only_key_of(demo_secret(seed))
}

/// The integer written as `count` bytes of 0x01.
spec fn ones(count: nat) -> int
    decreases count,
{
    if count == 0 {
        0
    } else {
        ones((count - 1) as nat) * 0x100 + 1
    }
}

/// A byte repeated is a multiple of the byte 0x01 repeated.
proof fn lemma_repeated(bytes: Seq<u8>, seed: u8)
    requires
        forall|i: int| 0 <= i < bytes.len() ==> bytes[i] == seed,
    ensures
        big_endian(bytes) == seed * ones(bytes.len()),
    decreases bytes.len(),
{
    if bytes.len() > 0 {
        lemma_repeated(bytes.drop_last(), seed);
        let rest = ones((bytes.len() - 1) as nat);
        assert((seed * rest) * 0x100 + seed == seed * (rest * 0x100 + 1)) by (nonlinear_arith);
    }
}

/// The secret of a seed as an integer.
proof fn lemma_demo_secret(seed: u8)
    ensures
        big_endian(demo_secret(seed)) == seed
            * 0x01010101_01010101_01010101_01010101_01010101_01010101_01010101_01010101int,
{
    lemma_repeated(demo_secret(seed), seed);
    reveal_with_fuel(ones, 33);
}

/// The secrets of two seeds are the same only for the same seed, and never opposite.
pub proof fn law_demo_secrets_differ(seed: u8, other: u8)
    ensures
        demo_secret(seed) == demo_secret(other) <==> seed == other,
        seed != other ==> !equal_or_opposite(demo_secret(seed), demo_secret(other)),
{
    lemma_demo_secret(seed);
    lemma_demo_secret(other);
    assert(demo_secret(seed)[0] == seed && demo_secret(other)[0] == other);
}

/// The key pair whose secret is a byte repeated 32 times, and its x-only public key: each
/// seed has its own. For synthetic outputs only: anyone can make these keys.
pub fn demo_keys(seed: u8) -> (keys: (Keypair, [u8; 32]))
    requires
        0 < seed < 0xff,
    ensures
        keys.0.secret() == demo_secret(seed),
        keys.0.public() == demo_public(seed),
        keys.1@ == demo_public(seed),
        forall|other: u8|
            0 < other < 0xff ==> (#[trigger] demo_public(other) == keys.1@ <==> other == seed),
{
    let secret = [seed; 32];
    assert(secret@ =~= demo_secret(seed));
    proof {
        lemma_demo_secret(seed);
    }
    let key = Keypair { secret };
    let public = x_only_public_key(&secret);
    assert forall|other: u8| 0 < other < 0xff implies (#[trigger] demo_public(other) == public@
        <==> other == seed) by {
        lemma_demo_secret(other);
        law_demo_secrets_differ(other, seed);
    }
    (key, public)
}

/// An outpoint whose transaction identifier is a byte repeated 32 times.
pub fn demo_outpoint(seed: u8, index: u32) -> (outpoint: Outpoint)
    ensures
        outpoint.transaction_id@ == Seq::new(32, |i: int| seed),
        outpoint.index == index,
{
    let transaction_id = [seed; 32];
    assert(transaction_id@ =~= Seq::new(32, |i: int| seed));
    Outpoint { transaction_id, index }
}

/// A transaction signature: 64 signature bytes followed by the hash type.
pub fn with_hash_type(signature: &[u8; 64], hash_type: u8) -> (witness: Vec<u8>)
    ensures
        witness@ == signature@.push(hash_type),
{
    let mut witness: Vec<u8> = Vec::new();
    append(&mut witness, signature.as_slice());
    witness.push(hash_type);
    assert(witness@ =~= signature@.push(hash_type));
    witness
}

/// A signature of an input that covers all inputs and outputs: 64 signature bytes
/// followed by the hash type. The signature draws auxiliary randomness, so its bytes
/// are not fixed; whatever they are, the key authorizes the input by them.
pub fn sign_input(tx: &Transaction, input_index: usize, key: &Keypair) -> (witness: Vec<u8>)
    requires
        input_index < tx.inputs@.len(),
    ensures
        witness@.len() == 65,
        witness@[64] == SIG_HASH_ALL,
        schnorr_authorizes(tx@, input_index as int, key.public(), witness@),
{
    proof {
        use_type_invariant(&*key);
    }
    let digest = schnorr_signature_hash(tx, input_index, SIG_HASH_ALL);
    let signature = sign_schnorr(&key.secret, &digest);
    let witness = with_hash_type(&signature, SIG_HASH_ALL);
    assert(witness@.take(64) =~= signature@);
    witness
}

} // verus!
