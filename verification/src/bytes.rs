//! Byte strings: comparison, copying and little-endian integers.

use vstd::prelude::*;

verus! {

/// The integer whose little-endian form is the first eight bytes of `bytes`.
pub open spec fn little_endian(bytes: Seq<u8>) -> int {
    bytes[0] + bytes[1] * 0x100 + bytes[2] * 0x1_0000 + bytes[3] * 0x100_0000 + bytes[4]
        * 0x1_0000_0000 + bytes[5] * 0x100_0000_0000 + bytes[6] * 0x1_0000_0000_0000 + bytes[7]
        * 0x100_0000_0000_0000
}

/// Eight bytes are determined by their little-endian integer.
pub proof fn lemma_little_endian(a: Seq<u8>, b: Seq<u8>)
    requires
        little_endian(a) == little_endian(b),
    ensures
        forall|i: int| 0 <= i < 8 ==> a[i] == b[i],
{
    let (a1, b1) = (a[0] as int, b[0] as int);
    let (a2, b2) = (a1 + a[1] * 0x100, b1 + b[1] * 0x100);
    let (a3, b3) = (a2 + a[2] * 0x1_0000, b2 + b[2] * 0x1_0000);
    let (a4, b4) = (a3 + a[3] * 0x100_0000, b3 + b[3] * 0x100_0000);
    let (a5, b5) = (a4 + a[4] * 0x1_0000_0000, b4 + b[4] * 0x1_0000_0000);
    let (a6, b6) = (a5 + a[5] * 0x100_0000_0000, b5 + b[5] * 0x100_0000_0000);
    let (a7, b7) = (a6 + a[6] * 0x1_0000_0000_0000, b6 + b[6] * 0x1_0000_0000_0000);
    lemma_digit(a7, b7, a[7] as int, b[7] as int, 0x100_0000_0000_0000);
    lemma_digit(a6, b6, a[6] as int, b[6] as int, 0x1_0000_0000_0000);
    lemma_digit(a5, b5, a[5] as int, b[5] as int, 0x100_0000_0000);
    lemma_digit(a4, b4, a[4] as int, b[4] as int, 0x1_0000_0000);
    lemma_digit(a3, b3, a[3] as int, b[3] as int, 0x100_0000);
    lemma_digit(a2, b2, a[2] as int, b[2] as int, 0x1_0000);
    lemma_digit(a1, b1, a[1] as int, b[1] as int, 0x100);
    assert forall|i: int| 0 <= i < 8 implies a[i] == b[i] by {
        assert(i == 0 || i == 1 || i == 2 || i == 3 || i == 4 || i == 5 || i == 6 || i == 7);
    }
}

/// A sum of a remainder and a multiple determines both.
proof fn lemma_digit(a: int, b: int, x: int, y: int, weight: int)
    by (nonlinear_arith)
    requires
        0 <= a < weight,
        0 <= b < weight,
        a + x * weight == b + y * weight,
    ensures
        a == b,
        x == y,
{
}

/// Whether two byte strings are the same.
pub fn same_bytes(a: &[u8], b: &[u8]) -> (same: bool)
    ensures
        same == (a@ == b@),
{
    if a.len() != b.len() {
        return false;
    }
    let mut i: usize = 0;
    while i < a.len()
        invariant
            i <= a.len(),
            a.len() == b.len(),
            forall|j: int| 0 <= j < i ==> a@[j] == b@[j],
        decreases a.len() - i,
    {
        if a[i] != b[i] {
            return false;
        }
        i += 1;
    }
    assert(a@ =~= b@);
    true
}

/// Whether two 32-byte words are the same.
pub fn same_word(a: &[u8; 32], b: &[u8; 32]) -> (same: bool)
    ensures
        same == (*a == *b),
        same == (a@ == b@),
{
    let same = same_bytes(a.as_slice(), b.as_slice());
    proof {
        if a@ == b@ {
            assert forall|j: int| 0 <= j < 32 implies a[j] == b[j] by {
                assert(a@[j] == b@[j]);
            }
            assert(*a =~= *b);
        }
    }
    same
}

/// Two words with the same bytes are the same word.
pub proof fn lemma_word_equality(a: [u8; 32], b: [u8; 32])
    ensures
        (a@ == b@) == (a == b),
{
    if a@ == b@ {
        assert forall|j: int| 0 <= j < 32 implies a[j] == b[j] by {
            assert(a@[j] == b@[j]);
        }
        assert(a =~= b);
    }
}

/// Appends a byte string to another.
pub fn append(out: &mut Vec<u8>, bytes: &[u8])
    ensures
        final(out)@ == old(out)@ + bytes@,
{
    let ghost before = out@;
    let mut i: usize = 0;
    while i < bytes.len()
        invariant
            i <= bytes.len(),
            out@ == before + bytes@.take(i as int),
        decreases bytes.len() - i,
    {
        out.push(bytes[i]);
        i += 1;
        assert(bytes@.take(i as int) =~= bytes@.take(i - 1).push(bytes@[i - 1]));
        assert(out@ =~= before + bytes@.take(i as int));
    }
    assert(bytes@.take(bytes@.len() as int) =~= bytes@);
}

/// A copy of a byte string.
pub fn copy_bytes(bytes: &[u8]) -> (copy: Vec<u8>)
    ensures
        copy@ == bytes@,
{
    let mut copy: Vec<u8> = Vec::new();
    append(&mut copy, bytes);
    assert(copy@ =~= bytes@);
    copy
}

} // verus!
