//! Small byte-buffer helpers shared by the cipher modes and the driver.

use vstd::prelude::*;

use crate::aes128::BLOCK_LEN;

verus! {

/// Byte-wise exclusive or of two cipher blocks. The result always has block
/// length, whatever the operands' lengths.
pub open spec fn xor_block(a: Seq<u8>, b: Seq<u8>) -> Seq<u8> {
    Seq::new(BLOCK_LEN as nat, |i: int| a[i] ^ b[i])
}

/// Masking a block twice with the same block gives the block back.
pub proof fn lemma_xor_block_involutive(a: Seq<u8>, b: Seq<u8>)
    requires
        a.len() == BLOCK_LEN,
    ensures
        xor_block(xor_block(a, b), b) == a,
{
    assert forall|i: int| 0 <= i < BLOCK_LEN implies xor_block(xor_block(a, b), b)[i] == a[i] by {
        let x = a[i];
        let y = b[i];
        assert((x ^ y) ^ y == x) by (bit_vector);
    }
    assert(xor_block(xor_block(a, b), b) =~= a);
}

/// Allocate a buffer of `len` zero bytes.
pub fn zero_vec(len: usize) -> (r: Vec<u8>)
    ensures
        r@.len() == len,
        forall|i: int| 0 <= i < len ==> r@[i] == 0u8,
{
    let mut v: Vec<u8> = Vec::new();
    let mut i: usize = 0;
    while i < len
        invariant
            i <= len,
            v@.len() == i,
            forall|j: int| 0 <= j < i ==> v@[j] == 0u8,
        decreases len - i,
    {
        v.push(0u8);
        i = i + 1;
    }
    v
}

/// Copy a byte buffer.
pub fn clone_bytes(src: &Vec<u8>) -> (r: Vec<u8>)
    ensures
        r@ == src@,
{
    let mut r: Vec<u8> = Vec::new();
    let mut i: usize = 0;
    while i < src.len()
        invariant
            i <= src@.len(),
            r@ == src@.take(i as int),
        decreases src@.len() - i,
    {
        r.push(src[i]);
        proof {
            assert(r@ =~= src@.take(i as int + 1));
        }
        i = i + 1;
    }
    proof {
        assert(src@.take(src@.len() as int) =~= src@);
    }
    r
}

/// Copy the block of `src` that starts at byte `start`.
pub(crate) fn copy_block(src: &Vec<u8>, start: usize) -> (r: Vec<u8>)
    requires
        start + BLOCK_LEN <= src@.len(),
    ensures
        r@ == src@.subrange(start as int, start as int + BLOCK_LEN),
{
    let n = src.len();
    let mut r: Vec<u8> = Vec::new();
    let mut j: usize = 0;
    while j < BLOCK_LEN
        invariant
            j <= BLOCK_LEN,
            n == src@.len(),
            start + BLOCK_LEN <= n,
            r@.len() == j,
            forall|t: int| 0 <= t < j ==> r@[t] == src@[start + t],
        decreases BLOCK_LEN - j,
    {
        r.push(src[start + j]);
        j = j + 1;
    }
    proof {
        assert(r@ =~= src@.subrange(start as int, start as int + BLOCK_LEN));
    }
    r
}

/// Exclusive or of two block-sized buffers.
pub(crate) fn xor_block_exec(a: &Vec<u8>, b: &Vec<u8>) -> (r: Vec<u8>)
    requires
        a@.len() == BLOCK_LEN,
        b@.len() == BLOCK_LEN,
    ensures
        r@ == xor_block(a@, b@),
{
    let mut r: Vec<u8> = Vec::new();
    let mut j: usize = 0;
    while j < BLOCK_LEN
        invariant
            j <= BLOCK_LEN,
            a@.len() == BLOCK_LEN,
            b@.len() == BLOCK_LEN,
            r@.len() == j,
            forall|t: int| 0 <= t < j ==> r@[t] == (a@[t] ^ b@[t]),
        decreases BLOCK_LEN - j,
    {
        r.push(a[j] ^ b[j]);
        j = j + 1;
    }
    proof {
        assert(r@ =~= xor_block(a@, b@));
    }
    r
}

/// Overwrite the block of `dst` that starts at byte `start` with `blk`.
pub(crate) fn write_block(dst: &mut Vec<u8>, start: usize, blk: &Vec<u8>)
    requires
        blk@.len() == BLOCK_LEN,
        start + BLOCK_LEN <= old(dst)@.len(),
    ensures
        final(dst)@.len() == old(dst)@.len(),
        forall|t: int| 0 <= t < start ==> final(dst)@[t] == old(dst)@[t],
        forall|t: int|
            start <= t < start + BLOCK_LEN ==> final(dst)@[t] == blk@[t - start],
        forall|t: int|
            start + BLOCK_LEN <= t < old(dst)@.len() ==> final(dst)@[t] == old(dst)@[t],
{
    let n = dst.len();
    let mut j: usize = 0;
    while j < BLOCK_LEN
        invariant
            j <= BLOCK_LEN,
            blk@.len() == BLOCK_LEN,
            n == dst@.len(),
            start + BLOCK_LEN <= n,
            dst@.len() == old(dst)@.len(),
            forall|t: int| 0 <= t < start ==> dst@[t] == old(dst)@[t],
            forall|t: int| start <= t < start + j ==> dst@[t] == blk@[t - start],
            forall|t: int| start + j <= t < old(dst)@.len() ==> dst@[t] == old(dst)@[t],
        decreases BLOCK_LEN - j,
    {
        dst.set(start + j, blk[j]);
        j = j + 1;
    }
}

} // verus!
