//! Block-cipher algorithm descriptors, capability interfaces, and the setup
//! half of the block-cipher benchmark driver.

use vstd::prelude::*;

use crate::aes128::BLOCK_LEN;
use crate::bytes::zero_vec;
use crate::rng::random_bytes;

verus! {

/// One block-cipher variant, a closed set of descriptors.
#[derive(Clone, Copy, PartialEq, Eq, Structural, Debug)]
pub enum BlockCipherAlgorithm {
    CbcAes128,
}

impl BlockCipherAlgorithm {
    /// Display name of the variant, used to label benchmark series.
    pub open spec fn spec_name(&self) -> Seq<char> {
        match self {
            BlockCipherAlgorithm::CbcAes128 => "aes-128-cbc"@,
        }
    }

    pub fn name(&self) -> (r: &str)
        ensures
            r@ == self.spec_name(),
    {
        match self {
            BlockCipherAlgorithm::CbcAes128 => "aes-128-cbc",
        }
    }

    /// Key length in bytes required by the variant's primitive.
    pub open spec fn spec_key_len(&self) -> usize {
        match self {
            BlockCipherAlgorithm::CbcAes128 => 16,
        }
    }

    #[verifier::when_used_as_spec(spec_key_len)]
    pub fn key_len(&self) -> (r: usize)
        ensures
            r == self.spec_key_len(),
    {
        match self {
            BlockCipherAlgorithm::CbcAes128 => 16,
        }
    }

    /// IV length in bytes required by the variant's primitive.
    pub open spec fn spec_nonce_len(&self) -> usize {
        match self {
            BlockCipherAlgorithm::CbcAes128 => 16,
        }
    }

    #[verifier::when_used_as_spec(spec_nonce_len)]
    pub fn nonce_len(&self) -> (r: usize)
        ensures
            r == self.spec_nonce_len(),
    {
        match self {
            BlockCipherAlgorithm::CbcAes128 => 16,
        }
    }
}

/// A key-, IV- and direction-bound block-cipher context over caller-supplied
/// buffers whose length is a multiple of the block size. Both operations
/// keep the output buffer's length equal to the input's and advance the
/// context's chaining state.
pub trait BlockCipher: Sized {
    /// The context's key and chaining material has the lengths its primitive
    /// requires.
    spec fn wf(&self) -> bool;

    /// Encrypt `ptext` into `ctext`, chaining from the context state.
    fn encrypt(&mut self, ptext: &Vec<u8>, ctext: &mut Vec<u8>)
        requires
            old(self).wf(),
            old(ctext)@.len() == ptext@.len(),
            ptext@.len() % (BLOCK_LEN as nat) == 0,
        ensures
            final(self).wf(),
            final(ctext)@.len() == ptext@.len(),
    ;

    /// Decrypt `ctext` into `ptext`, chaining from the context state.
    fn decrypt(&mut self, ctext: &Vec<u8>, ptext: &mut Vec<u8>)
        requires
            old(self).wf(),
            old(ptext)@.len() == ctext@.len(),
            ctext@.len() % (BLOCK_LEN as nat) == 0,
        ensures
            final(self).wf(),
            final(ptext)@.len() == ctext@.len(),
    ;
}

/// Builds block-cipher contexts: records an IV, then materializes a context
/// bound to a key. One builder may be reused for any number of contexts;
/// each materialization consumes the pending IV.
pub trait BlockCipherBuilder: Sized {
    type Ctx: BlockCipher;

    /// Which algorithm variant this builder materializes contexts for.
    spec fn algorithm(&self) -> BlockCipherAlgorithm;

    /// The IV recorded for the next materialized context, if any.
    spec fn pending_nonce(&self) -> Option<Seq<u8>>;

    /// Record the IV for the next materialized context, overwriting any
    /// previously recorded one.
    fn nonce(&mut self, nonce: &Vec<u8>) -> (r: &mut Self)
        requires
            nonce@.len() == old(self).algorithm().nonce_len(),
        ensures
            r.algorithm() == old(self).algorithm(),
            r.pending_nonce() == Some(nonce@),
            *final(self) == *final(r),
    ;

    /// Consume the pending IV and materialize an encryption-direction
    /// context bound to `key`.
    fn for_encryption(&mut self, key: &Vec<u8>) -> (ctx: Self::Ctx)
        requires
            old(self).pending_nonce() is Some,
            old(self).pending_nonce().unwrap().len() == old(self).algorithm().nonce_len(),
            key@.len() == old(self).algorithm().key_len(),
        ensures
            ctx.wf(),
            final(self).algorithm() == old(self).algorithm(),
            final(self).pending_nonce() is None,
    ;

    /// Consume the pending IV and materialize a decryption-direction
    /// context bound to `key`.
    fn for_decryption(&mut self, key: &Vec<u8>) -> (ctx: Self::Ctx)
        requires
            old(self).pending_nonce() is Some,
            old(self).pending_nonce().unwrap().len() == old(self).algorithm().nonce_len(),
            key@.len() == old(self).algorithm().key_len(),
        ensures
            ctx.wf(),
            final(self).algorithm() == old(self).algorithm(),
            final(self).pending_nonce() is None,
    ;
}

/// One prepared benchmark case: a context built outside the timed region
/// and the fixed buffer pair the timed iterations reuse.
pub struct BlockBenchCase<C: BlockCipher> {
    pub ctx: C,
    pub pbuf: Vec<u8>,
    pub cbuf: Vec<u8>,
}

impl<C: BlockCipher> BlockBenchCase<C> {
    pub open spec fn wf(&self) -> bool {
        &&& self.ctx.wf()
        &&& self.pbuf@.len() == self.cbuf@.len()
        &&& self.pbuf@.len() % (BLOCK_LEN as nat) == 0
    }

    /// One timed iteration: encrypt the plaintext buffer into the ciphertext
    /// buffer, reusing the same context and buffers.
    pub fn run_iteration(&mut self)
        requires
            old(self).wf(),
        ensures
            final(self).wf(),
            final(self).pbuf == old(self).pbuf,
            final(self).cbuf@.len() == old(self).cbuf@.len(),
    {
        self.ctx.encrypt(&self.pbuf, &mut self.cbuf);
    }
}

/// Setup half of the block-cipher benchmark driver: compute the input size
/// for this sweep point, draw random key and IV material of the descriptor's
/// lengths, materialize one encryption context, and allocate the zeroed
/// buffer pair. Everything here runs outside the timed region; the timing
/// harness then calls `run_iteration` on the result.
pub fn prepare_block_case<B: BlockCipherBuilder>(
    algorithm: &BlockCipherAlgorithm,
    builder: &mut B,
    count: usize,
) -> (case: BlockBenchCase<B::Ctx>)
    requires
        old(builder).algorithm() == *algorithm,
        1 <= count <= crate::ITER,
    ensures
        final(builder).algorithm() == old(builder).algorithm(),
        case.wf(),
        case.pbuf@.len() == count * crate::STEP,
        case.cbuf@.len() == count * crate::STEP,
        forall|i: int| 0 <= i < case.pbuf@.len() ==> case.pbuf@[i] == 0u8,
{
    let len = crate::STEP * count;
    let key = random_bytes(algorithm.key_len());
    let nonce = random_bytes(algorithm.nonce_len());
    let ctx = builder.nonce(&nonce).for_encryption(&key);
    let pbuf = zero_vec(len);
    let cbuf = zero_vec(len);
    BlockBenchCase { ctx, pbuf, cbuf }
}

} // verus!
