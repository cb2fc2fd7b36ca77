//! AEAD algorithm descriptors, capability interfaces, and the setup half of
//! the AEAD benchmark driver.
//!
//! The interfaces intentionally omit authentication tags and additional
//! authenticated data: the benchmark measures bulk-cipher throughput only,
//! so the reported AEAD cost leaves out tag computation.

use vstd::prelude::*;

use crate::bytes::zero_vec;
use crate::rng::random_bytes;

verus! {

/// One AEAD cipher variant, a closed set of descriptors.
#[derive(Clone, Copy, PartialEq, Eq, Structural, Debug)]
pub enum AeadAlgorithm {
    GcmAes128,
}

impl AeadAlgorithm {
    /// Display name of the variant, used to label benchmark series.
    pub open spec fn spec_name(&self) -> Seq<char> {
        match self {
            AeadAlgorithm::GcmAes128 => "aes-128-gcm"@,
        }
    }

    pub fn name(&self) -> (r: &str)
        ensures
            r@ == self.spec_name(),
    {
        match self {
            AeadAlgorithm::GcmAes128 => "aes-128-gcm",
        }
    }

    /// Key length in bytes required by the variant's primitive.
    pub open spec fn spec_key_len(&self) -> usize {
        match self {
            AeadAlgorithm::GcmAes128 => 16,
        }
    }

    #[verifier::when_used_as_spec(spec_key_len)]
    pub fn key_len(&self) -> (r: usize)
        ensures
            r == self.spec_key_len(),
    {
        match self {
            AeadAlgorithm::GcmAes128 => 16,
        }
    }

    /// Nonce length in bytes required by the variant's primitive.
    pub open spec fn spec_nonce_len(&self) -> usize {
        match self {
            AeadAlgorithm::GcmAes128 => 12,
        }
    }

    #[verifier::when_used_as_spec(spec_nonce_len)]
    pub fn nonce_len(&self) -> (r: usize)
        ensures
            r == self.spec_nonce_len(),
    {
        match self {
            AeadAlgorithm::GcmAes128 => 12,
        }
    }
}

/// A key-, nonce- and direction-bound AEAD context over caller-supplied
/// buffers. Both operations keep the output buffer's length equal to the
/// input's and may advance internal chaining state.
pub trait Aead: Sized {
    /// The context's key and nonce material has the lengths its primitive
    /// requires.
    spec fn wf(&self) -> bool;

    /// Bulk-encrypt `ptext` into `ctext`.
    fn encrypt(&mut self, ptext: &Vec<u8>, ctext: &mut Vec<u8>)
        requires
            old(self).wf(),
            old(ctext)@.len() == ptext@.len(),
        ensures
            final(self).wf(),
            final(ctext)@.len() == ptext@.len(),
    ;

    /// Bulk-decrypt `ctext` into `ptext`.
    fn decrypt(&mut self, ctext: &Vec<u8>, ptext: &mut Vec<u8>)
        requires
            old(self).wf(),
            old(ptext)@.len() == ctext@.len(),
        ensures
            final(self).wf(),
            final(ptext)@.len() == ctext@.len(),
    ;
}

/// Builds AEAD contexts: records a nonce, then materializes a context bound
/// to a key. One builder may be reused for any number of contexts; each
/// materialization consumes the pending nonce.
pub trait AeadBuilder: Sized {
    type Ctx: Aead;

    /// Which algorithm variant this builder materializes contexts for.
    spec fn algorithm(&self) -> AeadAlgorithm;

    /// The nonce recorded for the next materialized context, if any.
    spec fn pending_nonce(&self) -> Option<Seq<u8>>;

    /// Record the nonce for the next materialized context, overwriting any
    /// previously recorded one.
    fn nonce(&mut self, nonce: &Vec<u8>) -> (r: &mut Self)
        requires
            nonce@.len() == old(self).algorithm().nonce_len(),
        ensures
            r.algorithm() == old(self).algorithm(),
            r.pending_nonce() == Some(nonce@),
            *final(self) == *final(r),
    ;

    /// Consume the pending nonce and materialize an encryption-direction
    /// context bound to `key`.
    fn for_encryption(&mut self, key: &Vec<u8>) -> (ctx: Self::Ctx)
        requires
            old(self).pending_nonce() is Some,
            old(self).pending_nonce().unwrap().len() == old(self).algorithm().nonce_len(),
            key@.len() == old(self).algorithm().key_len(),
        ensures
            ctx.wf(),
            final(self).algorithm() == old(self).algorithm(),
            final(self).pending_nonce() is None,
    ;

    /// Consume the pending nonce and materialize a decryption-direction
    /// context bound to `key`.
    fn for_decryption(&mut self, key: &Vec<u8>) -> (ctx: Self::Ctx)
        requires
            old(self).pending_nonce() is Some,
            old(self).pending_nonce().unwrap().len() == old(self).algorithm().nonce_len(),
            key@.len() == old(self).algorithm().key_len(),
        ensures
            ctx.wf(),
            final(self).algorithm() == old(self).algorithm(),
            final(self).pending_nonce() is None,
    ;
}

/// One prepared benchmark case: a context built outside the timed region
/// and the fixed buffer pair the timed iterations reuse.
pub struct AeadBenchCase<C: Aead> {
    pub ctx: C,
    pub pbuf: Vec<u8>,
    pub cbuf: Vec<u8>,
}

impl<C: Aead> AeadBenchCase<C> {
    pub open spec fn wf(&self) -> bool {
        &&& self.ctx.wf()
        &&& self.pbuf@.len() == self.cbuf@.len()
    }

    /// One timed iteration: bulk-encrypt the plaintext buffer into the
    /// ciphertext buffer, reusing the same context and buffers.
    pub fn run_iteration(&mut self)
        requires
            old(self).wf(),
        ensures
            final(self).wf(),
            final(self).pbuf == old(self).pbuf,
            final(self).cbuf@.len() == old(self).cbuf@.len(),
    {
        self.ctx.encrypt(&self.pbuf, &mut self.cbuf);
    }
}

/// Setup half of the AEAD benchmark driver: compute the input size for this
/// sweep point, draw random key and nonce material of the descriptor's
/// lengths, materialize one encryption context, and allocate the zeroed
/// buffer pair. Everything here runs outside the timed region; the timing
/// harness then calls `run_iteration` on the result.
pub fn prepare_aead_case<B: AeadBuilder>(
    algorithm: &AeadAlgorithm,
    builder: &mut B,
    count: usize,
) -> (case: AeadBenchCase<B::Ctx>)
    requires
        old(builder).algorithm() == *algorithm,
        1 <= count <= crate::ITER,
    ensures
        final(builder).algorithm() == old(builder).algorithm(),
        case.wf(),
        case.pbuf@.len() == count * crate::STEP,
        case.cbuf@.len() == count * crate::STEP,
        forall|i: int| 0 <= i < case.pbuf@.len() ==> case.pbuf@[i] == 0u8,
{
    let len = crate::STEP * count;
    let key = random_bytes(algorithm.key_len());
    let nonce = random_bytes(algorithm.nonce_len());
    let ctx = builder.nonce(&nonce).for_encryption(&key);
    let pbuf = zero_vec(len);
    let cbuf = zero_vec(len);
    AeadBenchCase { ctx, pbuf, cbuf }
}

} // verus!
