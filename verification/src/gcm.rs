//! AES-128 in GCM mode, bulk transform only: a verified counter-mode layer
//! over the outside block primitive, exposed through the AEAD capability
//! interfaces. No authentication tag is computed, as the benchmark measures
//! bulk-cipher throughput alone.

use vstd::prelude::*;

use crate::aead::{Aead, AeadAlgorithm, AeadBuilder};
use crate::aes128::{aes128_enc, aes128_encrypt_block, BLOCK_LEN, KEY_LEN};
use crate::bytes::clone_bytes;

verus! {

/// GCM nonce length in bytes.
pub const GCM_NONCE_LEN: usize = 12;

/// Counter value of the first bulk-data block: with a 96-bit nonce, GCM
/// reserves counter 1 for the tag and starts the data keystream at 2.
pub const CTR_FIRST: u32 = 2;

/// The four bytes of `n` in big-endian order.
pub open spec fn be32_bytes(n: u32) -> Seq<u8> {
    seq![
        (((n >> 24) & 0xff) as u8),
        (((n >> 16) & 0xff) as u8),
        (((n >> 8) & 0xff) as u8),
        ((n & 0xff) as u8),
    ]
}

/// The 32-bit counter `c`, advanced by `k` blocks with wraparound.
pub open spec fn ctr_add(c: u32, k: int) -> u32 {
    ((c + k) % 0x1_0000_0000) as u32
}

/// Number of keystream blocks that cover `len` bytes.
pub open spec fn blocks_of(len: int) -> int {
    (len + BLOCK_LEN as int - 1) / (BLOCK_LEN as int)
}

/// Byte `i` of the keystream derived from `key` and `nonce` when the first
/// block's counter is `c0`: the counter block `nonce ++ counter` sent
/// through the primitive.
pub open spec fn keystream_byte(key: Seq<u8>, nonce: Seq<u8>, c0: u32, i: int) -> u8 {
    aes128_enc(key, nonce + be32_bytes(ctr_add(c0, i / (BLOCK_LEN as int))))[i % (
    BLOCK_LEN as int)]
}

/// The counter-mode transform: each data byte masked with its keystream
/// byte. Encryption and decryption are this same transform.
pub open spec fn ctr_xform(key: Seq<u8>, nonce: Seq<u8>, c0: u32, data: Seq<u8>) -> Seq<u8> {
    Seq::new(data.len(), |i: int| data[i] ^ keystream_byte(key, nonce, c0, i))
}

/// Applying the counter-mode transform twice under the same key, nonce and
/// starting counter gives the data back: the round-trip law of the AEAD
/// bulk transform.
pub proof fn lemma_ctr_xform_roundtrip(key: Seq<u8>, nonce: Seq<u8>, c0: u32, data: Seq<u8>)
    ensures
        ctr_xform(key, nonce, c0, ctr_xform(key, nonce, c0, data)) == data,
{
    let twice = ctr_xform(key, nonce, c0, ctr_xform(key, nonce, c0, data));
    assert forall|i: int| 0 <= i < data.len() implies twice[i] == data[i] by {
        let d = data[i];
        let k = keystream_byte(key, nonce, c0, i);
        assert((d ^ k) ^ k == d) by (bit_vector);
    }
    assert(twice =~= data);
}

/// The AEAD descriptor returns exactly the lengths the GCM contexts and the
/// primitive behind them require.
pub proof fn lemma_gcm_descriptor_consistency()
    ensures
        AeadAlgorithm::GcmAes128.key_len() == KEY_LEN,
        AeadAlgorithm::GcmAes128.nonce_len() == GCM_NONCE_LEN,
{
}

/// Append the four big-endian bytes of `n`.
fn push_be32(v: &mut Vec<u8>, n: u32)
    ensures
        final(v)@ == old(v)@ + be32_bytes(n),
{
    proof {
        assert(((n >> 24) & 0xff) < 256 && ((n >> 16) & 0xff) < 256 && ((n >> 8) & 0xff) < 256
            && (n & 0xff) < 256) by (bit_vector);
    }
    v.push(((n >> 24) & 0xff) as u8);
    v.push(((n >> 16) & 0xff) as u8);
    v.push(((n >> 8) & 0xff) as u8);
    v.push((n & 0xff) as u8);
    proof {
        assert(v@ =~= old(v)@ + be32_bytes(n));
    }
}

/// A GCM cipher context: the bound key, the nonce, and the block counter
/// the next keystream block will use, advanced by every call.
pub struct Aes128GcmCtx {
    key: Vec<u8>,
    nonce: Vec<u8>,
    counter: u32,
}

impl Aes128GcmCtx {
    /// The bound key.
    pub closed spec fn spec_key(&self) -> Seq<u8> {
        self.key@
    }

    /// The bound nonce.
    pub closed spec fn spec_nonce(&self) -> Seq<u8> {
        self.nonce@
    }

    /// The counter of the next keystream block.
    pub closed spec fn spec_counter(&self) -> u32 {
        self.counter
    }

    /// Mask `input` into `out` with the keystream, advancing the counter by
    /// the number of blocks used. Both directions of the cipher are this
    /// one operation.
    #[verifier::loop_isolation(false)]
    fn apply_keystream(&mut self, input: &Vec<u8>, out: &mut Vec<u8>)
        requires
            old(self).wf(),
            old(out)@.len() == input@.len(),
        ensures
            final(self).wf(),
            final(out)@ == ctr_xform(
                old(self).spec_key(),
                old(self).spec_nonce(),
                old(self).spec_counter(),
                input@,
            ),
            final(self).spec_key() == old(self).spec_key(),
            final(self).spec_nonce() == old(self).spec_nonce(),
            final(self).spec_counter() == ctr_add(
                old(self).spec_counter(),
                blocks_of(input@.len() as int),
            ),
    {
        let ghost key0 = self.key@;
        let ghost nonce0 = self.nonce@;
        let ghost c0 = self.counter;
        let n = input.len();
        let mut i: usize = 0;
        while i < n
            invariant
                i <= n,
                i as int % (BLOCK_LEN as int) == 0 || i == n,
                out@.len() == n,
                self.key@ == key0,
                self.nonce@ == nonce0,
                self.counter == ctr_add(c0, blocks_of(i as int)),
                forall|t: int| 0 <= t < i ==> out@[t] == ctr_xform(key0, nonce0, c0, input@)[t],
            decreases n - i,
        {
            let ghost bidx = i as int / (BLOCK_LEN as int);
            proof {
                vstd::arithmetic::div_mod::lemma_fundamental_div_mod_converse(
                    i as int + BLOCK_LEN - 1,
                    BLOCK_LEN as int,
                    bidx,
                    BLOCK_LEN as int - 1,
                );
                assert(blocks_of(i as int) == bidx);
            }
            let mut cblock: Vec<u8> = Vec::new();
            let mut t: usize = 0;
            while t < GCM_NONCE_LEN
                invariant
                    t <= GCM_NONCE_LEN,
                    cblock@.len() == t,
                    forall|s: int| 0 <= s < t ==> cblock@[s] == nonce0[s],
                decreases GCM_NONCE_LEN - t,
            {
                cblock.push(self.nonce[t]);
                t = t + 1;
            }
            proof {
                assert(cblock@ =~= nonce0);
            }
            push_be32(&mut cblock, self.counter);
            proof {
                assert(cblock@ =~= nonce0 + be32_bytes(ctr_add(c0, bidx)));
            }
            let ks = aes128_encrypt_block(&self.key, &cblock);
            let rem = n - i;
            let lim = if rem < BLOCK_LEN {
                rem
            } else {
                BLOCK_LEN
            };
            let mut j: usize = 0;
            while j < lim
                invariant
                    j <= lim,
                    out@.len() == n,
                    forall|t2: int| 0 <= t2 < i ==> out@[t2] == ctr_xform(key0, nonce0, c0, input@)[t2],
                    forall|t2: int| i <= t2 < i + j ==> out@[t2] == (input@[t2] ^ ks@[t2 - i]),
                decreases lim - j,
            {
                let b = input[i + j] ^ ks[j];
                out.set(i + j, b);
                j = j + 1;
            }
            proof {
                assert forall|t2: int| i <= t2 < i + lim implies out@[t2] == ctr_xform(
                    key0,
                    nonce0,
                    c0,
                    input@,
                )[t2] by {
                    let s = t2 - i;
                    vstd::arithmetic::div_mod::lemma_fundamental_div_mod_converse(
                        t2,
                        BLOCK_LEN as int,
                        bidx,
                        s,
                    );
                    assert(keystream_byte(key0, nonce0, c0, t2) == ks@[s]);
                }
                vstd::arithmetic::div_mod::lemma_fundamental_div_mod_converse(
                    i as int + lim as int + BLOCK_LEN - 1,
                    BLOCK_LEN as int,
                    bidx + 1,
                    lim as int - 1,
                );
                assert(blocks_of(i as int + lim as int) == bidx + 1);
            }
            let c = self.counter;
            self.counter = if c == u32::MAX {
                0
            } else {
                c + 1
            };
            proof {
                vstd::arithmetic::div_mod::lemma_add_mod_noop(c0 + bidx, 1, 0x1_0000_0000);
                assert(self.counter == ctr_add(c0, bidx + 1));
            }
            i = i + lim;
        }
        proof {
            assert(out@ =~= ctr_xform(key0, nonce0, c0, input@));
        }
    }
}

impl Aead for Aes128GcmCtx {
    open spec fn wf(&self) -> bool {
        &&& self.spec_key().len() == KEY_LEN
        &&& self.spec_nonce().len() == GCM_NONCE_LEN
    }

    fn encrypt(&mut self, ptext: &Vec<u8>, ctext: &mut Vec<u8>)
        ensures
            final(ctext)@ == ctr_xform(
                old(self).spec_key(),
                old(self).spec_nonce(),
                old(self).spec_counter(),
                ptext@,
            ),
            final(self).spec_key() == old(self).spec_key(),
            final(self).spec_nonce() == old(self).spec_nonce(),
            final(self).spec_counter() == ctr_add(
                old(self).spec_counter(),
                blocks_of(ptext@.len() as int),
            ),
    {
        self.apply_keystream(ptext, ctext);
    }

    fn decrypt(&mut self, ctext: &Vec<u8>, ptext: &mut Vec<u8>)
        ensures
            final(ptext)@ == ctr_xform(
                old(self).spec_key(),
                old(self).spec_nonce(),
                old(self).spec_counter(),
                ctext@,
            ),
            final(self).spec_key() == old(self).spec_key(),
            final(self).spec_nonce() == old(self).spec_nonce(),
            final(self).spec_counter() == ctr_add(
                old(self).spec_counter(),
                blocks_of(ctext@.len() as int),
            ),
    {
        self.apply_keystream(ctext, ptext);
    }
}

/// Builds GCM cipher contexts; holds at most one pending nonce, which the
/// next materialization consumes.
pub struct Aes128GcmCtxBuilder {
    iv: Option<Vec<u8>>,
}

impl Aes128GcmCtxBuilder {
    pub fn new() -> (r: Self)
        ensures
            r.pending_nonce() is None,
            r.algorithm() == AeadAlgorithm::GcmAes128,
    {
        Aes128GcmCtxBuilder { iv: None }
    }

    /// Consume the pending nonce and bind `key`, giving a fresh context
    /// whose state depends on that key and nonce alone, with the counter at
    /// the first bulk-data block.
    fn build(&mut self, key: &Vec<u8>) -> (ctx: Aes128GcmCtx)
        requires
            old(self).pending_nonce() is Some,
            old(self).pending_nonce().unwrap().len() == GCM_NONCE_LEN,
            key@.len() == KEY_LEN,
        ensures
            ctx.wf(),
            ctx.spec_key() == key@,
            ctx.spec_nonce() == old(self).pending_nonce().unwrap(),
            ctx.spec_counter() == CTR_FIRST,
            final(self).pending_nonce() is None,
    {
        let opt = self.iv.take();
        let nonce = match opt {
            Some(v) => v,
            None => unreached(),
        };
        Aes128GcmCtx { key: clone_bytes(key), nonce, counter: CTR_FIRST }
    }
}

impl AeadBuilder for Aes128GcmCtxBuilder {
    type Ctx = Aes128GcmCtx;

    open spec fn algorithm(&self) -> AeadAlgorithm {
        AeadAlgorithm::GcmAes128
    }

    closed spec fn pending_nonce(&self) -> Option<Seq<u8>> {
        match self.iv {
            Some(v) => Some(v@),
            None => None,
        }
    }

    fn nonce(&mut self, nonce: &Vec<u8>) -> (r: &mut Self) {
        self.iv = Some(clone_bytes(nonce));
        self
    }

    fn for_encryption(&mut self, key: &Vec<u8>) -> (ctx: Aes128GcmCtx)
        ensures
            ctx.spec_key() == key@,
            ctx.spec_nonce() == old(self).pending_nonce().unwrap(),
            ctx.spec_counter() == CTR_FIRST,
    {
        self.build(key)
    }

    fn for_decryption(&mut self, key: &Vec<u8>) -> (ctx: Aes128GcmCtx)
        ensures
            ctx.spec_key() == key@,
            ctx.spec_nonce() == old(self).pending_nonce().unwrap(),
            ctx.spec_counter() == CTR_FIRST,
    {
        self.build(key)
    }
}

} // verus!
