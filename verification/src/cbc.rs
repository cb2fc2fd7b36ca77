//! AES-128 in CBC mode: a verified chaining layer over the outside block
//! primitive, exposed through the block-cipher capability interfaces.

use vstd::prelude::*;

use crate::aes128::{
    aes128_dec, aes128_decrypt_block, aes128_enc, aes128_encrypt_block, BLOCK_LEN, KEY_LEN,
};
use crate::block::{BlockCipher, BlockCipherAlgorithm, BlockCipherBuilder};
use crate::bytes::{
    clone_bytes, copy_block, lemma_xor_block_involutive, write_block, xor_block, xor_block_exec,
};

verus! {

/// CBC encryption of `p` (a whole number of blocks) where `prev` is the
/// block chained into the first one: each plaintext block is masked with the
/// previous ciphertext block and then sent through the primitive.
pub open spec fn cbc_enc(key: Seq<u8>, prev: Seq<u8>, p: Seq<u8>) -> Seq<u8>
    decreases p.len(),
{
    if p.len() < BLOCK_LEN {
        Seq::empty()
    } else {
        let c0 = aes128_enc(key, xor_block(p.take(BLOCK_LEN as int), prev));
        c0 + cbc_enc(key, c0, p.skip(BLOCK_LEN as int))
    }
}

/// CBC decryption of `c` (a whole number of blocks) where `prev` is the
/// block chained into the first one: each ciphertext block is sent through
/// the primitive's inverse and then unmasked with the previous ciphertext
/// block.
pub open spec fn cbc_dec(key: Seq<u8>, prev: Seq<u8>, c: Seq<u8>) -> Seq<u8>
    decreases c.len(),
{
    if c.len() < BLOCK_LEN {
        Seq::empty()
    } else {
        xor_block(aes128_dec(key, c.take(BLOCK_LEN as int)), prev)
            + cbc_dec(key, c.take(BLOCK_LEN as int), c.skip(BLOCK_LEN as int))
    }
}

/// The chaining block left behind after processing ciphertext `c` from
/// chaining block `prev`: the last ciphertext block, or `prev` when no whole
/// block was processed.
pub open spec fn chain_iv(prev: Seq<u8>, c: Seq<u8>) -> Seq<u8> {
    if c.len() < BLOCK_LEN {
        prev
    } else {
        c.subrange(c.len() - BLOCK_LEN as int, c.len() as int)
    }
}

/// Decrypting one more ciphertext block appends one plaintext block,
/// unmasked with the chaining block that the earlier ciphertext left behind.
proof fn lemma_cbc_dec_snoc(key: Seq<u8>, prev: Seq<u8>, c: Seq<u8>, blk: Seq<u8>)
    requires
        c.len() % (BLOCK_LEN as nat) == 0,
        blk.len() == BLOCK_LEN,
    ensures
        cbc_dec(key, prev, c + blk) == cbc_dec(key, prev, c) + xor_block(
            aes128_dec(key, blk),
            chain_iv(prev, c),
        ),
    decreases c.len(),
{
    let b = BLOCK_LEN as int;
    if c.len() == 0 {
        assert(c + blk =~= blk);
        assert(blk.take(b) =~= blk);
        assert(blk.skip(b).len() == 0);
        assert(cbc_dec(key, blk.take(b), blk.skip(b)) =~= Seq::<u8>::empty());
        assert(cbc_dec(key, prev, blk) =~= xor_block(aes128_dec(key, blk), prev));
        assert(cbc_dec(key, prev, c) =~= Seq::<u8>::empty());
        assert(cbc_dec(key, prev, c) + xor_block(aes128_dec(key, blk), chain_iv(prev, c)) =~= xor_block(
            aes128_dec(key, blk),
            prev,
        ));
    } else {
        assert(c.len() >= BLOCK_LEN);
        let d = c + blk;
        assert(d.take(b) =~= c.take(b));
        assert(d.skip(b) =~= c.skip(b) + blk);
        assert(c.skip(b).len() % (BLOCK_LEN as nat) == 0);
        lemma_cbc_dec_snoc(key, c.take(b), c.skip(b), blk);
        assert(chain_iv(c.take(b), c.skip(b)) =~= chain_iv(prev, c));
        assert(cbc_dec(key, prev, c + blk) =~= cbc_dec(key, prev, c) + xor_block(
            aes128_dec(key, blk),
            chain_iv(prev, c),
        ));
    }
}

/// The block-cipher descriptor returns exactly the lengths the CBC contexts
/// and the primitive behind them require.
pub proof fn lemma_cbc_descriptor_consistency()
    ensures
        BlockCipherAlgorithm::CbcAes128.key_len() == KEY_LEN,
        BlockCipherAlgorithm::CbcAes128.nonce_len() == BLOCK_LEN,
{
}

/// A CBC cipher context: the bound key and the running chaining block, which
/// starts as the IV the builder recorded and is advanced by every call.
pub struct Aes128CbcCtx {
    key: Vec<u8>,
    iv: Vec<u8>,
}

impl Aes128CbcCtx {
    /// The bound key.
    pub closed spec fn spec_key(&self) -> Seq<u8> {
        self.key@
    }

    /// The current chaining block.
    pub closed spec fn spec_iv(&self) -> Seq<u8> {
        self.iv@
    }
}

impl BlockCipher for Aes128CbcCtx {
    open spec fn wf(&self) -> bool {
        &&& self.spec_key().len() == KEY_LEN
        &&& self.spec_iv().len() == BLOCK_LEN
    }

    #[verifier::loop_isolation(false)]
    fn encrypt(&mut self, ptext: &Vec<u8>, ctext: &mut Vec<u8>)
        ensures
            final(ctext)@ == cbc_enc(old(self).spec_key(), old(self).spec_iv(), ptext@),
            cbc_dec(old(self).spec_key(), old(self).spec_iv(), final(ctext)@) == ptext@,
            final(self).spec_key() == old(self).spec_key(),
            final(self).spec_iv() == chain_iv(old(self).spec_iv(), final(ctext)@),
    {
        let ghost key0 = self.key@;
        let ghost iv0 = self.iv@;
        let n = ptext.len();
        let mut prev = copy_block(&self.iv, 0);
        proof {
            assert(prev@ =~= iv0);
            assert(ptext@.skip(0) =~= ptext@);
            assert(ctext@.take(0) =~= Seq::<u8>::empty());
            assert(Seq::<u8>::empty() + cbc_enc(key0, iv0, ptext@) =~= cbc_enc(
                key0,
                iv0,
                ptext@,
            ));
            assert(cbc_dec(key0, iv0, Seq::<u8>::empty()) =~= Seq::<u8>::empty());
            assert(ptext@.take(0) =~= Seq::<u8>::empty());
        }
        let mut i: usize = 0;
        while i < n
            invariant
                i <= n,
                i as int % (BLOCK_LEN as int) == 0,
                ctext@.len() == n,
                prev@.len() == BLOCK_LEN,
                cbc_enc(key0, iv0, ptext@) == ctext@.take(i as int) + cbc_enc(
                    key0,
                    prev@,
                    ptext@.skip(i as int),
                ),
                cbc_dec(key0, iv0, ctext@.take(i as int)) == ptext@.take(i as int),
                prev@ == chain_iv(iv0, ctext@.take(i as int)),
            decreases n - i,
        {
            proof {
                assert(i + BLOCK_LEN <= n) by {
                    assert(n as int % (BLOCK_LEN as int) == 0);
                }
            }
            let pblk = copy_block(ptext, i);
            let x = xor_block_exec(&pblk, &prev);
            let ci = aes128_encrypt_block(&self.key, &x);
            let ghost cpre = ctext@;
            write_block(ctext, i, &ci);
            proof {
                let ii = i as int;
                let b = BLOCK_LEN as int;
                assert(ctext@.take(ii) =~= cpre.take(ii));
                assert(ctext@.take(ii + b) =~= cpre.take(ii) + ci@);
                assert(ptext@.skip(ii).take(b) =~= ptext@.subrange(ii, ii + b));
                assert(ptext@.skip(ii).skip(b) =~= ptext@.skip(ii + b));
                assert(cbc_enc(key0, prev@, ptext@.skip(ii)) == ci@ + cbc_enc(
                    key0,
                    ci@,
                    ptext@.skip(ii + b),
                ));
                assert(cbc_enc(key0, iv0, ptext@) =~= ctext@.take(ii + b) + cbc_enc(
                    key0,
                    ci@,
                    ptext@.skip(ii + b),
                ));
                lemma_cbc_dec_snoc(key0, iv0, cpre.take(ii), ci@);
                lemma_xor_block_involutive(ptext@.subrange(ii, ii + b), prev@);
                assert(cbc_dec(key0, iv0, ctext@.take(ii + b)) =~= ptext@.take(ii + b));
                assert(chain_iv(iv0, ctext@.take(ii + b)) =~= ci@);
            }
            prev = ci;
            i = i + BLOCK_LEN;
        }
        proof {
            assert(ptext@.skip(n as int).len() == 0);
            assert(ctext@.take(n as int) =~= ctext@);
            assert(ptext@.take(n as int) =~= ptext@);
        }
        self.iv = prev;
    }

    #[verifier::loop_isolation(false)]
    fn decrypt(&mut self, ctext: &Vec<u8>, ptext: &mut Vec<u8>)
        ensures
            final(ptext)@ == cbc_dec(old(self).spec_key(), old(self).spec_iv(), ctext@),
            final(self).spec_key() == old(self).spec_key(),
            final(self).spec_iv() == chain_iv(old(self).spec_iv(), ctext@),
    {
        let ghost key0 = self.key@;
        let ghost iv0 = self.iv@;
        let n = ctext.len();
        let mut prev = copy_block(&self.iv, 0);
        proof {
            assert(prev@ =~= iv0);
            assert(ctext@.skip(0) =~= ctext@);
            assert(ptext@.take(0) =~= Seq::<u8>::empty());
            assert(Seq::<u8>::empty() + cbc_dec(key0, iv0, ctext@) =~= cbc_dec(
                key0,
                iv0,
                ctext@,
            ));
        }
        let mut i: usize = 0;
        while i < n
            invariant
                i <= n,
                i as int % (BLOCK_LEN as int) == 0,
                ptext@.len() == n,
                prev@.len() == BLOCK_LEN,
                cbc_dec(key0, iv0, ctext@) == ptext@.take(i as int) + cbc_dec(
                    key0,
                    prev@,
                    ctext@.skip(i as int),
                ),
                prev@ == chain_iv(iv0, ctext@.take(i as int)),
            decreases n - i,
        {
            proof {
                assert(i + BLOCK_LEN <= n) by {
                    assert(n as int % (BLOCK_LEN as int) == 0);
                }
            }
            let cblk = copy_block(ctext, i);
            let x = aes128_decrypt_block(&self.key, &cblk);
            let pblk = xor_block_exec(&x, &prev);
            write_block(ptext, i, &pblk);
            proof {
                let ii = i as int;
                let b = BLOCK_LEN as int;
                assert(ctext@.skip(ii).take(b) =~= ctext@.subrange(ii, ii + b));
                assert(ctext@.skip(ii).skip(b) =~= ctext@.skip(ii + b));
                assert(cbc_dec(key0, prev@, ctext@.skip(ii)) == pblk@ + cbc_dec(
                    key0,
                    cblk@,
                    ctext@.skip(ii + b),
                ));
                assert(ptext@.take(ii + b) =~= ptext@.take(ii) + pblk@);
                assert(cbc_dec(key0, iv0, ctext@) =~= ptext@.take(ii + b) + cbc_dec(
                    key0,
                    cblk@,
                    ctext@.skip(ii + b),
                ));
                assert(chain_iv(iv0, ctext@.take(ii + b)) =~= cblk@);
            }
            prev = cblk;
            i = i + BLOCK_LEN;
        }
        proof {
            assert(ctext@.skip(n as int).len() == 0);
            assert(ptext@.take(n as int) =~= ptext@);
            assert(ctext@.take(n as int) =~= ctext@);
        }
        self.iv = prev;
    }
}

/// Builds CBC cipher contexts; holds at most one pending IV, which the next
/// materialization consumes.
pub struct Aes128CbcCtxBuilder {
    iv: Option<Vec<u8>>,
}

impl Aes128CbcCtxBuilder {
    pub fn new() -> (r: Self)
        ensures
            r.pending_nonce() is None,
            r.algorithm() == BlockCipherAlgorithm::CbcAes128,
    {
        Aes128CbcCtxBuilder { iv: None }
    }

    /// Consume the pending IV and bind `key`, giving a fresh context whose
    /// state depends on that key and IV alone.
    fn build(&mut self, key: &Vec<u8>) -> (ctx: Aes128CbcCtx)
        requires
            old(self).pending_nonce() is Some,
            old(self).pending_nonce().unwrap().len() == BLOCK_LEN,
            key@.len() == KEY_LEN,
        ensures
            ctx.wf(),
            ctx.spec_key() == key@,
            ctx.spec_iv() == old(self).pending_nonce().unwrap(),
            final(self).pending_nonce() is None,
    {
        let opt = self.iv.take();
        let iv = match opt {
            Some(v) => v,
            None => unreached(),
        };
        Aes128CbcCtx { key: clone_bytes(key), iv }
    }
}

impl BlockCipherBuilder for Aes128CbcCtxBuilder {
    type Ctx = Aes128CbcCtx;

    open spec fn algorithm(&self) -> BlockCipherAlgorithm {
        BlockCipherAlgorithm::CbcAes128
    }

    closed spec fn pending_nonce(&self) -> Option<Seq<u8>> {
        match self.iv {
            Some(v) => Some(v@),
            None => None,
        }
    }

    fn nonce(&mut self, nonce: &Vec<u8>) -> (r: &mut Self) {
        self.iv = Some(clone_bytes(nonce));
        self
    }

    fn for_encryption(&mut self, key: &Vec<u8>) -> (ctx: Aes128CbcCtx)
        ensures
            ctx.spec_key() == key@,
            ctx.spec_iv() == old(self).pending_nonce().unwrap(),
    {
        self.build(key)
    }

    fn for_decryption(&mut self, key: &Vec<u8>) -> (ctx: Aes128CbcCtx)
        ensures
            ctx.spec_key() == key@,
            ctx.spec_iv() == old(self).pending_nonce().unwrap(),
    {
        self.build(key)
    }
}

} // verus!
