//! A fixed concrete scenario: all-zero key and nonce, 1024 bytes of 0xAA;
//! encrypting and then decrypting under the same key and nonce reproduces
//! the buffer exactly, for each algorithm.

use cipher_bench::{Aead, AeadBuilder, Aes128GcmCtxBuilder};
use cipher_bench::{Aes128CbcCtxBuilder, BlockCipher, BlockCipherBuilder};

#[test]
fn aead_fixed_scenario() {
    let key = vec![0u8; 16];
    let nonce = vec![0u8; 12];
    let data = vec![0xAAu8; 1024];
    let mut ctext = vec![0u8; 1024];

    let mut builder = Aes128GcmCtxBuilder::new();
    let mut ctx = builder.nonce(&nonce).for_encryption(&key);
    ctx.encrypt(&data, &mut ctext);
    assert_eq!(ctext.len(), 1024);

    let mut out = vec![0u8; 1024];
    let mut ctx = builder.nonce(&nonce).for_decryption(&key);
    ctx.decrypt(&ctext, &mut out);
    assert_eq!(out, data);
}

#[test]
fn block_fixed_scenario() {
    let key = vec![0u8; 16];
    let nonce = vec![0u8; 16];
    let data = vec![0xAAu8; 1024];
    let mut ctext = vec![0u8; 1024];

    let mut builder = Aes128CbcCtxBuilder::new();
    let mut ctx = builder.nonce(&nonce).for_encryption(&key);
    ctx.encrypt(&data, &mut ctext);
    assert_eq!(ctext.len(), 1024);

    let mut out = vec![0u8; 1024];
    let mut ctx = builder.nonce(&nonce).for_decryption(&key);
    ctx.decrypt(&ctext, &mut out);
    assert_eq!(out, data);
}
