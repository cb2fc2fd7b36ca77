//! Round-trip through each cipher context under random key, nonce and data.

use cipher_bench::{Aead, AeadAlgorithm, AeadBuilder, Aes128GcmCtxBuilder};
use cipher_bench::{Aes128CbcCtxBuilder, BlockCipher, BlockCipherAlgorithm, BlockCipherBuilder};
use rand::Rng;

#[test]
fn aead_roundtrip() {
    let mut rng = rand::thread_rng();

    let mut key_bytes = vec![0u8; AeadAlgorithm::GcmAes128.key_len()];
    rng.fill(key_bytes.as_mut_slice());

    let mut nonce_bytes = vec![0u8; AeadAlgorithm::GcmAes128.nonce_len()];
    rng.fill(nonce_bytes.as_mut_slice());

    let mut data_bytes = vec![0u8; 1024];
    rng.fill(data_bytes.as_mut_slice());

    let mut ptext = vec![0u8; 1024];
    ptext.copy_from_slice(data_bytes.as_slice());
    let mut ctext = vec![0u8; 1024];

    let mut builder = Aes128GcmCtxBuilder::new();

    let mut ctx = builder.nonce(&nonce_bytes).for_encryption(&key_bytes);
    ctx.encrypt(&ptext, &mut ctext);

    let mut ctx = builder.nonce(&nonce_bytes).for_decryption(&key_bytes);
    ctx.decrypt(&ctext, &mut ptext);

    assert_eq!(ptext, data_bytes);
}

#[test]
fn block_roundtrip() {
    let mut rng = rand::thread_rng();

    let mut key_bytes = vec![0u8; BlockCipherAlgorithm::CbcAes128.key_len()];
    rng.fill(key_bytes.as_mut_slice());

    let mut nonce_bytes = vec![0u8; BlockCipherAlgorithm::CbcAes128.nonce_len()];
    rng.fill(nonce_bytes.as_mut_slice());

    let mut data_bytes = vec![0u8; 1024];
    rng.fill(data_bytes.as_mut_slice());

    let mut ptext = vec![0u8; 1024];
    ptext.copy_from_slice(data_bytes.as_slice());
    let mut ctext = vec![0u8; 1024];

    let mut builder = Aes128CbcCtxBuilder::new();

    let mut ctx = builder.nonce(&nonce_bytes).for_encryption(&key_bytes);
    ctx.encrypt(&ptext, &mut ctext);

    let mut ctx = builder.nonce(&nonce_bytes).for_decryption(&key_bytes);
    ctx.decrypt(&ctext, &mut ptext);

    assert_eq!(ptext, data_bytes);
}
