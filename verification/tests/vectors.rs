//! Known-answer checks that tie the contexts to the real AES-128 primitive:
//! the trusted block functions cannot be pass-throughs and still pass these.

use cipher_bench::{Aead, AeadBuilder, Aes128GcmCtxBuilder};
use cipher_bench::{Aes128CbcCtxBuilder, BlockCipher, BlockCipherBuilder};

fn fips_key() -> Vec<u8> {
    (0u8..16).collect()
}

fn fips_plaintext() -> Vec<u8> {
    vec![
        0x00, 0x11, 0x22, 0x33, 0x44, 0x55, 0x66, 0x77, 0x88, 0x99, 0xaa, 0xbb, 0xcc, 0xdd, 0xee,
        0xff,
    ]
}

fn fips_ciphertext() -> Vec<u8> {
    vec![
        0x69, 0xc4, 0xe0, 0xd8, 0x6a, 0x7b, 0x04, 0x30, 0xd8, 0xcd, 0xb7, 0x80, 0x70, 0xb4, 0xc5,
        0x5a,
    ]
}

// With an all-zero IV, the first CBC ciphertext block is the raw primitive
// applied to the plaintext block, so the standard AES-128 example vector
// must come out.
#[test]
fn cbc_single_block_known_answer() {
    let iv = vec![0u8; 16];
    let mut ct = vec![0u8; 16];
    let mut b = Aes128CbcCtxBuilder::new();
    let mut ctx = b.nonce(&iv).for_encryption(&fips_key());
    ctx.encrypt(&fips_plaintext(), &mut ct);
    assert_eq!(ct, fips_ciphertext());
}

#[test]
fn cbc_single_block_known_answer_decrypt() {
    let iv = vec![0u8; 16];
    let mut pt = vec![0u8; 16];
    let mut b = Aes128CbcCtxBuilder::new();
    let mut ctx = b.nonce(&iv).for_decryption(&fips_key());
    ctx.decrypt(&fips_ciphertext(), &mut pt);
    assert_eq!(pt, fips_plaintext());
}

// The GCM keystream for an all-zero plaintext block is the primitive applied
// to nonce ++ counter with the counter at its first bulk-data value. The
// same primitive output is reachable through the CBC path with a zero IV,
// so the two contexts must agree byte for byte.
#[test]
fn gcm_counter_block_matches_primitive() {
    let key = fips_key();
    let nonce: Vec<u8> = (0u8..12).collect();
    let zeros = vec![0u8; 16];
    let mut gcm_ct = vec![0u8; 16];
    let mut gb = Aes128GcmCtxBuilder::new();
    let mut gctx = gb.nonce(&nonce).for_encryption(&key);
    gctx.encrypt(&zeros, &mut gcm_ct);

    let mut counter_block = nonce.clone();
    counter_block.extend_from_slice(&[0, 0, 0, 2]);
    let iv = vec![0u8; 16];
    let mut cbc_ct = vec![0u8; 16];
    let mut bb = Aes128CbcCtxBuilder::new();
    let mut bctx = bb.nonce(&iv).for_encryption(&key);
    bctx.encrypt(&counter_block, &mut cbc_ct);

    assert_eq!(gcm_ct, cbc_ct);
}
