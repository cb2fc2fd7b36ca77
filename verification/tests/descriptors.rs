//! The algorithm descriptors' values.

use cipher_bench::{AeadAlgorithm, BlockCipherAlgorithm};

#[test]
fn aead_descriptor_values() {
    let a = AeadAlgorithm::GcmAes128;
    assert_eq!(a.name(), "aes-128-gcm");
    assert_eq!(a.key_len(), 16);
    assert_eq!(a.nonce_len(), 12);
}

#[test]
fn block_descriptor_values() {
    let a = BlockCipherAlgorithm::CbcAes128;
    assert_eq!(a.name(), "aes-128-cbc");
    assert_eq!(a.key_len(), 16);
    assert_eq!(a.nonce_len(), 16);
}
