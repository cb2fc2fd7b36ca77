//! Trusted interface to the outside AES-128 block primitive.
//!
//! Everything the library states about ciphertexts goes back to the two
//! uninterpreted functions below, which name what the outside primitive
//! returns; the cipher modes and their proofs are built on top of them.

use vstd::prelude::*;

verus! {

/// AES block size in bytes.
pub const BLOCK_LEN: usize = 16;

/// AES-128 key size in bytes.
pub const KEY_LEN: usize = 16;

/// What AES-128 block encryption returns for one key and one block.
pub uninterp spec fn aes128_enc(key: Seq<u8>, block: Seq<u8>) -> Seq<u8>;

/// What AES-128 block decryption returns for one key and one block.
pub uninterp spec fn aes128_dec(key: Seq<u8>, block: Seq<u8>) -> Seq<u8>;

/// Relies on `aes::Aes128` through `cipher::BlockEncrypt::encrypt_block`:
/// the result depends on key and block alone and is one 16-byte block, and
/// `decrypt_block` under the same key gives the input block back.
#[verifier::external_body]
pub(crate) fn aes128_encrypt_block(key: &Vec<u8>, block: &Vec<u8>) -> (r: Vec<u8>)
    requires
        key@.len() == KEY_LEN,
        block@.len() == BLOCK_LEN,
    ensures
        r@.len() == BLOCK_LEN,
        r@ == aes128_enc(key@, block@),
        aes128_dec(key@, r@) == block@,
{
    let cipher = <aes::Aes128 as aes::cipher::KeyInit>::new_from_slice(key.as_slice()).unwrap();
    let mut b = aes::cipher::generic_array::GenericArray::clone_from_slice(block.as_slice());
    aes::cipher::BlockEncrypt::encrypt_block(&cipher, &mut b);
    b.to_vec()
}

/// Relies on `aes::Aes128` through `cipher::BlockDecrypt::decrypt_block`:
/// the result depends on key and block alone and is one 16-byte block.
#[verifier::external_body]
pub(crate) fn aes128_decrypt_block(key: &Vec<u8>, block: &Vec<u8>) -> (r: Vec<u8>)
    requires
        key@.len() == KEY_LEN,
        block@.len() == BLOCK_LEN,
    ensures
        r@.len() == BLOCK_LEN,
        r@ == aes128_dec(key@, block@),
{
    let cipher = <aes::Aes128 as aes::cipher::KeyInit>::new_from_slice(key.as_slice()).unwrap();
    let mut b = aes::cipher::generic_array::GenericArray::clone_from_slice(block.as_slice());
    aes::cipher::BlockDecrypt::decrypt_block(&cipher, &mut b);
    b.to_vec()
}

} // verus!
