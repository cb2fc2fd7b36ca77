//! Benchmark harness for symmetric-cipher primitives.
//!
//! The crate defines algorithm descriptors, the capability interfaces that
//! every cipher backend must implement, verified AES-128 mode contexts
//! (CBC chaining and the AEAD bulk transform) over an outside block
//! primitive, and the setup half of the benchmark driver.

use vstd::prelude::*;

pub mod aead;
pub mod aes128;
pub mod block;
pub mod bytes;
pub mod cbc;
pub mod gcm;
mod rng;

pub use aead::{Aead, AeadAlgorithm, AeadBenchCase, AeadBuilder, prepare_aead_case};
pub use block::{
    BlockBenchCase, BlockCipher, BlockCipherAlgorithm, BlockCipherBuilder, prepare_block_case,
};
pub use cbc::{Aes128CbcCtx, Aes128CbcCtxBuilder};
pub use gcm::{Aes128GcmCtx, Aes128GcmCtxBuilder};

verus! {

/// Byte step between the input sizes of a benchmark sweep.
pub const STEP: usize = 1024;

/// Number of input sizes in a benchmark sweep.
pub const ITER: usize = 8;

} // verus!
