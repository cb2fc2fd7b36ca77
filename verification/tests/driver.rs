//! The setup half of the benchmark driver: buffer sizes, zeroed plaintext,
//! and repeatable timed iterations.

use cipher_bench::{
    prepare_aead_case, prepare_block_case, AeadAlgorithm, Aes128CbcCtxBuilder,
    Aes128GcmCtxBuilder, BlockCipherAlgorithm, STEP,
};

#[test]
fn prepare_aead_case_buffers() {
    let mut builder = Aes128GcmCtxBuilder::new();
    let mut case = prepare_aead_case(&AeadAlgorithm::GcmAes128, &mut builder, 3);
    assert_eq!(case.pbuf.len(), 3 * STEP);
    assert_eq!(case.cbuf.len(), 3 * STEP);
    assert!(case.pbuf.iter().all(|&b| b == 0));
    case.run_iteration();
    case.run_iteration();
    assert_eq!(case.pbuf.len(), 3 * STEP);
    assert_eq!(case.cbuf.len(), 3 * STEP);
}

#[test]
fn prepare_block_case_buffers() {
    let mut builder = Aes128CbcCtxBuilder::new();
    let mut case = prepare_block_case(&BlockCipherAlgorithm::CbcAes128, &mut builder, 8);
    assert_eq!(case.pbuf.len(), 8 * STEP);
    assert_eq!(case.cbuf.len(), 8 * STEP);
    assert!(case.pbuf.iter().all(|&b| b == 0));
    case.run_iteration();
    case.run_iteration();
    assert_eq!(case.cbuf.len(), 8 * STEP);
}

// A builder can prepare several cases in a row: each sweep point starts a
// fresh cycle.
#[test]
fn prepare_reuses_builder_across_sweep() {
    let mut builder = Aes128GcmCtxBuilder::new();
    for count in 1..=3usize {
        let mut case = prepare_aead_case(&AeadAlgorithm::GcmAes128, &mut builder, count);
        assert_eq!(case.pbuf.len(), count * STEP);
        case.run_iteration();
    }
}
