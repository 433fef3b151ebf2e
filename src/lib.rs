//! Cross-backend compatibility checks for BLS12-381 pairing data: test
//! vectors of compressed G1, G2 and GT encodings, a generator that produces
//! them, a verifier that recomputes the pairing, and a fixed table of
//! vectors captured from known backends.
pub mod backend;
pub mod compat;
pub mod error;
pub mod fixture;
pub mod table;
pub mod vector;

pub use backend::{G1_LEN, G2_LEN, GT_LEN};
pub use compat::{
    assemble_vector, check_encoding, compute_test_vector, g1_valid, g2_valid, run_compat,
    verify_all, verify_test_vector, CompatError, CompatFailure, Group, VectorSource,
};
pub use error::GPUError;
pub use fixture::{decode_fixture, encode_fixture, MAX_FIELD_LEN};
pub use table::get_test_vectors;
pub use vector::TestVector;
