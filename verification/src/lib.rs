//! Size checks, error decoding and result handling around libucl's NRV2B
//! compressor and decompressor.
//!
//! The compression routines themselves live in the C library libucl. This
//! crate holds everything that is decided around a call into it: which
//! buffer sizes are accepted and with which error a request is refused, how
//! much room a compressed buffer needs, and how the status and length that
//! libucl reports are turned into a result.
pub mod cli;
pub mod error;
pub mod nrv;
pub mod sizes;

pub use cli::{decompression_buffer_size, input_within_limit, DEFAULT_BUFFER_SIZE, MAX_BUFFER_SIZE, MAX_INPUT_SIZE};
pub use error::UclErrorKind;
pub use nrv::{
    finish_call, finish_into_vec, plan_compress, plan_compress_into_buffer, plan_decompress,
    plan_decompress_into_buffer, CallPlan,
};
pub use sizes::{
    minimum_compression_buffer_size, to_u32_dst_len, to_u32_src_len, DEFAULT_COMPRESSION_LEVEL,
    MAX_DST_CAPACITY, UCL_VERSION,
};
