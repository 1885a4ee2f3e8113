use uclcli::{
    decompression_buffer_size, finish_call, finish_into_vec, input_within_limit,
    minimum_compression_buffer_size, plan_compress, plan_compress_into_buffer, plan_decompress,
    plan_decompress_into_buffer, CallPlan, UclErrorKind, DEFAULT_BUFFER_SIZE,
    DEFAULT_COMPRESSION_LEVEL, MAX_BUFFER_SIZE, MAX_DST_CAPACITY, MAX_INPUT_SIZE, UCL_VERSION,
};

const FOUR_GIB: usize = 4 * 1024 * 1024 * 1024;

#[test]
fn error_codes_decode_to_their_kinds() {
    assert_eq!(UclErrorKind::from(-2), UclErrorKind::InvalidArgument);
    assert_eq!(UclErrorKind::from(-3), UclErrorKind::OutOfMemory);
    assert_eq!(UclErrorKind::from(-101), UclErrorKind::NotCompressible);
    assert_eq!(UclErrorKind::from(-201), UclErrorKind::InputOverrun);
    assert_eq!(UclErrorKind::from(-202), UclErrorKind::OutputOverrun);
    assert_eq!(UclErrorKind::from(-203), UclErrorKind::LookbehindOverrun);
    assert_eq!(UclErrorKind::from(-204), UclErrorKind::EofNotFound);
    assert_eq!(UclErrorKind::from(-205), UclErrorKind::InputNotConsumed);
    assert_eq!(UclErrorKind::from(-206), UclErrorKind::OverlapOverrun);
}

#[test]
fn unknown_error_codes_are_generic() {
    assert_eq!(UclErrorKind::from(-1), UclErrorKind::GenericError);
    assert_eq!(UclErrorKind::from(-4), UclErrorKind::GenericError);
    assert_eq!(UclErrorKind::from(-207), UclErrorKind::GenericError);
    assert_eq!(UclErrorKind::from(1), UclErrorKind::GenericError);
    assert_eq!(UclErrorKind::from(i32::MIN), UclErrorKind::GenericError);
}

#[test]
fn error_messages() {
    assert_eq!(UclErrorKind::GenericError.message(), "generic UCL error");
    assert_eq!(UclErrorKind::InvalidArgument.message(), "invalid argument");
    assert_eq!(UclErrorKind::OutOfMemory.message(), "out of memory");
    assert_eq!(UclErrorKind::NotCompressible.message(), "not compressible");
    assert_eq!(UclErrorKind::InputOverrun.message(), "input overrun");
    assert_eq!(UclErrorKind::OutputOverrun.message(), "output overrun");
    assert_eq!(UclErrorKind::LookbehindOverrun.message(), "look-behind overrun");
    assert_eq!(UclErrorKind::EofNotFound.message(), "EOF not found");
    assert_eq!(UclErrorKind::InputNotConsumed.message(), "input not consumed");
    assert_eq!(UclErrorKind::OverlapOverrun.message(), "overlap overrun");
    assert_eq!(UclErrorKind::SrcTooLarge.message(), "src buffer too large");
    assert_eq!(UclErrorKind::DstTooLarge.message(), "dst buffer too large");
    assert_eq!(UclErrorKind::DstTooSmall.message(), "dst buffer too small");
}

#[test]
fn minimum_buffer_size_formula() {
    assert_eq!(minimum_compression_buffer_size(0), 256);
    assert_eq!(minimum_compression_buffer_size(4), 260);
    assert_eq!(minimum_compression_buffer_size(8), 265);
    assert_eq!(minimum_compression_buffer_size(1024), 1408);
    assert_eq!(minimum_compression_buffer_size(1024 * 1024), 1179904);
}

#[test]
fn minimum_buffer_size_grows_with_input() {
    let mut prev = minimum_compression_buffer_size(0);
    for n in 1..2000usize {
        let cur = minimum_compression_buffer_size(n);
        assert!(cur >= prev);
        assert!(cur >= n + 256);
        prev = cur;
    }
}

#[test]
fn constants() {
    assert_eq!(UCL_VERSION, 0x01_0300);
    assert_eq!(MAX_DST_CAPACITY, 1_073_741_824);
    assert_eq!(DEFAULT_COMPRESSION_LEVEL, 6);
    assert_eq!(MAX_BUFFER_SIZE, MAX_DST_CAPACITY);
    assert_eq!(DEFAULT_BUFFER_SIZE, 512 * 1024 * 1024);
    assert_eq!(MAX_INPUT_SIZE, 2 * 1024 * 1024 * 1024);
}

#[test]
fn compress_into_buffer_refuses_too_small_destination() {
    assert_eq!(
        plan_compress_into_buffer(true, 4, 4),
        CallPlan::Refuse(UclErrorKind::DstTooSmall)
    );
    assert_eq!(
        plan_compress_into_buffer(true, 0, 255),
        CallPlan::Refuse(UclErrorKind::DstTooSmall)
    );
    // without libucl initialized the request halts instead
    assert_eq!(plan_compress_into_buffer(false, 4, 4), CallPlan::Uninitialized);
}

#[test]
fn compress_into_buffer_refuses_too_large_destination() {
    assert_eq!(
        plan_compress_into_buffer(true, 4, FOUR_GIB),
        CallPlan::Refuse(UclErrorKind::DstTooLarge)
    );
    assert_eq!(plan_compress_into_buffer(false, 4, FOUR_GIB), CallPlan::Uninitialized);
}

#[test]
fn compress_into_buffer_calls_with_buffer_lengths() {
    assert_eq!(
        plan_compress_into_buffer(true, 0, 256),
        CallPlan::Call { src_len: 0, dst_capacity: 256 }
    );
    assert_eq!(
        plan_compress_into_buffer(true, 1024, 2000),
        CallPlan::Call { src_len: 1024, dst_capacity: 2000 }
    );
    assert_eq!(plan_compress_into_buffer(false, 1024, 2000), CallPlan::Uninitialized);
}

#[test]
fn compress_plans_worst_case_buffer() {
    assert_eq!(plan_compress(true, 0), CallPlan::Call { src_len: 0, dst_capacity: 256 });
    assert_eq!(plan_compress(true, 1024), CallPlan::Call { src_len: 1024, dst_capacity: 1408 });
    assert_eq!(plan_compress(false, 1024), CallPlan::Uninitialized);
    assert_eq!(plan_compress(false, FOUR_GIB), CallPlan::Uninitialized);
    assert_eq!(plan_compress(true, FOUR_GIB), CallPlan::Refuse(UclErrorKind::DstTooLarge));
    for n in [0usize, 1, 7, 8, 100, 4096, 1 << 20] {
        assert_eq!(
            plan_compress(true, n),
            plan_compress_into_buffer(true, n, minimum_compression_buffer_size(n))
        );
    }
}

#[test]
fn decompress_into_buffer_plans() {
    assert_eq!(
        plan_decompress_into_buffer(true, 4, FOUR_GIB),
        CallPlan::Refuse(UclErrorKind::DstTooLarge)
    );
    assert_eq!(
        plan_decompress_into_buffer(true, FOUR_GIB, 4),
        CallPlan::Refuse(UclErrorKind::SrcTooLarge)
    );
    assert_eq!(plan_decompress_into_buffer(false, FOUR_GIB, 4), CallPlan::Uninitialized);
    assert_eq!(plan_decompress_into_buffer(false, 4, FOUR_GIB), CallPlan::Uninitialized);
    assert_eq!(
        plan_decompress_into_buffer(true, 8, 8),
        CallPlan::Call { src_len: 8, dst_capacity: 8 }
    );
}

#[test]
fn decompress_plans() {
    assert_eq!(
        plan_decompress(true, FOUR_GIB, 4),
        CallPlan::Refuse(UclErrorKind::SrcTooLarge)
    );
    assert_eq!(
        plan_decompress(true, 8, MAX_DST_CAPACITY + 1),
        CallPlan::Refuse(UclErrorKind::DstTooLarge)
    );
    assert_eq!(plan_decompress(false, 8, MAX_DST_CAPACITY + 1), CallPlan::Uninitialized);
    assert_eq!(
        plan_decompress(true, 12, MAX_DST_CAPACITY),
        CallPlan::Call { src_len: 12, dst_capacity: MAX_DST_CAPACITY }
    );
    for cap in [0u32, 8, 1024, 8191, MAX_DST_CAPACITY] {
        assert_eq!(plan_decompress(true, 21, cap), plan_decompress_into_buffer(true, 21, cap as usize));
    }
}

#[test]
fn finish_call_reports_length_or_error() {
    assert_eq!(finish_call(0, 12, 1024), Ok(12));
    assert_eq!(finish_call(0, 0, 8), Ok(0));
    assert_eq!(finish_call(0, 1024, 1024), Ok(1024));
    assert_eq!(finish_call(0, 1025, 1024), Err(UclErrorKind::OutputOverrun));
    assert_eq!(finish_call(-202, 8191, 8191), Err(UclErrorKind::OutputOverrun));
    assert_eq!(finish_call(-201, 0, 8), Err(UclErrorKind::InputOverrun));
    assert_eq!(finish_call(-1, 0, 8), Err(UclErrorKind::GenericError));
}

#[test]
fn finish_into_vec_keeps_written_bytes() {
    let buffer = vec![0xa5u8; 16];
    assert_eq!(finish_into_vec(buffer, 0, 4), Ok(vec![0xa5u8; 4]));
    let buffer = vec![1u8, 2, 3, 4, 5];
    assert_eq!(finish_into_vec(buffer, 0, 3), Ok(vec![1u8, 2, 3]));
    let buffer = vec![1u8, 2, 3];
    assert_eq!(finish_into_vec(buffer, 0, 0), Ok(vec![]));
    let buffer = vec![1u8, 2, 3];
    assert_eq!(finish_into_vec(buffer, 0, 4), Err(UclErrorKind::OutputOverrun));
    let buffer = vec![1u8, 2, 3];
    assert_eq!(finish_into_vec(buffer, -204, 1), Err(UclErrorKind::EofNotFound));
}

#[test]
fn buffer_size_option() {
    assert_eq!(decompression_buffer_size(None), Ok(DEFAULT_BUFFER_SIZE));
    assert_eq!(decompression_buffer_size(Some(1024)), Ok(1024));
    assert_eq!(decompression_buffer_size(Some(MAX_BUFFER_SIZE)), Ok(MAX_BUFFER_SIZE));
    assert_eq!(
        decompression_buffer_size(Some(MAX_BUFFER_SIZE + 1)),
        Err(MAX_BUFFER_SIZE + 1)
    );
}

#[test]
fn input_limit() {
    assert!(input_within_limit(0));
    assert!(input_within_limit(MAX_INPUT_SIZE));
    assert!(!input_within_limit(MAX_INPUT_SIZE + 1));
}
