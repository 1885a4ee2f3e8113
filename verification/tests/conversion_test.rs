use uclcli::{to_u32_dst_len, to_u32_src_len, UclErrorKind};

#[test]
fn test_to_u32_src_len_valid() {
    assert_eq!(to_u32_src_len(1024), Ok(1024));
}

#[test]
fn test_to_u32_src_len_too_large() {
    assert_eq!(
        to_u32_src_len(u32::MAX as usize + 1),
        Err(UclErrorKind::SrcTooLarge)
    );
}

#[test]
fn test_to_u32_dst_len_valid() {
    assert_eq!(to_u32_dst_len(1024), Ok(1024));
}

#[test]
fn test_to_u32_dst_len_too_large() {
    assert_eq!(
        to_u32_dst_len(u32::MAX as usize + 1),
        Err(UclErrorKind::DstTooLarge)
    );
}

#[test]
fn to_u32_len_accepts_the_largest_u32() {
    assert_eq!(to_u32_src_len(u32::MAX as usize), Ok(u32::MAX));
    assert_eq!(to_u32_dst_len(u32::MAX as usize), Ok(u32::MAX));
    assert_eq!(to_u32_src_len(0), Ok(0));
}
