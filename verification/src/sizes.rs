use vstd::prelude::*;

use crate::error::UclErrorKind;

verus! {

/// The libucl version this crate is written against, as 0xVVRRMM
/// (version, revision, minor): 1.03.00.
pub const UCL_VERSION: u32 = 0x01_0300;

/// The largest destination capacity that `decompress` allocates (1 GiB).
/// Larger requests are refused, so that a hostile input cannot make the
/// library exhaust memory.
pub const MAX_DST_CAPACITY: u32 = 1_073_741_824;

/// The NRV2B compression level handed to libucl: a balance between
/// compression ratio and speed.
pub const DEFAULT_COMPRESSION_LEVEL: i32 = 6;

/// libucl's worst-case size of the compressed form of `src_len` bytes:
/// `src_len + src_len / 8 + 256`.
pub open spec fn min_buffer_size(src_len: int) -> int {
    src_len + src_len / 8 + 256
}

/// A source length as libucl takes it, or `SrcTooLarge` where it does not fit
/// in 32 bits.
pub open spec fn src_len_check(len: int) -> Result<u32, UclErrorKind> {
    if len <= u32::MAX {
        Ok(len as u32)
    } else {
        Err(UclErrorKind::SrcTooLarge)
    }
}

/// A destination length as libucl takes it, or `DstTooLarge` where it does
/// not fit in 32 bits.
pub open spec fn dst_len_check(len: int) -> Result<u32, UclErrorKind> {
    if len <= u32::MAX {
        Ok(len as u32)
    } else {
        Err(UclErrorKind::DstTooLarge)
    }
}

/// What `compress_into_buffer` decides before it calls libucl: the
/// destination capacity to hand over, or the first error that applies.
pub open spec fn compress_into_buffer_check(src_len: int, dst_len: int) -> Result<u32, UclErrorKind> {
    if dst_len < min_buffer_size(src_len) {
        Err(UclErrorKind::DstTooSmall)
    } else {
        dst_len_check(dst_len)
    }
}

/// What `compress` decides before it calls libucl: it allocates the
/// worst-case size, which must fit in 32 bits.
pub open spec fn compress_check(src_len: int) -> Result<u32, UclErrorKind> {
    dst_len_check(min_buffer_size(src_len))
}

/// What `decompress` decides before it allocates: the capacity must be at
/// most `MAX_DST_CAPACITY`.
pub open spec fn decompress_check(dst_capacity: u32) -> Result<u32, UclErrorKind> {
    if dst_capacity > MAX_DST_CAPACITY {
        Err(UclErrorKind::DstTooLarge)
    } else {
        Ok(dst_capacity)
    }
}

/// Converts the length of a source buffer to the 32-bit length libucl
/// takes, refusing it with `SrcTooLarge` where it does not fit.
pub fn to_u32_src_len(len: usize) -> (res: Result<u32, UclErrorKind>)
    ensures
        res == src_len_check(len as int),
        len <= u32::MAX ==> res == Ok::<u32, UclErrorKind>(len as u32),
        len > u32::MAX ==> res == Err::<u32, UclErrorKind>(UclErrorKind::SrcTooLarge),
{
    if len <= u32::MAX as usize {
        Ok(len as u32)
    } else {
        Err(UclErrorKind::SrcTooLarge)
    }
}

/// Converts the length of a destination buffer to the 32-bit length libucl
/// takes, refusing it with `DstTooLarge` where it does not fit.
pub fn to_u32_dst_len(len: usize) -> (res: Result<u32, UclErrorKind>)
    ensures
        res == dst_len_check(len as int),
        len <= u32::MAX ==> res == Ok::<u32, UclErrorKind>(len as u32),
        len > u32::MAX ==> res == Err::<u32, UclErrorKind>(UclErrorKind::DstTooLarge),
{
    if len <= u32::MAX as usize {
        Ok(len as u32)
    } else {
        Err(UclErrorKind::DstTooLarge)
    }
}

/// The destination buffer size that `compress_into_buffer` needs for a
/// source of `src_len` bytes. libucl expands incompressible data by a little;
/// its worst case is `src_len + src_len / 8 + 256`.
pub fn minimum_compression_buffer_size(src_len: usize) -> (size: usize)
    requires
        min_buffer_size(src_len as int) <= usize::MAX,
    ensures
        size == min_buffer_size(src_len as int),
        size == src_len + src_len / 8 + 256,
{
    src_len + (src_len / 8) + 256
}

/// The worst-case compressed size grows with the input and always leaves at
/// least 256 bytes beyond it.
pub proof fn lemma_minimum_size_monotone(a: int, b: int)
    requires
        0 <= a <= b,
    ensures
        min_buffer_size(a) <= min_buffer_size(b),
        min_buffer_size(a) >= a + 256,
{
}


/// The room needed beyond the source is 256 bytes plus one byte for every
/// whole 8 bytes of source: an empty source needs 256 bytes, and every 8
/// more source bytes need exactly 9 more, with no cap however large the
/// source is.
pub proof fn lemma_minimum_size_growth(n: int)
    requires
        0 <= n,
    ensures
        min_buffer_size(0) == 256,
        min_buffer_size(n + 8) == min_buffer_size(n) + 9,
        8 * (min_buffer_size(n) - n - 256) <= n < 8 * (min_buffer_size(n) - n - 256) + 8,
{
}

} // verus!
