use vstd::prelude::*;

use crate::error::{is_size_error, kind_of_code, UclErrorKind};
use crate::sizes::{
    compress_check, compress_into_buffer_check, decompress_check, dst_len_check, min_buffer_size,
    minimum_compression_buffer_size, src_len_check, to_u32_dst_len, to_u32_src_len,
    MAX_DST_CAPACITY,
};

verus! {

/// What a compression or decompression request leads to before libucl is
/// called: refusal with an error, a halt because libucl was never
/// initialized, or a call with the given 32-bit source length and
/// destination capacity.
#[derive(Debug, PartialEq, Eq, Clone, Copy, Structural)]
pub enum CallPlan {
    Refuse(UclErrorKind),
    Uninitialized,
    Call { src_len: u32, dst_capacity: u32 },
}

/// The common shape of every request: libucl must have been initialized
/// (otherwise the request halts, whatever its buffers), then the buffer
/// checks of the entry point (`outer`) apply, then the source length must
/// fit in 32 bits.
pub open spec fn plan_after(initialized: bool, outer: Result<u32, UclErrorKind>, src_len: int) -> CallPlan {
    if !initialized {
        CallPlan::Uninitialized
    } else {
        match outer {
            Err(e) => CallPlan::Refuse(e),
            Ok(dst_capacity) => match src_len_check(src_len) {
                Err(e) => CallPlan::Refuse(e),
                Ok(src_len) => CallPlan::Call { src_len, dst_capacity },
            },
        }
    }
}

/// The plan of `compress_into_buffer(src, dst)`.
pub open spec fn compress_into_buffer_plan(initialized: bool, src_len: int, dst_len: int) -> CallPlan {
    plan_after(initialized, compress_into_buffer_check(src_len, dst_len), src_len)
}

/// The plan of `compress(src)`.
pub open spec fn compress_plan(initialized: bool, src_len: int) -> CallPlan {
    plan_after(initialized, compress_check(src_len), src_len)
}

/// The plan of `decompress_into_buffer(src, dst)`.
pub open spec fn decompress_into_buffer_plan(initialized: bool, src_len: int, dst_len: int) -> CallPlan {
    plan_after(initialized, dst_len_check(dst_len), src_len)
}

/// The plan of `decompress(src, dst_capacity)`.
pub open spec fn decompress_plan(initialized: bool, src_len: int, dst_capacity: u32) -> CallPlan {
    plan_after(initialized, decompress_check(dst_capacity), src_len)
}

/// The result of a libucl NRV2B call that wrote into a destination of
/// `dst_capacity` bytes and reported `status` and `written`: on status 0 the
/// number of usable bytes, unless libucl claims to have written more than
/// the buffer holds (`OutputOverrun`); on any other status its error kind.
pub open spec fn call_outcome(status: i32, written: u32, dst_capacity: u32) -> Result<u32, UclErrorKind> {
    if status == 0 {
        if written > dst_capacity {
            Err(UclErrorKind::OutputOverrun)
        } else {
            Ok(written)
        }
    } else {
        Err(kind_of_code(status))
    }
}

fn plan_after_checks(initialized: bool, outer: Result<u32, UclErrorKind>, src_len: usize) -> (plan: CallPlan)
    ensures
        plan == plan_after(initialized, outer, src_len as int),
{
    if !initialized {
        return CallPlan::Uninitialized;
    }
    match outer {
        Err(e) => CallPlan::Refuse(e),
        Ok(dst_capacity) => match to_u32_src_len(src_len) {
            Err(e) => CallPlan::Refuse(e),
            Ok(src_len) => CallPlan::Call { src_len, dst_capacity },
        },
    }
}

/// Decides what `compress_into_buffer` does with a source of `src_len`
/// bytes and a destination of `dst_len` bytes: without libucl initialized it
/// halts; otherwise a destination below the worst-case size is refused with
/// `DstTooSmall`, one that does not fit in 32 bits with `DstTooLarge`, and a
/// source that does not fit in 32 bits with `SrcTooLarge`.
pub fn plan_compress_into_buffer(initialized: bool, src_len: usize, dst_len: usize) -> (plan: CallPlan)
    requires
        min_buffer_size(src_len as int) <= usize::MAX,
    ensures
        plan == compress_into_buffer_plan(initialized, src_len as int, dst_len as int),
        !initialized ==> plan == CallPlan::Uninitialized,
        initialized && dst_len < src_len + src_len / 8 + 256 ==> plan == CallPlan::Refuse(UclErrorKind::DstTooSmall),
        initialized && dst_len >= src_len + src_len / 8 + 256 && dst_len > u32::MAX
            ==> plan == CallPlan::Refuse(UclErrorKind::DstTooLarge),
        initialized && src_len + src_len / 8 + 256 <= dst_len <= u32::MAX && src_len > u32::MAX
            ==> plan == CallPlan::Refuse(UclErrorKind::SrcTooLarge),
        initialized && src_len + src_len / 8 + 256 <= dst_len <= u32::MAX && src_len <= u32::MAX
            ==> plan == (CallPlan::Call { src_len: src_len as u32, dst_capacity: dst_len as u32 }),
{
    let outer = if dst_len < minimum_compression_buffer_size(src_len) {
        Err(UclErrorKind::DstTooSmall)
    } else {
        to_u32_dst_len(dst_len)
    };
    plan_after_checks(initialized, outer, src_len)
}

/// Decides what `compress` does with a source of `src_len` bytes: without
/// libucl initialized it halts; otherwise it allocates the worst-case size,
/// which is refused with `DstTooLarge` where it does not fit in 32 bits, and
/// a source that does not fit in 32 bits is refused with `SrcTooLarge`.
pub fn plan_compress(initialized: bool, src_len: usize) -> (plan: CallPlan)
    requires
        min_buffer_size(src_len as int) <= usize::MAX,
    ensures
        plan == compress_plan(initialized, src_len as int),
        !initialized ==> plan == CallPlan::Uninitialized,
        initialized && src_len + src_len / 8 + 256 > u32::MAX ==> plan == CallPlan::Refuse(UclErrorKind::DstTooLarge),
        initialized && src_len + src_len / 8 + 256 <= u32::MAX
            ==> plan == (CallPlan::Call { src_len: src_len as u32, dst_capacity: (src_len + src_len / 8 + 256) as u32 }),
{
    let capacity = minimum_compression_buffer_size(src_len);
    let outer = to_u32_dst_len(capacity);
    plan_after_checks(initialized, outer, src_len)
}

/// Decides what `decompress_into_buffer` does with a source of `src_len`
/// bytes and a destination of `dst_len` bytes: without libucl initialized it
/// halts; otherwise a destination that does not fit in 32 bits is refused
/// with `DstTooLarge`, and a source that does not fit in 32 bits with
/// `SrcTooLarge`.
pub fn plan_decompress_into_buffer(initialized: bool, src_len: usize, dst_len: usize) -> (plan: CallPlan)
    ensures
        plan == decompress_into_buffer_plan(initialized, src_len as int, dst_len as int),
        !initialized ==> plan == CallPlan::Uninitialized,
        initialized && dst_len > u32::MAX ==> plan == CallPlan::Refuse(UclErrorKind::DstTooLarge),
        initialized && dst_len <= u32::MAX && src_len > u32::MAX ==> plan == CallPlan::Refuse(UclErrorKind::SrcTooLarge),
        initialized && dst_len <= u32::MAX && src_len <= u32::MAX
            ==> plan == (CallPlan::Call { src_len: src_len as u32, dst_capacity: dst_len as u32 }),
{
    let outer = to_u32_dst_len(dst_len);
    plan_after_checks(initialized, outer, src_len)
}

/// Decides what `decompress` does with a source of `src_len` bytes and a
/// requested capacity: without libucl initialized it halts; otherwise a
/// capacity above `MAX_DST_CAPACITY` is refused with `DstTooLarge`, and a
/// source that does not fit in 32 bits with `SrcTooLarge`.
pub fn plan_decompress(initialized: bool, src_len: usize, dst_capacity: u32) -> (plan: CallPlan)
    ensures
        plan == decompress_plan(initialized, src_len as int, dst_capacity),
        !initialized ==> plan == CallPlan::Uninitialized,
        initialized && dst_capacity > 1_073_741_824 ==> plan == CallPlan::Refuse(UclErrorKind::DstTooLarge),
        initialized && dst_capacity <= 1_073_741_824 && src_len > u32::MAX
            ==> plan == CallPlan::Refuse(UclErrorKind::SrcTooLarge),
        initialized && dst_capacity <= 1_073_741_824 && src_len <= u32::MAX
            ==> plan == (CallPlan::Call { src_len: src_len as u32, dst_capacity }),
{
    let outer = if dst_capacity > MAX_DST_CAPACITY {
        Err(UclErrorKind::DstTooLarge)
    } else {
        Ok(dst_capacity)
    };
    plan_after_checks(initialized, outer, src_len)
}

/// Turns the status code and output length that libucl reported for a call
/// into a destination of `dst_capacity` bytes into the call's result.
pub fn finish_call(status: i32, written: u32, dst_capacity: u32) -> (res: Result<u32, UclErrorKind>)
    ensures
        res == call_outcome(status, written, dst_capacity),
        status == 0 && written <= dst_capacity ==> res == Ok::<u32, UclErrorKind>(written),
        status == 0 && written > dst_capacity ==> res == Err::<u32, UclErrorKind>(UclErrorKind::OutputOverrun),
        status != 0 ==> res == Err::<u32, UclErrorKind>(kind_of_code(status)),
        res matches Ok(n) ==> n <= dst_capacity,
        res matches Err(e) ==> !is_size_error(e),
{
    if status == 0 {
        // libucl reporting more output than the buffer holds means the
        // input (or the library) is broken: treat it as an overrun.
        if written > dst_capacity {
            return Err(UclErrorKind::OutputOverrun);
        }
        Ok(written)
    } else {
        Err(UclErrorKind::from(status))
    }
}

/// Turns the result of a libucl call that wrote into the whole of `buffer`
/// into the bytes it produced: the first `written` bytes of `buffer`, or the
/// call's error.
pub fn finish_into_vec(buffer: Vec<u8>, status: i32, written: u32) -> (res: Result<Vec<u8>, UclErrorKind>)
    requires
        buffer.len() <= u32::MAX,
    ensures
        res is Ok <==> call_outcome(status, written, buffer.len() as u32) is Ok,
        res matches Ok(out) ==> out@ == buffer@.subrange(0, written as int),
        status == 0 && written <= buffer.len() ==> (res matches Ok(out) && out@ == buffer@.subrange(0, written as int)),
        status == 0 && written > buffer.len() ==> (res matches Err(e) && e == UclErrorKind::OutputOverrun),
        status != 0 ==> (res matches Err(e) && e == kind_of_code(status)),
        res matches Err(e) ==> call_outcome(status, written, buffer.len() as u32) == Err::<u32, UclErrorKind>(e),
{
    let capacity = buffer.len() as u32;
    match finish_call(status, written, capacity) {
        Ok(n) => {
            let mut out = buffer;
            out.truncate(n as usize);
            Ok(out)
        },
        Err(e) => Err(e),
    }
}

/// A call is only ever planned with the lengths of the caller's own
/// buffers: the source length is the length of the source, and the
/// capacity of `*_into_buffer` is the length of the destination, so libucl
/// is never told that a buffer is larger than it is.
pub proof fn lemma_call_uses_buffer_lengths(initialized: bool, src_len: int, dst_len: int, dst_capacity: u32)
    requires
        0 <= src_len,
        0 <= dst_len,
    ensures
        compress_into_buffer_plan(initialized, src_len, dst_len) matches CallPlan::Call { src_len: s, dst_capacity: d }
            ==> s == src_len && d == dst_len && d >= min_buffer_size(src_len),
        decompress_into_buffer_plan(initialized, src_len, dst_len) matches CallPlan::Call { src_len: s, dst_capacity: d }
            ==> s == src_len && d == dst_len,
        compress_plan(initialized, src_len) matches CallPlan::Call { src_len: s, dst_capacity: d }
            ==> s == src_len && d == min_buffer_size(src_len),
        decompress_plan(initialized, src_len, dst_capacity) matches CallPlan::Call { src_len: s, dst_capacity: d }
            ==> s == src_len && d == dst_capacity && d <= MAX_DST_CAPACITY,
{
}

/// A destination of `minimum_compression_buffer_size(n)` bytes is never
/// refused as too small, and `compress` plans exactly what
/// `compress_into_buffer` plans for a destination of that size.
pub proof fn lemma_minimum_size_suffices(initialized: bool, src_len: int)
    requires
        0 <= src_len,
    ensures
        compress_into_buffer_plan(initialized, src_len, min_buffer_size(src_len))
            != CallPlan::Refuse(UclErrorKind::DstTooSmall),
        compress_plan(initialized, src_len)
            == compress_into_buffer_plan(initialized, src_len, min_buffer_size(src_len)),
{
}

/// Once libucl is initialized, `compress_into_buffer` refuses a destination
/// as too small exactly when it is shorter than
/// `minimum_compression_buffer_size` of the source.
pub proof fn lemma_too_small_exactly_below_minimum(initialized: bool, src_len: int, dst_len: int)
    requires
        0 <= src_len,
        0 <= dst_len,
    ensures
        initialized ==> ((compress_into_buffer_plan(initialized, src_len, dst_len)
            == CallPlan::Refuse(UclErrorKind::DstTooSmall)) <==> dst_len < min_buffer_size(src_len)),
{
}

/// `decompress` with a capacity up to `MAX_DST_CAPACITY` plans exactly what
/// `decompress_into_buffer` plans for a fresh buffer of that many bytes; a
/// larger capacity is refused with `DstTooLarge` once libucl is initialized.
pub proof fn lemma_decompress_as_into_fresh_buffer(initialized: bool, src_len: int, dst_capacity: u32)
    requires
        0 <= src_len,
    ensures
        dst_capacity <= MAX_DST_CAPACITY ==> decompress_plan(initialized, src_len, dst_capacity)
            == decompress_into_buffer_plan(initialized, src_len, dst_capacity as int),
        initialized && dst_capacity > MAX_DST_CAPACITY ==> decompress_plan(initialized, src_len, dst_capacity)
            == CallPlan::Refuse(UclErrorKind::DstTooLarge),
{
}

/// Before libucl is initialized every request halts, whatever its buffers:
/// none is refused with an error and none reaches libucl.
pub proof fn lemma_uninitialized_always_halts(src_len: int, dst_len: int, dst_capacity: u32)
    requires
        0 <= src_len,
        0 <= dst_len,
    ensures
        compress_into_buffer_plan(false, src_len, dst_len) == CallPlan::Uninitialized,
        compress_plan(false, src_len) == CallPlan::Uninitialized,
        decompress_into_buffer_plan(false, src_len, dst_len) == CallPlan::Uninitialized,
        decompress_plan(false, src_len, dst_capacity) == CallPlan::Uninitialized,
{
}

/// A successful call yields exactly the length libucl reported, which never
/// exceeds the destination that was planned for it; a status of 0 with a
/// longer length is an `OutputOverrun`; any other status fails, and never
/// with a size error of this crate's own.
pub proof fn lemma_outcome_within_capacity(status: i32, written: u32, dst_capacity: u32)
    ensures
        call_outcome(status, written, dst_capacity) matches Ok(n) ==> n <= dst_capacity && status == 0,
        status == 0 && written <= dst_capacity ==> call_outcome(status, written, dst_capacity) == Ok::<u32, UclErrorKind>(written),
        status == 0 && written > dst_capacity
            ==> call_outcome(status, written, dst_capacity) == Err::<u32, UclErrorKind>(UclErrorKind::OutputOverrun),
        status != 0 ==> call_outcome(status, written, dst_capacity) is Err,
        call_outcome(status, written, dst_capacity) matches Err(e) ==> !is_size_error(e),
{
}


/// Once libucl is initialized, a decompression request whose lengths fit in
/// 32 bits (and, for `decompress`, whose capacity is at most 1 GiB) is never
/// refused, whatever the capacity is relative to the source: it is a call
/// with exactly those lengths. Too little room for the output can only show
/// up as libucl's own `OutputOverrun`.
pub proof fn lemma_decompress_never_refuses_fitting_request(src_len: int, dst_len: int, dst_capacity: u32)
    requires
        0 <= src_len <= u32::MAX,
        0 <= dst_len <= u32::MAX,
        dst_capacity <= 1_073_741_824,
    ensures
        decompress_plan(true, src_len, dst_capacity)
            == (CallPlan::Call { src_len: src_len as u32, dst_capacity }),
        decompress_into_buffer_plan(true, src_len, dst_len)
            == (CallPlan::Call { src_len: src_len as u32, dst_capacity: dst_len as u32 }),
{
}

/// Once libucl is initialized, `compress` of a source whose worst-case size
/// `n + n / 8 + 256` fits in 32 bits is always a call with the source length
/// and that worst-case size; `SrcTooLarge` comes only from a source longer
/// than `u32::MAX` bytes, for any of the compression requests.
pub proof fn lemma_compress_plans_worst_case(src_len: int, dst_len: int)
    requires
        0 <= src_len,
        0 <= dst_len,
    ensures
        src_len + src_len / 8 + 256 <= u32::MAX ==> compress_plan(true, src_len)
            == (CallPlan::Call { src_len: src_len as u32, dst_capacity: (src_len + src_len / 8 + 256) as u32 }),
        compress_plan(true, src_len) == CallPlan::Refuse(UclErrorKind::SrcTooLarge) ==> src_len > u32::MAX,
        compress_into_buffer_plan(true, src_len, dst_len) == CallPlan::Refuse(UclErrorKind::SrcTooLarge)
            ==> src_len > u32::MAX,
{
}

/// Once libucl is initialized, a destination of at least `n + n / 8 + 256`
/// and at most `u32::MAX` bytes, for a source of `n <= u32::MAX` bytes, is
/// always handed to libucl whole, never refused, however large it is.
pub proof fn lemma_compress_into_buffer_accepts_large_enough(src_len: int, dst_len: int)
    requires
        0 <= src_len <= u32::MAX,
        src_len + src_len / 8 + 256 <= dst_len <= u32::MAX,
    ensures
        compress_into_buffer_plan(true, src_len, dst_len)
            == (CallPlan::Call { src_len: src_len as u32, dst_capacity: dst_len as u32 }),
{
}

} // verus!
