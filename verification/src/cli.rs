use vstd::prelude::*;

verus! {

/// The largest input the `unucl` command reads (2 GiB).
pub const MAX_INPUT_SIZE: u64 = 2_147_483_648;

/// The largest decompression buffer the `unucl` command accepts (1 GiB),
/// the same limit as the library's `MAX_DST_CAPACITY`.
pub const MAX_BUFFER_SIZE: u32 = 1_073_741_824;

/// The decompression buffer size the `unucl` command uses when none is
/// given (512 MiB).
pub const DEFAULT_BUFFER_SIZE: u32 = 536_870_912;

/// The buffer size `unucl` decompresses into: the requested one, or the
/// default. `Err` carries a size above `MAX_BUFFER_SIZE`, which is refused.
pub open spec fn buffer_size_choice(requested: Option<u32>) -> Result<u32, u32> {
    let size = match requested {
        Some(size) => size,
        None => DEFAULT_BUFFER_SIZE,
    };
    if size > MAX_BUFFER_SIZE {
        Err(size)
    } else {
        Ok(size)
    }
}

/// Chooses the decompression buffer size from the `--buffersize` option.
pub fn decompression_buffer_size(requested: Option<u32>) -> (res: Result<u32, u32>)
    ensures
        res == buffer_size_choice(requested),
        requested is None ==> res == Ok::<u32, u32>(536_870_912),
        requested matches Some(s) ==> (s <= 1_073_741_824 ==> res == Ok::<u32, u32>(s)),
        requested matches Some(s) ==> (s > 1_073_741_824 ==> res == Err::<u32, u32>(s)),
{
    let size = match requested {
        Some(size) => size,
        None => DEFAULT_BUFFER_SIZE,
    };
    if size > MAX_BUFFER_SIZE {
        Err(size)
    } else {
        Ok(size)
    }
}

/// Whether an input of `bytes_read` bytes is within what `unucl` accepts.
pub fn input_within_limit(bytes_read: u64) -> (ok: bool)
    ensures
        ok == (bytes_read <= MAX_INPUT_SIZE),
        ok == (bytes_read <= 2_147_483_648),
{
    bytes_read <= MAX_INPUT_SIZE
}


/// A requested buffer size of at most 1 GiB is used exactly as given, a
/// larger one is refused carrying that size, and without a request the
/// default of 512 MiB is used.
pub proof fn lemma_requested_buffer_size_used(size: u32)
    ensures
        size <= 1_073_741_824 ==> buffer_size_choice(Some(size)) == Ok::<u32, u32>(size),
        size > 1_073_741_824 ==> buffer_size_choice(Some(size)) == Err::<u32, u32>(size),
        buffer_size_choice(None) == Ok::<u32, u32>(536_870_912),
{
}

} // verus!
