# uclcli

Verified decision logic around libucl's NRV2B compressor and decompressor.

- `src/` (verified with Verus): the error kinds and the decoding of libucl
  status codes (`error.rs`); buffer-size rules, the worst-case compressed size
  and the 32-bit length conversions (`sizes.rs`); the plan of each
  compression or decompression request before libucl is called, and the
  interpretation of the status and length it reports (`nrv.rs`); the
  buffer-size and input-size rules of the `unucl` command (`cli.rs`).
- `app/`: the calls into the C library libucl and its initialization, the
  public `compress`/`decompress` functions built from the verified plans,
  and the `unucl` command-line program.
- `tests/`: tests of the verified functions.
