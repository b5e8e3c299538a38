# fixed_buffer

Fixed-size byte buffers for network protocol parsers and file parsers, with
their behaviour stated in Verus contracts and proved.

- `src/` is the verified library.
  - `fixed_buf.rs`: `FixedBuf<SIZE>`, a buffer over a `[u8; SIZE]` array, its
    abstract state `BufView`, and the steps of reading a frame from a reader.
  - `page_buf.rs`: a 4 KB `FixedBuf` with delimiter search; its `read(num_bytes)`
    comes with the `ConsumeBytes` trait, and `page_buf_read.rs` holds its
    `std::io::Read` impl.
  - `deframe.rs`: the line and null deframers and the deframer contract.
  - `escape.rs`: `escape_ascii`, specified byte by byte.
  - `async_fixed_buf.rs`, `read_write_chain.rs`, `read_write_take.rs`: the state
    that the asynchronous buffer and the read/write adapters keep.
  - `errors.rs`: the error types, the kinds of `std::io::Error` that the buffers
    return, and the conversions into `std::io::Error`.
  - `laws.rs`: properties that relate the operations.
- `app/` performs the reads and writes that the library asks for: the loops over
  `std::io::Read` and tokio readers, and the `std::io` and tokio trait impls of
  the adapters.
- `tests/` runs the library on concrete inputs.
