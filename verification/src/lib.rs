//! Fixed-size byte buffers for network protocol parsers and file parsers.
//!
//! Write bytes to a buffer and read them back. The buffer lives on the stack and
//! never allocates. Use it to read a stream, search for a delimiter, and save
//! leftover bytes for the next read. It is not circular: call `shift` to move
//! unread bytes to the front and recover the space that reads freed.
mod async_fixed_buf;
mod deframe;
mod errors;
mod escape;
mod fixed_buf;
pub mod laws;
pub mod page_buf;
mod page_buf_read;
mod read_write_chain;
mod read_write_take;

pub use async_fixed_buf::AsyncFixedBuf;
pub use deframe::{
    crlf_at, deframe_crlf, deframe_line, deframe_null, first_crlf_at, first_index_of,
    frame_result_valid, is_deframer,
};
pub use errors::{io_error_value, malformed_debug_text, string_debug_text, IoErrorKind, MalformedInputError, NotEnoughSpaceError};
pub use escape::{decimal_spec, escape_ascii, escape_ascii_spec, escape_byte_spec, hex_digit_spec};
pub use fixed_buf::{
    debug_text_spec, deframe_outcome, frame_step_needs_input, frame_taken, malformed_frame_error, BufView,
    FixedBuf,
    FrameStep,
};
pub use read_write_chain::ReadWriteChain;
pub use read_write_take::ReadWriteTake;
