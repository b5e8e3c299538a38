use vstd::prelude::*;

use crate::errors::MalformedInputError;
use core::ops::Range;

verus! {

/// What a deframer function may return for `data`: an error for a malformed frame,
/// `None` for an incomplete frame, or the range of the frame's contents and the
/// frame's length, both within `data`.
pub open spec fn frame_result_valid(
    data: Seq<u8>,
    res: Result<Option<(Range<usize>, usize)>, MalformedInputError>,
) -> bool {
    match res {
        Ok(Some((range, block_len))) => {
            &&& range.start <= range.end <= data.len()
            &&& block_len <= data.len()
        },
        _ => true,
    }
}

/// `f` behaves as a deframer function: it never panics, and the frame and the
/// contents that it finds lie within `data`, so that `&data[range]` and removing
/// `len` bytes from the front of `data` are both possible.
pub open spec fn is_deframer<F>(f: F) -> bool where
    F: Fn(&[u8]) -> Result<Option<(Range<usize>, usize)>, MalformedInputError>,
 {
    &&& forall|data: &[u8]| #[trigger] f.requires((data,))
    &&& forall|data: &[u8], res: Result<Option<(Range<usize>, usize)>, MalformedInputError>|
        #[trigger] f.ensures((data,), res) ==> frame_result_valid(data@, res)
}

/// `n` is the first index of `data` that holds `b`.
pub open spec fn first_index_of(data: Seq<u8>, b: u8, n: int) -> bool {
    &&& 0 <= n < data.len()
    &&& data[n] == b
    &&& forall|i: int| 0 <= i < n ==> data[i] != b
}

/// `data` holds a `\r` at `n - 1` and a `\n` at `n`.
pub open spec fn crlf_at(data: Seq<u8>, n: int) -> bool {
    &&& 1 <= n < data.len()
    &&& data[n - 1] == 0x0d
    &&& data[n] == 0x0a
}

/// `n` is the index of the `\n` of the first `\r\n` pair in `data`.
pub open spec fn first_crlf_at(data: Seq<u8>, n: int) -> bool {
    &&& crlf_at(data, n)
    &&& forall|i: int| 1 <= i < n ==> !#[trigger] crlf_at(data, i)
}

/// Deframes lines that are terminated by `b"\r\n"`.
/// Ignores solitary `b'\n'`.
///
/// Finds the first `\r\n` in `data`. The frame is the line up to and including it;
/// its contents are the line without the `\r\n`.
pub fn deframe_crlf(data: &[u8]) -> (r: Result<Option<(Range<usize>, usize)>, MalformedInputError>)
    ensures
        frame_result_valid(data@, r),
        r matches Ok(found) && match found {
            None => forall|n: int| !#[trigger] crlf_at(data@, n),
            Some((range, block_len)) => {
                &&& first_crlf_at(data@, block_len - 1)
                &&& range.start == 0
                &&& range.end == block_len - 2
            },
        },
{
    if data.len() > 1 {
        let mut n: usize = 1;
        while n < data.len()
            invariant
                1 <= n <= data@.len(),
                forall|i: int| 1 <= i < n ==> !#[trigger] crlf_at(data@, i),
            decreases data@.len() - n,
        {
            if data[n - 1] == 0x0d && data[n] == 0x0a {
                return Ok(Some((Range { start: 0, end: n - 1 }, n + 1)));
            }
            n = n + 1;
        }
    }
    Ok(None)
}

/// Deframes lines that are terminated by either `b'\n'` or `b"\r\n"`.
///
/// Finds the first `\n` in `data`. The frame is the line up to and including it;
/// its contents are the line without the `\n` and without a `\r` just before it.
pub fn deframe_line(data: &[u8]) -> (r: Result<Option<(Range<usize>, usize)>, MalformedInputError>)
    ensures
        frame_result_valid(data@, r),
        r matches Ok(found) && match found {
            None => forall|i: int| 0 <= i < data@.len() ==> data@[i] != 0x0a,
            Some((range, block_len)) => {
                &&& first_index_of(data@, 0x0a, block_len - 1)
                &&& range.start == 0
                &&& range.end == if block_len >= 2 && data@[block_len - 2] == 0x0d {
                    block_len - 2
                } else {
                    block_len - 1
                }
            },
        },
{
    let mut n: usize = 0;
    while n < data.len()
        invariant
            n <= data@.len(),
            forall|i: int| 0 <= i < n ==> data@[i] != 0x0a,
        decreases data@.len() - n,
    {
        if data[n] == 0x0a {
            let data_start_incl: usize = 0;
            let data_end_excl: usize = if n > 0 && data[n - 1] == 0x0d {
                n - 1
            } else {
                n
            };
            let block_len: usize = n + 1;
            return Ok(Some((Range { start: data_start_incl, end: data_end_excl }, block_len)));
        }
        n = n + 1;
    }
    Ok(None)
}

/// Deframes lines that are terminated by `b"\0"`.
/// Ignores `b'\n'` or `b"\r"` and `b"\r\n"`.
///
/// Finds the first zero byte in `data`. The frame is the bytes up to and including it;
/// its contents are the bytes before it.
pub fn deframe_null(data: &[u8]) -> (r: Result<Option<(Range<usize>, usize)>, MalformedInputError>)
    ensures
        frame_result_valid(data@, r),
        r matches Ok(found) && match found {
            None => forall|i: int| 0 <= i < data@.len() ==> data@[i] != 0,
            Some((range, block_len)) => {
                &&& first_index_of(data@, 0, block_len - 1)
                &&& range.start == 0
                &&& range.end == block_len - 1
            },
        },
{
    let mut n: usize = 0;
    while n < data.len()
        invariant
            n <= data@.len(),
            forall|i: int| 0 <= i < n ==> data@[i] != 0,
        decreases data@.len() - n,
    {
        if data[n] == 0 {
            return Ok(Some((Range { start: 0, end: n }, n + 1)));
        }
        n = n + 1;
    }
    Ok(None)
}

} // verus!
