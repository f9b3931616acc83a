use vstd::prelude::*;
use vstd::utf8::{valid_utf8, decode_utf8, encode_utf8, decode_utf8_encode_utf8};

use crate::decode::{utf8_text, utf8_text_lossy, lossy_text};
use crate::error::{AgcError, is_not_found, is_fetch_failure, owned_name};

verus! {

/// Number of bytes the engine may write for the range `[start, end]`.
pub open spec fn range_buffer_len(start: int, end: int) -> int {
    end - start + 1
}

/// Allocates the zeroed buffer that receives the range `[start, end]`.
///
/// It holds one byte more than `end - start`, which is as many as the engine
/// may write for that range.
pub fn sequence_buffer(start: i32, end: i32) -> (buf: Vec<u8>)
    requires
        start <= end,
        range_buffer_len(start as int, end as int) <= usize::MAX,
    ensures
        buf@.len() == range_buffer_len(start as int, end as int),
        forall|i: int| 0 <= i < buf@.len() ==> buf@[i] == 0u8,
{
    let n: usize = (end as i64 - start as i64 + 1) as usize;
    let mut buf: Vec<u8> = Vec::new();
    while buf.len() < n
        invariant
            n == range_buffer_len(start as int, end as int),
            buf@.len() <= n,
            forall|i: int| 0 <= i < buf@.len() ==> buf@[i] == 0u8,
        decreases n - buf@.len(),
    {
        buf.push(0u8);
    }
    buf
}

/// Turns the engine's answer to a range extraction into text.
///
/// `written` is the engine's return code and `buffer` the buffer it wrote
/// into. A negative code, or one claiming more bytes than the buffer holds,
/// is a failed extraction. Otherwise the first `written` bytes are the
/// sequence, and they must be valid UTF-8.
pub fn sequence_outcome(
    written: i32,
    buffer: Vec<u8>,
    sample: Option<&str>,
    name: &str,
    start: i32,
    end: i32,
) -> (r: Result<String, AgcError>)
    ensures
        written < 0 || written > buffer@.len() ==> (r matches Err(e) && is_fetch_failure(
            e,
            sample,
            name,
            start,
            end,
        )),
        0 <= written <= buffer@.len() ==> {
            let bytes = buffer@.take(written as int);
            &&& (r is Ok <==> valid_utf8(bytes))
            &&& (r matches Ok(t) ==> t@ == decode_utf8(bytes))
            &&& (r matches Err(e) ==> e is Decoding)
        },
{
    if written < 0 || written as usize > buffer.len() {
        return Err(
            AgcError::SequenceFetchFailed {
                sample: owned_name(sample),
                name: name.to_owned(),
                start,
                end,
            },
        );
    }
    let mut bytes = buffer;
    bytes.truncate(written as usize);
    match utf8_text(bytes) {
        Some(t) => Ok(t),
        None => Err(AgcError::Decoding),
    }
}

/// Turns the engine's contig-length code into a length.
///
/// A negative code means the contig was not found; any other code is the
/// length in bases.
pub fn length_outcome(code: i32, sample: Option<&str>, name: &str) -> (r: Result<i32, AgcError>)
    ensures
        code >= 0 ==> r == Ok::<i32, AgcError>(code),
        code < 0 ==> (r matches Err(e) && is_not_found(e, sample, name)),
{
    if code < 0 {
        Err(AgcError::NotFound { sample: owned_name(sample), name: name.to_owned() })
    } else {
        Ok(code)
    }
}

/// Turns the engine's reference-sample answer into a name.
///
/// `None` stands for the null pointer, which means there is no reference
/// sample; the bytes of a present name are decoded lossily.
pub fn reference_outcome(name: Option<Vec<u8>>) -> (r: Result<String, AgcError>)
    ensures
        name is None ==> (r matches Err(e) && e is NoReferenceSample),
        name matches Some(b) ==> (r matches Ok(t) && t@ == lossy_text(b@)),
{
    match name {
        None => Err(AgcError::NoReferenceSample),
        Some(b) => Ok(utf8_text_lossy(b.as_slice())),
    }
}

} // verus!

verus! {

/// Text extracted from the range `[start, end]` encodes back to exactly the
/// bytes the engine reported writing, which never exceed the buffer sized for
/// that range.
pub proof fn lemma_sequence_within_range(start: i32, end: i32, buffer: Seq<u8>, written: i32)
    requires
        start <= end,
        buffer.len() == range_buffer_len(start as int, end as int),
        0 <= written <= buffer.len(),
        valid_utf8(buffer.take(written as int)),
    ensures
        encode_utf8(decode_utf8(buffer.take(written as int))) == buffer.take(written as int),
        encode_utf8(decode_utf8(buffer.take(written as int))).len() == written,
        written <= end - start + 1,
{
    decode_utf8_encode_utf8(buffer.take(written as int));
}

} // verus!
