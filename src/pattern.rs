//! The pattern the test application writes to the device and expects back.
use vstd::prelude::*;

verus! {

/// The byte at position `i` of a pattern buffer: the position modulo 256.
pub open spec fn pattern_byte(i: int) -> u8 {
    (i % 256) as u8
}

pub open spec fn is_pattern(s: Seq<u8>) -> bool {
    forall|i: int| 0 <= i < s.len() ==> #[trigger] s[i] == pattern_byte(i)
}

/// `e` names the first byte of `s` that breaks the pattern.
pub open spec fn first_mismatch(s: Seq<u8>, e: PatternMismatch) -> bool {
    &&& e.index < s.len()
    &&& is_pattern(s.take(e.index as int))
    &&& e.expected == pattern_byte(e.index as int)
    &&& e.found == s[e.index as int]
    &&& e.found != e.expected
}

/// The first byte of a buffer that breaks the pattern.
#[derive(Clone, Copy, Debug, PartialEq, Eq, Structural)]
pub struct PatternMismatch {
    pub index: usize,
    pub expected: u8,
    pub found: u8,
}

/// Why a synchronous write-then-read round did not echo the pattern.
#[derive(Clone, Copy, Debug, PartialEq, Eq, Structural)]
pub enum TransferError {
    /// Fewer or more bytes were written than asked for.
    ShortWrite { written: u32, expected: u32 },
    /// Fewer or more bytes were read than asked for.
    ShortRead { read: usize, expected: u32 },
    /// The bytes read back differ from the pattern.
    Pattern(PatternMismatch),
}

/// A buffer of `length` bytes counting up from zero and wrapping at 256.
pub fn create_pattern_buffer(length: u32) -> (buf: Vec<u8>)
    ensures
        buf@.len() == length,
        is_pattern(buf@),
{
    let mut buf: Vec<u8> = Vec::with_capacity(length as usize);
    let mut val: u8 = 0;
    let mut i: u32 = 0;
    while i < length
        invariant
            i <= length,
            buf@.len() == i,
            val == pattern_byte(i as int),
            is_pattern(buf@),
        decreases length - i,
    {
        buf.push(val);
        val = val.wrapping_add(1);
        i = i + 1;
    }
    buf
}

/// Checks that `buf` holds the pattern, and names the first byte that
/// breaks it otherwise.
pub fn verify_pattern_buffer(buf: &[u8]) -> (r: Result<(), PatternMismatch>)
    ensures
        r is Ok <==> is_pattern(buf@),
        r matches Err(e) ==> first_mismatch(buf@, e),
{
    let mut check_value: u8 = 0;
    let mut i: usize = 0;
    while i < buf.len()
        invariant
            i <= buf@.len(),
            check_value == pattern_byte(i as int),
            is_pattern(buf@.take(i as int)),
        decreases buf@.len() - i,
    {
        if buf[i] != check_value {
            return Err(PatternMismatch { index: i, expected: check_value, found: buf[i] });
        }
        assert(is_pattern(buf@.take(i + 1))) by {
            assert forall|j: int| 0 <= j < i + 1 implies #[trigger] buf@.take(i + 1)[j]
                == pattern_byte(j) by {
                if j < i {
                    assert(buf@.take(i as int)[j] == buf@[j]);
                }
            }
        }
        check_value = check_value.wrapping_add(1);
        i = i + 1;
    }
    assert(buf@.take(buf@.len() as int) =~= buf@);
    Ok(())
}

/// The check after the write of a round: all `test_length` bytes written.
pub fn check_written(test_length: u32, written: u32) -> (r: Result<(), TransferError>)
    ensures
        r is Ok <==> written == test_length,
        r matches Err(e) ==> e == (TransferError::ShortWrite { written, expected: test_length }),
{
    if written != test_length {
        Err(TransferError::ShortWrite { written, expected: test_length })
    } else {
        Ok(())
    }
}

/// The check after the read of a round: all `test_length` bytes read back,
/// and they hold the pattern.
pub fn check_read(test_length: u32, read: &[u8]) -> (r: Result<(), TransferError>)
    ensures
        r is Ok <==> read@.len() == test_length && is_pattern(read@),
        read@.len() != test_length ==> r == Err::<(), TransferError>(
            TransferError::ShortRead { read: read@.len() as usize, expected: test_length },
        ),
        read@.len() == test_length && !is_pattern(read@) ==> (r matches Err(
            TransferError::Pattern(e),
        ) && first_mismatch(read@, e)),
{
    if read.len() != test_length as usize {
        return Err(TransferError::ShortRead { read: read.len(), expected: test_length });
    }
    match verify_pattern_buffer(read) {
        Ok(()) => Ok(()),
        Err(e) => Err(TransferError::Pattern(e)),
    }
}

} // verus!
