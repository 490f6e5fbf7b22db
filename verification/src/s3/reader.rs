use vstd::prelude::*;

verus! {

/// The byte range a ranged read requests from the SDK.
#[derive(Clone, Copy, Debug, PartialEq, Eq, Structural)]
pub enum ByteRange {
    /// The whole object.
    Whole,
    /// Bytes from `start` up to, not including, `end`.
    Bounded {
        /// The first byte.
        start: u64,
        /// One past the last byte.
        end: u64,
    },
    /// Bytes from `start` to the end of the object.
    From {
        /// The first byte.
        start: u64,
    },
}

/// The range of a read with an optional offset and length, or `None` when
/// its end overflows.
pub open spec fn range_of(offset: Option<u64>, length: Option<u64>) -> Option<ByteRange> {
    let start = match offset {
        Some(value) => value,
        None => 0,
    };
    match length {
        Some(length) => if start + length > u64::MAX {
            None
        } else {
            Some(ByteRange::Bounded { start, end: (start + length) as u64 })
        },
        None => if start != 0 {
            Some(ByteRange::From { start })
        } else {
            Some(ByteRange::Whole)
        },
    }
}

/// The diagnostic of a read range whose end overflows.
pub open spec fn range_overflow_text() -> Seq<char> {
    "read range overflows"@
}

/// Returns the diagnostic of a read range whose end overflows.
pub fn range_overflow_message() -> (text: &'static str)
    ensures
        text@ == range_overflow_text(),
{
    "read range overflows"
}

/// Computes the byte range of a read from its offset and length.
pub fn read_range(offset: Option<u64>, length: Option<u64>) -> (range: Option<ByteRange>)
    ensures
        range == range_of(offset, length),
{
    let start = match offset {
        Some(value) => value,
        None => 0,
    };
    match length {
        Some(length) => match start.checked_add(length) {
            Some(end) => Some(ByteRange::Bounded { start, end }),
            None => None,
        },
        None => if start != 0 {
            Some(ByteRange::From { start })
        } else {
            Some(ByteRange::Whole)
        },
    }
}

/// How many bytes a read call copies from the current chunk: no more than
/// requested and no more than the chunk still holds.
pub fn copy_len(requested: usize, chunk_len: usize, consumed: usize) -> (count: usize)
    requires
        consumed <= chunk_len,
    ensures
        count == (if requested < chunk_len - consumed {
            requested
        } else {
            (chunk_len - consumed) as usize
        }),
{
    let remaining = chunk_len - consumed;
    if requested < remaining {
        requested
    } else {
        remaining
    }
}

/// A bounded range covers exactly the requested length.
pub proof fn law_bounded_range_has_requested_length(offset: Option<u64>, length: u64)
    requires
        range_of(offset, Some(length)) is Some,
    ensures
        range_of(offset, Some(length)) matches Some(ByteRange::Bounded { start, end }) && end - start == length,
{
}

} // verus!
