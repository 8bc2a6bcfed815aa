//! Validation of the indices and length of a block copy.
use vstd::prelude::*;

verus! {

/// Why a block copy was refused. Each variant names the failing check, the
/// offending values and the length of the region.
#[derive(Debug, Clone, Copy, PartialEq, Eq, Structural)]
pub enum CopyError {
    /// The source start index is not strictly below the region length.
    SrcIndexOutOfBounds { idx: usize, slice_len: usize },
    /// The destination start index is not strictly below the region length.
    DestIndexOutOfBounds { idx: usize, slice_len: usize },
    /// `src_idx + len` does not fit in a `usize`.
    SrcEndOverflow { start: usize, len: usize },
    /// The source range `[src_idx, src_idx + len)` runs past the region.
    SrcRangeOutOfBounds { start: usize, len: usize, slice_len: usize },
    /// `dest_idx + len` does not fit in a `usize`.
    DestEndOverflow { start: usize, len: usize },
    /// The destination range `[dest_idx, dest_idx + len)` runs past the region.
    DestRangeOutOfBounds { start: usize, len: usize, slice_len: usize },
}

/// The condition under which a copy of `len` elements from `src` to `dest`
/// inside a region of `n` elements may proceed: both start indices are valid
/// indices and both half-open ranges end within the region.
pub open spec fn copy_in_bounds(n: int, src: int, dest: int, len: int) -> bool {
    &&& 0 <= src < n
    &&& 0 <= dest < n
    &&& 0 <= len
    &&& src + len <= n
    &&& dest + len <= n
}

/// The outcome of validating a copy request, with the checks taken in order:
/// source index, destination index, source end, destination end.
pub open spec fn copy_verdict(slice_len: usize, src_idx: usize, dest_idx: usize, len: usize) -> Result<(), CopyError> {
    if src_idx >= slice_len {
        Err(CopyError::SrcIndexOutOfBounds { idx: src_idx, slice_len })
    } else if dest_idx >= slice_len {
        Err(CopyError::DestIndexOutOfBounds { idx: dest_idx, slice_len })
    } else if src_idx + len > usize::MAX {
        Err(CopyError::SrcEndOverflow { start: src_idx, len })
    } else if src_idx + len > slice_len {
        Err(CopyError::SrcRangeOutOfBounds { start: src_idx, len, slice_len })
    } else if dest_idx + len > usize::MAX {
        Err(CopyError::DestEndOverflow { start: dest_idx, len })
    } else if dest_idx + len > slice_len {
        Err(CopyError::DestRangeOutOfBounds { start: dest_idx, len, slice_len })
    } else {
        Ok(())
    }
}

/// Every request that is out of bounds is refused: a start index at or past
/// the end, a range that runs past the end, or an end that overflows `usize`.
/// An end that overflows is reported as an overflow of its own.
pub proof fn lemma_out_of_bounds_refused(slice_len: usize, src_idx: usize, dest_idx: usize, len: usize)
    requires
        !copy_in_bounds(slice_len as int, src_idx as int, dest_idx as int, len as int),
    ensures
        copy_verdict(slice_len, src_idx, dest_idx, len) is Err,
        src_idx < slice_len && dest_idx < slice_len && src_idx + len > usize::MAX
            ==> copy_verdict(slice_len, src_idx, dest_idx, len) == Err::<(), CopyError>(CopyError::SrcEndOverflow { start: src_idx, len }),
{
}

/// Validates a request to copy `len` elements from `src_idx` to `dest_idx`
/// in a region of `slice_len` elements. Accepts exactly the requests that
/// are in bounds; otherwise reports the first check that fails.
pub fn validate_copy(slice_len: usize, src_idx: usize, dest_idx: usize, len: usize) -> (r: Result<(), CopyError>)
    ensures
        r == copy_verdict(slice_len, src_idx, dest_idx, len),
        r is Ok <==> copy_in_bounds(slice_len as int, src_idx as int, dest_idx as int, len as int),
{
    if src_idx >= slice_len {
        return Err(CopyError::SrcIndexOutOfBounds { idx: src_idx, slice_len });
    }
    if dest_idx >= slice_len {
        return Err(CopyError::DestIndexOutOfBounds { idx: dest_idx, slice_len });
    }
    let src_end: usize = match src_idx.checked_add(len) {
        Some(e) => e,
        None => return Err(CopyError::SrcEndOverflow { start: src_idx, len }),
    };
    if src_end > slice_len {
        return Err(CopyError::SrcRangeOutOfBounds { start: src_idx, len, slice_len });
    }
    let dest_end: usize = match dest_idx.checked_add(len) {
        Some(e) => e,
        None => return Err(CopyError::DestEndOverflow { start: dest_idx, len }),
    };
    if dest_end > slice_len {
        return Err(CopyError::DestRangeOutOfBounds { start: dest_idx, len, slice_len });
    }
    Ok(())
}

} // verus!
