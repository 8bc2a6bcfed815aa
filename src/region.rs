//! The bulk operations on a region: an overlap-safe block copy and a byte fill.
use vstd::prelude::*;

use crate::bounds::{copy_in_bounds, copy_verdict, validate_copy, CopyError};

verus! {

/// The region that results from copying `len` elements starting at `src` to
/// the range starting at `dest`, as if the source elements were first read
/// into a temporary buffer and then written out.
pub open spec fn copied_through_buffer<T>(s: Seq<T>, src: int, dest: int, len: int) -> Seq<T> {
    let buffer = s.subrange(src, src + len);
    s.subrange(0, dest) + buffer + s.subrange(dest + len, s.len() as int)
}

/// A region of `n` bytes, each equal to `byte`.
pub open spec fn filled(n: nat, byte: u8) -> Seq<u8> {
    Seq::new(n, |_i: int| byte)
}

/// Copying a range onto itself, with any length that is in bounds, leaves
/// the region element for element unchanged.
pub proof fn lemma_copy_onto_itself_is_identity<T>(s: Seq<T>, idx: int, len: int)
    requires
        copy_in_bounds(s.len() as int, idx, idx, len),
    ensures
        copied_through_buffer(s, idx, idx, len) == s,
{
    assert(copied_through_buffer(s, idx, idx, len) =~= s);
}

/// A copy of no elements between any two valid start indices is accepted,
/// and leaves the region unchanged.
pub proof fn lemma_empty_copy_is_noop<T>(s: Seq<T>, src: int, dest: int)
    requires
        0 <= src < s.len(),
        0 <= dest < s.len(),
    ensures
        copy_in_bounds(s.len() as int, src, dest, 0),
        copied_through_buffer(s, src, dest, 0) == s,
{
    assert(copied_through_buffer(s, src, dest, 0) =~= s);
}

/// The copy writes, at each position of the destination range, the element
/// that stood at the matching position of the source range before the call,
/// and keeps every element outside the destination range.
pub proof fn lemma_copy_elementwise<T>(s: Seq<T>, src: int, dest: int, len: int)
    requires
        copy_in_bounds(s.len() as int, src, dest, len),
    ensures
        copied_through_buffer(s, src, dest, len).len() == s.len(),
        forall|k: int|
            dest <= k < dest + len ==> #[trigger] copied_through_buffer(s, src, dest, len)[k] == s[src + (k - dest)],
        forall|k: int|
            0 <= k < s.len() && !(dest <= k < dest + len) ==> #[trigger] copied_through_buffer(s, src, dest, len)[k] == s[k],
{
}

/// Filling a region of `n` bytes with `byte` gives `n` bytes that all equal
/// `byte`; filling an empty region leaves it as it is.
pub proof fn lemma_fill_sets_every_byte(s: Seq<u8>, byte: u8)
    ensures
        filled(s.len(), byte).len() == s.len(),
        forall|k: int| 0 <= k < s.len() ==> #[trigger] filled(s.len(), byte)[k] == byte,
        s.len() == 0 ==> filled(s.len(), byte) == s,
{
    if s.len() == 0 {
        assert(filled(s.len(), byte) =~= s);
    }
}

/// Copies `len` elements from `src_idx` to `dest_idx` within `slice`. The
/// two ranges may overlap in any way; the result is that of copying through
/// a temporary buffer. Equal start indices leave the region as it is.
pub fn copy<T: Copy>(slice: &mut [T], src_idx: usize, dest_idx: usize, len: usize)
    requires
        copy_in_bounds(old(slice)@.len() as int, src_idx as int, dest_idx as int, len as int),
    ensures
        final(slice)@ == copied_through_buffer(old(slice)@, src_idx as int, dest_idx as int, len as int),
{
    let ghost s = slice@;
    let slice_len: usize = slice.len();
    let ghost n = slice_len as int;
    if src_idx == dest_idx {
        assert(slice@ =~= copied_through_buffer(s, src_idx as int, dest_idx as int, len as int));
        return;
    }
    if dest_idx < src_idx {
        // Moving towards the front: ascending order reads each source
        // element before the write that could overwrite it.
        let mut i: usize = 0;
        while i < len
            invariant
                i <= len,
                copy_in_bounds(n, src_idx as int, dest_idx as int, len as int),
                dest_idx < src_idx,
                slice@.len() == n,
                s.len() == n,
                n <= usize::MAX,
                forall|k: int|
                    0 <= k < n ==> #[trigger] slice@[k] == if dest_idx <= k < dest_idx + i {
                        s[src_idx + (k - dest_idx)]
                    } else {
                        s[k]
                    },
            decreases len - i,
        {
            let x = slice[src_idx + i];
            slice[dest_idx + i] = x;
            i = i + 1;
        }
    } else {
        // Moving towards the back: descending order, for the same reason.
        let mut i: usize = len;
        while i > 0
            invariant
                i <= len,
                copy_in_bounds(n, src_idx as int, dest_idx as int, len as int),
                src_idx < dest_idx,
                slice@.len() == n,
                s.len() == n,
                n <= usize::MAX,
                forall|k: int|
                    0 <= k < n ==> #[trigger] slice@[k] == if dest_idx + i <= k < dest_idx + len {
                        s[src_idx + (k - dest_idx)]
                    } else {
                        s[k]
                    },
            decreases i,
        {
            i = i - 1;
            let x = slice[src_idx + i];
            slice[dest_idx + i] = x;
        }
    }
    assert(slice@ =~= copied_through_buffer(s, src_idx as int, dest_idx as int, len as int));
}

/// Validates the request, then copies as [`copy`] does. A rejected request
/// leaves the region untouched and reports the first check that failed.
pub fn checked_copy<T: Copy>(slice: &mut [T], src_idx: usize, dest_idx: usize, len: usize) -> (r: Result<(), CopyError>)
    ensures
        r == copy_verdict(old(slice)@.len() as usize, src_idx, dest_idx, len),
        r is Ok <==> copy_in_bounds(old(slice)@.len() as int, src_idx as int, dest_idx as int, len as int),
        r is Ok ==> final(slice)@ == copied_through_buffer(old(slice)@, src_idx as int, dest_idx as int, len as int),
        r is Err ==> final(slice)@ == old(slice)@,
{
    match validate_copy(slice.len(), src_idx, dest_idx, len) {
        Ok(()) => {
            copy(slice, src_idx, dest_idx, len);
            Ok(())
        },
        Err(e) => Err(e),
    }
}

/// Sets every byte of `slice` to `byte`. An empty region is left as it is.
pub fn write_bytes(slice: &mut [u8], byte: u8)
    ensures
        final(slice)@ == filled(old(slice)@.len(), byte),
{
    let ghost n = slice@.len();
    let mut i: usize = 0;
    while i < slice.len()
        invariant
            i <= n,
            slice@.len() == n,
            forall|k: int| 0 <= k < i ==> #[trigger] slice@[k] == byte,
        decreases n - i,
    {
        slice[i] = byte;
        i = i + 1;
    }
    assert(slice@ =~= filled(n, byte));
}

} // verus!
