//! Splitting a run of items into consecutive chunks of bounded size, as
//! `chunks(size)` on slices and streams does.
use vstd::prelude::*;

verus! {

/// The chunk bounds of `len` items in chunks of `size`: chunk `i` covers
/// the items from `i * size` up to `(i + 1) * size`, the last one ending at
/// `len`.
pub open spec fn is_chunking(r: Seq<(usize, usize)>, len: int, size: int) -> bool {
    &&& r.len() == (len + size - 1) / (size as int)
    &&& forall|i: int|
        0 <= i < r.len() ==> (#[trigger] r[i]).0 == i * size && r[i].1 == if (i + 1) * size
            <= len {
            (i + 1) * size
        } else {
            len
        }
}

/// The end of chunk `k` of `len` items in chunks of `size`.
pub open spec fn chunk_end(k: int, size: int, len: int) -> int {
    if (k + 1) * size <= len {
        (k + 1) * size
    } else {
        len
    }
}

/// The number of chunks of `len` items in chunks of `size`.
pub open spec fn chunk_count(len: int, size: int) -> int {
    (len + size - 1) / size
}

/// Every item lands in exactly one chunk, the one numbered by its index
/// divided by the chunk size, and every chunk holds between one and `size`
/// items.
pub proof fn lemma_chunk_of_item(len: int, size: int, i: int)
    requires
        size > 0,
        0 <= i < len,
    ensures
        0 <= i / size < chunk_count(len, size),
        (i / size) * size <= i < chunk_end(i / size, size, len),
        forall|k: int|
            0 <= k < chunk_count(len, size) && k * size <= i < #[trigger] chunk_end(k, size, len) ==> k
                == i / size,
{
    let q = i / size;
    assert((q + 1) * size == q * size + size) by (nonlinear_arith);
    assert(q * size <= i < q * size + size) by (nonlinear_arith)
        requires
            size > 0,
            q == i / size,
            0 <= i,
    ;
    assert(0 <= q) by (nonlinear_arith)
        requires
            size > 0,
            q == i / size,
            0 <= i,
    ;
    assert(q < (len + size - 1) / size) by (nonlinear_arith)
        requires
            size > 0,
            q * size <= i,
            i < len,
    {
        assert(q * size + size <= len + size - 1);
        assert((q + 1) * size <= len + size - 1);
    }
    assert forall|k: int|
        0 <= k < chunk_count(len, size) && k * size <= i < #[trigger] chunk_end(k, size, len) implies k
        == q by {
        assert(i < (k + 1) * size);
        if k < q {
            assert((k + 1) * size <= q * size) by (nonlinear_arith)
                requires
                    k < q,
                    size > 0,
            ;
        } else if k > q {
            assert((q + 1) * size <= k * size) by (nonlinear_arith)
                requires
                    k > q,
                    size > 0,
            ;
        }
    }
}

/// Every chunk holds between one and `size` items.
pub proof fn lemma_chunk_size(len: int, size: int, k: int)
    requires
        size > 0,
        0 <= k < chunk_count(len, size),
    ensures
        0 < chunk_end(k, size, len) - k * size <= size,
{
    assert(k * size < len) by (nonlinear_arith)
        requires
            size > 0,
            0 <= k < (len + size - 1) / size,
    ;
    assert((k + 1) * size == k * size + size) by (nonlinear_arith);
}

/// Bounds of the consecutive chunks of `len` items, each of `size` items
/// except possibly the last.
pub fn chunk_bounds(len: usize, size: usize) -> (r: Vec<(usize, usize)>)
    requires
        size > 0,
    ensures
        is_chunking(r@, len as int, size as int),
{
    let mut r: Vec<(usize, usize)> = Vec::new();
    let mut start: usize = 0;
    let mut i: usize = 0;
    proof {
        if len == 0 {
            assert((len + size - 1) / (size as int) == 0) by (nonlinear_arith)
                requires
                    len == 0,
                    size > 0,
            ;
        }
    }
    while start < len
        invariant
            size > 0,
            start <= len,
            i <= start,
            r@.len() == i,
            start < len ==> start == i * size,
            start == len ==> i == (len + size - 1) / (size as int),
            forall|k: int|
                0 <= k < i ==> (#[trigger] r@[k]).0 == k * size && r@[k].1 == if (k + 1) * size
                    <= len {
                    (k + 1) * size
                } else {
                    len as int
                },
        decreases len - start,
    {
        let end = if len - start > size { start + size } else { len };
        proof {
            assert((i + 1) * size == i * size + size) by (nonlinear_arith);
            assert(i <= i * size) by (nonlinear_arith)
                requires
                    size > 0,
            ;
        }
        r.push((start, end));
        start = end;
        i = i + 1;
        proof {
            if start == len {
                assert((i - 1) * size < len);
                assert(i * size >= len);
                assert((len + size - 1) / (size as int) == i) by (nonlinear_arith)
                    requires
                        i * size >= len,
                        (i - 1) * size < len,
                        size > 0,
                        i >= 1,
                ;
            }
        }
    }
    r
}

} // verus!
