//! Splits an arbitrary-length list of write requests into fixed-size
//! batches, the size being the store's hard per-call limit.  Pure data
//! partitioning: chunk `i` holds the items `[i*size, min((i+1)*size, len))`
//! in their original order, and no chunk is empty.

use vstd::prelude::*;

verus! {

/// Number of chunks that splitting `len` items at chunk size `size` yields.
///
/// Equal to `len / size`, rounded up; see [`lemma_chunk_count_is_ceil`].
pub open spec fn chunk_count(len: nat, size: nat) -> nat
    recommends
        size > 0,
    decreases len,
{
    if size == 0 || len == 0 {
        0
    } else if len <= size {
        1
    } else {
        1 + chunk_count((len - size) as nat, size)
    }
}

/// The contents of chunk `i`: the items `[i*size, min((i+1)*size, len))`.
pub open spec fn chunk_at<T>(items: Seq<T>, size: nat, i: int) -> Seq<T>
    recommends
        size > 0,
{
    items.subrange(
        i * size,
        if (i + 1) * size <= items.len() {
            (i + 1) * size
        } else {
            items.len() as int
        },
    )
}

/// `chunk_count` is the length of the input divided by the chunk size,
/// rounded up.
pub proof fn lemma_chunk_count_is_ceil(len: nat, size: nat)
    requires
        size > 0,
    ensures
        chunk_count(len, size) == ((len + size - 1) as int / size as int),
    decreases len,
{
    if len == 0 {
        assert((size - 1) as int / size as int == 0) by (nonlinear_arith)
            requires
                size > 0,
        ;
    } else if len <= size {
        assert((len + size - 1) as int / size as int == 1) by (nonlinear_arith)
            requires
                0 < len <= size,
        ;
    } else {
        lemma_chunk_count_is_ceil((len - size) as nat, size);
        assert((len + size - 1) as int / size as int == 1 + (len - 1) as int / size as int)
            by (nonlinear_arith)
            requires
                size > 0,
                len > size,
        ;
        assert(((len - size) + size - 1) as int / size as int == (len - 1) as int / size as int);
    }
}

/// Splits `items` into chunks of at most `size` items each.
///
/// Deterministic: the result holds `ceil(len / size)` chunks, chunk `i`
/// being the items `[i*size, min((i+1)*size, len))` in their original
/// order.  An empty input yields zero chunks, and no produced chunk is
/// empty.
pub fn chunk<T: Copy>(items: &Vec<T>, size: usize) -> (r: Vec<Vec<T>>)
    requires
        size >= 1,
    ensures
        r@.len() == chunk_count(items@.len(), size as nat),
        forall|i: int| 0 <= i < r@.len() ==> r@[i]@ == chunk_at(items@, size as nat, i),
        forall|i: int| 0 <= i < r@.len() ==> 1 <= #[trigger] r@[i]@.len() && r@[i]@.len() <= size,
{
    let len = items.len();
    let mut r: Vec<Vec<T>> = Vec::new();
    let mut start: usize = 0;
    proof {
        assert(0 * (size as int) == 0) by (nonlinear_arith);
    }
    while start < len
        invariant
            size >= 1,
            len == items@.len(),
            start <= len,
            start == r@.len() * size || (start == len && r@.len() == chunk_count(
                len as nat,
                size as nat,
            )),
            start < len ==> start == r@.len() * size,
            start == len ==> r@.len() == chunk_count(len as nat, size as nat),
            forall|i: int| 0 <= i < r@.len() ==> r@[i]@ == chunk_at(items@, size as nat, i),
            forall|i: int| 0 <= i < r@.len() ==> 1 <= #[trigger] r@[i]@.len() && r@[i]@.len() <= size,
        decreases len - start,
    {
        let end = if len - start < size {
            len
        } else {
            start + size
        };
        let mut cur: Vec<T> = Vec::new();
        let mut j = start;
        while j < end
            invariant
                start <= j <= end <= len,
                len == items@.len(),
                cur@ =~= items@.subrange(start as int, j as int),
            decreases end - j,
        {
            cur.push(items[j]);
            assert(cur@ =~= items@.subrange(start as int, j + 1));
            j += 1;
        }
        let ghost k = r@.len() as int;
        proof {
            assert(start == k * size);
            assert((k + 1) * size == k * size + size) by (nonlinear_arith);
            assert(cur@ == chunk_at(items@, size as nat, k));
        }
        r.push(cur);
        proof {
            if end < len {
                // A full chunk was taken; the count of the remainder shrinks
                // by one with each `size` items consumed.
                assert(end == (k + 1) * size);
            } else {
                lemma_chunk_count_ends(len as nat, size as nat, k as nat);
            }
        }
        start = end;
    }
    r
}

/// Chunking correctness: any family of chunks shaped as [`chunk`] produces
/// them — `ceil(len / size)` chunks, chunk `i` holding the items
/// `[i*size, min((i+1)*size, len))` — concatenates back, in order, to the
/// original list exactly: no reordering, no duplication, no drops.
pub proof fn lemma_chunks_concat<T>(items: Seq<T>, size: nat, chunks: Seq<Seq<T>>)
    requires
        size > 0,
        chunks.len() == chunk_count(items.len(), size),
        forall|i: int| 0 <= i < chunks.len() ==> chunks[i] == chunk_at(items, size, i),
    ensures
        chunks.flatten() == items,
    decreases chunks.len(),
{
    if chunks.len() == 0 {
        assert(items.len() == 0);
        assert(chunks.flatten() =~= items);
    } else {
        let m: int = if size <= items.len() {
            size as int
        } else {
            items.len() as int
        };
        let rest = items.skip(m);
        assert(chunks.first() == chunk_at(items, size, 0));
        assert(chunks.first() =~= items.subrange(0, m)) by {
            assert(0 * size == 0 && 1 * size == size) by (nonlinear_arith);
        }
        assert(chunks.drop_first().len() == chunk_count(rest.len(), size));
        assert forall|i: int| 0 <= i < chunks.drop_first().len() implies chunks.drop_first()[i]
            == chunk_at(rest, size, i) by {
            assert(chunks.drop_first()[i] == chunks[i + 1]);
            assert(items.len() > size);
            assert(m == size);
            assert((i + 1) * size == i * size + size && (i + 2) * size == i * size + size + size)
                by (nonlinear_arith);
            assert(i * size >= 0) by (nonlinear_arith)
                requires
                    i >= 0,
                    size >= 0,
            ;
            assert(i * size < rest.len()) by {
                lemma_chunk_count_lower(rest.len(), size, i);
            }
            assert(chunk_at(items, size, i + 1) =~= chunk_at(rest, size, i));
        }
        lemma_chunks_concat(rest, size, chunks.drop_first());
        assert(chunks.flatten() == chunks.first().add(chunks.drop_first().flatten()));
        assert(items.subrange(0, m).add(rest) =~= items);
    }
}

/// Every chunk index is the index of an item: chunk `i` starts inside the
/// list.
proof fn lemma_chunk_count_lower(len: nat, size: nat, i: int)
    requires
        size > 0,
        0 <= i < chunk_count(len, size),
    ensures
        i * size < len,
    decreases i,
{
    if i == 0 {
        assert(i * size == 0) by (nonlinear_arith)
            requires
                i == 0,
        ;
        assert(len > 0);
    } else {
        assert(len > size);
        lemma_chunk_count_lower((len - size) as nat, size, i - 1);
        assert((i - 1) * size == i * size - size) by (nonlinear_arith);
    }
}

/// After `k` full chunks of `size` items, a final partial or full chunk
/// covering the rest means the total count is `k + 1`.
proof fn lemma_chunk_count_ends(len: nat, size: nat, k: nat)
    requires
        size > 0,
        k * size < len,
        len <= k * size + size,
    ensures
        chunk_count(len, size) == k + 1,
    decreases k,
{
    if k == 0 {
        assert(k * size == 0) by (nonlinear_arith)
            requires
                k == 0,
        ;
        assert(len <= size);
    } else {
        assert((k - 1) * size == k * size - size) by (nonlinear_arith);
        assert(len > size) by {
            assert(k * size >= size) by (nonlinear_arith)
                requires
                    k >= 1,
                    size > 0,
            ;
        }
        lemma_chunk_count_ends((len - size) as nat, size, (k - 1) as nat);
    }
}

} // verus!
