//! Proof search cut into chunks: one task per chunk of a range of proofs,
//! handed to a work queue.

use vstd::prelude::*;
use vstd::arithmetic::power2::pow2;
use std::sync::Arc;
use crate::block::Block;
use crate::queue::{Task, WorkQueue};

verus! {

/// The chunk width of a search over the default range.
pub const DEFAULT_CHUNK: u64 = 2345;

/// A search for a valid proof of one block among the proofs from `start` up
/// to, not including, `end`.
pub struct MiningTask {
    block: Arc<Block>,
    start: u64,
    end: u64,
}

impl MiningTask {
    /// The block that the search is for.
    pub closed spec fn block(&self) -> Block {
        *self.block
    }

    /// The first proof that is tried.
    pub closed spec fn start(&self) -> u64 {
        self.start
    }

    /// The proof that the search stops before.
    pub closed spec fn end(&self) -> u64 {
        self.end
    }

    /// A search for a proof of the shared `block` from `start` up to, not
    /// including, `end`.
    pub fn new(block: Arc<Block>, start: u64, end: u64) -> (task: MiningTask)
        ensures
            task.block() == *block,
            task.start() == start,
            task.end() == end,
    {
        MiningTask { block, start, end }
    }
}

impl Task for MiningTask {
    type Output = u64;

    /// A run ends with the least valid proof of the chunk, or with `None`
    /// where the chunk holds no valid proof.
    open spec fn yields(&self, out: Option<u64>) -> bool {
        self.block().first_valid_is(self.start() as int, self.end() as int, out)
    }

    fn run(&self) -> (out: Option<u64>) {
        self.block.first_valid_proof(self.start, self.end)
    }
}

/// `Arc::clone`: one more pointer to the same shared value.
#[verifier::external_body]
fn share<T>(shared: &Arc<T>) -> (another: Arc<T>)
    ensures
        *another == **shared,
{
    shared.clone()
}

/// Into how many chunks of width `chunks` the proofs from `start` up to
/// `end` fall; the last chunk may be narrower.
pub open spec fn chunk_count(start: u64, end: u64, chunks: u64) -> nat {
    if end <= start || chunks == 0 {
        0
    } else {
        ((end - start - 1) / (chunks as int) + 1) as nat
    }
}

/// The first proof of chunk `k`.
pub open spec fn chunk_start(start: u64, chunks: u64, k: int) -> int {
    start + k * chunks
}

/// The proof that chunk `k` stops before.
pub open spec fn chunk_end(start: u64, end: u64, chunks: u64, k: int) -> int {
    if start + (k + 1) * chunks < end {
        start + (k + 1) * chunks
    } else {
        end as int
    }
}

/// Whether `task` searches chunk `k` of the range for a proof of `block`.
pub open spec fn is_chunk(
    task: MiningTask,
    block: Block,
    start: u64,
    end: u64,
    chunks: u64,
    k: int,
) -> bool {
    &&& task.block() == block
    &&& task.start() == chunk_start(start, chunks, k)
    &&& task.end() == chunk_end(start, end, chunks, k)
}

/// Whether `after` is `before` followed by one task for each chunk of the
/// range, in order and with none left out.
pub open spec fn extended_by_chunks(
    before: Seq<MiningTask>,
    after: Seq<MiningTask>,
    block: Block,
    start: u64,
    end: u64,
    chunks: u64,
) -> bool {
    &&& after.len() == before.len() + chunk_count(start, end, chunks)
    &&& after.take(before.len() as int) == before
    &&& forall|i: int|
        before.len() <= i < after.len() ==> is_chunk(
            #[trigger] after[i],
            block,
            start,
            end,
            chunks,
            i - before.len(),
        )
}

/// Chunk `k` starts inside the range exactly when `k` is below the count.
proof fn lemma_chunk_index(start: u64, end: u64, chunks: u64, k: int)
    requires
        chunks > 0,
        k >= 0,
    ensures
        k < chunk_count(start, end, chunks) <==> chunk_start(start, chunks, k) < end,
{
    let c = chunks as int;
    if start < end {
        let d = end - start - 1;
        let q = d / c;
        assert(q * c <= d < (q + 1) * c) by (nonlinear_arith)
            requires
                q == d / c,
                c > 0,
                d >= 0,
        ;
        if k <= q {
            assert(k * c <= q * c) by (nonlinear_arith)
                requires
                    k <= q,
                    c > 0,
            ;
        } else {
            assert(k * c >= (q + 1) * c) by (nonlinear_arith)
                requires
                    k >= q + 1,
                    c > 0,
            ;
        }
    } else {
        assert(k * c >= 0) by (nonlinear_arith)
            requires
                k >= 0,
                c > 0,
        ;
    }
}

/// The chunks tile the range: each is non-empty and at most `chunks` wide,
/// the first starts at `start`, each next one starts where the one before
/// it ended, and the last ends at `end`.
pub proof fn lemma_chunks_tile_range(start: u64, end: u64, chunks: u64, k: int)
    requires
        chunks > 0,
        0 <= k < chunk_count(start, end, chunks),
    ensures
        chunk_start(start, chunks, 0) == start,
        start <= chunk_start(start, chunks, k) < chunk_end(start, end, chunks, k) <= end,
        chunk_end(start, end, chunks, k) - chunk_start(start, chunks, k) <= chunks,
        k + 1 < chunk_count(start, end, chunks) ==> chunk_end(start, end, chunks, k)
            == chunk_start(start, chunks, k + 1),
        k + 1 == chunk_count(start, end, chunks) ==> chunk_end(start, end, chunks, k) == end,
{
    lemma_chunk_index(start, end, chunks, k);
    lemma_chunk_index(start, end, chunks, k + 1);
    assert((k + 1) * chunks == k * chunks + chunks) by (nonlinear_arith);
    assert(k * chunks >= 0) by (nonlinear_arith)
        requires
            k >= 0,
            chunks > 0,
    ;
}

/// Every proof of the range lies in exactly one chunk.
pub proof fn lemma_chunk_of_proof(start: u64, end: u64, chunks: u64, p: u64) -> (k: int)
    requires
        chunks > 0,
        start <= p < end,
    ensures
        0 <= k < chunk_count(start, end, chunks),
        chunk_start(start, chunks, k) <= p < chunk_end(start, end, chunks, k),
        forall|j: int|
            0 <= j < chunk_count(start, end, chunks) && #[trigger] chunk_start(start, chunks, j)
                <= p && p < chunk_end(start, end, chunks, j) ==> j == k,
{
    let c = chunks as int;
    let d = p - start;
    let k = d / c;
    assert(k * c <= d < (k + 1) * c && k >= 0) by (nonlinear_arith)
        requires
            k == d / c,
            c > 0,
            d >= 0,
    ;
    lemma_chunk_index(start, end, chunks, k);
    assert forall|j: int|
        0 <= j < chunk_count(start, end, chunks) && #[trigger] chunk_start(start, chunks, j)
            <= p && p < chunk_end(start, end, chunks, j) implies j == k by {
        if j < k {
            assert((j + 1) * c <= k * c) by (nonlinear_arith)
                requires
                    j + 1 <= k,
                    c > 0,
            ;
        }
        if j > k {
            assert(j * c >= (k + 1) * c) by (nonlinear_arith)
                requires
                    j >= k + 1,
                    c > 0,
            ;
        }
    }
    k
}

/// A scan of a range has one result only.
pub proof fn lemma_first_valid_is_unique(
    block: Block,
    start: int,
    end: int,
    a: Option<u64>,
    b: Option<u64>,
)
    requires
        block.first_valid_is(start, end, a),
        block.first_valid_is(start, end, b),
    ensures
        a == b,
{
}

/// Serial and chunked search agree on a range that holds one valid proof:
/// the serial scan of the range finds it, the chunk it lies in reports it,
/// and every other chunk reports nothing. So whichever report is taken
/// first, it is the proof that the serial scan finds.
pub proof fn lemma_chunked_search_agrees_with_serial(
    block: Block,
    start: u64,
    end: u64,
    chunks: u64,
    only: u64,
    k: int,
    out: Option<u64>,
)
    requires
        chunks > 0,
        start <= only < end,
        forall|p: u64| start <= p < end ==> (block.spec_is_valid_for_proof(p) <==> p == only),
        0 <= k < chunk_count(start, end, chunks),
        block.first_valid_is(
            chunk_start(start, chunks, k),
            chunk_end(start, end, chunks, k),
            out,
        ),
    ensures
        block.first_valid_is(start as int, end as int, Some(only)),
        out == if chunk_start(start, chunks, k) <= only < chunk_end(start, end, chunks, k) {
            Some(only)
        } else {
            None
        },
        exists|j: int|
            0 <= j < chunk_count(start, end, chunks) && #[trigger] chunk_start(start, chunks, j)
                <= only && only < chunk_end(start, end, chunks, j),
{
    lemma_chunks_tile_range(start, end, chunks, k);
    let first = chunk_start(start, chunks, k);
    let bound = chunk_end(start, end, chunks, k);
    assert(block.spec_is_valid_for_proof(only));
    match out {
        Some(p) => {
            assert(start <= p < end);
            assert(block.spec_is_valid_for_proof(p));
            assert(p == only);
        },
        None => {
            if first <= only < bound {
                assert(!block.spec_is_valid_for_proof(only));
            }
        },
    }
    let j = lemma_chunk_of_proof(start, end, chunks, only);
    assert(0 <= j < chunk_count(start, end, chunks) && chunk_start(start, chunks, j) <= only
        && only < chunk_end(start, end, chunks, j));
}

/// Once the chunks of a range are enqueued, every valid proof of the range
/// lies in the chunk of one enqueued task, and a run of that task ends with
/// a report.
pub proof fn lemma_valid_proof_is_enqueued(
    before: Seq<MiningTask>,
    after: Seq<MiningTask>,
    block: Block,
    start: u64,
    end: u64,
    chunks: u64,
    p: u64,
) -> (i: int)
    requires
        chunks > 0,
        extended_by_chunks(before, after, block, start, end, chunks),
        start <= p < end,
        block.spec_is_valid_for_proof(p),
    ensures
        before.len() <= i < after.len(),
        after[i].block() == block,
        after[i].start() <= p < after[i].end(),
        !after[i].yields(None),
{
    let k = lemma_chunk_of_proof(start, end, chunks, p);
    let i = before.len() + k;
    lemma_chunks_tile_range(start, end, chunks, k);
    assert(is_chunk(after[i], block, start, end, chunks, i - before.len()));
    i
}

/// On a range without a valid proof the serial scan finds nothing and no
/// chunk reports anything, so nothing ever reaches the collector.
pub proof fn lemma_barren_range_reports_nothing(
    block: Block,
    start: u64,
    end: u64,
    chunks: u64,
    k: int,
    out: Option<u64>,
)
    requires
        chunks > 0,
        forall|p: u64| start <= p < end ==> !block.spec_is_valid_for_proof(p),
        0 <= k < chunk_count(start, end, chunks),
        block.first_valid_is(
            chunk_start(start, chunks, k),
            chunk_end(start, end, chunks, k),
            out,
        ),
    ensures
        block.first_valid_is(start as int, end as int, None),
        out is None,
{
    lemma_chunks_tile_range(start, end, chunks, k);
    if let Some(p) = out {
        assert(start <= p < end);
        assert(block.spec_is_valid_for_proof(p));
    }
}

impl Block {
    /// Where a search over the default range ends: at eight times two to
    /// the difficulty.
    pub fn default_range_end(&self) -> (end: u64)
        requires
            self.difficulty <= 60,
        ensures
            end == 8 * pow2(self.difficulty as nat),
    {
        let d: u64 = self.difficulty as u64;
        proof {
            vstd::arithmetic::power2::lemma2_to64_rest();
            vstd::arithmetic::power2::lemma_pow2_strictly_increases(d as nat, 61);
            vstd::bits::lemma_u64_shl_is_mul(8, d);
        }
        8u64 << d
    }

    /// Cuts the proofs from `start` up to, not including, `end` into
    /// consecutive chunks of width `chunks`, the last one narrower where the
    /// range asks for it, and hands the queue one task for each, in order.
    /// All of them are enqueued when this returns. On a closed queue it
    /// does nothing.
    pub fn enqueue_range(
        &self,
        queue: &mut WorkQueue<MiningTask>,
        start: u64,
        end: u64,
        chunks: u64,
    )
        requires
            old(queue).wf(),
            chunks > 0,
        ensures
            final(queue).wf(),
            final(queue).is_open() == old(queue).is_open(),
            !old(queue).is_open() ==> *final(queue) == *old(queue),
            old(queue).is_open() ==> extended_by_chunks(
                old(queue).accepted(),
                final(queue).accepted(),
                *self,
                start,
                end,
                chunks,
            ),
    {
        if !queue.is_open() {
            return ;
        }
        let shared = Arc::new(self.clone());
        let ghost before = queue.accepted();
        let ghost mut k: int = 0;
        let mut i: u64 = start;
        proof {
            lemma_chunk_index(start, end, chunks, 0);
            assert(queue.accepted().take(before.len() as int) =~= before);
        }
        while i < end
            invariant
                chunks > 0,
                queue.wf(),
                queue.is_open(),
                before == old(queue).accepted(),
                *shared == *self,
                0 <= k <= chunk_count(start, end, chunks),
                i < end ==> i == chunk_start(start, chunks, k),
                i >= end ==> k == chunk_count(start, end, chunks),
                queue.accepted().len() == before.len() + k,
                queue.accepted().take(before.len() as int) == before,
                forall|j: int|
                    before.len() <= j < queue.accepted().len() ==> is_chunk(
                        #[trigger] queue.accepted()[j],
                        *self,
                        start,
                        end,
                        chunks,
                        j - before.len(),
                    ),
            decreases end - i,
        {
            proof {
                lemma_chunk_index(start, end, chunks, k);
                lemma_chunk_index(start, end, chunks, k + 1);
                assert((k + 1) * chunks == k * chunks + chunks) by (nonlinear_arith);
            }
            let chunk_end: u64 = if end - i > chunks {
                i + chunks
            } else {
                end
            };
            let task = MiningTask::new(share(&shared), i, chunk_end);
            let ghost log = queue.accepted();
            let _accepted = queue.enqueue(task);
            proof {
                assert(queue.accepted().take(before.len() as int) =~= log.take(
                    before.len() as int,
                ));
                assert forall|j: int|
                    before.len() <= j < queue.accepted().len() implies is_chunk(
                    #[trigger] queue.accepted()[j],
                    *self,
                    start,
                    end,
                    chunks,
                    j - before.len(),
                ) by {
                    if j < log.len() {
                        assert(queue.accepted()[j] == log[j]);
                    }
                }
                k = k + 1;
            }
            i = chunk_end;
        }
    }
}

} // verus!
