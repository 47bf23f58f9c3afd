//! The calls into the rayon thread pool.
use vstd::prelude::*;
use rayon::iter::ParallelIterator;
use rayon::slice::ParallelSlice;

verus! {

/// `rayon::join` runs both closures, possibly in parallel, and returns the pair of
/// their results. It panics where one of the closures does, and where the threads of the pool
/// cannot be started.
pub assume_specification<A, B, RA, RB>[ rayon::join::<A, B, RA, RB> ](
    oper_a: A,
    oper_b: B,
) -> (results: (RA, RB)) where
    A: FnOnce() -> RA + Send,
    B: FnOnce() -> RB + Send,
    RA: Send,
    RB: Send,

    requires
        oper_a.requires(()),
        oper_b.requires(()),
    ensures
        oper_a.ensures((), results.0),
        oper_b.ensures((), results.1),
;

/// `rayon::current_num_threads` tells how many threads the pool has. There is at least one; how
/// many more is up to the machine, so nothing else is claimed of the number.
pub assume_specification[ rayon::current_num_threads ]() -> (threads: usize)
    ensures
        threads >= 1,
;

/// `rayon::slice::ParallelSlice::par_chunks_exact`, mapped and collected: cuts a slice into
/// chunks of `chunk_size` bytes, leaves out a shorter rest, applies `f` to each chunk and
/// returns the results in the order of the chunks.
#[verifier::external_body]
pub(crate) fn map_chunks_exact<T: Send, F: Fn(&[u8]) -> T + Sync + Send>(
    data: &[u8],
    chunk_size: usize,
    f: F,
) -> (results: Vec<T>)
    requires
        chunk_size > 0,
        forall|chunk: &[u8]| chunk@.len() == chunk_size ==> #[trigger] f.requires((chunk,)),
    ensures
        results@.len() == data@.len() / (chunk_size as nat),
        forall|i: int| #![trigger results@[i]] 0 <= i < results@.len() ==> exists|chunk: &[u8]|
            {
                &&& chunk@ == data@.subrange(i * chunk_size, (i + 1) * chunk_size)
                &&& #[trigger] f.ensures((chunk,), results@[i])
            },
{
    data.par_chunks_exact(chunk_size).map(f).collect()
}

} // verus!
