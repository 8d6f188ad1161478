//! Running one operation per worker on the thread pool.

use rayon::iter::{IntoParallelIterator, ParallelIterator};
use vstd::prelude::*;

verus! {

/// `rayon`'s `find_map_any` on the range `0..n`: applies `op` to the numbers
/// below `n`, on the threads of the current pool, and returns any result that
/// is not `None`.
///
/// Claimed of it: a value that is returned is one that `op` gave for a
/// number below `n`; and `None` is returned only when `op` gave `None` for
/// each of them.
#[verifier::external_body]
pub(crate) fn find_map_any_below<R: Send, F: Fn(usize) -> Option<R> + Sync + Send>(
    n: usize,
    op: F,
) -> (found: Option<R>)
    requires
        forall|i: usize| i < n ==> call_requires(op, (i,)),
    ensures
        found matches Some(value) ==> exists|i: usize| i < n && call_ensures(op, (i,), Some(value)),
        found is None ==> forall|i: usize| i < n ==> call_ensures(op, (i,), None::<R>),
{
    (0..n).into_par_iter().find_map_any(op)
}

} // verus!
