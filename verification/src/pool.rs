//! How many workers a run gets.

use vstd::prelude::*;

verus! {

/// No automatic choice goes above this many workers.
pub const MAX_AUTO_WORKERS: usize = 32;

/// The number of workers for a machine of `cores` processors and patterns of
/// combined length `complexity`: twice the processors above 8 bytes, the
/// processors above 4, one fewer (but one at least) otherwise, and never more
/// than [`MAX_AUTO_WORKERS`].
pub open spec fn spec_optimal_workers(cores: nat, complexity: nat) -> nat {
    let wanted = if complexity > 8 {
        cores * 2
    } else if complexity > 4 {
        cores
    } else if cores > 1 {
        (cores - 1) as nat
    } else {
        1
    };
    if wanted > MAX_AUTO_WORKERS {
        MAX_AUTO_WORKERS as nat
    } else {
        wanted
    }
}

/// The number of workers of a run: the number asked for, or the automatic
/// choice where 0 was asked for.
pub open spec fn spec_choose_workers(requested: usize, cores: usize, complexity: nat) -> nat {
    if requested > 0 {
        requested as nat
    } else {
        spec_optimal_workers(cores as nat, complexity)
    }
}

/// Computes the automatic choice.
pub fn optimal_workers(cores: usize, complexity: usize) -> (workers: usize)
    ensures
        workers == spec_optimal_workers(cores as nat, complexity as nat),
        workers <= MAX_AUTO_WORKERS,
{
    if complexity > 8 {
        if cores > MAX_AUTO_WORKERS / 2 {
            MAX_AUTO_WORKERS
        } else {
            cores * 2
        }
    } else if complexity > 4 {
        if cores > MAX_AUTO_WORKERS {
            MAX_AUTO_WORKERS
        } else {
            cores
        }
    } else if cores > MAX_AUTO_WORKERS {
        MAX_AUTO_WORKERS
    } else if cores > 1 {
        cores - 1
    } else {
        1
    }
}

/// Resolves the number of workers for a machine of `cores` processors.
pub fn choose_workers(requested: usize, cores: usize, complexity: usize) -> (workers: usize)
    ensures
        workers == spec_choose_workers(requested, cores, complexity as nat),
{
    if requested > 0 {
        requested
    } else {
        optimal_workers(cores, complexity)
    }
}

/// `num_cpus::get`: the number of logical processors that this process may
/// use. The one thing claimed is what its documentation promises: the number
/// is at least 1.
#[verifier::external_body]
fn available_cores() -> (cores: usize)
    ensures
        cores >= 1,
{
    num_cpus::get()
}

/// Resolves the number of workers on this machine. The processors are
/// counted only where 0 was asked for.
pub fn detect_workers(requested: usize, complexity: usize) -> (workers: usize)
    ensures
        requested > 0 ==> workers == requested,
        exists|cores: usize|
            cores >= 1 && workers == spec_choose_workers(requested, cores, complexity as nat),
        requested == 0 ==> 1 <= workers <= MAX_AUTO_WORKERS,
{
    if requested > 0 {
        assert(requested == spec_choose_workers(requested, 1, complexity as nat));
        requested
    } else {
        let cores: usize = available_cores();
        let workers: usize = choose_workers(requested, cores, complexity);
        assert(workers == spec_choose_workers(requested, cores, complexity as nat));
        workers
    }
}

} // verus!
