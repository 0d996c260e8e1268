//! Run configuration: the knobs of one scan invocation and how unspecified
//! knobs fall back to their defaults.

use vstd::prelude::*;

verus! {

/// The configuration of one scan invocation.  Immutable for the scan's
/// lifetime.
///
/// `max_file_size == 0` means "no size cap"; `max_concurrency` is always at
/// least one.
pub struct ScanConfig {
    pub desired_context: usize,
    pub max_file_size: usize,
    pub max_concurrency: usize,
    pub skip_symlinks: bool,
}

/// Relies on `num_cpus::get`: the number of CPUs available to the current
/// process, which is always at least one.
#[verifier::external_body]
fn host_parallelism() -> (n: usize)
    ensures
        n >= 1,
{
    num_cpus::get()
}

/// Fills every unspecified knob with its default: a context window of 128
/// bytes, no size cap, the host's parallelism, and symlinks not skipped.
/// A requested concurrency of zero also falls back to the host's parallelism.
pub fn resolve_config(
    desired_context: Option<usize>,
    max_file_size: Option<usize>,
    max_concurrency: Option<usize>,
    skip_symlinks: Option<bool>,
) -> (c: ScanConfig)
    ensures
        c.desired_context == (if desired_context is Some {
            desired_context->0
        } else {
            128usize
        }),
        c.max_file_size == (if max_file_size is Some {
            max_file_size->0
        } else {
            0usize
        }),
        max_concurrency is Some && max_concurrency->0 >= 1 ==> c.max_concurrency
            == max_concurrency->0,
        c.max_concurrency >= 1,
        c.skip_symlinks == (if skip_symlinks is Some {
            skip_symlinks->0
        } else {
            false
        }),
{
    let concurrency: usize = match max_concurrency {
        Some(k) => if k >= 1 {
            k
        } else {
            host_parallelism()
        },
        None => host_parallelism(),
    };
    ScanConfig {
        desired_context: match desired_context {
            Some(d) => d,
            None => 128,
        },
        max_file_size: match max_file_size {
            Some(s) => s,
            None => 0,
        },
        max_concurrency: concurrency,
        skip_symlinks: match skip_symlinks {
            Some(b) => b,
            None => false,
        },
    }
}

} // verus!
