//! The limits that a connection may impose on its own I/O.

use vstd::prelude::*;

use crate::error::OpenError;

verus! {

/// Per-connection limits on accepted I/O, including the executing operation.
///
/// Both limits default to `None` (unlimited). Explicit limits must be nonzero.
/// Integer overflow is rejected even when no policy limit is configured.
/// Limits do not preallocate memory. Exceeding a limit rejects a submission
/// rather than blocking the runtime or waiting for queue capacity.
#[derive(Clone, Copy, Debug, PartialEq, Eq, Structural)]
pub struct Options {
    /// Maximum queued plus executing operations, or `None` for no limit.
    pub max_outstanding_operations: Option<usize>,
    /// Maximum bytes retained for read staging and write buffers, or no limit.
    ///
    /// Includes the capacity of the single idle cached read buffer, which is
    /// released when needed to admit new I/O. This is not a process-memory
    /// limit: queue bookkeeping and Turso's own allocations are not counted.
    pub max_retained_bytes: Option<usize>,
}

/// The number that an optional limit stands for: without one, the largest
/// number that the accounting can hold.
pub open spec fn cap(limit: Option<usize>) -> usize {
    match limit {
        Some(most) => most,
        None => usize::MAX,
    }
}

impl Options {
    /// No explicit limit is zero.
    pub open spec fn nonzero(self) -> bool {
        self.max_outstanding_operations != Some(0usize) && self.max_retained_bytes != Some(0usize)
    }

    /// Accepts the limits unless an explicit one is zero.
    pub fn validate(&self) -> (result: Result<(), OpenError>)
        ensures
            self.nonzero() ==> result == Ok::<(), OpenError>(()),
            !self.nonzero() ==> result == Err::<(), OpenError>(OpenError::ZeroLimit),
            result is Err <==> self.max_outstanding_operations == Some(0usize)
                || self.max_retained_bytes == Some(0usize),
    {
        if self.max_outstanding_operations == Some(0) || self.max_retained_bytes == Some(0) {
            return Err(OpenError::ZeroLimit);
        }
        Ok(())
    }
}

impl Default for Options {
    /// Imposes no limits.
    fn default() -> (options: Self)
        ensures
            options.max_outstanding_operations is None,
            options.max_retained_bytes is None,
    {
        Options { max_outstanding_operations: None, max_retained_bytes: None }
    }
}

/// Limits are refused exactly where an explicit one is zero. A limit that is
/// left out is never a reason.
pub proof fn law_only_zero_limits_are_refused(options: Options)
    ensures
        !options.nonzero() <==> options.max_outstanding_operations == Some(0usize)
            || options.max_retained_bytes == Some(0usize),
{
}

/// Each limit is judged without regard to the other.
pub proof fn law_limits_are_judged_apart(operations: Option<usize>, bytes: Option<usize>)
    ensures
        (Options { max_outstanding_operations: operations, max_retained_bytes: bytes }).nonzero()
            <==> {
            &&& operations matches Some(most) ==> most > 0
            &&& bytes matches Some(most) ==> most > 0
        },
        (Options { max_outstanding_operations: operations, max_retained_bytes: bytes }).nonzero()
            <==> {
            &&& (Options {
                max_outstanding_operations: operations,
                max_retained_bytes: None,
            }).nonzero()
            &&& (Options {
                max_outstanding_operations: None,
                max_retained_bytes: bytes,
            }).nonzero()
        },
{
}

/// An amount is within a limit exactly if it is no larger, and any amount that
/// can be counted is within a limit that was left out.
pub proof fn law_limit_caps_amounts(limit: Option<usize>, amount: int)
    ensures
        amount <= cap(limit) <==> match limit {
            Some(most) => amount <= most,
            None => amount <= usize::MAX,
        },
{
}

} // verus!
