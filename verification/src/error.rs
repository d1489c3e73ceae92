//! The error kinds that the library's operations surface.

use vstd::prelude::*;

verus! {

/// Why an operation failed.
///
/// `Os` wraps the platform's last-error code from a failed system call
/// (handle open, title or name read, focus or z-order change, enumeration,
/// clipboard access). `WindowNotFound` is the one recoverable condition: no
/// enumerated window matched the search predicates. `IncompleteSearchArgument`
/// means the caller supplied neither a title nor a process-name predicate.
#[derive(Clone, Copy, Debug, PartialEq, Eq, Structural)]
pub enum Error {
    Os(u32),
    WindowNotFound,
    IncompleteSearchArgument,
}

} // verus!
