//! The error taxonomy of a transfer session.
//!
//! One terminal value reaches the session's caller, with enough detail to
//! tell a protocol violation from a storage-engine refusal and from a peer
//! disconnect.

use vstd::prelude::*;

verus! {

/// The ways a transfer session can fail.
#[derive(Debug, PartialEq)]
pub enum TransferError {
    /// A break in the strictly increasing segment numbering: a protocol
    /// violation, fatal, never retried.
    SequenceMismatch { expected: u64, received: u64 },
    /// The storage engine rejected or aborted the operation; its report is
    /// surfaced verbatim.
    NativeOperationFailed { detail: String },
    /// The external consuming process exited with a non-zero status.
    ProcessExitFailure { code: i32 },
    /// The external consuming process was terminated by a signal; reported
    /// apart from an exit code for diagnostics.
    ProcessSignaled { signal: i32 },
    /// The network stream failed before completion.
    TransportError { detail: String },
    /// The bridge or pipe could not be allocated; the session never starts.
    ResourceError,
}

impl TransferError {
    /// A short label for the error category, for reports assembled outside
    /// the crate.
    pub fn category(&self) -> (r: &'static str)
        ensures
            r@ == self.category_spec(),
    {
        match self {
            TransferError::SequenceMismatch { .. } => "sequence mismatch",
            TransferError::NativeOperationFailed { .. } => "native operation failed",
            TransferError::ProcessExitFailure { .. } => "process exit failure",
            TransferError::ProcessSignaled { .. } => "process signaled",
            TransferError::TransportError { .. } => "transport error",
            TransferError::ResourceError => "resource error",
        }
    }

    /// What `category` returns for each variant.
    pub open spec fn category_spec(&self) -> Seq<char> {
        match self {
            TransferError::SequenceMismatch { .. } => "sequence mismatch"@,
            TransferError::NativeOperationFailed { .. } => "native operation failed"@,
            TransferError::ProcessExitFailure { .. } => "process exit failure"@,
            TransferError::ProcessSignaled { .. } => "process signaled"@,
            TransferError::TransportError { .. } => "transport error"@,
            TransferError::ResourceError => "resource error"@,
        }
    }
}

} // verus!
