//! The failures that the shim reports to its caller.

use vstd::prelude::*;

verus! {

/// The kind of a failure, which is what a caller branches on.
#[derive(Clone, Copy, Debug, PartialEq, Eq, Structural)]
pub enum ErrorKind {
    /// No instance is registered under the id.
    NotFound,
    /// An instance is already registered under the id.
    AlreadyExists,
    /// The request has a shape that the shim does not accept.
    InvalidArgument,
    /// The request asks for a feature that the shim does not have.
    Unimplemented,
    /// Talking to the content or metadata store failed.
    Containerd,
    /// Any other failure, such as one passed on from the execution engine.
    Others,
}

/// A failure with its message.
#[derive(Debug)]
pub enum ShimError {
    NotFound(String),
    AlreadyExists(String),
    InvalidArgument(String),
    Unimplemented(String),
    Containerd(String),
    Others(String),
}

impl ShimError {
    /// The kind of this failure.
    pub open spec fn kind(&self) -> ErrorKind {
        match self {
            ShimError::NotFound(_) => ErrorKind::NotFound,
            ShimError::AlreadyExists(_) => ErrorKind::AlreadyExists,
            ShimError::InvalidArgument(_) => ErrorKind::InvalidArgument,
            ShimError::Unimplemented(_) => ErrorKind::Unimplemented,
            ShimError::Containerd(_) => ErrorKind::Containerd,
            ShimError::Others(_) => ErrorKind::Others,
        }
    }

    /// The text carried by this failure.
    pub open spec fn message(&self) -> Seq<char> {
        match self {
            ShimError::NotFound(m) => m@,
            ShimError::AlreadyExists(m) => m@,
            ShimError::InvalidArgument(m) => m@,
            ShimError::Unimplemented(m) => m@,
            ShimError::Containerd(m) => m@,
            ShimError::Others(m) => m@,
        }
    }

    /// Whether this failure has the given kind and text.
    pub open spec fn is(&self, kind: ErrorKind, message: Seq<char>) -> bool {
        self.kind() == kind && self.message() == message
    }

    /// Returns the kind of this failure.
    pub fn get_kind(&self) -> (k: ErrorKind)
        ensures
            k == self.kind(),
    {
        match self {
            ShimError::NotFound(_) => ErrorKind::NotFound,
            ShimError::AlreadyExists(_) => ErrorKind::AlreadyExists,
            ShimError::InvalidArgument(_) => ErrorKind::InvalidArgument,
            ShimError::Unimplemented(_) => ErrorKind::Unimplemented,
            ShimError::Containerd(_) => ErrorKind::Containerd,
            ShimError::Others(_) => ErrorKind::Others,
        }
    }

    /// Returns the text carried by this failure.
    pub fn get_message(&self) -> (m: &String)
        ensures
            m@ == self.message(),
    {
        match self {
            ShimError::NotFound(m) => m,
            ShimError::AlreadyExists(m) => m,
            ShimError::InvalidArgument(m) => m,
            ShimError::Unimplemented(m) => m,
            ShimError::Containerd(m) => m,
            ShimError::Others(m) => m,
        }
    }
}

} // verus!
