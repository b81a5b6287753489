//! Reasons for which the service rejects a request, one closed set per kind
//! of operation, and the composite outcome of an operation inside a batch.

use vstd::prelude::*;
use vstd::std_specs::convert::FromSpecImpl;

verus! {

/// Errors that may cause a delete request to fail.
#[derive(Clone, Copy, PartialEq, Eq, Debug, Structural)]
pub enum Delete {
    /// No node exists with the given path.
    NoNode,
    /// The target node has a different version than the request named.
    BadVersion {
        /// The expected node version.
        expected: i32,
    },
    /// The target node has child nodes, and therefore cannot be deleted.
    NotEmpty,
}

/// Errors that may cause a data write to fail.
#[derive(Clone, Copy, PartialEq, Eq, Debug, Structural)]
pub enum SetData {
    /// No node exists with the given path.
    NoNode,
    /// The target node has a different version than the request named.
    BadVersion {
        /// The expected node version.
        expected: i32,
    },
    /// The target node's permissions do not accept data modification, or
    /// require different authentication.
    NoAuth,
}

/// Errors that may cause a create request to fail.
#[derive(Clone, Copy, PartialEq, Eq, Debug, Structural)]
pub enum Create {
    /// A node with the given path already exists.
    NodeExists,
    /// The parent node of the given path does not exist.
    NoNode,
    /// The parent node of the given path is ephemeral, and cannot have children.
    NoChildrenForEphemerals,
    /// The given access-control list is invalid.
    InvalidAcl,
}

/// Errors that may cause reading an access-control list to fail.
#[derive(Clone, Copy, PartialEq, Eq, Debug, Structural)]
pub enum GetAcl {
    /// No node exists with the given path.
    NoNode,
}

/// Errors that may cause writing an access-control list to fail.
#[derive(Clone, Copy, PartialEq, Eq, Debug, Structural)]
pub enum SetAcl {
    /// No node exists with the given path.
    NoNode,
    /// The target node has a different version than the request named.
    BadVersion {
        /// The expected node version.
        expected: i32,
    },
    /// The given access-control list is invalid.
    InvalidAcl,
    /// The target node's permissions do not accept a change of its list, or
    /// require different authentication.
    NoAuth,
}

/// Errors that may cause a version check to fail.
#[derive(Clone, Copy, PartialEq, Eq, Debug, Structural)]
pub enum Check {
    /// No node exists with the given path.
    NoNode,
    /// The target node has a different version than the request named.
    BadVersion {
        /// The expected node version.
        expected: i32,
    },
}

/// The outcome of a failed operation inside a batch.
#[derive(Clone, Copy, PartialEq, Eq, Debug, Structural)]
pub enum Multi {
    /// A failed delete.
    Delete(Delete),
    /// A failed data write.
    SetData(SetData),
    /// A failed create.
    Create(Create),
    /// A failed version check.
    Check(Check),
    /// The operation would have succeeded, but a later operation of the batch
    /// failed and this one was undone.
    RolledBack,
    /// The operation was not attempted because an earlier operation of the
    /// batch failed.
    Skipped,
}

impl From<Delete> for Multi {
    fn from(err: Delete) -> (out: Self) {
        Multi::Delete(err)
    }
}

impl FromSpecImpl<Delete> for Multi {
    open spec fn obeys_from_spec() -> bool {
        true
    }

    open spec fn from_spec(err: Delete) -> Self {
        Multi::Delete(err)
    }
}

impl From<SetData> for Multi {
    fn from(err: SetData) -> (out: Self) {
        Multi::SetData(err)
    }
}

impl FromSpecImpl<SetData> for Multi {
    open spec fn obeys_from_spec() -> bool {
        true
    }

    open spec fn from_spec(err: SetData) -> Self {
        Multi::SetData(err)
    }
}

impl From<Create> for Multi {
    fn from(err: Create) -> (out: Self) {
        Multi::Create(err)
    }
}

impl FromSpecImpl<Create> for Multi {
    open spec fn obeys_from_spec() -> bool {
        true
    }

    open spec fn from_spec(err: Create) -> Self {
        Multi::Create(err)
    }
}

impl From<Check> for Multi {
    fn from(err: Check) -> (out: Self) {
        Multi::Check(err)
    }
}

impl FromSpecImpl<Check> for Multi {
    open spec fn obeys_from_spec() -> bool {
        true
    }

    open spec fn from_spec(err: Check) -> Self {
        Multi::Check(err)
    }
}

} // verus!
