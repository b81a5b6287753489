//! The records that responses carry: node metadata, access-control entries,
//! watch notifications, and the operation codes that select a response shape.

use vstd::prelude::*;

verus! {

/// The metadata of a node: transaction ids, timestamps, version counters and
/// sizes. The record is fixed-width and always whole.
#[derive(Clone, Copy, PartialEq, Eq, Debug, Structural)]
pub struct Stat {
    /// The transaction that created the node.
    pub czxid: i64,
    /// The transaction that last modified the node.
    pub mzxid: i64,
    /// When the node was created.
    pub ctime: i64,
    /// When the node was last modified.
    pub mtime: i64,
    /// The number of changes to the node's data.
    pub version: i32,
    /// The number of changes to the node's children.
    pub cversion: i32,
    /// The number of changes to the node's access-control list.
    pub aversion: i32,
    /// The session that owns the node if it is ephemeral, else zero.
    pub ephemeral_owner: i64,
    /// The length of the node's data.
    pub data_length: i32,
    /// The number of the node's children.
    pub num_children: i32,
    /// The transaction that last modified the node's children.
    pub pzxid: i64,
}

/// A set of capability bits. Any 32-bit value is accepted as it comes.
#[derive(Clone, Copy, PartialEq, Eq, Debug, Structural)]
pub struct Permission {
    bits: u32,
}

impl Permission {
    /// The raw bits of this set.
    pub closed spec fn raw(self) -> u32 {
        self.bits
    }

    /// The set with exactly the given bits.
    pub fn from_raw(bits: u32) -> (p: Self)
        ensures
            p.raw() == bits,
    {
        Permission { bits }
    }

    /// The raw bits of this set.
    pub fn bits(self) -> (b: u32)
        ensures
            b == self.raw(),
    {
        self.bits
    }
}

/// One entry of an access-control list.
#[derive(Clone, PartialEq, Eq, Debug)]
pub struct Acl {
    /// What the identity may do.
    pub perms: Permission,
    /// The authentication scheme that the identity belongs to.
    pub scheme: String,
    /// The identity.
    pub id: String,
}

/// What an access-control entry holds, as mathematical values.
pub ghost struct AclModel {
    pub perms: u32,
    pub scheme: Seq<char>,
    pub id: Seq<char>,
}

impl Acl {
    /// The entry as mathematical values.
    pub open spec fn model(&self) -> AclModel {
        AclModel { perms: self.perms.raw(), scheme: self.scheme@, id: self.id@ }
    }
}

/// The kind of change that a watch reports.
#[derive(Clone, Copy, PartialEq, Eq, Debug, Structural)]
pub enum WatchedEventType {
    /// Nothing changed on a node: the session's state did.
    Session,
    /// A node was created.
    NodeCreated,
    /// A node was deleted.
    NodeDeleted,
    /// A node's data changed.
    NodeDataChanged,
    /// A node's children changed.
    NodeChildrenChanged,
    /// A data watch was removed.
    DataWatchRemoved,
    /// A child watch was removed.
    ChildWatchRemoved,
}

impl WatchedEventType {
    /// The kind that a wire number stands for, if any.
    pub open spec fn of_code(code: i32) -> Option<Self> {
        if code == -1 {
            Some(WatchedEventType::Session)
        } else if code == 1 {
            Some(WatchedEventType::NodeCreated)
        } else if code == 2 {
            Some(WatchedEventType::NodeDeleted)
        } else if code == 3 {
            Some(WatchedEventType::NodeDataChanged)
        } else if code == 4 {
            Some(WatchedEventType::NodeChildrenChanged)
        } else if code == 5 {
            Some(WatchedEventType::DataWatchRemoved)
        } else if code == 6 {
            Some(WatchedEventType::ChildWatchRemoved)
        } else {
            None
        }
    }

    /// The kind that a wire number stands for, if any.
    pub fn from_code(code: i32) -> (r: Option<Self>)
        ensures
            r == Self::of_code(code),
    {
        match code {
            -1 => Some(WatchedEventType::Session),
            1 => Some(WatchedEventType::NodeCreated),
            2 => Some(WatchedEventType::NodeDeleted),
            3 => Some(WatchedEventType::NodeDataChanged),
            4 => Some(WatchedEventType::NodeChildrenChanged),
            5 => Some(WatchedEventType::DataWatchRemoved),
            6 => Some(WatchedEventType::ChildWatchRemoved),
            _ => None,
        }
    }
}

/// The state of the session at the time of a notification.
#[derive(Clone, Copy, PartialEq, Eq, Debug, Structural)]
pub enum KeeperState {
    /// The client is not connected to any server.
    Disconnected,
    /// The client is connected.
    SyncConnected,
    /// Authentication failed.
    AuthFailed,
    /// The client is connected to a read-only server.
    ConnectedReadOnly,
    /// The client has authenticated.
    SaslAuthenticated,
    /// The session has expired.
    Expired,
}

impl KeeperState {
    /// The state that a wire number stands for, if any.
    pub open spec fn of_code(code: i32) -> Option<Self> {
        if code == 0 {
            Some(KeeperState::Disconnected)
        } else if code == 3 {
            Some(KeeperState::SyncConnected)
        } else if code == 4 {
            Some(KeeperState::AuthFailed)
        } else if code == 5 {
            Some(KeeperState::ConnectedReadOnly)
        } else if code == 6 {
            Some(KeeperState::SaslAuthenticated)
        } else if code == -112 {
            Some(KeeperState::Expired)
        } else {
            None
        }
    }

    /// The state that a wire number stands for, if any.
    pub fn from_code(code: i32) -> (r: Option<Self>)
        ensures
            r == Self::of_code(code),
    {
        match code {
            0 => Some(KeeperState::Disconnected),
            3 => Some(KeeperState::SyncConnected),
            4 => Some(KeeperState::AuthFailed),
            5 => Some(KeeperState::ConnectedReadOnly),
            6 => Some(KeeperState::SaslAuthenticated),
            -112 => Some(KeeperState::Expired),
            _ => None,
        }
    }
}

/// A notification that a watched node, or the session, changed.
#[derive(Clone, PartialEq, Eq, Debug)]
pub struct WatchedEvent {
    /// What happened.
    pub event_type: WatchedEventType,
    /// The state of the session.
    pub keeper_state: KeeperState,
    /// The node concerned.
    pub path: String,
}

/// What a notification holds, as mathematical values.
pub ghost struct WatchedEventModel {
    pub event_type: WatchedEventType,
    pub keeper_state: KeeperState,
    pub path: Seq<char>,
}

impl WatchedEvent {
    /// The notification as mathematical values.
    pub open spec fn model(&self) -> WatchedEventModel {
        WatchedEventModel {
            event_type: self.event_type,
            keeper_state: self.keeper_state,
            path: self.path@,
        }
    }
}

/// The operations of the protocol. Only some of them have a response shape.
#[derive(Clone, Copy, PartialEq, Eq, Debug, Structural)]
pub enum OpCode {
    /// A watch notification.
    Notification,
    /// Create a node.
    Create,
    /// Delete a node.
    Delete,
    /// Ask whether a node exists.
    Exists,
    /// Read a node's data.
    GetData,
    /// Write a node's data.
    SetData,
    /// Read a node's access-control list.
    GetACL,
    /// Write a node's access-control list.
    SetACL,
    /// List a node's children.
    GetChildren,
    /// Wait for the server to catch up.
    Synchronize,
    /// Keep the session alive.
    Ping,
    /// List a node's children, with its metadata.
    GetChildren2,
    /// Assert a node's version.
    Check,
    /// A batch of operations.
    Multi,
    /// Add authentication to the session.
    Auth,
    /// Restore watches after a reconnect.
    SetWatches,
    /// An authentication exchange.
    Sasl,
    /// The session handshake.
    CreateSession,
    /// End the session.
    CloseSession,
    /// The marker of a failed entry in a batch.
    Error,
}

impl OpCode {
    /// The operation that a wire number stands for, if any.
    pub open spec fn of_code(code: i32) -> Option<Self> {
        if code == 0 {
            Some(OpCode::Notification)
        } else if code == 1 {
            Some(OpCode::Create)
        } else if code == 2 {
            Some(OpCode::Delete)
        } else if code == 3 {
            Some(OpCode::Exists)
        } else if code == 4 {
            Some(OpCode::GetData)
        } else if code == 5 {
            Some(OpCode::SetData)
        } else if code == 6 {
            Some(OpCode::GetACL)
        } else if code == 7 {
            Some(OpCode::SetACL)
        } else if code == 8 {
            Some(OpCode::GetChildren)
        } else if code == 9 {
            Some(OpCode::Synchronize)
        } else if code == 11 {
            Some(OpCode::Ping)
        } else if code == 12 {
            Some(OpCode::GetChildren2)
        } else if code == 13 {
            Some(OpCode::Check)
        } else if code == 14 {
            Some(OpCode::Multi)
        } else if code == 100 {
            Some(OpCode::Auth)
        } else if code == 101 {
            Some(OpCode::SetWatches)
        } else if code == 102 {
            Some(OpCode::Sasl)
        } else if code == -10 {
            Some(OpCode::CreateSession)
        } else if code == -11 {
            Some(OpCode::CloseSession)
        } else if code == -1 {
            Some(OpCode::Error)
        } else {
            None
        }
    }

    /// The operation that a wire number stands for, if any.
    pub fn from_code(code: i32) -> (r: Option<Self>)
        ensures
            r == Self::of_code(code),
    {
        match code {
            0 => Some(OpCode::Notification),
            1 => Some(OpCode::Create),
            2 => Some(OpCode::Delete),
            3 => Some(OpCode::Exists),
            4 => Some(OpCode::GetData),
            5 => Some(OpCode::SetData),
            6 => Some(OpCode::GetACL),
            7 => Some(OpCode::SetACL),
            8 => Some(OpCode::GetChildren),
            9 => Some(OpCode::Synchronize),
            11 => Some(OpCode::Ping),
            12 => Some(OpCode::GetChildren2),
            13 => Some(OpCode::Check),
            14 => Some(OpCode::Multi),
            100 => Some(OpCode::Auth),
            101 => Some(OpCode::SetWatches),
            102 => Some(OpCode::Sasl),
            -10 => Some(OpCode::CreateSession),
            -11 => Some(OpCode::CloseSession),
            -1 => Some(OpCode::Error),
            _ => None,
        }
    }

    /// Whether responses to this operation have a shape that can be decoded.
    pub open spec fn supported(self) -> bool {
        self is CreateSession || self is Exists || self is SetData || self is SetACL
            || self is GetData || self is Delete || self is GetChildren || self is Create
            || self is GetACL || self is Check || self is Multi
    }
}

} // verus!
