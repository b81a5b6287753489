//! Response decoding for a client of a hierarchical coordination service.
//!
//! The crate turns an already framed response buffer, together with the
//! operation code of the request that produced it, into a typed [`Response`].
//! Every decoder is stated against a mathematical model of the wire format
//! over `Seq<u8>`, and every failure is a value of [`DecodeError`].

pub mod error;
pub mod types;
pub mod wire;
pub mod response;
pub mod laws;

pub use error::{Check, Create, Delete, GetAcl, Multi, SetAcl, SetData};
pub use response::{MultiHeader, ReadFrom, Response};
pub use types::{Acl, KeeperState, OpCode, Permission, Stat, WatchedEvent, WatchedEventType};
pub use wire::{BufferReader, DecodeError, Reader};
