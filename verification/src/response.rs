//! The structural decoders and the response dispatcher.
//!
//! [`ReadFrom`] ties each record to its mathematical decoder; [`Response::parse`]
//! selects the shape of a response by the operation that was asked for, and for
//! a batch decodes entry after entry until the terminating frame.

use crate::types::{
    Acl, AclModel, KeeperState, OpCode, Permission, Stat, WatchedEvent, WatchedEventModel,
    WatchedEventType,
};
use crate::wire::{
    be_u32_value, be_u64_value, decode_bool, decode_buffer, decode_i32, decode_i64,
    decode_string, decode_u32, decode_u8, declared_len, signed32, signed64, BufferReader,
    DecodeError, Decoded, Reader,
};
use vstd::prelude::*;

verus! {

/// A record that can be read from the wire.
pub trait ReadFrom: Sized {
    /// The record as mathematical values.
    type Model;

    /// What this value holds.
    spec fn model(&self) -> Self::Model;

    /// The wire format of the record: what the bytes `s` start with, and what
    /// follows it, or why they do not start with such a record.
    spec fn decode(s: Seq<u8>) -> Decoded<Self::Model>;

    /// Reads one record, and advances the cursor past it.
    fn read_from(read: &mut Reader) -> (r: Result<Self, DecodeError>)
        ensures
            match r {
                Ok(v) => Self::decode(old(read)@) == Ok::<(Self::Model, Seq<u8>), DecodeError>(
                    (v.model(), final(read)@),
                ) && final(read)@.len() <= old(read)@.len(),
                Err(e) => Self::decode(old(read)@) == Err::<(Self::Model, Seq<u8>), DecodeError>(
                    e,
                ),
            },
    ;

    /// A record never gives back more bytes than it was given.
    proof fn lemma_decode_consumes(s: Seq<u8>)
        ensures
            Self::decode(s) matches Ok((_, rest)) ==> rest.len() <= s.len(),
    ;
}

/// The signed 32-bit integer that starts at offset `at` of `s`.
pub open spec fn i32_at(s: Seq<u8>, at: int) -> i32 {
    signed32(be_u32_value(s.skip(at))) as i32
}

/// The signed 64-bit integer that starts at offset `at` of `s`.
pub open spec fn i64_at(s: Seq<u8>, at: int) -> i64 {
    signed64(be_u64_value(s.skip(at))) as i64
}

/// The width of a node metadata record on the wire.
pub open spec fn stat_width() -> int {
    68
}

/// A node metadata record: eleven integers at fixed offsets.
pub open spec fn decode_stat(s: Seq<u8>) -> Decoded<Stat> {
    if s.len() < stat_width() {
        Err(DecodeError::UnexpectedEof)
    } else {
        Ok(
            (
                Stat {
                    czxid: i64_at(s, 0),
                    mzxid: i64_at(s, 8),
                    ctime: i64_at(s, 16),
                    mtime: i64_at(s, 24),
                    version: i32_at(s, 32),
                    cversion: i32_at(s, 36),
                    aversion: i32_at(s, 40),
                    ephemeral_owner: i64_at(s, 44),
                    data_length: i32_at(s, 52),
                    num_children: i32_at(s, 56),
                    pzxid: i64_at(s, 60),
                },
                s.skip(stat_width()),
            ),
        )
    }
}

/// An access-control entry: the permission bits, then the scheme and the
/// identity as strings.
pub open spec fn decode_acl(s: Seq<u8>) -> Decoded<AclModel> {
    match decode_u32(s) {
        Err(e) => Err(e),
        Ok((perms, r1)) => match decode_string(r1) {
            Err(e) => Err(e),
            Ok((scheme, r2)) => match decode_string(r2) {
                Err(e) => Err(e),
                Ok((id, r3)) => Ok((AclModel { perms, scheme, id }, r3)),
            },
        },
    }
}

/// A watch notification: the numbers of the event's kind and of the session's
/// state, then the path. All three fields are read before the numbers are
/// looked up.
pub open spec fn decode_watched_event(s: Seq<u8>) -> Decoded<WatchedEventModel> {
    match decode_i32(s) {
        Err(e) => Err(e),
        Ok((kind, r1)) => match decode_i32(r1) {
            Err(e) => Err(e),
            Ok((state, r2)) => match decode_string(r2) {
                Err(e) => Err(e),
                Ok((path, r3)) => match (
                    WatchedEventType::of_code(kind),
                    KeeperState::of_code(state),
                ) {
                    (Some(event_type), Some(keeper_state)) => Ok(
                        (WatchedEventModel { event_type, keeper_state, path }, r3),
                    ),
                    _ => Err(DecodeError::InvalidValue),
                },
            },
        },
    }
}

/// What the header of one entry of a batch announces.
#[derive(Clone, Copy, PartialEq, Eq, Debug, Structural)]
pub enum MultiHeader {
    /// The next entry succeeded: its response follows, in the shape of the
    /// operation with this number.
    NextOk(i32),
    /// The next entry failed, with this error code.
    NextErr(i32),
    /// The batch ends here.
    Done,
}

/// The header of one entry of a batch: the operation's number, the done flag
/// and the error code. A nonzero done flag ends the batch whatever the other
/// two fields hold. Else the number -1 announces a failed entry, and one more
/// 32-bit slot follows the header and is passed over.
pub open spec fn decode_multi_header(s: Seq<u8>) -> Decoded<MultiHeader> {
    match decode_i32(s) {
        Err(e) => Err(e),
        Ok((opcode, r1)) => match decode_u8(r1) {
            Err(e) => Err(e),
            Ok((done, r2)) => match decode_i32(r2) {
                Err(e) => Err(e),
                Ok((err, r3)) => if done != 0 {
                    Ok((MultiHeader::Done, r3))
                } else if opcode == -1 {
                    match decode_i32(r3) {
                        Err(e) => Err(e),
                        Ok((_, r4)) => Ok((MultiHeader::NextErr(err), r4)),
                    }
                } else {
                    Ok((MultiHeader::NextOk(opcode), r3))
                },
            },
        },
    }
}

/// The decoding `d` with the items `head` put in front of what it gives.
pub open spec fn prepend<M>(head: Seq<M>, d: Decoded<Seq<M>>) -> Decoded<Seq<M>> {
    match d {
        Ok((items, rest)) => Ok((head + items, rest)),
        Err(e) => Err(e),
    }
}

/// `count` records of one kind, one after the other.
pub open spec fn decode_items<T: ReadFrom>(s: Seq<u8>, count: nat) -> Decoded<Seq<T::Model>>
    decreases count,
{
    if count == 0 {
        Ok((Seq::empty(), s))
    } else {
        match T::decode(s) {
            Err(e) => Err(e),
            Ok((first, rest)) => prepend(seq![first], decode_items::<T>(rest, (count - 1) as nat)),
        }
    }
}

/// A run of records never gives back more bytes than it was given.
pub proof fn lemma_items_consume<T: ReadFrom>(s: Seq<u8>, count: nat)
    ensures
        decode_items::<T>(s, count) matches Ok((_, rest)) ==> rest.len() <= s.len(),
    decreases count,
{
    if count > 0 {
        T::lemma_decode_consumes(s);
        match T::decode(s) {
            Ok((_, rest)) => lemma_items_consume::<T>(rest, (count - 1) as nat),
            Err(_) => {},
        }
    }
}

/// A counted sequence: a signed 32-bit count, then that many records in
/// order. A negative count announces none.
pub open spec fn decode_counted<T: ReadFrom>(s: Seq<u8>) -> Decoded<Seq<T::Model>> {
    match decode_i32(s) {
        Err(e) => Err(e),
        Ok((count, rest)) => decode_items::<T>(rest, declared_len(count) as nat),
    }
}

impl ReadFrom for String {
    type Model = Seq<char>;

    open spec fn model(&self) -> Seq<char> {
        self@
    }

    open spec fn decode(s: Seq<u8>) -> Decoded<Seq<char>> {
        decode_string(s)
    }

    fn read_from(read: &mut Reader) -> (r: Result<Self, DecodeError>) {
        read.read_string()
    }

    proof fn lemma_decode_consumes(s: Seq<u8>) {
    }
}

impl<T: ReadFrom> ReadFrom for Vec<T> {
    type Model = Seq<T::Model>;

    open spec fn model(&self) -> Seq<T::Model> {
        self@.map_values(|x: T| x.model())
    }

    open spec fn decode(s: Seq<u8>) -> Decoded<Seq<T::Model>> {
        decode_counted::<T>(s)
    }

    fn read_from(read: &mut Reader) -> (r: Result<Self, DecodeError>) {
        let len: i32 = read.read_i32()?;
        let ghost body = read@;
        let mut items: Vec<T> = Vec::new();
        let mut i: i32 = 0;
        while i < len
            invariant
                0 <= i <= declared_len(len),
                decode_i32(old(read)@) == Ok::<(i32, Seq<u8>), DecodeError>((len, body)),
                body.len() <= old(read)@.len(),
                read@.len() <= body.len(),
                decode_items::<T>(body, declared_len(len) as nat) == prepend(
                    items.model(),
                    decode_items::<T>(read@, (declared_len(len) - i) as nat),
                ),
            decreases len - i,
        {
            let ghost before = read@;
            let ghost done = items.model();
            let item = T::read_from(read)?;
            proof {
                let tail = decode_items::<T>(read@, (declared_len(len) - i - 1) as nat);
                assert(decode_items::<T>(before, (declared_len(len) - i) as nat) == prepend(
                    seq![item.model()],
                    tail,
                ));
                assert(items@.push(item).map_values(|x: T| x.model()) =~= done.push(item.model()));
                match tail {
                    Ok((more, rest)) => {
                        assert(done + (seq![item.model()] + more) =~= done.push(item.model())
                            + more);
                    },
                    Err(_) => {},
                }
            }
            items.push(item);
            i = i + 1;
        }
        proof {
            assert(items.model() + Seq::<T::Model>::empty() =~= items.model());
        }
        Ok(items)
    }

    proof fn lemma_decode_consumes(s: Seq<u8>) {
        match decode_i32(s) {
            Ok((count, rest)) => lemma_items_consume::<T>(rest, declared_len(count) as nat),
            Err(_) => {},
        }
    }
}

impl ReadFrom for Stat {
    type Model = Stat;

    open spec fn model(&self) -> Stat {
        *self
    }

    open spec fn decode(s: Seq<u8>) -> Decoded<Stat> {
        decode_stat(s)
    }

    fn read_from(read: &mut Reader) -> (r: Result<Self, DecodeError>) {
        let ghost s = read@;
        proof {
            assert(s.skip(0) =~= s);
        }
        let czxid = read.read_i64()?;
        let mzxid = read.read_i64()?;
        proof {
            assert(read@ =~= s.skip(16));
        }
        let ctime = read.read_i64()?;
        proof {
            assert(read@ =~= s.skip(24));
        }
        let mtime = read.read_i64()?;
        proof {
            assert(read@ =~= s.skip(32));
        }
        let version = read.read_i32()?;
        proof {
            assert(read@ =~= s.skip(36));
        }
        let cversion = read.read_i32()?;
        proof {
            assert(read@ =~= s.skip(40));
        }
        let aversion = read.read_i32()?;
        proof {
            assert(read@ =~= s.skip(44));
        }
        let ephemeral_owner = read.read_i64()?;
        proof {
            assert(read@ =~= s.skip(52));
        }
        let data_length = read.read_i32()?;
        proof {
            assert(read@ =~= s.skip(56));
        }
        let num_children = read.read_i32()?;
        proof {
            assert(read@ =~= s.skip(60));
        }
        let pzxid = read.read_i64()?;
        proof {
            assert(read@ =~= s.skip(68));
        }
        Ok(
            Stat {
                czxid,
                mzxid,
                ctime,
                mtime,
                version,
                cversion,
                aversion,
                ephemeral_owner,
                data_length,
                num_children,
                pzxid,
            },
        )
    }

    proof fn lemma_decode_consumes(s: Seq<u8>) {
    }
}

impl ReadFrom for Permission {
    type Model = u32;

    open spec fn model(&self) -> u32 {
        self.raw()
    }

    open spec fn decode(s: Seq<u8>) -> Decoded<u32> {
        decode_u32(s)
    }

    fn read_from(read: &mut Reader) -> (r: Result<Self, DecodeError>) {
        Ok(Permission::from_raw(read.read_u32()?))
    }

    proof fn lemma_decode_consumes(s: Seq<u8>) {
    }
}

impl ReadFrom for Acl {
    type Model = AclModel;

    open spec fn model(&self) -> AclModel {
        Acl::model(self)
    }

    open spec fn decode(s: Seq<u8>) -> Decoded<AclModel> {
        decode_acl(s)
    }

    fn read_from(read: &mut Reader) -> (r: Result<Self, DecodeError>) {
        let perms = Permission::read_from(read)?;
        let scheme = read.read_string()?;
        let id = read.read_string()?;
        Ok(Acl { perms, scheme, id })
    }

    proof fn lemma_decode_consumes(s: Seq<u8>) {
    }
}

impl ReadFrom for WatchedEvent {
    type Model = WatchedEventModel;

    open spec fn model(&self) -> WatchedEventModel {
        WatchedEvent::model(self)
    }

    open spec fn decode(s: Seq<u8>) -> Decoded<WatchedEventModel> {
        decode_watched_event(s)
    }

    fn read_from(read: &mut Reader) -> (r: Result<Self, DecodeError>) {
        let kind = read.read_i32()?;
        let state = read.read_i32()?;
        let path = read.read_string()?;
        match (WatchedEventType::from_code(kind), KeeperState::from_code(state)) {
            (Some(event_type), Some(keeper_state)) => Ok(
                WatchedEvent { event_type, keeper_state, path },
            ),
            _ => Err(DecodeError::InvalidValue),
        }
    }

    proof fn lemma_decode_consumes(s: Seq<u8>) {
    }
}

impl ReadFrom for MultiHeader {
    type Model = MultiHeader;

    open spec fn model(&self) -> MultiHeader {
        *self
    }

    open spec fn decode(s: Seq<u8>) -> Decoded<MultiHeader> {
        decode_multi_header(s)
    }

    fn read_from(read: &mut Reader) -> (r: Result<Self, DecodeError>) {
        let opcode = read.read_i32()?;
        let done = read.read_u8()? != 0;
        let err = read.read_i32()?;
        if done {
            Ok(MultiHeader::Done)
        } else if opcode == -1 {
            let _ = read.read_i32()?;
            Ok(MultiHeader::NextErr(err))
        } else {
            Ok(MultiHeader::NextOk(opcode))
        }
    }

    proof fn lemma_decode_consumes(s: Seq<u8>) {
    }
}

/// A decoded response.
#[derive(PartialEq, Eq, Debug)]
pub enum Response {
    /// The reply to the session handshake.
    Connect {
        protocol_version: i32,
        timeout: i32,
        session_id: i64,
        password: Vec<u8>,
        read_only: bool,
    },
    /// A node's metadata.
    Stat(Stat),
    /// A node's data and metadata.
    GetData { bytes: Vec<u8>, stat: Stat },
    /// A node's access-control list and metadata.
    GetAcl { acl: Vec<Acl>, stat: Stat },
    /// An acknowledgement without payload.
    Empty,
    /// A list of names.
    Strings(Vec<String>),
    /// A path.
    String(String),
    /// The outcomes of the operations of a batch, in the order in which they
    /// were read: a response, or the error code of a failed operation.
    Multi(Vec<Result<Response, i32>>),
}

/// What a response holds, as mathematical values.
pub ghost enum ResponseModel {
    Connect {
        protocol_version: i32,
        timeout: i32,
        session_id: i64,
        password: Seq<u8>,
        read_only: bool,
    },
    Stat(Stat),
    GetData { bytes: Seq<u8>, stat: Stat },
    GetAcl { acl: Seq<AclModel>, stat: Stat },
    Empty,
    Strings(Seq<Seq<char>>),
    String(Seq<char>),
    Multi(Seq<Result<ResponseModel, i32>>),
}

/// What the outcomes of a batch hold, entry by entry.
pub open spec fn entries_model(entries: Seq<Result<Response, i32>>) -> Seq<
    Result<ResponseModel, i32>,
>
    decreases entries,
{
    if entries.len() == 0 {
        Seq::empty()
    } else {
        entries_model(entries.drop_last()).push(
            entry_model(entries.last()),
        )
    }
}

/// The reply to the session handshake: protocol version, timeout, session
/// id, password and the read-only flag.
pub open spec fn decode_connect(s: Seq<u8>) -> Decoded<ResponseModel> {
    match decode_i32(s) {
        Err(e) => Err(e),
        Ok((protocol_version, r1)) => match decode_i32(r1) {
            Err(e) => Err(e),
            Ok((timeout, r2)) => match decode_i64(r2) {
                Err(e) => Err(e),
                Ok((session_id, r3)) => match decode_buffer(r3) {
                    Err(e) => Err(e),
                    Ok((password, r4)) => match decode_bool(r4) {
                        Err(e) => Err(e),
                        Ok((read_only, r5)) => Ok(
                            (
                                ResponseModel::Connect {
                                    protocol_version,
                                    timeout,
                                    session_id,
                                    password,
                                    read_only,
                                },
                                r5,
                            ),
                        ),
                    },
                },
            },
        },
    }
}

/// A bare node metadata record.
pub open spec fn decode_stat_reply(s: Seq<u8>) -> Decoded<ResponseModel> {
    match decode_stat(s) {
        Err(e) => Err(e),
        Ok((stat, rest)) => Ok((ResponseModel::Stat(stat), rest)),
    }
}

/// A blob of data, then a node metadata record.
pub open spec fn decode_get_data(s: Seq<u8>) -> Decoded<ResponseModel> {
    match decode_buffer(s) {
        Err(e) => Err(e),
        Ok((bytes, r1)) => match decode_stat(r1) {
            Err(e) => Err(e),
            Ok((stat, r2)) => Ok((ResponseModel::GetData { bytes, stat }, r2)),
        },
    }
}

/// A counted sequence of access-control entries, then a node metadata record.
pub open spec fn decode_get_acl(s: Seq<u8>) -> Decoded<ResponseModel> {
    match decode_counted::<Acl>(s) {
        Err(e) => Err(e),
        Ok((acl, r1)) => match decode_stat(r1) {
            Err(e) => Err(e),
            Ok((stat, r2)) => Ok((ResponseModel::GetAcl { acl, stat }, r2)),
        },
    }
}

/// A counted sequence of strings.
pub open spec fn decode_strings(s: Seq<u8>) -> Decoded<ResponseModel> {
    match decode_counted::<String>(s) {
        Err(e) => Err(e),
        Ok((names, rest)) => Ok((ResponseModel::Strings(names), rest)),
    }
}

/// A single string.
pub open spec fn decode_path(s: Seq<u8>) -> Decoded<ResponseModel> {
    match decode_string(s) {
        Err(e) => Err(e),
        Ok((path, rest)) => Ok((ResponseModel::String(path), rest)),
    }
}

/// The response to the operation `op` that the bytes `s` start with.
///
/// The shape is chosen by `op` alone. An operation without a response shape
/// is a failure.
pub open spec fn decode_response(op: OpCode, s: Seq<u8>) -> Decoded<ResponseModel>
    decreases s.len(), 1int,
{
    match op {
        OpCode::CreateSession => decode_connect(s),
        OpCode::Exists | OpCode::SetData | OpCode::SetACL => decode_stat_reply(s),
        OpCode::GetData => decode_get_data(s),
        OpCode::Delete | OpCode::Check => Ok((ResponseModel::Empty, s)),
        OpCode::GetChildren => decode_strings(s),
        OpCode::Create => decode_path(s),
        OpCode::GetACL => decode_get_acl(s),
        OpCode::Multi => match decode_entries(s) {
            Err(e) => Err(e),
            Ok((entries, rest)) => Ok((ResponseModel::Multi(entries), rest)),
        },
        _ => Err(DecodeError::UnsupportedOpcode),
    }
}

/// The entries of a batch that the bytes `s` start with, up to and including
/// the terminating header.
///
/// A failed entry contributes its error code. A succeeded entry contributes
/// the response that follows its header, in the shape of the operation that
/// the header names; a number that names no operation is a failure. The two
/// comparisons of lengths never fail (a header is never empty, and no
/// response gives back more bytes than it was given): they are what makes
/// the definition well-founded.
pub open spec fn decode_entries(s: Seq<u8>) -> Decoded<Seq<Result<ResponseModel, i32>>>
    decreases s.len(), 0int,
{
    match decode_multi_header(s) {
        Err(e) => Err(e),
        Ok((MultiHeader::Done, rest)) => Ok((Seq::empty(), rest)),
        Ok((MultiHeader::NextErr(code), rest)) => if rest.len() < s.len() {
            prepend(seq![Err(code)], decode_entries(rest))
        } else {
            Err(DecodeError::UnexpectedEof)
        },
        Ok((MultiHeader::NextOk(number), rest)) => match OpCode::of_code(number) {
            None => Err(DecodeError::UnsupportedOpcode),
            Some(op) => if rest.len() < s.len() {
                match decode_response(op, rest) {
                    Err(e) => Err(e),
                    Ok((response, after)) => if after.len() <= rest.len() {
                        prepend(seq![Ok(response)], decode_entries(after))
                    } else {
                        Err(DecodeError::UnexpectedEof)
                    },
                }
            } else {
                Err(DecodeError::UnexpectedEof)
            },
        },
    }
}

/// A header that decodes takes at least nine bytes.
pub proof fn lemma_multi_header_consumes(s: Seq<u8>)
    ensures
        decode_multi_header(s) matches Ok((_, rest)) ==> rest.len() + 9 <= s.len(),
{
}

impl Response {
    /// What this response holds.
    pub open spec fn model(&self) -> ResponseModel
        decreases self,
    {
        match self {
            Response::Connect { protocol_version, timeout, session_id, password, read_only } => {
                ResponseModel::Connect {
                    protocol_version: *protocol_version,
                    timeout: *timeout,
                    session_id: *session_id,
                    password: password@,
                    read_only: *read_only,
                }
            },
            Response::Stat(stat) => ResponseModel::Stat(*stat),
            Response::GetData { bytes, stat } => ResponseModel::GetData {
                bytes: bytes@,
                stat: *stat,
            },
            Response::GetAcl { acl, stat } => ResponseModel::GetAcl {
                acl: acl.model(),
                stat: *stat,
            },
            Response::Empty => ResponseModel::Empty,
            Response::Strings(names) => ResponseModel::Strings(names.model()),
            Response::String(path) => ResponseModel::String(path@),
            Response::Multi(entries) => ResponseModel::Multi(entries_model(entries@)),
        }
    }

    /// Decodes the response to the operation `opcode` from the cursor, and
    /// advances the cursor past it.
    ///
    /// The result is exactly what [`decode_response`] gives for the bytes that
    /// the cursor held: on success the response and the bytes left, on failure
    /// the same error. No partial result is returned.
    pub fn parse(opcode: OpCode, reader: &mut Reader) -> (r: Result<Response, DecodeError>)
        ensures
            match r {
                Ok(v) => decode_response(opcode, old(reader)@) == Ok::<
                    (ResponseModel, Seq<u8>),
                    DecodeError,
                >((v.model(), final(reader)@)) && final(reader)@.len() <= old(reader)@.len(),
                Err(e) => decode_response(opcode, old(reader)@) == Err::<
                    (ResponseModel, Seq<u8>),
                    DecodeError,
                >(e),
            },
        decreases old(reader)@.len(), 1int,
    {
        match opcode {
            OpCode::CreateSession => Self::parse_connect(reader),
            OpCode::Exists | OpCode::SetData | OpCode::SetACL => {
                Ok(Response::Stat(Stat::read_from(reader)?))
            },
            OpCode::GetData => Self::parse_get_data(reader),
            OpCode::Delete | OpCode::Check => Ok(Response::Empty),
            OpCode::GetChildren => Ok(Response::Strings(Vec::<String>::read_from(reader)?)),
            OpCode::Create => Ok(Response::String(reader.read_string()?)),
            OpCode::GetACL => Self::parse_get_acl(reader),
            OpCode::Multi => Self::parse_multi(reader),
            _ => Err(DecodeError::UnsupportedOpcode),
        }
    }

    /// Decodes the reply to the session handshake.
    fn parse_connect(reader: &mut Reader) -> (r: Result<Response, DecodeError>)
        ensures
            match r {
                Ok(v) => decode_connect(old(reader)@) == Ok::<(ResponseModel, Seq<u8>), DecodeError>(
                    (v.model(), final(reader)@),
                ) && final(reader)@.len() <= old(reader)@.len(),
                Err(e) => decode_connect(old(reader)@) == Err::<
                    (ResponseModel, Seq<u8>),
                    DecodeError,
                >(e),
            },
    {
        let protocol_version = reader.read_i32()?;
        let timeout = reader.read_i32()?;
        let session_id = reader.read_i64()?;
        let password = reader.read_buffer()?;
        let read_only = reader.read_bool()?;
        Ok(Response::Connect { protocol_version, timeout, session_id, password, read_only })
    }

    /// Decodes a node's data and metadata.
    fn parse_get_data(reader: &mut Reader) -> (r: Result<Response, DecodeError>)
        ensures
            match r {
                Ok(v) => decode_get_data(old(reader)@) == Ok::<
                    (ResponseModel, Seq<u8>),
                    DecodeError,
                >((v.model(), final(reader)@)) && final(reader)@.len() <= old(reader)@.len(),
                Err(e) => decode_get_data(old(reader)@) == Err::<
                    (ResponseModel, Seq<u8>),
                    DecodeError,
                >(e),
            },
    {
        let bytes = reader.read_buffer()?;
        let stat = Stat::read_from(reader)?;
        Ok(Response::GetData { bytes, stat })
    }

    /// Decodes a node's access-control list and metadata.
    fn parse_get_acl(reader: &mut Reader) -> (r: Result<Response, DecodeError>)
        ensures
            match r {
                Ok(v) => decode_get_acl(old(reader)@) == Ok::<(ResponseModel, Seq<u8>), DecodeError>(
                    (v.model(), final(reader)@),
                ) && final(reader)@.len() <= old(reader)@.len(),
                Err(e) => decode_get_acl(old(reader)@) == Err::<
                    (ResponseModel, Seq<u8>),
                    DecodeError,
                >(e),
            },
    {
        let acl = Vec::<Acl>::read_from(reader)?;
        let stat = Stat::read_from(reader)?;
        Ok(Response::GetAcl { acl, stat })
    }

    /// Decodes the entries of a batch, one after the other, until the
    /// terminating header.
    fn parse_multi(reader: &mut Reader) -> (r: Result<Response, DecodeError>)
        ensures
            match r {
                Ok(v) => v is Multi && decode_entries(old(reader)@) == Ok::<
                    (Seq<Result<ResponseModel, i32>>, Seq<u8>),
                    DecodeError,
                >((entries_model(v->Multi_0@), final(reader)@)) && final(reader)@.len() <= old(reader)@.len(),
                Err(e) => decode_entries(old(reader)@) == Err::<
                    (Seq<Result<ResponseModel, i32>>, Seq<u8>),
                    DecodeError,
                >(e),
            },
        decreases old(reader)@.len(), 0int,
    {
        let mut responses: Vec<Result<Response, i32>> = Vec::new();
        let mut done = false;
        while !done
            invariant
                reader@.len() <= old(reader)@.len(),
                !done ==> decode_entries(old(reader)@) == prepend(
                    entries_model(responses@),
                    decode_entries(reader@),
                ),
                done ==> decode_entries(old(reader)@) == Ok::<
                    (Seq<Result<ResponseModel, i32>>, Seq<u8>),
                    DecodeError,
                >((entries_model(responses@), reader@)),
            decreases reader@.len() + (if done { 0int } else { 1int }),
        {
            let ghost before = reader@;
            let ghost read_so_far = entries_model(responses@);
            let header = MultiHeader::read_from(reader)?;
            proof {
                lemma_multi_header_consumes(before);
            }
            match header {
                MultiHeader::Done => {
                    proof {
                        assert(read_so_far + Seq::<Result<ResponseModel, i32>>::empty()
                            =~= read_so_far);
                    }
                    done = true;
                },
                MultiHeader::NextErr(code) => {
                    proof {
                        lemma_entries_push(responses@, Err(code), decode_entries(reader@));
                    }
                    responses.push(Err(code));
                },
                MultiHeader::NextOk(number) => {
                    let op = match OpCode::from_code(number) {
                        Some(op) => op,
                        None => {
                            return Err(DecodeError::UnsupportedOpcode);
                        },
                    };
                    let response = Response::parse(op, reader)?;
                    proof {
                        lemma_entries_push(responses@, Ok(response), decode_entries(reader@));
                    }
                    responses.push(Ok(response));
                },
            }
        }
        Ok(Response::Multi(responses))
    }
}

/// What one outcome of a batch holds.
pub open spec fn entry_model(entry: Result<Response, i32>) -> Result<ResponseModel, i32>
    decreases entry,
{
    match entry {
        Ok(response) => Ok(response.model()),
        Err(code) => Err(code),
    }
}

/// Putting one more outcome behind those read so far is putting it in front
/// of those still to come.
proof fn lemma_entries_push(
    read: Seq<Result<Response, i32>>,
    entry: Result<Response, i32>,
    rest: Decoded<Seq<Result<ResponseModel, i32>>>,
)
    ensures
        entries_model(read.push(entry)) == entries_model(read).push(entry_model(entry)),
        prepend(entries_model(read), prepend(seq![entry_model(entry)], rest)) == prepend(
            entries_model(read.push(entry)),
            rest,
        ),
{
    assert(read.push(entry).drop_last() =~= read);
    match rest {
        Ok((more, _)) => {
            assert(entries_model(read) + (seq![entry_model(entry)] + more) =~= entries_model(
                read,
            ).push(entry_model(entry)) + more);
        },
        Err(_) => {},
    }
}

} // verus!
