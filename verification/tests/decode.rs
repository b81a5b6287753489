use zk_response::{
    Acl, BufferReader, DecodeError, KeeperState, MultiHeader, OpCode, Permission, ReadFrom, Reader,
    Response, Stat, WatchedEvent, WatchedEventType,
};

fn put_i32(out: &mut Vec<u8>, v: i32) {
    out.extend_from_slice(&v.to_be_bytes());
}

fn put_i64(out: &mut Vec<u8>, v: i64) {
    out.extend_from_slice(&v.to_be_bytes());
}

fn put_blob(out: &mut Vec<u8>, bytes: &[u8]) {
    put_i32(out, bytes.len() as i32);
    out.extend_from_slice(bytes);
}

fn put_stat(out: &mut Vec<u8>, s: &Stat) {
    put_i64(out, s.czxid);
    put_i64(out, s.mzxid);
    put_i64(out, s.ctime);
    put_i64(out, s.mtime);
    put_i32(out, s.version);
    put_i32(out, s.cversion);
    put_i32(out, s.aversion);
    put_i64(out, s.ephemeral_owner);
    put_i32(out, s.data_length);
    put_i32(out, s.num_children);
    put_i64(out, s.pzxid);
}

fn put_header(out: &mut Vec<u8>, opcode: i32, done: u8, err: i32) {
    put_i32(out, opcode);
    out.push(done);
    put_i32(out, err);
}

fn sample_stat() -> Stat {
    Stat {
        czxid: 0x0102_0304_0506_0708,
        mzxid: -2,
        ctime: 1_600_000_000_123,
        mtime: i64::MIN,
        version: 7,
        cversion: -1,
        aversion: i32::MAX,
        ephemeral_owner: i64::MAX,
        data_length: i32::MIN,
        num_children: 3,
        pzxid: 0,
    }
}

#[test]
fn stat_round_trips_field_for_field() {
    let stat = sample_stat();
    let mut bytes = Vec::new();
    put_stat(&mut bytes, &stat);
    assert_eq!(bytes.len(), 68);
    bytes.push(0xAA);
    let mut reader = Reader::new(&bytes);
    assert_eq!(Stat::read_from(&mut reader), Ok(stat));
    assert_eq!(reader.remaining(), 1);
}

#[test]
fn stat_of_known_bytes() {
    let mut bytes = vec![0u8; 68];
    bytes[7] = 1;
    bytes[14] = 1;
    bytes[35] = 9;
    bytes[60] = 0xFF;
    let mut reader = Reader::new(&bytes);
    let stat = Stat::read_from(&mut reader).unwrap();
    assert_eq!(stat.czxid, 1);
    assert_eq!(stat.mzxid, 256);
    assert_eq!(stat.version, 9);
    assert_eq!(stat.pzxid, -72057594037927936);
    assert_eq!(stat.ctime, 0);
    assert_eq!(reader.remaining(), 0);
}

#[test]
fn stat_truncated_is_eof() {
    let stat = sample_stat();
    let mut bytes = Vec::new();
    put_stat(&mut bytes, &stat);
    bytes.pop();
    let mut reader = Reader::new(&bytes);
    assert_eq!(Stat::read_from(&mut reader), Err(DecodeError::UnexpectedEof));
}

#[test]
fn integers_are_big_endian() {
    let bytes = [0x00, 0x00, 0x01, 0x02, 0xFF, 0xFF, 0xFF, 0xFE, 0x80, 0, 0, 0, 0, 0, 0, 1, 5];
    let mut reader = Reader::new(&bytes);
    assert_eq!(reader.read_i32(), Ok(258));
    assert_eq!(reader.read_u32(), Ok(4294967294));
    assert_eq!(reader.read_i64(), Ok(i64::MIN + 1));
    assert_eq!(reader.read_u8(), Ok(5));
    assert_eq!(reader.read_u8(), Err(DecodeError::UnexpectedEof));
}

#[test]
fn negative_i32_is_twos_complement() {
    let bytes = [0xFF, 0xFF, 0xFF, 0xFB];
    let mut reader = Reader::new(&bytes);
    assert_eq!(reader.read_i32(), Ok(-5));
    assert_eq!(reader.remaining(), 0);
}

#[test]
fn short_integer_is_eof() {
    let bytes = [1, 2, 3];
    assert_eq!(Reader::new(&bytes).read_i32(), Err(DecodeError::UnexpectedEof));
    assert_eq!(Reader::new(&bytes).read_u32(), Err(DecodeError::UnexpectedEof));
    assert_eq!(Reader::new(&bytes).read_i64(), Err(DecodeError::UnexpectedEof));
}

#[test]
fn any_nonzero_byte_is_true() {
    let bytes = [0, 1, 0x80];
    let mut reader = Reader::new(&bytes);
    assert_eq!(reader.read_bool(), Ok(false));
    assert_eq!(reader.read_bool(), Ok(true));
    assert_eq!(reader.read_bool(), Ok(true));
    assert_eq!(reader.read_bool(), Err(DecodeError::UnexpectedEof));
}

#[test]
fn read_buffer_negative_length_is_empty() {
    let mut bytes = Vec::new();
    put_i32(&mut bytes, -5);
    bytes.extend_from_slice(&[1, 2, 3]);
    let mut reader = Reader::new(&bytes);
    assert_eq!(reader.read_buffer(), Ok(Vec::new()));
    assert_eq!(reader.remaining(), 3);
}

#[test]
fn read_buffer_too_long_fails() {
    let mut bytes = Vec::new();
    put_i32(&mut bytes, 4);
    bytes.extend_from_slice(&[1, 2, 3]);
    let mut reader = Reader::new(&bytes);
    assert_eq!(reader.read_buffer(), Err(DecodeError::IncompleteBuffer));
}

#[test]
fn read_buffer_exact() {
    let mut bytes = Vec::new();
    put_blob(&mut bytes, &[9, 8, 7]);
    bytes.push(6);
    let mut reader = Reader::new(&bytes);
    assert_eq!(reader.read_buffer(), Ok(vec![9, 8, 7]));
    assert_eq!(reader.remaining(), 1);
}

#[test]
fn read_buffer_without_length_is_eof() {
    let bytes = [0, 0];
    assert_eq!(Reader::new(&bytes).read_buffer(), Err(DecodeError::UnexpectedEof));
}

#[test]
fn read_string_decodes_utf8() {
    let mut bytes = Vec::new();
    put_blob(&mut bytes, "h\u{e9}llo \u{1F600}".as_bytes());
    let mut reader = Reader::new(&bytes);
    assert_eq!(reader.read_string(), Ok(String::from("h\u{e9}llo \u{1F600}")));
    assert_eq!(reader.remaining(), 0);
}

#[test]
fn read_string_invalid_utf8_is_an_error() {
    let mut bytes = Vec::new();
    put_blob(&mut bytes, &[0x66, 0xFF, 0x6F]);
    let mut reader = Reader::new(&bytes);
    assert_eq!(reader.read_string(), Err(DecodeError::InvalidUtf8));
}

#[test]
fn multi_header_done_flag_wins() {
    let mut bytes = Vec::new();
    put_header(&mut bytes, -1, 1, -101);
    put_header(&mut bytes, 1, 0xFF, 0);
    let mut reader = Reader::new(&bytes);
    assert_eq!(MultiHeader::read_from(&mut reader), Ok(MultiHeader::Done));
    assert_eq!(reader.remaining(), 9);
    assert_eq!(MultiHeader::read_from(&mut reader), Ok(MultiHeader::Done));
    assert_eq!(reader.remaining(), 0);
}

#[test]
fn multi_header_failed_entry_consumes_padding() {
    let mut bytes = Vec::new();
    put_header(&mut bytes, -1, 0, -103);
    put_i32(&mut bytes, 0x7777_7777);
    put_header(&mut bytes, 5, 0, 0);
    let mut reader = Reader::new(&bytes);
    assert_eq!(MultiHeader::read_from(&mut reader), Ok(MultiHeader::NextErr(-103)));
    assert_eq!(reader.remaining(), 9);
    assert_eq!(MultiHeader::read_from(&mut reader), Ok(MultiHeader::NextOk(5)));
    assert_eq!(reader.remaining(), 0);
}

#[test]
fn multi_header_failed_entry_without_padding_is_eof() {
    let mut bytes = Vec::new();
    put_header(&mut bytes, -1, 0, -103);
    bytes.extend_from_slice(&[0, 0]);
    let mut reader = Reader::new(&bytes);
    assert_eq!(MultiHeader::read_from(&mut reader), Err(DecodeError::UnexpectedEof));
}

#[test]
fn batch_keeps_read_order() {
    let stat = sample_stat();
    let mut bytes = Vec::new();
    put_header(&mut bytes, 1, 0, 0);
    put_blob(&mut bytes, b"/first");
    put_header(&mut bytes, -1, 0, -110);
    put_i32(&mut bytes, -110);
    put_header(&mut bytes, 5, 0, 0);
    put_stat(&mut bytes, &stat);
    put_header(&mut bytes, -1, 1, -1);
    let mut reader = Reader::new(&bytes);
    let got = Response::parse(OpCode::Multi, &mut reader);
    assert_eq!(
        got,
        Ok(Response::Multi(vec![
            Ok(Response::String(String::from("/first"))),
            Err(-110),
            Ok(Response::Stat(stat)),
        ]))
    );
    assert_eq!(reader.remaining(), 0);
}

#[test]
fn batch_entries_reinterpret_as_rolled_back_and_skipped() {
    let mut bytes = Vec::new();
    put_header(&mut bytes, 2, 0, 0);
    put_header(&mut bytes, -1, 0, -101);
    put_i32(&mut bytes, 0);
    put_header(&mut bytes, 13, 0, 0);
    put_header(&mut bytes, -1, 1, 0);
    let mut reader = Reader::new(&bytes);
    let entries = match Response::parse(OpCode::Multi, &mut reader) {
        Ok(Response::Multi(entries)) => entries,
        other => panic!("not a batch: {:?}", other),
    };
    assert_eq!(entries, vec![Ok(Response::Empty), Err(-101), Ok(Response::Empty)]);
    let failed = entries.iter().position(|e| e.is_err()).unwrap();
    let seen: Vec<zk_response::Multi> = entries
        .iter()
        .enumerate()
        .map(|(i, _)| {
            if i < failed {
                zk_response::Multi::RolledBack
            } else if i == failed {
                zk_response::Multi::from(zk_response::Delete::NoNode)
            } else {
                zk_response::Multi::Skipped
            }
        })
        .collect();
    assert_eq!(
        seen,
        vec![
            zk_response::Multi::RolledBack,
            zk_response::Multi::Delete(zk_response::Delete::NoNode),
            zk_response::Multi::Skipped,
        ]
    );
}

#[test]
fn empty_batch() {
    let mut bytes = Vec::new();
    put_header(&mut bytes, 0, 1, 0);
    let mut reader = Reader::new(&bytes);
    assert_eq!(Response::parse(OpCode::Multi, &mut reader), Ok(Response::Multi(Vec::new())));
    assert_eq!(reader.remaining(), 0);
}

#[test]
fn batch_without_terminator_is_eof() {
    let mut bytes = Vec::new();
    put_header(&mut bytes, 2, 0, 0);
    let mut reader = Reader::new(&bytes);
    assert_eq!(Response::parse(OpCode::Multi, &mut reader), Err(DecodeError::UnexpectedEof));
}

#[test]
fn batch_with_unknown_operation_number_fails() {
    let mut bytes = Vec::new();
    put_header(&mut bytes, 77, 0, 0);
    put_header(&mut bytes, -1, 1, 0);
    let mut reader = Reader::new(&bytes);
    assert_eq!(Response::parse(OpCode::Multi, &mut reader), Err(DecodeError::UnsupportedOpcode));
}

#[test]
fn batch_with_shapeless_operation_fails() {
    let mut bytes = Vec::new();
    put_header(&mut bytes, 11, 0, 0);
    put_header(&mut bytes, -1, 1, 0);
    let mut reader = Reader::new(&bytes);
    assert_eq!(Response::parse(OpCode::Multi, &mut reader), Err(DecodeError::UnsupportedOpcode));
}

#[test]
fn nested_batch_is_decoded_in_place() {
    let mut bytes = Vec::new();
    put_header(&mut bytes, 14, 0, 0);
    put_header(&mut bytes, 2, 0, 0);
    put_header(&mut bytes, -1, 1, 0);
    put_header(&mut bytes, -1, 1, 0);
    let mut reader = Reader::new(&bytes);
    assert_eq!(
        Response::parse(OpCode::Multi, &mut reader),
        Ok(Response::Multi(vec![Ok(Response::Multi(vec![Ok(Response::Empty)]))]))
    );
    assert_eq!(reader.remaining(), 0);
}

#[test]
fn create_response_is_exactly_the_path() {
    let mut bytes = Vec::new();
    put_blob(&mut bytes, b"/a/b");
    let mut reader = Reader::new(&bytes);
    assert_eq!(
        Response::parse(OpCode::Create, &mut reader),
        Ok(Response::String(String::from("/a/b")))
    );
    assert_eq!(reader.remaining(), 0);
}

#[test]
fn unsupported_opcode_is_a_decode_error() {
    let bytes = [0u8; 80];
    for op in [
        OpCode::Notification,
        OpCode::Synchronize,
        OpCode::Ping,
        OpCode::GetChildren2,
        OpCode::Auth,
        OpCode::SetWatches,
        OpCode::Sasl,
        OpCode::CloseSession,
        OpCode::Error,
    ] {
        let mut reader = Reader::new(&bytes);
        assert_eq!(Response::parse(op, &mut reader), Err(DecodeError::UnsupportedOpcode));
    }
}

#[test]
fn connect_response() {
    let mut bytes = Vec::new();
    put_i32(&mut bytes, 0);
    put_i32(&mut bytes, 30000);
    put_i64(&mut bytes, 0x1122_3344_5566_7788);
    put_blob(&mut bytes, &[1, 2, 3, 4]);
    bytes.push(2);
    let mut reader = Reader::new(&bytes);
    assert_eq!(
        Response::parse(OpCode::CreateSession, &mut reader),
        Ok(Response::Connect {
            protocol_version: 0,
            timeout: 30000,
            session_id: 0x1122_3344_5566_7788,
            password: vec![1, 2, 3, 4],
            read_only: true,
        })
    );
    assert_eq!(reader.remaining(), 0);
}

#[test]
fn connect_response_without_flag_is_eof() {
    let mut bytes = Vec::new();
    put_i32(&mut bytes, 0);
    put_i32(&mut bytes, 30000);
    put_i64(&mut bytes, 1);
    put_blob(&mut bytes, &[]);
    let mut reader = Reader::new(&bytes);
    assert_eq!(Response::parse(OpCode::CreateSession, &mut reader), Err(DecodeError::UnexpectedEof));
}

#[test]
fn stat_responses() {
    let stat = sample_stat();
    let mut bytes = Vec::new();
    put_stat(&mut bytes, &stat);
    for op in [OpCode::Exists, OpCode::SetData, OpCode::SetACL] {
        let mut reader = Reader::new(&bytes);
        assert_eq!(Response::parse(op, &mut reader), Ok(Response::Stat(stat)));
        assert_eq!(reader.remaining(), 0);
    }
}

#[test]
fn get_data_response() {
    let stat = sample_stat();
    let mut bytes = Vec::new();
    put_blob(&mut bytes, b"payload");
    put_stat(&mut bytes, &stat);
    let mut reader = Reader::new(&bytes);
    assert_eq!(
        Response::parse(OpCode::GetData, &mut reader),
        Ok(Response::GetData { bytes: b"payload".to_vec(), stat })
    );
    assert_eq!(reader.remaining(), 0);
}

#[test]
fn empty_acknowledgements_read_nothing() {
    let bytes = [1u8, 2, 3];
    for op in [OpCode::Delete, OpCode::Check] {
        let mut reader = Reader::new(&bytes);
        assert_eq!(Response::parse(op, &mut reader), Ok(Response::Empty));
        assert_eq!(reader.remaining(), 3);
    }
}

#[test]
fn children_response_keeps_order() {
    let mut bytes = Vec::new();
    put_i32(&mut bytes, 3);
    put_blob(&mut bytes, b"b");
    put_blob(&mut bytes, b"a");
    put_blob(&mut bytes, b"");
    let mut reader = Reader::new(&bytes);
    assert_eq!(
        Response::parse(OpCode::GetChildren, &mut reader),
        Ok(Response::Strings(vec![String::from("b"), String::from("a"), String::new()]))
    );
    assert_eq!(reader.remaining(), 0);
}

#[test]
fn negative_count_is_an_empty_sequence() {
    let mut bytes = Vec::new();
    put_i32(&mut bytes, -3);
    bytes.push(1);
    let mut reader = Reader::new(&bytes);
    assert_eq!(Vec::<String>::read_from(&mut reader), Ok(Vec::new()));
    assert_eq!(reader.remaining(), 1);
}

#[test]
fn count_beyond_the_input_fails() {
    let mut bytes = Vec::new();
    put_i32(&mut bytes, 2);
    put_blob(&mut bytes, b"only");
    let mut reader = Reader::new(&bytes);
    assert_eq!(Vec::<String>::read_from(&mut reader), Err(DecodeError::UnexpectedEof));
}

#[test]
fn get_acl_response() {
    let stat = sample_stat();
    let mut bytes = Vec::new();
    put_i32(&mut bytes, 2);
    bytes.extend_from_slice(&31u32.to_be_bytes());
    put_blob(&mut bytes, b"world");
    put_blob(&mut bytes, b"anyone");
    bytes.extend_from_slice(&0x8000_0001u32.to_be_bytes());
    put_blob(&mut bytes, b"digest");
    put_blob(&mut bytes, b"u:p");
    put_stat(&mut bytes, &stat);
    let mut reader = Reader::new(&bytes);
    assert_eq!(
        Response::parse(OpCode::GetACL, &mut reader),
        Ok(Response::GetAcl {
            acl: vec![
                Acl {
                    perms: Permission::from_raw(31),
                    scheme: String::from("world"),
                    id: String::from("anyone"),
                },
                Acl {
                    perms: Permission::from_raw(0x8000_0001),
                    scheme: String::from("digest"),
                    id: String::from("u:p"),
                },
            ],
            stat,
        })
    );
    assert_eq!(reader.remaining(), 0);
}

#[test]
fn permission_keeps_raw_bits() {
    let bytes = [0xDE, 0xAD, 0xBE, 0xEF];
    let mut reader = Reader::new(&bytes);
    let p = Permission::read_from(&mut reader).unwrap();
    assert_eq!(p.bits(), 0xDEAD_BEEF);
    assert_eq!(p, Permission::from_raw(0xDEAD_BEEF));
}

#[test]
fn watched_event_decodes() {
    let mut bytes = Vec::new();
    put_i32(&mut bytes, 3);
    put_i32(&mut bytes, -112);
    put_blob(&mut bytes, b"/watched");
    let mut reader = Reader::new(&bytes);
    assert_eq!(
        WatchedEvent::read_from(&mut reader),
        Ok(WatchedEvent {
            event_type: WatchedEventType::NodeDataChanged,
            keeper_state: KeeperState::Expired,
            path: String::from("/watched"),
        })
    );
    assert_eq!(reader.remaining(), 0);
}

#[test]
fn watched_event_with_unknown_number_fails() {
    let mut bytes = Vec::new();
    put_i32(&mut bytes, 42);
    put_i32(&mut bytes, 3);
    put_blob(&mut bytes, b"/x");
    let mut reader = Reader::new(&bytes);
    assert_eq!(WatchedEvent::read_from(&mut reader), Err(DecodeError::InvalidValue));
    let mut bytes = Vec::new();
    put_i32(&mut bytes, 1);
    put_i32(&mut bytes, 1);
    put_blob(&mut bytes, b"/x");
    let mut reader = Reader::new(&bytes);
    assert_eq!(WatchedEvent::read_from(&mut reader), Err(DecodeError::InvalidValue));
}

#[test]
fn watched_event_truncation_comes_before_lookup() {
    let mut bytes = Vec::new();
    put_i32(&mut bytes, 42);
    put_i32(&mut bytes, 3);
    let mut reader = Reader::new(&bytes);
    assert_eq!(WatchedEvent::read_from(&mut reader), Err(DecodeError::UnexpectedEof));
}

#[test]
fn numbers_of_enumerations() {
    assert_eq!(WatchedEventType::from_code(-1), Some(WatchedEventType::Session));
    assert_eq!(WatchedEventType::from_code(1), Some(WatchedEventType::NodeCreated));
    assert_eq!(WatchedEventType::from_code(2), Some(WatchedEventType::NodeDeleted));
    assert_eq!(WatchedEventType::from_code(4), Some(WatchedEventType::NodeChildrenChanged));
    assert_eq!(WatchedEventType::from_code(5), Some(WatchedEventType::DataWatchRemoved));
    assert_eq!(WatchedEventType::from_code(6), Some(WatchedEventType::ChildWatchRemoved));
    assert_eq!(WatchedEventType::from_code(0), None);
    assert_eq!(KeeperState::from_code(0), Some(KeeperState::Disconnected));
    assert_eq!(KeeperState::from_code(3), Some(KeeperState::SyncConnected));
    assert_eq!(KeeperState::from_code(4), Some(KeeperState::AuthFailed));
    assert_eq!(KeeperState::from_code(5), Some(KeeperState::ConnectedReadOnly));
    assert_eq!(KeeperState::from_code(6), Some(KeeperState::SaslAuthenticated));
    assert_eq!(KeeperState::from_code(-112), Some(KeeperState::Expired));
    assert_eq!(KeeperState::from_code(1), None);
    assert_eq!(OpCode::from_code(14), Some(OpCode::Multi));
    assert_eq!(OpCode::from_code(-10), Some(OpCode::CreateSession));
    assert_eq!(OpCode::from_code(1), Some(OpCode::Create));
    assert_eq!(OpCode::from_code(10), None);
}
