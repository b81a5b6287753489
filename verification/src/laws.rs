//! Laws of the wire format, proved from the mathematical decoders.

use crate::error::{Check, Create, Delete, Multi, SetData};
use crate::response::{
    decode_connect, decode_entries, decode_get_acl, decode_get_data, decode_multi_header,
    decode_path, decode_stat_reply, decode_strings, decode_response, decode_stat, entries_model,
    entry_model, i32_at, i64_at, lemma_multi_header_consumes, prepend, MultiHeader, ReadFrom,
    Response, ResponseModel,
};
use crate::types::{Acl, OpCode, Stat};
use crate::wire::{be_u32_value, decode_buffer, declared_len, signed32, DecodeError};
use vstd::prelude::*;
use vstd::std_specs::convert::FromSpec;

verus! {

/// The four bytes that spell the 32-bit pattern `u`, most significant first.
pub open spec fn encode_u32(u: int) -> Seq<u8>
    recommends
        0 <= u < 0x1_0000_0000,
{
    seq![
        (u / 0x100_0000) as u8,
        (u / 0x1_0000 % 0x100) as u8,
        (u / 0x100 % 0x100) as u8,
        (u % 0x100) as u8,
    ]
}

/// The wire form of a signed 32-bit integer.
pub open spec fn encode_i32(v: i32) -> Seq<u8> {
    encode_u32(
        if v < 0 {
            v + 0x1_0000_0000
        } else {
            v as int
        },
    )
}

/// The wire form of a signed 64-bit integer.
pub open spec fn encode_i64(v: i64) -> Seq<u8> {
    let u = if v < 0 {
        v + 0x1_0000_0000_0000_0000
    } else {
        v as int
    };
    encode_u32(u / 0x1_0000_0000) + encode_u32(u % 0x1_0000_0000)
}

/// The wire form of a node metadata record: its eleven fields in order.
pub open spec fn encode_stat(stat: Stat) -> Seq<u8> {
    encode_i64(stat.czxid) + encode_i64(stat.mzxid) + encode_i64(stat.ctime) + encode_i64(
        stat.mtime,
    ) + encode_i32(stat.version) + encode_i32(stat.cversion) + encode_i32(stat.aversion)
        + encode_i64(stat.ephemeral_owner) + encode_i32(stat.data_length) + encode_i32(
        stat.num_children,
    ) + encode_i64(stat.pzxid)
}

/// A 32-bit pattern is read back from the four bytes that spell it.
proof fn lemma_u32_round_trip(s: Seq<u8>, u: int)
    requires
        0 <= u < 0x1_0000_0000,
        s.len() >= 4,
        s[0] == (u / 0x100_0000) as u8,
        s[1] == (u / 0x1_0000 % 0x100) as u8,
        s[2] == (u / 0x100 % 0x100) as u8,
        s[3] == (u % 0x100) as u8,
    ensures
        be_u32_value(s) == u,
{
    let b0 = u / 0x100_0000;
    let b1 = u / 0x1_0000 % 0x100;
    let b2 = u / 0x100 % 0x100;
    let b3 = u % 0x100;
    assert(0 <= b0 < 0x100 && 0 <= b1 < 0x100 && 0 <= b2 < 0x100 && 0 <= b3 < 0x100);
    assert(u == b0 * 0x100_0000 + b1 * 0x1_0000 + b2 * 0x100 + b3);
}

/// A signed 32-bit integer is read back from its wire form, wherever that
/// form stands in a buffer.
pub proof fn lemma_i32_round_trip(s: Seq<u8>, at: int, v: i32)
    requires
        0 <= at,
        at + 4 <= s.len(),
        s.subrange(at, at + 4) == encode_i32(v),
    ensures
        i32_at(s, at) == v,
{
    let u = if v < 0 {
        v + 0x1_0000_0000
    } else {
        v as int
    };
    let e = encode_u32(u);
    assert forall|i: int| 0 <= i < 4 implies s.skip(at)[i] == e[i] by {
        assert(s.subrange(at, at + 4)[i] == s[at + i]);
    }
    lemma_u32_round_trip(s.skip(at), u);
}

/// A signed 64-bit integer is read back from its wire form, wherever that
/// form stands in a buffer.
pub proof fn lemma_i64_round_trip(s: Seq<u8>, at: int, v: i64)
    requires
        0 <= at,
        at + 8 <= s.len(),
        s.subrange(at, at + 8) == encode_i64(v),
    ensures
        i64_at(s, at) == v,
{
    let u = if v < 0 {
        v + 0x1_0000_0000_0000_0000
    } else {
        v as int
    };
    let hi = u / 0x1_0000_0000;
    let lo = u % 0x1_0000_0000;
    let e = encode_u32(hi) + encode_u32(lo);
    let high = s.skip(at);
    let low = s.skip(at).skip(4);
    assert forall|i: int| 0 <= i < 4 implies high[i] == encode_u32(hi)[i] && low[i] == encode_u32(
        lo,
    )[i] by {
        assert(s.subrange(at, at + 8)[i] == s[at + i]);
        assert(s.subrange(at, at + 8)[4 + i] == s[at + 4 + i]);
        assert(e[i] == encode_u32(hi)[i]);
        assert(e[4 + i] == encode_u32(lo)[i]);
    }
    lemma_u32_round_trip(high, hi);
    lemma_u32_round_trip(low, lo);
}

/// Where the parts of a concatenation stand in it: the second of three parts
/// starts where the first ends.
proof fn lemma_middle_part(before: Seq<u8>, part: Seq<u8>, after: Seq<u8>, all: Seq<u8>)
    requires
        all =~= before + part + after,
    ensures
        all.subrange(before.len() as int, (before.len() + part.len()) as int) == part,
{
    assert(all.subrange(before.len() as int, (before.len() + part.len()) as int) =~= part);
}

/// The wire form of each integer has the integer's width.
proof fn lemma_encoded_widths(a: i32, b: i64)
    ensures
        encode_i32(a).len() == 4,
        encode_i64(b).len() == 8,
{
}

/// The fields of an encoded node metadata record stand at their offsets.
proof fn lemma_stat_layout(stat: Stat, tail: Seq<u8>)
    ensures
        ({
            let s = encode_stat(stat) + tail;
            &&& s.len() == 68 + tail.len()
            &&& s.skip(68) == tail
            &&& s.subrange(0, 8) == encode_i64(stat.czxid)
            &&& s.subrange(8, 16) == encode_i64(stat.mzxid)
            &&& s.subrange(16, 24) == encode_i64(stat.ctime)
            &&& s.subrange(24, 32) == encode_i64(stat.mtime)
            &&& s.subrange(32, 36) == encode_i32(stat.version)
            &&& s.subrange(36, 40) == encode_i32(stat.cversion)
            &&& s.subrange(40, 44) == encode_i32(stat.aversion)
            &&& s.subrange(44, 52) == encode_i64(stat.ephemeral_owner)
            &&& s.subrange(52, 56) == encode_i32(stat.data_length)
            &&& s.subrange(56, 60) == encode_i32(stat.num_children)
            &&& s.subrange(60, 68) == encode_i64(stat.pzxid)
        }),
{
    lemma_encoded_widths(stat.version, stat.czxid);
    lemma_encoded_widths(stat.cversion, stat.mzxid);
    lemma_encoded_widths(stat.aversion, stat.ctime);
    lemma_encoded_widths(stat.data_length, stat.mtime);
    lemma_encoded_widths(stat.num_children, stat.ephemeral_owner);
    lemma_encoded_widths(stat.num_children, stat.pzxid);
    lemma_layout(
        encode_i64(stat.czxid),
        encode_i64(stat.mzxid),
        encode_i64(stat.ctime),
        encode_i64(stat.mtime),
        encode_i32(stat.version),
        encode_i32(stat.cversion),
        encode_i32(stat.aversion),
        encode_i64(stat.ephemeral_owner),
        encode_i32(stat.data_length),
        encode_i32(stat.num_children),
        encode_i64(stat.pzxid),
        tail,
    );
}

/// Where eleven parts of the widths of a node metadata record's fields stand
/// in their concatenation.
proof fn lemma_layout(
    f0: Seq<u8>,
    f1: Seq<u8>,
    f2: Seq<u8>,
    f3: Seq<u8>,
    f4: Seq<u8>,
    f5: Seq<u8>,
    f6: Seq<u8>,
    f7: Seq<u8>,
    f8: Seq<u8>,
    f9: Seq<u8>,
    f10: Seq<u8>,
    tail: Seq<u8>,
)
    requires
        f0.len() == 8,
        f1.len() == 8,
        f2.len() == 8,
        f3.len() == 8,
        f4.len() == 4,
        f5.len() == 4,
        f6.len() == 4,
        f7.len() == 8,
        f8.len() == 4,
        f9.len() == 4,
        f10.len() == 8,
    ensures
        ({
            let s = f0 + f1 + f2 + f3 + f4 + f5 + f6 + f7 + f8 + f9 + f10 + tail;
            &&& s.len() == 68 + tail.len()
            &&& s.skip(68) == tail
            &&& s.subrange(0, 8) == f0
            &&& s.subrange(8, 16) == f1
            &&& s.subrange(16, 24) == f2
            &&& s.subrange(24, 32) == f3
            &&& s.subrange(32, 36) == f4
            &&& s.subrange(36, 40) == f5
            &&& s.subrange(40, 44) == f6
            &&& s.subrange(44, 52) == f7
            &&& s.subrange(52, 56) == f8
            &&& s.subrange(56, 60) == f9
            &&& s.subrange(60, 68) == f10
        }),
{
    let p1 = f0;
    let p2 = p1 + f1;
    let p3 = p2 + f2;
    let p4 = p3 + f3;
    let p5 = p4 + f4;
    let p6 = p5 + f5;
    let p7 = p6 + f6;
    let p8 = p7 + f7;
    let p9 = p8 + f8;
    let p10 = p9 + f9;
    let s = p10 + f10 + tail;
    let t9 = f10 + tail;
    let t8 = f9 + t9;
    let t7 = f8 + t8;
    let t6 = f7 + t7;
    let t5 = f6 + t6;
    let t4 = f5 + t5;
    let t3 = f4 + t4;
    let t2 = f3 + t3;
    let t1 = f2 + t2;
    let t0 = f1 + t1;
    assert(s =~= p9 + f9 + t9);
    assert(s =~= p8 + f8 + t8);
    assert(s =~= p7 + f7 + t7);
    assert(s =~= p6 + f6 + t6);
    assert(s =~= p5 + f5 + t5);
    assert(s =~= p4 + f4 + t4);
    assert(s =~= p3 + f3 + t3);
    assert(s =~= p2 + f2 + t2);
    assert(s =~= p1 + f1 + t1);
    assert(s =~= Seq::<u8>::empty() + f0 + t0);
    lemma_middle_part(Seq::empty(), f0, t0, s);
    lemma_middle_part(p1, f1, t1, s);
    lemma_middle_part(p2, f2, t2, s);
    lemma_middle_part(p3, f3, t3, s);
    lemma_middle_part(p4, f4, t4, s);
    lemma_middle_part(p5, f5, t5, s);
    lemma_middle_part(p6, f6, t6, s);
    lemma_middle_part(p7, f7, t7, s);
    lemma_middle_part(p8, f8, t8, s);
    lemma_middle_part(p9, f9, t9, s);
    lemma_middle_part(p10, f10, tail, s);
    assert(s.skip(68) =~= tail);
}

/// Decoding the wire form of a node metadata record gives the record back,
/// field for field, and leaves exactly what followed it.
pub proof fn lemma_stat_round_trip(stat: Stat, tail: Seq<u8>)
    ensures
        decode_stat(encode_stat(stat) + tail) == Ok::<(Stat, Seq<u8>), DecodeError>((stat, tail)),
{
    let s = encode_stat(stat) + tail;
    lemma_stat_layout(stat, tail);
    lemma_i64_round_trip(s, 0, stat.czxid);
    lemma_i64_round_trip(s, 8, stat.mzxid);
    lemma_i64_round_trip(s, 16, stat.ctime);
    lemma_i64_round_trip(s, 24, stat.mtime);
    lemma_i32_round_trip(s, 32, stat.version);
    lemma_i32_round_trip(s, 36, stat.cversion);
    lemma_i32_round_trip(s, 40, stat.aversion);
    lemma_i64_round_trip(s, 44, stat.ephemeral_owner);
    lemma_i32_round_trip(s, 52, stat.data_length);
    lemma_i32_round_trip(s, 56, stat.num_children);
    lemma_i64_round_trip(s, 60, stat.pzxid);
}

/// A blob with a negative declared length is empty, and only its length
/// prefix is consumed.
pub proof fn lemma_negative_length_is_empty(s: Seq<u8>)
    requires
        s.len() >= 4,
        signed32(be_u32_value(s)) < 0,
    ensures
        decode_buffer(s) == Ok::<(Seq<u8>, Seq<u8>), DecodeError>((Seq::empty(), s.skip(4))),
{
    assert(s.skip(4).take(0) =~= Seq::<u8>::empty());
    assert(s.skip(4).skip(0) =~= s.skip(4));
}

/// A blob is never shorter than declared: either all the declared bytes are
/// there and the blob holds exactly them, or decoding fails.
pub proof fn lemma_buffer_is_whole(s: Seq<u8>)
    requires
        s.len() >= 4,
    ensures
        signed32(be_u32_value(s)) > s.len() - 4 ==> decode_buffer(s) == Err::<
            (Seq<u8>, Seq<u8>),
            DecodeError,
        >(DecodeError::IncompleteBuffer),
        decode_buffer(s) matches Ok((blob, rest)) ==> blob.len() == declared_len(
            signed32(be_u32_value(s)) as i32,
        ) && s.skip(4) == blob + rest,
{
    match decode_buffer(s) {
        Ok((blob, rest)) => {
            assert(s.skip(4) =~= blob + rest);
        },
        Err(_) => {},
    }
}

/// A header whose done flag is not zero ends the batch, whatever its other
/// two fields hold.
pub proof fn lemma_done_flag_wins(s: Seq<u8>)
    requires
        s.len() >= 9,
        s[4] != 0,
    ensures
        decode_multi_header(s) == Ok::<(MultiHeader, Seq<u8>), DecodeError>(
            (MultiHeader::Done, s.skip(9)),
        ),
{
    assert(s.skip(4).skip(1).skip(4) =~= s.skip(9));
}

/// A header with a zero done flag and the operation number -1 announces a
/// failed entry with the header's error code, and takes thirteen bytes: the
/// header and the slot that follows it.
pub proof fn lemma_failed_entry_takes_padding(s: Seq<u8>)
    requires
        s.len() >= 13,
        s[4] == 0,
        i32_at(s, 0) == -1,
    ensures
        decode_multi_header(s) == Ok::<(MultiHeader, Seq<u8>), DecodeError>(
            (MultiHeader::NextErr(i32_at(s, 5)), s.skip(13)),
        ),
{
    assert(s.skip(0) =~= s);
    assert(s.skip(4).skip(1) =~= s.skip(5));
    assert(s.skip(5).skip(4) =~= s.skip(9));
    assert(s.skip(9).skip(4) =~= s.skip(13));
}

/// A header with a zero done flag and another operation number announces a
/// response in that operation's shape, and takes nine bytes.
pub proof fn lemma_succeeded_entry(s: Seq<u8>)
    requires
        s.len() >= 9,
        s[4] == 0,
        i32_at(s, 0) != -1,
    ensures
        decode_multi_header(s) == Ok::<(MultiHeader, Seq<u8>), DecodeError>(
            (MultiHeader::NextOk(i32_at(s, 0)), s.skip(9)),
        ),
{
    assert(s.skip(0) =~= s);
    assert(s.skip(4).skip(1) =~= s.skip(5));
    assert(s.skip(5).skip(4) =~= s.skip(9));
}

/// Lifting an error of one operation into the outcome of a batch entry is
/// wrapping it in the variant of its kind.
pub proof fn lemma_lift_is_wrap(delete: Delete, set_data: SetData, create: Create, check: Check)
    ensures
        <Multi as FromSpec<Delete>>::from_spec(delete) == Multi::Delete(delete),
        <Multi as FromSpec<SetData>>::from_spec(set_data) == Multi::SetData(set_data),
        <Multi as FromSpec<Create>>::from_spec(create) == Multi::Create(create),
        <Multi as FromSpec<Check>>::from_spec(check) == Multi::Check(check),
        <Multi as FromSpec<Delete>>::obeys_from_spec(),
        <Multi as FromSpec<SetData>>::obeys_from_spec(),
        <Multi as FromSpec<Create>>::obeys_from_spec(),
        <Multi as FromSpec<Check>>::obeys_from_spec(),
{
}

/// An operation without a response shape fails to decode, whatever the
/// buffer holds.
pub proof fn lemma_unsupported_opcode_fails(op: OpCode, s: Seq<u8>)
    requires
        !op.supported(),
    ensures
        decode_response(op, s) == Err::<(ResponseModel, Seq<u8>), DecodeError>(
            DecodeError::UnsupportedOpcode,
        ),
{
}

/// The model of a batch's outcomes has one entry for each outcome, in the
/// same order.
pub proof fn lemma_entries_keep_order(entries: Seq<Result<Response, i32>>)
    ensures
        entries_model(entries).len() == entries.len(),
        forall|i: int|
            0 <= i < entries.len() ==> #[trigger] entries_model(entries)[i] == entry_model(
                entries[i],
            ),
    decreases entries.len(),
{
    if entries.len() > 0 {
        lemma_entries_keep_order(entries.drop_last());
    }
}

/// None of the shapes without entries gives back more bytes than it was
/// given.
proof fn lemma_plain_shapes_consume(s: Seq<u8>)
    ensures
        decode_connect(s) matches Ok((_, rest)) ==> rest.len() <= s.len(),
        decode_stat_reply(s) matches Ok((_, rest)) ==> rest.len() <= s.len(),
        decode_get_data(s) matches Ok((_, rest)) ==> rest.len() <= s.len(),
        decode_get_acl(s) matches Ok((_, rest)) ==> rest.len() <= s.len(),
        decode_strings(s) matches Ok((_, rest)) ==> rest.len() <= s.len(),
        decode_path(s) matches Ok((_, rest)) ==> rest.len() <= s.len(),
{
    assert(decode_connect(s) matches Ok((_, rest)) ==> rest.len() <= s.len());
    assert(decode_stat_reply(s) matches Ok((_, rest)) ==> rest.len() <= s.len()) by {
        Stat::lemma_decode_consumes(s);
    }
    assert(decode_get_data(s) matches Ok((_, rest)) ==> rest.len() <= s.len()) by {
        String::lemma_decode_consumes(s);
        match decode_buffer(s) {
            Ok((_, r1)) => Stat::lemma_decode_consumes(r1),
            Err(_) => {},
        }
    }
    assert(decode_get_acl(s) matches Ok((_, rest)) ==> rest.len() <= s.len()) by {
        Vec::<Acl>::lemma_decode_consumes(s);
        match Vec::<Acl>::decode(s) {
            Ok((_, r1)) => Stat::lemma_decode_consumes(r1),
            Err(_) => {},
        }
    }
    assert(decode_strings(s) matches Ok((_, rest)) ==> rest.len() <= s.len()) by {
        Vec::<String>::lemma_decode_consumes(s);
    }
    assert(decode_path(s) matches Ok((_, rest)) ==> rest.len() <= s.len()) by {
        String::lemma_decode_consumes(s);
    }
}

/// No response gives back more bytes than it was given.
pub proof fn lemma_response_consumes(op: OpCode, s: Seq<u8>)
    ensures
        decode_response(op, s) matches Ok((_, rest)) ==> rest.len() <= s.len(),
    decreases s.len(), 1int,
{
    lemma_plain_shapes_consume(s);
    if op == OpCode::Multi {
        lemma_entries_consume(s);
    }
}

/// No batch gives back more bytes than it was given.
pub proof fn lemma_entries_consume(s: Seq<u8>)
    ensures
        decode_entries(s) matches Ok((_, rest)) ==> rest.len() <= s.len(),
    decreases s.len(), 0int,
{
    lemma_multi_header_consumes(s);
    match decode_multi_header(s) {
        Ok((MultiHeader::NextErr(_), rest)) => lemma_entries_consume(rest),
        Ok((MultiHeader::NextOk(number), rest)) => match OpCode::of_code(number) {
            Some(op) => {
                lemma_response_consumes(op, rest);
                match decode_response(op, rest) {
                    Ok((_, after)) => lemma_entries_consume(after),
                    Err(_) => {},
                }
            },
            None => {},
        },
        _ => {},
    }
}

/// What a batch decodes to, entry by entry: the terminating header ends it
/// with nothing more; a failed entry puts its error code in front of the
/// entries that follow; a succeeded entry puts its response in front of the
/// entries that follow that response. The order of the entries is the order
/// in which they are read.
pub proof fn lemma_entries_unfold(s: Seq<u8>)
    ensures
        decode_entries(s) == (match decode_multi_header(s) {
            Err(e) => Err(e),
            Ok((MultiHeader::Done, rest)) => Ok((Seq::empty(), rest)),
            Ok((MultiHeader::NextErr(code), rest)) => prepend(
                seq![Err(code)],
                decode_entries(rest),
            ),
            Ok((MultiHeader::NextOk(number), rest)) => match OpCode::of_code(number) {
                None => Err(DecodeError::UnsupportedOpcode),
                Some(op) => match decode_response(op, rest) {
                    Err(e) => Err(e),
                    Ok((response, after)) => prepend(seq![Ok(response)], decode_entries(after)),
                },
            },
        }),
{
    lemma_multi_header_consumes(s);
    match decode_multi_header(s) {
        Ok((MultiHeader::NextOk(number), rest)) => match OpCode::of_code(number) {
            Some(op) => lemma_response_consumes(op, rest),
            None => {},
        },
        _ => {},
    }
}

} // verus!
