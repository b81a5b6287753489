//! The primitive layer of the wire format: big-endian integers, one-byte
//! flags and length-prefixed blobs and strings, read from a cursor over a
//! byte slice.
//!
//! Each kind of value has a mathematical decoder over `Seq<u8>` that gives
//! either the value together with the bytes left over, or the failure. The
//! executable readers are proved to compute exactly that.

use byteorder::{BigEndian, ByteOrder};
use vstd::prelude::*;
use vstd::slice::{slice_subrange, slice_to_vec};
use vstd::utf8::{decode_utf8, valid_utf8};

verus! {

/// Why a buffer could not be decoded.
#[derive(Clone, Copy, PartialEq, Eq, Debug, Structural)]
pub enum DecodeError {
    /// The input ended inside a fixed-width field.
    UnexpectedEof,
    /// A blob declared more bytes than the input still holds.
    IncompleteBuffer,
    /// A string's bytes are not UTF-8.
    InvalidUtf8,
    /// An enumerated field holds a number outside its enumeration.
    InvalidValue,
    /// The operation code has no response shape.
    UnsupportedOpcode,
}

/// What a mathematical decoder gives: the value and the bytes that follow it,
/// or the failure.
pub type Decoded<M> = Result<(M, Seq<u8>), DecodeError>;

/// The unsigned number that the first four bytes of `s` spell, most
/// significant byte first.
pub open spec fn be_u32_value(s: Seq<u8>) -> int
    recommends
        s.len() >= 4,
{
    s[0] as int * 0x100_0000 + s[1] as int * 0x1_0000 + s[2] as int * 0x100 + s[3] as int
}

/// The unsigned number that the first eight bytes of `s` spell, most
/// significant byte first.
pub open spec fn be_u64_value(s: Seq<u8>) -> int
    recommends
        s.len() >= 8,
{
    be_u32_value(s) * 0x1_0000_0000 + be_u32_value(s.skip(4))
}

/// The two's-complement reading of a 32-bit pattern.
pub open spec fn signed32(u: int) -> int {
    if u >= 0x8000_0000 {
        u - 0x1_0000_0000
    } else {
        u
    }
}

/// The two's-complement reading of a 64-bit pattern.
pub open spec fn signed64(u: int) -> int {
    if u >= 0x8000_0000_0000_0000 {
        u - 0x1_0000_0000_0000_0000
    } else {
        u
    }
}

/// One byte.
pub open spec fn decode_u8(s: Seq<u8>) -> Decoded<u8> {
    if s.len() < 1 {
        Err(DecodeError::UnexpectedEof)
    } else {
        Ok((s[0], s.skip(1)))
    }
}

/// One byte read as a flag: any nonzero byte is `true`.
pub open spec fn decode_bool(s: Seq<u8>) -> Decoded<bool> {
    match decode_u8(s) {
        Ok((b, rest)) => Ok((b != 0, rest)),
        Err(e) => Err(e),
    }
}

/// A big-endian unsigned 32-bit integer.
pub open spec fn decode_u32(s: Seq<u8>) -> Decoded<u32> {
    if s.len() < 4 {
        Err(DecodeError::UnexpectedEof)
    } else {
        Ok((be_u32_value(s) as u32, s.skip(4)))
    }
}

/// A big-endian signed 32-bit integer.
pub open spec fn decode_i32(s: Seq<u8>) -> Decoded<i32> {
    if s.len() < 4 {
        Err(DecodeError::UnexpectedEof)
    } else {
        Ok((signed32(be_u32_value(s)) as i32, s.skip(4)))
    }
}

/// A big-endian signed 64-bit integer.
pub open spec fn decode_i64(s: Seq<u8>) -> Decoded<i64> {
    if s.len() < 8 {
        Err(DecodeError::UnexpectedEof)
    } else {
        Ok((signed64(be_u64_value(s)) as i64, s.skip(8)))
    }
}

/// The number of bytes that a declared length asks for: a negative length
/// asks for none.
pub open spec fn declared_len(n: i32) -> int {
    if n < 0 {
        0
    } else {
        n as int
    }
}

/// A length-prefixed blob: a signed 32-bit length, then that many bytes.
pub open spec fn decode_buffer(s: Seq<u8>) -> Decoded<Seq<u8>> {
    match decode_i32(s) {
        Err(e) => Err(e),
        Ok((n, rest)) => if rest.len() < declared_len(n) {
            Err(DecodeError::IncompleteBuffer)
        } else {
            Ok((rest.take(declared_len(n)), rest.skip(declared_len(n))))
        },
    }
}

/// A length-prefixed string: a blob whose bytes are UTF-8 text.
pub open spec fn decode_string(s: Seq<u8>) -> Decoded<Seq<char>> {
    match decode_buffer(s) {
        Err(e) => Err(e),
        Ok((raw, rest)) => if valid_utf8(raw) {
            Ok((decode_utf8(raw), rest))
        } else {
            Err(DecodeError::InvalidUtf8)
        },
    }
}

/// `byteorder::BigEndian::read_u32`: the first four bytes of `buf` read as an
/// unsigned integer, most significant byte first. It panics on a shorter
/// slice, which the precondition leaves out.
#[verifier::external_body]
fn be_read_u32(buf: &[u8]) -> (r: u32)
    requires
        buf@.len() >= 4,
    ensures
        r as int == be_u32_value(buf@),
{
    BigEndian::read_u32(buf)
}

/// `byteorder::BigEndian::read_i32`: the first four bytes of `buf` read as a
/// two's-complement integer, most significant byte first. It panics on a
/// shorter slice, which the precondition leaves out.
#[verifier::external_body]
fn be_read_i32(buf: &[u8]) -> (r: i32)
    requires
        buf@.len() >= 4,
    ensures
        r as int == signed32(be_u32_value(buf@)),
{
    BigEndian::read_i32(buf)
}

/// `byteorder::BigEndian::read_i64`: the first eight bytes of `buf` read as a
/// two's-complement integer, most significant byte first. It panics on a
/// shorter slice, which the precondition leaves out.
#[verifier::external_body]
fn be_read_i64(buf: &[u8]) -> (r: i64)
    requires
        buf@.len() >= 8,
    ensures
        r as int == signed64(be_u64_value(buf@)),
{
    BigEndian::read_i64(buf)
}

/// `String::from_utf8`: succeeds exactly on well-formed UTF-8, and the string
/// then holds the text that the bytes encode.
#[verifier::external_body]
fn string_from_utf8(raw: Vec<u8>) -> (r: Option<String>)
    ensures
        r.is_some() == valid_utf8(raw@),
        r matches Some(s) ==> s@ == decode_utf8(raw@),
{
    match String::from_utf8(raw) {
        Ok(s) => Some(s),
        Err(_) => None,
    }
}

/// A cursor over the bytes of one response. Its view is what has not been
/// read yet.
pub struct Reader<'a> {
    buf: &'a [u8],
}

impl<'a> View for Reader<'a> {
    type V = Seq<u8>;

    closed spec fn view(&self) -> Seq<u8> {
        self.buf@
    }
}

/// A source of length-prefixed blobs.
pub trait BufferReader {
    /// The bytes not read yet.
    spec fn pending(&self) -> Seq<u8>;

    /// Reads a length-prefixed blob. A negative declared length gives an empty
    /// blob; a declared length beyond the end of the input is a failure, never
    /// a shorter blob.
    fn read_buffer(&mut self) -> (r: Result<Vec<u8>, DecodeError>)
        ensures
            match r {
                Ok(v) => decode_buffer(old(self).pending()) == Ok::<(Seq<u8>, Seq<u8>), DecodeError>(
                    (v@, final(self).pending()),
                ),
                Err(e) => decode_buffer(old(self).pending()) == Err::<(Seq<u8>, Seq<u8>), DecodeError>(
                    e,
                ),
            },
    ;
}

impl<'a> Reader<'a> {
    /// A cursor at the start of `buf`.
    pub fn new(buf: &'a [u8]) -> (r: Self)
        ensures
            r@ == buf@,
    {
        Reader { buf }
    }

    /// The number of bytes not read yet.
    pub fn remaining(&self) -> (n: usize)
        ensures
            n == self@.len(),
    {
        self.buf.len()
    }

    /// Splits off the next `n` bytes, or leaves the cursor alone where fewer
    /// are left.
    fn take(&mut self, n: usize) -> (r: Option<&'a [u8]>)
        ensures
            r.is_some() == (n <= old(self)@.len()),
            r matches Some(head) ==> head@ == old(self)@.take(n as int) && final(self)@ == old(
                self,
            )@.skip(n as int),
            r.is_none() ==> final(self)@ == old(self)@,
    {
        let len = self.buf.len();
        if n <= len {
            let head = slice_subrange(self.buf, 0, n);
            self.buf = slice_subrange(self.buf, n, len);
            Some(head)
        } else {
            None
        }
    }

    /// Reads one byte.
    pub fn read_u8(&mut self) -> (r: Result<u8, DecodeError>)
        ensures
            match r {
                Ok(v) => decode_u8(old(self)@) == Ok::<(u8, Seq<u8>), DecodeError>((v, final(self)@)),
                Err(e) => decode_u8(old(self)@) == Err::<(u8, Seq<u8>), DecodeError>(e),
            },
    {
        match self.take(1) {
            Some(head) => Ok(head[0]),
            None => Err(DecodeError::UnexpectedEof),
        }
    }

    /// Reads one byte as a flag.
    pub fn read_bool(&mut self) -> (r: Result<bool, DecodeError>)
        ensures
            match r {
                Ok(v) => decode_bool(old(self)@) == Ok::<(bool, Seq<u8>), DecodeError>(
                    (v, final(self)@),
                ),
                Err(e) => decode_bool(old(self)@) == Err::<(bool, Seq<u8>), DecodeError>(e),
            },
    {
        match self.read_u8() {
            Ok(b) => Ok(b != 0),
            Err(e) => Err(e),
        }
    }

    /// Reads a big-endian unsigned 32-bit integer.
    pub fn read_u32(&mut self) -> (r: Result<u32, DecodeError>)
        ensures
            match r {
                Ok(v) => decode_u32(old(self)@) == Ok::<(u32, Seq<u8>), DecodeError>(
                    (v, final(self)@),
                ),
                Err(e) => decode_u32(old(self)@) == Err::<(u32, Seq<u8>), DecodeError>(e),
            },
    {
        match self.take(4) {
            Some(head) => Ok(be_read_u32(head)),
            None => Err(DecodeError::UnexpectedEof),
        }
    }

    /// Reads a big-endian signed 32-bit integer.
    pub fn read_i32(&mut self) -> (r: Result<i32, DecodeError>)
        ensures
            match r {
                Ok(v) => decode_i32(old(self)@) == Ok::<(i32, Seq<u8>), DecodeError>(
                    (v, final(self)@),
                ),
                Err(e) => decode_i32(old(self)@) == Err::<(i32, Seq<u8>), DecodeError>(e),
            },
    {
        match self.take(4) {
            Some(head) => Ok(be_read_i32(head)),
            None => Err(DecodeError::UnexpectedEof),
        }
    }

    /// Reads a big-endian signed 64-bit integer.
    pub fn read_i64(&mut self) -> (r: Result<i64, DecodeError>)
        ensures
            match r {
                Ok(v) => decode_i64(old(self)@) == Ok::<(i64, Seq<u8>), DecodeError>(
                    (v, final(self)@),
                ),
                Err(e) => decode_i64(old(self)@) == Err::<(i64, Seq<u8>), DecodeError>(e),
            },
    {
        match self.take(8) {
            Some(head) => {
                proof {
                    assert(head@.skip(4) =~= old(self)@.skip(4).take(4));
                }
                Ok(be_read_i64(head))
            },
            None => Err(DecodeError::UnexpectedEof),
        }
    }

    /// Reads a length-prefixed string. Bytes that are not UTF-8 are a failure.
    pub fn read_string(&mut self) -> (r: Result<String, DecodeError>)
        ensures
            match r {
                Ok(v) => decode_string(old(self)@) == Ok::<(Seq<char>, Seq<u8>), DecodeError>(
                    (v@, final(self)@),
                ),
                Err(e) => decode_string(old(self)@) == Err::<(Seq<char>, Seq<u8>), DecodeError>(e),
            },
    {
        match self.read_buffer() {
            Err(e) => Err(e),
            Ok(raw) => match string_from_utf8(raw) {
                Some(s) => Ok(s),
                None => Err(DecodeError::InvalidUtf8),
            },
        }
    }
}

impl<'a> BufferReader for Reader<'a> {
    open spec fn pending(&self) -> Seq<u8> {
        self@
    }

    fn read_buffer(&mut self) -> (r: Result<Vec<u8>, DecodeError>) {
        match self.read_i32() {
            Err(e) => Err(e),
            Ok(len) => {
                let len: usize = if len < 0 {
                    0
                } else {
                    len as usize
                };
                match self.take(len) {
                    Some(raw) => Ok(slice_to_vec(raw)),
                    None => Err(DecodeError::IncompleteBuffer),
                }
            },
        }
    }
}

} // verus!
