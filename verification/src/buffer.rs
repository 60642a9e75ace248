//! A cursor over the bytes of a class file: it reads big-endian numbers,
//! runs of bytes and text, one after the other.

use vstd::prelude::*;
use vstd::slice::slice_subrange;

verus! {

/// Why a read from the bytes failed.
#[derive(Debug, Clone, Copy, PartialEq, Eq, Structural)]
pub enum BufferError {
    /// Fewer bytes are left than the read needs.
    UnexpectedEndOfData,
    /// The bytes are not valid modified UTF-8.
    InvalidCesu8String,
}

/// Whether `count` bytes stand at `position`.
pub open spec fn has_bytes(bytes: Seq<u8>, position: int, count: int) -> bool {
    0 <= position && 0 <= count && position + count <= bytes.len()
}

/// The number that two bytes at `position` hold, most significant first.
pub open spec fn be_u16(bytes: Seq<u8>, position: int) -> u16 {
    (bytes[position] as int * 0x100 + bytes[position + 1] as int) as u16
}

/// The number that four bytes at `position` hold, most significant first.
pub open spec fn be_u32(bytes: Seq<u8>, position: int) -> u32 {
    (be_u16(bytes, position) as int * 0x1_0000 + be_u16(bytes, position + 2) as int) as u32
}

/// The number that eight bytes at `position` hold, most significant first.
pub open spec fn be_u64(bytes: Seq<u8>, position: int) -> u64 {
    (be_u32(bytes, position) as int * 0x1_0000_0000 + be_u32(bytes, position + 4) as int) as u64
}

/// The signed number with the same 32 bits, in two's complement.
pub open spec fn signed_32(bits: u32) -> i32 {
    if bits < 0x8000_0000 {
        bits as i32
    } else {
        (bits - 0x1_0000_0000) as i32
    }
}

/// The signed number with the same 64 bits, in two's complement.
pub open spec fn signed_64(bits: u64) -> i64 {
    if bits < 0x8000_0000_0000_0000 {
        bits as i64
    } else {
        (bits - 0x1_0000_0000_0000_0000) as i64
    }
}

/// The text that `cesu8::from_java_cesu8` makes of a run of bytes, or
/// `None` where it reports that they cannot be decoded. It reads the
/// modified UTF-8 of the Java class-file format, in which the zero
/// character takes two bytes and a character beyond the basic plane takes
/// a surrogate pair of three bytes each; bytes that are valid UTF-8 as
/// they stand are taken as they are.
pub uninterp spec fn java_cesu8_text(bytes: Seq<u8>) -> Option<Seq<char>>;

/// The view of text that may be missing.
pub open spec fn optional_text(text: Option<String>) -> Option<Seq<char>> {
    match text {
        Some(text) => Some(text@),
        None => None,
    }
}

/// Decodes modified UTF-8 with `cesu8::from_java_cesu8`. The contract names
/// the result: the text that the function decodes from these bytes, or
/// nothing where it reports a decoding error. Nothing else is claimed of
/// it; the function does not panic on any bytes.
#[verifier::external_body]
fn decode_java_cesu8(bytes: &[u8]) -> (text: Option<String>)
    ensures
        optional_text(text) == java_cesu8_text(bytes@),
{
    match cesu8::from_java_cesu8(bytes) {
        Ok(text) => Some(text.into_owned()),
        Err(_) => None,
    }
}

/// What a read of text comes to, given what the decoder made of the bytes:
/// the text, or the error for an invalid encoding.
pub fn decoded_or_error(decoded: Option<String>) -> (r: Result<String, BufferError>)
    ensures
        match decoded {
            Some(text) => r == Ok::<String, BufferError>(text),
            None => r == Err::<String, BufferError>(BufferError::InvalidCesu8String),
        },
{
    match decoded {
        Some(text) => Ok(text),
        None => Err(BufferError::InvalidCesu8String),
    }
}

/// The state of a cursor: the bytes it reads from and how many of them it
/// has read.
pub struct Cursor {
    pub bytes: Seq<u8>,
    pub position: int,
}

/// What a read of a value of `width` bytes does to a cursor: where the
/// bytes are there, it gives the value and moves the cursor behind them;
/// where they are not, it fails and leaves the cursor where it was.
pub open spec fn reads<T>(
    before: Cursor,
    after: Cursor,
    r: Result<T, BufferError>,
    width: int,
    value: T,
) -> bool {
    &&& after.bytes == before.bytes
    &&& if has_bytes(before.bytes, before.position, width) {
        r == Ok::<T, BufferError>(value) && after.position == before.position + width
    } else {
        r == Err::<T, BufferError>(BufferError::UnexpectedEndOfData) && after.position
            == before.position
    }
}

/// What a read of `count` bytes as they are does to a cursor.
pub open spec fn takes(
    before: Cursor,
    after: Cursor,
    r: Result<&[u8], BufferError>,
    count: int,
) -> bool {
    &&& after.bytes == before.bytes
    &&& if has_bytes(before.bytes, before.position, count) {
        &&& r matches Ok(taken)
        &&& taken@ == before.bytes.subrange(before.position, before.position + count)
        &&& after.position == before.position + count
    } else {
        r == Err::<&[u8], BufferError>(BufferError::UnexpectedEndOfData) && after.position
            == before.position
    }
}

/// What a read of `count` bytes as text does to a cursor. Where the bytes
/// are there but hold no text, they count as read.
pub open spec fn decodes(
    before: Cursor,
    after: Cursor,
    r: Result<String, BufferError>,
    count: int,
) -> bool {
    &&& after.bytes == before.bytes
    &&& if has_bytes(before.bytes, before.position, count) {
        &&& after.position == before.position + count
        &&& match java_cesu8_text(
            before.bytes.subrange(before.position, before.position + count),
        ) {
            Some(text) => r matches Ok(decoded) && decoded@ == text,
            None => r == Err::<String, BufferError>(BufferError::InvalidCesu8String),
        }
    } else {
        r == Err::<String, BufferError>(BufferError::UnexpectedEndOfData) && after.position
            == before.position
    }
}

/// A cursor over a run of bytes. Every successful read moves it forward by
/// the width of what was read; a read for which too few bytes are left
/// fails and leaves it where it was.
pub struct Buffer<'a> {
    data: &'a [u8],
    position: usize,
}

impl<'a> View for Buffer<'a> {
    type V = Cursor;

    closed spec fn view(&self) -> Cursor {
        Cursor { bytes: self.data@, position: self.position as int }
    }
}

impl<'a> Buffer<'a> {
    /// The position never passes the end of the bytes.
    #[verifier::type_invariant]
    spec fn within_bounds(&self) -> bool {
        self.position <= self.data@.len()
    }

    /// A cursor at the start of the given bytes.
    pub fn new(data: &'a [u8]) -> (buffer: Buffer<'a>)
        ensures
            buffer@.bytes == data@,
            buffer@.position == 0,
    {
        Buffer { data, position: 0 }
    }

    /// The number of bytes read so far.
    pub fn position(&self) -> (position: usize)
        ensures
            position == self@.position,
            position <= self@.bytes.len(),
    {
        proof {
            use_type_invariant(self);
        }
        self.position
    }

    /// Takes the next `count` bytes.
    fn advance(&mut self, count: usize) -> (r: Result<&'a [u8], BufferError>)
        ensures
            takes(old(self)@, final(self)@, r, count as int),
    {
        proof {
            use_type_invariant(&*self);
        }
        if count > self.data.len() - self.position {
            Err(BufferError::UnexpectedEndOfData)
        } else {
            let start = self.position;
            let taken = slice_subrange(self.data, start, start + count);
            self.position = start + count;
            Ok(taken)
        }
    }

    /// Reads one byte.
    pub fn read_u8(&mut self) -> (r: Result<u8, BufferError>)
        ensures
            reads(old(self)@, final(self)@, r, 1, old(self)@.bytes[old(self)@.position]),
    {
        match self.advance(1) {
            Ok(taken) => Ok(taken[0]),
            Err(e) => Err(e),
        }
    }

    /// Reads a number of two bytes, most significant first.
    pub fn read_u16(&mut self) -> (r: Result<u16, BufferError>)
        ensures
            reads(old(self)@, final(self)@, r, 2, be_u16(old(self)@.bytes, old(self)@.position)),
    {
        match self.advance(2) {
            Ok(taken) => Ok((taken[0] as u16) * 0x100 + (taken[1] as u16)),
            Err(e) => Err(e),
        }
    }

    /// Reads a number of four bytes, most significant first.
    pub fn read_u32(&mut self) -> (r: Result<u32, BufferError>)
        ensures
            reads(old(self)@, final(self)@, r, 4, be_u32(old(self)@.bytes, old(self)@.position)),
    {
        match self.advance(4) {
            Ok(taken) => {
                let high = (taken[0] as u32) * 0x100 + (taken[1] as u32);
                let low = (taken[2] as u32) * 0x100 + (taken[3] as u32);
                Ok(high * 0x1_0000 + low)
            },
            Err(e) => Err(e),
        }
    }

    /// Reads a number of eight bytes, most significant first.
    pub fn read_u64(&mut self) -> (r: Result<u64, BufferError>)
        ensures
            reads(old(self)@, final(self)@, r, 8, be_u64(old(self)@.bytes, old(self)@.position)),
    {
        match self.advance(8) {
            Ok(taken) => {
                let a = (taken[0] as u64) * 0x100 + (taken[1] as u64);
                let b = (taken[2] as u64) * 0x100 + (taken[3] as u64);
                let c = (taken[4] as u64) * 0x100 + (taken[5] as u64);
                let d = (taken[6] as u64) * 0x100 + (taken[7] as u64);
                let high = a * 0x1_0000 + b;
                let low = c * 0x1_0000 + d;
                Ok(high * 0x1_0000_0000 + low)
            },
            Err(e) => Err(e),
        }
    }

    /// Reads a signed number of four bytes, in two's complement.
    pub fn read_i32(&mut self) -> (r: Result<i32, BufferError>)
        ensures
            reads(
                old(self)@,
                final(self)@,
                r,
                4,
                signed_32(be_u32(old(self)@.bytes, old(self)@.position)),
            ),
    {
        match self.read_u32() {
            Ok(bits) => {
                if bits < 0x8000_0000 {
                    Ok(bits as i32)
                } else {
                    Ok(((bits - 0x8000_0000) as i32) - 0x7FFF_FFFF - 1)
                }
            },
            Err(e) => Err(e),
        }
    }

    /// Reads a signed number of eight bytes, in two's complement.
    pub fn read_i64(&mut self) -> (r: Result<i64, BufferError>)
        ensures
            reads(
                old(self)@,
                final(self)@,
                r,
                8,
                signed_64(be_u64(old(self)@.bytes, old(self)@.position)),
            ),
    {
        match self.read_u64() {
            Ok(bits) => {
                if bits < 0x8000_0000_0000_0000 {
                    Ok(bits as i64)
                } else {
                    Ok(((bits - 0x8000_0000_0000_0000) as i64) - 0x7FFF_FFFF_FFFF_FFFF - 1)
                }
            },
            Err(e) => Err(e),
        }
    }

    /// Reads the bit pattern of a single-precision floating-point number.
    pub fn read_float_bits(&mut self) -> (r: Result<u32, BufferError>)
        ensures
            reads(old(self)@, final(self)@, r, 4, be_u32(old(self)@.bytes, old(self)@.position)),
    {
        self.read_u32()
    }

    /// Reads the bit pattern of a double-precision floating-point number.
    pub fn read_double_bits(&mut self) -> (r: Result<u64, BufferError>)
        ensures
            reads(old(self)@, final(self)@, r, 8, be_u64(old(self)@.bytes, old(self)@.position)),
    {
        self.read_u64()
    }

    /// Reads the next `len` bytes as they are.
    pub fn read_bytes(&mut self, len: usize) -> (r: Result<&'a [u8], BufferError>)
        ensures
            takes(old(self)@, final(self)@, r, len as int),
    {
        self.advance(len)
    }

    /// Reads the next `len` bytes as text in modified UTF-8.
    pub fn read_utf8(&mut self, len: usize) -> (r: Result<String, BufferError>)
        ensures
            decodes(old(self)@, final(self)@, r, len as int),
    {
        match self.advance(len) {
            Ok(taken) => decoded_or_error(decode_java_cesu8(taken)),
            Err(e) => Err(e),
        }
    }
}

} // verus!
