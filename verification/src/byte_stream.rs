//! A little-endian byte stream over an in-memory buffer, with bounded sub-streams ("windows").
//!
//! All the binary files of a document are little-endian. A `ByteStream` reads from a borrowed
//! buffer; a window is another `ByteStream` over the same buffer that may not read past a given
//! end. When a window has been used, its owner continues from the window's position
//! (`ByteStream::continue_after`), just as a reader continues after a `take` of itself.
use vstd::prelude::*;
use vstd::utf8::{decode_utf8, valid_utf8};

verus! {

/// The mathematical model of a `ByteStream`: the whole buffer and five positions in it.
///
/// Reads take bytes at `pos` and may not go past `end`, the last position whose byte exists.
/// `frame_end` is where the stream was declared to end; it lies past `end` when a declared size
/// runs beyond the bytes that are there, and then reads fail at `end` while the stream still
/// counts the bytes up to `frame_end` as remaining. `start` is the first position that seeking
/// may reach, and `origin` is the position that `stream_position` reports as 0.
pub struct StreamModel {
    pub data: Seq<u8>,
    pub origin: int,
    pub start: int,
    pub pos: int,
    pub end: int,
    pub frame_end: int,
}

impl StreamModel {
    pub open spec fn wf(self) -> bool {
        &&& 0 <= self.origin <= self.start <= self.pos <= self.end <= self.data.len()
        &&& self.end <= self.frame_end
        &&& self.frame_end - self.start <= u64::MAX
    }

    /// Number of bytes before the declared end of the stream.
    pub open spec fn remaining(self) -> int {
        self.frame_end - self.pos
    }

    /// Number of bytes that can still be read.
    pub open spec fn avail(self) -> int {
        self.end - self.pos
    }

    /// The bytes that can still be read.
    pub open spec fn rest(self) -> Seq<u8> {
        self.data.subrange(self.pos, self.end)
    }

    pub open spec fn with_pos(self, p: int) -> StreamModel {
        StreamModel { pos: p, ..self }
    }

    /// Everything but the position is the same in both models.
    pub open spec fn same_frame(self, other: StreamModel) -> bool {
        &&& self.data == other.data
        &&& self.origin == other.origin
        &&& self.start == other.start
        &&& self.end == other.end
        &&& self.frame_end == other.frame_end
    }
}

/// The outcome of reading a `T` from a stream whose model is `s`: the value and the model after
/// the read, or `None` if the read fails.
pub type SpecRead<T> = Option<(T, StreamModel)>;

/// Takes `n` bytes, if that many can be read.
pub open spec fn spec_take(s: StreamModel, n: int) -> SpecRead<Seq<u8>> {
    if 0 <= n <= s.avail() {
        Some((s.data.subrange(s.pos, s.pos + n), s.with_pos(s.pos + n)))
    } else {
        None
    }
}

/// The unsigned value of `b` read as a little-endian number.
pub open spec fn le_value(b: Seq<u8>) -> nat
    decreases b.len(),
{
    if b.len() == 0 {
        0
    } else {
        b[0] as nat + 256 * le_value(b.drop_first())
    }
}

pub open spec fn spec_uint(s: StreamModel, n: int) -> SpecRead<nat> {
    match spec_take(s, n) {
        Some((b, s2)) => Some((le_value(b), s2)),
        None => None,
    }
}

pub open spec fn spec_u8(s: StreamModel) -> SpecRead<u8> {
    match spec_uint(s, 1) {
        Some((v, s2)) => Some((v as u8, s2)),
        None => None,
    }
}

pub open spec fn spec_u16(s: StreamModel) -> SpecRead<u16> {
    match spec_uint(s, 2) {
        Some((v, s2)) => Some((v as u16, s2)),
        None => None,
    }
}

pub open spec fn spec_u24(s: StreamModel) -> SpecRead<u32> {
    match spec_uint(s, 3) {
        Some((v, s2)) => Some((v as u32, s2)),
        None => None,
    }
}

pub open spec fn spec_u32(s: StreamModel) -> SpecRead<u32> {
    match spec_uint(s, 4) {
        Some((v, s2)) => Some((v as u32, s2)),
        None => None,
    }
}

pub open spec fn spec_u64(s: StreamModel) -> SpecRead<u64> {
    match spec_uint(s, 8) {
        Some((v, s2)) => Some((v as u64, s2)),
        None => None,
    }
}

/// Two's complement reading of an unsigned 16-bit value.
pub open spec fn i16_of(v: u16) -> i16 {
    if v < 0x8000 { v as i16 } else { (v - 0x1_0000) as i16 }
}

/// Two's complement reading of an unsigned 32-bit value.
pub open spec fn i32_of(v: u32) -> i32 {
    if v < 0x8000_0000 { v as i32 } else { (v - 0x1_0000_0000) as i32 }
}

/// Two's complement reading of an unsigned 64-bit value.
pub open spec fn i64_of(v: u64) -> i64 {
    if v < 0x8000_0000_0000_0000 { v as i64 } else { (v - 0x1_0000_0000_0000_0000) as i64 }
}

pub open spec fn spec_i16(s: StreamModel) -> SpecRead<i16> {
    match spec_u16(s) {
        Some((v, s2)) => Some((i16_of(v), s2)),
        None => None,
    }
}

pub open spec fn spec_i32(s: StreamModel) -> SpecRead<i32> {
    match spec_u32(s) {
        Some((v, s2)) => Some((i32_of(v), s2)),
        None => None,
    }
}

pub open spec fn spec_i64(s: StreamModel) -> SpecRead<i64> {
    match spec_u64(s) {
        Some((v, s2)) => Some((i64_of(v), s2)),
        None => None,
    }
}

/// The bit pattern of an IEEE-754 single-precision number, as stored in a document.
///
/// The library does no floating-point arithmetic; callers convert with `f32::from_bits`.
#[derive(Debug, Clone, Copy, PartialEq, Eq, Structural)]
pub struct RawF32 {
    pub bits: u32,
}

/// The bit pattern of an IEEE-754 double-precision number, as stored in a document.
#[derive(Debug, Clone, Copy, PartialEq, Eq, Structural)]
pub struct RawF64 {
    pub bits: u64,
}

impl View for RawF32 {
    type V = RawF32;

    open spec fn view(&self) -> RawF32 {
        *self
    }
}

impl View for RawF64 {
    type V = RawF64;

    open spec fn view(&self) -> RawF64 {
        *self
    }
}

pub open spec fn spec_f32(s: StreamModel) -> SpecRead<RawF32> {
    match spec_u32(s) {
        Some((v, s2)) => Some((RawF32 { bits: v }, s2)),
        None => None,
    }
}

pub open spec fn spec_f64(s: StreamModel) -> SpecRead<RawF64> {
    match spec_u64(s) {
        Some((v, s2)) => Some((RawF64 { bits: v }, s2)),
        None => None,
    }
}

/// `n` consecutive little-endian 16-bit values.
pub open spec fn spec_u16s(s: StreamModel, n: nat) -> SpecRead<Seq<u16>>
    decreases n,
{
    if n == 0 {
        Some((Seq::empty(), s))
    } else {
        match spec_u16s(s, (n - 1) as nat) {
            Some((vs, s2)) => match spec_u16(s2) {
                Some((v, s3)) => Some((vs.push(v), s3)),
                None => None,
            },
            None => None,
        }
    }
}

/// Decoding of UTF-16 code units; `None` if the units are not valid UTF-16 (an unpaired
/// surrogate).
pub open spec fn utf16_decode(units: Seq<u16>) -> Option<Seq<char>>
    decreases units.len(),
{
    if units.len() == 0 {
        Some(Seq::empty())
    } else {
        let u = units[0];
        if u < 0xD800 || u > 0xDFFF {
            match utf16_decode(units.drop_first()) {
                Some(rest) => Some(seq![u as char] + rest),
                None => None,
            }
        } else if u <= 0xDBFF && units.len() >= 2 && 0xDC00 <= units[1] <= 0xDFFF {
            let c = 0x10000 + (u - 0xD800) * 0x400 + (units[1] - 0xDC00);
            match utf16_decode(units.subrange(2, units.len() as int)) {
                Some(rest) => Some(seq![c as char] + rest),
                None => None,
            }
        } else {
            None
        }
    }
}

/// Failure of a read, seek or size check on a `ByteStream`.
#[derive(Debug, Clone, Copy, PartialEq, Eq, Structural)]
pub enum IoError {
    /// Fewer bytes remain than the read needs.
    UnexpectedEof,
    /// A seek target or a size lies outside the stream.
    InvalidInput,
}

/// Failure to read a length-prefixed string.
#[derive(Debug, Clone, Copy, PartialEq, Eq, Structural)]
pub enum ReadStringError {
    /// The size field could not be read.
    SizeIo(IoError),
    /// The character data could not be read.
    BytesIo(IoError),
    /// The size does not fit in `usize`.
    SizeConversion,
    /// The character data is not valid UTF-16.
    Utf16Decode,
    /// The character data is not valid UTF-8.
    Utf8Decode,
}

/// Failure to read a timestamp.
#[derive(Debug, Clone, Copy, PartialEq, Eq, Structural)]
pub enum ReadTimestampError {
    Io(IoError),
    /// The number of microseconds is outside the range of calendar dates.
    OutOfRange(i64),
}

/// Failure to read a variable-length bitfield.
#[derive(Debug, Clone, Copy, PartialEq, Eq, Structural)]
pub enum ReadBitfieldError {
    /// The size byte could not be read.
    SizeIo(IoError),
    /// The size byte is greater than 4.
    SizeOutOfRange(u8),
    /// The bitfield bytes could not be read.
    BitsIo(IoError),
}

/// Failure to open a window whose size field counts its own four bytes.
#[derive(Debug, Clone, Copy, PartialEq, Eq, Structural)]
pub enum TakeInclusiveLengthPrefixedError {
    /// The size field could not be read, or the window does not fit in the stream.
    Io(IoError),
    /// The size is smaller than the size field itself.
    SizeTooSmall(u32),
}

/// Bytes remained in a window that should have been read to its end.
#[derive(Debug, Clone, Copy, PartialEq, Eq, Structural)]
pub struct UnfinishedParsingError {
    pub remaining: u64,
}

/// A point in time, as microseconds since the Unix epoch, that lies within the calendar range.
#[derive(Debug, Clone, Copy, PartialEq, Eq, Structural)]
pub struct Timestamp {
    pub micros: i64,
}

/// Whether `chrono` can represent `micros` microseconds since the Unix epoch as a date and time:
/// whether it falls between the first moment of January 1 of the year -262143 and the last
/// microsecond of December 31 of the year 262142, the years that `chrono` supports.
pub open spec fn chrono_micros_in_range(micros: i64) -> bool {
    -8_334_601_228_800_000_000 <= micros <= 8_210_266_876_799_999_999
}

/// Calls `chrono::DateTime::<Utc>::from_timestamp_micros` and reports whether it gave a date.
///
/// Claimed: it gives a date exactly for the timestamps in `chrono`'s range of years, as
/// `from_timestamp` computes the day from the seconds and `NaiveDate` bounds the year.
#[verifier::external_body]
fn chrono_accepts_micros(micros: i64) -> (r: bool)
    ensures
        r == chrono_micros_in_range(micros),
{
    chrono::DateTime::<chrono::Utc>::from_timestamp_micros(micros).is_some()
}

pub open spec fn spec_timestamp(s: StreamModel) -> Option<(Result<Timestamp, i64>, StreamModel)> {
    match spec_i64(s) {
        Some((v, s2)) => if chrono_micros_in_range(v) {
            Some((Ok(Timestamp { micros: v }), s2))
        } else {
            Some((Err(v), s2))
        },
        None => None,
    }
}

/// Calls `String::from_utf8`.
///
/// Claimed: the call succeeds exactly on valid UTF-8 and then gives the decoded characters.
#[verifier::external_body]
fn string_from_utf8(bytes: Vec<u8>) -> (r: Option<String>)
    ensures
        r is Some <==> valid_utf8(bytes@),
        r matches Some(s) ==> s@ == decode_utf8(bytes@),
{
    String::from_utf8(bytes).ok()
}

/// The characters that `String::from_utf8_lossy` makes of `bytes`, each ill-formed sequence
/// replaced by U+FFFD.
pub uninterp spec fn utf8_lossy(bytes: Seq<u8>) -> Seq<char>;

/// Calls `String::from_utf8_lossy` and takes the result as an owned string.
///
/// Claimed: the result depends on the bytes alone (it is named by `utf8_lossy`), and valid UTF-8
/// is decoded unchanged, as the documentation of `from_utf8_lossy` says.
#[verifier::external_body]
pub(crate) fn string_from_utf8_lossy(bytes: &[u8]) -> (r: String)
    ensures
        r@ == utf8_lossy(bytes@),
        valid_utf8(bytes@) ==> r@ == decode_utf8(bytes@),
{
    String::from_utf8_lossy(bytes).into_owned()
}

/// Calls `String::from_utf16`.
///
/// Claimed: the call succeeds exactly when `utf16_decode` does and then gives its characters.
#[verifier::external_body]
fn string_from_utf16(units: &Vec<u16>) -> (r: Option<String>)
    ensures
        r is Some <==> utf16_decode(units@) is Some,
        r matches Some(s) ==> utf16_decode(units@) == Some(s@),
{
    String::from_utf16(units.as_slice()).ok()
}

/// Reading `n` bytes and decoding them as UTF-8.
pub open spec fn spec_u8_string(s: StreamModel, n: int) -> Option<(Result<Seq<char>, ReadStringError>, StreamModel)> {
    match spec_take(s, n) {
        Some((b, s2)) => if valid_utf8(b) {
            Some((Ok(decode_utf8(b)), s2))
        } else {
            Some((Err(ReadStringError::Utf8Decode), s2))
        },
        None => None,
    }
}

/// Reading `n` UTF-16 code units and decoding them.
pub open spec fn spec_u16_string(s: StreamModel, n: nat) -> Option<(Result<Seq<char>, ReadStringError>, StreamModel)> {
    match spec_u16s(s, n) {
        Some((units, s2)) => match utf16_decode(units) {
            Some(chars) => Some((Ok(chars), s2)),
            None => Some((Err(ReadStringError::Utf16Decode), s2)),
        },
        None => None,
    }
}

/// The result of a string read: the characters, or the error that the read gives.
pub open spec fn spec_string_result(s: StreamModel, r: Option<(Result<Seq<char>, ReadStringError>, StreamModel)>) -> Result<(Seq<char>, StreamModel), ReadStringError> {
    match r {
        Some((Ok(chars), s2)) => Ok((chars, s2)),
        Some((Err(e), _)) => Err(e),
        None => Err(ReadStringError::BytesIo(IoError::UnexpectedEof)),
    }
}

/// `n: u16` followed by `n` UTF-16 code units.
pub open spec fn spec_short_u16_string(s: StreamModel) -> Result<(Seq<char>, StreamModel), ReadStringError> {
    match spec_u16(s) {
        Some((n, s1)) => spec_string_result(s1, spec_u16_string(s1, n as nat)),
        None => Err(ReadStringError::SizeIo(IoError::UnexpectedEof)),
    }
}

/// `n: u32` followed by `n` UTF-16 code units.
pub open spec fn spec_long_u16_string(s: StreamModel) -> Result<(Seq<char>, StreamModel), ReadStringError> {
    match spec_u32(s) {
        Some((n, s1)) => spec_string_result(s1, spec_u16_string(s1, n as nat)),
        None => Err(ReadStringError::SizeIo(IoError::UnexpectedEof)),
    }
}

/// `n: u16` followed by `n` bytes of UTF-8.
pub open spec fn spec_short_u8_string(s: StreamModel) -> Result<(Seq<char>, StreamModel), ReadStringError> {
    match spec_u16(s) {
        Some((n, s1)) => spec_string_result(s1, spec_u8_string(s1, n as int)),
        None => Err(ReadStringError::SizeIo(IoError::UnexpectedEof)),
    }
}

/// `n: u32` followed by `n` bytes of UTF-8.
pub open spec fn spec_long_u8_string(s: StreamModel) -> Result<(Seq<char>, StreamModel), ReadStringError> {
    match spec_u32(s) {
        Some((n, s1)) => spec_string_result(s1, spec_u8_string(s1, n as int)),
        None => Err(ReadStringError::SizeIo(IoError::UnexpectedEof)),
    }
}

/// A size byte `n` followed by an `n`-byte little-endian bitfield; `n` is at most 4.
pub open spec fn spec_bitfield(s: StreamModel) -> Result<(u32, StreamModel), ReadBitfieldError> {
    match spec_u8(s) {
        Some((n, s1)) => if n == 0 {
            Ok((0, s1))
        } else if n <= 4 {
            let bits: SpecRead<u32> = if n == 1 {
                match spec_u8(s1) { Some((v, s2)) => Some((v as u32, s2)), None => None }
            } else if n == 2 {
                match spec_u16(s1) { Some((v, s2)) => Some((v as u32, s2)), None => None }
            } else if n == 3 {
                spec_u24(s1)
            } else {
                spec_u32(s1)
            };
            match bits {
                Some((v, s2)) => Ok((v, s2)),
                None => Err(ReadBitfieldError::BitsIo(IoError::UnexpectedEof)),
            }
        } else {
            Err(ReadBitfieldError::SizeOutOfRange(n))
        },
        None => Err(ReadBitfieldError::SizeIo(IoError::UnexpectedEof)),
    }
}

/// A window of `n` bytes at the current position, whose positions count from its own start.
/// Where fewer than `n` bytes can be read, the window is still made; its reads stop where this
/// stream's do.
pub open spec fn spec_blind_window(s: StreamModel, n: int) -> Option<StreamModel> {
    if 0 <= n <= u64::MAX {
        Some(StreamModel {
            data: s.data,
            origin: s.pos,
            start: s.pos,
            pos: s.pos,
            end: if n <= s.avail() { s.pos + n } else { s.end },
            frame_end: s.pos + n,
        })
    } else {
        None
    }
}

/// A `u32` size followed by a window of that many bytes whose positions count from its start.
pub open spec fn spec_exclusive_window(s: StreamModel) -> Option<(StreamModel, StreamModel)> {
    match spec_u32(s) {
        Some((n, s1)) => match spec_blind_window(s1, n as int) {
            Some(w) => Some((w, s1)),
            None => None,
        },
        None => None,
    }
}

/// A `u32` size `n` that counts its own four bytes, and the window of the `n` bytes that begin
/// with it, positioned after the size field. Positions are those of `s`.
pub open spec fn spec_inclusive_window(s: StreamModel) -> Result<StreamModel, TakeInclusiveLengthPrefixedError> {
    match spec_u32(s) {
        Some((n, s1)) => if n < 4 {
            Err(TakeInclusiveLengthPrefixedError::SizeTooSmall(n))
        } else {
            Ok(StreamModel {
                data: s.data,
                origin: s.origin,
                start: s.pos,
                pos: s1.pos,
                end: if n - 4 <= s1.avail() { s.pos + n } else { s.end },
                frame_end: s.pos + n,
            })
        },
        None => Err(TakeInclusiveLengthPrefixedError::Io(IoError::UnexpectedEof)),
    }
}

/// The same window with positions counted from its start.
pub open spec fn spec_blind(w: StreamModel) -> StreamModel {
    StreamModel { origin: w.start, ..w }
}

/// The model of `s` after a window `w` of it has been used: `s` continues where `w` stopped.
pub open spec fn spec_continue(s: StreamModel, w: StreamModel) -> StreamModel {
    s.with_pos(w.pos)
}

/// Skipping `n` bytes, as a read of nothing.
pub open spec fn spec_skip_r(s: StreamModel, n: int) -> SpecRead<()> {
    match spec_skip(s, n) {
        Some(s2) => Some(((), s2)),
        None => None,
    }
}

/// Moving `offset` bytes forward, if that stays within the stream.
pub open spec fn spec_skip(s: StreamModel, offset: int) -> Option<StreamModel> {
    if s.pos + offset <= s.end {
        Some(s.with_pos(s.pos + offset))
    } else {
        None
    }
}

/// Seeking to position `target` (counted from `origin`).
pub open spec fn spec_seek(s: StreamModel, target: int) -> Option<StreamModel> {
    let p = s.origin + target;
    if s.start <= p <= s.end {
        Some(s.with_pos(p))
    } else {
        None
    }
}

proof fn lemma_le_value_1(b: Seq<u8>)
    requires
        b.len() == 1,
    ensures
        le_value(b) == b[0],
{
    reveal_with_fuel(le_value, 2);
}

proof fn lemma_le_value_2(b: Seq<u8>)
    requires
        b.len() == 2,
    ensures
        le_value(b) == b[0] + 256 * b[1],
{
    reveal_with_fuel(le_value, 3);
}

proof fn lemma_le_value_3(b: Seq<u8>)
    requires
        b.len() == 3,
    ensures
        le_value(b) == b[0] + 256 * b[1] + 65536 * b[2],
{
    reveal_with_fuel(le_value, 4);
}

proof fn lemma_le_value_4(b: Seq<u8>)
    requires
        b.len() == 4,
    ensures
        le_value(b) == b[0] + 256 * b[1] + 65536 * b[2] + 16777216 * b[3],
{
    reveal_with_fuel(le_value, 5);
}

proof fn lemma_le_value_8(b: Seq<u8>)
    requires
        b.len() == 8,
    ensures
        le_value(b) == b[0] + 256 * b[1] + 65536 * b[2] + 16777216 * b[3] + 4294967296 * b[4]
            + 1099511627776 * b[5] + 281474976710656 * b[6] + 72057594037927936 * b[7],
{
    reveal_with_fuel(le_value, 9);
}

/// Reads from a borrowed buffer of little-endian data; see `StreamModel`.
pub struct ByteStream<'a> {
    data: &'a [u8],
    origin: usize,
    start: usize,
    pos: usize,
    end: usize,
    frame_end: u128,
}

impl<'a> View for ByteStream<'a> {
    type V = StreamModel;

    closed spec fn view(&self) -> StreamModel {
        StreamModel {
            data: self.data@,
            origin: self.origin as int,
            start: self.start as int,
            pos: self.pos as int,
            end: self.end as int,
            frame_end: self.frame_end as int,
        }
    }
}

impl<'a> ByteStream<'a> {
    /// Every stream's model is well formed (`use_type_invariant` gives this to callers).
    #[verifier::type_invariant]
    pub open spec fn inv(self) -> bool {
        self@.wf()
    }

    /// A stream over all of `data`, positioned at its start.
    pub fn new(data: &'a [u8]) -> (r: ByteStream<'a>)
        ensures
            r@ == (StreamModel { data: data@, origin: 0, start: 0, pos: 0, end: data@.len() as int, frame_end: data@.len() as int }),
    {
        ByteStream { data, origin: 0, start: 0, pos: 0, end: data.len(), frame_end: data.len() as u128 }
    }

    /// The current position, counted from the origin.
    pub fn stream_position(&self) -> (r: u64)
        ensures
            r == self@.pos - self@.origin,
    {
        proof { use_type_invariant(self); }
        (self.pos - self.origin) as u64
    }

    /// The position of the end of the stream, counted from the origin.
    pub fn stream_end(&self) -> (r: u64)
        ensures
            r == self@.end - self@.origin,
    {
        proof { use_type_invariant(self); }
        (self.end - self.origin) as u64
    }

    /// Moves to position `target`, counted from the origin. Fails, leaving the stream unchanged,
    /// if that is outside the stream.
    pub fn seek_to(&mut self, target: u64) -> (r: Result<(), IoError>)
        ensures
            final(self)@.same_frame(old(self)@),
            match spec_seek(old(self)@, target as int) {
                Some(s2) => r is Ok && final(self)@ == s2,
                None => r == Err::<(), IoError>(IoError::InvalidInput) && final(self)@ == old(self)@,
            },
    {
        proof { use_type_invariant(&*self); }
        let room: u64 = (self.end - self.origin) as u64;
        if target < (self.start - self.origin) as u64 || target > room {
            return Err(IoError::InvalidInput);
        }
        self.pos = self.origin + target as usize;
        Ok(())
    }

    /// Moves `offset` bytes forwards (or backwards, if it is negative). Fails, leaving the stream
    /// unchanged, if that is outside the stream.
    pub fn seek_relative(&mut self, offset: i64) -> (r: Result<(), IoError>)
        ensures
            final(self)@.same_frame(old(self)@),
            ({
                let p = old(self)@.pos + offset;
                if old(self)@.start <= p <= old(self)@.end {
                    r is Ok && final(self)@ == old(self)@.with_pos(p)
                } else {
                    r == Err::<(), IoError>(IoError::InvalidInput) && final(self)@ == old(self)@
                }
            }),
    {
        proof { use_type_invariant(&*self); }
        if offset >= 0 {
            let forward: u64 = offset as u64;
            if forward > (self.end - self.pos) as u64 {
                return Err(IoError::InvalidInput);
            }
            self.pos = self.pos + forward as usize;
        } else {
            let back: u64 = (-(offset + 1)) as u64 + 1;
            if back > (self.pos - self.start) as u64 {
                return Err(IoError::InvalidInput);
            }
            self.pos = self.pos - back as usize;
        }
        Ok(())
    }

    /// Moves `n` bytes forward. Fails, leaving the stream unchanged, if fewer remain.
    pub fn skip_bytes(&mut self, n: u64) -> (r: Result<(), IoError>)
        ensures
            final(self)@.same_frame(old(self)@),
            match spec_skip(old(self)@, n as int) {
                Some(s2) => r is Ok && final(self)@ == s2,
                None => r == Err::<(), IoError>(IoError::InvalidInput) && final(self)@ == old(self)@,
            },
    {
        proof { use_type_invariant(&*self); }
        if n > (self.end - self.pos) as u64 {
            return Err(IoError::InvalidInput);
        }
        self.pos = self.pos + n as usize;
        Ok(())
    }

    /// Moves to `back` bytes before the end of the stream.
    pub fn seek_from_end(&mut self, back: u64) -> (r: Result<(), IoError>)
        ensures
            final(self)@.same_frame(old(self)@),
            ({
                let p = old(self)@.end - back;
                if old(self)@.start <= p {
                    r is Ok && final(self)@ == old(self)@.with_pos(p)
                } else {
                    r == Err::<(), IoError>(IoError::InvalidInput) && final(self)@ == old(self)@
                }
            }),
    {
        proof { use_type_invariant(&*self); }
        if back > (self.end - self.start) as u64 {
            return Err(IoError::InvalidInput);
        }
        self.pos = self.end - back as usize;
        Ok(())
    }

    /// Continues after the window `w` of this stream: moves to where `w` stopped.
    pub fn continue_after(&mut self, w: &ByteStream<'a>)
        requires
            w@.data == old(self)@.data,
            old(self)@.start <= w@.pos <= old(self)@.end,
        ensures
            final(self)@.same_frame(old(self)@),
            final(self)@ == spec_continue(old(self)@, w@),
    {
        proof { use_type_invariant(&*self); use_type_invariant(w); }
        self.pos = w.pos;
    }

    /// A window over the next `n` bytes, whose positions count from its own start.
    pub fn blind_window(&self, n: u64) -> (r: Result<ByteStream<'a>, IoError>)
        ensures
            match spec_blind_window(self@, n as int) {
                Some(w) => r matches Ok(rw) && rw@ == w,
                None => r == Err::<ByteStream<'a>, IoError>(IoError::UnexpectedEof),
            },
    {
        proof { use_type_invariant(self); }
        let e: usize = if n <= (self.end - self.pos) as u64 { self.pos + n as usize } else { self.end };
        let fe: u128 = self.pos as u128 + n as u128;
        ByteStream { data: self.data, origin: self.pos, start: self.pos, pos: self.pos, end: e, frame_end: fe }.into_ok()
    }

    fn into_ok(self) -> (r: Result<ByteStream<'a>, IoError>)
        ensures
            r == Ok::<ByteStream<'a>, IoError>(self),
    {
        Ok(self)
    }

    /// Reads a `u32` size and returns a window over the bytes that it counts (positions counted
    /// from the window's start), leaving this stream after the size field.
    pub fn exclusive_blind_window(&mut self) -> (r: Result<ByteStream<'a>, IoError>)
        ensures
            final(self)@.same_frame(old(self)@),
            match spec_exclusive_window(old(self)@) {
                Some((w, s1)) => r matches Ok(rw) && rw@ == w && final(self)@ == s1,
                None => r is Err,
            },
    {
        let n: u32 = self.read_u32_le()?;
        self.blind_window(n as u64)
    }

    /// Reads a `u32` size that counts its own four bytes and returns the window of that many
    /// bytes beginning at the size field, positioned after it. Positions are this stream's.
    /// This stream is left after the size field.
    pub fn take_inclusive_length_prefixed(&mut self) -> (r: Result<ByteStream<'a>, TakeInclusiveLengthPrefixedError>)
        ensures
            final(self)@.same_frame(old(self)@),
            match spec_inclusive_window(old(self)@) {
                Ok(w) => r matches Ok(rw) && rw@ == w,
                Err(e) => r == Err::<ByteStream<'a>, TakeInclusiveLengthPrefixedError>(e),
            },
            spec_u32(old(self)@) matches Some((_, s1)) ==> final(self)@ == s1,
    {
        proof { use_type_invariant(&*self); }
        let here: usize = self.pos;
        let n: u32 = match self.read_u32_le() {
            Ok(n) => n,
            Err(e) => return Err(TakeInclusiveLengthPrefixedError::Io(e)),
        };
        proof { use_type_invariant(&*self); }
        if n < 4 {
            return Err(TakeInclusiveLengthPrefixedError::SizeTooSmall(n));
        }
        let e: usize = if (n - 4) as u64 <= (self.end - self.pos) as u64 { here + n as usize } else { self.end };
        let fe: u128 = here as u128 + n as u128;
        Ok(ByteStream { data: self.data, origin: self.origin, start: here, pos: self.pos, end: e, frame_end: fe })
    }

    /// The same stream with positions counted from its start.
    pub fn into_blind(self) -> (r: ByteStream<'a>)
        ensures
            r@ == spec_blind(self@),
    {
        proof { use_type_invariant(&self); }
        ByteStream { data: self.data, origin: self.start, start: self.start, pos: self.pos, end: self.end, frame_end: self.frame_end }
    }

    pub fn read_u8(&mut self) -> (r: Result<u8, IoError>)
        ensures
            final(self)@.same_frame(old(self)@),
            match spec_u8(old(self)@) {
                Some((v, s2)) => r == Ok::<u8, IoError>(v) && final(self)@ == s2,
                None => r == Err::<u8, IoError>(IoError::UnexpectedEof) && final(self)@ == old(self)@,
            },
    {
        proof { use_type_invariant(&*self); }
        if self.pos < self.end {
            let v: u8 = self.data[self.pos];
            proof { lemma_le_value_1(self@.data.subrange(self.pos as int, self.pos + 1)); }
            self.pos = self.pos + 1;
            Ok(v)
        } else {
            Err(IoError::UnexpectedEof)
        }
    }

    pub fn read_u16_le(&mut self) -> (r: Result<u16, IoError>)
        ensures
            final(self)@.same_frame(old(self)@),
            match spec_u16(old(self)@) {
                Some((v, s2)) => r == Ok::<u16, IoError>(v) && final(self)@ == s2,
                None => r == Err::<u16, IoError>(IoError::UnexpectedEof) && final(self)@ == old(self)@,
            },
    {
        proof { use_type_invariant(&*self); }
        if self.end - self.pos >= 2 {
            let b0: u16 = self.data[self.pos] as u16;
            let b1: u16 = self.data[self.pos + 1] as u16;
            proof { lemma_le_value_2(self@.data.subrange(self.pos as int, self.pos + 2)); }
            self.pos = self.pos + 2;
            Ok(b0 + b1 * 256)
        } else {
            Err(IoError::UnexpectedEof)
        }
    }

    pub fn read_u24_le(&mut self) -> (r: Result<u32, IoError>)
        ensures
            final(self)@.same_frame(old(self)@),
            match spec_u24(old(self)@) {
                Some((v, s2)) => r == Ok::<u32, IoError>(v) && final(self)@ == s2,
                None => r == Err::<u32, IoError>(IoError::UnexpectedEof) && final(self)@ == old(self)@,
            },
    {
        proof { use_type_invariant(&*self); }
        if self.end - self.pos >= 3 {
            let b0: u32 = self.data[self.pos] as u32;
            let b1: u32 = self.data[self.pos + 1] as u32;
            let b2: u32 = self.data[self.pos + 2] as u32;
            proof { lemma_le_value_3(self@.data.subrange(self.pos as int, self.pos + 3)); }
            self.pos = self.pos + 3;
            Ok(b0 + b1 * 256 + b2 * 65536)
        } else {
            Err(IoError::UnexpectedEof)
        }
    }

    pub fn read_u32_le(&mut self) -> (r: Result<u32, IoError>)
        ensures
            final(self)@.same_frame(old(self)@),
            match spec_u32(old(self)@) {
                Some((v, s2)) => r == Ok::<u32, IoError>(v) && final(self)@ == s2,
                None => r == Err::<u32, IoError>(IoError::UnexpectedEof) && final(self)@ == old(self)@,
            },
    {
        proof { use_type_invariant(&*self); }
        if self.end - self.pos >= 4 {
            let b0: u32 = self.data[self.pos] as u32;
            let b1: u32 = self.data[self.pos + 1] as u32;
            let b2: u32 = self.data[self.pos + 2] as u32;
            let b3: u32 = self.data[self.pos + 3] as u32;
            proof { lemma_le_value_4(self@.data.subrange(self.pos as int, self.pos + 4)); }
            self.pos = self.pos + 4;
            Ok(b0 + b1 * 256 + b2 * 65536 + b3 * 16777216)
        } else {
            Err(IoError::UnexpectedEof)
        }
    }

    pub fn read_u64_le(&mut self) -> (r: Result<u64, IoError>)
        ensures
            final(self)@.same_frame(old(self)@),
            match spec_u64(old(self)@) {
                Some((v, s2)) => r == Ok::<u64, IoError>(v) && final(self)@ == s2,
                None => r == Err::<u64, IoError>(IoError::UnexpectedEof) && final(self)@ == old(self)@,
            },
    {
        proof { use_type_invariant(&*self); }
        if self.end - self.pos >= 8 {
            let p: usize = self.pos;
            let b0: u64 = self.data[p] as u64;
            let b1: u64 = self.data[p + 1] as u64;
            let b2: u64 = self.data[p + 2] as u64;
            let b3: u64 = self.data[p + 3] as u64;
            let b4: u64 = self.data[p + 4] as u64;
            let b5: u64 = self.data[p + 5] as u64;
            let b6: u64 = self.data[p + 6] as u64;
            let b7: u64 = self.data[p + 7] as u64;
            proof { lemma_le_value_8(self@.data.subrange(p as int, p + 8)); }
            self.pos = p + 8;
            Ok(b0 + b1 * 256 + b2 * 65536 + b3 * 16777216 + b4 * 4294967296 + b5 * 1099511627776
                + b6 * 281474976710656 + b7 * 72057594037927936)
        } else {
            Err(IoError::UnexpectedEof)
        }
    }

    pub fn read_i16_le(&mut self) -> (r: Result<i16, IoError>)
        ensures
            final(self)@.same_frame(old(self)@),
            match spec_i16(old(self)@) {
                Some((v, s2)) => r == Ok::<i16, IoError>(v) && final(self)@ == s2,
                None => r == Err::<i16, IoError>(IoError::UnexpectedEof) && final(self)@ == old(self)@,
            },
    {
        let v: u16 = self.read_u16_le()?;
        if v < 0x8000 {
            Ok(v as i16)
        } else {
            Ok((v - 0x8000) as i16 - 0x7fff - 1)
        }
    }

    pub fn read_i32_le(&mut self) -> (r: Result<i32, IoError>)
        ensures
            final(self)@.same_frame(old(self)@),
            match spec_i32(old(self)@) {
                Some((v, s2)) => r == Ok::<i32, IoError>(v) && final(self)@ == s2,
                None => r == Err::<i32, IoError>(IoError::UnexpectedEof) && final(self)@ == old(self)@,
            },
    {
        let v: u32 = self.read_u32_le()?;
        if v < 0x8000_0000 {
            Ok(v as i32)
        } else {
            Ok((v - 0x8000_0000) as i32 - 0x7fff_ffff - 1)
        }
    }

    pub fn read_i64_le(&mut self) -> (r: Result<i64, IoError>)
        ensures
            final(self)@.same_frame(old(self)@),
            match spec_i64(old(self)@) {
                Some((v, s2)) => r == Ok::<i64, IoError>(v) && final(self)@ == s2,
                None => r == Err::<i64, IoError>(IoError::UnexpectedEof) && final(self)@ == old(self)@,
            },
    {
        let v: u64 = self.read_u64_le()?;
        if v < 0x8000_0000_0000_0000 {
            Ok(v as i64)
        } else {
            Ok((v - 0x8000_0000_0000_0000) as i64 - 0x7fff_ffff_ffff_ffff - 1)
        }
    }

    pub fn read_f32_le(&mut self) -> (r: Result<RawF32, IoError>)
        ensures
            final(self)@.same_frame(old(self)@),
            match spec_f32(old(self)@) {
                Some((v, s2)) => r == Ok::<RawF32, IoError>(v) && final(self)@ == s2,
                None => r == Err::<RawF32, IoError>(IoError::UnexpectedEof) && final(self)@ == old(self)@,
            },
    {
        let bits: u32 = self.read_u32_le()?;
        Ok(RawF32 { bits })
    }

    pub fn read_f64_le(&mut self) -> (r: Result<RawF64, IoError>)
        ensures
            final(self)@.same_frame(old(self)@),
            match spec_f64(old(self)@) {
                Some((v, s2)) => r == Ok::<RawF64, IoError>(v) && final(self)@ == s2,
                None => r == Err::<RawF64, IoError>(IoError::UnexpectedEof) && final(self)@ == old(self)@,
            },
    {
        let bits: u64 = self.read_u64_le()?;
        Ok(RawF64 { bits })
    }
}


/// Parsing of a value from a reader.
pub trait TryParse<R>: Sized {
    type ParseError;

    fn try_parse(reader: &mut R) -> Result<Self, Self::ParseError>;
}

/// A stream whose remaining length is known.
pub trait ExactSizedStream {
    fn n_remaining(&self) -> u64;

    fn ensure_eof(&self) -> Result<(), UnfinishedParsingError>;
}

/// `spec_u16s` succeeds exactly when `2 * n` bytes remain, and then reads exactly those bytes.
pub proof fn lemma_u16s(s: StreamModel, n: nat)
    requires
        s.wf(),
    ensures
        spec_u16s(s, n) is Some <==> 2 * n <= s.avail(),
        spec_u16s(s, n) matches Some((v, s2)) ==> v.len() == n && s2 == s.with_pos(s.pos + 2 * n),
    decreases n,
{
    if n > 0 {
        lemma_u16s(s, (n - 1) as nat);
    }
}

impl<'a> ByteStream<'a> {
    /// Reads `n` little-endian 16-bit values.
    pub fn read_u16s(&mut self, n: usize) -> (r: Result<Vec<u16>, IoError>)
        ensures
            final(self)@.same_frame(old(self)@),
            match spec_u16s(old(self)@, n as nat) {
                Some((v, s2)) => r matches Ok(rv) && rv@ == v && final(self)@ == s2,
                None => r == Err::<Vec<u16>, IoError>(IoError::UnexpectedEof) && final(self)@ == old(self)@,
            },
    {
        proof { use_type_invariant(&*self); lemma_u16s(self@, n as nat); }
        if n > (self.end - self.pos) / 2 {
            return Err(IoError::UnexpectedEof);
        }
        let ghost s0 = self@;
        let mut v: Vec<u16> = Vec::with_capacity(n);
        let mut i: usize = 0;
        while i < n
            invariant
                0 <= i <= n,
                s0.wf(),
                2 * n <= s0.avail(),
                spec_u16s(s0, i as nat) == Some((v@, self@)),
            decreases n - i,
        {
            proof { lemma_u16s(s0, i as nat); use_type_invariant(&*self); }
            let u: u16 = match self.read_u16_le() {
                Ok(u) => u,
                Err(e) => return Err(e),
            };
            v.push(u);
            i = i + 1;
        }
        Ok(v)
    }

    /// Reads `n` bytes and decodes them as UTF-8.
    pub fn read_u8_string(&mut self, n: usize) -> (r: Result<String, ReadStringError>)
        ensures
            final(self)@.same_frame(old(self)@),
            match spec_u8_string(old(self)@, n as int) {
                Some((Ok(chars), s2)) => r matches Ok(st) && st@ == chars && final(self)@ == s2,
                Some((Err(e), _)) => r == Err::<String, ReadStringError>(e),
                None => r == Err::<String, ReadStringError>(ReadStringError::BytesIo(IoError::UnexpectedEof)),
            },
    {
        let bytes: Vec<u8> = match self.read_u8s(n) {
            Ok(b) => b,
            Err(e) => return Err(ReadStringError::BytesIo(e)),
        };
        match string_from_utf8(bytes) {
            Some(st) => Ok(st),
            None => Err(ReadStringError::Utf8Decode),
        }
    }

    /// Reads `n` UTF-16 code units (`2 * n` bytes) and decodes them.
    pub fn read_u16_string(&mut self, n: usize) -> (r: Result<String, ReadStringError>)
        ensures
            final(self)@.same_frame(old(self)@),
            match spec_u16_string(old(self)@, n as nat) {
                Some((Ok(chars), s2)) => r matches Ok(st) && st@ == chars && final(self)@ == s2,
                Some((Err(e), _)) => r == Err::<String, ReadStringError>(e),
                None => r == Err::<String, ReadStringError>(ReadStringError::BytesIo(IoError::UnexpectedEof)),
            },
    {
        let units: Vec<u16> = match self.read_u16s(n) {
            Ok(u) => u,
            Err(e) => return Err(ReadStringError::BytesIo(e)),
        };
        match string_from_utf16(&units) {
            Some(st) => Ok(st),
            None => Err(ReadStringError::Utf16Decode),
        }
    }

    /// Reads `n: u16`, then `n` UTF-16 code units, and decodes them.
    pub fn read_short_u16_string(&mut self) -> (r: Result<String, ReadStringError>)
        ensures
            final(self)@.same_frame(old(self)@),
            match spec_short_u16_string(old(self)@) {
                Ok((chars, s2)) => r matches Ok(st) && st@ == chars && final(self)@ == s2,
                Err(e) => r == Err::<String, ReadStringError>(e),
            },
    {
        let n: u16 = match self.read_u16_le() {
            Ok(n) => n,
            Err(e) => return Err(ReadStringError::SizeIo(e)),
        };
        self.read_u16_string(n as usize)
    }

    /// Reads `n: u32`, then `n` UTF-16 code units, and decodes them.
    pub fn read_long_u16_string(&mut self) -> (r: Result<String, ReadStringError>)
        ensures
            final(self)@.same_frame(old(self)@),
            match spec_long_u16_string(old(self)@) {
                Ok((chars, s2)) => r matches Ok(st) && st@ == chars && final(self)@ == s2,
                Err(e) => r == Err::<String, ReadStringError>(e),
            },
    {
        let n: u32 = match self.read_u32_le() {
            Ok(n) => n,
            Err(e) => return Err(ReadStringError::SizeIo(e)),
        };
        if n as u64 > usize::MAX as u64 {
            return Err(ReadStringError::SizeConversion);
        }
        self.read_u16_string(n as usize)
    }

    /// Reads `n: u16`, then `n` bytes of UTF-8, and decodes them.
    pub fn read_short_u8_string(&mut self) -> (r: Result<String, ReadStringError>)
        ensures
            final(self)@.same_frame(old(self)@),
            match spec_short_u8_string(old(self)@) {
                Ok((chars, s2)) => r matches Ok(st) && st@ == chars && final(self)@ == s2,
                Err(e) => r == Err::<String, ReadStringError>(e),
            },
    {
        let n: u16 = match self.read_u16_le() {
            Ok(n) => n,
            Err(e) => return Err(ReadStringError::SizeIo(e)),
        };
        self.read_u8_string(n as usize)
    }

    /// Reads `n: u32`, then `n` bytes of UTF-8, and decodes them.
    pub fn read_long_u8_string(&mut self) -> (r: Result<String, ReadStringError>)
        ensures
            final(self)@.same_frame(old(self)@),
            match spec_long_u8_string(old(self)@) {
                Ok((chars, s2)) => r matches Ok(st) && st@ == chars && final(self)@ == s2,
                Err(e) => r == Err::<String, ReadStringError>(e),
            },
    {
        let n: u32 = match self.read_u32_le() {
            Ok(n) => n,
            Err(e) => return Err(ReadStringError::SizeIo(e)),
        };
        if n as u64 > usize::MAX as u64 {
            return Err(ReadStringError::SizeConversion);
        }
        self.read_u8_string(n as usize)
    }

    /// Reads an `i64` count of microseconds since the Unix epoch, which must be a representable
    /// date and time.
    pub fn read_timestamp(&mut self) -> (r: Result<Timestamp, ReadTimestampError>)
        ensures
            final(self)@.same_frame(old(self)@),
            match spec_timestamp(old(self)@) {
                Some((Ok(t), s2)) => r == Ok::<Timestamp, ReadTimestampError>(t) && final(self)@ == s2,
                Some((Err(v), _)) => r == Err::<Timestamp, ReadTimestampError>(ReadTimestampError::OutOfRange(v)),
                None => r == Err::<Timestamp, ReadTimestampError>(ReadTimestampError::Io(IoError::UnexpectedEof)),
            },
    {
        let micros: i64 = match self.read_i64_le() {
            Ok(v) => v,
            Err(e) => return Err(ReadTimestampError::Io(e)),
        };
        if chrono_accepts_micros(micros) {
            Ok(Timestamp { micros })
        } else {
            Err(ReadTimestampError::OutOfRange(micros))
        }
    }

    /// Reads `n_bytes: u8` and then a little-endian bitfield of that many bytes (at most 4).
    pub fn read_variable_length_bitfield(&mut self) -> (r: Result<u32, ReadBitfieldError>)
        ensures
            final(self)@.same_frame(old(self)@),
            match spec_bitfield(old(self)@) {
                Ok((v, s2)) => r == Ok::<u32, ReadBitfieldError>(v) && final(self)@ == s2,
                Err(e) => r == Err::<u32, ReadBitfieldError>(e),
            },
    {
        let n: u8 = match self.read_u8() {
            Ok(n) => n,
            Err(e) => return Err(ReadBitfieldError::SizeIo(e)),
        };
        let bits: Result<u32, IoError> = if n == 0 {
            return Ok(0);
        } else if n == 1 {
            match self.read_u8() {
                Ok(b) => Ok(b as u32),
                Err(e) => Err(e),
            }
        } else if n == 2 {
            match self.read_u16_le() {
                Ok(b) => Ok(b as u32),
                Err(e) => Err(e),
            }
        } else if n == 3 {
            self.read_u24_le()
        } else if n == 4 {
            self.read_u32_le()
        } else {
            return Err(ReadBitfieldError::SizeOutOfRange(n));
        };
        match bits {
            Ok(b) => Ok(b),
            Err(e) => Err(ReadBitfieldError::BitsIo(e)),
        }
    }

    pub fn read_4_bytes(&mut self) -> (r: Result<[u8; 4], IoError>)
        ensures
            final(self)@.same_frame(old(self)@),
            match spec_take(old(self)@, 4) {
                Some((b, s2)) => r matches Ok(a) && a@ == b && final(self)@ == s2,
                None => r == Err::<[u8; 4], IoError>(IoError::UnexpectedEof) && final(self)@ == old(self)@,
            },
    {
        proof { use_type_invariant(&*self); }
        if self.end - self.pos >= 4 {
            let p: usize = self.pos;
            let a: [u8; 4] = [self.data[p], self.data[p + 1], self.data[p + 2], self.data[p + 3]];
            self.pos = p + 4;
            assert(a@ =~= self@.data.subrange(p as int, p + 4));
            Ok(a)
        } else {
            Err(IoError::UnexpectedEof)
        }
    }

    /// Reads a `u32` flag: anything but zero is `true`.
    pub fn read_bool_u32(&mut self) -> (r: Result<bool, IoError>)
        ensures
            final(self)@.same_frame(old(self)@),
            match spec_bool_u32(old(self)@) {
                Some((v, s2)) => r == Ok::<bool, IoError>(v) && final(self)@ == s2,
                None => r == Err::<bool, IoError>(IoError::UnexpectedEof),
            },
    {
        let v: u32 = self.read_u32_le()?;
        Ok(v != 0)
    }

    /// Reads a `u8` flag: anything but zero is `true`.
    pub fn read_bool_u8(&mut self) -> (r: Result<bool, IoError>)
        ensures
            final(self)@.same_frame(old(self)@),
            match spec_bool_u8(old(self)@) {
                Some((v, s2)) => r == Ok::<bool, IoError>(v) && final(self)@ == s2,
                None => r == Err::<bool, IoError>(IoError::UnexpectedEof),
            },
    {
        let v: u8 = self.read_u8()?;
        Ok(v != 0)
    }

    /// Reads exactly `n` bytes.
    pub fn read_u8s(&mut self, n: usize) -> (r: Result<Vec<u8>, IoError>)
        ensures
            final(self)@.same_frame(old(self)@),
            match spec_take(old(self)@, n as int) {
                Some((b, s2)) => r matches Ok(v) && v@ == b && final(self)@ == s2,
                None => r == Err::<Vec<u8>, IoError>(IoError::UnexpectedEof) && final(self)@ == old(self)@,
            },
    {
        proof { use_type_invariant(&*self); }
        if n > self.end - self.pos {
            return Err(IoError::UnexpectedEof);
        }
        let p: usize = self.pos;
        let mut v: Vec<u8> = Vec::with_capacity(n);
        let mut i: usize = 0;
        while i < n
            invariant
                0 <= i <= n,
                p + n <= self.data.len(),
                v@ == self.data@.subrange(p as int, p + i),
            decreases n - i,
        {
            v.push(self.data[p + i]);
            i = i + 1;
            assert(v@ =~= self.data@.subrange(p as int, p + i));
        }
        self.pos = p + n;
        Ok(v)
    }
}

impl<'a> ExactSizedStream for ByteStream<'a> {
    /// The number of bytes that can still be read.
    fn n_remaining(&self) -> (r: u64)
        ensures
            r == self@.remaining(),
    {
        proof { use_type_invariant(self); }
        (self.frame_end - self.pos as u128) as u64
    }

    /// Fails unless every byte of the stream has been read.
    fn ensure_eof(&self) -> (r: Result<(), UnfinishedParsingError>)
        ensures
            r is Ok <==> self@.remaining() == 0,
            r matches Err(e) ==> e.remaining == self@.remaining(),
    {
        proof { use_type_invariant(self); }
        let n: u64 = (self.frame_end - self.pos as u128) as u64;
        if n == 0 {
            Ok(())
        } else {
            Err(UnfinishedParsingError { remaining: n })
        }
    }

}

impl<'a> ByteStream<'a> {
    /// The bytes from position `from` (counted from the origin) up to the current position.
    pub fn bytes_from(&self, from: u64) -> (r: &'a [u8])
        requires
            from <= self@.pos - self@.origin,
        ensures
            r@ == self@.data.subrange(self@.origin + from, self@.pos),
    {
        proof { use_type_invariant(self); }
        vstd::slice::slice_subrange(self.data, self.origin + from as usize, self.pos)
    }

    /// Reads every byte that can still be read.
    pub fn read_to_end(&mut self) -> (r: Vec<u8>)
        ensures
            final(self)@.same_frame(old(self)@),
            r@ == old(self)@.rest(),
            final(self)@ == old(self)@.with_pos(old(self)@.end),
    {
        proof { use_type_invariant(&*self); }
        let n: usize = self.end - self.pos;
        match self.read_u8s(n) {
            Ok(v) => v,
            Err(_) => Vec::new(),
        }
    }

    /// Reads 32 bytes (a SHA-256 digest).
    pub fn read_32_bytes(&mut self) -> (r: Result<[u8; 32], IoError>)
        ensures
            final(self)@.same_frame(old(self)@),
            match spec_take(old(self)@, 32) {
                Some((b, s2)) => r matches Ok(a) && a@ == b && final(self)@ == s2,
                None => r == Err::<[u8; 32], IoError>(IoError::UnexpectedEof) && final(self)@ == old(self)@,
            },
    {
        proof { use_type_invariant(&*self); }
        if self.end - self.pos < 32 {
            return Err(IoError::UnexpectedEof);
        }
        let p: usize = self.pos;
        let mut a: [u8; 32] = [0u8; 32];
        let mut i: usize = 0;
        while i < 32
            invariant
                0 <= i <= 32,
                p + 32 <= self.data.len(),
                forall|j: int| 0 <= j < i ==> a@[j] == self.data@[p + j],
            decreases 32 - i,
        {
            a[i] = self.data[p + i];
            i = i + 1;
        }
        assert(a@ =~= self@.data.subrange(p as int, p + 32));
        self.pos = p + 32;
        Ok(a)
    }

    /// Reads 16 bytes.
    pub fn read_16_bytes(&mut self) -> (r: Result<[u8; 16], IoError>)
        ensures
            final(self)@.same_frame(old(self)@),
            match spec_take(old(self)@, 16) {
                Some((b, s2)) => r matches Ok(a) && a@ == b && final(self)@ == s2,
                None => r == Err::<[u8; 16], IoError>(IoError::UnexpectedEof) && final(self)@ == old(self)@,
            },
    {
        proof { use_type_invariant(&*self); }
        if self.end - self.pos < 16 {
            return Err(IoError::UnexpectedEof);
        }
        let p: usize = self.pos;
        let mut a: [u8; 16] = [0u8; 16];
        let mut i: usize = 0;
        while i < 16
            invariant
                0 <= i <= 16,
                p + 16 <= self.data.len(),
                forall|j: int| 0 <= j < i ==> a@[j] == self.data@[p + j],
            decreases 16 - i,
        {
            a[i] = self.data[p + i];
            i = i + 1;
        }
        assert(a@ =~= self@.data.subrange(p as int, p + 16));
        self.pos = p + 16;
        Ok(a)
    }

    /// Reads 8 bytes.
    pub fn read_8_bytes(&mut self) -> (r: Result<[u8; 8], IoError>)
        ensures
            final(self)@.same_frame(old(self)@),
            match spec_take(old(self)@, 8) {
                Some((b, s2)) => r matches Ok(a) && a@ == b && final(self)@ == s2,
                None => r == Err::<[u8; 8], IoError>(IoError::UnexpectedEof) && final(self)@ == old(self)@,
            },
    {
        proof { use_type_invariant(&*self); }
        if self.end - self.pos < 8 {
            return Err(IoError::UnexpectedEof);
        }
        let p: usize = self.pos;
        let mut a: [u8; 8] = [0u8; 8];
        let mut i: usize = 0;
        while i < 8
            invariant
                0 <= i <= 8,
                p + 8 <= self.data.len(),
                forall|j: int| 0 <= j < i ==> a@[j] == self.data@[p + j],
            decreases 8 - i,
        {
            a[i] = self.data[p + i];
            i = i + 1;
        }
        assert(a@ =~= self@.data.subrange(p as int, p + 8));
        self.pos = p + 8;
        Ok(a)
    }

    /// Reads 20 bytes.
    pub fn read_20_bytes(&mut self) -> (r: Result<[u8; 20], IoError>)
        ensures
            final(self)@.same_frame(old(self)@),
            match spec_take(old(self)@, 20) {
                Some((b, s2)) => r matches Ok(a) && a@ == b && final(self)@ == s2,
                None => r == Err::<[u8; 20], IoError>(IoError::UnexpectedEof) && final(self)@ == old(self)@,
            },
    {
        proof { use_type_invariant(&*self); }
        if self.end - self.pos < 20 {
            return Err(IoError::UnexpectedEof);
        }
        let p: usize = self.pos;
        let mut a: [u8; 20] = [0u8; 20];
        let mut i: usize = 0;
        while i < 20
            invariant
                0 <= i <= 20,
                p + 20 <= self.data.len(),
                forall|j: int| 0 <= j < i ==> a@[j] == self.data@[p + j],
            decreases 20 - i,
        {
            a[i] = self.data[p + i];
            i = i + 1;
        }
        assert(a@ =~= self@.data.subrange(p as int, p + 20));
        self.pos = p + 20;
        Ok(a)
    }
}

/// `n` items, each read by `item`, one after the other.
pub open spec fn spec_repeat<T>(s: StreamModel, n: nat, item: spec_fn(StreamModel) -> SpecRead<T>) -> SpecRead<Seq<T>>
    decreases n,
{
    if n == 0 {
        Some((Seq::empty(), s))
    } else {
        match spec_repeat(s, (n - 1) as nat, item) {
            Some((vs, s2)) => match item(s2) {
                Some((v, s3)) => Some((vs.push(v), s3)),
                None => None,
            },
            None => None,
        }
    }
}

/// Once a repetition fails, reading more items fails too.
pub proof fn lemma_repeat_fails<T>(s: StreamModel, m: nat, n: nat, item: spec_fn(StreamModel) -> SpecRead<T>)
    requires
        spec_repeat(s, m, item) is None,
        m <= n,
    ensures
        spec_repeat(s, n, item) is None,
    decreases n - m,
{
    if m < n {
        lemma_repeat_fails(s, m, (n - 1) as nat, item);
    }
}

/// A repetition of `n` items gives `n` values.
pub proof fn lemma_repeat_len<T>(s: StreamModel, n: nat, item: spec_fn(StreamModel) -> SpecRead<T>)
    ensures
        spec_repeat(s, n, item) matches Some((vs, _)) ==> vs.len() == n,
    decreases n,
{
    if n > 0 {
        lemma_repeat_len(s, (n - 1) as nat, item);
    }
}

/// `n` items, each read by `item`, one after the other; the first failure is the result.
pub open spec fn spec_repeat_r<T, E>(s: StreamModel, n: nat, item: spec_fn(StreamModel) -> Result<(T, StreamModel), E>) -> Result<(Seq<T>, StreamModel), E>
    decreases n,
{
    if n == 0 {
        Ok((Seq::empty(), s))
    } else {
        match spec_repeat_r(s, (n - 1) as nat, item) {
            Ok((vs, s2)) => match item(s2) {
                Ok((v, s3)) => Ok((vs.push(v), s3)),
                Err(e) => Err(e),
            },
            Err(e) => Err(e),
        }
    }
}

/// Once a repetition fails, reading more items fails in the same way.
pub proof fn lemma_repeat_r_fails<T, E>(s: StreamModel, m: nat, n: nat, item: spec_fn(StreamModel) -> Result<(T, StreamModel), E>)
    requires
        spec_repeat_r(s, m, item) is Err,
        m <= n,
    ensures
        spec_repeat_r(s, n, item) == spec_repeat_r(s, m, item),
    decreases n - m,
{
    if m < n {
        lemma_repeat_r_fails(s, m, (n - 1) as nat, item);
    }
}

/// The result of reading a timestamp, as an error or a value.
pub open spec fn spec_timestamp_r(s: StreamModel) -> Result<(Timestamp, StreamModel), ReadTimestampError> {
    match spec_timestamp(s) {
        Some((Ok(t), s2)) => Ok((t, s2)),
        Some((Err(v), _)) => Err(ReadTimestampError::OutOfRange(v)),
        None => Err(ReadTimestampError::Io(IoError::UnexpectedEof)),
    }
}

/// Whether two byte slices hold the same bytes.
pub fn bytes_eq(a: &[u8], b: &[u8]) -> (r: bool)
    ensures
        r == (a@ == b@),
{
    if a.len() != b.len() {
        return false;
    }
    let mut i: usize = 0;
    while i < a.len()
        invariant
            a.len() == b.len(),
            0 <= i <= a.len(),
            forall|j: int| 0 <= j < i ==> a@[j] == b@[j],
        decreases a.len() - i,
    {
        if a[i] != b[i] {
            return false;
        }
        i = i + 1;
    }
    assert(a@ =~= b@);
    true
}

/// An optional read: `r` (a read at `s`) if `present`, else nothing, leaving `s` unchanged.
pub open spec fn spec_opt<T>(present: bool, r: SpecRead<T>, s: StreamModel) -> SpecRead<Option<T>> {
    if present {
        match r {
            Some((v, s2)) => Some((Some(v), s2)),
            None => None,
        }
    } else {
        Some((None, s))
    }
}

/// An optional read with a default: `r` (a read at `s`) if `present`, else `default`.
pub open spec fn spec_opt_or<T>(present: bool, r: SpecRead<T>, s: StreamModel, default: T) -> SpecRead<T> {
    if present {
        r
    } else {
        Some((default, s))
    }
}

/// A read whose value is then converted by `f`; fails where `f` gives nothing.
pub open spec fn spec_then<T, U>(r: SpecRead<T>, f: spec_fn(T) -> Option<U>) -> SpecRead<U> {
    match r {
        Some((v, s2)) => match f(v) {
            Some(u) => Some((u, s2)),
            None => None,
        },
        None => None,
    }
}

/// A `u32` read as a flag: anything but zero is `true`.
pub open spec fn spec_bool_u32(s: StreamModel) -> SpecRead<bool> {
    match spec_u32(s) {
        Some((v, s2)) => Some((v != 0, s2)),
        None => None,
    }
}

/// A `u8` read as a flag: anything but zero is `true`.
pub open spec fn spec_bool_u8(s: StreamModel) -> SpecRead<bool> {
    match spec_u8(s) {
        Some((v, s2)) => Some((v != 0, s2)),
        None => None,
    }
}

/// A string read, as a success or a failure.
pub open spec fn spec_str_opt(r: Result<(Seq<char>, StreamModel), ReadStringError>) -> SpecRead<Seq<char>> {
    match r {
        Ok(x) => Some(x),
        Err(_) => None,
    }
}

/// A timestamp read, as a success or a failure.
pub open spec fn spec_ts_opt(s: StreamModel) -> SpecRead<Timestamp> {
    match spec_timestamp_r(s) {
        Ok(x) => Some(x),
        Err(_) => None,
    }
}

/// The views of an optional value.
pub open spec fn opt_view<T: View>(o: Option<T>) -> Option<T::V> {
    match o {
        Some(v) => Some(v@),
        None => None,
    }
}

/// The views of the elements of an optional vector.
pub open spec fn opt_vec_views<T: View>(o: Option<Vec<T>>) -> Option<Seq<T::V>> {
    match o {
        Some(v) => Some(views(v@)),
        None => None,
    }
}

/// A `u8` count, then that many items.
pub open spec fn spec_u8_counted<T>(s: StreamModel, item: spec_fn(StreamModel) -> SpecRead<T>) -> SpecRead<Seq<T>> {
    match spec_u8(s) {
        Some((n, s1)) => spec_repeat(s1, n as nat, item),
        None => None,
    }
}

/// A `u16` count, then that many items.
pub open spec fn spec_u16_counted<T>(s: StreamModel, item: spec_fn(StreamModel) -> SpecRead<T>) -> SpecRead<Seq<T>> {
    match spec_u16(s) {
        Some((n, s1)) => spec_repeat(s1, n as nat, item),
        None => None,
    }
}

/// A `u32` count, then that many items.
pub open spec fn spec_u32_counted<T>(s: StreamModel, item: spec_fn(StreamModel) -> SpecRead<T>) -> SpecRead<Seq<T>> {
    match spec_u32(s) {
        Some((n, s1)) => spec_repeat(s1, n as nat, item),
        None => None,
    }
}

/// The map that key-value pairs `es` make, a later pair for a key replacing an earlier one.
pub open spec fn pairs_to_map<K, V>(es: Seq<(K, V)>) -> Map<K, V>
    decreases es.len(),
{
    if es.len() == 0 {
        Map::empty()
    } else {
        pairs_to_map(es.drop_last()).insert(es.last().0, es.last().1)
    }
}

/// The views of the values of a map whose values are shared.
pub open spec fn rc_map_view<V: View>(m: Map<u32, std::rc::Rc<V>>) -> Map<u32, V::V> {
    Map::new(|k: u32| m.contains_key(k), |k: u32| m[k]@)
}

pub proof fn lemma_rc_map_view_insert<V: View>(m: Map<u32, std::rc::Rc<V>>, k: u32, v: std::rc::Rc<V>)
    ensures
        rc_map_view(m.insert(k, v)) == rc_map_view(m).insert(k, v@),
{
    assert(rc_map_view(m.insert(k, v)) =~= rc_map_view(m).insert(k, v@));
}

/// Adding a pair at the end of `es` inserts it into the map.
pub proof fn lemma_pairs_to_map_push<K, V>(es: Seq<(K, V)>, k: K, v: V)
    ensures
        pairs_to_map(es.push((k, v))) == pairs_to_map(es).insert(k, v),
{
    assert(es.push((k, v)).drop_last() =~= es);
}

/// The views of the elements of `v`.
pub open spec fn views<T: View>(v: Seq<T>) -> Seq<T::V> {
    v.map_values(|x: T| x@)
}

} // verus!
