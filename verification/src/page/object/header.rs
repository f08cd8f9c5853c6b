//! The header that opens each object block: its size, data type and flag block.
use vstd::prelude::*;

use crate::bits::CheckedBitfield;
use crate::bits::UnhandledBitsError;
use crate::byte_stream::{
    spec_bitfield, spec_blind, spec_inclusive_window, spec_seek, spec_u16, spec_u32, ByteStream,
    IoError, ReadBitfieldError, SpecRead, StreamModel, TakeInclusiveLengthPrefixedError,
};

verus! {

/// Failure to read a flag block, or flags that were left unhandled.
#[derive(Debug, Clone, Copy, PartialEq, Eq, Structural)]
pub enum FlagBlockError {
    Io(IoError),
    /// The property flags could not be read.
    PropertyFlags(ReadBitfieldError),
    /// The field flags could not be read.
    FieldFlags(ReadBitfieldError),
    /// One or more property flags were not handled.
    UnhandledProperty(UnhandledBitsError),
    /// One or more field flags were not handled.
    UnhandledField(UnhandledBitsError),
}

/// The offset of an object's optional fields, and the flags that say which properties are set
/// and which optional fields are present.
pub struct FlagBlock {
    flex_offset: u32,
    property_flags: CheckedBitfield,
    field_flags: CheckedBitfield,
}

/// What a flag block holds when read: the flex offset, the property bits and the field bits.
pub struct FlagBlockModel {
    pub flex_offset: u32,
    pub property_bits: u32,
    pub field_bits: u32,
}

/// A `u32` flex offset, then the property flags and the field flags as variable-length
/// bitfields.
pub open spec fn spec_flag_block(s: StreamModel) -> SpecRead<FlagBlockModel> {
    match spec_u32(s) {
        Some((flex_offset, s1)) => match spec_bitfield(s1) {
            Ok((property_bits, s2)) => match spec_bitfield(s2) {
                Ok((field_bits, s3)) => Some((FlagBlockModel { flex_offset, property_bits, field_bits }, s3)),
                Err(_) => None,
            },
            Err(_) => None,
        },
        None => None,
    }
}

/// The error that reading a flag block gives, if it fails: the first of the flex offset, the
/// property flags and the field flags that cannot be read.
pub open spec fn spec_flag_block_error(s: StreamModel) -> Option<FlagBlockError> {
    match spec_u32(s) {
        Some((_, s1)) => match spec_bitfield(s1) {
            Ok((_, s2)) => match spec_bitfield(s2) {
                Ok(_) => None,
                Err(e) => Some(FlagBlockError::FieldFlags(e)),
            },
            Err(e) => Some(FlagBlockError::PropertyFlags(e)),
        },
        None => Some(FlagBlockError::Io(IoError::UnexpectedEof)),
    }
}

impl FlagBlock {
    pub closed spec fn flex_offset(self) -> u32 {
        self.flex_offset
    }

    pub closed spec fn property_flags(self) -> CheckedBitfield {
        self.property_flags
    }

    pub closed spec fn field_flags(self) -> CheckedBitfield {
        self.field_flags
    }

    /// Whether this block is the one read as `m`, with no flag checked yet.
    pub open spec fn is_fresh(self, m: FlagBlockModel) -> bool {
        &&& self.flex_offset() == m.flex_offset
        &&& self.property_flags().bits() == m.property_bits
        &&& self.property_flags().checked() == 0
        &&& self.field_flags().bits() == m.field_bits
        &&& self.field_flags().checked() == 0
    }

    pub fn try_parse(stream: &mut ByteStream) -> (r: Result<FlagBlock, FlagBlockError>)
        ensures
            match spec_flag_block(old(stream)@) {
                Some((m, s2)) => r matches Ok(v) && v.is_fresh(m) && final(stream)@ == s2,
                None => r is Err,
            },
            spec_flag_block_error(old(stream)@) matches Some(e) ==> r == Err::<FlagBlock, FlagBlockError>(e),
            final(stream)@.same_frame(old(stream)@),
    {
        let flex_offset: u32 = match stream.read_u32_le() {
            Ok(v) => v,
            Err(e) => return Err(FlagBlockError::Io(e)),
        };
        let property_flags: CheckedBitfield = match CheckedBitfield::try_parse(stream) {
            Ok(v) => v,
            Err(e) => return Err(FlagBlockError::PropertyFlags(e)),
        };
        let field_flags: CheckedBitfield = match CheckedBitfield::try_parse(stream) {
            Ok(v) => v,
            Err(e) => return Err(FlagBlockError::FieldFlags(e)),
        };
        Ok(FlagBlock { flex_offset, property_flags, field_flags })
    }

    pub fn property_flags_mut(&mut self) -> (r: &mut CheckedBitfield)
        ensures
            *r == old(self).property_flags(),
            final(self).property_flags() == *final(r),
            final(self).field_flags() == old(self).field_flags(),
            final(self).flex_offset() == old(self).flex_offset(),
    {
        &mut self.property_flags
    }

    pub fn field_flags_mut(&mut self) -> (r: &mut CheckedBitfield)
        ensures
            *r == old(self).field_flags(),
            final(self).field_flags() == *final(r),
            final(self).property_flags() == old(self).property_flags(),
            final(self).flex_offset() == old(self).flex_offset(),
    {
        &mut self.field_flags
    }
}


impl FlagBlock {
    /// Seeks to the flex offset and returns the field flags, so the optional fields can be read
    /// immediately using the flags. A flex offset of zero means there are no optional fields:
    /// the stream stays where it is and the field flags are cleared.
    ///
    /// `reader` must have position 0 at the point the flex offset is relative to.
    pub fn init_flex<'me>(&'me mut self, reader: &mut ByteStream) -> (r: Result<&'me mut CheckedBitfield, IoError>)
        ensures
            final(reader)@.same_frame(old(reader)@),
            final(self).property_flags() == old(self).property_flags(),
            final(self).flex_offset() == old(self).flex_offset(),
            old(self).flex_offset() == 0 ==> (r matches Ok(fr) && fr.bits() == 0 && fr.checked() == 0
                && final(self).field_flags() == *final(fr) && final(reader)@ == old(reader)@),
            old(self).flex_offset() != 0 ==> match spec_seek(old(reader)@, old(self).flex_offset() as int) {
                Some(s2) => r matches Ok(fr) && *fr == old(self).field_flags()
                    && final(self).field_flags() == *final(fr) && final(reader)@ == s2,
                None => r is Err,
            },
    {
        if self.flex_offset != 0 {
            match reader.seek_to(self.flex_offset as u64) {
                Ok(()) => {},
                Err(e) => return Err(e),
            }
        } else {
            self.field_flags.clear();
        }
        Ok(&mut self.field_flags)
    }
}


impl FlagBlock {
    /// Fails if any set property or field flag was never checked.
    pub fn ensure_flags_used(self) -> (r: Result<(), FlagBlockError>)
        ensures
            r is Ok <==> self.property_flags().unchecked_set() == 0 && self.field_flags().unchecked_set() == 0,
            self.property_flags().unchecked_set() != 0 ==> r == Err::<(), FlagBlockError>(
                FlagBlockError::UnhandledProperty(UnhandledBitsError(self.property_flags().unchecked_set()))),
            self.property_flags().unchecked_set() == 0 && self.field_flags().unchecked_set() != 0
                ==> r == Err::<(), FlagBlockError>(
                FlagBlockError::UnhandledField(UnhandledBitsError(self.field_flags().unchecked_set()))),
    {
        if let Err(e) = self.property_flags.ensure_none_set_unchecked() {
            return Err(FlagBlockError::UnhandledProperty(e));
        }
        if let Err(e) = self.field_flags.ensure_none_set_unchecked() {
            return Err(FlagBlockError::UnhandledField(e));
        }
        Ok(())
    }
}

/// Failure to read an object header.
#[derive(Debug, Clone, Copy, PartialEq, Eq, Structural)]
pub enum ObjectHeaderError {
    Io(IoError),
    BadSize(TakeInclusiveLengthPrefixedError),
    FlagBlock(FlagBlockError),
    /// The block holds another data type than the one expected.
    WrongDataType { is: u16, not: u16 },
}

/// The character of the decimal digit `d` (below 10).
pub open spec fn digit_char(d: nat) -> char {
    if d == 0 { '0' } else if d == 1 { '1' } else if d == 2 { '2' } else if d == 3 { '3' }
    else if d == 4 { '4' } else if d == 5 { '5' } else if d == 6 { '6' } else if d == 7 { '7' }
    else if d == 8 { '8' } else { '9' }
}

/// The decimal text of `n`, most significant digit first, without leading zeros.
pub open spec fn decimal_chars(n: nat) -> Seq<char>
    decreases n,
{
    if n < 10 {
        seq![digit_char(n)]
    } else {
        decimal_chars(n / 10).push(digit_char(n % 10))
    }
}

fn digit_str(d: u16) -> (r: &'static str)
    requires
        d < 10,
    ensures
        r@ == seq![digit_char(d as nat)],
{
    proof {
        reveal_strlit("0"); reveal_strlit("1"); reveal_strlit("2"); reveal_strlit("3");
        reveal_strlit("4"); reveal_strlit("5"); reveal_strlit("6"); reveal_strlit("7");
        reveal_strlit("8"); reveal_strlit("9");
    }
    if d == 0 { "0" } else if d == 1 { "1" } else if d == 2 { "2" } else if d == 3 { "3" }
    else if d == 4 { "4" } else if d == 5 { "5" } else if d == 6 { "6" } else if d == 7 { "7" }
    else if d == 8 { "8" } else { "9" }
}

/// The decimal text of `n`.
fn decimal_string(n: u16) -> (r: String)
    ensures
        r@ == decimal_chars(n as nat),
    decreases n,
{
    if n < 10 {
        digit_str(n).to_owned()
    } else {
        let head: String = decimal_string(n / 10);
        let r: String = head.concat(digit_str(n % 10));
        proof { assert(r@ =~= decimal_chars((n / 10) as nat).push(digit_char((n % 10) as nat))); }
        r
    }
}

impl ObjectHeaderError {
    /// The message of a wrong data type: the data type expected, then the one found, as
    /// "expected data type {expected}, not {found}". `None` for the other errors, whose messages
    /// are those of the errors they hold.
    pub fn data_type_message(&self) -> (r: Option<String>)
        ensures
            match *self {
                ObjectHeaderError::WrongDataType { is, not } => r matches Some(m)
                    && m@ == "expected data type "@ + decimal_chars(not as nat) + ", not "@ + decimal_chars(is as nat),
                _ => r is None,
            },
    {
        match self {
            ObjectHeaderError::WrongDataType { is, not } => {
                let expected: String = decimal_string(*not);
                let found: String = decimal_string(*is);
                let m: String = "expected data type ".to_owned().concat(expected.as_str()).concat(", not ").concat(found.as_str());
                Some(m)
            },
            _ => None,
        }
    }
}

/// An object block: an inclusive `u32` size, a `u16` data type that must be `expected`, and a
/// flag block. Gives the flag block, the block's window (positions counted from the start of
/// the size field, left after the flag block) and the outer stream (left after the size field).
pub open spec fn spec_object_header(s: StreamModel, expected: u16) -> Option<(FlagBlockModel, StreamModel, StreamModel)> {
    match spec_inclusive_window(s) {
        Ok(w) => {
            let wb = spec_blind(w);
            match spec_u16(wb) {
                Some((data_type, w1)) => if data_type != expected {
                    None
                } else {
                    match spec_flag_block(w1) {
                        Some((fb, w2)) => match spec_u32(s) {
                            Some((_, s1)) => Some((fb, w2, s1)),
                            None => None,
                        },
                        None => None,
                    }
                },
                None => None,
            }
        },
        Err(_) => None,
    }
}

/// The error that reading the header of an object block of type `expected` gives, if it fails:
/// a bad size, a missing data type, another data type (`is` the one found, `not` the one
/// expected), or the flag block's own error.
pub open spec fn spec_object_header_error(s: StreamModel, expected: u16) -> Option<ObjectHeaderError> {
    match spec_inclusive_window(s) {
        Ok(w) => match spec_u16(spec_blind(w)) {
            Some((data_type, w1)) => if data_type != expected {
                Some(ObjectHeaderError::WrongDataType { is: data_type, not: expected })
            } else {
                match spec_flag_block_error(w1) {
                    Some(e) => Some(ObjectHeaderError::FlagBlock(e)),
                    None => None,
                }
            },
            None => Some(ObjectHeaderError::Io(IoError::UnexpectedEof)),
        },
        Err(e) => Some(ObjectHeaderError::BadSize(e)),
    }
}

/// Reads the header of an object block of type `expected_data_type`, and returns its flag block
/// and the window of the block (see `spec_object_header`).
pub fn try_parse_object_header<'a>(stream: &mut ByteStream<'a>, expected_data_type: u16) -> (r: Result<(FlagBlock, ByteStream<'a>), ObjectHeaderError>)
    ensures
        match spec_object_header(old(stream)@, expected_data_type) {
            Some((fb, w, s1)) => r matches Ok((h, rw)) && h.is_fresh(fb) && rw@ == w && final(stream)@ == s1,
            None => r is Err,
        },
        spec_object_header_error(old(stream)@, expected_data_type) matches Some(e)
            ==> (r matches Err(re) && re == e),
        final(stream)@.same_frame(old(stream)@),
{
    let w0: ByteStream<'a> = match stream.take_inclusive_length_prefixed() {
        Ok(w) => w,
        Err(e) => return Err(ObjectHeaderError::BadSize(e)),
    };
    let mut w: ByteStream<'a> = w0.into_blind();
    let data_type: u16 = match w.read_u16_le() {
        Ok(v) => v,
        Err(e) => return Err(ObjectHeaderError::Io(e)),
    };
    if data_type != expected_data_type {
        return Err(ObjectHeaderError::WrongDataType { is: data_type, not: expected_data_type });
    }
    let fb: FlagBlock = match FlagBlock::try_parse(&mut w) {
        Ok(v) => v,
        Err(e) => return Err(ObjectHeaderError::FlagBlock(e)),
    };
    Ok((fb, w))
}

/// The header of an object block.
pub struct ObjectHeader(pub FlagBlock);

impl ObjectHeader {
    /// Reads the header of an object block of type `expected_data_type` (see
    /// `try_parse_object_header`).
    pub fn try_parse<'a>(stream: &mut ByteStream<'a>, expected_data_type: u16) -> (r: Result<(ObjectHeader, ByteStream<'a>), ObjectHeaderError>)
        ensures
            match spec_object_header(old(stream)@, expected_data_type) {
                Some((fb, w, s1)) => r matches Ok((h, rw)) && h.0.is_fresh(fb) && rw@ == w && final(stream)@ == s1,
                None => r is Err,
            },
            spec_object_header_error(old(stream)@, expected_data_type) matches Some(e)
                ==> (r matches Err(re) && re == e),
            final(stream)@.same_frame(old(stream)@),
    {
        match try_parse_object_header(stream, expected_data_type) {
            Ok((fb, w)) => Ok((ObjectHeader(fb), w)),
            Err(e) => Err(e),
        }
    }

    pub fn property_flags_mut(&mut self) -> (r: &mut CheckedBitfield)
        ensures
            *r == old(self).0.property_flags(),
            final(self).0.property_flags() == *final(r),
            final(self).0.field_flags() == old(self).0.field_flags(),
            final(self).0.flex_offset() == old(self).0.flex_offset(),
    {
        self.0.property_flags_mut()
    }

    /// See `FlagBlock::init_flex`.
    pub fn init_flex<'me>(&'me mut self, reader: &mut ByteStream) -> (r: Result<&'me mut CheckedBitfield, IoError>)
        ensures
            final(reader)@.same_frame(old(reader)@),
            final(self).0.property_flags() == old(self).0.property_flags(),
            final(self).0.flex_offset() == old(self).0.flex_offset(),
            old(self).0.flex_offset() == 0 ==> (r matches Ok(fr) && fr.bits() == 0 && fr.checked() == 0
                && final(self).0.field_flags() == *final(fr) && final(reader)@ == old(reader)@),
            old(self).0.flex_offset() != 0 ==> match spec_seek(old(reader)@, old(self).0.flex_offset() as int) {
                Some(s2) => r matches Ok(fr) && *fr == old(self).0.field_flags()
                    && final(self).0.field_flags() == *final(fr) && final(reader)@ == s2,
                None => r is Err,
            },
    {
        self.0.init_flex(reader)
    }

    /// Fails if any set property or field flag was never checked.
    pub fn ensure_flags_used(self) -> (r: Result<(), ObjectHeaderError>)
        ensures
            r is Ok <==> self.0.property_flags().unchecked_set() == 0 && self.0.field_flags().unchecked_set() == 0,
            self.0.property_flags().unchecked_set() != 0 ==> r == Err::<(), ObjectHeaderError>(ObjectHeaderError::FlagBlock(
                FlagBlockError::UnhandledProperty(UnhandledBitsError(self.0.property_flags().unchecked_set())))),
            self.0.property_flags().unchecked_set() == 0 && self.0.field_flags().unchecked_set() != 0
                ==> r == Err::<(), ObjectHeaderError>(ObjectHeaderError::FlagBlock(
                FlagBlockError::UnhandledField(UnhandledBitsError(self.0.field_flags().unchecked_set())))),
    {
        match self.0.ensure_flags_used() {
            Ok(()) => Ok(()),
            Err(e) => Err(ObjectHeaderError::FlagBlock(e)),
        }
    }
}

} // verus!
