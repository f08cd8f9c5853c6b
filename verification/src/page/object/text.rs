//! Text boxes.
use vstd::prelude::*;

use crate::bits::{bit_is_set, CheckedBitfield};
use crate::byte_stream::{
    opt_view, spec_continue, spec_f32, spec_opt, spec_take, spec_then, spec_u16, spec_u32,
    ByteStream, ExactSizedStream, IoError, RawF32, SpecRead, StreamModel, UnfinishedParsingError,
};
use crate::context::{DocumentContext, TryParseWithContext};
use crate::page::object::base::{spec_flex, ObjectBase};
use crate::page::object::header::{spec_object_header, ObjectHeader, ObjectHeaderError};
use crate::page::object::shape::{
    shape_model, spec_border_type, spec_shape, BorderType, InvalidBorderTypeError, Shape,
    ShapeDataModel, ShapeModel, ShapeParseContext, ShapeParseError,
};
use crate::page::object::NESTING_LIMIT;

verus! {

/// Failure to read a text box.
#[derive(Debug)]
pub enum TextParseError {
    Io(IoError),
    Shape(ShapeParseError),
    Header(ObjectHeaderError),
    BadBorderType(InvalidBorderTypeError),
    Unfinished(UnfinishedParsingError),
}

fn read_text_opt_border_colour(r: &mut ByteStream, present: bool) -> (res: Result<Option<[u8; 4]>, TextParseError>)
    ensures
        match spec_opt(present, spec_take(old(r)@, 4), old(r)@) {
            Some((m, s2)) => res matches Ok(v) && opt_view(v) == m && final(r)@ == s2,
            None => res is Err,
        },
        final(r)@.same_frame(old(r)@),
{
    if present {
        Ok(Some(match r.read_4_bytes() {
            Ok(v) => v,
            Err(e) => return Err(TextParseError::Io(e)),
        }))
    } else {
        Ok(None)
    }
}

fn read_text_opt_border_width(r: &mut ByteStream, present: bool) -> (res: Result<Option<RawF32>, TextParseError>)
    ensures
        match spec_opt(present, spec_f32(old(r)@), old(r)@) {
            Some((m, s2)) => res matches Ok(v) && v == m && final(r)@ == s2,
            None => res is Err,
        },
        final(r)@.same_frame(old(r)@),
{
    if present {
        Ok(Some(match r.read_f32_le() {
            Ok(v) => v,
            Err(e) => return Err(TextParseError::Io(e)),
        }))
    } else {
        Ok(None)
    }
}

fn read_text_opt_border_type(r: &mut ByteStream, present: bool) -> (res: Result<Option<BorderType>, TextParseError>)
    ensures
        match spec_opt(present, spec_then(spec_u16(old(r)@), |v: u16| spec_border_type(v)), old(r)@) {
            Some((m, s2)) => res matches Ok(v) && v == m && final(r)@ == s2,
            None => res is Err,
        },
        final(r)@.same_frame(old(r)@),
{
    if present {
        Ok(Some({
            let raw = match r.read_u16_le() {
            Ok(v) => v,
            Err(e) => return Err(TextParseError::Io(e)),
        };
            match BorderType::try_from_u16(raw) {
                Ok(v) => v,
                Err(e) => return Err(TextParseError::BadBorderType(e)),
            }
        }))
    } else {
        Ok(None)
    }
}

/// The border of a text box: colour (bit 1), width (bit 2) and type (bit 3).
#[verifier::opaque]
pub open spec fn spec_text_opt(s: StreamModel, fb: u32) -> SpecRead<(Option<Seq<u8>>, Option<RawF32>, Option<BorderType>)> {
    match spec_opt(bit_is_set(fb, 1), spec_take(s, 4), s) {
        Some((border_colour, s1)) => 
        match spec_opt(bit_is_set(fb, 2), spec_f32(s1), s1) {
            Some((border_width, s2)) => 
            match spec_opt(bit_is_set(fb, 3), spec_then(spec_u16(s2), |v: u16| spec_border_type(v)), s2) {
                Some((border_type, s3)) => Some(((border_colour, border_width, border_type), s3)),
                None => None,
            },
            None => None,
        },
        None => None,
    }
}

fn read_text_opt(r: &mut ByteStream, flags: &mut CheckedBitfield) -> (res: Result<(Option<[u8; 4]>, Option<RawF32>, Option<BorderType>), TextParseError>)
    ensures
        match spec_text_opt(old(r)@, old(flags).bits()) {
            Some((m, s2)) => res matches Ok(v) && opt_view(v.0) == m.0
                && v.1 == m.1
                && v.2 == m.2
                && final(flags).bits() == old(flags).bits()
                && final(flags).checked() == old(flags).checked() | 0xe
                && final(r)@ == s2,
            None => res is Err,
        },
        final(r)@.same_frame(old(r)@),
{
    reveal(spec_text_opt);
    let ghost c0 = flags.checked();
    let present_border_colour: bool = flags.check_bit(1);
    let ghost c1 = flags.checked();
    let border_colour: Option<[u8; 4]> = read_text_opt_border_colour(r, present_border_colour)?;
    let present_border_width: bool = flags.check_bit(2);
    let ghost c2 = flags.checked();
    let border_width: Option<RawF32> = read_text_opt_border_width(r, present_border_width)?;
    let present_border_type: bool = flags.check_bit(3);
    let ghost c3 = flags.checked();
    let border_type: Option<BorderType> = read_text_opt_border_type(r, present_border_type)?;
    proof {
        crate::bits::lemma_or_assoc(c0, crate::bits::bit_mask(1u8), crate::bits::bit_mask(2u8));
        crate::bits::lemma_or_assoc(c0, crate::bits::bit_mask(1u8) | crate::bits::bit_mask(2u8), crate::bits::bit_mask(3u8));
        crate::bits::lemma_chunk_masks();
        assert(c3 == c0 | 0xeu32);
    }
    Ok((border_colour, border_width, border_type))
}


/// A text box: a shape with a border.
#[derive(Debug)]
pub struct Text {
    pub shape: Shape,
}

pub struct TextModel {
    pub shape: ShapeModel,
}

#[verifier::opaque]
pub open spec fn text_model(t: &Text, depth: nat) -> TextModel
    decreases depth, 8nat, 0nat,
{
    TextModel { shape: shape_model(&t.shape, depth) }
}

/// A text box: a shape (not a plain one), then an object block of data type 2 with no property
/// bits and the border fields, using every byte.
#[verifier::opaque]
pub open spec fn spec_text(s: StreamModel, depth: nat) -> SpecRead<TextModel>
    decreases depth, 8nat, 0nat,
{
    match spec_shape(s, false, depth) {
        Some((sh, s1)) => match spec_object_header(s1, 2) {
            Some((fb, w, s2)) => match spec_flex(w, fb) {
                Some((wf, ff)) => match spec_text_opt(wf, ff) {
                    Some((o, w1)) => if fb.property_bits == 0 && ff & !0xeu32 == 0 && w1.remaining() == 0 {
                        Some((TextModel {
                            shape: ShapeModel {
                                shape_data: ShapeDataModel {
                                    border_colour: o.0,
                                    border_width: o.1,
                                    border_type: o.2,
                                    ..sh.shape_data
                                },
                                ..sh
                            },
                        }, spec_continue(s2, w1)))
                    } else {
                        None
                    },
                    None => None,
                },
                None => None,
            },
            None => None,
        },
        None => None,
    }
}

impl Text {
    /// Reads a text box whose text may hold objects nested `depth` more levels.
    #[verifier::rlimit(100)]
    #[verifier::spinoff_prover]
    pub fn parse_nested(stream: &mut ByteStream, doc_ctx: &DocumentContext, depth: u32) -> (r: Result<Text, TextParseError>)
        ensures
            match spec_text(old(stream)@, depth as nat) {
                Some((m, s2)) => r matches Ok(v) && text_model(&v, depth as nat) == m && final(stream)@ == s2,
                None => r is Err,
            },
            final(stream)@.same_frame(old(stream)@),
        decreases depth, 8nat,
    {
        proof {
            reveal(spec_text);
            reveal(text_model);
            reveal(shape_model);
        }
        let mut shape: Shape = match Shape::parse_nested(stream, &ShapeParseContext { is_shape_only: false, doc_ctx: *doc_ctx }, depth) {
            Ok(v) => v,
            Err(e) => return Err(TextParseError::Shape(e)),
        };
        let (mut header, mut w) = match ObjectHeader::try_parse(stream, 2) {
            Ok(v) => v,
            Err(e) => return Err(TextParseError::Header(e)),
        };
        let ff: &mut CheckedBitfield = match header.init_flex(&mut w) {
            Ok(f) => f,
            Err(e) => return Err(TextParseError::Io(e)),
        };
        let o = read_text_opt(&mut w, ff)?;
        proof {
            let fc = header.0.field_flags().checked();
            crate::bits::lemma_zero_or(0xeu32);
            assert(fc == 0xeu32);
            let pb = header.0.property_flags().bits();
            crate::bits::lemma_and_not_zero(pb);
        }
        if let Err(e) = header.ensure_flags_used() {
            return Err(TextParseError::Header(e));
        }
        if let Err(e) = w.ensure_eof() {
            return Err(TextParseError::Unfinished(e));
        }
        proof { use_type_invariant(&*stream); use_type_invariant(&w); }
        stream.continue_after(&w);
        shape.shape_data.border_colour = o.0;
        shape.shape_data.border_width = o.1;
        shape.shape_data.border_type = o.2;
        Ok(Text { shape })
    }

    pub fn raw_string(&self) -> (r: Option<&str>)
        ensures
            match r {
                Some(t) => self.shape.text_data.text_common matches Some(c) && t@ == c.text@,
                None => self.shape.text_data.text_common is None,
            },
    {
        self.shape.raw_text_string()
    }

    pub fn object_base(&self) -> (r: &ObjectBase)
        ensures
            r@ == self.shape.shape_base@.object_base,
    {
        self.shape.object_base()
    }
}

impl<'a, 'fr, 'sr> TryParseWithContext<ByteStream<'a>, DocumentContext<'fr, 'sr>> for Text {
    type ParseError = TextParseError;

    fn try_parse_with_ctx(stream: &mut ByteStream<'a>, doc_ctx: &DocumentContext<'fr, 'sr>) -> (r: Result<Text, TextParseError>)
        ensures
            match spec_text(old(stream)@, NESTING_LIMIT as nat) {
                Some((m, s2)) => r matches Ok(v) && text_model(&v, NESTING_LIMIT as nat) == m && final(stream)@ == s2,
                None => r is Err,
            },
            final(stream)@.same_frame(old(stream)@),
    {
        Text::parse_nested(stream, doc_ctx, NESTING_LIMIT)
    }
}

} // verus!
