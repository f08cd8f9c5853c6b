//! Images.
use vstd::prelude::*;

use crate::bits::{bit_is_set, CheckedBitfield};
use crate::byte_stream::{
    opt_view, spec_continue, spec_f32, spec_opt, spec_take, spec_then, spec_u16, spec_u32,
    ByteStream, ExactSizedStream, IoError, RawF32, SpecRead, StreamModel, UnfinishedParsingError,
};
use crate::context::{DocumentContext, TryParseWithContext};
use crate::page::object::base::{spec_flex, ObjectBase};
use crate::page::object::header::{spec_object_header, ObjectHeader, ObjectHeaderError};
use crate::page::object::shape::{
    shape_model, spec_border_type, spec_shape, BorderType, InvalidBorderTypeError, Shape,
    ImageDataModel, ShapeDataModel, ShapeModel, ShapeParseContext, ShapeParseError,
};
use crate::page::object::NESTING_LIMIT;
use crate::page::object::shared::{spec_rect, spec_rect_f32, spec_rect_i32, Rect, RectF32, RectI32};

verus! {

/// Failure to read an image.
#[derive(Debug)]
pub enum ImageParseError {
    Io(IoError),
    Shape(ShapeParseError),
    Header(ObjectHeaderError),
    BadBorderType(InvalidBorderTypeError),
    Unfinished(UnfinishedParsingError),
}

fn read_image_opt1_crop_rect(r: &mut ByteStream, present: bool) -> (res: Result<Option<RectI32>, ImageParseError>)
    ensures
        match spec_opt(present, spec_rect_i32(old(r)@), old(r)@) {
            Some((m, s2)) => res matches Ok(v) && v == m && final(r)@ == s2,
            None => res is Err,
        },
        final(r)@.same_frame(old(r)@),
{
    if present {
        Ok(Some(match RectI32::try_parse_i32(r) {
            Ok(v) => v,
            Err(e) => return Err(ImageParseError::Io(e)),
        }))
    } else {
        Ok(None)
    }
}

fn read_image_opt1_border_colour(r: &mut ByteStream, present: bool) -> (res: Result<Option<[u8; 4]>, ImageParseError>)
    ensures
        match spec_opt(present, spec_take(old(r)@, 4), old(r)@) {
            Some((m, s2)) => res matches Ok(v) && opt_view(v) == m && final(r)@ == s2,
            None => res is Err,
        },
        final(r)@.same_frame(old(r)@),
{
    if present {
        Ok(Some(match r.read_4_bytes() {
            Ok(v) => v,
            Err(e) => return Err(ImageParseError::Io(e)),
        }))
    } else {
        Ok(None)
    }
}

fn read_image_opt1_border_width(r: &mut ByteStream, present: bool) -> (res: Result<Option<RawF32>, ImageParseError>)
    ensures
        match spec_opt(present, spec_f32(old(r)@), old(r)@) {
            Some((m, s2)) => res matches Ok(v) && v == m && final(r)@ == s2,
            None => res is Err,
        },
        final(r)@.same_frame(old(r)@),
{
    if present {
        Ok(Some(match r.read_f32_le() {
            Ok(v) => v,
            Err(e) => return Err(ImageParseError::Io(e)),
        }))
    } else {
        Ok(None)
    }
}

fn read_image_opt1_border_type(r: &mut ByteStream, present: bool) -> (res: Result<Option<BorderType>, ImageParseError>)
    ensures
        match spec_opt(present, spec_then(spec_u16(old(r)@), |v: u16| spec_border_type(v)), old(r)@) {
            Some((m, s2)) => res matches Ok(v) && v == m && final(r)@ == s2,
            None => res is Err,
        },
        final(r)@.same_frame(old(r)@),
{
    if present {
        Ok(Some({
            let raw = match r.read_u16_le() {
            Ok(v) => v,
            Err(e) => return Err(ImageParseError::Io(e)),
        };
            match BorderType::try_from_u16(raw) {
                Ok(v) => v,
                Err(e) => return Err(ImageParseError::BadBorderType(e)),
            }
        }))
    } else {
        Ok(None)
    }
}

/// Crop and border fields of an image.
#[verifier::opaque]
pub open spec fn spec_image_opt1(s: StreamModel, fb: u32) -> SpecRead<(Option<RectI32>, Option<Seq<u8>>, Option<RawF32>, Option<BorderType>)> {
    match spec_opt(bit_is_set(fb, 1), spec_rect_i32(s), s) {
        Some((crop_rect, s1)) => 
        match spec_opt(bit_is_set(fb, 3), spec_take(s1, 4), s1) {
            Some((border_colour, s2)) => 
            match spec_opt(bit_is_set(fb, 4), spec_f32(s2), s2) {
                Some((border_width, s3)) => 
                match spec_opt(bit_is_set(fb, 5), spec_then(spec_u16(s3), |v: u16| spec_border_type(v)), s3) {
                    Some((border_type, s4)) => Some(((crop_rect, border_colour, border_width, border_type), s4)),
                    None => None,
                },
                None => None,
            },
            None => None,
        },
        None => None,
    }
}

fn read_image_opt1(r: &mut ByteStream, flags: &mut CheckedBitfield) -> (res: Result<(Option<RectI32>, Option<[u8; 4]>, Option<RawF32>, Option<BorderType>), ImageParseError>)
    ensures
        match spec_image_opt1(old(r)@, old(flags).bits()) {
            Some((m, s2)) => res matches Ok(v) && v.0 == m.0
                && opt_view(v.1) == m.1
                && v.2 == m.2
                && v.3 == m.3
                && final(flags).bits() == old(flags).bits()
                && final(flags).checked() == old(flags).checked() | 0x3a
                && final(r)@ == s2,
            None => res is Err,
        },
        final(r)@.same_frame(old(r)@),
{
    reveal(spec_image_opt1);
    let ghost c0 = flags.checked();
    let present_crop_rect: bool = flags.check_bit(1);
    let ghost c1 = flags.checked();
    let crop_rect: Option<RectI32> = read_image_opt1_crop_rect(r, present_crop_rect)?;
    let present_border_colour: bool = flags.check_bit(3);
    let ghost c2 = flags.checked();
    let border_colour: Option<[u8; 4]> = read_image_opt1_border_colour(r, present_border_colour)?;
    let present_border_width: bool = flags.check_bit(4);
    let ghost c3 = flags.checked();
    let border_width: Option<RawF32> = read_image_opt1_border_width(r, present_border_width)?;
    let present_border_type: bool = flags.check_bit(5);
    let ghost c4 = flags.checked();
    let border_type: Option<BorderType> = read_image_opt1_border_type(r, present_border_type)?;
    proof {
        crate::bits::lemma_or_assoc(c0, crate::bits::bit_mask(1u8), crate::bits::bit_mask(3u8));
        crate::bits::lemma_or_assoc(c0, crate::bits::bit_mask(1u8) | crate::bits::bit_mask(3u8), crate::bits::bit_mask(4u8));
        crate::bits::lemma_or_assoc(c0, crate::bits::bit_mask(1u8) | crate::bits::bit_mask(3u8) | crate::bits::bit_mask(4u8), crate::bits::bit_mask(5u8));
        crate::bits::lemma_chunk_masks();
        assert(c4 == c0 | 0x3au32);
    }
    Ok((crop_rect, border_colour, border_width, border_type))
}

fn read_image_opt2_border_image_bind_id(r: &mut ByteStream, present: bool) -> (res: Result<Option<u32>, ImageParseError>)
    ensures
        match spec_opt(present, spec_u32(old(r)@), old(r)@) {
            Some((m, s2)) => res matches Ok(v) && v == m && final(r)@ == s2,
            None => res is Err,
        },
        final(r)@.same_frame(old(r)@),
{
    if present {
        Ok(Some(match r.read_u32_le() {
            Ok(v) => v,
            Err(e) => return Err(ImageParseError::Io(e)),
        }))
    } else {
        Ok(None)
    }
}

fn read_image_opt2_border_image_nine_patch_rect(r: &mut ByteStream, present: bool) -> (res: Result<Option<RectI32>, ImageParseError>)
    ensures
        match spec_opt(present, spec_rect_i32(old(r)@), old(r)@) {
            Some((m, s2)) => res matches Ok(v) && v == m && final(r)@ == s2,
            None => res is Err,
        },
        final(r)@.same_frame(old(r)@),
{
    if present {
        Ok(Some(match RectI32::try_parse_i32(r) {
            Ok(v) => v,
            Err(e) => return Err(ImageParseError::Io(e)),
        }))
    } else {
        Ok(None)
    }
}

fn read_image_opt2_border_line_width(r: &mut ByteStream, present: bool) -> (res: Result<Option<RectF32>, ImageParseError>)
    ensures
        match spec_opt(present, spec_rect_f32(old(r)@), old(r)@) {
            Some((m, s2)) => res matches Ok(v) && v == m && final(r)@ == s2,
            None => res is Err,
        },
        final(r)@.same_frame(old(r)@),
{
    if present {
        Ok(Some(match RectF32::try_parse_f32(r) {
            Ok(v) => v,
            Err(e) => return Err(ImageParseError::Io(e)),
        }))
    } else {
        Ok(None)
    }
}

fn read_image_opt2_border_image_nine_patch_width(r: &mut ByteStream, present: bool) -> (res: Result<Option<u32>, ImageParseError>)
    ensures
        match spec_opt(present, spec_u32(old(r)@), old(r)@) {
            Some((m, s2)) => res matches Ok(v) && v == m && final(r)@ == s2,
            None => res is Err,
        },
        final(r)@.same_frame(old(r)@),
{
    if present {
        Ok(Some(match r.read_u32_le() {
            Ok(v) => v,
            Err(e) => return Err(ImageParseError::Io(e)),
        }))
    } else {
        Ok(None)
    }
}

/// Border image fields of an image.
#[verifier::opaque]
pub open spec fn spec_image_opt2(s: StreamModel, fb: u32) -> SpecRead<(Option<u32>, Option<RectI32>, Option<RectF32>, Option<u32>)> {
    match spec_opt(bit_is_set(fb, 9), spec_u32(s), s) {
        Some((border_image_bind_id, s1)) => 
        match spec_opt(bit_is_set(fb, 10), spec_rect_i32(s1), s1) {
            Some((border_image_nine_patch_rect, s2)) => 
            match spec_opt(bit_is_set(fb, 11), spec_rect_f32(s2), s2) {
                Some((border_line_width, s3)) => 
                match spec_opt(bit_is_set(fb, 12), spec_u32(s3), s3) {
                    Some((border_image_nine_patch_width, s4)) => Some(((border_image_bind_id, border_image_nine_patch_rect, border_line_width, border_image_nine_patch_width), s4)),
                    None => None,
                },
                None => None,
            },
            None => None,
        },
        None => None,
    }
}

fn read_image_opt2(r: &mut ByteStream, flags: &mut CheckedBitfield) -> (res: Result<(Option<u32>, Option<RectI32>, Option<RectF32>, Option<u32>), ImageParseError>)
    ensures
        match spec_image_opt2(old(r)@, old(flags).bits()) {
            Some((m, s2)) => res matches Ok(v) && v.0 == m.0
                && v.1 == m.1
                && v.2 == m.2
                && v.3 == m.3
                && final(flags).bits() == old(flags).bits()
                && final(flags).checked() == old(flags).checked() | 0x1e00
                && final(r)@ == s2,
            None => res is Err,
        },
        final(r)@.same_frame(old(r)@),
{
    reveal(spec_image_opt2);
    let ghost c0 = flags.checked();
    let present_border_image_bind_id: bool = flags.check_bit(9);
    let ghost c1 = flags.checked();
    let border_image_bind_id: Option<u32> = read_image_opt2_border_image_bind_id(r, present_border_image_bind_id)?;
    let present_border_image_nine_patch_rect: bool = flags.check_bit(10);
    let ghost c2 = flags.checked();
    let border_image_nine_patch_rect: Option<RectI32> = read_image_opt2_border_image_nine_patch_rect(r, present_border_image_nine_patch_rect)?;
    let present_border_line_width: bool = flags.check_bit(11);
    let ghost c3 = flags.checked();
    let border_line_width: Option<RectF32> = read_image_opt2_border_line_width(r, present_border_line_width)?;
    let present_border_image_nine_patch_width: bool = flags.check_bit(12);
    let ghost c4 = flags.checked();
    let border_image_nine_patch_width: Option<u32> = read_image_opt2_border_image_nine_patch_width(r, present_border_image_nine_patch_width)?;
    proof {
        crate::bits::lemma_or_assoc(c0, crate::bits::bit_mask(9u8), crate::bits::bit_mask(10u8));
        crate::bits::lemma_or_assoc(c0, crate::bits::bit_mask(9u8) | crate::bits::bit_mask(10u8), crate::bits::bit_mask(11u8));
        crate::bits::lemma_or_assoc(c0, crate::bits::bit_mask(9u8) | crate::bits::bit_mask(10u8) | crate::bits::bit_mask(11u8), crate::bits::bit_mask(12u8));
        crate::bits::lemma_chunk_masks();
        assert(c4 == c0 | 0x1e00u32);
    }
    Ok((border_image_bind_id, border_image_nine_patch_rect, border_line_width, border_image_nine_patch_width))
}

fn read_image_opt3_original_rect(r: &mut ByteStream, present: bool) -> (res: Result<Option<Rect>, ImageParseError>)
    ensures
        match spec_opt(present, spec_rect(old(r)@), old(r)@) {
            Some((m, s2)) => res matches Ok(v) && v == m && final(r)@ == s2,
            None => res is Err,
        },
        final(r)@.same_frame(old(r)@),
{
    if present {
        Ok(Some(match Rect::try_parse_f64(r) {
            Ok(v) => v,
            Err(e) => return Err(ImageParseError::Io(e)),
        }))
    } else {
        Ok(None)
    }
}

fn read_image_opt3_original_image_bind_id(r: &mut ByteStream, present: bool) -> (res: Result<Option<u32>, ImageParseError>)
    ensures
        match spec_opt(present, spec_u32(old(r)@), old(r)@) {
            Some((m, s2)) => res matches Ok(v) && v == m && final(r)@ == s2,
            None => res is Err,
        },
        final(r)@.same_frame(old(r)@),
{
    if present {
        Ok(Some(match r.read_u32_le() {
            Ok(v) => v,
            Err(e) => return Err(ImageParseError::Io(e)),
        }))
    } else {
        Ok(None)
    }
}

/// The original bounds and image of an image.
#[verifier::opaque]
pub open spec fn spec_image_opt3(s: StreamModel, fb: u32) -> SpecRead<(Option<Rect>, Option<u32>)> {
    match spec_opt(bit_is_set(fb, 17), spec_rect(s), s) {
        Some((original_rect, s1)) => 
        match spec_opt(bit_is_set(fb, 18), spec_u32(s1), s1) {
            Some((original_image_bind_id, s2)) => Some(((original_rect, original_image_bind_id), s2)),
            None => None,
        },
        None => None,
    }
}

fn read_image_opt3(r: &mut ByteStream, flags: &mut CheckedBitfield) -> (res: Result<(Option<Rect>, Option<u32>), ImageParseError>)
    ensures
        match spec_image_opt3(old(r)@, old(flags).bits()) {
            Some((m, s2)) => res matches Ok(v) && v.0 == m.0
                && v.1 == m.1
                && final(flags).bits() == old(flags).bits()
                && final(flags).checked() == old(flags).checked() | 0x60000
                && final(r)@ == s2,
            None => res is Err,
        },
        final(r)@.same_frame(old(r)@),
{
    reveal(spec_image_opt3);
    let ghost c0 = flags.checked();
    let present_original_rect: bool = flags.check_bit(17);
    let ghost c1 = flags.checked();
    let original_rect: Option<Rect> = read_image_opt3_original_rect(r, present_original_rect)?;
    let present_original_image_bind_id: bool = flags.check_bit(18);
    let ghost c2 = flags.checked();
    let original_image_bind_id: Option<u32> = read_image_opt3_original_image_bind_id(r, present_original_image_bind_id)?;
    proof {
        crate::bits::lemma_or_assoc(c0, crate::bits::bit_mask(17u8), crate::bits::bit_mask(18u8));
        crate::bits::lemma_chunk_masks();
        assert(c2 == c0 | 0x60000u32);
    }
    Ok((original_rect, original_image_bind_id))
}

/// An image: a shape with a crop, a border and an original.
#[derive(Debug)]
pub struct Image {
    pub shape: Shape,
}

pub struct ImageModel {
    pub shape: ShapeModel,
}

#[verifier::opaque]
pub open spec fn image_model(i: &Image, depth: nat) -> ImageModel
    decreases depth, 8nat, 0nat,
{
    ImageModel { shape: shape_model(&i.shape, depth) }
}

/// An image: a shape (not a plain one), then an object block of data type 3 with no property
/// bits and the image fields, using every byte.
#[verifier::opaque]
pub open spec fn spec_image(s: StreamModel, depth: nat) -> SpecRead<ImageModel>
    decreases depth, 8nat, 0nat,
{
    match spec_shape(s, false, depth) {
        Some((sh, s1)) => match spec_object_header(s1, 3) {
            Some((fb, w, s2)) => match spec_flex(w, fb) {
                Some((wf, ff)) => match spec_image_opt1(wf, ff) {
                    Some((a, w1)) => match spec_image_opt2(w1, ff) {
                        Some((b, w2)) => match spec_image_opt3(w2, ff) {
                            Some((c, w3)) => if fb.property_bits == 0 && ff & !0x61e3au32 == 0 && w3.remaining() == 0 {
                                Some((ImageModel {
                                    shape: ShapeModel {
                                        shape_data: ShapeDataModel {
                                            border_colour: a.1,
                                            border_width: a.2,
                                            border_type: a.3,
                                            ..sh.shape_data
                                        },
                                        image_data: ImageDataModel {
                                            crop_rect: a.0,
                                            border_image_bind_id: b.0,
                                            border_image_nine_patch_rect: b.1,
                                            border_line_width: b.2,
                                            border_image_nine_patch_width: b.3,
                                            original_rect: c.0,
                                            original_image_id: c.1,
                                            ..sh.image_data
                                        },
                                        ..sh
                                    },
                                }, spec_continue(s2, w3)))
                            } else {
                                None
                            },
                            None => None,
                        },
                        None => None,
                    },
                    None => None,
                },
                None => None,
            },
            None => None,
        },
        None => None,
    }
}

impl Image {
    /// Reads an image whose text may hold objects nested `depth` more levels.
    #[verifier::rlimit(100)]
    #[verifier::spinoff_prover]
    pub fn parse_nested(stream: &mut ByteStream, doc_ctx: &DocumentContext, depth: u32) -> (r: Result<Image, ImageParseError>)
        ensures
            match spec_image(old(stream)@, depth as nat) {
                Some((m, s2)) => r matches Ok(v) && image_model(&v, depth as nat) == m && final(stream)@ == s2,
                None => r is Err,
            },
            final(stream)@.same_frame(old(stream)@),
        decreases depth, 8nat,
    {
        proof {
            reveal(spec_image);
            reveal(image_model);
            reveal(shape_model);
        }
        let mut shape: Shape = match Shape::parse_nested(stream, &ShapeParseContext { is_shape_only: false, doc_ctx: *doc_ctx }, depth) {
            Ok(v) => v,
            Err(e) => return Err(ImageParseError::Shape(e)),
        };
        let (mut header, mut w) = match ObjectHeader::try_parse(stream, 3) {
            Ok(v) => v,
            Err(e) => return Err(ImageParseError::Header(e)),
        };
        let ff: &mut CheckedBitfield = match header.init_flex(&mut w) {
            Ok(f) => f,
            Err(e) => return Err(ImageParseError::Io(e)),
        };
        let a = read_image_opt1(&mut w, ff)?;
        let b = read_image_opt2(&mut w, ff)?;
        let c = read_image_opt3(&mut w, ff)?;
        proof {
            let fc = header.0.field_flags().checked();
            assert(fc == 0x61e3au32) by (bit_vector)
                requires
                    fc == ((0u32 | 0x3au32) | 0x1e00u32) | 0x60000u32,
            ;
            let pb = header.0.property_flags().bits();
            crate::bits::lemma_and_not_zero(pb);
        }
        if let Err(e) = header.ensure_flags_used() {
            return Err(ImageParseError::Header(e));
        }
        if let Err(e) = w.ensure_eof() {
            return Err(ImageParseError::Unfinished(e));
        }
        proof { use_type_invariant(&*stream); use_type_invariant(&w); }
        stream.continue_after(&w);
        shape.image_data.crop_rect = a.0;
        shape.shape_data.border_colour = a.1;
        shape.shape_data.border_width = a.2;
        shape.shape_data.border_type = a.3;
        shape.image_data.border_image_bind_id = b.0;
        shape.image_data.border_image_nine_patch_rect = b.1;
        shape.image_data.border_line_width = b.2;
        shape.image_data.border_image_nine_patch_width = b.3;
        shape.image_data.original_rect = c.0;
        shape.image_data.original_image_id = c.1;
        Ok(Image { shape })
    }

    pub fn object_base(&self) -> (r: &ObjectBase)
        ensures
            r@ == self.shape.shape_base@.object_base,
    {
        self.shape.object_base()
    }
}

impl<'a, 'fr, 'sr> TryParseWithContext<ByteStream<'a>, DocumentContext<'fr, 'sr>> for Image {
    type ParseError = ImageParseError;

    fn try_parse_with_ctx(stream: &mut ByteStream<'a>, doc_ctx: &DocumentContext<'fr, 'sr>) -> (r: Result<Image, ImageParseError>)
        ensures
            match spec_image(old(stream)@, NESTING_LIMIT as nat) {
                Some((m, s2)) => r matches Ok(v) && image_model(&v, NESTING_LIMIT as nat) == m && final(stream)@ == s2,
                None => r is Err,
            },
            final(stream)@.same_frame(old(stream)@),
    {
        Image::parse_nested(stream, doc_ctx, NESTING_LIMIT)
    }
}

} // verus!
