//! Painting objects.
use vstd::prelude::*;

use crate::bits::{bit_is_set, CheckedBitfield};
use crate::byte_stream::{
    lemma_repeat_fails, opt_view, spec_continue, spec_f32, spec_opt, spec_opt_or, spec_repeat,
    spec_short_u16_string, spec_str_opt, spec_take, spec_then, spec_u16, spec_u32, spec_u8, views,
    ByteStream, ExactSizedStream, IoError, RawF32, ReadStringError, SpecRead, StreamModel,
    TryParse, UnfinishedParsingError,
};
use crate::page::object::base::{spec_flex, spec_object_base, ObjectBase, ObjectBaseModel, ObjectBaseParseError};
use crate::page::object::header::{spec_object_header, ObjectHeader, ObjectHeaderError};
use crate::page::object::shared::{spec_rect, spec_rect_i32, Rect, RectI32};

verus! {

/// Failure to read a painting.
#[derive(Debug, Clone, Copy, PartialEq, Eq, Structural)]
pub enum PaintingParseError {
    Io(IoError),
    Base(ObjectBaseParseError),
    Header(ObjectHeaderError),
    Unfinished(UnfinishedParsingError),
}

/// The ratio of a painting that does not give one: 1.0.
pub open spec fn default_ratio() -> RawF32 {
    RawF32 { bits: 0x3f80_0000 }
}

fn read_painting_opt0_attached_file_id(r: &mut ByteStream, present: bool) -> (res: Result<Option<u32>, PaintingParseError>)
    ensures
        match spec_opt(present, spec_u32(old(r)@), old(r)@) {
            Some((m, s2)) => res matches Ok(v) && v == m && final(r)@ == s2,
            None => res is Err,
        },
        final(r)@.same_frame(old(r)@),
{
    if present {
        Ok(Some(match r.read_u32_le() {
            Ok(v) => v,
            Err(e) => return Err(PaintingParseError::Io(e)),
        }))
    } else {
        Ok(None)
    }
}

fn read_painting_opt0_attached_thumbnail_id(r: &mut ByteStream, present: bool) -> (res: Result<Option<u32>, PaintingParseError>)
    ensures
        match spec_opt(present, spec_u32(old(r)@), old(r)@) {
            Some((m, s2)) => res matches Ok(v) && v == m && final(r)@ == s2,
            None => res is Err,
        },
        final(r)@.same_frame(old(r)@),
{
    if present {
        Ok(Some(match r.read_u32_le() {
            Ok(v) => v,
            Err(e) => return Err(PaintingParseError::Io(e)),
        }))
    } else {
        Ok(None)
    }
}

fn read_painting_opt0_ratio(r: &mut ByteStream, present: bool) -> (res: Result<RawF32, PaintingParseError>)
    ensures
        match spec_opt_or(present, spec_f32(old(r)@), old(r)@, default_ratio()) {
            Some((m, s2)) => res matches Ok(v) && v == m && final(r)@ == s2,
            None => res is Err,
        },
        final(r)@.same_frame(old(r)@),
{
    if present {
        Ok(match r.read_f32_le() {
            Ok(v) => v,
            Err(e) => return Err(PaintingParseError::Io(e)),
        })
    } else {
        Ok(RawF32 { bits: 0x3f80_0000 })
    }
}

fn read_painting_opt0_crop_rect(r: &mut ByteStream, present: bool) -> (res: Result<Option<RectI32>, PaintingParseError>)
    ensures
        match spec_opt(present, spec_rect_i32(old(r)@), old(r)@) {
            Some((m, s2)) => res matches Ok(v) && v == m && final(r)@ == s2,
            None => res is Err,
        },
        final(r)@.same_frame(old(r)@),
{
    if present {
        Ok(Some(match RectI32::try_parse_i32(r) {
            Ok(v) => v,
            Err(e) => return Err(PaintingParseError::Io(e)),
        }))
    } else {
        Ok(None)
    }
}

fn read_painting_opt0_original_rect(r: &mut ByteStream, present: bool) -> (res: Result<Option<Rect>, PaintingParseError>)
    ensures
        match spec_opt(present, spec_rect(old(r)@), old(r)@) {
            Some((m, s2)) => res matches Ok(v) && v == m && final(r)@ == s2,
            None => res is Err,
        },
        final(r)@.same_frame(old(r)@),
{
    if present {
        Ok(Some(match Rect::try_parse_f64(r) {
            Ok(v) => v,
            Err(e) => return Err(PaintingParseError::Io(e)),
        }))
    } else {
        Ok(None)
    }
}

/// Fields of a `Painting` after its flex offset.
#[verifier::opaque]
pub open spec fn spec_painting_opt0(s: StreamModel, fb: u32) -> SpecRead<(Option<u32>, Option<u32>, RawF32, Option<RectI32>, Option<Rect>)> {
    match spec_opt(bit_is_set(fb, 0), spec_u32(s), s) {
        Some((attached_file_id, s1)) => 
        match spec_opt(bit_is_set(fb, 1), spec_u32(s1), s1) {
            Some((attached_thumbnail_id, s2)) => 
            match spec_opt_or(bit_is_set(fb, 2), spec_f32(s2), s2, default_ratio()) {
                Some((ratio, s3)) => 
                match spec_opt(bit_is_set(fb, 3), spec_rect_i32(s3), s3) {
                    Some((crop_rect, s4)) => 
                    match spec_opt(bit_is_set(fb, 4), spec_rect(s4), s4) {
                        Some((original_rect, s5)) => Some(((attached_file_id, attached_thumbnail_id, ratio, crop_rect, original_rect), s5)),
                        None => None,
                    },
                    None => None,
                },
                None => None,
            },
            None => None,
        },
        None => None,
    }
}

fn read_painting_opt0(r: &mut ByteStream, flags: &mut CheckedBitfield) -> (res: Result<(Option<u32>, Option<u32>, RawF32, Option<RectI32>, Option<Rect>), PaintingParseError>)
    ensures
        match spec_painting_opt0(old(r)@, old(flags).bits()) {
            Some((m, s2)) => res matches Ok(v) && v.0 == m.0
                && v.1 == m.1
                && v.2 == m.2
                && v.3 == m.3
                && v.4 == m.4
                && final(flags).bits() == old(flags).bits()
                && final(flags).checked() == old(flags).checked() | 0x1f
                && final(r)@ == s2,
            None => res is Err,
        },
        final(r)@.same_frame(old(r)@),
{
    reveal(spec_painting_opt0);
    let ghost c0 = flags.checked();
    let present_attached_file_id: bool = flags.check_bit(0);
    let ghost c1 = flags.checked();
    let attached_file_id: Option<u32> = read_painting_opt0_attached_file_id(r, present_attached_file_id)?;
    let present_attached_thumbnail_id: bool = flags.check_bit(1);
    let ghost c2 = flags.checked();
    let attached_thumbnail_id: Option<u32> = read_painting_opt0_attached_thumbnail_id(r, present_attached_thumbnail_id)?;
    let present_ratio: bool = flags.check_bit(2);
    let ghost c3 = flags.checked();
    let ratio: RawF32 = read_painting_opt0_ratio(r, present_ratio)?;
    let present_crop_rect: bool = flags.check_bit(3);
    let ghost c4 = flags.checked();
    let crop_rect: Option<RectI32> = read_painting_opt0_crop_rect(r, present_crop_rect)?;
    let present_original_rect: bool = flags.check_bit(4);
    let ghost c5 = flags.checked();
    let original_rect: Option<Rect> = read_painting_opt0_original_rect(r, present_original_rect)?;
    proof {
        crate::bits::lemma_or_assoc(c0, crate::bits::bit_mask(0u8), crate::bits::bit_mask(1u8));
        crate::bits::lemma_or_assoc(c0, crate::bits::bit_mask(0u8) | crate::bits::bit_mask(1u8), crate::bits::bit_mask(2u8));
        crate::bits::lemma_or_assoc(c0, crate::bits::bit_mask(0u8) | crate::bits::bit_mask(1u8) | crate::bits::bit_mask(2u8), crate::bits::bit_mask(3u8));
        crate::bits::lemma_or_assoc(c0, crate::bits::bit_mask(0u8) | crate::bits::bit_mask(1u8) | crate::bits::bit_mask(2u8) | crate::bits::bit_mask(3u8), crate::bits::bit_mask(4u8));
        crate::bits::lemma_chunk_masks();
        assert(c5 == c0 | 0x1fu32);
    }
    Ok((attached_file_id, attached_thumbnail_id, ratio, crop_rect, original_rect))
}

/// A painting.
#[derive(Debug)]
pub struct Painting {
    pub object_base: ObjectBase,
    pub attached_file_id: Option<u32>,
    pub attached_thumbnail_id: Option<u32>,
    pub ratio: RawF32,
    pub crop_rect: Option<RectI32>,
    pub original_rect: Option<Rect>,
}

pub struct PaintingModel {
    pub object_base: ObjectBaseModel,
    pub attached_file_id: Option<u32>,
    pub attached_thumbnail_id: Option<u32>,
    pub ratio: RawF32,
    pub crop_rect: Option<RectI32>,
    pub original_rect: Option<Rect>,
}

impl View for Painting {
    type V = PaintingModel;

    open spec fn view(&self) -> PaintingModel {
        PaintingModel {
            object_base: self.object_base@,
            attached_file_id: self.attached_file_id,
            attached_thumbnail_id: self.attached_thumbnail_id,
            ratio: self.ratio,
            crop_rect: self.crop_rect,
            original_rect: self.original_rect,
        }
    }
}

/// A `Painting`: its base, then an object block of data type 14.
#[verifier::opaque]
#[verifier::opaque]
pub open spec fn spec_painting(s: StreamModel) -> SpecRead<PaintingModel> {
    match spec_object_base(s) {
        Some((base, s1)) => match spec_object_header(s1, 14) {
            Some((fb, w, s2)) => match spec_flex(w, fb) {
                Some((wf, ff)) => match spec_painting_opt0(wf, ff) {
                    Some((o0, w0)) => if fb.property_bits & !0x0u32 == 0 && ff & !0x1fu32 == 0 && w0.remaining() == 0 {
                        Some((PaintingModel {
                            object_base: base,
                            attached_file_id: o0.0,
                            attached_thumbnail_id: o0.1,
                            ratio: o0.2,
                            crop_rect: o0.3,
                            original_rect: o0.4,
                        }, spec_continue(s2, w0)))
                    } else {
                        None
                    },
                    None => None,
                },
                None => None,
            },
            None => None,
        },
        None => None,
    }
}

impl<'a> TryParse<ByteStream<'a>> for Painting {
    type ParseError = PaintingParseError;

    fn try_parse(stream: &mut ByteStream<'a>) -> (r: Result<Painting, PaintingParseError>)
        ensures
            match spec_painting(old(stream)@) {
                Some((m, s2)) => r matches Ok(v) && v@ == m && final(stream)@ == s2,
                None => r is Err,
            },
            final(stream)@.same_frame(old(stream)@),
    {
        proof {
            reveal(spec_painting);
        }
        reveal(spec_painting);
        let object_base: ObjectBase = match ObjectBase::try_parse(stream) {
            Ok(v) => v,
            Err(e) => return Err(PaintingParseError::Base(e)),
        };
        let (mut header, mut w) = match ObjectHeader::try_parse(stream, 14) {
            Ok(v) => v,
            Err(e) => return Err(PaintingParseError::Header(e)),
        };
        let ff: &mut CheckedBitfield = match header.init_flex(&mut w) {
            Ok(f) => f,
            Err(e) => return Err(PaintingParseError::Io(e)),
        };
        let o0 = read_painting_opt0(&mut w, ff)?;
        proof {
            let fc = header.0.field_flags().checked();
            assert(fc == 0x1fu32) by (bit_vector)
                requires
                    fc == (0u32 | 0x1fu32),
            ;
            let pc = header.0.property_flags().checked();
            assert(pc == 0x0u32) by (bit_vector)
                requires
                    pc == 0u32,
            ;
        }
        if let Err(e) = header.ensure_flags_used() {
            return Err(PaintingParseError::Header(e));
        }
        if let Err(e) = w.ensure_eof() {
            return Err(PaintingParseError::Unfinished(e));
        }
        proof { use_type_invariant(&*stream); use_type_invariant(&w); }
        stream.continue_after(&w);
        Ok(Painting {
            object_base,
            attached_file_id: o0.0,
            attached_thumbnail_id: o0.1,
            ratio: o0.2,
            crop_rect: o0.3,
            original_rect: o0.4,
        })
    }
}


impl Painting {
    pub fn object_base(&self) -> (r: &ObjectBase)
        ensures
            r@ == self@.object_base,
    {
        &self.object_base
    }
}

} // verus!
