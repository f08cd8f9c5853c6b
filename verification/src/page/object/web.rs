//! Web page objects.
use vstd::prelude::*;

use crate::bits::{bit_is_set, CheckedBitfield};
use crate::byte_stream::{
    lemma_repeat_fails, opt_view, spec_continue, spec_f32, spec_opt, spec_opt_or, spec_repeat,
    spec_short_u16_string, spec_str_opt, spec_take, spec_then, spec_u16, spec_u32, spec_u8, views,
    ByteStream, ExactSizedStream, IoError, RawF32, ReadStringError, SpecRead, StreamModel,
    TryParse, UnfinishedParsingError,
};
use crate::page::object::base::{spec_flex, spec_object_base, ObjectBase, ObjectBaseModel, ObjectBaseParseError};
use crate::page::object::header::{spec_object_header, ObjectHeader, ObjectHeaderError};

verus! {

/// Failure to read a web object.
#[derive(Debug, Clone, Copy, PartialEq, Eq, Structural)]
pub enum WebParseError {
    Io(IoError),
    Base(ObjectBaseParseError),
    Header(ObjectHeaderError),
    Unfinished(UnfinishedParsingError),
    /// The title could not be read.
    Title(ReadStringError),
    /// The body could not be read.
    Body(ReadStringError),
    /// The address could not be read.
    Uri(ReadStringError),
}

fn read_web_opt0_attached_html_file_id(r: &mut ByteStream, present: bool) -> (res: Result<Option<u32>, WebParseError>)
    ensures
        match spec_opt(present, spec_u32(old(r)@), old(r)@) {
            Some((m, s2)) => res matches Ok(v) && v == m && final(r)@ == s2,
            None => res is Err,
        },
        final(r)@.same_frame(old(r)@),
{
    if present {
        Ok(Some(match r.read_u32_le() {
            Ok(v) => v,
            Err(e) => return Err(WebParseError::Io(e)),
        }))
    } else {
        Ok(None)
    }
}

fn read_web_opt0_thumbnail_file_id(r: &mut ByteStream, present: bool) -> (res: Result<Option<u32>, WebParseError>)
    ensures
        match spec_opt(present, spec_u32(old(r)@), old(r)@) {
            Some((m, s2)) => res matches Ok(v) && v == m && final(r)@ == s2,
            None => res is Err,
        },
        final(r)@.same_frame(old(r)@),
{
    if present {
        Ok(Some(match r.read_u32_le() {
            Ok(v) => v,
            Err(e) => return Err(WebParseError::Io(e)),
        }))
    } else {
        Ok(None)
    }
}

fn read_web_opt0_body(r: &mut ByteStream, present: bool) -> (res: Result<Option<String>, WebParseError>)
    ensures
        match spec_opt(present, spec_str_opt(spec_short_u16_string(old(r)@)), old(r)@) {
            Some((m, s2)) => res matches Ok(v) && opt_view(v) == m && final(r)@ == s2,
            None => res is Err,
        },
        final(r)@.same_frame(old(r)@),
{
    if present {
        Ok(Some(match r.read_short_u16_string() {
            Ok(v) => v,
            Err(e) => return Err(WebParseError::Body(e)),
        }))
    } else {
        Ok(None)
    }
}

fn read_web_opt0_title(r: &mut ByteStream, present: bool) -> (res: Result<Option<String>, WebParseError>)
    ensures
        match spec_opt(present, spec_str_opt(spec_short_u16_string(old(r)@)), old(r)@) {
            Some((m, s2)) => res matches Ok(v) && opt_view(v) == m && final(r)@ == s2,
            None => res is Err,
        },
        final(r)@.same_frame(old(r)@),
{
    if present {
        Ok(Some(match r.read_short_u16_string() {
            Ok(v) => v,
            Err(e) => return Err(WebParseError::Title(e)),
        }))
    } else {
        Ok(None)
    }
}

fn read_web_opt0_uri(r: &mut ByteStream, present: bool) -> (res: Result<Option<String>, WebParseError>)
    ensures
        match spec_opt(present, spec_str_opt(spec_short_u16_string(old(r)@)), old(r)@) {
            Some((m, s2)) => res matches Ok(v) && opt_view(v) == m && final(r)@ == s2,
            None => res is Err,
        },
        final(r)@.same_frame(old(r)@),
{
    if present {
        Ok(Some(match r.read_short_u16_string() {
            Ok(v) => v,
            Err(e) => return Err(WebParseError::Uri(e)),
        }))
    } else {
        Ok(None)
    }
}

fn read_web_opt0_version(r: &mut ByteStream, present: bool) -> (res: Result<Option<u32>, WebParseError>)
    ensures
        match spec_opt(present, spec_u32(old(r)@), old(r)@) {
            Some((m, s2)) => res matches Ok(v) && v == m && final(r)@ == s2,
            None => res is Err,
        },
        final(r)@.same_frame(old(r)@),
{
    if present {
        Ok(Some(match r.read_u32_le() {
            Ok(v) => v,
            Err(e) => return Err(WebParseError::Io(e)),
        }))
    } else {
        Ok(None)
    }
}

fn read_web_opt0_view_type(r: &mut ByteStream, present: bool) -> (res: Result<Option<u32>, WebParseError>)
    ensures
        match spec_opt(present, spec_u32(old(r)@), old(r)@) {
            Some((m, s2)) => res matches Ok(v) && v == m && final(r)@ == s2,
            None => res is Err,
        },
        final(r)@.same_frame(old(r)@),
{
    if present {
        Ok(Some(match r.read_u32_le() {
            Ok(v) => v,
            Err(e) => return Err(WebParseError::Io(e)),
        }))
    } else {
        Ok(None)
    }
}

/// Fields of a `Web` after its flex offset.
#[verifier::opaque]
pub open spec fn spec_web_opt0(s: StreamModel, fb: u32) -> SpecRead<(Option<u32>, Option<u32>, Option<Seq<char>>, Option<Seq<char>>, Option<Seq<char>>, u32, Option<u32>, Option<u32>)> {
    match spec_opt(bit_is_set(fb, 0), spec_u32(s), s) {
        Some((attached_html_file_id, s1)) => 
        match spec_opt(bit_is_set(fb, 1), spec_u32(s1), s1) {
            Some((thumbnail_file_id, s2)) => 
            match spec_opt(bit_is_set(fb, 2), spec_str_opt(spec_short_u16_string(s2)), s2) {
                Some((body, s3)) => 
                match spec_opt(bit_is_set(fb, 3), spec_str_opt(spec_short_u16_string(s3)), s3) {
                    Some((title, s4)) => 
                    match spec_opt(bit_is_set(fb, 4), spec_str_opt(spec_short_u16_string(s4)), s4) {
                        Some((uri, s5)) => 
                        match spec_u32(s5) {
                            Some((image_type_id, s6)) => 
                            match spec_opt(bit_is_set(fb, 5), spec_u32(s6), s6) {
                                Some((version, s7)) => 
                                match spec_opt(bit_is_set(fb, 6), spec_u32(s7), s7) {
                                    Some((view_type, s8)) => Some(((attached_html_file_id, thumbnail_file_id, body, title, uri, image_type_id, version, view_type), s8)),
                                    None => None,
                                },
                                None => None,
                            },
                            None => None,
                        },
                        None => None,
                    },
                    None => None,
                },
                None => None,
            },
            None => None,
        },
        None => None,
    }
}

#[verifier::rlimit(40)]
fn read_web_opt0(r: &mut ByteStream, flags: &mut CheckedBitfield) -> (res: Result<(Option<u32>, Option<u32>, Option<String>, Option<String>, Option<String>, u32, Option<u32>, Option<u32>), WebParseError>)
    ensures
        match spec_web_opt0(old(r)@, old(flags).bits()) {
            Some((m, s2)) => res matches Ok(v) && v.0 == m.0
                && v.1 == m.1
                && opt_view(v.2) == m.2
                && opt_view(v.3) == m.3
                && opt_view(v.4) == m.4
                && v.5 == m.5
                && v.6 == m.6
                && v.7 == m.7
                && final(flags).bits() == old(flags).bits()
                && final(flags).checked() == old(flags).checked() | 0x7f
                && final(r)@ == s2,
            None => res is Err,
        },
        final(r)@.same_frame(old(r)@),
{
    reveal(spec_web_opt0);
    let ghost c0 = flags.checked();
    let present_attached_html_file_id: bool = flags.check_bit(0);
    let ghost c1 = flags.checked();
    let attached_html_file_id: Option<u32> = read_web_opt0_attached_html_file_id(r, present_attached_html_file_id)?;
    let present_thumbnail_file_id: bool = flags.check_bit(1);
    let ghost c2 = flags.checked();
    let thumbnail_file_id: Option<u32> = read_web_opt0_thumbnail_file_id(r, present_thumbnail_file_id)?;
    let present_body: bool = flags.check_bit(2);
    let ghost c3 = flags.checked();
    let body: Option<String> = read_web_opt0_body(r, present_body)?;
    let present_title: bool = flags.check_bit(3);
    let ghost c4 = flags.checked();
    let title: Option<String> = read_web_opt0_title(r, present_title)?;
    let present_uri: bool = flags.check_bit(4);
    let ghost c5 = flags.checked();
    let uri: Option<String> = read_web_opt0_uri(r, present_uri)?;
    let image_type_id: u32 = match r.read_u32_le() {
            Ok(v) => v,
            Err(e) => return Err(WebParseError::Io(e)),
        };
    let present_version: bool = flags.check_bit(5);
    let ghost c6 = flags.checked();
    let version: Option<u32> = read_web_opt0_version(r, present_version)?;
    let present_view_type: bool = flags.check_bit(6);
    let ghost c7 = flags.checked();
    let view_type: Option<u32> = read_web_opt0_view_type(r, present_view_type)?;
    proof {
        crate::bits::lemma_or_assoc(c0, crate::bits::bit_mask(0u8), crate::bits::bit_mask(1u8));
        crate::bits::lemma_or_assoc(c0, crate::bits::bit_mask(0u8) | crate::bits::bit_mask(1u8), crate::bits::bit_mask(2u8));
        crate::bits::lemma_or_assoc(c0, crate::bits::bit_mask(0u8) | crate::bits::bit_mask(1u8) | crate::bits::bit_mask(2u8), crate::bits::bit_mask(3u8));
        crate::bits::lemma_or_assoc(c0, crate::bits::bit_mask(0u8) | crate::bits::bit_mask(1u8) | crate::bits::bit_mask(2u8) | crate::bits::bit_mask(3u8), crate::bits::bit_mask(4u8));
        crate::bits::lemma_or_assoc(c0, crate::bits::bit_mask(0u8) | crate::bits::bit_mask(1u8) | crate::bits::bit_mask(2u8) | crate::bits::bit_mask(3u8) | crate::bits::bit_mask(4u8), crate::bits::bit_mask(5u8));
        crate::bits::lemma_or_assoc(c0, crate::bits::bit_mask(0u8) | crate::bits::bit_mask(1u8) | crate::bits::bit_mask(2u8) | crate::bits::bit_mask(3u8) | crate::bits::bit_mask(4u8) | crate::bits::bit_mask(5u8), crate::bits::bit_mask(6u8));
        crate::bits::lemma_chunk_masks();
        assert(c7 == c0 | 0x7fu32);
    }
    Ok((attached_html_file_id, thumbnail_file_id, body, title, uri, image_type_id, version, view_type))
}

/// A web page link.
#[derive(Debug)]
pub struct Web {
    pub object_base: ObjectBase,
    pub attached_html_file_id: Option<u32>,
    pub thumbnail_file_id: Option<u32>,
    pub body: Option<String>,
    pub title: Option<String>,
    pub uri: Option<String>,
    pub image_type_id: u32,
    pub version: Option<u32>,
    pub view_type: Option<u32>,
}

pub struct WebModel {
    pub object_base: ObjectBaseModel,
    pub attached_html_file_id: Option<u32>,
    pub thumbnail_file_id: Option<u32>,
    pub body: Option<Seq<char>>,
    pub title: Option<Seq<char>>,
    pub uri: Option<Seq<char>>,
    pub image_type_id: u32,
    pub version: Option<u32>,
    pub view_type: Option<u32>,
}

impl View for Web {
    type V = WebModel;

    open spec fn view(&self) -> WebModel {
        WebModel {
            object_base: self.object_base@,
            attached_html_file_id: self.attached_html_file_id,
            thumbnail_file_id: self.thumbnail_file_id,
            body: opt_view(self.body),
            title: opt_view(self.title),
            uri: opt_view(self.uri),
            image_type_id: self.image_type_id,
            version: self.version,
            view_type: self.view_type,
        }
    }
}

/// A `Web`: its base, then an object block of data type 13.
#[verifier::opaque]
#[verifier::opaque]
pub open spec fn spec_web(s: StreamModel) -> SpecRead<WebModel> {
    match spec_object_base(s) {
        Some((base, s1)) => match spec_object_header(s1, 13) {
            Some((fb, w, s2)) => match spec_flex(w, fb) {
                Some((wf, ff)) => match spec_web_opt0(wf, ff) {
                    Some((o0, w0)) => if fb.property_bits & !0x0u32 == 0 && ff & !0x7fu32 == 0 && w0.remaining() == 0 {
                        Some((WebModel {
                            object_base: base,
                            attached_html_file_id: o0.0,
                            thumbnail_file_id: o0.1,
                            body: o0.2,
                            title: o0.3,
                            uri: o0.4,
                            image_type_id: o0.5,
                            version: o0.6,
                            view_type: o0.7,
                        }, spec_continue(s2, w0)))
                    } else {
                        None
                    },
                    None => None,
                },
                None => None,
            },
            None => None,
        },
        None => None,
    }
}

impl<'a> TryParse<ByteStream<'a>> for Web {
    type ParseError = WebParseError;

    fn try_parse(stream: &mut ByteStream<'a>) -> (r: Result<Web, WebParseError>)
        ensures
            match spec_web(old(stream)@) {
                Some((m, s2)) => r matches Ok(v) && v@ == m && final(stream)@ == s2,
                None => r is Err,
            },
            final(stream)@.same_frame(old(stream)@),
    {
        proof {
            reveal(spec_web);
        }
        reveal(spec_web);
        let object_base: ObjectBase = match ObjectBase::try_parse(stream) {
            Ok(v) => v,
            Err(e) => return Err(WebParseError::Base(e)),
        };
        let (mut header, mut w) = match ObjectHeader::try_parse(stream, 13) {
            Ok(v) => v,
            Err(e) => return Err(WebParseError::Header(e)),
        };
        let ff: &mut CheckedBitfield = match header.init_flex(&mut w) {
            Ok(f) => f,
            Err(e) => return Err(WebParseError::Io(e)),
        };
        let o0 = read_web_opt0(&mut w, ff)?;
        proof {
            let fc = header.0.field_flags().checked();
            assert(fc == 0x7fu32) by (bit_vector)
                requires
                    fc == (0u32 | 0x7fu32),
            ;
            let pc = header.0.property_flags().checked();
            assert(pc == 0x0u32) by (bit_vector)
                requires
                    pc == 0u32,
            ;
        }
        if let Err(e) = header.ensure_flags_used() {
            return Err(WebParseError::Header(e));
        }
        if let Err(e) = w.ensure_eof() {
            return Err(WebParseError::Unfinished(e));
        }
        proof { use_type_invariant(&*stream); use_type_invariant(&w); }
        stream.continue_after(&w);
        Ok(Web {
            object_base,
            attached_html_file_id: o0.0,
            thumbnail_file_id: o0.1,
            body: o0.2,
            title: o0.3,
            uri: o0.4,
            image_type_id: o0.5,
            version: o0.6,
            view_type: o0.7,
        })
    }
}


impl Web {
    pub fn object_base(&self) -> (r: &ObjectBase)
        ensures
            r@ == self@.object_base,
    {
        &self.object_base
    }
}

} // verus!
