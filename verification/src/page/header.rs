//! The parts of a page's header that have structure of their own: PDF pages drawn behind the
//! page, canvas cache entries and custom objects.
use std::rc::Rc;
use vstd::prelude::*;

use crate::bits::CheckedBitfield;
use crate::byte_stream::{
    pairs_to_map, spec_bitfield, spec_exclusive_window, spec_continue, spec_long_u8_string,
    spec_repeat, spec_short_u8_string, spec_str_opt, spec_take, spec_u32, spec_u8, views,
    ByteStream, ExactSizedStream, IoError, ReadBitfieldError, ReadStringError, SpecRead,
    StreamModel, TryParse, UnfinishedParsingError,
};
use crate::bits::UnhandledBitsError;
use crate::context::TryParseWithContext;
use crate::media_info::{BoundFile, BoundFileModel, FileRegistry, NoSuchRegisteredFileError};
use crate::page::object::shared::{spec_rect, spec_rect_i32, Rect, RectI32};

verus! {

/// What reading a PDF page reference needs: the files of the document and the page's format
/// version.
pub struct PdfDataItemParseCtx<'fr> {
    pub file_registry: &'fr FileRegistry,
    pub format_version: u32,
}

/// Failure to read a PDF page reference.
#[derive(Debug, Clone, Copy, PartialEq, Eq, Structural)]
pub enum PdfDataItemParseError {
    Io(IoError),
    NoSuchFile(NoSuchRegisteredFileError),
}

/// Where a PDF page is drawn: pages of format version 2034 or later give whole numbers.
#[derive(Debug, Clone, Copy, PartialEq, Eq, Structural)]
pub enum PdfRect {
    Float(Rect),
    Int(RectI32),
}

/// A page of an attached PDF that is drawn behind a page.
#[derive(Debug)]
pub struct PdfPage {
    pub pdf: Rc<BoundFile>,
    pub page_index: u32,
    pub rect: PdfRect,
}

pub struct PdfPageModel {
    pub pdf: BoundFileModel,
    pub page_index: u32,
    pub rect: PdfRect,
}

impl View for PdfPage {
    type V = PdfPageModel;

    open spec fn view(&self) -> PdfPageModel {
        PdfPageModel { pdf: self.pdf@, page_index: self.page_index, rect: self.rect }
    }
}

/// The rectangle of a PDF page: four `f64`s before format version 2034, four `i32`s from then on.
pub open spec fn spec_pdf_rect(s: StreamModel, format_version: u32) -> SpecRead<PdfRect> {
    if format_version < 2034 {
        match spec_rect(s) {
            Some((r, s1)) => Some((PdfRect::Float(r), s1)),
            None => None,
        }
    } else {
        match spec_rect_i32(s) {
            Some((r, s1)) => Some((PdfRect::Int(r), s1)),
            None => None,
        }
    }
}

/// A PDF page: the `u32` id of the PDF file (which `files` must hold), the `u32` index of the
/// page in it, and its rectangle.
pub open spec fn spec_pdf_page(s: StreamModel, files: Map<u32, BoundFileModel>, format_version: u32) -> SpecRead<PdfPageModel> {
    match spec_u32(s) {
        Some((id, s1)) => if !files.contains_key(id) {
            None
        } else {
            match spec_u32(s1) {
                Some((page_index, s2)) => match spec_pdf_rect(s2, format_version) {
                    Some((rect, s3)) => Some((PdfPageModel { pdf: files[id], page_index, rect }, s3)),
                    None => None,
                },
                None => None,
            }
        },
        None => None,
    }
}

impl<'a, 'fr> TryParseWithContext<ByteStream<'a>, PdfDataItemParseCtx<'fr>> for PdfPage {
    type ParseError = PdfDataItemParseError;

    fn try_parse_with_ctx(reader: &mut ByteStream<'a>, ctx: &PdfDataItemParseCtx<'fr>) -> (r: Result<PdfPage, PdfDataItemParseError>)
        ensures
            match spec_pdf_page(old(reader)@, ctx.file_registry@, ctx.format_version) {
                Some((m, s2)) => r matches Ok(v) && v@ == m && final(reader)@ == s2,
                None => r is Err,
            },
            final(reader)@.same_frame(old(reader)@),
    {
        let id: u32 = match reader.read_u32_le() {
            Ok(v) => v,
            Err(e) => return Err(PdfDataItemParseError::Io(e)),
        };
        let pdf: Rc<BoundFile> = match ctx.file_registry.try_get(id) {
            Ok(f) => f,
            Err(e) => return Err(PdfDataItemParseError::NoSuchFile(e)),
        };
        let page_index: u32 = match reader.read_u32_le() {
            Ok(v) => v,
            Err(e) => return Err(PdfDataItemParseError::Io(e)),
        };
        let rect: PdfRect = if ctx.format_version < 2034 {
            match Rect::try_parse_f64(reader) {
                Ok(r) => PdfRect::Float(r),
                Err(e) => return Err(PdfDataItemParseError::Io(e)),
            }
        } else {
            match RectI32::try_parse_i32(reader) {
                Ok(r) => PdfRect::Int(r),
                Err(e) => return Err(PdfDataItemParseError::Io(e)),
            }
        };
        Ok(PdfPage { pdf, page_index, rect })
    }
}

/// A cached rendering of the page.
#[derive(Debug, Clone, Copy)]
pub struct CanvasCacheEntry {
    pub file_id: u32,
    pub width: u32,
    pub height: u32,
    pub is_dark_mode: bool,
    pub background_colour: [u8; 4],
    pub version: [u32; 3],
    pub cache_version: u32,
    pub property: u32,
    pub locale_list_id: u32,
    pub system_font_path_hash: u32,
}

pub struct CanvasCacheEntryModel {
    pub file_id: u32,
    pub width: u32,
    pub height: u32,
    pub is_dark_mode: bool,
    pub background_colour: Seq<u8>,
    pub version: Seq<u32>,
    pub cache_version: u32,
    pub property: u32,
    pub locale_list_id: u32,
    pub system_font_path_hash: u32,
}

impl View for CanvasCacheEntry {
    type V = CanvasCacheEntryModel;

    open spec fn view(&self) -> CanvasCacheEntryModel {
        CanvasCacheEntryModel {
            file_id: self.file_id,
            width: self.width,
            height: self.height,
            is_dark_mode: self.is_dark_mode,
            background_colour: self.background_colour@,
            version: self.version@,
            cache_version: self.cache_version,
            property: self.property,
            locale_list_id: self.locale_list_id,
            system_font_path_hash: self.system_font_path_hash,
        }
    }
}

/// Three `u32`s, one after the other.
pub open spec fn spec_u32_triple(s: StreamModel) -> SpecRead<Seq<u32>> {
    match spec_u32(s) {
        Some((a, s1)) => match spec_u32(s1) {
            Some((b, s2)) => match spec_u32(s2) {
                Some((c, s3)) => Some((seq![a, b, c], s3)),
                None => None,
            },
            None => None,
        },
        None => None,
    }
}

/// A canvas cache entry: file id, width and height (`u32`s), a `u8` that is 1 in dark mode, the
/// four bytes of the background colour, three `u32`s of version, then the cache version,
/// property, locale list id and system font path hash (`u32`s).
pub open spec fn spec_canvas_cache_entry(s: StreamModel) -> SpecRead<CanvasCacheEntryModel> {
    match spec_u32(s) {
        Some((file_id, s1)) => match spec_u32(s1) {
            Some((width, s2)) => match spec_u32(s2) {
                Some((height, s3)) => match spec_u8(s3) {
                    Some((dark, s4)) => match spec_take(s4, 4) {
                        Some((background_colour, s5)) => match spec_u32_triple(s5) {
                            Some((version, s6)) => match spec_u32(s6) {
                                Some((cache_version, s7)) => match spec_u32(s7) {
                                    Some((property, s8)) => match spec_u32(s8) {
                                        Some((locale_list_id, s9)) => match spec_u32(s9) {
                                            Some((system_font_path_hash, s10)) => Some((CanvasCacheEntryModel {
                                                file_id,
                                                width,
                                                height,
                                                is_dark_mode: dark == 1,
                                                background_colour,
                                                version,
                                                cache_version,
                                                property,
                                                locale_list_id,
                                                system_font_path_hash,
                                            }, s10)),
                                            None => None,
                                        },
                                        None => None,
                                    },
                                    None => None,
                                },
                                None => None,
                            },
                            None => None,
                        },
                        None => None,
                    },
                    None => None,
                },
                None => None,
            },
            None => None,
        },
        None => None,
    }
}

fn read_u32_triple(reader: &mut ByteStream) -> (r: Result<[u32; 3], IoError>)
    ensures
        match spec_u32_triple(old(reader)@) {
            Some((m, s2)) => r matches Ok(v) && v@ == m && final(reader)@ == s2,
            None => r is Err,
        },
        final(reader)@.same_frame(old(reader)@),
{
    let a: u32 = reader.read_u32_le()?;
    let b: u32 = reader.read_u32_le()?;
    let c: u32 = reader.read_u32_le()?;
    let v: [u32; 3] = [a, b, c];
    assert(v@ =~= seq![a, b, c]);
    Ok(v)
}

impl<'a> TryParse<ByteStream<'a>> for CanvasCacheEntry {
    type ParseError = IoError;

    fn try_parse(reader: &mut ByteStream<'a>) -> (r: Result<CanvasCacheEntry, IoError>)
        ensures
            match spec_canvas_cache_entry(old(reader)@) {
                Some((m, s2)) => r matches Ok(v) && v@ == m && final(reader)@ == s2,
                None => r is Err,
            },
            final(reader)@.same_frame(old(reader)@),
    {
        let file_id: u32 = reader.read_u32_le()?;
        let width: u32 = reader.read_u32_le()?;
        let height: u32 = reader.read_u32_le()?;
        let dark: u8 = reader.read_u8()?;
        let background_colour: [u8; 4] = reader.read_4_bytes()?;
        let version: [u32; 3] = read_u32_triple(reader)?;
        let cache_version: u32 = reader.read_u32_le()?;
        let property: u32 = reader.read_u32_le()?;
        let locale_list_id: u32 = reader.read_u32_le()?;
        let system_font_path_hash: u32 = reader.read_u32_le()?;
        Ok(CanvasCacheEntry {
            file_id,
            width,
            height,
            is_dark_mode: dark == 1,
            background_colour,
            version,
            cache_version,
            property,
            locale_list_id,
            system_font_path_hash,
        })
    }
}

/// Failure to read a custom object.
#[derive(Debug, Clone, Copy, PartialEq, Eq, Structural)]
pub enum CustomPageObjectParseError {
    Io(IoError),
    Flags(ReadBitfieldError),
    String(ReadStringError),
    BadAttachedFile(NoSuchRegisteredFileError),
    Unfinished(UnfinishedParsingError),
    /// One or more property bits were set, but none are expected.
    FoundProperty(UnhandledBitsError),
    /// One or more field bits were set, but none are expected.
    FoundField(UnhandledBitsError),
    /// A map's entry count does not fit in `usize`.
    MapTooBig(u32),
}

/// The kind of a custom object.
#[derive(Debug, Clone, Copy, PartialEq, Eq, Structural)]
pub enum CustomObjectType {
    /// `TYPE_STICKY_NOTE = 1`
    ///
    /// These have the sticky note's sdocx file's ID in `attached_files["co_attach_file"]`, the
    /// background colour (as a string representation of a signed integer) in
    /// `custom_data["skn_bg_color"]`, and a rectangle in `custom_data["skn_collapse_rect"]`
    /// written as `"left,top,right,bottom"`, where each component is a decimal value.
    StickyNote,
    /// Anything else. Such objects use the same format, so they are read without knowing what
    /// the type id stands for.
    Unknown(u32),
}

/// The kind that the type id `v` stands for: 1 is a sticky note, anything else is unknown.
pub open spec fn spec_custom_object_type(v: u32) -> CustomObjectType {
    if v == 1 {
        CustomObjectType::StickyNote
    } else {
        CustomObjectType::Unknown(v)
    }
}

impl CustomObjectType {
    pub fn from_u32(v: u32) -> (r: CustomObjectType)
        ensures
            r == spec_custom_object_type(v),
    {
        if v == 1 {
            CustomObjectType::StickyNote
        } else {
            CustomObjectType::Unknown(v)
        }
    }
}

/// An object of a page that an app defined for itself, such as a sticky note.
#[derive(Debug)]
pub struct CustomPageObject {
    pub object_type: CustomObjectType,
    pub uuid: String,
    /// Attached files by name; where a name occurs twice, the later file counts.
    pub attached_files: Vec<(String, Rc<BoundFile>)>,
    /// Data by name; where a name occurs twice, the later value counts.
    pub custom_data: Vec<(String, String)>,
    pub rect: Rect,
}

pub struct CustomPageObjectModel {
    pub object_type: CustomObjectType,
    pub uuid: Seq<char>,
    pub attached_files: Map<Seq<char>, BoundFileModel>,
    pub custom_data: Map<Seq<char>, Seq<char>>,
    pub rect: Rect,
}

/// The model of a list of attached files: the map that it makes.
pub open spec fn attached_files_view(v: Seq<(String, Rc<BoundFile>)>) -> Map<Seq<char>, BoundFileModel> {
    pairs_to_map(Seq::new(v.len(), |i: int| (v[i].0@, v[i].1@)))
}

impl View for CustomPageObject {
    type V = CustomPageObjectModel;

    open spec fn view(&self) -> CustomPageObjectModel {
        CustomPageObjectModel {
            object_type: self.object_type,
            uuid: self.uuid@,
            attached_files: attached_files_view(self.attached_files@),
            custom_data: pairs_to_map(views(self.custom_data@)),
            rect: self.rect,
        }
    }
}

/// An attached file: a long UTF-8 name and the `u32` id of a file that `files` holds.
pub open spec fn spec_attached_file(s: StreamModel, files: Map<u32, BoundFileModel>) -> SpecRead<(Seq<char>, BoundFileModel)> {
    match spec_str_opt(spec_long_u8_string(s)) {
        Some((name, s1)) => match spec_u32(s1) {
            Some((id, s2)) => if files.contains_key(id) {
                Some(((name, files[id]), s2))
            } else {
                None
            },
            None => None,
        },
        None => None,
    }
}

pub open spec fn attached_file_item(files: Map<u32, BoundFileModel>) -> spec_fn(StreamModel) -> SpecRead<(Seq<char>, BoundFileModel)> {
    |t: StreamModel| spec_attached_file(t, files)
}

/// A pair of long UTF-8 strings.
pub open spec fn spec_data_pair(s: StreamModel) -> SpecRead<(Seq<char>, Seq<char>)> {
    match spec_str_opt(spec_long_u8_string(s)) {
        Some((k, s1)) => match spec_str_opt(spec_long_u8_string(s1)) {
            Some((v, s2)) => Some(((k, v), s2)),
            None => None,
        },
        None => None,
    }
}

pub open spec fn data_pair_item() -> spec_fn(StreamModel) -> SpecRead<(Seq<char>, Seq<char>)> {
    |t: StreamModel| spec_data_pair(t)
}

/// The body of a custom object, in its window: a `u32` whose value is ignored, property and
/// field bitfields that must both be empty, the uuid (short UTF-8), a `u32` count of attached
/// files and the files, a `u32` count of data pairs and the pairs, and the rectangle (four
/// `f64`s), using every byte.
pub open spec fn spec_custom_object_body(w: StreamModel, object_type: CustomObjectType, files: Map<u32, BoundFileModel>) -> SpecRead<CustomPageObjectModel> {
    match spec_u32(w) {
        Some((_ignored, w1)) => match spec_bitfield(w1) {
            Ok((p, w2)) => if p != 0 {
                None
            } else {
                match spec_bitfield(w2) {
                    Ok((f, w3)) => if f != 0 {
                        None
                    } else {
                        match spec_str_opt(spec_short_u8_string(w3)) {
                            Some((uuid, w4)) => match spec_u32(w4) {
                                Some((na, w5)) => match spec_repeat(w5, na as nat, attached_file_item(files)) {
                                    Some((af, w6)) => match spec_u32(w6) {
                                        Some((nd, w7)) => match spec_repeat(w7, nd as nat, data_pair_item()) {
                                            Some((cd, w8)) => match spec_rect(w8) {
                                                Some((rect, w9)) => if w9.remaining() == 0 {
                                                    Some((CustomPageObjectModel {
                                                        object_type,
                                                        uuid,
                                                        attached_files: pairs_to_map(af),
                                                        custom_data: pairs_to_map(cd),
                                                        rect,
                                                    }, w9))
                                                } else {
                                                    None
                                                },
                                                None => None,
                                            },
                                            None => None,
                                        },
                                        None => None,
                                    },
                                    None => None,
                                },
                                None => None,
                            },
                            None => None,
                        }
                    },
                    Err(_) => None,
                }
            },
            Err(_) => None,
        },
        None => None,
    }
}

/// A custom object: its `u32` type id, then a `u32` size and a window of that many bytes holding
/// its body.
pub open spec fn spec_custom_object(s: StreamModel, files: Map<u32, BoundFileModel>) -> SpecRead<CustomPageObjectModel> {
    match spec_u32(s) {
        Some((t, s1)) => match spec_exclusive_window(s1) {
            Some((w, s2)) => match spec_custom_object_body(w, spec_custom_object_type(t), files) {
                Some((m, w2)) => Some((m, spec_continue(s2, w2))),
                None => None,
            },
            None => None,
        },
        None => None,
    }
}

fn read_attached_files(reader: &mut ByteStream, n: u32, file_registry: &FileRegistry) -> (r: Result<Vec<(String, Rc<BoundFile>)>, CustomPageObjectParseError>)
    ensures
        match spec_repeat(old(reader)@, n as nat, attached_file_item(file_registry@)) {
            Some((es, s2)) => r matches Ok(v) && Seq::new(v@.len(), |i: int| (v@[i].0@, v@[i].1@)) == es
                && final(reader)@ == s2,
            None => r is Err,
        },
        final(reader)@.same_frame(old(reader)@),
{
    let ghost s0 = reader@;
    let ghost item = attached_file_item(file_registry@);
    let mut out: Vec<(String, Rc<BoundFile>)> = Vec::new();
    let mut i: u32 = 0;
    while i < n
        invariant
            i <= n,
            item == attached_file_item(file_registry@),
            out@.len() == i,
            s0 == old(reader)@,
            reader@.same_frame(s0),
            spec_repeat(s0, i as nat, item) == Some((Seq::new(out@.len(), |j: int| (out@[j].0@, out@[j].1@)), reader@)),
        decreases n - i,
    {
        let ghost before = reader@;
        let ghost prev = Seq::new(out@.len(), |j: int| (out@[j].0@, out@[j].1@));
        proof { assert(item(before) == spec_attached_file(before, file_registry@)); }
        let name: String = match reader.read_long_u8_string() {
            Ok(v) => v,
            Err(e) => {
                proof { crate::byte_stream::lemma_repeat_fails(s0, (i + 1) as nat, n as nat, item); }
                return Err(CustomPageObjectParseError::String(e));
            },
        };
        let id: u32 = match reader.read_u32_le() {
            Ok(v) => v,
            Err(e) => {
                proof { crate::byte_stream::lemma_repeat_fails(s0, (i + 1) as nat, n as nat, item); }
                return Err(CustomPageObjectParseError::Io(e));
            },
        };
        let file: Rc<BoundFile> = match file_registry.try_get(id) {
            Ok(f) => f,
            Err(e) => {
                proof { crate::byte_stream::lemma_repeat_fails(s0, (i + 1) as nat, n as nat, item); }
                return Err(CustomPageObjectParseError::BadAttachedFile(e));
            },
        };
        out.push((name, file));
        proof {
            assert(Seq::new(out@.len(), |j: int| (out@[j].0@, out@[j].1@)) =~= prev.push((out@[i as int].0@, out@[i as int].1@)));
        }
        i = i + 1;
    }
    Ok(out)
}

fn read_data_pairs(reader: &mut ByteStream, n: u32) -> (r: Result<Vec<(String, String)>, CustomPageObjectParseError>)
    ensures
        match spec_repeat(old(reader)@, n as nat, data_pair_item()) {
            Some((es, s2)) => r matches Ok(v) && views(v@) == es && final(reader)@ == s2,
            None => r is Err,
        },
        final(reader)@.same_frame(old(reader)@),
{
    let ghost s0 = reader@;
    let ghost item = data_pair_item();
    let mut out: Vec<(String, String)> = Vec::new();
    let mut i: u32 = 0;
    while i < n
        invariant
            i <= n,
            item == data_pair_item(),
            out@.len() == i,
            s0 == old(reader)@,
            reader@.same_frame(s0),
            spec_repeat(s0, i as nat, item) == Some((views(out@), reader@)),
        decreases n - i,
    {
        let ghost before = reader@;
        let ghost prev = views(out@);
        proof { assert(item(before) == spec_data_pair(before)); }
        let k: String = match reader.read_long_u8_string() {
            Ok(v) => v,
            Err(e) => {
                proof { crate::byte_stream::lemma_repeat_fails(s0, (i + 1) as nat, n as nat, item); }
                return Err(CustomPageObjectParseError::String(e));
            },
        };
        let v: String = match reader.read_long_u8_string() {
            Ok(v) => v,
            Err(e) => {
                proof { crate::byte_stream::lemma_repeat_fails(s0, (i + 1) as nat, n as nat, item); }
                return Err(CustomPageObjectParseError::String(e));
            },
        };
        out.push((k, v));
        proof { assert(views(out@) =~= prev.push((out@[i as int].0@, out@[i as int].1@))); }
        i = i + 1;
    }
    Ok(out)
}

impl CustomPageObject {
    #[verifier::rlimit(30)]
    fn read_body(w: &mut ByteStream, object_type: CustomObjectType, file_registry: &FileRegistry) -> (r: Result<CustomPageObject, CustomPageObjectParseError>)
        ensures
            match spec_custom_object_body(old(w)@, object_type, file_registry@) {
                Some((m, s2)) => r matches Ok(v) && v@ == m && final(w)@ == s2,
                None => r is Err,
            },
            final(w)@.same_frame(old(w)@),
    {
        // The first `u32` is normally zero; its meaning is unknown, so it is not kept.
        let _ignored: u32 = match w.read_u32_le() {
            Ok(v) => v,
            Err(e) => return Err(CustomPageObjectParseError::Io(e)),
        };
        let p: CheckedBitfield = match CheckedBitfield::try_parse(w) {
            Ok(v) => v,
            Err(e) => return Err(CustomPageObjectParseError::Flags(e)),
        };
        proof {
            let pb = p.bits();
            crate::bits::lemma_and_not_zero(pb);
        }
        if let Err(e) = p.ensure_none_set_unchecked() {
            return Err(CustomPageObjectParseError::FoundProperty(e));
        }
        let f: CheckedBitfield = match CheckedBitfield::try_parse(w) {
            Ok(v) => v,
            Err(e) => return Err(CustomPageObjectParseError::Flags(e)),
        };
        proof {
            let fb = f.bits();
            crate::bits::lemma_and_not_zero(fb);
        }
        if let Err(e) = f.ensure_none_set_unchecked() {
            return Err(CustomPageObjectParseError::FoundField(e));
        }
        let uuid: String = match w.read_short_u8_string() {
            Ok(v) => v,
            Err(e) => return Err(CustomPageObjectParseError::String(e)),
        };
        let na: u32 = match w.read_u32_le() {
            Ok(v) => v,
            Err(e) => return Err(CustomPageObjectParseError::Io(e)),
        };
        let attached_files = read_attached_files(w, na, file_registry)?;
        let nd: u32 = match w.read_u32_le() {
            Ok(v) => v,
            Err(e) => return Err(CustomPageObjectParseError::Io(e)),
        };
        let custom_data = read_data_pairs(w, nd)?;
        let rect: Rect = match Rect::try_parse_f64(w) {
            Ok(v) => v,
            Err(e) => return Err(CustomPageObjectParseError::Io(e)),
        };
        if let Err(e) = w.ensure_eof() {
            return Err(CustomPageObjectParseError::Unfinished(e));
        }
        Ok(CustomPageObject { object_type, uuid, attached_files, custom_data, rect })
    }
}

impl<'a> TryParseWithContext<ByteStream<'a>, FileRegistry> for CustomPageObject {
    type ParseError = CustomPageObjectParseError;

    fn try_parse_with_ctx(reader: &mut ByteStream<'a>, file_registry: &FileRegistry) -> (r: Result<CustomPageObject, CustomPageObjectParseError>)
        ensures
            match spec_custom_object(old(reader)@, file_registry@) {
                Some((m, s2)) => r matches Ok(v) && v@ == m && final(reader)@ == s2,
                None => r is Err,
            },
            final(reader)@.same_frame(old(reader)@),
    {
        let t: u32 = match reader.read_u32_le() {
            Ok(v) => v,
            Err(e) => return Err(CustomPageObjectParseError::Io(e)),
        };
        let object_type: CustomObjectType = CustomObjectType::from_u32(t);
        let mut w: ByteStream = match reader.exclusive_blind_window() {
            Ok(w) => w,
            Err(e) => return Err(CustomPageObjectParseError::Io(e)),
        };
        let o: CustomPageObject = CustomPageObject::read_body(&mut w, object_type, file_registry)?;
        proof { use_type_invariant(&*reader); use_type_invariant(&w); }
        reader.continue_after(&w);
        Ok(o)
    }
}

} // verus!
