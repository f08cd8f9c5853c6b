//! Pages: their settings, layers and the objects on the layers.
pub mod header;
pub mod object;

use std::rc::Rc;
use vstd::prelude::*;

use crate::bits::{bit_is_set, CheckedBitfield, UnhandledBitsError};
use crate::byte_stream::{
    string_from_utf8_lossy, utf8_lossy,
    lemma_repeat_fails, opt_view, spec_bitfield, spec_continue, spec_exclusive_window, spec_inclusive_window,
    spec_opt, spec_opt_or, spec_repeat, spec_seek, spec_short_u16_string, spec_str_opt,
    spec_take, spec_then, spec_ts_opt, spec_u16, spec_u16_counted, spec_u32, spec_u32_counted,
    spec_u8, spec_i32, views, ByteStream, ExactSizedStream, IoError, ReadBitfieldError,
    ReadStringError, ReadTimestampError, SpecRead, StreamModel, TakeInclusiveLengthPrefixedError,
    Timestamp, TryParse, UnfinishedParsingError,
};
use crate::context::{DocumentContext, TryParseWithContext};
use crate::digest::sha256_digest;
use crate::media_info::{BoundFile, BoundFileModel, FileRegistry, NoSuchRegisteredFileError};
use crate::page::header::{
    spec_canvas_cache_entry, spec_custom_object, spec_pdf_page, CanvasCacheEntry,
    CanvasCacheEntryModel, CustomPageObject, CustomPageObjectModel, CustomPageObjectParseError,
    PdfDataItemParseCtx, PdfDataItemParseError, PdfPage, PdfPageModel,
};
use crate::page::object::base::{object_hash_input, spec_string_list};
use crate::page::object::header::{spec_flag_block, FlagBlock};
use crate::page::object::shared::{spec_rect, Rect};
use crate::page::object::{
    doc_object_model, object_base_of, spec_doc_object, DocObject, DocObjectModel,
    DocObjectParseContext, DocObjectParseError, NESTING_LIMIT,
};
use crate::{spec_opaque_exclusive, OpaqueBytes, OpaqueBytesParseError};

verus! {

/// Failure to read a layer.
#[derive(Debug)]
pub enum LayerParseError {
    Io(IoError),
    BadSize(TakeInclusiveLengthPrefixedError),
    String(ReadStringError),
    Timestamp(ReadTimestampError),
    Unfinished(UnfinishedParsingError),
    NoSuchFile(NoSuchRegisteredFileError),
    OpaqueBytes(OpaqueBytesParseError),
    DocObject(DocObjectParseError),
    /// The property flags could not be read.
    PropertyFlags(ReadBitfieldError),
    /// One or more property flags were not handled.
    UnhandledProperty(UnhandledBitsError),
    /// The field flags could not be read.
    FieldFlags(ReadBitfieldError),
    /// One or more field flags were not handled.
    UnhandledField(UnhandledBitsError),
    /// Objects with children are not supported (the child count is given).
    ObjectHasChildren(u16),
    /// The hash stored after the object with this uuid is not its hash.
    ObjectHashMismatch(String),
    /// The object count does not fit in `usize`.
    TooManyObjects(u32),
}

/// The bytes of a run of `u32`-size-prefixed bytes, or nothing if it cannot be read.
pub open spec fn spec_opaque_opt(s: StreamModel) -> SpecRead<Seq<u8>> {
    match spec_opaque_exclusive(s) {
        Ok((b, s1)) => Some((b, s1)),
        Err(_) => None,
    }
}

pub open spec fn opaque_item() -> spec_fn(StreamModel) -> SpecRead<Seq<u8>> {
    |t: StreamModel| spec_opaque_opt(t)
}

/// The stream moved to the optional fields at `target` (counted from the origin), unless it is
/// already there.
pub open spec fn spec_seek_flex(s: StreamModel, target: int) -> Option<StreamModel> {
    if s.pos - s.origin == target {
        Some(s)
    } else {
        spec_seek(s, target)
    }
}

/// Moves `r` to `target` (counted from its origin) unless it is already there.
pub(crate) fn seek_flex(r: &mut ByteStream, target: u64) -> (res: Result<(), IoError>)
    ensures
        final(r)@.same_frame(old(r)@),
        match spec_seek_flex(old(r)@, target as int) {
            Some(s2) => res is Ok && final(r)@ == s2,
            None => res is Err,
        },
{
    if r.stream_position() != target {
        r.seek_to(target)?;
    }
    Ok(())
}

/// Moves `r` to `start + rel` (counted from its origin) unless it is already there; a target
/// past the range of `u64` lies outside every stream.
pub(crate) fn seek_flex_from(r: &mut ByteStream, start: u64, rel: u32) -> (res: Result<(), IoError>)
    ensures
        final(r)@.same_frame(old(r)@),
        match spec_seek_flex(old(r)@, start + rel) {
            Some(s2) => res is Ok && final(r)@ == s2,
            None => res is Err,
        },
{
    proof { use_type_invariant(&*r); }
    match start.checked_add(rel as u64) {
        Some(t) => seek_flex(r, t),
        None => {
            let _here: u64 = r.stream_position();
            let _end: u64 = r.stream_end();
            Err(IoError::InvalidInput)
        },
    }
}

/// Reads a `u16` count and that many short UTF-16 strings.
fn read_tags(r: &mut ByteStream) -> (res: Result<Vec<String>, PageParseError>)
    ensures
        match spec_string_list(old(r)@) {
            Some((m, s2)) => res matches Ok(v) && views(v@) == m && final(r)@ == s2,
            None => res is Err,
        },
        final(r)@.same_frame(old(r)@),
{
    let n: u16 = match r.read_u16_le() {
        Ok(v) => v,
        Err(e) => return Err(PageParseError::Io(e)),
    };
    let ghost s0 = r@;
    let ghost item = crate::page::object::base::short_u16_string_item();
    let mut out: Vec<String> = Vec::new();
    let mut i: u16 = 0;
    while i < n
        invariant
            i <= n,
            item == crate::page::object::base::short_u16_string_item(),
            out@.len() == i,
            s0.same_frame(old(r)@),
            spec_u16(old(r)@) == Some((n, s0)),
            r@.same_frame(s0),
            spec_repeat(s0, i as nat, item) == Some((views(out@), r@)),
        decreases n - i,
    {
        let ghost before = r@;
        let ghost prev = views(out@);
        proof { assert(item(before) == spec_str_opt(spec_short_u16_string(before))); }
        let t: String = match r.read_short_u16_string() {
            Ok(v) => v,
            Err(e) => {
                proof { lemma_repeat_fails(s0, (i + 1) as nat, n as nat, item); }
                return Err(PageParseError::String(e));
            },
        };
        out.push(t);
        proof { assert(views(out@) =~= prev.push(out@[i as int]@)); }
        i = i + 1;
    }
    Ok(out)
}

/// Reads a `u32` count and that many size-prefixed runs of bytes.
fn read_opaque_list(r: &mut ByteStream) -> (res: Result<Vec<OpaqueBytes>, PageParseError>)
    ensures
        match spec_u32_counted(old(r)@, opaque_item()) {
            Some((m, s2)) => res matches Ok(v) && views(v@) == m && final(r)@ == s2,
            None => res is Err,
        },
        final(r)@.same_frame(old(r)@),
{
    let n: u32 = match r.read_u32_le() {
        Ok(v) => v,
        Err(e) => return Err(PageParseError::Io(e)),
    };
    let ghost s0 = r@;
    let ghost item = opaque_item();
    let mut out: Vec<OpaqueBytes> = Vec::new();
    let mut i: u32 = 0;
    while i < n
        invariant
            i <= n,
            item == opaque_item(),
            out@.len() == i,
            s0.same_frame(old(r)@),
            spec_u32(old(r)@) == Some((n, s0)),
            r@.same_frame(s0),
            spec_repeat(s0, i as nat, item) == Some((views(out@), r@)),
        decreases n - i,
    {
        let ghost before = r@;
        let ghost prev = views(out@);
        proof { assert(item(before) == spec_opaque_opt(before)); }
        let b: OpaqueBytes = match OpaqueBytes::try_parse_exclusive(r) {
            Ok(v) => v,
            Err(e) => {
                proof { lemma_repeat_fails(s0, (i + 1) as nat, n as nat, item); }
                return Err(PageParseError::OpaqueBytes(e));
            },
        };
        out.push(b);
        proof { assert(views(out@) =~= prev.push(out@[i as int]@)); }
        i = i + 1;
    }
    Ok(out)
}

/// The ruling or template that a page is drawn on.
#[derive(Debug, Clone, Copy, PartialEq, Eq, Structural)]
pub enum TemplateType {
    /// `TYPE_NONE`
    NoTemplate,
    /// `TYPE_NARROW_LINE`
    NarrowLine,
    /// `TYPE_MEDIUM_LINE`
    MediumLine,
    /// `TYPE_WIDE_LINE`
    WideLine,
    /// `TYPE_NARROW_GRID`
    NarrowGrid,
    /// `TYPE_MEDIUM_GRID`
    MediumGrid,
    /// `TYPE_WIDE_GRID`
    WideGrid,
    /// `TYPE_NARROW_DOT`
    NarrowDot,
    /// `TYPE_MEDIUM_DOT`
    MediumDot,
    /// `TYPE_WIDE_DOT`
    WideDot,
    /// `TYPE_TODO`
    Todo,
    /// `TYPE_OXFORD_PAPER`
    OxfordPaper,
    /// `TYPE_CUSTOM`
    Custom,
    /// `TYPE_WEEKLY`
    Weekly,
    /// `TYPE_MONTHLY`
    Monthly,
    /// `TYPE_MANUSCRIPT`
    Manuscript,
    /// `TYPE_PDF`
    Pdf,
}

/// The value is not that of a `TemplateType`.
#[derive(Debug, Clone, Copy, PartialEq, Eq, Structural)]
pub struct InvalidTemplateTypeError {
    pub bad_value: u32,
}

/// The `TemplateType` that `v` stands for: 0 to 16 in declaration order.
pub open spec fn spec_template_type(v: u32) -> Option<TemplateType> {
    if v == 0 {
        Some(TemplateType::NoTemplate)
    } else if v == 1 {
        Some(TemplateType::NarrowLine)
    } else if v == 2 {
        Some(TemplateType::MediumLine)
    } else if v == 3 {
        Some(TemplateType::WideLine)
    } else if v == 4 {
        Some(TemplateType::NarrowGrid)
    } else if v == 5 {
        Some(TemplateType::MediumGrid)
    } else if v == 6 {
        Some(TemplateType::WideGrid)
    } else if v == 7 {
        Some(TemplateType::NarrowDot)
    } else if v == 8 {
        Some(TemplateType::MediumDot)
    } else if v == 9 {
        Some(TemplateType::WideDot)
    } else if v == 10 {
        Some(TemplateType::Todo)
    } else if v == 11 {
        Some(TemplateType::OxfordPaper)
    } else if v == 12 {
        Some(TemplateType::Custom)
    } else if v == 13 {
        Some(TemplateType::Weekly)
    } else if v == 14 {
        Some(TemplateType::Monthly)
    } else if v == 15 {
        Some(TemplateType::Manuscript)
    } else if v == 16 {
        Some(TemplateType::Pdf)
    } else {
        None
    }
}

impl TemplateType {
    pub fn try_from_u32(v: u32) -> (r: Result<TemplateType, InvalidTemplateTypeError>)
        ensures
            match spec_template_type(v) {
                Some(x) => r == Ok::<TemplateType, InvalidTemplateTypeError>(x),
                None => r == Err::<TemplateType, InvalidTemplateTypeError>(InvalidTemplateTypeError { bad_value: v }),
            },
    {
        match v {
            0 => Ok(TemplateType::NoTemplate),
            1 => Ok(TemplateType::NarrowLine),
            2 => Ok(TemplateType::MediumLine),
            3 => Ok(TemplateType::WideLine),
            4 => Ok(TemplateType::NarrowGrid),
            5 => Ok(TemplateType::MediumGrid),
            6 => Ok(TemplateType::WideGrid),
            7 => Ok(TemplateType::NarrowDot),
            8 => Ok(TemplateType::MediumDot),
            9 => Ok(TemplateType::WideDot),
            10 => Ok(TemplateType::Todo),
            11 => Ok(TemplateType::OxfordPaper),
            12 => Ok(TemplateType::Custom),
            13 => Ok(TemplateType::Weekly),
            14 => Ok(TemplateType::Monthly),
            15 => Ok(TemplateType::Manuscript),
            16 => Ok(TemplateType::Pdf),
            _ => Err(InvalidTemplateTypeError { bad_value: v }),
        }
    }
}

/// How a background image is laid out on a page.
#[derive(Debug, Clone, Copy, PartialEq, Eq, Structural)]
pub enum BackgroundImageMode {
    /// `BACKGROUND_IMAGE_MODE_CENTER`
    Centre,
    /// `BACKGROUND_IMAGE_MODE_STRETCH`
    Stretch,
    /// `BACKGROUND_IMAGE_MODE_FIT`
    Fit,
    /// `BACKGROUND_IMAGE_MODE_TILE`
    Tile,
}

/// The value is not that of a `BackgroundImageMode`.
#[derive(Debug, Clone, Copy, PartialEq, Eq, Structural)]
pub struct InvalidBackgroundImageModeError {
    pub bad_value: u32,
}

/// The `BackgroundImageMode` that `v` stands for: 0 to 3 in declaration order.
pub open spec fn spec_background_image_mode(v: u32) -> Option<BackgroundImageMode> {
    if v == 0 {
        Some(BackgroundImageMode::Centre)
    } else if v == 1 {
        Some(BackgroundImageMode::Stretch)
    } else if v == 2 {
        Some(BackgroundImageMode::Fit)
    } else if v == 3 {
        Some(BackgroundImageMode::Tile)
    } else {
        None
    }
}

impl BackgroundImageMode {
    pub fn try_from_u32(v: u32) -> (r: Result<BackgroundImageMode, InvalidBackgroundImageModeError>)
        ensures
            match spec_background_image_mode(v) {
                Some(x) => r == Ok::<BackgroundImageMode, InvalidBackgroundImageModeError>(x),
                None => r == Err::<BackgroundImageMode, InvalidBackgroundImageModeError>(InvalidBackgroundImageModeError { bad_value: v }),
            },
    {
        match v {
            0 => Ok(BackgroundImageMode::Centre),
            1 => Ok(BackgroundImageMode::Stretch),
            2 => Ok(BackgroundImageMode::Fit),
            3 => Ok(BackgroundImageMode::Tile),
            _ => Err(InvalidBackgroundImageModeError { bad_value: v }),
        }
    }
}



/// A layer of a page, and the objects on it.
#[derive(Debug)]
pub struct Layer {
    pub visible: bool,
    pub lock_state: bool,
    pub event_forwardable: bool,
    pub layer_id: u32,
    pub alpha: Option<u8>,
    pub background_colour: Option<[u8; 4]>,
    pub name: Option<String>,
    pub uuid: Option<String>,
    pub modified_time: Option<Timestamp>,
    pub thumbnail: Option<Rc<BoundFile>>,
    pub shadow_effect: Option<OpaqueBytes>,
    pub objects: Vec<DocObject>,
    pub hash: [u8; 32],
}

pub struct LayerModel {
    pub visible: bool,
    pub lock_state: bool,
    pub event_forwardable: bool,
    pub layer_id: u32,
    pub alpha: Option<u8>,
    pub background_colour: Option<Seq<u8>>,
    pub name: Option<Seq<char>>,
    pub uuid: Option<Seq<char>>,
    pub modified_time: Option<Timestamp>,
    pub thumbnail: Option<BoundFileModel>,
    pub shadow_effect: Option<Seq<u8>>,
    pub objects: Seq<DocObjectModel>,
    pub hash: Seq<u8>,
}

/// The models of objects read within the nesting limit.
pub open spec fn doc_objects_model(v: Seq<DocObject>) -> Seq<DocObjectModel> {
    Seq::new(v.len(), |i: int| doc_object_model(&v[i], NESTING_LIMIT as nat))
}

impl View for Layer {
    type V = LayerModel;

    open spec fn view(&self) -> LayerModel {
        LayerModel {
            visible: self.visible,
            lock_state: self.lock_state,
            event_forwardable: self.event_forwardable,
            layer_id: self.layer_id,
            alpha: self.alpha,
            background_colour: opt_view(self.background_colour),
            name: opt_view(self.name),
            uuid: opt_view(self.uuid),
            modified_time: self.modified_time,
            thumbnail: opt_view(self.thumbnail),
            shadow_effect: opt_view(self.shadow_effect),
            objects: doc_objects_model(self.objects@),
            hash: self.hash@,
        }
    }
}

/// The file that an optional id names in `files`: `None` (a failure) if the id is there but
/// `files` does not hold it.
pub open spec fn spec_lookup_file(id: Option<u32>, files: Map<u32, BoundFileModel>) -> Option<Option<BoundFileModel>> {
    match id {
        Some(id) => if files.contains_key(id) {
            Some(Some(files[id]))
        } else {
            None
        },
        None => Some(None),
    }
}

/// The header of a layer, within its window `hw` (which counts positions as the page does): a
/// flag block whose property bits are 0 (hidden), 1 (forwards events) and 2 (locked), the `u32`
/// layer id, then, at the flex offset, the optional fields of bits 0 to 6, with every field bit
/// handled and every byte of the window used. The objects and hash are left empty.
#[verifier::opaque]
pub open spec fn spec_layer_header(hw: StreamModel, files: Map<u32, BoundFileModel>) -> SpecRead<LayerModel> {
    match spec_flag_block(hw) {
        Some((fb, h1)) => if fb.property_bits & !7u32 != 0 {
            None
        } else {
            match spec_u32(h1) {
                Some((layer_id, h2)) => match spec_seek_flex(h2, fb.flex_offset as int) {
                    Some(h3) => match spec_layer_flex(h3, fb.field_bits) {
                        Some((o, h4)) => if fb.field_bits & !0x7fu32 != 0 || h4.remaining() != 0 {
                            None
                        } else {
                            match spec_lookup_file(o.5, files) {
                                Some(thumbnail) => Some((LayerModel {
                                    visible: !bit_is_set(fb.property_bits, 0),
                                    lock_state: bit_is_set(fb.property_bits, 2),
                                    event_forwardable: bit_is_set(fb.property_bits, 1),
                                    layer_id,
                                    alpha: o.0,
                                    background_colour: o.1,
                                    name: o.2,
                                    uuid: o.3,
                                    modified_time: o.4,
                                    thumbnail,
                                    shadow_effect: o.6,
                                    objects: Seq::empty(),
                                    hash: Seq::empty(),
                                }, h4)),
                                None => None,
                            }
                        },
                        None => None,
                    },
                    None => None,
                },
                None => None,
            }
        },
        None => None,
    }
}

/// The hash that an object with this model must have.
pub open spec fn expected_object_hash(m: DocObjectModel) -> Seq<u8> {
    sha256_digest(object_hash_input(object_base_of(m).uuid, object_base_of(m).modified_time.micros))
}

/// An object of a layer: its `u8` type, a `u16` child count that must be 0, then a `u32` size
/// and a window of that many bytes holding the object and its 32-byte hash, which must be the
/// object's hash. A shape (type 7) whose hash does not match there may have its hash 4 bytes
/// further on (its size then undercounts it by 4); the hash is read again from there. The layer
/// continues where the hash ended.
#[verifier::opaque]
pub open spec fn spec_layer_object(s: StreamModel) -> SpecRead<DocObjectModel> {
    match spec_u8(s) {
        Some((t, s1)) => match spec_u16(s1) {
            Some((children, s2)) => if children != 0 {
                None
            } else {
                match spec_exclusive_window(s2) {
                    Some((w, s3)) => match spec_doc_object(w, t, NESTING_LIMIT as nat) {
                        Some((m, w1)) => match spec_take(w1, 32) {
                            Some((h, w2)) => if h == expected_object_hash(m) {
                                Some((m, spec_continue(s3, w2)))
                            } else if t != 7 || w2.pos - 28 < w2.start {
                                None
                            } else {
                                match spec_take(w2.with_pos(w2.pos - 28), 32) {
                                    Some((h2, w3)) => if h2 == expected_object_hash(m) {
                                        Some((m, spec_continue(s3, w3)))
                                    } else {
                                        None
                                    },
                                    None => None,
                                }
                            },
                            None => None,
                        },
                        None => None,
                    },
                    None => None,
                }
            },
            None => None,
        },
        None => None,
    }
}

pub open spec fn layer_object_item() -> spec_fn(StreamModel) -> SpecRead<DocObjectModel> {
    |t: StreamModel| spec_layer_object(t)
}

/// The errors of a layer's objects that the contracts name: an object with children (their
/// count), and an object whose stored hash is not its own (its uuid).
pub enum LayerObjectError {
    HasChildren(u16),
    HashMismatch(Seq<char>),
}

/// Whether `r` is the error `e`.
pub open spec fn is_layer_object_error(r: LayerParseError, e: LayerObjectError) -> bool {
    match e {
        LayerObjectError::HasChildren(c) => r matches LayerParseError::ObjectHasChildren(rc) && rc == c,
        LayerObjectError::HashMismatch(u) => r matches LayerParseError::ObjectHashMismatch(ru) && ru@ == u,
    }
}

/// The named error that reading the layer object in `s` gives: children, or (once the object
/// and its hash are read) a stored hash that is not the object's, where a shape's second
/// chance, 4 bytes further on, fails too. `None` where the read succeeds or fails otherwise.
pub open spec fn spec_layer_object_error(s: StreamModel) -> Option<LayerObjectError> {
    match spec_u8(s) {
        Some((t, s1)) => match spec_u16(s1) {
            Some((children, s2)) => if children != 0 {
                Some(LayerObjectError::HasChildren(children))
            } else {
                match spec_exclusive_window(s2) {
                    Some((w, _)) => match spec_doc_object(w, t, NESTING_LIMIT as nat) {
                        Some((m, w1)) => match spec_take(w1, 32) {
                            Some((h, w2)) => if h == expected_object_hash(m) {
                                None
                            } else if t != 7 {
                                Some(LayerObjectError::HashMismatch(object_base_of(m).uuid))
                            } else if w2.pos - 28 < w2.start {
                                None
                            } else {
                                match spec_take(w2.with_pos(w2.pos - 28), 32) {
                                    Some((h2, _)) => if h2 == expected_object_hash(m) {
                                        None
                                    } else {
                                        Some(LayerObjectError::HashMismatch(object_base_of(m).uuid))
                                    },
                                    None => None,
                                }
                            },
                            None => None,
                        },
                        None => None,
                    },
                    None => None,
                }
            },
            None => None,
        },
        None => None,
    }
}

/// The named error of the first of `n` layer objects whose read fails with one.
pub open spec fn spec_layer_objects_error(s: StreamModel, n: nat) -> Option<LayerObjectError>
    decreases n,
{
    if n == 0 {
        None
    } else {
        match spec_layer_objects_error(s, (n - 1) as nat) {
            Some(e) => Some(e),
            None => match spec_repeat(s, (n - 1) as nat, layer_object_item()) {
                Some((_, sk)) => spec_layer_object_error(sk),
                None => None,
            },
        }
    }
}

/// Once the first `m` objects give a named error, so do the first `n`.
proof fn lemma_layer_objects_error_stays(s: StreamModel, m: nat, n: nat)
    requires
        m <= n,
        spec_layer_objects_error(s, m) is Some,
    ensures
        spec_layer_objects_error(s, n) == spec_layer_objects_error(s, m),
    decreases n - m,
{
    if m < n {
        lemma_layer_objects_error_stays(s, m, (n - 1) as nat);
    }
}

/// Once reading the first `m` objects fails without a named error, no later object gives one.
proof fn lemma_layer_objects_error_none(s: StreamModel, m: nat, n: nat)
    requires
        m <= n,
        spec_layer_objects_error(s, m) is None,
        spec_repeat(s, m, layer_object_item()) is None,
    ensures
        spec_layer_objects_error(s, n) is None,
    decreases n - m,
{
    if m < n {
        lemma_layer_objects_error_none(s, m, (n - 1) as nat);
        lemma_repeat_fails(s, m, (n - 1) as nat, layer_object_item());
    }
}

/// The named error that reading the layer in `s` gives, from the first of its objects that
/// gives one.
pub open spec fn spec_layer_error(s: StreamModel, files: Map<u32, BoundFileModel>) -> Option<LayerObjectError> {
    match spec_inclusive_window(s) {
        Ok(hw) => match spec_layer_header(hw, files) {
            Some((_, hw2)) => match spec_u32(spec_continue(s, hw2)) {
                Some((n, s2)) => spec_layer_objects_error(s2, n as nat),
                None => None,
            },
            None => None,
        },
        Err(_) => None,
    }
}

/// A layer: a window whose `u32` size counts itself, holding the header; then a `u32` count of
/// objects, the objects, and the layer's 32-byte hash.
#[verifier::opaque]
pub open spec fn spec_layer(s: StreamModel, files: Map<u32, BoundFileModel>) -> SpecRead<LayerModel> {
    match spec_inclusive_window(s) {
        Ok(hw) => match spec_layer_header(hw, files) {
            Some((h, hw2)) => {
                let s1 = spec_continue(s, hw2);
                match spec_u32(s1) {
                    Some((n, s2)) => match spec_repeat(s2, n as nat, layer_object_item()) {
                        Some((objects, s3)) => match spec_take(s3, 32) {
                            Some((hash, s4)) => Some((LayerModel { objects, hash, ..h }, s4)),
                            None => None,
                        },
                        None => None,
                    },
                    None => None,
                }
            },
            None => None,
        },
        Err(_) => None,
    }
}

/// Whether two 32-byte hashes are equal.
fn hashes_equal(a: &[u8; 32], b: &[u8; 32]) -> (r: bool)
    ensures
        r == (a@ == b@),
{
    crate::byte_stream::bytes_eq(a, b)
}

/// Whether two layers agree in everything but their objects and hash.
pub open spec fn same_layer_head(a: LayerModel, b: LayerModel) -> bool {
    &&& a.visible == b.visible
    &&& a.lock_state == b.lock_state
    &&& a.event_forwardable == b.event_forwardable
    &&& a.layer_id == b.layer_id
    &&& a.alpha == b.alpha
    &&& a.background_colour == b.background_colour
    &&& a.name == b.name
    &&& a.uuid == b.uuid
    &&& a.modified_time == b.modified_time
    &&& a.thumbnail == b.thumbnail
    &&& a.shadow_effect == b.shadow_effect
}

impl Layer {
    /// Reads the header of a layer; the objects are left empty and the hash zero.
    #[verifier::rlimit(40)]
    fn read_header(hw: &mut ByteStream, ctx: &DocumentContext) -> (res: Result<Layer, LayerParseError>)
        ensures
            match spec_layer_header(old(hw)@, ctx.file_registry@) {
                Some((m, s2)) => res matches Ok(v) && same_layer_head(v@, m) && final(hw)@ == s2,
                None => res is Err,
            },
            final(hw)@.same_frame(old(hw)@),
    {
        proof { reveal(spec_layer_header); }
        let flex_offset: u32 = match hw.read_u32_le() {
            Ok(v) => v,
            Err(e) => return Err(LayerParseError::Io(e)),
        };
        let mut p: CheckedBitfield = match CheckedBitfield::try_parse(hw) {
            Ok(v) => v,
            Err(e) => return Err(LayerParseError::PropertyFlags(e)),
        };
        let mut ff: CheckedBitfield = match CheckedBitfield::try_parse(hw) {
            Ok(v) => v,
            Err(e) => return Err(LayerParseError::FieldFlags(e)),
        };
        let ghost fbits = ff.bits();
        let hidden: bool = p.check_bit(0);
        let ghost c1 = p.checked();
        let event_forwardable: bool = p.check_bit(1);
        let ghost c2 = p.checked();
        let lock_state: bool = p.check_bit(2);
        proof {
            let c3 = p.checked();
            assert(c3 == 7u32) by (bit_vector)
                requires
                    c1 == 0u32 | (1u32 << 0u8),
                    c2 == c1 | (1u32 << 1u8),
                    c3 == c2 | (1u32 << 2u8),
            ;
        }
        if let Err(e) = p.ensure_none_set_unchecked() {
            return Err(LayerParseError::UnhandledProperty(e));
        }
        let layer_id: u32 = match hw.read_u32_le() {
            Ok(v) => v,
            Err(e) => return Err(LayerParseError::Io(e)),
        };
        if let Err(e) = seek_flex(hw, flex_offset as u64) {
            return Err(LayerParseError::Io(e));
        }
        let o = read_layer_flex(hw, &mut ff)?;
        proof {
            let c = ff.checked();
            assert(fbits & !c == fbits & !0x7fu32) by (bit_vector)
                requires
                    c == 0u32 | 0x7fu32,
            ;
        }
        if let Err(e) = ff.ensure_none_set_unchecked() {
            return Err(LayerParseError::UnhandledField(e));
        }
        if let Err(e) = hw.ensure_eof() {
            return Err(LayerParseError::Unfinished(e));
        }
        let thumbnail: Option<Rc<BoundFile>> = match o.5 {
            Some(id) => match ctx.file_registry.try_get(id) {
                Ok(f) => Some(f),
                Err(e) => return Err(LayerParseError::NoSuchFile(e)),
            },
            None => None,
        };
        Ok(Layer {
            visible: !hidden,
            lock_state,
            event_forwardable,
            layer_id,
            alpha: o.0,
            background_colour: o.1,
            name: o.2,
            uuid: o.3,
            modified_time: o.4,
            thumbnail,
            shadow_effect: o.6,
            objects: Vec::new(),
            hash: [0u8; 32],
        })
    }
}

/// Reads one object of a layer and checks its hash.
#[verifier::rlimit(60)]
fn read_layer_object(r: &mut ByteStream, ctx: &DocumentContext) -> (res: Result<DocObject, LayerParseError>)
    ensures
        match spec_layer_object(old(r)@) {
            Some((m, s2)) => res matches Ok(v) && doc_object_model(&v, NESTING_LIMIT as nat) == m && final(r)@ == s2,
            None => res is Err,
        },
        spec_layer_object_error(old(r)@) matches Some(e) ==> (res matches Err(re) && is_layer_object_error(re, e)),
        spec_layer_object(old(r)@) is Some ==> spec_layer_object_error(old(r)@) is None,
        final(r)@.same_frame(old(r)@),
{
    proof { reveal(spec_layer_object); }
    let t: u8 = match r.read_u8() {
        Ok(v) => v,
        Err(e) => return Err(LayerParseError::Io(e)),
    };
    let children: u16 = match r.read_u16_le() {
        Ok(v) => v,
        Err(e) => return Err(LayerParseError::Io(e)),
    };
    if children != 0 {
        return Err(LayerParseError::ObjectHasChildren(children));
    }
    let mut w: ByteStream = match r.exclusive_blind_window() {
        Ok(w) => w,
        Err(e) => return Err(LayerParseError::Io(e)),
    };
    let object: DocObject = match DocObject::try_parse_with_ctx(&mut w, &DocObjectParseContext { object_type: t, doc_ctx: *ctx }) {
        Ok(v) => v,
        Err(e) => return Err(LayerParseError::DocObject(e)),
    };
    let hash_read: [u8; 32] = match w.read_32_bytes() {
        Ok(v) => v,
        Err(e) => return Err(LayerParseError::Io(e)),
    };
    let base = object.object_base();
    let object_hash: [u8; 32] = base.compute_hash();
    proof {
        assert(base@ == object_base_of(doc_object_model(&object, NESTING_LIMIT as nat)));
    }
    if !hashes_equal(&object_hash, &hash_read) {
        if t != 7 {
            return Err(LayerParseError::ObjectHashMismatch(copy_string(base.uuid())));
        }
        // Some shapes are 4 bytes larger than their size says, which moves the hash 4 bytes
        // along; the hash is read again from there.
        proof { use_type_invariant(&w); }
        if let Err(e) = w.seek_relative(-28) {
            return Err(LayerParseError::Io(e));
        }
        let again: [u8; 32] = match w.read_32_bytes() {
            Ok(v) => v,
            Err(e) => return Err(LayerParseError::Io(e)),
        };
        if !hashes_equal(&object_hash, &again) {
            return Err(LayerParseError::ObjectHashMismatch(copy_string(base.uuid())));
        }
    }
    proof { use_type_invariant(&*r); use_type_invariant(&w); }
    r.continue_after(&w);
    Ok(object)
}

/// A copy of `s`.
fn copy_string(s: &str) -> (r: String)
    ensures
        r@ == s@,
{
    s.to_owned()
}

/// Reads `n` objects of a layer.
fn read_layer_objects(r: &mut ByteStream, n: u32, ctx: &DocumentContext) -> (res: Result<Vec<DocObject>, LayerParseError>)
    ensures
        match spec_repeat(old(r)@, n as nat, layer_object_item()) {
            Some((m, s2)) => res matches Ok(v) && doc_objects_model(v@) == m && final(r)@ == s2,
            None => res is Err,
        },
        spec_layer_objects_error(old(r)@, n as nat) matches Some(e) ==> (res matches Err(re) && is_layer_object_error(re, e)),
        final(r)@.same_frame(old(r)@),
{
    let ghost s0 = r@;
    let ghost item = layer_object_item();
    let mut out: Vec<DocObject> = Vec::new();
    let mut i: u32 = 0;
    while i < n
        invariant
            i <= n,
            item == layer_object_item(),
            out@.len() == i,
            s0 == old(r)@,
            r@.same_frame(s0),
            spec_repeat(s0, i as nat, item) == Some((doc_objects_model(out@), r@)),
            spec_layer_objects_error(s0, i as nat) is None,
        decreases n - i,
    {
        let ghost before = r@;
        let ghost prev = doc_objects_model(out@);
        proof { assert(item(before) == spec_layer_object(before)); }
        let x: DocObject = match read_layer_object(r, ctx) {
            Ok(x) => x,
            Err(e) => {
                proof {
                    lemma_repeat_fails(s0, (i + 1) as nat, n as nat, item);
                    if spec_layer_objects_error(s0, (i + 1) as nat) is Some {
                        lemma_layer_objects_error_stays(s0, (i + 1) as nat, n as nat);
                    } else {
                        lemma_layer_objects_error_none(s0, (i + 1) as nat, n as nat);
                    }
                }
                return Err(e);
            },
        };
        out.push(x);
        proof { assert(doc_objects_model(out@) =~= prev.push(doc_object_model(&out@[i as int], NESTING_LIMIT as nat))); }
        i = i + 1;
    }
    Ok(out)
}

impl<'a, 'fr, 'sr> TryParseWithContext<ByteStream<'a>, DocumentContext<'fr, 'sr>> for Layer {
    type ParseError = LayerParseError;

    fn try_parse_with_ctx(reader: &mut ByteStream<'a>, ctx: &DocumentContext<'fr, 'sr>) -> (r: Result<Layer, LayerParseError>)
        ensures
            match spec_layer(old(reader)@, ctx.file_registry@) {
                Some((m, s2)) => r matches Ok(v) && v@ == m && final(reader)@ == s2,
                None => r is Err,
            },
            spec_layer_error(old(reader)@, ctx.file_registry@) matches Some(e)
                ==> (r matches Err(re) && is_layer_object_error(re, e)),
            final(reader)@.same_frame(old(reader)@),
    {
        proof { reveal(spec_layer); use_type_invariant(&*reader); }
        let mut hw: ByteStream = match reader.take_inclusive_length_prefixed() {
            Ok(w) => w,
            Err(e) => return Err(LayerParseError::BadSize(e)),
        };
        let ghost w0 = hw@;
        proof {
            use_type_invariant(&*reader);
            assert(spec_inclusive_window(old(reader)@) == Ok::<StreamModel, TakeInclusiveLengthPrefixedError>(w0));
            assert(w0.start >= reader@.start && w0.end <= reader@.end);
        }
        let head: Layer = Layer::read_header(&mut hw, ctx)?;
        proof { use_type_invariant(&*reader); use_type_invariant(&hw); }
        reader.continue_after(&hw);
        let n: u32 = match reader.read_u32_le() {
            Ok(v) => v,
            Err(e) => return Err(LayerParseError::Io(e)),
        };
        let objects: Vec<DocObject> = read_layer_objects(reader, n, ctx)?;
        let hash: [u8; 32] = match reader.read_32_bytes() {
            Ok(v) => v,
            Err(e) => return Err(LayerParseError::Io(e)),
        };
        Ok(Layer { objects, hash, ..head })
    }
}

fn read_layer_flex_alpha(r: &mut ByteStream, present: bool) -> (res: Result<Option<u8>, LayerParseError>)
    ensures
        match spec_opt(present, spec_u8(old(r)@), old(r)@) {
            Some((m, s2)) => res matches Ok(v) && v == m && final(r)@ == s2,
            None => res is Err,
        },
        final(r)@.same_frame(old(r)@),
{
    if present {
        Ok(Some(match r.read_u8() {
            Ok(v) => v,
            Err(e) => return Err(LayerParseError::Io(e)),
        }))
    } else {
        Ok(None)
    }
}

fn read_layer_flex_background_colour(r: &mut ByteStream, present: bool) -> (res: Result<Option<[u8; 4]>, LayerParseError>)
    ensures
        match spec_opt(present, spec_take(old(r)@, 4), old(r)@) {
            Some((m, s2)) => res matches Ok(v) && opt_view(v) == m && final(r)@ == s2,
            None => res is Err,
        },
        final(r)@.same_frame(old(r)@),
{
    if present {
        Ok(Some(match r.read_4_bytes() {
            Ok(v) => v,
            Err(e) => return Err(LayerParseError::Io(e)),
        }))
    } else {
        Ok(None)
    }
}

fn read_layer_flex_name(r: &mut ByteStream, present: bool) -> (res: Result<Option<String>, LayerParseError>)
    ensures
        match spec_opt(present, spec_str_opt(spec_short_u16_string(old(r)@)), old(r)@) {
            Some((m, s2)) => res matches Ok(v) && opt_view(v) == m && final(r)@ == s2,
            None => res is Err,
        },
        final(r)@.same_frame(old(r)@),
{
    if present {
        Ok(Some(match r.read_short_u16_string() {
            Ok(v) => v,
            Err(e) => return Err(LayerParseError::String(e)),
        }))
    } else {
        Ok(None)
    }
}

fn read_layer_flex_uuid(r: &mut ByteStream, present: bool) -> (res: Result<Option<String>, LayerParseError>)
    ensures
        match spec_opt(present, spec_str_opt(spec_short_u16_string(old(r)@)), old(r)@) {
            Some((m, s2)) => res matches Ok(v) && opt_view(v) == m && final(r)@ == s2,
            None => res is Err,
        },
        final(r)@.same_frame(old(r)@),
{
    if present {
        Ok(Some(match r.read_short_u16_string() {
            Ok(v) => v,
            Err(e) => return Err(LayerParseError::String(e)),
        }))
    } else {
        Ok(None)
    }
}

fn read_layer_flex_modified_time(r: &mut ByteStream, present: bool) -> (res: Result<Option<Timestamp>, LayerParseError>)
    ensures
        match spec_opt(present, spec_ts_opt(old(r)@), old(r)@) {
            Some((m, s2)) => res matches Ok(v) && v == m && final(r)@ == s2,
            None => res is Err,
        },
        final(r)@.same_frame(old(r)@),
{
    if present {
        Ok(Some(match r.read_timestamp() {
            Ok(v) => v,
            Err(e) => return Err(LayerParseError::Timestamp(e)),
        }))
    } else {
        Ok(None)
    }
}

fn read_layer_flex_thumbnail_id(r: &mut ByteStream, present: bool) -> (res: Result<Option<u32>, LayerParseError>)
    ensures
        match spec_opt(present, spec_u32(old(r)@), old(r)@) {
            Some((m, s2)) => res matches Ok(v) && v == m && final(r)@ == s2,
            None => res is Err,
        },
        final(r)@.same_frame(old(r)@),
{
    if present {
        Ok(Some(match r.read_u32_le() {
            Ok(v) => v,
            Err(e) => return Err(LayerParseError::Io(e)),
        }))
    } else {
        Ok(None)
    }
}

fn read_layer_flex_shadow_effect(r: &mut ByteStream, present: bool) -> (res: Result<Option<OpaqueBytes>, LayerParseError>)
    ensures
        match spec_opt(present, spec_opaque_opt(old(r)@), old(r)@) {
            Some((m, s2)) => res matches Ok(v) && opt_view(v) == m && final(r)@ == s2,
            None => res is Err,
        },
        final(r)@.same_frame(old(r)@),
{
    if present {
        Ok(Some(match OpaqueBytes::try_parse_exclusive(r) {
            Ok(v) => v,
            Err(e) => return Err(LayerParseError::OpaqueBytes(e)),
        }))
    } else {
        Ok(None)
    }
}

/// The optional fields of a layer: bits 0 to 6 of the field bits `fb`.
#[verifier::opaque]
pub open spec fn spec_layer_flex(s: StreamModel, fb: u32) -> SpecRead<(Option<u8>, Option<Seq<u8>>, Option<Seq<char>>, Option<Seq<char>>, Option<Timestamp>, Option<u32>, Option<Seq<u8>>)> {
    match spec_opt(bit_is_set(fb, 0), spec_u8(s), s) {
        Some((alpha, s1)) => 
        match spec_opt(bit_is_set(fb, 1), spec_take(s1, 4), s1) {
            Some((background_colour, s2)) => 
            match spec_opt(bit_is_set(fb, 2), spec_str_opt(spec_short_u16_string(s2)), s2) {
                Some((name, s3)) => 
                match spec_opt(bit_is_set(fb, 3), spec_str_opt(spec_short_u16_string(s3)), s3) {
                    Some((uuid, s4)) => 
                    match spec_opt(bit_is_set(fb, 4), spec_ts_opt(s4), s4) {
                        Some((modified_time, s5)) => 
                        match spec_opt(bit_is_set(fb, 5), spec_u32(s5), s5) {
                            Some((thumbnail_id, s6)) => 
                            match spec_opt(bit_is_set(fb, 6), spec_opaque_opt(s6), s6) {
                                Some((shadow_effect, s7)) => Some(((alpha, background_colour, name, uuid, modified_time, thumbnail_id, shadow_effect), s7)),
                                None => None,
                            },
                            None => None,
                        },
                        None => None,
                    },
                    None => None,
                },
                None => None,
            },
            None => None,
        },
        None => None,
    }
}

#[verifier::rlimit(40)]
fn read_layer_flex(r: &mut ByteStream, flags: &mut CheckedBitfield) -> (res: Result<(Option<u8>, Option<[u8; 4]>, Option<String>, Option<String>, Option<Timestamp>, Option<u32>, Option<OpaqueBytes>), LayerParseError>)
    ensures
        match spec_layer_flex(old(r)@, old(flags).bits()) {
            Some((m, s2)) => res matches Ok(v) && v.0 == m.0
                && opt_view(v.1) == m.1
                && opt_view(v.2) == m.2
                && opt_view(v.3) == m.3
                && v.4 == m.4
                && v.5 == m.5
                && opt_view(v.6) == m.6
                && final(flags).bits() == old(flags).bits()
                && final(flags).checked() == old(flags).checked() | 0x7f
                && final(r)@ == s2,
            None => res is Err,
        },
        final(r)@.same_frame(old(r)@),
{
    reveal(spec_layer_flex);
    let ghost c0 = flags.checked();
    let present_alpha: bool = flags.check_bit(0);
    let ghost c1 = flags.checked();
    let alpha: Option<u8> = read_layer_flex_alpha(r, present_alpha)?;
    let present_background_colour: bool = flags.check_bit(1);
    let ghost c2 = flags.checked();
    let background_colour: Option<[u8; 4]> = read_layer_flex_background_colour(r, present_background_colour)?;
    let present_name: bool = flags.check_bit(2);
    let ghost c3 = flags.checked();
    let name: Option<String> = read_layer_flex_name(r, present_name)?;
    let present_uuid: bool = flags.check_bit(3);
    let ghost c4 = flags.checked();
    let uuid: Option<String> = read_layer_flex_uuid(r, present_uuid)?;
    let present_modified_time: bool = flags.check_bit(4);
    let ghost c5 = flags.checked();
    let modified_time: Option<Timestamp> = read_layer_flex_modified_time(r, present_modified_time)?;
    let present_thumbnail_id: bool = flags.check_bit(5);
    let ghost c6 = flags.checked();
    let thumbnail_id: Option<u32> = read_layer_flex_thumbnail_id(r, present_thumbnail_id)?;
    let present_shadow_effect: bool = flags.check_bit(6);
    let ghost c7 = flags.checked();
    let shadow_effect: Option<OpaqueBytes> = read_layer_flex_shadow_effect(r, present_shadow_effect)?;
    proof {
        crate::bits::lemma_or_assoc(c0, crate::bits::bit_mask(0u8), crate::bits::bit_mask(1u8));
        crate::bits::lemma_or_assoc(c0, crate::bits::bit_mask(0u8) | crate::bits::bit_mask(1u8), crate::bits::bit_mask(2u8));
        crate::bits::lemma_or_assoc(c0, crate::bits::bit_mask(0u8) | crate::bits::bit_mask(1u8) | crate::bits::bit_mask(2u8), crate::bits::bit_mask(3u8));
        crate::bits::lemma_or_assoc(c0, crate::bits::bit_mask(0u8) | crate::bits::bit_mask(1u8) | crate::bits::bit_mask(2u8) | crate::bits::bit_mask(3u8), crate::bits::bit_mask(4u8));
        crate::bits::lemma_or_assoc(c0, crate::bits::bit_mask(0u8) | crate::bits::bit_mask(1u8) | crate::bits::bit_mask(2u8) | crate::bits::bit_mask(3u8) | crate::bits::bit_mask(4u8), crate::bits::bit_mask(5u8));
        crate::bits::lemma_or_assoc(c0, crate::bits::bit_mask(0u8) | crate::bits::bit_mask(1u8) | crate::bits::bit_mask(2u8) | crate::bits::bit_mask(3u8) | crate::bits::bit_mask(4u8) | crate::bits::bit_mask(5u8), crate::bits::bit_mask(6u8));
        crate::bits::lemma_chunk_masks();
        assert(c7 == c0 | 0x7fu32);
    }
    Ok((alpha, background_colour, name, uuid, modified_time, thumbnail_id, shadow_effect))
}


/// The fixed fields of a page.
#[verifier::opaque]
pub open spec fn spec_page_fixed(s: StreamModel) -> SpecRead<(u32, u32, u32, u32, u32, Seq<char>, Timestamp, u32, u32)> {
    match spec_u32(s) {
        Some((orientation, s1)) => 
        match spec_u32(s1) {
            Some((width, s2)) => 
            match spec_u32(s2) {
                Some((height, s3)) => 
                match spec_u32(s3) {
                    Some((offset_x, s4)) => 
                    match spec_u32(s4) {
                        Some((offset_y, s5)) => 
                        match spec_str_opt(spec_short_u16_string(s5)) {
                            Some((uuid, s6)) => 
                            match spec_ts_opt(s6) {
                                Some((modified_time, s7)) => 
                                match spec_u32(s7) {
                                    Some((format_version, s8)) => 
                                    match spec_u32(s8) {
                                        Some((min_format_version, s9)) => Some(((orientation, width, height, offset_x, offset_y, uuid, modified_time, format_version, min_format_version), s9)),
                                        None => None,
                                    },
                                    None => None,
                                },
                                None => None,
                            },
                            None => None,
                        },
                        None => None,
                    },
                    None => None,
                },
                None => None,
            },
            None => None,
        },
        None => None,
    }
}

#[verifier::rlimit(30)]
fn read_page_fixed(r: &mut ByteStream) -> (res: Result<(u32, u32, u32, u32, u32, String, Timestamp, u32, u32), PageParseError>)
    ensures
        match spec_page_fixed(old(r)@) {
            Some((m, s2)) => res matches Ok(v) && v.0 == m.0
                && v.1 == m.1
                && v.2 == m.2
                && v.3 == m.3
                && v.4 == m.4
                && v.5@ == m.5
                && v.6 == m.6
                && v.7 == m.7
                && v.8 == m.8
                && final(r)@ == s2,
            None => res is Err,
        },
        final(r)@.same_frame(old(r)@),
{
    reveal(spec_page_fixed);
    let orientation: u32 = match r.read_u32_le() {
            Ok(v) => v,
            Err(e) => return Err(PageParseError::Io(e)),
        };
    let width: u32 = match r.read_u32_le() {
            Ok(v) => v,
            Err(e) => return Err(PageParseError::Io(e)),
        };
    let height: u32 = match r.read_u32_le() {
            Ok(v) => v,
            Err(e) => return Err(PageParseError::Io(e)),
        };
    let offset_x: u32 = match r.read_u32_le() {
            Ok(v) => v,
            Err(e) => return Err(PageParseError::Io(e)),
        };
    let offset_y: u32 = match r.read_u32_le() {
            Ok(v) => v,
            Err(e) => return Err(PageParseError::Io(e)),
        };
    let uuid: String = match r.read_short_u16_string() {
            Ok(v) => v,
            Err(e) => return Err(PageParseError::String(e)),
        };
    let modified_time: Timestamp = match r.read_timestamp() {
            Ok(v) => v,
            Err(e) => return Err(PageParseError::Timestamp(e)),
        };
    let format_version: u32 = match r.read_u32_le() {
            Ok(v) => v,
            Err(e) => return Err(PageParseError::Io(e)),
        };
    let min_format_version: u32 = match r.read_u32_le() {
            Ok(v) => v,
            Err(e) => return Err(PageParseError::Io(e)),
        };
    Ok((orientation, width, height, offset_x, offset_y, uuid, modified_time, format_version, min_format_version))
}

fn read_page_opt1_drawn_rect(r: &mut ByteStream, present: bool) -> (res: Result<Option<Rect>, PageParseError>)
    ensures
        match spec_opt(present, spec_rect(old(r)@), old(r)@) {
            Some((m, s2)) => res matches Ok(v) && v == m && final(r)@ == s2,
            None => res is Err,
        },
        final(r)@.same_frame(old(r)@),
{
    if present {
        Ok(Some(match Rect::try_parse_f64(r) {
            Ok(v) => v,
            Err(e) => return Err(PageParseError::Io(e)),
        }))
    } else {
        Ok(None)
    }
}

fn read_page_opt1_tags(r: &mut ByteStream, present: bool) -> (res: Result<Vec<String>, PageParseError>)
    ensures
        match spec_opt_or(present, spec_string_list(old(r)@), old(r)@, Seq::empty()) {
            Some((m, s2)) => res matches Ok(v) && views(v@) == m && final(r)@ == s2,
            None => res is Err,
        },
        final(r)@.same_frame(old(r)@),
{
    if present {
        Ok(match read_tags(r) {
            Ok(v) => v,
            Err(e) => return Err(e),
        })
    } else {
        Ok(Vec::new())
    }
}

fn read_page_opt1_template_uri(r: &mut ByteStream, present: bool) -> (res: Result<Option<String>, PageParseError>)
    ensures
        match spec_opt(present, spec_str_opt(spec_short_u16_string(old(r)@)), old(r)@) {
            Some((m, s2)) => res matches Ok(v) && opt_view(v) == m && final(r)@ == s2,
            None => res is Err,
        },
        final(r)@.same_frame(old(r)@),
{
    if present {
        Ok(Some(match r.read_short_u16_string() {
            Ok(v) => v,
            Err(e) => return Err(PageParseError::String(e)),
        }))
    } else {
        Ok(None)
    }
}

fn read_page_opt1_background_image_id(r: &mut ByteStream, present: bool) -> (res: Result<Option<i32>, PageParseError>)
    ensures
        match spec_opt(present, spec_i32(old(r)@), old(r)@) {
            Some((m, s2)) => res matches Ok(v) && v == m && final(r)@ == s2,
            None => res is Err,
        },
        final(r)@.same_frame(old(r)@),
{
    if present {
        Ok(Some(match r.read_i32_le() {
            Ok(v) => v,
            Err(e) => return Err(PageParseError::Io(e)),
        }))
    } else {
        Ok(None)
    }
}

fn read_page_opt1_background_image_mode(r: &mut ByteStream, present: bool) -> (res: Result<Option<BackgroundImageMode>, PageParseError>)
    ensures
        match spec_opt(present, spec_then(spec_u32(old(r)@), |v: u32| spec_background_image_mode(v)), old(r)@) {
            Some((m, s2)) => res matches Ok(v) && v == m && final(r)@ == s2,
            None => res is Err,
        },
        final(r)@.same_frame(old(r)@),
{
    if present {
        Ok(Some({
            let raw = match r.read_u32_le() {
            Ok(v) => v,
            Err(e) => return Err(PageParseError::Io(e)),
        };
            match BackgroundImageMode::try_from_u32(raw) {
                Ok(v) => v,
                Err(e) => return Err(PageParseError::BackgroundImageMode(e)),
            }
        }))
    } else {
        Ok(None)
    }
}

fn read_page_opt1_background_colour(r: &mut ByteStream, present: bool) -> (res: Result<Option<[u8; 4]>, PageParseError>)
    ensures
        match spec_opt(present, spec_take(old(r)@, 4), old(r)@) {
            Some((m, s2)) => res matches Ok(v) && opt_view(v) == m && final(r)@ == s2,
            None => res is Err,
        },
        final(r)@.same_frame(old(r)@),
{
    if present {
        Ok(Some(match r.read_4_bytes() {
            Ok(v) => v,
            Err(e) => return Err(PageParseError::Io(e)),
        }))
    } else {
        Ok(None)
    }
}

fn read_page_opt1_background_width(r: &mut ByteStream, present: bool) -> (res: Result<Option<u32>, PageParseError>)
    ensures
        match spec_opt(present, spec_u32(old(r)@), old(r)@) {
            Some((m, s2)) => res matches Ok(v) && v == m && final(r)@ == s2,
            None => res is Err,
        },
        final(r)@.same_frame(old(r)@),
{
    if present {
        Ok(Some(match r.read_u32_le() {
            Ok(v) => v,
            Err(e) => return Err(PageParseError::Io(e)),
        }))
    } else {
        Ok(None)
    }
}

fn read_page_opt1_background_rotation(r: &mut ByteStream, present: bool) -> (res: Result<Option<u32>, PageParseError>)
    ensures
        match spec_opt(present, spec_u32(old(r)@), old(r)@) {
            Some((m, s2)) => res matches Ok(v) && v == m && final(r)@ == s2,
            None => res is Err,
        },
        final(r)@.same_frame(old(r)@),
{
    if present {
        Ok(Some(match r.read_u32_le() {
            Ok(v) => v,
            Err(e) => return Err(PageParseError::Io(e)),
        }))
    } else {
        Ok(None)
    }
}

/// The optional fields of a page for bits 0 to 7 of the field bits `fb`.
#[verifier::opaque]
pub open spec fn spec_page_opt1(s: StreamModel, fb: u32) -> SpecRead<(Option<Rect>, Seq<Seq<char>>, Option<Seq<char>>, Option<i32>, Option<BackgroundImageMode>, Option<Seq<u8>>, Option<u32>, Option<u32>)> {
    match spec_opt(bit_is_set(fb, 0), spec_rect(s), s) {
        Some((drawn_rect, s1)) => 
        match spec_opt_or(bit_is_set(fb, 1), spec_string_list(s1), s1, Seq::empty()) {
            Some((tags, s2)) => 
            match spec_opt(bit_is_set(fb, 2), spec_str_opt(spec_short_u16_string(s2)), s2) {
                Some((template_uri, s3)) => 
                match spec_opt(bit_is_set(fb, 3), spec_i32(s3), s3) {
                    Some((background_image_id, s4)) => 
                    match spec_opt(bit_is_set(fb, 4), spec_then(spec_u32(s4), |v: u32| spec_background_image_mode(v)), s4) {
                        Some((background_image_mode, s5)) => 
                        match spec_opt(bit_is_set(fb, 5), spec_take(s5, 4), s5) {
                            Some((background_colour, s6)) => 
                            match spec_opt(bit_is_set(fb, 6), spec_u32(s6), s6) {
                                Some((background_width, s7)) => 
                                match spec_opt(bit_is_set(fb, 7), spec_u32(s7), s7) {
                                    Some((background_rotation, s8)) => Some(((drawn_rect, tags, template_uri, background_image_id, background_image_mode, background_colour, background_width, background_rotation), s8)),
                                    None => None,
                                },
                                None => None,
                            },
                            None => None,
                        },
                        None => None,
                    },
                    None => None,
                },
                None => None,
            },
            None => None,
        },
        None => None,
    }
}

#[verifier::rlimit(40)]
fn read_page_opt1(r: &mut ByteStream, flags: &mut CheckedBitfield) -> (res: Result<(Option<Rect>, Vec<String>, Option<String>, Option<i32>, Option<BackgroundImageMode>, Option<[u8; 4]>, Option<u32>, Option<u32>), PageParseError>)
    ensures
        match spec_page_opt1(old(r)@, old(flags).bits()) {
            Some((m, s2)) => res matches Ok(v) && v.0 == m.0
                && views(v.1@) == m.1
                && opt_view(v.2) == m.2
                && v.3 == m.3
                && v.4 == m.4
                && opt_view(v.5) == m.5
                && v.6 == m.6
                && v.7 == m.7
                && final(flags).bits() == old(flags).bits()
                && final(flags).checked() == old(flags).checked() | 0xff
                && final(r)@ == s2,
            None => res is Err,
        },
        final(r)@.same_frame(old(r)@),
{
    reveal(spec_page_opt1);
    let ghost c0 = flags.checked();
    let present_drawn_rect: bool = flags.check_bit(0);
    let ghost c1 = flags.checked();
    let drawn_rect: Option<Rect> = read_page_opt1_drawn_rect(r, present_drawn_rect)?;
    let present_tags: bool = flags.check_bit(1);
    let ghost c2 = flags.checked();
    let tags: Vec<String> = read_page_opt1_tags(r, present_tags)?;
    let present_template_uri: bool = flags.check_bit(2);
    let ghost c3 = flags.checked();
    let template_uri: Option<String> = read_page_opt1_template_uri(r, present_template_uri)?;
    let present_background_image_id: bool = flags.check_bit(3);
    let ghost c4 = flags.checked();
    let background_image_id: Option<i32> = read_page_opt1_background_image_id(r, present_background_image_id)?;
    let present_background_image_mode: bool = flags.check_bit(4);
    let ghost c5 = flags.checked();
    let background_image_mode: Option<BackgroundImageMode> = read_page_opt1_background_image_mode(r, present_background_image_mode)?;
    let present_background_colour: bool = flags.check_bit(5);
    let ghost c6 = flags.checked();
    let background_colour: Option<[u8; 4]> = read_page_opt1_background_colour(r, present_background_colour)?;
    let present_background_width: bool = flags.check_bit(6);
    let ghost c7 = flags.checked();
    let background_width: Option<u32> = read_page_opt1_background_width(r, present_background_width)?;
    let present_background_rotation: bool = flags.check_bit(7);
    let ghost c8 = flags.checked();
    let background_rotation: Option<u32> = read_page_opt1_background_rotation(r, present_background_rotation)?;
    proof {
        crate::bits::lemma_or_assoc(c0, crate::bits::bit_mask(0u8), crate::bits::bit_mask(1u8));
        crate::bits::lemma_or_assoc(c0, crate::bits::bit_mask(0u8) | crate::bits::bit_mask(1u8), crate::bits::bit_mask(2u8));
        crate::bits::lemma_or_assoc(c0, crate::bits::bit_mask(0u8) | crate::bits::bit_mask(1u8) | crate::bits::bit_mask(2u8), crate::bits::bit_mask(3u8));
        crate::bits::lemma_or_assoc(c0, crate::bits::bit_mask(0u8) | crate::bits::bit_mask(1u8) | crate::bits::bit_mask(2u8) | crate::bits::bit_mask(3u8), crate::bits::bit_mask(4u8));
        crate::bits::lemma_or_assoc(c0, crate::bits::bit_mask(0u8) | crate::bits::bit_mask(1u8) | crate::bits::bit_mask(2u8) | crate::bits::bit_mask(3u8) | crate::bits::bit_mask(4u8), crate::bits::bit_mask(5u8));
        crate::bits::lemma_or_assoc(c0, crate::bits::bit_mask(0u8) | crate::bits::bit_mask(1u8) | crate::bits::bit_mask(2u8) | crate::bits::bit_mask(3u8) | crate::bits::bit_mask(4u8) | crate::bits::bit_mask(5u8), crate::bits::bit_mask(6u8));
        crate::bits::lemma_or_assoc(c0, crate::bits::bit_mask(0u8) | crate::bits::bit_mask(1u8) | crate::bits::bit_mask(2u8) | crate::bits::bit_mask(3u8) | crate::bits::bit_mask(4u8) | crate::bits::bit_mask(5u8) | crate::bits::bit_mask(6u8), crate::bits::bit_mask(7u8));
        crate::bits::lemma_chunk_masks();
        assert(c8 == c0 | 0xffu32);
    }
    Ok((drawn_rect, tags, template_uri, background_image_id, background_image_mode, background_colour, background_width, background_rotation))
}

fn read_page_opt2_template_type(r: &mut ByteStream, present: bool) -> (res: Result<Option<TemplateType>, PageParseError>)
    ensures
        match spec_opt(present, spec_then(spec_u32(old(r)@), |v: u32| spec_template_type(v)), old(r)@) {
            Some((m, s2)) => res matches Ok(v) && v == m && final(r)@ == s2,
            None => res is Err,
        },
        final(r)@.same_frame(old(r)@),
{
    if present {
        Ok(Some({
            let raw = match r.read_u32_le() {
            Ok(v) => v,
            Err(e) => return Err(PageParseError::Io(e)),
        };
            match TemplateType::try_from_u32(raw) {
                Ok(v) => v,
                Err(e) => return Err(PageParseError::TemplateType(e)),
            }
        }))
    } else {
        Ok(None)
    }
}

/// The template type of a page (bit 9 of the field bits `fb`).
#[verifier::opaque]
pub open spec fn spec_page_opt2(s: StreamModel, fb: u32) -> SpecRead<(Option<TemplateType>,)> {
    match spec_opt(bit_is_set(fb, 9), spec_then(spec_u32(s), |v: u32| spec_template_type(v)), s) {
        Some((template_type, s1)) => Some(((template_type,), s1)),
        None => None,
    }
}

fn read_page_opt2(r: &mut ByteStream, flags: &mut CheckedBitfield) -> (res: Result<(Option<TemplateType>,), PageParseError>)
    ensures
        match spec_page_opt2(old(r)@, old(flags).bits()) {
            Some((m, s2)) => res matches Ok(v) && v.0 == m.0
                && final(flags).bits() == old(flags).bits()
                && final(flags).checked() == old(flags).checked() | 0x200
                && final(r)@ == s2,
            None => res is Err,
        },
        final(r)@.same_frame(old(r)@),
{
    reveal(spec_page_opt2);
    let ghost c0 = flags.checked();
    let present_template_type: bool = flags.check_bit(9);
    let ghost c1 = flags.checked();
    let template_type: Option<TemplateType> = read_page_opt2_template_type(r, present_template_type)?;
    proof {
        crate::bits::lemma_chunk_masks();
        assert(c1 == c0 | 0x200u32);
    }
    Ok((template_type,))
}

fn read_page_opt3_imported_data_height(r: &mut ByteStream, present: bool) -> (res: Result<Option<u32>, PageParseError>)
    ensures
        match spec_opt(present, spec_u32(old(r)@), old(r)@) {
            Some((m, s2)) => res matches Ok(v) && v == m && final(r)@ == s2,
            None => res is Err,
        },
        final(r)@.same_frame(old(r)@),
{
    if present {
        Ok(Some(match r.read_u32_le() {
            Ok(v) => v,
            Err(e) => return Err(PageParseError::Io(e)),
        }))
    } else {
        Ok(None)
    }
}

fn read_page_opt3_theme(r: &mut ByteStream, present: bool) -> (res: Result<Option<u32>, PageParseError>)
    ensures
        match spec_opt(present, spec_u32(old(r)@), old(r)@) {
            Some((m, s2)) => res matches Ok(v) && v == m && final(r)@ == s2,
            None => res is Err,
        },
        final(r)@.same_frame(old(r)@),
{
    if present {
        Ok(Some(match r.read_u32_le() {
            Ok(v) => v,
            Err(e) => return Err(PageParseError::Io(e)),
        }))
    } else {
        Ok(None)
    }
}

fn read_page_opt3_recognised_data_modified_time(r: &mut ByteStream, present: bool) -> (res: Result<Option<Timestamp>, PageParseError>)
    ensures
        match spec_opt(present, spec_ts_opt(old(r)@), old(r)@) {
            Some((m, s2)) => res matches Ok(v) && v == m && final(r)@ == s2,
            None => res is Err,
        },
        final(r)@.same_frame(old(r)@),
{
    if present {
        Ok(Some(match r.read_timestamp() {
            Ok(v) => v,
            Err(e) => return Err(PageParseError::Timestamp(e)),
        }))
    } else {
        Ok(None)
    }
}

fn read_page_opt3_stroke_recognition_data(r: &mut ByteStream, present: bool) -> (res: Result<Vec<OpaqueBytes>, PageParseError>)
    ensures
        match spec_opt_or(present, spec_u32_counted(old(r)@, opaque_item()), old(r)@, Seq::empty()) {
            Some((m, s2)) => res matches Ok(v) && views(v@) == m && final(r)@ == s2,
            None => res is Err,
        },
        final(r)@.same_frame(old(r)@),
{
    if present {
        Ok(match read_opaque_list(r) {
            Ok(v) => v,
            Err(e) => return Err(e),
        })
    } else {
        Ok(Vec::new())
    }
}

/// The optional fields of a page for bits 11, 12, 15 and 16 of the field bits `fb`.
#[verifier::opaque]
pub open spec fn spec_page_opt3(s: StreamModel, fb: u32) -> SpecRead<(Option<u32>, Option<u32>, Option<Timestamp>, Seq<Seq<u8>>)> {
    match spec_opt(bit_is_set(fb, 11), spec_u32(s), s) {
        Some((imported_data_height, s1)) => 
        match spec_opt(bit_is_set(fb, 12), spec_u32(s1), s1) {
            Some((theme, s2)) => 
            match spec_opt(bit_is_set(fb, 15), spec_ts_opt(s2), s2) {
                Some((recognised_data_modified_time, s3)) => 
                match spec_opt_or(bit_is_set(fb, 16), spec_u32_counted(s3, opaque_item()), s3, Seq::empty()) {
                    Some((stroke_recognition_data, s4)) => Some(((imported_data_height, theme, recognised_data_modified_time, stroke_recognition_data), s4)),
                    None => None,
                },
                None => None,
            },
            None => None,
        },
        None => None,
    }
}

#[verifier::rlimit(40)]
fn read_page_opt3(r: &mut ByteStream, flags: &mut CheckedBitfield) -> (res: Result<(Option<u32>, Option<u32>, Option<Timestamp>, Vec<OpaqueBytes>), PageParseError>)
    ensures
        match spec_page_opt3(old(r)@, old(flags).bits()) {
            Some((m, s2)) => res matches Ok(v) && v.0 == m.0
                && v.1 == m.1
                && v.2 == m.2
                && views(v.3@) == m.3
                && final(flags).bits() == old(flags).bits()
                && final(flags).checked() == old(flags).checked() | 0x19800
                && final(r)@ == s2,
            None => res is Err,
        },
        final(r)@.same_frame(old(r)@),
{
    reveal(spec_page_opt3);
    let ghost c0 = flags.checked();
    let present_imported_data_height: bool = flags.check_bit(11);
    let ghost c1 = flags.checked();
    let imported_data_height: Option<u32> = read_page_opt3_imported_data_height(r, present_imported_data_height)?;
    let present_theme: bool = flags.check_bit(12);
    let ghost c2 = flags.checked();
    let theme: Option<u32> = read_page_opt3_theme(r, present_theme)?;
    let present_recognised_data_modified_time: bool = flags.check_bit(15);
    let ghost c3 = flags.checked();
    let recognised_data_modified_time: Option<Timestamp> = read_page_opt3_recognised_data_modified_time(r, present_recognised_data_modified_time)?;
    let present_stroke_recognition_data: bool = flags.check_bit(16);
    let ghost c4 = flags.checked();
    let stroke_recognition_data: Vec<OpaqueBytes> = read_page_opt3_stroke_recognition_data(r, present_stroke_recognition_data)?;
    proof {
        crate::bits::lemma_or_assoc(c0, crate::bits::bit_mask(11u8), crate::bits::bit_mask(12u8));
        crate::bits::lemma_or_assoc(c0, crate::bits::bit_mask(11u8) | crate::bits::bit_mask(12u8), crate::bits::bit_mask(15u8));
        crate::bits::lemma_or_assoc(c0, crate::bits::bit_mask(11u8) | crate::bits::bit_mask(12u8) | crate::bits::bit_mask(15u8), crate::bits::bit_mask(16u8));
        crate::bits::lemma_chunk_masks();
        assert(c4 == c0 | 0x19800u32);
    }
    Ok((imported_data_height, theme, recognised_data_modified_time, stroke_recognition_data))
}



/// Failure to read a page.
#[derive(Debug)]
pub enum PageParseError {
    Io(IoError),
    String(ReadStringError),
    Timestamp(ReadTimestampError),
    BackgroundImageMode(InvalidBackgroundImageModeError),
    CustomPageObject(CustomPageObjectParseError),
    Layer(LayerParseError),
    OpaqueBytes(OpaqueBytesParseError),
    PdfDataItem(PdfDataItemParseError),
    TemplateType(InvalidTemplateTypeError),
    /// The property flags could not be read.
    PropertyFlags(ReadBitfieldError),
    /// One or more property flags were not handled.
    UnhandledProperty(UnhandledBitsError),
    /// The field flags could not be read.
    FieldFlags(ReadBitfieldError),
    /// One or more field flags were not handled.
    UnhandledField(UnhandledBitsError),
    /// An entry count does not fit in `usize`.
    TooManyEntries(u32),
    /// The bytes after the page's hash are not `PAGE_END_STRING`; they are given, decoded lossily.
    BadEndString(String),
}

/// The text that ends every page file: "Page for SAMSUNG S-Pen SDK".
pub open spec fn page_end_string() -> Seq<u8> {
    seq![80u8, 97, 103, 101, 32, 102, 111, 114, 32, 83, 65, 77, 83, 85, 78, 71, 32, 83, 45, 80,
        101, 110, 32, 83, 68, 75]
}

/// The text that ends every page file.
pub fn page_end_bytes() -> (r: [u8; 26])
    ensures
        r@ == page_end_string(),
{
    let r: [u8; 26] = [80u8, 97, 103, 101, 32, 102, 111, 114, 32, 83, 65, 77, 83, 85, 78, 71, 32,
        83, 45, 80, 101, 110, 32, 83, 68, 75];
    assert(r@ =~= page_end_string());
    r
}

pub open spec fn pdf_page_item(files: Map<u32, BoundFileModel>, format_version: u32) -> spec_fn(StreamModel) -> SpecRead<PdfPageModel> {
    |t: StreamModel| spec_pdf_page(t, files, format_version)
}

pub open spec fn custom_object_item(files: Map<u32, BoundFileModel>) -> spec_fn(StreamModel) -> SpecRead<CustomPageObjectModel> {
    |t: StreamModel| spec_custom_object(t, files)
}

/// A key and a canvas cache entry.
pub open spec fn spec_cache_pair(s: StreamModel) -> SpecRead<(u32, CanvasCacheEntryModel)> {
    match spec_u32(s) {
        Some((k, s1)) => match spec_canvas_cache_entry(s1) {
            Some((e, s2)) => Some(((k, e), s2)),
            None => None,
        },
        None => None,
    }
}

pub open spec fn cache_pair_item() -> spec_fn(StreamModel) -> SpecRead<(u32, CanvasCacheEntryModel)> {
    |t: StreamModel| spec_cache_pair(t)
}

/// The canvas cache: a `u32` entry count and a `u16` entry size; entries of 49 bytes (a `u32`
/// key and a canvas cache entry) are read, entries of any other size are skipped.
pub open spec fn spec_canvas_cache(s: StreamModel) -> SpecRead<Seq<(u32, CanvasCacheEntryModel)>> {
    match spec_u32(s) {
        Some((n, s1)) => match spec_u16(s1) {
            Some((size, s2)) => if size == 49 {
                spec_repeat(s2, n as nat, cache_pair_item())
            } else {
                let p = s2.pos + n * size;
                if s2.start <= p <= s2.end {
                    Some((Seq::empty(), s2.with_pos(p)))
                } else {
                    None
                }
            },
            None => None,
        },
        None => None,
    }
}

/// The optional fields of a page that refer to the document's files: PDF pages (bit 8, a `u16`
/// count), then, after the template type (bit 9), the canvas cache (bit 10).
pub open spec fn spec_pdf_items(s: StreamModel, fb: u32, files: Map<u32, BoundFileModel>, format_version: u32) -> SpecRead<Seq<PdfPageModel>> {
    spec_opt_or(bit_is_set(fb, 8), spec_u16_counted(s, pdf_page_item(files, format_version)), s, Seq::empty())
}

pub open spec fn spec_custom_objects(s: StreamModel, fb: u32, files: Map<u32, BoundFileModel>) -> SpecRead<Seq<CustomPageObjectModel>> {
    spec_opt_or(bit_is_set(fb, 18), spec_u32_counted(s, custom_object_item(files)), s, Seq::empty())
}

/// A page.
#[derive(Debug)]
pub struct Page {
    pub is_text_only: bool,
    pub orientation: u32,
    pub width: u32,
    pub height: u32,
    pub offset_x: u32,
    pub offset_y: u32,
    pub uuid: String,
    pub modified_time: Timestamp,
    pub format_version: u32,
    pub min_format_version: u32,
    pub drawn_rect: Option<Rect>,
    pub tags: Vec<String>,
    pub template_uri: Option<String>,
    pub background_image_id: Option<i32>,
    pub background_image_mode: Option<BackgroundImageMode>,
    pub background_colour: Option<[u8; 4]>,
    pub background_width: Option<u32>,
    pub background_rotation: Option<u32>,
    pub pdf_data_items: Vec<PdfPage>,
    pub template_type: Option<TemplateType>,
    pub canvas_cache_map: Vec<(u32, CanvasCacheEntry)>,
    pub imported_data_height: Option<u32>,
    pub theme: Option<u32>,
    pub recognised_data_modified_time: Option<Timestamp>,
    pub stroke_recognition_data: Vec<OpaqueBytes>,
    pub custom_objects: Vec<CustomPageObject>,
    pub current_layer_index: u16,
    pub layers: Vec<Layer>,
    pub hash: [u8; 32],
}

/// The settings of a page, as read from its header.
pub struct PageHeadModel {
    pub is_text_only: bool,
    pub orientation: u32,
    pub width: u32,
    pub height: u32,
    pub offset_x: u32,
    pub offset_y: u32,
    pub uuid: Seq<char>,
    pub modified_time: Timestamp,
    pub format_version: u32,
    pub min_format_version: u32,
    pub drawn_rect: Option<Rect>,
    pub tags: Seq<Seq<char>>,
    pub template_uri: Option<Seq<char>>,
    pub background_image_id: Option<i32>,
    pub background_image_mode: Option<BackgroundImageMode>,
    pub background_colour: Option<Seq<u8>>,
    pub background_width: Option<u32>,
    pub background_rotation: Option<u32>,
    pub pdf_data_items: Seq<PdfPageModel>,
    pub template_type: Option<TemplateType>,
    pub canvas_cache_map: Seq<(u32, CanvasCacheEntryModel)>,
    pub imported_data_height: Option<u32>,
    pub theme: Option<u32>,
    pub recognised_data_modified_time: Option<Timestamp>,
    pub stroke_recognition_data: Seq<Seq<u8>>,
    pub custom_objects: Seq<CustomPageObjectModel>,
}

pub struct PageModel {
    pub head: PageHeadModel,
    pub current_layer_index: u16,
    pub layers: Seq<LayerModel>,
    pub hash: Seq<u8>,
}

impl Page {
    /// The settings of this page.
    pub open spec fn head_view(&self) -> PageHeadModel {
        PageHeadModel {
            is_text_only: self.is_text_only,
            orientation: self.orientation,
            width: self.width,
            height: self.height,
            offset_x: self.offset_x,
            offset_y: self.offset_y,
            uuid: self.uuid@,
            modified_time: self.modified_time,
            format_version: self.format_version,
            min_format_version: self.min_format_version,
            drawn_rect: self.drawn_rect,
            tags: views(self.tags@),
            template_uri: opt_view(self.template_uri),
            background_image_id: self.background_image_id,
            background_image_mode: self.background_image_mode,
            background_colour: opt_view(self.background_colour),
            background_width: self.background_width,
            background_rotation: self.background_rotation,
            pdf_data_items: views(self.pdf_data_items@),
            template_type: self.template_type,
            canvas_cache_map: views(self.canvas_cache_map@),
            imported_data_height: self.imported_data_height,
            theme: self.theme,
            recognised_data_modified_time: self.recognised_data_modified_time,
            stroke_recognition_data: views(self.stroke_recognition_data@),
            custom_objects: views(self.custom_objects@),
        }
    }
}

impl View for Page {
    type V = PageModel;

    open spec fn view(&self) -> PageModel {
        PageModel {
            head: self.head_view(),
            current_layer_index: self.current_layer_index,
            layers: views(self.layers@),
            hash: self.hash@,
        }
    }
}

fn read_pdf_page(r: &mut ByteStream, pctx: &PdfDataItemParseCtx) -> (res: Result<PdfPage, PageParseError>)
    ensures
        match spec_pdf_page(old(r)@, pctx.file_registry@, pctx.format_version) {
            Some((m, s2)) => res matches Ok(v) && v@ == m && final(r)@ == s2,
            None => res is Err,
        },
        final(r)@.same_frame(old(r)@),
{
    match PdfPage::try_parse_with_ctx(r, pctx) {
        Ok(v) => Ok(v),
        Err(e) => Err(PageParseError::PdfDataItem(e)),
    }
}

fn read_custom_object(r: &mut ByteStream, files: &FileRegistry) -> (res: Result<CustomPageObject, PageParseError>)
    ensures
        match spec_custom_object(old(r)@, files@) {
            Some((m, s2)) => res matches Ok(v) && v@ == m && final(r)@ == s2,
            None => res is Err,
        },
        final(r)@.same_frame(old(r)@),
{
    match CustomPageObject::try_parse_with_ctx(r, files) {
        Ok(v) => Ok(v),
        Err(e) => Err(PageParseError::CustomPageObject(e)),
    }
}

fn read_cache_pair(r: &mut ByteStream) -> (res: Result<(u32, CanvasCacheEntry), PageParseError>)
    ensures
        match spec_cache_pair(old(r)@) {
            Some((m, s2)) => res matches Ok(v) && v@ == m && final(r)@ == s2,
            None => res is Err,
        },
        final(r)@.same_frame(old(r)@),
{
    let k: u32 = match r.read_u32_le() {
        Ok(v) => v,
        Err(e) => return Err(PageParseError::Io(e)),
    };
    match CanvasCacheEntry::try_parse(r) {
        Ok(e) => Ok((k, e)),
        Err(e) => Err(PageParseError::Io(e)),
    }
}

/// Reads `n` items.
fn read_pdf_pages(r: &mut ByteStream, n: u16, pctx: &PdfDataItemParseCtx) -> (res: Result<Vec<PdfPage>, PageParseError>)
    ensures
        match spec_repeat(old(r)@, n as nat, pdf_page_item(pctx.file_registry@, pctx.format_version)) {
            Some((vs, s2)) => res matches Ok(v) && crate::byte_stream::views(v@) == vs && final(r)@ == s2,
            None => res is Err,
        },
        final(r)@.same_frame(old(r)@),
{
    let ghost s0 = r@;
    let ghost item = pdf_page_item(pctx.file_registry@, pctx.format_version);
    let mut items: Vec<PdfPage> = Vec::new();
    let mut i: u16 = 0;
    while i < n
        invariant
            i <= n,
            item == pdf_page_item(pctx.file_registry@, pctx.format_version),
            s0 == old(r)@,
            r@.same_frame(s0),
            spec_repeat(s0, i as nat, item) matches Some((vs, st)) && crate::byte_stream::views(items@) == vs && r@ == st,
        decreases n - i,
    {
        let ghost before = r@;
        proof { assert(item(before) == pdf_page_item(pctx.file_registry@, pctx.format_version)(before)); }
        let x: PdfPage = match read_pdf_page(r, pctx) {
            Ok(x) => x,
            Err(e) => {
                proof { lemma_repeat_fails(s0, (i + 1) as nat, n as nat, item); }
                return Err(e);
            },
        };
        let ghost old_items = items@;
        items.push(x);
        proof { assert(crate::byte_stream::views(items@) =~= crate::byte_stream::views(old_items).push(x@)); }
        i = i + 1;
    }
    Ok(items)
}

/// Reads `n` items.
fn read_custom_objects(r: &mut ByteStream, n: u32, files: &FileRegistry) -> (res: Result<Vec<CustomPageObject>, PageParseError>)
    ensures
        match spec_repeat(old(r)@, n as nat, custom_object_item(files@)) {
            Some((vs, s2)) => res matches Ok(v) && crate::byte_stream::views(v@) == vs && final(r)@ == s2,
            None => res is Err,
        },
        final(r)@.same_frame(old(r)@),
{
    let ghost s0 = r@;
    let ghost item = custom_object_item(files@);
    let mut items: Vec<CustomPageObject> = Vec::new();
    let mut i: u32 = 0;
    while i < n
        invariant
            i <= n,
            item == custom_object_item(files@),
            s0 == old(r)@,
            r@.same_frame(s0),
            spec_repeat(s0, i as nat, item) matches Some((vs, st)) && crate::byte_stream::views(items@) == vs && r@ == st,
        decreases n - i,
    {
        let ghost before = r@;
        proof { assert(item(before) == custom_object_item(files@)(before)); }
        let x: CustomPageObject = match read_custom_object(r, files) {
            Ok(x) => x,
            Err(e) => {
                proof { lemma_repeat_fails(s0, (i + 1) as nat, n as nat, item); }
                return Err(e);
            },
        };
        let ghost old_items = items@;
        items.push(x);
        proof { assert(crate::byte_stream::views(items@) =~= crate::byte_stream::views(old_items).push(x@)); }
        i = i + 1;
    }
    Ok(items)
}

/// Reads `n` items.
fn read_cache_pairs(r: &mut ByteStream, n: u32) -> (res: Result<Vec<(u32, CanvasCacheEntry)>, PageParseError>)
    ensures
        match spec_repeat(old(r)@, n as nat, cache_pair_item()) {
            Some((vs, s2)) => res matches Ok(v) && crate::byte_stream::views(v@) == vs && final(r)@ == s2,
            None => res is Err,
        },
        final(r)@.same_frame(old(r)@),
{
    let ghost s0 = r@;
    let ghost item = cache_pair_item();
    let mut items: Vec<(u32, CanvasCacheEntry)> = Vec::new();
    let mut i: u32 = 0;
    while i < n
        invariant
            i <= n,
            item == cache_pair_item(),
            s0 == old(r)@,
            r@.same_frame(s0),
            spec_repeat(s0, i as nat, item) matches Some((vs, st)) && crate::byte_stream::views(items@) == vs && r@ == st,
        decreases n - i,
    {
        let ghost before = r@;
        proof { assert(item(before) == cache_pair_item()(before)); }
        let x: (u32, CanvasCacheEntry) = match read_cache_pair(r) {
            Ok(x) => x,
            Err(e) => {
                proof { lemma_repeat_fails(s0, (i + 1) as nat, n as nat, item); }
                return Err(e);
            },
        };
        let ghost old_items = items@;
        items.push(x);
        proof { assert(crate::byte_stream::views(items@) =~= crate::byte_stream::views(old_items).push(x@)); }
        i = i + 1;
    }
    Ok(items)
}

/// Reads `n` items.
fn read_layers(r: &mut ByteStream, n: u16, ctx: &DocumentContext) -> (res: Result<Vec<Layer>, PageParseError>)
    ensures
        match spec_repeat(old(r)@, n as nat, layer_item(ctx.file_registry@)) {
            Some((vs, s2)) => res matches Ok(v) && crate::byte_stream::views(v@) == vs && final(r)@ == s2,
            None => res is Err,
        },
        final(r)@.same_frame(old(r)@),
{
    let ghost s0 = r@;
    let ghost item = layer_item(ctx.file_registry@);
    let mut items: Vec<Layer> = Vec::new();
    let mut i: u16 = 0;
    while i < n
        invariant
            i <= n,
            item == layer_item(ctx.file_registry@),
            s0 == old(r)@,
            r@.same_frame(s0),
            spec_repeat(s0, i as nat, item) matches Some((vs, st)) && crate::byte_stream::views(items@) == vs && r@ == st,
        decreases n - i,
    {
        let ghost before = r@;
        proof { assert(item(before) == layer_item(ctx.file_registry@)(before)); }
        let x: Layer = match read_layer(r, ctx) {
            Ok(x) => x,
            Err(e) => {
                proof { lemma_repeat_fails(s0, (i + 1) as nat, n as nat, item); }
                return Err(e);
            },
        };
        let ghost old_items = items@;
        items.push(x);
        proof { assert(crate::byte_stream::views(items@) =~= crate::byte_stream::views(old_items).push(x@)); }
        i = i + 1;
    }
    Ok(items)
}



pub open spec fn layer_item(files: Map<u32, BoundFileModel>) -> spec_fn(StreamModel) -> SpecRead<LayerModel> {
    |t: StreamModel| spec_layer(t, files)
}

fn read_layer(r: &mut ByteStream, ctx: &DocumentContext) -> (res: Result<Layer, PageParseError>)
    ensures
        match spec_layer(old(r)@, ctx.file_registry@) {
            Some((m, s2)) => res matches Ok(v) && v@ == m && final(r)@ == s2,
            None => res is Err,
        },
        final(r)@.same_frame(old(r)@),
{
    match Layer::try_parse_with_ctx(r, ctx) {
        Ok(v) => Ok(v),
        Err(e) => Err(PageParseError::Layer(e)),
    }
}

/// The field bits of a page that are understood: 0 to 12, 15, 16 and 18.
pub open spec fn page_field_mask() -> u32 {
    0x59fffu32
}

/// The optional fields of a page, in the order of their bits in `fb`.
#[verifier::opaque]
pub open spec fn spec_page_flex(s: StreamModel, fb: u32, files: Map<u32, BoundFileModel>, format_version: u32) -> SpecRead<(
    (Option<Rect>, Seq<Seq<char>>, Option<Seq<char>>, Option<i32>, Option<BackgroundImageMode>, Option<Seq<u8>>, Option<u32>, Option<u32>),
    Seq<PdfPageModel>,
    Option<TemplateType>,
    Seq<(u32, CanvasCacheEntryModel)>,
    (Option<u32>, Option<u32>, Option<Timestamp>, Seq<Seq<u8>>),
    Seq<CustomPageObjectModel>,
)> {
    match spec_page_opt1(s, fb) {
        Some((o1, s1)) => match spec_pdf_items(s1, fb, files, format_version) {
            Some((pdf, s2)) => match spec_page_opt2(s2, fb) {
                Some((o2, s3)) => match spec_opt_or(bit_is_set(fb, 10), spec_canvas_cache(s3), s3, Seq::empty()) {
                    Some((ccm, s4)) => match spec_page_opt3(s4, fb) {
                        Some((o3, s5)) => match spec_custom_objects(s5, fb, files) {
                            Some((co, s6)) => Some(((o1, pdf, o2.0, ccm, o3, co), s6)),
                            None => None,
                        },
                        None => None,
                    },
                    None => None,
                },
                None => None,
            },
            None => None,
        },
        None => None,
    }
}

/// The header of a page: `u32` offsets of the page's end and of its optional fields (both from
/// where the page starts), property flags of which only bit 0 (text only) may be set, field
/// flags, the fixed fields, then, at the flex offset, the optional fields, with no field bit
/// left unhandled. Also gives the offset of the page's end.
#[verifier::opaque]
pub open spec fn spec_page_head(s: StreamModel, files: Map<u32, BoundFileModel>) -> SpecRead<(PageHeadModel, int)> {
    let start = s.pos - s.origin;
    match spec_u32(s) {
        Some((end_rel, s1)) => match spec_u32(s1) {
            Some((flex_rel, s2)) => match spec_bitfield(s2) {
                Ok((p, s3)) => if p & !1u32 != 0 {
                    None
                } else {
                    match spec_bitfield(s3) {
                        Ok((ff, s4)) => match spec_page_fixed(s4) {
                            Some((x, s5)) => match spec_seek_flex(s5, start + flex_rel) {
                                Some(s6) => match spec_page_flex(s6, ff, files, x.7) {
                                    Some((f, s7)) => if ff & !page_field_mask() != 0 {
                                        None
                                    } else {
                                        Some(((PageHeadModel {
                                            is_text_only: bit_is_set(p, 0),
                                            orientation: x.0,
                                            width: x.1,
                                            height: x.2,
                                            offset_x: x.3,
                                            offset_y: x.4,
                                            uuid: x.5,
                                            modified_time: x.6,
                                            format_version: x.7,
                                            min_format_version: x.8,
                                            drawn_rect: f.0.0,
                                            tags: f.0.1,
                                            template_uri: f.0.2,
                                            background_image_id: f.0.3,
                                            background_image_mode: f.0.4,
                                            background_colour: f.0.5,
                                            background_width: f.0.6,
                                            background_rotation: f.0.7,
                                            pdf_data_items: f.1,
                                            template_type: f.2,
                                            canvas_cache_map: f.3,
                                            imported_data_height: f.4.0,
                                            theme: f.4.1,
                                            recognised_data_modified_time: f.4.2,
                                            stroke_recognition_data: f.4.3,
                                            custom_objects: f.5,
                                        }, start + end_rel), s7))
                                    },
                                    None => None,
                                },
                                None => None,
                            },
                            None => None,
                        },
                        Err(_) => None,
                    }
                },
                Err(_) => None,
            },
            None => None,
        },
        None => None,
    }
}

/// A page file: the header; then, at the offset of the page's end, a `u16` layer count, the
/// `u16` index of the current layer, the layers and the page's 32-byte hash, after which the
/// file holds exactly `page_end_string()`.
#[verifier::opaque]
pub open spec fn spec_page(s: StreamModel, files: Map<u32, BoundFileModel>) -> SpecRead<PageModel> {
    match spec_page_head(s, files) {
        Some(((head, end), s1)) => match spec_seek_flex(s1, end) {
            Some(s2) => match spec_u16(s2) {
                Some((n, s3)) => match spec_u16(s3) {
                    Some((current_layer_index, s4)) => match spec_repeat(s4, n as nat, layer_item(files)) {
                        Some((layers, s5)) => match spec_take(s5, 32) {
                            Some((hash, s6)) => if s6.rest() == page_end_string() {
                                Some((PageModel { head, current_layer_index, layers, hash }, s6.with_pos(s6.end)))
                            } else {
                                None
                            },
                            None => None,
                        },
                        None => None,
                    },
                    None => None,
                },
                None => None,
            },
            None => None,
        },
        None => None,
    }
}

fn read_canvas_cache(r: &mut ByteStream) -> (res: Result<Vec<(u32, CanvasCacheEntry)>, PageParseError>)
    ensures
        match spec_canvas_cache(old(r)@) {
            Some((m, s2)) => res matches Ok(v) && views(v@) == m && final(r)@ == s2,
            None => res is Err,
        },
        final(r)@.same_frame(old(r)@),
{
    let n: u32 = match r.read_u32_le() {
        Ok(v) => v,
        Err(e) => return Err(PageParseError::Io(e)),
    };
    let size: u16 = match r.read_u16_le() {
        Ok(v) => v,
        Err(e) => return Err(PageParseError::Io(e)),
    };
    if size == 49 {
        read_cache_pairs(r, n)
    } else {
        // Entries of another size are not understood; they are skipped.
        assert(n as int * size as int <= 0xffff_ffff * 0xffff) by (nonlinear_arith)
            requires
                n <= 0xffff_ffffu32,
                size <= 0xffffu16,
        ;
        let skip: i64 = (n as i64) * (size as i64);
        match r.seek_relative(skip) {
            Ok(()) => {
                let v: Vec<(u32, CanvasCacheEntry)> = Vec::new();
                assert(views(v@) =~= Seq::<(u32, CanvasCacheEntryModel)>::empty());
                Ok(v)
            },
            Err(e) => Err(PageParseError::Io(e)),
        }
    }
}

#[verifier::rlimit(60)]
fn read_page_flex(r: &mut ByteStream, ff: &mut CheckedBitfield, ctx: &DocumentContext, format_version: u32) -> (res: Result<(
    (Option<Rect>, Vec<String>, Option<String>, Option<i32>, Option<BackgroundImageMode>, Option<[u8; 4]>, Option<u32>, Option<u32>),
    Vec<PdfPage>,
    Option<TemplateType>,
    Vec<(u32, CanvasCacheEntry)>,
    (Option<u32>, Option<u32>, Option<Timestamp>, Vec<OpaqueBytes>),
    Vec<CustomPageObject>,
), PageParseError>)
    ensures
        match spec_page_flex(old(r)@, old(ff).bits(), ctx.file_registry@, format_version) {
            Some((m, s2)) => res matches Ok(v)
                && v.0.0 == m.0.0 && views(v.0.1@) == m.0.1 && opt_view(v.0.2) == m.0.2 && v.0.3 == m.0.3
                && v.0.4 == m.0.4 && opt_view(v.0.5) == m.0.5 && v.0.6 == m.0.6 && v.0.7 == m.0.7
                && views(v.1@) == m.1 && v.2 == m.2 && views(v.3@) == m.3
                && v.4.0 == m.4.0 && v.4.1 == m.4.1 && v.4.2 == m.4.2 && views(v.4.3@) == m.4.3
                && views(v.5@) == m.5
                && final(ff).bits() == old(ff).bits()
                && final(ff).checked() == old(ff).checked() | page_field_mask()
                && final(r)@ == s2,
            None => res is Err,
        },
        final(r)@.same_frame(old(r)@),
{
    proof { reveal(spec_page_flex); }
    let ghost c0 = ff.checked();
    let o1 = read_page_opt1(r, ff)?;
    let ghost c1 = ff.checked();
    let has_pdf: bool = ff.check_bit(8);
    let ghost c2 = ff.checked();
    let pdf: Vec<PdfPage> = if has_pdf {
        let n: u16 = match r.read_u16_le() {
            Ok(v) => v,
            Err(e) => return Err(PageParseError::Io(e)),
        };
        read_pdf_pages(r, n, &PdfDataItemParseCtx { file_registry: ctx.file_registry, format_version })?
    } else {
        Vec::new()
    };
    assert(!has_pdf ==> views(pdf@) =~= Seq::<PdfPageModel>::empty());
    let o2 = read_page_opt2(r, ff)?;
    let ghost c3 = ff.checked();
    let has_ccm: bool = ff.check_bit(10);
    let ghost c4 = ff.checked();
    let ccm: Vec<(u32, CanvasCacheEntry)> = if has_ccm {
        read_canvas_cache(r)?
    } else {
        Vec::new()
    };
    assert(!has_ccm ==> views(ccm@) =~= Seq::<(u32, CanvasCacheEntryModel)>::empty());
    let o3 = read_page_opt3(r, ff)?;
    let ghost c5 = ff.checked();
    let has_co: bool = ff.check_bit(18);
    let co: Vec<CustomPageObject> = if has_co {
        let n: u32 = match r.read_u32_le() {
            Ok(v) => v,
            Err(e) => return Err(PageParseError::Io(e)),
        };
        read_custom_objects(r, n, ctx.file_registry)?
    } else {
        Vec::new()
    };
    assert(!has_co ==> views(co@) =~= Seq::<CustomPageObjectModel>::empty());
    proof {
        let c6 = ff.checked();
        assert(c6 == c0 | 0x59fffu32) by (bit_vector)
            requires
                c1 == c0 | 0xffu32,
                c2 == c1 | (1u32 << 8u8),
                c3 == c2 | 0x200u32,
                c4 == c3 | (1u32 << 10u8),
                c5 == c4 | 0x19800u32,
                c6 == c5 | (1u32 << 18u8),
        ;
    }
    Ok((o1, pdf, o2.0, ccm, o3, co))
}

#[verifier::rlimit(60)]
fn read_page_head(r: &mut ByteStream, ctx: &DocumentContext) -> (res: Result<(Page, u64, u32), PageParseError>)
    ensures
        match spec_page_head(old(r)@, ctx.file_registry@) {
            Some(((h, end), s2)) => res matches Ok(v) && v.0.head_view() == h && v.1 + v.2 == end
                && final(r)@ == s2,
            None => res is Err,
        },
        final(r)@.same_frame(old(r)@),
{
    proof { reveal(spec_page_head); }
    let start: u64 = r.stream_position();
    let end_rel: u32 = match r.read_u32_le() {
        Ok(v) => v,
        Err(e) => return Err(PageParseError::Io(e)),
    };
    let flex_rel: u32 = match r.read_u32_le() {
        Ok(v) => v,
        Err(e) => return Err(PageParseError::Io(e)),
    };
    let mut p: CheckedBitfield = match CheckedBitfield::try_parse(r) {
        Ok(v) => v,
        Err(e) => return Err(PageParseError::PropertyFlags(e)),
    };
    let is_text_only: bool = p.check_bit(0);
    proof {
        let c = p.checked();
        assert(c == 1u32) by (bit_vector)
            requires
                c == 0u32 | (1u32 << 0u8),
        ;
    }
    if let Err(e) = p.ensure_none_set_unchecked() {
        return Err(PageParseError::UnhandledProperty(e));
    }
    let mut ff: CheckedBitfield = match CheckedBitfield::try_parse(r) {
        Ok(v) => v,
        Err(e) => return Err(PageParseError::FieldFlags(e)),
    };
    let ghost fbits = ff.bits();
    let x = read_page_fixed(r)?;
    if let Err(e) = seek_flex_from(r, start, flex_rel) {
        return Err(PageParseError::Io(e));
    }
    let f = read_page_flex(r, &mut ff, ctx, x.7)?;
    proof {
        let c = ff.checked();
        assert(fbits & !c == fbits & !0x59fffu32) by (bit_vector)
            requires
                c == 0u32 | 0x59fffu32,
        ;
    }
    if let Err(e) = ff.ensure_none_set_unchecked() {
        return Err(PageParseError::UnhandledField(e));
    }
    let page = Page {
        is_text_only,
        orientation: x.0,
        width: x.1,
        height: x.2,
        offset_x: x.3,
        offset_y: x.4,
        uuid: x.5,
        modified_time: x.6,
        format_version: x.7,
        min_format_version: x.8,
        drawn_rect: f.0.0,
        tags: f.0.1,
        template_uri: f.0.2,
        background_image_id: f.0.3,
        background_image_mode: f.0.4,
        background_colour: f.0.5,
        background_width: f.0.6,
        background_rotation: f.0.7,
        pdf_data_items: f.1,
        template_type: f.2,
        canvas_cache_map: f.3,
        imported_data_height: f.4.0,
        theme: f.4.1,
        recognised_data_modified_time: f.4.2,
        stroke_recognition_data: f.4.3,
        custom_objects: f.5,
        current_layer_index: 0,
        layers: Vec::new(),
        hash: [0u8; 32],
    };
    Ok((page, start, end_rel))
}

/// Where the page in `s` reads without error up to and including its hash, but the bytes after
/// the hash are not `page_end_string()`: those bytes.
pub open spec fn spec_page_bad_end(s: StreamModel, files: Map<u32, BoundFileModel>) -> Option<Seq<u8>> {
    match spec_page_head(s, files) {
        Some(((_, end), s1)) => match spec_seek_flex(s1, end) {
            Some(s2) => match spec_u16(s2) {
                Some((n, s3)) => match spec_u16(s3) {
                    Some((_, s4)) => match spec_repeat(s4, n as nat, layer_item(files)) {
                        Some((_, s5)) => match spec_take(s5, 32) {
                            Some((_, s6)) => if s6.rest() == page_end_string() {
                                None
                            } else {
                                Some(s6.rest())
                            },
                            None => None,
                        },
                        None => None,
                    },
                    None => None,
                },
                None => None,
            },
            None => None,
        },
        None => None,
    }
}

impl Page {
    /// The hash stored at the end of the page, which the page list records for it.
    pub fn hash(&self) -> (r: &[u8; 32])
        ensures
            r@ == self@.hash,
    {
        &self.hash
    }
}

impl<'a, 'fr, 'sr> TryParseWithContext<ByteStream<'a>, DocumentContext<'fr, 'sr>> for Page {
    type ParseError = PageParseError;

    #[verifier::rlimit(40)]
    fn try_parse_with_ctx(reader: &mut ByteStream<'a>, ctx: &DocumentContext<'fr, 'sr>) -> (r: Result<Page, PageParseError>)
        ensures
            match spec_page(old(reader)@, ctx.file_registry@) {
                Some((m, s2)) => r matches Ok(v) && v@ == m && final(reader)@ == s2,
                None => r is Err,
            },
            spec_page_bad_end(old(reader)@, ctx.file_registry@) matches Some(rest)
                ==> (r matches Err(PageParseError::BadEndString(b)) && b@ == utf8_lossy(rest)),
            final(reader)@.same_frame(old(reader)@),
    {
        proof { reveal(spec_page); }
        let (head, start, end_rel) = read_page_head(reader, ctx)?;
        if let Err(e) = seek_flex_from(reader, start, end_rel) {
            return Err(PageParseError::Io(e));
        }
        let n: u16 = match reader.read_u16_le() {
            Ok(v) => v,
            Err(e) => return Err(PageParseError::Io(e)),
        };
        let current_layer_index: u16 = match reader.read_u16_le() {
            Ok(v) => v,
            Err(e) => return Err(PageParseError::Io(e)),
        };
        let layers: Vec<Layer> = read_layers(reader, n, ctx)?;
        let hash: [u8; 32] = match reader.read_32_bytes() {
            Ok(v) => v,
            Err(e) => return Err(PageParseError::Io(e)),
        };
        let rest: Vec<u8> = reader.read_to_end();
        let end: [u8; 26] = page_end_bytes();
        if !crate::byte_stream::bytes_eq(rest.as_slice(), end.as_slice()) {
            return Err(PageParseError::BadEndString(string_from_utf8_lossy(rest.as_slice())));
        }
        Ok(Page { current_layer_index, layers, hash, ..head })
    }
}

} // verus!
