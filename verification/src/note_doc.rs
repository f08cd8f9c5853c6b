//! The note document in `note.note`: document settings, title and body text, and registries.
use std::collections::HashMap;
use std::rc::Rc;
use vstd::prelude::*;

use crate::byte_stream::{
    lemma_pairs_to_map_push, lemma_rc_map_view_insert, lemma_repeat_fails, pairs_to_map,
    rc_map_view, spec_blind_window, spec_continue, spec_f32, spec_i64, spec_inclusive_window,
    spec_repeat, spec_short_u16_string, spec_take, spec_timestamp, spec_u16, spec_u32,
    ByteStream, ExactSizedStream, IoError, RawF32, ReadStringError, ReadTimestampError, SpecRead,
    StreamModel, TakeInclusiveLengthPrefixedError, Timestamp, TryParse, UnfinishedParsingError,
    lemma_repeat_r_fails, spec_i32, spec_repeat_r, spec_timestamp_r,
};
use crate::bits::{bit_is_set, CheckedBitfield, UnhandledBitsError};
use crate::byte_stream::{
    opt_vec_views, opt_view, spec_bitfield, spec_f64, spec_opt, spec_opt_or, spec_then,
    spec_long_u16_string, spec_str_opt, spec_ts_opt, spec_u16_counted, spec_u32_counted, views,
    RawF64, ReadBitfieldError,
};
use crate::context::{DocumentContext, TryParseWithContext};
use crate::digest::{sha256, sha256_digest};
use crate::end_tag::{
    spec_background_theme, spec_text_direction, BackgroundTheme, InvalidBackgroundThemeError,
    InvalidTextDirectionError, TextDirection,
};
use crate::media_info::{BoundFile, BoundFileModel, FileRegistry, NoSuchRegisteredFileError};
use crate::page::object::text::{spec_text, text_model, Text, TextModel, TextParseError};
use crate::page::object::NESTING_LIMIT;
use crate::page::{seek_flex_from, spec_seek_flex};
use crate::{spec_app_version, AppVersion, AppVersionModel, AppVersionParseError};

verus! {

broadcast use vstd::std_specs::hash::group_hash_axioms;

// ---------------------------------------------------------------------------------------------
// String registry
// ---------------------------------------------------------------------------------------------

/// There is no string registered with this id.
#[derive(Debug, Clone, Copy, PartialEq, Eq, Structural)]
pub struct NoSuchRegisteredStringError(pub u32);

/// The strings of a document, by string id.
#[derive(Debug)]
pub struct StringRegistry {
    /// Keys are string IDs.
    strings: HashMap<u32, Rc<String>>,
}

impl View for StringRegistry {
    type V = Map<u32, Seq<char>>;

    closed spec fn view(&self) -> Map<u32, Seq<char>> {
        rc_map_view(self.strings@)
    }
}

fn rc_clone_string(s: &Rc<String>) -> (r: Rc<String>)
    ensures
        r@ == s@,
{
    Rc::clone(s)
}

impl StringRegistry {
    /// An empty registry.
    pub fn new() -> (r: StringRegistry)
        ensures
            r@ == Map::<u32, Seq<char>>::empty(),
    {
        let r = StringRegistry { strings: HashMap::new() };
        assert(r@ =~= Map::<u32, Seq<char>>::empty());
        r
    }

    pub fn get(&self, key: u32) -> (r: Option<Rc<String>>)
        ensures
            match r {
                Some(s) => self@.contains_key(key) && s@ == self@[key],
                None => !self@.contains_key(key),
            },
    {
        match self.strings.get(&key) {
            Some(s) => Some(rc_clone_string(s)),
            None => None,
        }
    }

    pub fn try_get(&self, key: u32) -> (r: Result<Rc<String>, NoSuchRegisteredStringError>)
        ensures
            match r {
                Ok(s) => self@.contains_key(key) && s@ == self@[key],
                Err(e) => !self@.contains_key(key) && e.0 == key,
            },
    {
        match self.get(key) {
            Some(s) => Ok(s),
            None => Err(NoSuchRegisteredStringError(key)),
        }
    }
}

/// Failure to parse the string registry.
#[derive(Debug, Clone, Copy, PartialEq, Eq, Structural)]
pub enum StringRegistryParseError {
    Io(IoError),
    String(ReadStringError),
    Unfinished(UnfinishedParsingError),
}

/// One registry entry: a `u32` string id and a short UTF-16 string.
pub open spec fn spec_string_entry(s: StreamModel) -> SpecRead<(u32, Seq<char>)> {
    match spec_u32(s) {
        Some((k, s1)) => match spec_short_u16_string(s1) {
            Ok((v, s2)) => Some(((k, v), s2)),
            Err(_) => None,
        },
        None => None,
    }
}

pub open spec fn string_entry_item() -> spec_fn(StreamModel) -> SpecRead<(u32, Seq<char>)> {
    |t: StreamModel| spec_string_entry(t)
}

/// The string registry: a `u32` size and a window of that many bytes. An empty window is an
/// empty registry; otherwise it holds a `u16` count of entries and nothing after them.
pub open spec fn spec_string_registry(s: StreamModel) -> SpecRead<Map<u32, Seq<char>>> {
    match spec_u32(s) {
        Some((n, s1)) => match spec_blind_window(s1, n as int) {
            Some(w) => if n == 0 {
                Some((Map::empty(), s1))
            } else {
                match spec_u16(w) {
                    Some((count, w1)) => match spec_repeat(w1, count as nat, string_entry_item()) {
                        Some((es, w2)) => if w2.remaining() == 0 {
                            Some((pairs_to_map(es), spec_continue(s1, w2)))
                        } else {
                            None
                        },
                        None => None,
                    },
                    None => None,
                }
            },
            None => None,
        },
        None => None,
    }
}

/// The error that reading the string registry gives when its size or entry count is missing, or
/// when bytes are left after the entries (with their number). `None` where the read succeeds or
/// an entry cannot be read.
pub open spec fn spec_string_registry_error(s: StreamModel) -> Option<StringRegistryParseError> {
    match spec_u32(s) {
        Some((n, s1)) => match spec_blind_window(s1, n as int) {
            Some(w) => if n == 0 {
                None
            } else {
                match spec_u16(w) {
                    Some((count, w1)) => match spec_repeat(w1, count as nat, string_entry_item()) {
                        Some((_, w2)) => if w2.remaining() == 0 {
                            None
                        } else {
                            Some(StringRegistryParseError::Unfinished(UnfinishedParsingError { remaining: w2.remaining() as u64 }))
                        },
                        None => None,
                    },
                    None => Some(StringRegistryParseError::Io(IoError::UnexpectedEof)),
                }
            },
            None => None,
        },
        None => Some(StringRegistryParseError::Io(IoError::UnexpectedEof)),
    }
}

fn read_string_entry(reader: &mut ByteStream) -> (r: Result<(u32, String), StringRegistryParseError>)
    ensures
        match spec_string_entry(old(reader)@) {
            Some((m, s2)) => r matches Ok((k, v)) && k == m.0 && v@ == m.1 && final(reader)@ == s2,
            None => r is Err,
        },
        final(reader)@.same_frame(old(reader)@),
{
    let k: u32 = match reader.read_u32_le() {
        Ok(v) => v,
        Err(e) => return Err(StringRegistryParseError::Io(e)),
    };
    let v: String = match reader.read_short_u16_string() {
        Ok(v) => v,
        Err(e) => return Err(StringRegistryParseError::String(e)),
    };
    Ok((k, v))
}

fn read_string_entries(reader: &mut ByteStream, n: u16) -> (r: Result<StringRegistry, StringRegistryParseError>)
    ensures
        match spec_repeat(old(reader)@, n as nat, string_entry_item()) {
            Some((es, s2)) => r matches Ok(v) && v@ == pairs_to_map(es) && final(reader)@ == s2,
            None => r is Err,
        },
        final(reader)@.same_frame(old(reader)@),
{
    let ghost s0 = reader@;
    let ghost item = string_entry_item();
    let mut strings: HashMap<u32, Rc<String>> = HashMap::new();
    let ghost mut entries: Seq<(u32, Seq<char>)> = Seq::empty();
    proof { assert(rc_map_view(strings@) =~= pairs_to_map(entries)); }
    let mut i: u16 = 0;
    while i < n
        invariant
            i <= n,
            item == string_entry_item(),
            s0 == old(reader)@,
            reader@.same_frame(s0),
            spec_repeat(s0, i as nat, item) == Some((entries, reader@)),
            rc_map_view(strings@) == pairs_to_map(entries),
        decreases n - i,
    {
        let ghost before = reader@;
        proof { assert(item(before) == spec_string_entry(before)); }
        let (k, v) = match read_string_entry(reader) {
            Ok(e) => e,
            Err(e) => {
                proof { lemma_repeat_fails(s0, (i + 1) as nat, n as nat, item); }
                return Err(e);
            },
        };
        let ghost vm = v@;
        let rv: Rc<String> = Rc::new(v);
        proof {
            lemma_rc_map_view_insert(strings@, k, rv);
            lemma_pairs_to_map_push(entries, k, vm);
            entries = entries.push((k, vm));
        }
        strings.insert(k, rv);
        i = i + 1;
    }
    Ok(StringRegistry { strings })
}

impl<'a> TryParse<ByteStream<'a>> for StringRegistry {
    type ParseError = StringRegistryParseError;

    fn try_parse(reader: &mut ByteStream<'a>) -> (r: Result<StringRegistry, StringRegistryParseError>)
        ensures
            match spec_string_registry(old(reader)@) {
                Some((m, s2)) => r matches Ok(v) && v@ == m && final(reader)@ == s2,
                None => r is Err,
            },
            spec_string_registry_error(old(reader)@) matches Some(e) ==> (r matches Err(re) && re == e),
            final(reader)@.same_frame(old(reader)@),
    {
        let n: u32 = match reader.read_u32_le() {
            Ok(v) => v,
            Err(e) => return Err(StringRegistryParseError::Io(e)),
        };
        let mut window: ByteStream = match reader.blind_window(n as u64) {
            Ok(w) => w,
            Err(e) => return Err(StringRegistryParseError::Io(e)),
        };
        // If the size of the string manager is zero, there's nothing to read.
        if window.n_remaining() == 0 {
            return Ok(StringRegistry::new());
        }
        let count: u16 = match window.read_u16_le() {
            Ok(v) => v,
            Err(e) => return Err(StringRegistryParseError::Io(e)),
        };
        let registry: StringRegistry = read_string_entries(&mut window, count)?;
        if let Err(e) = window.ensure_eof() {
            return Err(StringRegistryParseError::Unfinished(e));
        }
        proof { use_type_invariant(&*reader); use_type_invariant(&window); }
        reader.continue_after(&window);
        Ok(registry)
    }
}


// ---------------------------------------------------------------------------------------------
// Author information
// ---------------------------------------------------------------------------------------------

/// Failure to read author information.
#[derive(Debug, Clone, Copy, PartialEq, Eq, Structural)]
pub enum AuthorInfoParseError {
    Io(IoError),
    String(ReadStringError),
}

/// Three strings about the author, and an image id.
#[derive(Debug)]
pub struct AuthorInfo {
    pub strings: [String; 3],
    pub image_id: u32,
}

pub struct AuthorInfoModel {
    pub strings: Seq<Seq<char>>,
    pub image_id: u32,
}

impl View for AuthorInfo {
    type V = AuthorInfoModel;

    open spec fn view(&self) -> AuthorInfoModel {
        AuthorInfoModel {
            strings: seq![self.strings[0]@, self.strings[1]@, self.strings[2]@],
            image_id: self.image_id,
        }
    }
}

/// Three short UTF-16 strings, then a `u32` image id.
pub open spec fn spec_author_info(s: StreamModel) -> Result<(AuthorInfoModel, StreamModel), AuthorInfoParseError> {
    match spec_short_u16_string(s) {
        Ok((a, s1)) => match spec_short_u16_string(s1) {
            Ok((b, s2)) => match spec_short_u16_string(s2) {
                Ok((c, s3)) => match spec_u32(s3) {
                    Some((image_id, s4)) => Ok((AuthorInfoModel { strings: seq![a, b, c], image_id }, s4)),
                    None => Err(AuthorInfoParseError::Io(IoError::UnexpectedEof)),
                },
                Err(e) => Err(AuthorInfoParseError::String(e)),
            },
            Err(e) => Err(AuthorInfoParseError::String(e)),
        },
        Err(e) => Err(AuthorInfoParseError::String(e)),
    }
}

impl<'a> TryParse<ByteStream<'a>> for AuthorInfo {
    type ParseError = AuthorInfoParseError;

    fn try_parse(reader: &mut ByteStream<'a>) -> (r: Result<AuthorInfo, AuthorInfoParseError>)
        ensures
            match spec_author_info(old(reader)@) {
                Ok((m, s2)) => r matches Ok(v) && v@ == m && final(reader)@ == s2,
                Err(e) => r == Err::<AuthorInfo, AuthorInfoParseError>(e),
            },
            final(reader)@.same_frame(old(reader)@),
    {
        let a: String = match reader.read_short_u16_string() {
            Ok(v) => v,
            Err(e) => return Err(AuthorInfoParseError::String(e)),
        };
        let b: String = match reader.read_short_u16_string() {
            Ok(v) => v,
            Err(e) => return Err(AuthorInfoParseError::String(e)),
        };
        let c: String = match reader.read_short_u16_string() {
            Ok(v) => v,
            Err(e) => return Err(AuthorInfoParseError::String(e)),
        };
        let image_id: u32 = match reader.read_u32_le() {
            Ok(v) => v,
            Err(e) => return Err(AuthorInfoParseError::Io(e)),
        };
        let r = AuthorInfo { strings: [a, b, c], image_id };
        assert(r@.strings =~= seq![a@, b@, c@]);
        Ok(r)
    }
}

// ---------------------------------------------------------------------------------------------
// Pen information
// ---------------------------------------------------------------------------------------------

/// Failure to read pen information.
#[derive(Debug, Clone, Copy, PartialEq, Eq, Structural)]
pub enum PenInfoParseError {
    Io(IoError),
    BadSize(TakeInclusiveLengthPrefixedError),
    /// The name could not be read.
    ReadName(ReadStringError),
    /// The advanced settings could not be read.
    ReadAdvancedSettings(ReadStringError),
    Unfinished(UnfinishedParsingError),
}

/// The settings of a pen.
#[derive(Debug)]
pub struct PenInfo {
    pub name: String,
    pub size: RawF32,
    pub colour: [u8; 4],
    pub size_level: u32,
    pub advanced_settings: String,
    pub is_curvable: bool,
    pub is_eraser_enabled: bool,
    pub is_fixed_width: Option<bool>,
    pub particle_density: u32,
    pub particle_size: Option<RawF32>,
    pub ui_colour_hsv: [RawF32; 3],
    pub ui_colour_info: u32,
}

pub struct PenInfoModel {
    pub name: Seq<char>,
    pub size: RawF32,
    pub colour: Seq<u8>,
    pub size_level: u32,
    pub advanced_settings: Seq<char>,
    pub is_curvable: bool,
    pub is_eraser_enabled: bool,
    pub is_fixed_width: Option<bool>,
    pub particle_density: u32,
    pub particle_size: Option<RawF32>,
    pub ui_colour_hsv: Seq<RawF32>,
    pub ui_colour_info: u32,
}

impl View for PenInfo {
    type V = PenInfoModel;

    open spec fn view(&self) -> PenInfoModel {
        PenInfoModel {
            name: self.name@,
            size: self.size,
            colour: self.colour@,
            size_level: self.size_level,
            advanced_settings: self.advanced_settings@,
            is_curvable: self.is_curvable,
            is_eraser_enabled: self.is_eraser_enabled,
            is_fixed_width: self.is_fixed_width,
            particle_density: self.particle_density,
            particle_size: self.particle_size,
            ui_colour_hsv: self.ui_colour_hsv@,
            ui_colour_info: self.ui_colour_info,
        }
    }
}

/// The fields that both pen formats begin with: name, size, colour, curvable flag, advanced
/// settings, eraser flag, size level and particle density. The other fields are left empty.
pub open spec fn spec_pen_head(s: StreamModel) -> Result<(PenInfoModel, StreamModel), PenInfoParseError> {
    match spec_short_u16_string(s) {
        Ok((name, s1)) => match spec_f32(s1) {
            Some((size, s2)) => match spec_take(s2, 4) {
                Some((colour, s3)) => match spec_u32(s3) {
                    Some((curvable, s4)) => match spec_short_u16_string(s4) {
                        Ok((advanced_settings, s5)) => match spec_u32(s5) {
                            Some((eraser, s6)) => match spec_u32(s6) {
                                Some((size_level, s7)) => match spec_u32(s7) {
                                    Some((particle_density, s8)) => Ok((PenInfoModel {
                                        name,
                                        size,
                                        colour,
                                        size_level,
                                        advanced_settings,
                                        is_curvable: curvable != 0,
                                        is_eraser_enabled: eraser != 0,
                                        is_fixed_width: None,
                                        particle_density,
                                        particle_size: None,
                                        ui_colour_hsv: Seq::empty(),
                                        ui_colour_info: 0,
                                    }, s8)),
                                    None => Err(PenInfoParseError::Io(IoError::UnexpectedEof)),
                                },
                                None => Err(PenInfoParseError::Io(IoError::UnexpectedEof)),
                            },
                            None => Err(PenInfoParseError::Io(IoError::UnexpectedEof)),
                        },
                        Err(e) => Err(PenInfoParseError::ReadAdvancedSettings(e)),
                    },
                    None => Err(PenInfoParseError::Io(IoError::UnexpectedEof)),
                },
                None => Err(PenInfoParseError::Io(IoError::UnexpectedEof)),
            },
            None => Err(PenInfoParseError::Io(IoError::UnexpectedEof)),
        },
        Err(e) => Err(PenInfoParseError::ReadName(e)),
    }
}

/// The fields that both pen formats end with: the UI colour as three `f32`s, and its info.
pub open spec fn spec_pen_tail(s: StreamModel) -> Result<((Seq<RawF32>, u32), StreamModel), PenInfoParseError> {
    match spec_f32(s) {
        Some((h, s1)) => match spec_f32(s1) {
            Some((sat, s2)) => match spec_f32(s2) {
                Some((v, s3)) => match spec_u32(s3) {
                    Some((info, s4)) => Ok(((seq![h, sat, v], info), s4)),
                    None => Err(PenInfoParseError::Io(IoError::UnexpectedEof)),
                },
                None => Err(PenInfoParseError::Io(IoError::UnexpectedEof)),
            },
            None => Err(PenInfoParseError::Io(IoError::UnexpectedEof)),
        },
        None => Err(PenInfoParseError::Io(IoError::UnexpectedEof)),
    }
}

/// The older pen format: the head, then the tail.
pub open spec fn spec_pen_info_simple(s: StreamModel) -> Result<(PenInfoModel, StreamModel), PenInfoParseError> {
    match spec_pen_head(s) {
        Ok((m, s1)) => match spec_pen_tail(s1) {
            Ok(((hsv, info), s2)) => Ok((PenInfoModel { ui_colour_hsv: hsv, ui_colour_info: info, ..m }, s2)),
            Err(e) => Err(e),
        },
        Err(e) => Err(e),
    }
}

/// The newer pen format: an inclusive `u32` size, then the head, the particle size (`f32`),
/// the fixed-width flag (`u32`) and the tail, which must end exactly at the declared size.
pub open spec fn spec_pen_info_full(s: StreamModel) -> Result<(PenInfoModel, StreamModel), PenInfoParseError> {
    match spec_inclusive_window(s) {
        Ok(w) => match spec_pen_head(w) {
            Ok((m, w1)) => match spec_f32(w1) {
                Some((particle_size, w2)) => match spec_u32(w2) {
                    Some((fixed, w3)) => match spec_pen_tail(w3) {
                        Ok(((hsv, info), w4)) => if w4.remaining() == 0 {
                            Ok((PenInfoModel {
                                particle_size: Some(particle_size),
                                is_fixed_width: Some(fixed != 0),
                                ui_colour_hsv: hsv,
                                ui_colour_info: info,
                                ..m
                            }, spec_continue(s, w4)))
                        } else {
                            Err(PenInfoParseError::Unfinished(UnfinishedParsingError { remaining: w4.remaining() as u64 }))
                        },
                        Err(e) => Err(e),
                    },
                    None => Err(PenInfoParseError::Io(IoError::UnexpectedEof)),
                },
                None => Err(PenInfoParseError::Io(IoError::UnexpectedEof)),
            },
            Err(e) => Err(e),
        },
        Err(e) => Err(PenInfoParseError::BadSize(e)),
    }
}

impl PenInfo {
    fn read_head(stream: &mut ByteStream) -> (r: Result<PenInfo, PenInfoParseError>)
        ensures
            match spec_pen_head(old(stream)@) {
                Ok((m, s2)) => r matches Ok(v) && v@.name == m.name && v@.size == m.size
                    && v@.colour == m.colour && v@.size_level == m.size_level
                    && v@.advanced_settings == m.advanced_settings && v@.is_curvable == m.is_curvable
                    && v@.is_eraser_enabled == m.is_eraser_enabled
                    && v@.particle_density == m.particle_density && v@.is_fixed_width is None
                    && v@.particle_size is None && final(stream)@ == s2,
                Err(e) => r == Err::<PenInfo, PenInfoParseError>(e),
            },
            final(stream)@.same_frame(old(stream)@),
    {
        let name: String = match stream.read_short_u16_string() {
            Ok(v) => v,
            Err(e) => return Err(PenInfoParseError::ReadName(e)),
        };
        let size: RawF32 = match stream.read_f32_le() {
            Ok(v) => v,
            Err(e) => return Err(PenInfoParseError::Io(e)),
        };
        let colour: [u8; 4] = match stream.read_4_bytes() {
            Ok(v) => v,
            Err(e) => return Err(PenInfoParseError::Io(e)),
        };
        let curvable: u32 = match stream.read_u32_le() {
            Ok(v) => v,
            Err(e) => return Err(PenInfoParseError::Io(e)),
        };
        let advanced_settings: String = match stream.read_short_u16_string() {
            Ok(v) => v,
            Err(e) => return Err(PenInfoParseError::ReadAdvancedSettings(e)),
        };
        let eraser: u32 = match stream.read_u32_le() {
            Ok(v) => v,
            Err(e) => return Err(PenInfoParseError::Io(e)),
        };
        let size_level: u32 = match stream.read_u32_le() {
            Ok(v) => v,
            Err(e) => return Err(PenInfoParseError::Io(e)),
        };
        let particle_density: u32 = match stream.read_u32_le() {
            Ok(v) => v,
            Err(e) => return Err(PenInfoParseError::Io(e)),
        };
        Ok(PenInfo {
            name,
            size,
            colour,
            size_level,
            advanced_settings,
            is_curvable: curvable != 0,
            is_eraser_enabled: eraser != 0,
            is_fixed_width: None,
            particle_density,
            particle_size: None,
            ui_colour_hsv: [RawF32 { bits: 0 }, RawF32 { bits: 0 }, RawF32 { bits: 0 }],
            ui_colour_info: 0,
        })
    }

    fn read_tail(stream: &mut ByteStream) -> (r: Result<([RawF32; 3], u32), PenInfoParseError>)
        ensures
            match spec_pen_tail(old(stream)@) {
                Ok(((hsv, info), s2)) => r matches Ok((a, i)) && a@ == hsv && i == info && final(stream)@ == s2,
                Err(e) => r == Err::<([RawF32; 3], u32), PenInfoParseError>(e),
            },
            final(stream)@.same_frame(old(stream)@),
    {
        let h: RawF32 = match stream.read_f32_le() {
            Ok(v) => v,
            Err(e) => return Err(PenInfoParseError::Io(e)),
        };
        let sat: RawF32 = match stream.read_f32_le() {
            Ok(v) => v,
            Err(e) => return Err(PenInfoParseError::Io(e)),
        };
        let v: RawF32 = match stream.read_f32_le() {
            Ok(v) => v,
            Err(e) => return Err(PenInfoParseError::Io(e)),
        };
        let info: u32 = match stream.read_u32_le() {
            Ok(v) => v,
            Err(e) => return Err(PenInfoParseError::Io(e)),
        };
        let a: [RawF32; 3] = [h, sat, v];
        assert(a@ =~= seq![h, sat, v]);
        Ok((a, info))
    }

    /// Reads the older pen format, which has no size field.
    pub fn try_parse_simple(stream: &mut ByteStream) -> (r: Result<PenInfo, PenInfoParseError>)
        ensures
            match spec_pen_info_simple(old(stream)@) {
                Ok((m, s2)) => r matches Ok(v) && v@ == m && final(stream)@ == s2,
                Err(e) => r == Err::<PenInfo, PenInfoParseError>(e),
            },
            final(stream)@.same_frame(old(stream)@),
    {
        let head: PenInfo = PenInfo::read_head(stream)?;
        let (hsv, info) = PenInfo::read_tail(stream)?;
        Ok(PenInfo { ui_colour_hsv: hsv, ui_colour_info: info, ..head })
    }

    /// Reads the newer pen format, whose size field counts itself; every byte that it counts must
    /// be used.
    pub fn try_parse_full(stream: &mut ByteStream) -> (r: Result<PenInfo, PenInfoParseError>)
        ensures
            match spec_pen_info_full(old(stream)@) {
                Ok((m, s2)) => r matches Ok(v) && v@ == m && final(stream)@ == s2,
                Err(e) => r == Err::<PenInfo, PenInfoParseError>(e),
            },
            final(stream)@.same_frame(old(stream)@),
    {
        let mut w: ByteStream = match stream.take_inclusive_length_prefixed() {
            Ok(w) => w,
            Err(e) => return Err(PenInfoParseError::BadSize(e)),
        };
        let head: PenInfo = PenInfo::read_head(&mut w)?;
        let particle_size: RawF32 = match w.read_f32_le() {
            Ok(v) => v,
            Err(e) => return Err(PenInfoParseError::Io(e)),
        };
        let fixed: u32 = match w.read_u32_le() {
            Ok(v) => v,
            Err(e) => return Err(PenInfoParseError::Io(e)),
        };
        let (hsv, info) = PenInfo::read_tail(&mut w)?;
        if let Err(e) = w.ensure_eof() {
            return Err(PenInfoParseError::Unfinished(e));
        }
        proof { use_type_invariant(&*stream); use_type_invariant(&w); }
        stream.continue_after(&w);
        Ok(PenInfo {
            particle_size: Some(particle_size),
            is_fixed_width: Some(fixed != 0),
            ui_colour_hsv: hsv,
            ui_colour_info: info,
            ..head
        })
    }
}


// ---------------------------------------------------------------------------------------------
// Voice recordings
// ---------------------------------------------------------------------------------------------

/// What happened at a point of a voice recording.
#[derive(Debug, Clone, Copy, PartialEq, Eq, Structural)]
pub enum VoiceAction {
    /// `VOICE_ACTION_NONE`
    NoAction,
    /// `VOICE_ACTION_START`
    Start,
    /// `VOICE_ACTION_PAUSE`
    Pause,
    /// `VOICE_ACTION_RESUME`
    Resume,
    /// `VOICE_ACTION_STOP`
    Stop,
}

/// The value is not that of a `VoiceAction`.
#[derive(Debug, Clone, Copy, PartialEq, Eq, Structural)]
pub struct InvalidVoiceActionError {
    pub bad_value: u32,
}

/// The action that `v` stands for: 0 to 4 in declaration order.
pub open spec fn spec_voice_action(v: u32) -> Option<VoiceAction> {
    if v == 0 {
        Some(VoiceAction::NoAction)
    } else if v == 1 {
        Some(VoiceAction::Start)
    } else if v == 2 {
        Some(VoiceAction::Pause)
    } else if v == 3 {
        Some(VoiceAction::Resume)
    } else if v == 4 {
        Some(VoiceAction::Stop)
    } else {
        None
    }
}

impl VoiceAction {
    pub fn try_from_u32(v: u32) -> (r: Result<VoiceAction, InvalidVoiceActionError>)
        ensures
            match spec_voice_action(v) {
                Some(a) => r == Ok::<VoiceAction, InvalidVoiceActionError>(a),
                None => r == Err::<VoiceAction, InvalidVoiceActionError>(InvalidVoiceActionError { bad_value: v }),
            },
    {
        match v {
            0 => Ok(VoiceAction::NoAction),
            1 => Ok(VoiceAction::Start),
            2 => Ok(VoiceAction::Pause),
            3 => Ok(VoiceAction::Resume),
            4 => Ok(VoiceAction::Stop),
            _ => Err(InvalidVoiceActionError { bad_value: v }),
        }
    }
}

/// An action of a voice recording and when it happened.
#[derive(Debug, Clone, Copy, PartialEq, Eq, Structural)]
pub struct VoiceEvent {
    pub time: Timestamp,
    pub action: VoiceAction,
}

/// Failure to read a voice recording.
#[derive(Debug, Clone, Copy, PartialEq, Eq, Structural)]
pub enum VoiceRecordingParseError {
    Io(IoError),
    NoSuchFile(NoSuchRegisteredFileError),
    String(ReadStringError),
    Timestamp(ReadTimestampError),
    Action(InvalidVoiceActionError),
    Unfinished(UnfinishedParsingError),
    /// The event count does not fit in `usize`.
    TooManyEvents(u32),
    /// The precise duration, in milliseconds, is outside the range of durations.
    DurationOutOfRange(i64),
}

/// A voice memo attached to the document.
#[derive(Debug)]
pub struct VoiceRecording {
    pub file: Rc<BoundFile>,
    pub name: String,
    pub duration_str: String,
    pub date_created: Timestamp,
    pub events: Vec<VoiceEvent>,
    /// In milliseconds.
    pub precise_duration: i64,
}

pub struct VoiceRecordingModel {
    pub file: BoundFileModel,
    pub name: Seq<char>,
    pub duration_str: Seq<char>,
    pub date_created: Timestamp,
    pub events: Seq<VoiceEvent>,
    pub precise_duration: i64,
}

impl View for VoiceRecording {
    type V = VoiceRecordingModel;

    open spec fn view(&self) -> VoiceRecordingModel {
        VoiceRecordingModel {
            file: self.file@,
            name: self.name@,
            duration_str: self.duration_str@,
            date_created: self.date_created,
            events: self.events@,
            precise_duration: self.precise_duration,
        }
    }
}

/// Calls `chrono::TimeDelta::try_milliseconds`, and reports whether it gave a duration.
///
/// Claimed, as chrono's documentation states: it fails only for `i64::MIN`.
#[verifier::external_body]
fn chrono_accepts_millis(ms: i64) -> (r: bool)
    ensures
        r == (ms != i64::MIN),
{
    chrono::TimeDelta::try_milliseconds(ms).is_some()
}

/// An event: a `u32` action, then a timestamp.
pub open spec fn spec_voice_event(s: StreamModel) -> Result<(VoiceEvent, StreamModel), VoiceRecordingParseError> {
    match spec_u32(s) {
        Some((a, s1)) => match spec_voice_action(a) {
            Some(action) => match spec_timestamp_r(s1) {
                Ok((time, s2)) => Ok((VoiceEvent { time, action }, s2)),
                Err(e) => Err(VoiceRecordingParseError::Timestamp(e)),
            },
            None => Err(VoiceRecordingParseError::Action(InvalidVoiceActionError { bad_value: a })),
        },
        None => Err(VoiceRecordingParseError::Io(IoError::UnexpectedEof)),
    }
}

pub open spec fn voice_event_item() -> spec_fn(StreamModel) -> Result<(VoiceEvent, StreamModel), VoiceRecordingParseError> {
    |t: StreamModel| spec_voice_event(t)
}

/// The fields of a voice recording: the bind id of its file (which `files` must hold), name,
/// duration text, creation time, a `u32` count of events and the events, and the precise
/// duration as `i64` milliseconds.
pub open spec fn spec_voice_body(s: StreamModel, files: Map<u32, BoundFileModel>) -> Result<(VoiceRecordingModel, StreamModel), VoiceRecordingParseError> {
    match spec_u32(s) {
        Some((id, s1)) => if !files.contains_key(id) {
            Err(VoiceRecordingParseError::NoSuchFile(NoSuchRegisteredFileError(id)))
        } else {
            match spec_short_u16_string(s1) {
                Ok((name, s2)) => match spec_short_u16_string(s2) {
                    Ok((duration_str, s3)) => match spec_timestamp_r(s3) {
                        Ok((date_created, s4)) => match spec_u32(s4) {
                            Some((count, s5)) => match spec_repeat_r(s5, count as nat, voice_event_item()) {
                                Ok((events, s6)) => match spec_i64(s6) {
                                    Some((ms, s7)) => if ms == i64::MIN {
                                        Err(VoiceRecordingParseError::DurationOutOfRange(ms))
                                    } else {
                                        Ok((VoiceRecordingModel {
                                            file: files[id],
                                            name,
                                            duration_str,
                                            date_created,
                                            events,
                                            precise_duration: ms,
                                        }, s7))
                                    },
                                    None => Err(VoiceRecordingParseError::Io(IoError::UnexpectedEof)),
                                },
                                Err(e) => Err(e),
                            },
                            None => Err(VoiceRecordingParseError::Io(IoError::UnexpectedEof)),
                        },
                        Err(e) => Err(VoiceRecordingParseError::Timestamp(e)),
                    },
                    Err(e) => Err(VoiceRecordingParseError::String(e)),
                },
                Err(e) => Err(VoiceRecordingParseError::String(e)),
            }
        },
        None => Err(VoiceRecordingParseError::Io(IoError::UnexpectedEof)),
    }
}

/// A voice recording: a `u32` size, then that many bytes holding exactly its fields.
pub open spec fn spec_voice_recording(s: StreamModel, files: Map<u32, BoundFileModel>) -> Result<(VoiceRecordingModel, StreamModel), VoiceRecordingParseError> {
    match spec_u32(s) {
        Some((n, s1)) => match spec_blind_window(s1, n as int) {
            Some(w) => match spec_voice_body(w, files) {
                Ok((m, w2)) => if w2.remaining() == 0 {
                    Ok((m, spec_continue(s1, w2)))
                } else {
                    Err(VoiceRecordingParseError::Unfinished(UnfinishedParsingError { remaining: w2.remaining() as u64 }))
                },
                Err(e) => Err(e),
            },
            None => Err(VoiceRecordingParseError::Io(IoError::UnexpectedEof)),
        },
        None => Err(VoiceRecordingParseError::Io(IoError::UnexpectedEof)),
    }
}

fn read_voice_event(reader: &mut ByteStream) -> (r: Result<VoiceEvent, VoiceRecordingParseError>)
    ensures
        match spec_voice_event(old(reader)@) {
            Ok((m, s2)) => r == Ok::<VoiceEvent, VoiceRecordingParseError>(m) && final(reader)@ == s2,
            Err(e) => r == Err::<VoiceEvent, VoiceRecordingParseError>(e),
        },
        final(reader)@.same_frame(old(reader)@),
{
    let a: u32 = match reader.read_u32_le() {
        Ok(v) => v,
        Err(e) => return Err(VoiceRecordingParseError::Io(e)),
    };
    let action: VoiceAction = match VoiceAction::try_from_u32(a) {
        Ok(v) => v,
        Err(e) => return Err(VoiceRecordingParseError::Action(e)),
    };
    let time: Timestamp = match reader.read_timestamp() {
        Ok(v) => v,
        Err(e) => return Err(VoiceRecordingParseError::Timestamp(e)),
    };
    Ok(VoiceEvent { time, action })
}

fn read_voice_events(reader: &mut ByteStream, n: u32) -> (r: Result<Vec<VoiceEvent>, VoiceRecordingParseError>)
    ensures
        match spec_repeat_r(old(reader)@, n as nat, voice_event_item()) {
            Ok((es, s2)) => r matches Ok(v) && v@ == es && final(reader)@ == s2,
            Err(e) => r == Err::<Vec<VoiceEvent>, VoiceRecordingParseError>(e),
        },
        final(reader)@.same_frame(old(reader)@),
{
    let ghost s0 = reader@;
    let ghost item = voice_event_item();
    let mut events: Vec<VoiceEvent> = Vec::new();
    let mut i: u32 = 0;
    while i < n
        invariant
            i <= n,
            item == voice_event_item(),
            s0 == old(reader)@,
            reader@.same_frame(s0),
            spec_repeat_r(s0, i as nat, item) == Ok::<(Seq<VoiceEvent>, StreamModel), VoiceRecordingParseError>((events@, reader@)),
        decreases n - i,
    {
        let ghost before = reader@;
        proof { assert(item(before) == spec_voice_event(before)); }
        let ev: VoiceEvent = match read_voice_event(reader) {
            Ok(e) => e,
            Err(e) => {
                proof { lemma_repeat_r_fails(s0, (i + 1) as nat, n as nat, item); }
                return Err(e);
            },
        };
        events.push(ev);
        i = i + 1;
    }
    Ok(events)
}

impl VoiceRecording {
    fn read_body(reader: &mut ByteStream, file_registry: &FileRegistry) -> (r: Result<VoiceRecording, VoiceRecordingParseError>)
        ensures
            match spec_voice_body(old(reader)@, file_registry@) {
                Ok((m, s2)) => r matches Ok(v) && v@ == m && final(reader)@ == s2,
                Err(e) => r == Err::<VoiceRecording, VoiceRecordingParseError>(e),
            },
            final(reader)@.same_frame(old(reader)@),
    {
        let id: u32 = match reader.read_u32_le() {
            Ok(v) => v,
            Err(e) => return Err(VoiceRecordingParseError::Io(e)),
        };
        let file: Rc<BoundFile> = match file_registry.try_get(id) {
            Ok(f) => f,
            Err(e) => return Err(VoiceRecordingParseError::NoSuchFile(e)),
        };
        let name: String = match reader.read_short_u16_string() {
            Ok(v) => v,
            Err(e) => return Err(VoiceRecordingParseError::String(e)),
        };
        let duration_str: String = match reader.read_short_u16_string() {
            Ok(v) => v,
            Err(e) => return Err(VoiceRecordingParseError::String(e)),
        };
        let date_created: Timestamp = match reader.read_timestamp() {
            Ok(v) => v,
            Err(e) => return Err(VoiceRecordingParseError::Timestamp(e)),
        };
        let count: u32 = match reader.read_u32_le() {
            Ok(v) => v,
            Err(e) => return Err(VoiceRecordingParseError::Io(e)),
        };
        let events: Vec<VoiceEvent> = read_voice_events(reader, count)?;
        let ms: i64 = match reader.read_i64_le() {
            Ok(v) => v,
            Err(e) => return Err(VoiceRecordingParseError::Io(e)),
        };
        if !chrono_accepts_millis(ms) {
            return Err(VoiceRecordingParseError::DurationOutOfRange(ms));
        }
        Ok(VoiceRecording { file, name, duration_str, date_created, events, precise_duration: ms })
    }
}

impl<'a> TryParseWithContext<ByteStream<'a>, FileRegistry> for VoiceRecording {
    type ParseError = VoiceRecordingParseError;

    fn try_parse_with_ctx(reader: &mut ByteStream<'a>, file_registry: &FileRegistry) -> (r: Result<VoiceRecording, VoiceRecordingParseError>)
        ensures
            match spec_voice_recording(old(reader)@, file_registry@) {
                Ok((m, s2)) => r matches Ok(v) && v@ == m && final(reader)@ == s2,
                Err(e) => r == Err::<VoiceRecording, VoiceRecordingParseError>(e),
            },
            final(reader)@.same_frame(old(reader)@),
    {
        let n: u32 = match reader.read_u32_le() {
            Ok(v) => v,
            Err(e) => return Err(VoiceRecordingParseError::Io(e)),
        };
        let mut w: ByteStream = match reader.blind_window(n as u64) {
            Ok(w) => w,
            Err(e) => return Err(VoiceRecordingParseError::Io(e)),
        };
        let v: VoiceRecording = VoiceRecording::read_body(&mut w, file_registry)?;
        if let Err(e) = w.ensure_eof() {
            return Err(VoiceRecordingParseError::Unfinished(e));
        }
        proof { use_type_invariant(&*reader); use_type_invariant(&w); }
        reader.continue_after(&w);
        Ok(v)
    }
}


/// The fixed fields of a note document.
#[verifier::opaque]
pub open spec fn spec_note_fixed(s: StreamModel) -> SpecRead<(u32, Seq<char>, u32, Timestamp, Timestamp, u32, u32, u32, u32, u32)> {
    match spec_u32(s) {
        Some((format_version, s1)) => 
        match spec_str_opt(spec_short_u16_string(s1)) {
            Some((id, s2)) => 
            match spec_u32(s2) {
                Some((file_revision, s3)) => 
                match spec_ts_opt(s3) {
                    Some((created_time, s4)) => 
                    match spec_ts_opt(s4) {
                        Some((modified_time, s5)) => 
                        match spec_u32(s5) {
                            Some((width, s6)) => 
                            match spec_u32(s6) {
                                Some((height, s7)) => 
                                match spec_u32(s7) {
                                    Some((page_horizontal_padding, s8)) => 
                                    match spec_u32(s8) {
                                        Some((page_vertical_padding, s9)) => 
                                        match spec_u32(s9) {
                                            Some((min_format_version, s10)) => Some(((format_version, id, file_revision, created_time, modified_time, width, height, page_horizontal_padding, page_vertical_padding, min_format_version), s10)),
                                            None => None,
                                        },
                                        None => None,
                                    },
                                    None => None,
                                },
                                None => None,
                            },
                            None => None,
                        },
                        None => None,
                    },
                    None => None,
                },
                None => None,
            },
            None => None,
        },
        None => None,
    }
}

#[verifier::rlimit(30)]
fn read_note_fixed(r: &mut ByteStream) -> (res: Result<(u32, String, u32, Timestamp, Timestamp, u32, u32, u32, u32, u32), NoteDocParseError>)
    ensures
        match spec_note_fixed(old(r)@) {
            Some((m, s2)) => res matches Ok(v) && v.0 == m.0
                && v.1@ == m.1
                && v.2 == m.2
                && v.3 == m.3
                && v.4 == m.4
                && v.5 == m.5
                && v.6 == m.6
                && v.7 == m.7
                && v.8 == m.8
                && v.9 == m.9
                && final(r)@ == s2,
            None => res is Err,
        },
        final(r)@.same_frame(old(r)@),
{
    reveal(spec_note_fixed);
    let format_version: u32 = match r.read_u32_le() {
            Ok(v) => v,
            Err(e) => return Err(NoteDocParseError::Io(e)),
        };
    let id: String = match r.read_short_u16_string() {
            Ok(v) => v,
            Err(e) => return Err(NoteDocParseError::String(e)),
        };
    let file_revision: u32 = match r.read_u32_le() {
            Ok(v) => v,
            Err(e) => return Err(NoteDocParseError::Io(e)),
        };
    let created_time: Timestamp = match r.read_timestamp() {
            Ok(v) => v,
            Err(e) => return Err(NoteDocParseError::Timestamp(e)),
        };
    let modified_time: Timestamp = match r.read_timestamp() {
            Ok(v) => v,
            Err(e) => return Err(NoteDocParseError::Timestamp(e)),
        };
    let width: u32 = match r.read_u32_le() {
            Ok(v) => v,
            Err(e) => return Err(NoteDocParseError::Io(e)),
        };
    let height: u32 = match r.read_u32_le() {
            Ok(v) => v,
            Err(e) => return Err(NoteDocParseError::Io(e)),
        };
    let page_horizontal_padding: u32 = match r.read_u32_le() {
            Ok(v) => v,
            Err(e) => return Err(NoteDocParseError::Io(e)),
        };
    let page_vertical_padding: u32 = match r.read_u32_le() {
            Ok(v) => v,
            Err(e) => return Err(NoteDocParseError::Io(e)),
        };
    let min_format_version: u32 = match r.read_u32_le() {
            Ok(v) => v,
            Err(e) => return Err(NoteDocParseError::Io(e)),
        };
    Ok((format_version, id, file_revision, created_time, modified_time, width, height, page_horizontal_padding, page_vertical_padding, min_format_version))
}

fn read_note_opt1_app_name(r: &mut ByteStream, present: bool) -> (res: Result<Option<String>, NoteDocParseError>)
    ensures
        match spec_opt(present, spec_str_opt(spec_short_u16_string(old(r)@)), old(r)@) {
            Some((m, s2)) => res matches Ok(v) && opt_view(v) == m && final(r)@ == s2,
            None => res is Err,
        },
        final(r)@.same_frame(old(r)@),
{
    if present {
        Ok(Some(match r.read_short_u16_string() {
            Ok(v) => v,
            Err(e) => return Err(NoteDocParseError::String(e)),
        }))
    } else {
        Ok(None)
    }
}

fn read_note_opt1_app_version(r: &mut ByteStream, present: bool) -> (res: Result<Option<AppVersion>, NoteDocParseError>)
    ensures
        match spec_opt(present, res_opt(spec_app_version(old(r)@)), old(r)@) {
            Some((m, s2)) => res matches Ok(v) && opt_view(v) == m && final(r)@ == s2,
            None => res is Err,
        },
        final(r)@.same_frame(old(r)@),
{
    if present {
        Ok(Some(match AppVersion::try_parse(r) {
            Ok(v) => v,
            Err(e) => return Err(NoteDocParseError::AppVersion(e)),
        }))
    } else {
        Ok(None)
    }
}

fn read_note_opt1_author_info(r: &mut ByteStream, present: bool) -> (res: Result<Option<AuthorInfo>, NoteDocParseError>)
    ensures
        match spec_opt(present, res_opt(spec_author_info(old(r)@)), old(r)@) {
            Some((m, s2)) => res matches Ok(v) && opt_view(v) == m && final(r)@ == s2,
            None => res is Err,
        },
        final(r)@.same_frame(old(r)@),
{
    if present {
        Ok(Some(match AuthorInfo::try_parse(r) {
            Ok(v) => v,
            Err(e) => return Err(NoteDocParseError::AuthorInfo(e)),
        }))
    } else {
        Ok(None)
    }
}

fn read_note_opt1_latitude_longitude(r: &mut ByteStream, present: bool) -> (res: Result<Option<(RawF64, RawF64)>, NoteDocParseError>)
    ensures
        match spec_opt(present, spec_f64_pair(old(r)@), old(r)@) {
            Some((m, s2)) => res matches Ok(v) && v == m && final(r)@ == s2,
            None => res is Err,
        },
        final(r)@.same_frame(old(r)@),
{
    if present {
        Ok(Some(match read_f64_pair(r) {
            Ok(v) => v,
            Err(e) => return Err(NoteDocParseError::Io(e)),
        }))
    } else {
        Ok(None)
    }
}

fn read_note_opt1_template_uri(r: &mut ByteStream, present: bool) -> (res: Result<Option<String>, NoteDocParseError>)
    ensures
        match spec_opt(present, spec_str_opt(spec_short_u16_string(old(r)@)), old(r)@) {
            Some((m, s2)) => res matches Ok(v) && opt_view(v) == m && final(r)@ == s2,
            None => res is Err,
        },
        final(r)@.same_frame(old(r)@),
{
    if present {
        Ok(Some(match r.read_short_u16_string() {
            Ok(v) => v,
            Err(e) => return Err(NoteDocParseError::String(e)),
        }))
    } else {
        Ok(None)
    }
}

fn read_note_opt1_last_edited_page_index(r: &mut ByteStream, present: bool) -> (res: Result<Option<u32>, NoteDocParseError>)
    ensures
        match spec_opt(present, spec_u32(old(r)@), old(r)@) {
            Some((m, s2)) => res matches Ok(v) && v == m && final(r)@ == s2,
            None => res is Err,
        },
        final(r)@.same_frame(old(r)@),
{
    if present {
        Ok(Some(match r.read_u32_le() {
            Ok(v) => v,
            Err(e) => return Err(NoteDocParseError::Io(e)),
        }))
    } else {
        Ok(None)
    }
}

fn read_note_opt1_last_edited_page_image_id(r: &mut ByteStream, present: bool) -> (res: Result<Option<i32>, NoteDocParseError>)
    ensures
        match spec_opt(present, spec_i32(old(r)@), old(r)@) {
            Some((m, s2)) => res matches Ok(v) && v == m && final(r)@ == s2,
            None => res is Err,
        },
        final(r)@.same_frame(old(r)@),
{
    if present {
        Ok(Some(match r.read_i32_le() {
            Ok(v) => v,
            Err(e) => return Err(NoteDocParseError::Io(e)),
        }))
    } else {
        Ok(None)
    }
}

fn read_note_opt1_last_edited_page_time(r: &mut ByteStream, present: bool) -> (res: Result<Option<Timestamp>, NoteDocParseError>)
    ensures
        match spec_opt(present, spec_ts_opt(old(r)@), old(r)@) {
            Some((m, s2)) => res matches Ok(v) && v == m && final(r)@ == s2,
            None => res is Err,
        },
        final(r)@.same_frame(old(r)@),
{
    if present {
        Ok(Some(match r.read_timestamp() {
            Ok(v) => v,
            Err(e) => return Err(NoteDocParseError::Timestamp(e)),
        }))
    } else {
        Ok(None)
    }
}

fn read_note_opt1_string_registry(r: &mut ByteStream, present: bool) -> (res: Result<StringRegistry, NoteDocParseError>)
    ensures
        match spec_opt_or(present, spec_string_registry(old(r)@), old(r)@, Map::empty()) {
            Some((m, s2)) => res matches Ok(v) && v@ == m && final(r)@ == s2,
            None => res is Err,
        },
        final(r)@.same_frame(old(r)@),
{
    if present {
        Ok(match StringRegistry::try_parse(r) {
            Ok(v) => v,
            Err(e) => return Err(NoteDocParseError::StringRegistry(e)),
        })
    } else {
        Ok(StringRegistry::new())
    }
}

fn read_note_opt1_body_text_font_size_delta(r: &mut ByteStream, present: bool) -> (res: Result<Option<i32>, NoteDocParseError>)
    ensures
        match spec_opt(present, spec_i32(old(r)@), old(r)@) {
            Some((m, s2)) => res matches Ok(v) && v == m && final(r)@ == s2,
            None => res is Err,
        },
        final(r)@.same_frame(old(r)@),
{
    if present {
        Ok(Some(match r.read_i32_le() {
            Ok(v) => v,
            Err(e) => return Err(NoteDocParseError::Io(e)),
        }))
    } else {
        Ok(None)
    }
}

fn read_note_opt1_compatible_last_pen_info(r: &mut ByteStream, present: bool) -> (res: Result<Option<PenInfo>, NoteDocParseError>)
    ensures
        match spec_opt(present, res_opt(spec_pen_info_simple(old(r)@)), old(r)@) {
            Some((m, s2)) => res matches Ok(v) && opt_view(v) == m && final(r)@ == s2,
            None => res is Err,
        },
        final(r)@.same_frame(old(r)@),
{
    if present {
        Ok(Some(match PenInfo::try_parse_simple(r) {
            Ok(v) => v,
            Err(e) => return Err(NoteDocParseError::PenInfo(e)),
        }))
    } else {
        Ok(None)
    }
}

/// The optional fields of a note document for bits 0 to 12 of the field bits `fb` (bit 9 holds two fields).
#[verifier::opaque]
pub open spec fn spec_note_opt1(s: StreamModel, fb: u32) -> SpecRead<(Option<Seq<char>>, Option<AppVersionModel>, Option<AuthorInfoModel>, Option<(RawF64, RawF64)>, Option<Seq<char>>, Option<u32>, Option<i32>, Option<Timestamp>, Map<u32, Seq<char>>, Option<i32>, Option<PenInfoModel>)> {
    match spec_opt(bit_is_set(fb, 0), spec_str_opt(spec_short_u16_string(s)), s) {
        Some((app_name, s1)) => 
        match spec_opt(bit_is_set(fb, 1), res_opt(spec_app_version(s1)), s1) {
            Some((app_version, s2)) => 
            match spec_opt(bit_is_set(fb, 2), res_opt(spec_author_info(s2)), s2) {
                Some((author_info, s3)) => 
                match spec_opt(bit_is_set(fb, 3), spec_f64_pair(s3), s3) {
                    Some((latitude_longitude, s4)) => 
                    match spec_opt(bit_is_set(fb, 6), spec_str_opt(spec_short_u16_string(s4)), s4) {
                        Some((template_uri, s5)) => 
                        match spec_opt(bit_is_set(fb, 7), spec_u32(s5), s5) {
                            Some((last_edited_page_index, s6)) => 
                            match spec_opt(bit_is_set(fb, 9), spec_i32(s6), s6) {
                                Some((last_edited_page_image_id, s7)) => 
                                match spec_opt(bit_is_set(fb, 9), spec_ts_opt(s7), s7) {
                                    Some((last_edited_page_time, s8)) => 
                                    match spec_opt_or(bit_is_set(fb, 10), spec_string_registry(s8), s8, Map::empty()) {
                                        Some((string_registry, s9)) => 
                                        match spec_opt(bit_is_set(fb, 11), spec_i32(s9), s9) {
                                            Some((body_text_font_size_delta, s10)) => 
                                            match spec_opt(bit_is_set(fb, 12), res_opt(spec_pen_info_simple(s10)), s10) {
                                                Some((compatible_last_pen_info, s11)) => Some(((app_name, app_version, author_info, latitude_longitude, template_uri, last_edited_page_index, last_edited_page_image_id, last_edited_page_time, string_registry, body_text_font_size_delta, compatible_last_pen_info), s11)),
                                                None => None,
                                            },
                                            None => None,
                                        },
                                        None => None,
                                    },
                                    None => None,
                                },
                                None => None,
                            },
                            None => None,
                        },
                        None => None,
                    },
                    None => None,
                },
                None => None,
            },
            None => None,
        },
        None => None,
    }
}

#[verifier::rlimit(60)]
fn read_note_opt1(r: &mut ByteStream, flags: &mut CheckedBitfield) -> (res: Result<(Option<String>, Option<AppVersion>, Option<AuthorInfo>, Option<(RawF64, RawF64)>, Option<String>, Option<u32>, Option<i32>, Option<Timestamp>, StringRegistry, Option<i32>, Option<PenInfo>), NoteDocParseError>)
    ensures
        match spec_note_opt1(old(r)@, old(flags).bits()) {
            Some((m, s2)) => res matches Ok(v) && opt_view(v.0) == m.0
                && opt_view(v.1) == m.1
                && opt_view(v.2) == m.2
                && v.3 == m.3
                && opt_view(v.4) == m.4
                && v.5 == m.5
                && v.6 == m.6
                && v.7 == m.7
                && v.8@ == m.8
                && v.9 == m.9
                && opt_view(v.10) == m.10
                && final(flags).bits() == old(flags).bits()
                && final(flags).checked() == old(flags).checked() | 0x1ecf
                && final(r)@ == s2,
            None => res is Err,
        },
        final(r)@.same_frame(old(r)@),
{
    reveal(spec_note_opt1);
    let ghost c0 = flags.checked();
    let present_app_name: bool = flags.check_bit(0);
    let ghost c1 = flags.checked();
    let app_name: Option<String> = read_note_opt1_app_name(r, present_app_name)?;
    let present_app_version: bool = flags.check_bit(1);
    let ghost c2 = flags.checked();
    let app_version: Option<AppVersion> = read_note_opt1_app_version(r, present_app_version)?;
    let present_author_info: bool = flags.check_bit(2);
    let ghost c3 = flags.checked();
    let author_info: Option<AuthorInfo> = read_note_opt1_author_info(r, present_author_info)?;
    let present_latitude_longitude: bool = flags.check_bit(3);
    let ghost c4 = flags.checked();
    let latitude_longitude: Option<(RawF64, RawF64)> = read_note_opt1_latitude_longitude(r, present_latitude_longitude)?;
    let present_template_uri: bool = flags.check_bit(6);
    let ghost c5 = flags.checked();
    let template_uri: Option<String> = read_note_opt1_template_uri(r, present_template_uri)?;
    let present_last_edited_page_index: bool = flags.check_bit(7);
    let ghost c6 = flags.checked();
    let last_edited_page_index: Option<u32> = read_note_opt1_last_edited_page_index(r, present_last_edited_page_index)?;
    let present_last_edited_page_image_id: bool = flags.check_bit(9);
    let ghost c7 = flags.checked();
    let last_edited_page_image_id: Option<i32> = read_note_opt1_last_edited_page_image_id(r, present_last_edited_page_image_id)?;
    let present_last_edited_page_time: bool = flags.check_bit(9);
    let ghost c8 = flags.checked();
    let last_edited_page_time: Option<Timestamp> = read_note_opt1_last_edited_page_time(r, present_last_edited_page_time)?;
    let present_string_registry: bool = flags.check_bit(10);
    let ghost c9 = flags.checked();
    let string_registry: StringRegistry = read_note_opt1_string_registry(r, present_string_registry)?;
    let present_body_text_font_size_delta: bool = flags.check_bit(11);
    let ghost c10 = flags.checked();
    let body_text_font_size_delta: Option<i32> = read_note_opt1_body_text_font_size_delta(r, present_body_text_font_size_delta)?;
    let present_compatible_last_pen_info: bool = flags.check_bit(12);
    let ghost c11 = flags.checked();
    let compatible_last_pen_info: Option<PenInfo> = read_note_opt1_compatible_last_pen_info(r, present_compatible_last_pen_info)?;
    proof {
        crate::bits::lemma_or_assoc(c0, crate::bits::bit_mask(0u8), crate::bits::bit_mask(1u8));
        crate::bits::lemma_or_assoc(c0, crate::bits::bit_mask(0u8) | crate::bits::bit_mask(1u8), crate::bits::bit_mask(2u8));
        crate::bits::lemma_or_assoc(c0, crate::bits::bit_mask(0u8) | crate::bits::bit_mask(1u8) | crate::bits::bit_mask(2u8), crate::bits::bit_mask(3u8));
        crate::bits::lemma_or_assoc(c0, crate::bits::bit_mask(0u8) | crate::bits::bit_mask(1u8) | crate::bits::bit_mask(2u8) | crate::bits::bit_mask(3u8), crate::bits::bit_mask(6u8));
        crate::bits::lemma_or_assoc(c0, crate::bits::bit_mask(0u8) | crate::bits::bit_mask(1u8) | crate::bits::bit_mask(2u8) | crate::bits::bit_mask(3u8) | crate::bits::bit_mask(6u8), crate::bits::bit_mask(7u8));
        crate::bits::lemma_or_assoc(c0, crate::bits::bit_mask(0u8) | crate::bits::bit_mask(1u8) | crate::bits::bit_mask(2u8) | crate::bits::bit_mask(3u8) | crate::bits::bit_mask(6u8) | crate::bits::bit_mask(7u8), crate::bits::bit_mask(9u8));
        crate::bits::lemma_or_assoc(c0, crate::bits::bit_mask(0u8) | crate::bits::bit_mask(1u8) | crate::bits::bit_mask(2u8) | crate::bits::bit_mask(3u8) | crate::bits::bit_mask(6u8) | crate::bits::bit_mask(7u8) | crate::bits::bit_mask(9u8), crate::bits::bit_mask(9u8));
        crate::bits::lemma_or_assoc(c0, crate::bits::bit_mask(0u8) | crate::bits::bit_mask(1u8) | crate::bits::bit_mask(2u8) | crate::bits::bit_mask(3u8) | crate::bits::bit_mask(6u8) | crate::bits::bit_mask(7u8) | crate::bits::bit_mask(9u8) | crate::bits::bit_mask(9u8), crate::bits::bit_mask(10u8));
        crate::bits::lemma_or_assoc(c0, crate::bits::bit_mask(0u8) | crate::bits::bit_mask(1u8) | crate::bits::bit_mask(2u8) | crate::bits::bit_mask(3u8) | crate::bits::bit_mask(6u8) | crate::bits::bit_mask(7u8) | crate::bits::bit_mask(9u8) | crate::bits::bit_mask(9u8) | crate::bits::bit_mask(10u8), crate::bits::bit_mask(11u8));
        crate::bits::lemma_or_assoc(c0, crate::bits::bit_mask(0u8) | crate::bits::bit_mask(1u8) | crate::bits::bit_mask(2u8) | crate::bits::bit_mask(3u8) | crate::bits::bit_mask(6u8) | crate::bits::bit_mask(7u8) | crate::bits::bit_mask(9u8) | crate::bits::bit_mask(9u8) | crate::bits::bit_mask(10u8) | crate::bits::bit_mask(11u8), crate::bits::bit_mask(12u8));
        crate::bits::lemma_chunk_masks();
        assert(c11 == c0 | 0x1ecfu32);
    }
    Ok((app_name, app_version, author_info, latitude_longitude, template_uri, last_edited_page_index, last_edited_page_image_id, last_edited_page_time, string_registry, body_text_font_size_delta, compatible_last_pen_info))
}

fn read_note_opt2_last_pen_info(r: &mut ByteStream, present: bool) -> (res: Result<Option<PenInfo>, NoteDocParseError>)
    ensures
        match spec_opt(present, res_opt(spec_pen_info_full(old(r)@)), old(r)@) {
            Some((m, s2)) => res matches Ok(v) && opt_view(v) == m && final(r)@ == s2,
            None => res is Err,
        },
        final(r)@.same_frame(old(r)@),
{
    if present {
        Ok(Some(match PenInfo::try_parse_full(r) {
            Ok(v) => v,
            Err(e) => return Err(NoteDocParseError::PenInfo(e)),
        }))
    } else {
        Ok(None)
    }
}

fn read_note_opt2_server_check_point(r: &mut ByteStream, present: bool) -> (res: Result<Option<i64>, NoteDocParseError>)
    ensures
        match spec_opt(present, spec_i64(old(r)@), old(r)@) {
            Some((m, s2)) => res matches Ok(v) && v == m && final(r)@ == s2,
            None => res is Err,
        },
        final(r)@.same_frame(old(r)@),
{
    if present {
        Ok(Some(match r.read_i64_le() {
            Ok(v) => v,
            Err(e) => return Err(NoteDocParseError::Io(e)),
        }))
    } else {
        Ok(None)
    }
}

fn read_note_opt2_fixed_font(r: &mut ByteStream, present: bool) -> (res: Result<Option<String>, NoteDocParseError>)
    ensures
        match spec_opt(present, spec_str_opt(spec_short_u16_string(old(r)@)), old(r)@) {
            Some((m, s2)) => res matches Ok(v) && opt_view(v) == m && final(r)@ == s2,
            None => res is Err,
        },
        final(r)@.same_frame(old(r)@),
{
    if present {
        Ok(Some(match r.read_short_u16_string() {
            Ok(v) => v,
            Err(e) => return Err(NoteDocParseError::String(e)),
        }))
    } else {
        Ok(None)
    }
}

fn read_note_opt2_fixed_text_direction(r: &mut ByteStream, present: bool) -> (res: Result<Option<TextDirection>, NoteDocParseError>)
    ensures
        match spec_opt(present, spec_then(spec_u32(old(r)@), |v: u32| spec_text_direction(v)), old(r)@) {
            Some((m, s2)) => res matches Ok(v) && v == m && final(r)@ == s2,
            None => res is Err,
        },
        final(r)@.same_frame(old(r)@),
{
    if present {
        Ok(Some({
            let raw = match r.read_u32_le() {
            Ok(v) => v,
            Err(e) => return Err(NoteDocParseError::Io(e)),
        };
            match TextDirection::try_from_u32(raw) {
                Ok(v) => v,
                Err(e) => return Err(NoteDocParseError::TextDirection(e)),
            }
        }))
    } else {
        Ok(None)
    }
}

fn read_note_opt2_fixed_background_theme(r: &mut ByteStream, present: bool) -> (res: Result<Option<BackgroundTheme>, NoteDocParseError>)
    ensures
        match spec_opt(present, spec_then(spec_u32(old(r)@), |v: u32| spec_background_theme(v)), old(r)@) {
            Some((m, s2)) => res matches Ok(v) && v == m && final(r)@ == s2,
            None => res is Err,
        },
        final(r)@.same_frame(old(r)@),
{
    if present {
        Ok(Some({
            let raw = match r.read_u32_le() {
            Ok(v) => v,
            Err(e) => return Err(NoteDocParseError::Io(e)),
        };
            match BackgroundTheme::try_from_u32(raw) {
                Ok(v) => v,
                Err(e) => return Err(NoteDocParseError::BackgroundTheme(e)),
            }
        }))
    } else {
        Ok(None)
    }
}

fn read_note_opt2_text_summarisation(r: &mut ByteStream, present: bool) -> (res: Result<Option<String>, NoteDocParseError>)
    ensures
        match spec_opt(present, spec_str_opt(spec_short_u16_string(old(r)@)), old(r)@) {
            Some((m, s2)) => res matches Ok(v) && opt_view(v) == m && final(r)@ == s2,
            None => res is Err,
        },
        final(r)@.same_frame(old(r)@),
{
    if present {
        Ok(Some(match r.read_short_u16_string() {
            Ok(v) => v,
            Err(e) => return Err(NoteDocParseError::String(e)),
        }))
    } else {
        Ok(None)
    }
}

fn read_note_opt2_stroke_group_size(r: &mut ByteStream, present: bool) -> (res: Result<Option<u32>, NoteDocParseError>)
    ensures
        match spec_opt(present, spec_u32(old(r)@), old(r)@) {
            Some((m, s2)) => res matches Ok(v) && v == m && final(r)@ == s2,
            None => res is Err,
        },
        final(r)@.same_frame(old(r)@),
{
    if present {
        Ok(Some(match r.read_u32_le() {
            Ok(v) => v,
            Err(e) => return Err(NoteDocParseError::Io(e)),
        }))
    } else {
        Ok(None)
    }
}

fn read_note_opt2_app_custom_data(r: &mut ByteStream, present: bool) -> (res: Result<Option<String>, NoteDocParseError>)
    ensures
        match spec_opt(present, spec_str_opt(spec_long_u16_string(old(r)@)), old(r)@) {
            Some((m, s2)) => res matches Ok(v) && opt_view(v) == m && final(r)@ == s2,
            None => res is Err,
        },
        final(r)@.same_frame(old(r)@),
{
    if present {
        Ok(Some(match r.read_long_u16_string() {
            Ok(v) => v,
            Err(e) => return Err(NoteDocParseError::String(e)),
        }))
    } else {
        Ok(None)
    }
}

/// The optional fields of a note document for bits 15 to 22 of the field bits `fb`.
#[verifier::opaque]
pub open spec fn spec_note_opt2(s: StreamModel, fb: u32) -> SpecRead<(Option<PenInfoModel>, Option<i64>, Option<Seq<char>>, Option<TextDirection>, Option<BackgroundTheme>, Option<Seq<char>>, Option<u32>, Option<Seq<char>>)> {
    match spec_opt(bit_is_set(fb, 15), res_opt(spec_pen_info_full(s)), s) {
        Some((last_pen_info, s1)) => 
        match spec_opt(bit_is_set(fb, 16), spec_i64(s1), s1) {
            Some((server_check_point, s2)) => 
            match spec_opt(bit_is_set(fb, 17), spec_str_opt(spec_short_u16_string(s2)), s2) {
                Some((fixed_font, s3)) => 
                match spec_opt(bit_is_set(fb, 18), spec_then(spec_u32(s3), |v: u32| spec_text_direction(v)), s3) {
                    Some((fixed_text_direction, s4)) => 
                    match spec_opt(bit_is_set(fb, 19), spec_then(spec_u32(s4), |v: u32| spec_background_theme(v)), s4) {
                        Some((fixed_background_theme, s5)) => 
                        match spec_opt(bit_is_set(fb, 20), spec_str_opt(spec_short_u16_string(s5)), s5) {
                            Some((text_summarisation, s6)) => 
                            match spec_opt(bit_is_set(fb, 21), spec_u32(s6), s6) {
                                Some((stroke_group_size, s7)) => 
                                match spec_opt(bit_is_set(fb, 22), spec_str_opt(spec_long_u16_string(s7)), s7) {
                                    Some((app_custom_data, s8)) => Some(((last_pen_info, server_check_point, fixed_font, fixed_text_direction, fixed_background_theme, text_summarisation, stroke_group_size, app_custom_data), s8)),
                                    None => None,
                                },
                                None => None,
                            },
                            None => None,
                        },
                        None => None,
                    },
                    None => None,
                },
                None => None,
            },
            None => None,
        },
        None => None,
    }
}

#[verifier::rlimit(60)]
fn read_note_opt2(r: &mut ByteStream, flags: &mut CheckedBitfield) -> (res: Result<(Option<PenInfo>, Option<i64>, Option<String>, Option<TextDirection>, Option<BackgroundTheme>, Option<String>, Option<u32>, Option<String>), NoteDocParseError>)
    ensures
        match spec_note_opt2(old(r)@, old(flags).bits()) {
            Some((m, s2)) => res matches Ok(v) && opt_view(v.0) == m.0
                && v.1 == m.1
                && opt_view(v.2) == m.2
                && v.3 == m.3
                && v.4 == m.4
                && opt_view(v.5) == m.5
                && v.6 == m.6
                && opt_view(v.7) == m.7
                && final(flags).bits() == old(flags).bits()
                && final(flags).checked() == old(flags).checked() | 0x7f8000
                && final(r)@ == s2,
            None => res is Err,
        },
        final(r)@.same_frame(old(r)@),
{
    reveal(spec_note_opt2);
    let ghost c0 = flags.checked();
    let present_last_pen_info: bool = flags.check_bit(15);
    let ghost c1 = flags.checked();
    let last_pen_info: Option<PenInfo> = read_note_opt2_last_pen_info(r, present_last_pen_info)?;
    let present_server_check_point: bool = flags.check_bit(16);
    let ghost c2 = flags.checked();
    let server_check_point: Option<i64> = read_note_opt2_server_check_point(r, present_server_check_point)?;
    let present_fixed_font: bool = flags.check_bit(17);
    let ghost c3 = flags.checked();
    let fixed_font: Option<String> = read_note_opt2_fixed_font(r, present_fixed_font)?;
    let present_fixed_text_direction: bool = flags.check_bit(18);
    let ghost c4 = flags.checked();
    let fixed_text_direction: Option<TextDirection> = read_note_opt2_fixed_text_direction(r, present_fixed_text_direction)?;
    let present_fixed_background_theme: bool = flags.check_bit(19);
    let ghost c5 = flags.checked();
    let fixed_background_theme: Option<BackgroundTheme> = read_note_opt2_fixed_background_theme(r, present_fixed_background_theme)?;
    let present_text_summarisation: bool = flags.check_bit(20);
    let ghost c6 = flags.checked();
    let text_summarisation: Option<String> = read_note_opt2_text_summarisation(r, present_text_summarisation)?;
    let present_stroke_group_size: bool = flags.check_bit(21);
    let ghost c7 = flags.checked();
    let stroke_group_size: Option<u32> = read_note_opt2_stroke_group_size(r, present_stroke_group_size)?;
    let present_app_custom_data: bool = flags.check_bit(22);
    let ghost c8 = flags.checked();
    let app_custom_data: Option<String> = read_note_opt2_app_custom_data(r, present_app_custom_data)?;
    proof {
        crate::bits::lemma_or_assoc(c0, crate::bits::bit_mask(15u8), crate::bits::bit_mask(16u8));
        crate::bits::lemma_or_assoc(c0, crate::bits::bit_mask(15u8) | crate::bits::bit_mask(16u8), crate::bits::bit_mask(17u8));
        crate::bits::lemma_or_assoc(c0, crate::bits::bit_mask(15u8) | crate::bits::bit_mask(16u8) | crate::bits::bit_mask(17u8), crate::bits::bit_mask(18u8));
        crate::bits::lemma_or_assoc(c0, crate::bits::bit_mask(15u8) | crate::bits::bit_mask(16u8) | crate::bits::bit_mask(17u8) | crate::bits::bit_mask(18u8), crate::bits::bit_mask(19u8));
        crate::bits::lemma_or_assoc(c0, crate::bits::bit_mask(15u8) | crate::bits::bit_mask(16u8) | crate::bits::bit_mask(17u8) | crate::bits::bit_mask(18u8) | crate::bits::bit_mask(19u8), crate::bits::bit_mask(20u8));
        crate::bits::lemma_or_assoc(c0, crate::bits::bit_mask(15u8) | crate::bits::bit_mask(16u8) | crate::bits::bit_mask(17u8) | crate::bits::bit_mask(18u8) | crate::bits::bit_mask(19u8) | crate::bits::bit_mask(20u8), crate::bits::bit_mask(21u8));
        crate::bits::lemma_or_assoc(c0, crate::bits::bit_mask(15u8) | crate::bits::bit_mask(16u8) | crate::bits::bit_mask(17u8) | crate::bits::bit_mask(18u8) | crate::bits::bit_mask(19u8) | crate::bits::bit_mask(20u8) | crate::bits::bit_mask(21u8), crate::bits::bit_mask(22u8));
        crate::bits::lemma_chunk_masks();
        assert(c8 == c0 | 0x7f8000u32);
    }
    Ok((last_pen_info, server_check_point, fixed_font, fixed_text_direction, fixed_background_theme, text_summarisation, stroke_group_size, app_custom_data))
}


// ---------------------------------------------------------------------------------------------
// The note document
// ---------------------------------------------------------------------------------------------

/// The value of a read that reports its error, or `None` if it fails.
pub open spec fn res_opt<T, E>(r: Result<(T, StreamModel), E>) -> SpecRead<T> {
    match r {
        Ok((v, s1)) => Some((v, s1)),
        Err(_) => None,
    }
}

/// Two `f64`s.
pub open spec fn spec_f64_pair(s: StreamModel) -> SpecRead<(RawF64, RawF64)> {
    match spec_f64(s) {
        Some((a, s1)) => match spec_f64(s1) {
            Some((b, s2)) => Some(((a, b), s2)),
            None => None,
        },
        None => None,
    }
}

fn read_f64_pair(r: &mut ByteStream) -> (res: Result<(RawF64, RawF64), IoError>)
    ensures
        match spec_f64_pair(old(r)@) {
            Some((m, s2)) => res == Ok::<(RawF64, RawF64), IoError>(m) && final(r)@ == s2,
            None => res is Err,
        },
        final(r)@.same_frame(old(r)@),
{
    let a: RawF64 = r.read_f64_le()?;
    let b: RawF64 = r.read_f64_le()?;
    Ok((a, b))
}

/// Failure to read the note document.
#[derive(Debug)]
pub enum NoteDocParseError {
    Io(IoError),
    String(ReadStringError),
    Timestamp(ReadTimestampError),
    Text(TextParseError),
    AppVersion(AppVersionParseError),
    AuthorInfo(AuthorInfoParseError),
    StringRegistry(StringRegistryParseError),
    PenInfo(PenInfoParseError),
    VoiceRecording(VoiceRecordingParseError),
    NoSuchFile(NoSuchRegisteredFileError),
    TextDirection(InvalidTextDirectionError),
    BackgroundTheme(InvalidBackgroundThemeError),
    /// The property flags could not be read.
    PropertyFlags(ReadBitfieldError),
    /// One or more property flags were not handled.
    UnhandledProperty(UnhandledBitsError),
    /// The field flags could not be read.
    FieldFlags(ReadBitfieldError),
    /// One or more field flags were not handled.
    UnhandledField(UnhandledBitsError),
    /// Bytes were left over after reading a text.
    TextObject(UnfinishedParsingError),
    /// A size does not fit in `usize`.
    UsizeTooSmall(u32),
    /// The hash stored after the document is not the SHA-256 digest of the document's bytes.
    HashMismatch,
}

/// The note document of a document (`note.note`): its settings, title and body, and the
/// strings that objects refer to.
#[derive(Debug)]
pub struct NoteDoc {
    pub is_background_colour_inverted: bool,
    pub format_version: u32,
    pub id: String,
    pub file_revision: u32,
    pub created_time: Timestamp,
    pub modified_time: Timestamp,
    pub width: u32,
    pub height: u32,
    pub page_horizontal_padding: u32,
    pub page_vertical_padding: u32,
    pub min_format_version: u32,
    pub title_text: Text,
    pub body_text: Text,
    pub app_name: Option<String>,
    pub app_version: Option<AppVersion>,
    pub author_info: Option<AuthorInfo>,
    pub latitude_longitude: Option<(RawF64, RawF64)>,
    pub template_uri: Option<String>,
    pub last_edited_page_index: Option<u32>,
    pub last_edited_page_image_id: Option<i32>,
    pub last_edited_page_time: Option<Timestamp>,
    pub body_text_font_size_delta: Option<i32>,
    pub compatible_last_pen_info: Option<PenInfo>,
    pub voice_data: Option<Vec<VoiceRecording>>,
    /// Attached files by name; where a name occurs twice, the later file counts.
    pub attached_files: Option<Vec<(String, Rc<BoundFile>)>>,
    pub last_pen_info: Option<PenInfo>,
    pub server_check_point: Option<i64>,
    pub fixed_font: Option<String>,
    pub fixed_text_direction: Option<TextDirection>,
    pub fixed_background_theme: Option<BackgroundTheme>,
    pub text_summarisation: Option<String>,
    pub stroke_group_size: Option<u32>,
    pub app_custom_data: Option<String>,
    pub string_registry: StringRegistry,
    pub hash: [u8; 32],
}

pub struct NoteDocModel {
    pub is_background_colour_inverted: bool,
    pub format_version: u32,
    pub id: Seq<char>,
    pub file_revision: u32,
    pub created_time: Timestamp,
    pub modified_time: Timestamp,
    pub width: u32,
    pub height: u32,
    pub page_horizontal_padding: u32,
    pub page_vertical_padding: u32,
    pub min_format_version: u32,
    pub title_text: TextModel,
    pub body_text: TextModel,
    pub app_name: Option<Seq<char>>,
    pub app_version: Option<AppVersionModel>,
    pub author_info: Option<AuthorInfoModel>,
    pub latitude_longitude: Option<(RawF64, RawF64)>,
    pub template_uri: Option<Seq<char>>,
    pub last_edited_page_index: Option<u32>,
    pub last_edited_page_image_id: Option<i32>,
    pub last_edited_page_time: Option<Timestamp>,
    pub body_text_font_size_delta: Option<i32>,
    pub compatible_last_pen_info: Option<PenInfoModel>,
    pub voice_data: Option<Seq<VoiceRecordingModel>>,
    pub attached_files: Option<Map<Seq<char>, BoundFileModel>>,
    pub last_pen_info: Option<PenInfoModel>,
    pub server_check_point: Option<i64>,
    pub fixed_font: Option<Seq<char>>,
    pub fixed_text_direction: Option<TextDirection>,
    pub fixed_background_theme: Option<BackgroundTheme>,
    pub text_summarisation: Option<Seq<char>>,
    pub stroke_group_size: Option<u32>,
    pub app_custom_data: Option<Seq<char>>,
    pub string_registry: Map<u32, Seq<char>>,
    pub hash: Seq<u8>,
}

/// The map that a list of named files makes.
pub open spec fn named_files_view(v: Seq<(String, Rc<BoundFile>)>) -> Map<Seq<char>, BoundFileModel> {
    pairs_to_map(Seq::new(v.len(), |i: int| (v[i].0@, v[i].1@)))
}

impl View for NoteDoc {
    type V = NoteDocModel;

    open spec fn view(&self) -> NoteDocModel {
        NoteDocModel {
            is_background_colour_inverted: self.is_background_colour_inverted,
            format_version: self.format_version,
            id: self.id@,
            file_revision: self.file_revision,
            created_time: self.created_time,
            modified_time: self.modified_time,
            width: self.width,
            height: self.height,
            page_horizontal_padding: self.page_horizontal_padding,
            page_vertical_padding: self.page_vertical_padding,
            min_format_version: self.min_format_version,
            title_text: text_model(&self.title_text, NESTING_LIMIT as nat),
            body_text: text_model(&self.body_text, NESTING_LIMIT as nat),
            app_name: opt_view(self.app_name),
            app_version: opt_view(self.app_version),
            author_info: opt_view(self.author_info),
            latitude_longitude: self.latitude_longitude,
            template_uri: opt_view(self.template_uri),
            last_edited_page_index: self.last_edited_page_index,
            last_edited_page_image_id: self.last_edited_page_image_id,
            last_edited_page_time: self.last_edited_page_time,
            body_text_font_size_delta: self.body_text_font_size_delta,
            compatible_last_pen_info: opt_view(self.compatible_last_pen_info),
            voice_data: opt_vec_views(self.voice_data),
            attached_files: match self.attached_files {
                Some(v) => Some(named_files_view(v@)),
                None => None,
            },
            last_pen_info: opt_view(self.last_pen_info),
            server_check_point: self.server_check_point,
            fixed_font: opt_view(self.fixed_font),
            fixed_text_direction: self.fixed_text_direction,
            fixed_background_theme: self.fixed_background_theme,
            text_summarisation: opt_view(self.text_summarisation),
            stroke_group_size: self.stroke_group_size,
            app_custom_data: opt_view(self.app_custom_data),
            string_registry: self.string_registry@,
            hash: self.hash@,
        }
    }
}

/// What the start of the note document holds: whether the background colour is inverted
/// (property bit 3), the field bits, the fixed fields, and the bytes of the title and of the
/// body, which are read as text once the strings are known.
pub struct NoteHeadModel {
    pub inverted: bool,
    pub field_bits: u32,
    pub fixed: (u32, Seq<char>, u32, Timestamp, Timestamp, u32, u32, u32, u32, u32),
    pub title_bytes: Seq<u8>,
    pub body_bytes: Seq<u8>,
}

/// A `u32` size, then that many bytes.
pub open spec fn spec_sized_bytes(s: StreamModel) -> SpecRead<Seq<u8>> {
    match spec_u32(s) {
        Some((n, s1)) => spec_take(s1, n as int),
        None => None,
    }
}

/// The start of the note document: the `u32` offset of its optional fields (from where the
/// document starts), property flags of which only bit 3 may be set, field flags, the fixed
/// fields, the title and the body (each a `u32` size and that many bytes); the stream is then
/// moved to the optional fields.
#[verifier::opaque]
pub open spec fn spec_note_head(s: StreamModel) -> SpecRead<NoteHeadModel> {
    let start = s.pos - s.origin;
    match spec_u32(s) {
        Some((flex_rel, s1)) => match spec_bitfield(s1) {
            Ok((p, s2)) => if p & !8u32 != 0 {
                None
            } else {
                match spec_bitfield(s2) {
                    Ok((ff, s3)) => match spec_note_fixed(s3) {
                        Some((fixed, s4)) => match spec_sized_bytes(s4) {
                            Some((title_bytes, s5)) => match spec_sized_bytes(s5) {
                                Some((body_bytes, s6)) => match spec_seek_flex(s6, start + flex_rel) {
                                    Some(s7) => Some((NoteHeadModel {
                                        inverted: bit_is_set(p, 3),
                                        field_bits: ff,
                                        fixed,
                                        title_bytes,
                                        body_bytes,
                                    }, s7)),
                                    None => None,
                                },
                                None => None,
                            },
                            None => None,
                        },
                        None => None,
                    },
                    Err(_) => None,
                }
            },
            Err(_) => None,
        },
        None => None,
    }
}

pub open spec fn voice_item(files: Map<u32, BoundFileModel>) -> spec_fn(StreamModel) -> SpecRead<VoiceRecordingModel> {
    |t: StreamModel| res_opt(spec_voice_recording(t, files))
}

/// A named file of the note document: a short UTF-16 name and the `u32` id of a file that
/// `files` holds.
pub open spec fn spec_named_file(s: StreamModel, files: Map<u32, BoundFileModel>) -> SpecRead<(Seq<char>, BoundFileModel)> {
    match spec_str_opt(spec_short_u16_string(s)) {
        Some((name, s1)) => match spec_u32(s1) {
            Some((id, s2)) => if files.contains_key(id) {
                Some(((name, files[id]), s2))
            } else {
                None
            },
            None => None,
        },
        None => None,
    }
}

pub open spec fn named_file_item(files: Map<u32, BoundFileModel>) -> spec_fn(StreamModel) -> SpecRead<(Seq<char>, BoundFileModel)> {
    |t: StreamModel| spec_named_file(t, files)
}

/// The optional fields of the note document, in the order of their bits in `fb`: bits 0 to 12,
/// the voice recordings (bit 13, a `u32` count), the attached files (bit 14, a `u16` count),
/// then bits 15 to 22.
#[verifier::opaque]
pub open spec fn spec_note_flex(s: StreamModel, fb: u32, files: Map<u32, BoundFileModel>) -> SpecRead<(
    (Option<Seq<char>>, Option<AppVersionModel>, Option<AuthorInfoModel>, Option<(RawF64, RawF64)>, Option<Seq<char>>,
        Option<u32>, Option<i32>, Option<Timestamp>, Map<u32, Seq<char>>, Option<i32>, Option<PenInfoModel>),
    Option<Seq<VoiceRecordingModel>>,
    Option<Seq<(Seq<char>, BoundFileModel)>>,
    (Option<PenInfoModel>, Option<i64>, Option<Seq<char>>, Option<TextDirection>, Option<BackgroundTheme>,
        Option<Seq<char>>, Option<u32>, Option<Seq<char>>),
)> {
    match spec_note_opt1(s, fb) {
        Some((o1, s1)) => match spec_opt(bit_is_set(fb, 13), spec_u32_counted(s1, voice_item(files)), s1) {
            Some((voice, s2)) => match spec_opt(bit_is_set(fb, 14), spec_u16_counted(s2, named_file_item(files)), s2) {
                Some((attached, s3)) => match spec_note_opt2(s3, fb) {
                    Some((o2, s4)) => Some(((o1, voice, attached, o2), s4)),
                    None => None,
                },
                None => None,
            },
            None => None,
        },
        None => None,
    }
}

/// The model of a fresh stream over `bytes`.
pub open spec fn bytes_stream(bytes: Seq<u8>) -> StreamModel {
    StreamModel { data: bytes, origin: 0, start: 0, pos: 0, end: bytes.len() as int, frame_end: bytes.len() as int }
}

/// The field bits of the note document that are understood: 0 to 3, 6, 7 and 9 to 22.
pub open spec fn note_field_mask() -> u32 {
    0x7ffecfu32
}

/// The note document: its start, its optional fields (with no field bit left unhandled), and
/// the SHA-256 digest of every byte from its start up to there; the title and body bytes must
/// each begin with a text box. The files of the document are `files`.
#[verifier::opaque]
pub open spec fn spec_note_doc(s: StreamModel, files: Map<u32, BoundFileModel>) -> SpecRead<NoteDocModel> {
    match spec_note_head(s) {
        Some((h, s1)) => match spec_note_flex(s1, h.field_bits, files) {
            Some((f, s2)) => if h.field_bits & !note_field_mask() != 0 {
                None
            } else {
                match spec_text(bytes_stream(h.title_bytes), NESTING_LIMIT as nat) {
                    Some((title_text, _)) => match spec_text(bytes_stream(h.body_bytes), NESTING_LIMIT as nat) {
                        Some((body_text, _)) => match spec_take(s2, 32) {
                            Some((hash, s3)) => if s2.pos < s.pos || hash != sha256_digest(s.data.subrange(s.pos, s2.pos)) {
                                None
                            } else {
                                Some((NoteDocModel {
                                    is_background_colour_inverted: h.inverted,
                                    format_version: h.fixed.0,
                                    id: h.fixed.1,
                                    file_revision: h.fixed.2,
                                    created_time: h.fixed.3,
                                    modified_time: h.fixed.4,
                                    width: h.fixed.5,
                                    height: h.fixed.6,
                                    page_horizontal_padding: h.fixed.7,
                                    page_vertical_padding: h.fixed.8,
                                    min_format_version: h.fixed.9,
                                    title_text,
                                    body_text,
                                    app_name: f.0.0,
                                    app_version: f.0.1,
                                    author_info: f.0.2,
                                    latitude_longitude: f.0.3,
                                    template_uri: f.0.4,
                                    last_edited_page_index: f.0.5,
                                    last_edited_page_image_id: f.0.6,
                                    last_edited_page_time: f.0.7,
                                    body_text_font_size_delta: f.0.9,
                                    compatible_last_pen_info: f.0.10,
                                    voice_data: f.1,
                                    attached_files: match f.2 {
                                        Some(es) => Some(pairs_to_map(es)),
                                        None => None,
                                    },
                                    last_pen_info: f.3.0,
                                    server_check_point: f.3.1,
                                    fixed_font: f.3.2,
                                    fixed_text_direction: f.3.3,
                                    fixed_background_theme: f.3.4,
                                    text_summarisation: f.3.5,
                                    stroke_group_size: f.3.6,
                                    app_custom_data: f.3.7,
                                    string_registry: f.0.8,
                                    hash,
                                }, s3))
                            },
                            None => None,
                        },
                        None => None,
                    },
                    None => None,
                }
            },
            None => None,
        },
        None => None,
    }
}

fn read_sized_bytes(r: &mut ByteStream) -> (res: Result<Vec<u8>, NoteDocParseError>)
    ensures
        match spec_sized_bytes(old(r)@) {
            Some((m, s2)) => res matches Ok(v) && v@ == m && final(r)@ == s2,
            None => res is Err,
        },
        final(r)@.same_frame(old(r)@),
{
    let n: u32 = match r.read_u32_le() {
        Ok(v) => v,
        Err(e) => return Err(NoteDocParseError::Io(e)),
    };
    match r.read_u8s(n as usize) {
        Ok(v) => Ok(v),
        Err(e) => Err(NoteDocParseError::Io(e)),
    }
}

fn read_voice_recording(r: &mut ByteStream, files: &FileRegistry) -> (res: Result<VoiceRecording, NoteDocParseError>)
    ensures
        match res_opt(spec_voice_recording(old(r)@, files@)) {
            Some((m, s2)) => res matches Ok(v) && v@ == m && final(r)@ == s2,
            None => res is Err,
        },
        final(r)@.same_frame(old(r)@),
{
    match VoiceRecording::try_parse_with_ctx(r, files) {
        Ok(v) => Ok(v),
        Err(e) => Err(NoteDocParseError::VoiceRecording(e)),
    }
}

fn read_voice_data(r: &mut ByteStream, n: u32, files: &FileRegistry) -> (res: Result<Vec<VoiceRecording>, NoteDocParseError>)
    ensures
        match spec_repeat(old(r)@, n as nat, voice_item(files@)) {
            Some((m, s2)) => res matches Ok(v) && views(v@) == m && final(r)@ == s2,
            None => res is Err,
        },
        final(r)@.same_frame(old(r)@),
{
    let ghost s0 = r@;
    let ghost item = voice_item(files@);
    let mut out: Vec<VoiceRecording> = Vec::new();
    let mut i: u32 = 0;
    while i < n
        invariant
            i <= n,
            item == voice_item(files@),
            out@.len() == i,
            s0 == old(r)@,
            r@.same_frame(s0),
            spec_repeat(s0, i as nat, item) == Some((views(out@), r@)),
        decreases n - i,
    {
        let ghost before = r@;
        let ghost prev = views(out@);
        proof { assert(item(before) == res_opt(spec_voice_recording(before, files@))); }
        let x: VoiceRecording = match read_voice_recording(r, files) {
            Ok(x) => x,
            Err(e) => {
                proof { lemma_repeat_fails(s0, (i + 1) as nat, n as nat, item); }
                return Err(e);
            },
        };
        out.push(x);
        proof { assert(views(out@) =~= prev.push(out@[i as int]@)); }
        i = i + 1;
    }
    Ok(out)
}

fn read_named_files(r: &mut ByteStream, n: u16, files: &FileRegistry) -> (res: Result<Vec<(String, Rc<BoundFile>)>, NoteDocParseError>)
    ensures
        match spec_repeat(old(r)@, n as nat, named_file_item(files@)) {
            Some((m, s2)) => res matches Ok(v) && Seq::new(v@.len(), |i: int| (v@[i].0@, v@[i].1@)) == m
                && final(r)@ == s2,
            None => res is Err,
        },
        final(r)@.same_frame(old(r)@),
{
    let ghost s0 = r@;
    let ghost item = named_file_item(files@);
    let mut out: Vec<(String, Rc<BoundFile>)> = Vec::new();
    let mut i: u16 = 0;
    while i < n
        invariant
            i <= n,
            item == named_file_item(files@),
            out@.len() == i,
            s0 == old(r)@,
            r@.same_frame(s0),
            spec_repeat(s0, i as nat, item) == Some((Seq::new(out@.len(), |j: int| (out@[j].0@, out@[j].1@)), r@)),
        decreases n - i,
    {
        let ghost before = r@;
        let ghost prev = Seq::new(out@.len(), |j: int| (out@[j].0@, out@[j].1@));
        proof { assert(item(before) == spec_named_file(before, files@)); }
        let name: String = match r.read_short_u16_string() {
            Ok(v) => v,
            Err(e) => {
                proof { lemma_repeat_fails(s0, (i + 1) as nat, n as nat, item); }
                return Err(NoteDocParseError::String(e));
            },
        };
        let id: u32 = match r.read_u32_le() {
            Ok(v) => v,
            Err(e) => {
                proof { lemma_repeat_fails(s0, (i + 1) as nat, n as nat, item); }
                return Err(NoteDocParseError::Io(e));
            },
        };
        let file: Rc<BoundFile> = match files.try_get(id) {
            Ok(f) => f,
            Err(e) => {
                proof { lemma_repeat_fails(s0, (i + 1) as nat, n as nat, item); }
                return Err(NoteDocParseError::NoSuchFile(e));
            },
        };
        out.push((name, file));
        proof {
            assert(Seq::new(out@.len(), |j: int| (out@[j].0@, out@[j].1@)) =~= prev.push((out@[i as int].0@, out@[i as int].1@)));
        }
        i = i + 1;
    }
    Ok(out)
}

#[verifier::rlimit(40)]
fn read_note_head(r: &mut ByteStream) -> (res: Result<(bool, CheckedBitfield, (u32, String, u32, Timestamp, Timestamp, u32, u32, u32, u32, u32), Vec<u8>, Vec<u8>), NoteDocParseError>)
    ensures
        match spec_note_head(old(r)@) {
            Some((h, s2)) => res matches Ok(v) && v.0 == h.inverted && v.1.bits() == h.field_bits
                && v.1.checked() == 0 && v.2.0 == h.fixed.0 && v.2.1@ == h.fixed.1 && v.2.2 == h.fixed.2
                && v.2.3 == h.fixed.3 && v.2.4 == h.fixed.4 && v.2.5 == h.fixed.5 && v.2.6 == h.fixed.6
                && v.2.7 == h.fixed.7 && v.2.8 == h.fixed.8 && v.2.9 == h.fixed.9
                && v.3@ == h.title_bytes && v.4@ == h.body_bytes && final(r)@ == s2,
            None => res is Err,
        },
        final(r)@.same_frame(old(r)@),
{
    proof { reveal(spec_note_head); }
    let start: u64 = r.stream_position();
    let flex_rel: u32 = match r.read_u32_le() {
        Ok(v) => v,
        Err(e) => return Err(NoteDocParseError::Io(e)),
    };
    let mut p: CheckedBitfield = match CheckedBitfield::try_parse(r) {
        Ok(v) => v,
        Err(e) => return Err(NoteDocParseError::PropertyFlags(e)),
    };
    let inverted: bool = p.check_bit(3);
    proof {
        let c = p.checked();
        assert(c == 8u32) by (bit_vector)
            requires
                c == 0u32 | (1u32 << 3u8),
        ;
    }
    if let Err(e) = p.ensure_none_set_unchecked() {
        return Err(NoteDocParseError::UnhandledProperty(e));
    }
    let ff: CheckedBitfield = match CheckedBitfield::try_parse(r) {
        Ok(v) => v,
        Err(e) => return Err(NoteDocParseError::FieldFlags(e)),
    };
    let fixed = read_note_fixed(r)?;
    let title: Vec<u8> = read_sized_bytes(r)?;
    let body: Vec<u8> = read_sized_bytes(r)?;
    if let Err(e) = seek_flex_from(r, start, flex_rel) {
        return Err(NoteDocParseError::Io(e));
    }
    Ok((inverted, ff, fixed, title, body))
}

#[verifier::rlimit(60)]
fn read_note_flex(r: &mut ByteStream, ff: &mut CheckedBitfield, files: &FileRegistry) -> (res: Result<(
    (Option<String>, Option<AppVersion>, Option<AuthorInfo>, Option<(RawF64, RawF64)>, Option<String>,
        Option<u32>, Option<i32>, Option<Timestamp>, StringRegistry, Option<i32>, Option<PenInfo>),
    Option<Vec<VoiceRecording>>,
    Option<Vec<(String, Rc<BoundFile>)>>,
    (Option<PenInfo>, Option<i64>, Option<String>, Option<TextDirection>, Option<BackgroundTheme>,
        Option<String>, Option<u32>, Option<String>),
), NoteDocParseError>)
    ensures
        match spec_note_flex(old(r)@, old(ff).bits(), files@) {
            Some((m, s2)) => res matches Ok(v)
                && opt_view(v.0.0) == m.0.0 && opt_view(v.0.1) == m.0.1 && opt_view(v.0.2) == m.0.2
                && v.0.3 == m.0.3 && opt_view(v.0.4) == m.0.4 && v.0.5 == m.0.5 && v.0.6 == m.0.6
                && v.0.7 == m.0.7 && v.0.8@ == m.0.8 && v.0.9 == m.0.9 && opt_view(v.0.10) == m.0.10
                && opt_vec_views(v.1) == m.1
                && (match v.2 {
                    Some(l) => m.2 == Some(Seq::new(l@.len(), |i: int| (l@[i].0@, l@[i].1@))),
                    None => m.2 is None,
                })
                && opt_view(v.3.0) == m.3.0 && v.3.1 == m.3.1 && opt_view(v.3.2) == m.3.2
                && v.3.3 == m.3.3 && v.3.4 == m.3.4 && opt_view(v.3.5) == m.3.5 && v.3.6 == m.3.6
                && opt_view(v.3.7) == m.3.7
                && final(ff).bits() == old(ff).bits()
                && final(ff).checked() == old(ff).checked() | note_field_mask()
                && final(r)@ == s2,
            None => res is Err,
        },
        final(r)@.same_frame(old(r)@),
{
    proof { reveal(spec_note_flex); }
    let ghost c0 = ff.checked();
    let o1 = read_note_opt1(r, ff)?;
    let ghost c1 = ff.checked();
    let has_voice: bool = ff.check_bit(13);
    let ghost c2 = ff.checked();
    let voice: Option<Vec<VoiceRecording>> = if has_voice {
        let n: u32 = match r.read_u32_le() {
            Ok(v) => v,
            Err(e) => return Err(NoteDocParseError::Io(e)),
        };
        Some(read_voice_data(r, n, files)?)
    } else {
        None
    };
    let has_files: bool = ff.check_bit(14);
    let ghost c3 = ff.checked();
    let attached: Option<Vec<(String, Rc<BoundFile>)>> = if has_files {
        let n: u16 = match r.read_u16_le() {
            Ok(v) => v,
            Err(e) => return Err(NoteDocParseError::Io(e)),
        };
        Some(read_named_files(r, n, files)?)
    } else {
        None
    };
    let o2 = read_note_opt2(r, ff)?;
    proof {
        let c4 = ff.checked();
        assert(c4 == c0 | 0x7ffecfu32) by (bit_vector)
            requires
                c1 == c0 | 0x1ecfu32,
                c2 == c1 | (1u32 << 13u8),
                c3 == c2 | (1u32 << 14u8),
                c4 == c3 | 0x7f8000u32,
        ;
    }
    Ok((o1, voice, attached, o2))
}

/// Whether the note document in `s` reads without error up to its hash, and the 32 bytes stored
/// there differ from the SHA-256 of the bytes before them.
pub open spec fn spec_note_hash_mismatch(s: StreamModel, files: Map<u32, BoundFileModel>) -> bool {
    match spec_note_head(s) {
        Some((h, s1)) => match spec_note_flex(s1, h.field_bits, files) {
            Some((_, s2)) => {
                &&& h.field_bits & !note_field_mask() == 0
                &&& spec_text(bytes_stream(h.title_bytes), NESTING_LIMIT as nat) is Some
                &&& spec_text(bytes_stream(h.body_bytes), NESTING_LIMIT as nat) is Some
                &&& s.pos <= s2.pos
                &&& match spec_take(s2, 32) {
                    Some((hash, _)) => hash != sha256_digest(s.data.subrange(s.pos, s2.pos)),
                    None => false,
                }
            },
            None => false,
        },
        None => false,
    }
}

impl NoteDoc {
    /// The strings that objects of the document refer to by id.
    pub fn string_registry(&self) -> (r: &StringRegistry)
        ensures
            r@ == self@.string_registry,
    {
        &self.string_registry
    }

    /// The hash stored after the document, which the page list records too.
    pub fn hash(&self) -> (r: &[u8; 32])
        ensures
            r@ == self@.hash,
    {
        &self.hash
    }
}

impl<'a> TryParseWithContext<ByteStream<'a>, FileRegistry> for NoteDoc {
    type ParseError = NoteDocParseError;

    #[verifier::rlimit(60)]
    fn try_parse_with_ctx(reader: &mut ByteStream<'a>, file_registry: &FileRegistry) -> (r: Result<NoteDoc, NoteDocParseError>)
        ensures
            match spec_note_doc(old(reader)@, file_registry@) {
                Some((m, s2)) => r matches Ok(v) && v@ == m && final(reader)@ == s2,
                None => r is Err,
            },
            spec_note_hash_mismatch(old(reader)@, file_registry@) ==> r matches Err(NoteDocParseError::HashMismatch),
            final(reader)@.same_frame(old(reader)@),
    {
        proof { reveal(spec_note_doc); use_type_invariant(&*reader); }
        let start: u64 = reader.stream_position();
        let (inverted, mut ff, fixed, title_bytes, body_bytes) = read_note_head(reader)?;
        let ghost fbits = ff.bits();
        let f = read_note_flex(reader, &mut ff, file_registry)?;
        proof {
            let c = ff.checked();
            assert(fbits & !c == fbits & !0x7ffecfu32) by (bit_vector)
                requires
                    c == 0u32 | 0x7ffecfu32,
            ;
        }
        if let Err(e) = ff.ensure_none_set_unchecked() {
            return Err(NoteDocParseError::UnhandledField(e));
        }
        let string_registry: StringRegistry = f.0.8;
        let title_text: Text = {
            let doc_ctx = DocumentContext { file_registry, string_registry: &string_registry };
            let mut ts: ByteStream = ByteStream::new(title_bytes.as_slice());
            match Text::try_parse_with_ctx(&mut ts, &doc_ctx) {
                Ok(t) => t,
                Err(e) => return Err(NoteDocParseError::Text(e)),
            }
        };
        let body_text: Text = {
            let doc_ctx = DocumentContext { file_registry, string_registry: &string_registry };
            let mut bs: ByteStream = ByteStream::new(body_bytes.as_slice());
            match Text::try_parse_with_ctx(&mut bs, &doc_ctx) {
                Ok(t) => t,
                Err(e) => return Err(NoteDocParseError::Text(e)),
            }
        };
        proof { use_type_invariant(&*reader); }
        // The optional fields never lie before the start of the document, so this holds; it
        // is checked rather than assumed.
        if reader.stream_position() < start {
            return Err(NoteDocParseError::Io(IoError::InvalidInput));
        }
        let computed: [u8; 32] = sha256(reader.bytes_from(start));
        let hash: [u8; 32] = match reader.read_32_bytes() {
            Ok(v) => v,
            Err(e) => return Err(NoteDocParseError::Io(e)),
        };
        if !crate::byte_stream::bytes_eq(computed.as_slice(), hash.as_slice()) {
            return Err(NoteDocParseError::HashMismatch);
        }
        Ok(NoteDoc {
            is_background_colour_inverted: inverted,
            format_version: fixed.0,
            id: fixed.1,
            file_revision: fixed.2,
            created_time: fixed.3,
            modified_time: fixed.4,
            width: fixed.5,
            height: fixed.6,
            page_horizontal_padding: fixed.7,
            page_vertical_padding: fixed.8,
            min_format_version: fixed.9,
            title_text,
            body_text,
            app_name: f.0.0,
            app_version: f.0.1,
            author_info: f.0.2,
            latitude_longitude: f.0.3,
            template_uri: f.0.4,
            last_edited_page_index: f.0.5,
            last_edited_page_image_id: f.0.6,
            last_edited_page_time: f.0.7,
            body_text_font_size_delta: f.0.9,
            compatible_last_pen_info: f.0.10,
            voice_data: f.1,
            attached_files: f.2,
            last_pen_info: f.3.0,
            server_check_point: f.3.1,
            fixed_font: f.3.2,
            fixed_text_direction: f.3.3,
            fixed_background_theme: f.3.4,
            text_summarisation: f.3.5,
            stroke_group_size: f.3.6,
            app_custom_data: f.3.7,
            string_registry,
            hash,
        })
    }
}

/// The hash that the note document stores is the SHA-256 digest of every byte of the document
/// before it: the 32 bytes just read are that digest.
pub proof fn lemma_note_hash(s: StreamModel, files: Map<u32, BoundFileModel>)
    requires
        spec_note_doc(s, files) is Some,
    ensures
        ({
            let (m, s2) = spec_note_doc(s, files)->Some_0;
            &&& s.pos <= s2.pos - 32
            &&& s2.data.subrange(s2.pos - 32, s2.pos) == m.hash
            &&& m.hash == sha256_digest(s.data.subrange(s.pos, s2.pos - 32))
        }),
{
    reveal(spec_note_doc);
}


/// Where a note document's timestamps begin: after its `u32` flex offset, its property and
/// field bitfields, its `u32` format version, its id and its `u32` file revision.
pub open spec fn note_times_pos(s: StreamModel) -> StreamModel {
    let s1 = spec_u32(s)->Some_0.1;
    let s2 = spec_bitfield(s1)->Ok_0.1;
    let s3 = spec_bitfield(s2)->Ok_0.1;
    let s4 = spec_u32(s3)->Some_0.1;
    let s5 = spec_short_u16_string(s4)->Ok_0.1;
    spec_u32(s5)->Some_0.1
}

/// A note document's creation time is the `i64` of microseconds that directly follows its file
/// revision, and its modification time the one after that; its width and height are the two
/// `u32`s that follow them.
pub proof fn lemma_note_times(s: StreamModel, files: Map<u32, BoundFileModel>)
    requires
        spec_note_doc(s, files) is Some,
    ensures
        ({
            let m = spec_note_doc(s, files)->Some_0.0;
            let p = note_times_pos(s);
            &&& spec_i64(p) matches Some((c, _)) && c == m.created_time.micros
            &&& spec_i64(p.with_pos(p.pos + 8)) matches Some((t, _)) && t == m.modified_time.micros
            &&& spec_u32(p.with_pos(p.pos + 16)) matches Some((w, _)) && w == m.width
            &&& spec_u32(p.with_pos(p.pos + 20)) matches Some((h, _)) && h == m.height
        }),
{
    reveal(spec_note_doc);
    reveal(spec_note_head);
    reveal(spec_note_fixed);
    let s1 = spec_u32(s)->Some_0.1;
    let s2 = spec_bitfield(s1)->Ok_0.1;
    let s3 = spec_bitfield(s2)->Ok_0.1;
    assert(spec_note_head(s) is Some);
    assert(spec_note_fixed(s3) is Some);
    let f1 = spec_u32(s3)->Some_0.1;
    let f2 = spec_short_u16_string(f1)->Ok_0.1;
    let p = spec_u32(f2)->Some_0.1;
    assert(p == note_times_pos(s));
    let (c, p2) = spec_ts_opt(p)->Some_0;
    assert(spec_ts_opt(p2) is Some);
    assert(spec_note_head(s)->Some_0.0.fixed.3 == c);
    assert(spec_note_head(s)->Some_0.0.fixed.4 == spec_ts_opt(p2)->Some_0.0);
    let p3 = spec_ts_opt(p2)->Some_0.1;
    assert(spec_u32(p3) is Some);
    assert(spec_note_head(s)->Some_0.0.fixed.5 == spec_u32(p3)->Some_0.0);
    assert(spec_note_head(s)->Some_0.0.fixed.6 == spec_u32(spec_u32(p3)->Some_0.1)->Some_0.0);
}

} // verus!
