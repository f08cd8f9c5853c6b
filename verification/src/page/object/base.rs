//! What every object begins with: its identity, geometry and common optional fields.
use vstd::prelude::*;
use vstd::string::StrSliceExecFns;

use crate::bits::{bit_is_set, CheckedBitfield, UnhandledBitsError};
use crate::byte_stream::{
    lemma_repeat_fails, opt_view, pairs_to_map, spec_bool_u8, spec_continue, spec_f32, spec_i32,
    spec_opt, spec_opt_or, spec_repeat, spec_seek, spec_short_u16_string, spec_short_u8_string,
    spec_str_opt, spec_take, spec_then, spec_ts_opt, spec_u16, spec_u32, spec_u8, views,
    ByteStream, ExactSizedStream, IoError, RawF32, ReadStringError, SpecRead, StreamModel,
    Timestamp, TryParse, opt_vec_views, spec_u16_counted, ReadTimestampError, UnfinishedParsingError,
};
use crate::page::object::header::{spec_object_header, ObjectHeader, ObjectHeaderError};
use crate::page::object::shared::{spec_point, spec_rect, Point, Rect};
use crate::{spec_opaque_exclusive, OpaqueBytes, OpaqueBytesParseError};

use crate::digest::{decimal_text, push_decimal, sha256, sha256_digest};
use vstd::slice::slice_to_vec;
use vstd::utf8::encode_utf8;

verus! {

// ---------------------------------------------------------------------------------------------
// Bundles
// ---------------------------------------------------------------------------------------------

/// Failure to read a bundle.
#[derive(Debug, Clone, Copy, PartialEq, Eq, Structural)]
pub enum BundleParseError {
    Io(IoError),
    String(ReadStringError),
    OpaqueBytes(OpaqueBytesParseError),
    UnhandledFlags(UnhandledBitsError),
}

/// `c` without one trailing NUL character, if it ends with one.
pub open spec fn strip_nul(c: Seq<char>) -> Seq<char> {
    if c.len() > 0 && c.last() == '\0' {
        c.drop_last()
    } else {
        c
    }
}

/// Like `ByteStream::read_short_u8_string`, but removes a single trailing NUL from the string if
/// it finds one. The keys of bundles tend to end with one.
pub fn read_short_u8_string_without_nul(stream: &mut ByteStream) -> (r: Result<String, ReadStringError>)
    ensures
        match spec_short_u8_string(old(stream)@) {
            Ok((c, s2)) => r matches Ok(v) && v@ == strip_nul(c) && final(stream)@ == s2,
            Err(e) => r == Err::<String, ReadStringError>(e),
        },
        final(stream)@.same_frame(old(stream)@),
{
    let s: String = stream.read_short_u8_string()?;
    let n: usize = s.as_str().unicode_len();
    if n > 0 && s.as_str().get_char(n - 1) == '\0' {
        let t: &str = s.as_str().substring_char(0, n - 1);
        Ok(t.to_owned())
    } else {
        Ok(s)
    }
}

/// A list of strings.
#[derive(Debug)]
pub struct StringList(pub Vec<String>);

impl View for StringList {
    type V = Seq<Seq<char>>;

    open spec fn view(&self) -> Seq<Seq<char>> {
        views(self.0@)
    }
}

/// A bundle key: a short UTF-8 string without its trailing NUL.
pub open spec fn spec_bundle_key(s: StreamModel) -> SpecRead<Seq<char>> {
    match spec_str_opt(spec_short_u8_string(s)) {
        Some((k, s1)) => Some((strip_nul(k), s1)),
        None => None,
    }
}

pub open spec fn spec_string_pair(s: StreamModel) -> SpecRead<(Seq<char>, Seq<char>)> {
    match spec_bundle_key(s) {
        Some((k, s1)) => match spec_str_opt(spec_short_u16_string(s1)) {
            Some((v, s2)) => Some(((k, v), s2)),
            None => None,
        },
        None => None,
    }
}

pub open spec fn spec_integer_pair(s: StreamModel) -> SpecRead<(Seq<char>, u32)> {
    match spec_bundle_key(s) {
        Some((k, s1)) => match spec_u32(s1) {
            Some((v, s2)) => Some(((k, v), s2)),
            None => None,
        },
        None => None,
    }
}

pub open spec fn short_u16_string_item() -> spec_fn(StreamModel) -> SpecRead<Seq<char>> {
    |t: StreamModel| spec_str_opt(spec_short_u16_string(t))
}

/// A `u16` count, then that many short UTF-16 strings.
pub open spec fn spec_string_list(s: StreamModel) -> SpecRead<Seq<Seq<char>>> {
    match spec_u16(s) {
        Some((n, s1)) => spec_repeat(s1, n as nat, short_u16_string_item()),
        None => None,
    }
}

pub open spec fn spec_string_list_pair(s: StreamModel) -> SpecRead<(Seq<char>, Seq<Seq<char>>)> {
    match spec_bundle_key(s) {
        Some((k, s1)) => match spec_string_list(s1) {
            Some((v, s2)) => Some(((k, v), s2)),
            None => None,
        },
        None => None,
    }
}

pub open spec fn spec_bytes_pair(s: StreamModel) -> SpecRead<(Seq<char>, Seq<u8>)> {
    match spec_bundle_key(s) {
        Some((k, s1)) => match spec_opaque_exclusive(s1) {
            Ok((v, s2)) => Some(((k, v), s2)),
            Err(_) => None,
        },
        None => None,
    }
}

pub open spec fn string_pair_item() -> spec_fn(StreamModel) -> SpecRead<(Seq<char>, Seq<char>)> {
    |t: StreamModel| spec_string_pair(t)
}

pub open spec fn integer_pair_item() -> spec_fn(StreamModel) -> SpecRead<(Seq<char>, u32)> {
    |t: StreamModel| spec_integer_pair(t)
}

pub open spec fn string_list_pair_item() -> spec_fn(StreamModel) -> SpecRead<(Seq<char>, Seq<Seq<char>>)> {
    |t: StreamModel| spec_string_list_pair(t)
}

pub open spec fn bytes_pair_item() -> spec_fn(StreamModel) -> SpecRead<(Seq<char>, Seq<u8>)> {
    |t: StreamModel| spec_bytes_pair(t)
}

/// The map that the pairs of a present list make; an absent list makes an empty map.
pub open spec fn map_or_empty<V>(es: Option<Seq<(Seq<char>, V)>>) -> Map<Seq<char>, V> {
    match es {
        Some(es) => pairs_to_map(es),
        None => Map::empty(),
    }
}

/// Four maps keyed by name. When a key occurs twice in the data, the later value is the one
/// that the map holds.
#[derive(Debug)]
pub struct Bundle {
    pub strings: Vec<(String, String)>,
    pub integers: Vec<(String, u32)>,
    pub string_vecs: Vec<(String, StringList)>,
    pub byte_vecs: Vec<(String, OpaqueBytes)>,
}

pub struct BundleModel {
    pub strings: Map<Seq<char>, Seq<char>>,
    pub integers: Map<Seq<char>, u32>,
    pub string_vecs: Map<Seq<char>, Seq<Seq<char>>>,
    pub byte_vecs: Map<Seq<char>, Seq<u8>>,
}

impl View for Bundle {
    type V = BundleModel;

    open spec fn view(&self) -> BundleModel {
        BundleModel {
            strings: pairs_to_map(views(self.strings@)),
            integers: pairs_to_map(views(self.integers@)),
            string_vecs: pairs_to_map(views(self.string_vecs@)),
            byte_vecs: pairs_to_map(views(self.byte_vecs@)),
        }
    }
}

/// A bundle: a `u8` of presence flags (bits 0 to 3, no other), then for each present map a
/// `u16` count and its pairs: strings, integers, string lists and byte runs, in that order.
pub open spec fn spec_bundle(s: StreamModel) -> SpecRead<BundleModel> {
    match spec_u8(s) {
        Some((p, s1)) => {
            let fb = p as u32;
            match spec_opt(bit_is_set(fb, 0), spec_u16_counted(s1, string_pair_item()), s1) {
                Some((strings, s2)) => match spec_opt(bit_is_set(fb, 1), spec_u16_counted(s2, integer_pair_item()), s2) {
                    Some((integers, s3)) => match spec_opt(bit_is_set(fb, 2), spec_u16_counted(s3, string_list_pair_item()), s3) {
                        Some((string_vecs, s4)) => match spec_opt(bit_is_set(fb, 3), spec_u16_counted(s4, bytes_pair_item()), s4) {
                            Some((byte_vecs, s5)) => if fb & !0xfu32 == 0 {
                                Some((BundleModel {
                                    strings: map_or_empty(strings),
                                    integers: map_or_empty(integers),
                                    string_vecs: map_or_empty(string_vecs),
                                    byte_vecs: map_or_empty(byte_vecs),
                                }, s5))
                            } else {
                                None
                            },
                            None => None,
                        },
                        None => None,
                    },
                    None => None,
                },
                None => None,
            }
        },
        None => None,
    }
}

fn read_string_pair(r: &mut ByteStream) -> (res: Result<(String, String), BundleParseError>)
    ensures
        match spec_string_pair(old(r)@) {
            Some((m, s2)) => res matches Ok(v) && v@ == m && final(r)@ == s2,
            None => res is Err,
        },
        final(r)@.same_frame(old(r)@),
{
    let k: String = match read_short_u8_string_without_nul(r) {
        Ok(v) => v,
        Err(e) => return Err(BundleParseError::String(e)),
    };
    let v: String = match r.read_short_u16_string() {
        Ok(v) => v,
        Err(e) => return Err(BundleParseError::String(e)),
    };
    Ok((k, v))
}

fn read_integer_pair(r: &mut ByteStream) -> (res: Result<(String, u32), BundleParseError>)
    ensures
        match spec_integer_pair(old(r)@) {
            Some((m, s2)) => res matches Ok(v) && v@ == m && final(r)@ == s2,
            None => res is Err,
        },
        final(r)@.same_frame(old(r)@),
{
    let k: String = match read_short_u8_string_without_nul(r) {
        Ok(v) => v,
        Err(e) => return Err(BundleParseError::String(e)),
    };
    let v: u32 = match r.read_u32_le() {
        Ok(v) => v,
        Err(e) => return Err(BundleParseError::Io(e)),
    };
    Ok((k, v))
}

fn read_short_u16_string_item(r: &mut ByteStream) -> (res: Result<String, BundleParseError>)
    ensures
        match spec_str_opt(spec_short_u16_string(old(r)@)) {
            Some((m, s2)) => res matches Ok(v) && v@ == m && final(r)@ == s2,
            None => res is Err,
        },
        final(r)@.same_frame(old(r)@),
{
    match r.read_short_u16_string() {
        Ok(v) => Ok(v),
        Err(e) => Err(BundleParseError::String(e)),
    }
}

/// Reads `n` short UTF-16 strings.
fn read_short_u16_strings(r: &mut ByteStream, n: u16) -> (res: Result<Vec<String>, BundleParseError>)
    ensures
        match spec_repeat(old(r)@, n as nat, short_u16_string_item()) {
            Some((vs, s2)) => res matches Ok(v) && crate::byte_stream::views(v@) == vs && final(r)@ == s2,
            None => res is Err,
        },
        final(r)@.same_frame(old(r)@),
{
    let ghost s0 = r@;
    let ghost item = short_u16_string_item();
    let mut items: Vec<String> = Vec::new();
    let mut i: u16 = 0;
    while i < n
        invariant
            i <= n,
            item == short_u16_string_item(),
            s0 == old(r)@,
            r@.same_frame(s0),
            spec_repeat(s0, i as nat, item) matches Some((vs, st)) && crate::byte_stream::views(items@) == vs && r@ == st,
        decreases n - i,
    {
        let ghost before = r@;
        proof { assert(item(before) == short_u16_string_item()(before)); }
        let x: String = match read_short_u16_string_item(r) {
            Ok(x) => x,
            Err(e) => {
                proof { lemma_repeat_fails(s0, (i + 1) as nat, n as nat, item); }
                return Err(e);
            },
        };
        let ghost old_items = items@;
        items.push(x);
        proof { assert(crate::byte_stream::views(items@) =~= crate::byte_stream::views(old_items).push(x@)); }
        i = i + 1;
    }
    Ok(items)
}

fn read_string_list_pair(r: &mut ByteStream) -> (res: Result<(String, StringList), BundleParseError>)
    ensures
        match spec_string_list_pair(old(r)@) {
            Some((m, s2)) => res matches Ok(v) && v@ == m && final(r)@ == s2,
            None => res is Err,
        },
        final(r)@.same_frame(old(r)@),
{
    let k: String = match read_short_u8_string_without_nul(r) {
        Ok(v) => v,
        Err(e) => return Err(BundleParseError::String(e)),
    };
    let n: u16 = match r.read_u16_le() {
        Ok(v) => v,
        Err(e) => return Err(BundleParseError::Io(e)),
    };
    let v: Vec<String> = read_short_u16_strings(r, n)?;
    Ok((k, StringList(v)))
}

fn read_bytes_pair(r: &mut ByteStream) -> (res: Result<(String, OpaqueBytes), BundleParseError>)
    ensures
        match spec_bytes_pair(old(r)@) {
            Some((m, s2)) => res matches Ok(v) && v@ == m && final(r)@ == s2,
            None => res is Err,
        },
        final(r)@.same_frame(old(r)@),
{
    let k: String = match read_short_u8_string_without_nul(r) {
        Ok(v) => v,
        Err(e) => return Err(BundleParseError::String(e)),
    };
    let v: OpaqueBytes = match OpaqueBytes::try_parse_exclusive(r) {
        Ok(v) => v,
        Err(e) => return Err(BundleParseError::OpaqueBytes(e)),
    };
    Ok((k, v))
}

/// Reads `n` items.
fn read_string_pairs(r: &mut ByteStream, n: u16) -> (res: Result<Vec<(String, String)>, BundleParseError>)
    ensures
        match spec_repeat(old(r)@, n as nat, string_pair_item()) {
            Some((vs, s2)) => res matches Ok(v) && crate::byte_stream::views(v@) == vs && final(r)@ == s2,
            None => res is Err,
        },
        final(r)@.same_frame(old(r)@),
{
    let ghost s0 = r@;
    let ghost item = string_pair_item();
    let mut items: Vec<(String, String)> = Vec::new();
    let mut i: u16 = 0;
    while i < n
        invariant
            i <= n,
            item == string_pair_item(),
            s0 == old(r)@,
            r@.same_frame(s0),
            spec_repeat(s0, i as nat, item) matches Some((vs, st)) && crate::byte_stream::views(items@) == vs && r@ == st,
        decreases n - i,
    {
        let ghost before = r@;
        proof { assert(item(before) == string_pair_item()(before)); }
        let x: (String, String) = match read_string_pair(r) {
            Ok(x) => x,
            Err(e) => {
                proof { lemma_repeat_fails(s0, (i + 1) as nat, n as nat, item); }
                return Err(e);
            },
        };
        let ghost old_items = items@;
        items.push(x);
        proof { assert(crate::byte_stream::views(items@) =~= crate::byte_stream::views(old_items).push(x@)); }
        i = i + 1;
    }
    Ok(items)
}

/// Reads `n` items.
fn read_integer_pairs(r: &mut ByteStream, n: u16) -> (res: Result<Vec<(String, u32)>, BundleParseError>)
    ensures
        match spec_repeat(old(r)@, n as nat, integer_pair_item()) {
            Some((vs, s2)) => res matches Ok(v) && crate::byte_stream::views(v@) == vs && final(r)@ == s2,
            None => res is Err,
        },
        final(r)@.same_frame(old(r)@),
{
    let ghost s0 = r@;
    let ghost item = integer_pair_item();
    let mut items: Vec<(String, u32)> = Vec::new();
    let mut i: u16 = 0;
    while i < n
        invariant
            i <= n,
            item == integer_pair_item(),
            s0 == old(r)@,
            r@.same_frame(s0),
            spec_repeat(s0, i as nat, item) matches Some((vs, st)) && crate::byte_stream::views(items@) == vs && r@ == st,
        decreases n - i,
    {
        let ghost before = r@;
        proof { assert(item(before) == integer_pair_item()(before)); }
        let x: (String, u32) = match read_integer_pair(r) {
            Ok(x) => x,
            Err(e) => {
                proof { lemma_repeat_fails(s0, (i + 1) as nat, n as nat, item); }
                return Err(e);
            },
        };
        let ghost old_items = items@;
        items.push(x);
        proof { assert(crate::byte_stream::views(items@) =~= crate::byte_stream::views(old_items).push(x@)); }
        i = i + 1;
    }
    Ok(items)
}

/// Reads `n` items.
fn read_string_list_pairs(r: &mut ByteStream, n: u16) -> (res: Result<Vec<(String, StringList)>, BundleParseError>)
    ensures
        match spec_repeat(old(r)@, n as nat, string_list_pair_item()) {
            Some((vs, s2)) => res matches Ok(v) && crate::byte_stream::views(v@) == vs && final(r)@ == s2,
            None => res is Err,
        },
        final(r)@.same_frame(old(r)@),
{
    let ghost s0 = r@;
    let ghost item = string_list_pair_item();
    let mut items: Vec<(String, StringList)> = Vec::new();
    let mut i: u16 = 0;
    while i < n
        invariant
            i <= n,
            item == string_list_pair_item(),
            s0 == old(r)@,
            r@.same_frame(s0),
            spec_repeat(s0, i as nat, item) matches Some((vs, st)) && crate::byte_stream::views(items@) == vs && r@ == st,
        decreases n - i,
    {
        let ghost before = r@;
        proof { assert(item(before) == string_list_pair_item()(before)); }
        let x: (String, StringList) = match read_string_list_pair(r) {
            Ok(x) => x,
            Err(e) => {
                proof { lemma_repeat_fails(s0, (i + 1) as nat, n as nat, item); }
                return Err(e);
            },
        };
        let ghost old_items = items@;
        items.push(x);
        proof { assert(crate::byte_stream::views(items@) =~= crate::byte_stream::views(old_items).push(x@)); }
        i = i + 1;
    }
    Ok(items)
}

/// Reads `n` items.
fn read_bytes_pairs(r: &mut ByteStream, n: u16) -> (res: Result<Vec<(String, OpaqueBytes)>, BundleParseError>)
    ensures
        match spec_repeat(old(r)@, n as nat, bytes_pair_item()) {
            Some((vs, s2)) => res matches Ok(v) && crate::byte_stream::views(v@) == vs && final(r)@ == s2,
            None => res is Err,
        },
        final(r)@.same_frame(old(r)@),
{
    let ghost s0 = r@;
    let ghost item = bytes_pair_item();
    let mut items: Vec<(String, OpaqueBytes)> = Vec::new();
    let mut i: u16 = 0;
    while i < n
        invariant
            i <= n,
            item == bytes_pair_item(),
            s0 == old(r)@,
            r@.same_frame(s0),
            spec_repeat(s0, i as nat, item) matches Some((vs, st)) && crate::byte_stream::views(items@) == vs && r@ == st,
        decreases n - i,
    {
        let ghost before = r@;
        proof { assert(item(before) == bytes_pair_item()(before)); }
        let x: (String, OpaqueBytes) = match read_bytes_pair(r) {
            Ok(x) => x,
            Err(e) => {
                proof { lemma_repeat_fails(s0, (i + 1) as nat, n as nat, item); }
                return Err(e);
            },
        };
        let ghost old_items = items@;
        items.push(x);
        proof { assert(crate::byte_stream::views(items@) =~= crate::byte_stream::views(old_items).push(x@)); }
        i = i + 1;
    }
    Ok(items)
}

impl<'a> TryParse<ByteStream<'a>> for Bundle {
    type ParseError = BundleParseError;

    fn try_parse(stream: &mut ByteStream<'a>) -> (r: Result<Bundle, BundleParseError>)
        ensures
            match spec_bundle(old(stream)@) {
                Some((m, s2)) => r matches Ok(v) && v@ == m && final(stream)@ == s2,
                None => r is Err,
            },
            final(stream)@.same_frame(old(stream)@),
    {
        let p: u8 = match stream.read_u8() {
            Ok(v) => v,
            Err(e) => return Err(BundleParseError::Io(e)),
        };
        let mut flags: CheckedBitfield = CheckedBitfield::from_bits(p as u32);
        let has_strings: bool = flags.check_bit(0);
        let ghost c1 = flags.checked();
        let strings: Vec<(String, String)> = if has_strings {
            let n: u16 = match stream.read_u16_le() {
                Ok(v) => v,
                Err(e) => return Err(BundleParseError::Io(e)),
            };
            read_string_pairs(stream, n)?
        } else {
            Vec::new()
        };
        let has_integers: bool = flags.check_bit(1);
        let ghost c2 = flags.checked();
        let integers: Vec<(String, u32)> = if has_integers {
            let n: u16 = match stream.read_u16_le() {
                Ok(v) => v,
                Err(e) => return Err(BundleParseError::Io(e)),
            };
            read_integer_pairs(stream, n)?
        } else {
            Vec::new()
        };
        let has_string_vecs: bool = flags.check_bit(2);
        let ghost c3 = flags.checked();
        let string_vecs: Vec<(String, StringList)> = if has_string_vecs {
            let n: u16 = match stream.read_u16_le() {
                Ok(v) => v,
                Err(e) => return Err(BundleParseError::Io(e)),
            };
            read_string_list_pairs(stream, n)?
        } else {
            Vec::new()
        };
        let has_byte_vecs: bool = flags.check_bit(3);
        let ghost c4 = flags.checked();
        let byte_vecs: Vec<(String, OpaqueBytes)> = if has_byte_vecs {
            let n: u16 = match stream.read_u16_le() {
                Ok(v) => v,
                Err(e) => return Err(BundleParseError::Io(e)),
            };
            read_bytes_pairs(stream, n)?
        } else {
            Vec::new()
        };
        proof {
            assert(c4 == 0xfu32) by (bit_vector)
                requires
                    c1 == 0u32 | (1u32 << 0u8),
                    c2 == c1 | (1u32 << 1u8),
                    c3 == c2 | (1u32 << 2u8),
                    c4 == c3 | (1u32 << 3u8),
            ;
        }
        if let Err(e) = flags.ensure_none_set_unchecked() {
            return Err(BundleParseError::UnhandledFlags(e));
        }
        let b = Bundle { strings, integers, string_vecs, byte_vecs };
        proof {
            assert(!has_strings ==> views(b.strings@) =~= Seq::<(Seq<char>, Seq<char>)>::empty());
            assert(!has_integers ==> views(b.integers@) =~= Seq::<(Seq<char>, u32)>::empty());
            assert(!has_string_vecs ==> views(b.string_vecs@) =~= Seq::<(Seq<char>, Seq<Seq<char>>)>::empty());
            assert(!has_byte_vecs ==> views(b.byte_vecs@) =~= Seq::<(Seq<char>, Seq<u8>)>::empty());
        }
        Ok(b)
    }
}

/// How an object is laid out.
#[derive(Debug, Clone, Copy, PartialEq, Eq, Structural)]
pub enum LayoutType {
    /// `LAYOUT_NORMAL`
    Normal,
    /// `LAYOUT_FLOW`
    Flow,
    /// `LAYOUT_BLOCK`
    Block,
    /// `LAYOUT_UNDEFINED`
    Undefined,
}

/// The value is not that of a `LayoutType`.
#[derive(Debug, Clone, Copy, PartialEq, Eq, Structural)]
pub struct InvalidLayoutTypeError {
    pub bad_value: u8,
}

/// The `LayoutType` that `v` stands for: 0 to 3 in declaration order.
pub open spec fn spec_layout_type(v: u8) -> Option<LayoutType> {
    if v == 0 {
        Some(LayoutType::Normal)
    } else if v == 1 {
        Some(LayoutType::Flow)
    } else if v == 2 {
        Some(LayoutType::Block)
    } else if v == 3 {
        Some(LayoutType::Undefined)
    } else {
        None
    }
}

impl LayoutType {
    pub fn try_from_u8(v: u8) -> (r: Result<LayoutType, InvalidLayoutTypeError>)
        ensures
            match spec_layout_type(v) {
                Some(x) => r == Ok::<LayoutType, InvalidLayoutTypeError>(x),
                None => r == Err::<LayoutType, InvalidLayoutTypeError>(InvalidLayoutTypeError { bad_value: v }),
            },
    {
        match v {
            0 => Ok(LayoutType::Normal),
            1 => Ok(LayoutType::Flow),
            2 => Ok(LayoutType::Block),
            3 => Ok(LayoutType::Undefined),
            _ => Err(InvalidLayoutTypeError { bad_value: v }),
        }
    }
}
/// How an object may be resized.
#[derive(Debug, Clone, Copy, PartialEq, Eq, Structural)]
pub enum ResizeMode {
    /// `RESIZE_OPTION_FREE`
    Free,
    /// `RESIZE_OPTION_KEEP_RATIO`
    KeepRatio,
    /// `RESIZE_OPTION_DISABLE`
    Disabled,
}

/// The value is not that of a `ResizeMode`.
#[derive(Debug, Clone, Copy, PartialEq, Eq, Structural)]
pub struct InvalidResizeModeError {
    pub bad_value: u8,
}

/// The `ResizeMode` that `v` stands for: 0 to 2 in declaration order.
pub open spec fn spec_resize_mode(v: u8) -> Option<ResizeMode> {
    if v == 0 {
        Some(ResizeMode::Free)
    } else if v == 1 {
        Some(ResizeMode::KeepRatio)
    } else if v == 2 {
        Some(ResizeMode::Disabled)
    } else {
        None
    }
}

impl ResizeMode {
    pub fn try_from_u8(v: u8) -> (r: Result<ResizeMode, InvalidResizeModeError>)
        ensures
            match spec_resize_mode(v) {
                Some(x) => r == Ok::<ResizeMode, InvalidResizeModeError>(x),
                None => r == Err::<ResizeMode, InvalidResizeModeError>(InvalidResizeModeError { bad_value: v }),
            },
    {
        match v {
            0 => Ok(ResizeMode::Free),
            1 => Ok(ResizeMode::KeepRatio),
            2 => Ok(ResizeMode::Disabled),
            _ => Err(InvalidResizeModeError { bad_value: v }),
        }
    }
}


// ---------------------------------------------------------------------------------------------
// The object base
// ---------------------------------------------------------------------------------------------

/// Failure to read the base of an object.
#[derive(Debug, Clone, Copy, PartialEq, Eq, Structural)]
pub enum ObjectBaseParseError {
    Io(IoError),
    Header(ObjectHeaderError),
    Bundle(BundleParseError),
    Timestamp(ReadTimestampError),
    String(ReadStringError),
    LayoutType(InvalidLayoutTypeError),
    ResizeMode(InvalidResizeModeError),
    Unfinished(UnfinishedParsingError),
}

/// Two `f32`s.
pub open spec fn spec_f32_pair(s: StreamModel) -> SpecRead<(RawF32, RawF32)> {
    match spec_f32(s) {
        Some((a, s1)) => match spec_f32(s1) {
            Some((b, s2)) => Some(((a, b), s2)),
            None => None,
        },
        None => None,
    }
}

/// Two `u32`s.
pub open spec fn spec_u32_pair(s: StreamModel) -> SpecRead<(u32, u32)> {
    match spec_u32(s) {
        Some((a, s1)) => match spec_u32(s1) {
            Some((b, s2)) => Some(((a, b), s2)),
            None => None,
        },
        None => None,
    }
}

pub fn read_f32_pair(r: &mut ByteStream) -> (res: Result<(RawF32, RawF32), IoError>)
    ensures
        match spec_f32_pair(old(r)@) {
            Some((m, s2)) => res == Ok::<(RawF32, RawF32), IoError>(m) && final(r)@ == s2,
            None => res is Err,
        },
        final(r)@.same_frame(old(r)@),
{
    let a: RawF32 = r.read_f32_le()?;
    let b: RawF32 = r.read_f32_le()?;
    Ok((a, b))
}

pub fn read_u32_pair(r: &mut ByteStream) -> (res: Result<(u32, u32), IoError>)
    ensures
        match spec_u32_pair(old(r)@) {
            Some((m, s2)) => res == Ok::<(u32, u32), IoError>(m) && final(r)@ == s2,
            None => res is Err,
        },
        final(r)@.same_frame(old(r)@),
{
    let a: u32 = r.read_u32_le()?;
    let b: u32 = r.read_u32_le()?;
    Ok((a, b))
}

pub open spec fn bytes16_item() -> spec_fn(StreamModel) -> SpecRead<Seq<u8>> {
    |t: StreamModel| spec_take(t, 16)
}

fn read_bytes16_item(r: &mut ByteStream) -> (res: Result<[u8; 16], ObjectBaseParseError>)
    ensures
        match spec_take(old(r)@, 16) {
            Some((m, s2)) => res matches Ok(v) && v@ == m && final(r)@ == s2,
            None => res is Err,
        },
        final(r)@.same_frame(old(r)@),
{
    match r.read_16_bytes() {
        Ok(v) => Ok(v),
        Err(e) => Err(ObjectBaseParseError::Io(e)),
    }
}

/// Reads `n` items.
fn read_bytes16_list(r: &mut ByteStream, n: u16) -> (res: Result<Vec<[u8; 16]>, ObjectBaseParseError>)
    ensures
        match spec_repeat(old(r)@, n as nat, bytes16_item()) {
            Some((vs, s2)) => res matches Ok(v) && crate::byte_stream::views(v@) == vs && final(r)@ == s2,
            None => res is Err,
        },
        final(r)@.same_frame(old(r)@),
{
    let ghost s0 = r@;
    let ghost item = bytes16_item();
    let mut items: Vec<[u8; 16]> = Vec::new();
    let mut i: u16 = 0;
    while i < n
        invariant
            i <= n,
            item == bytes16_item(),
            s0 == old(r)@,
            r@.same_frame(s0),
            spec_repeat(s0, i as nat, item) matches Some((vs, st)) && crate::byte_stream::views(items@) == vs && r@ == st,
        decreases n - i,
    {
        let ghost before = r@;
        proof { assert(item(before) == bytes16_item()(before)); }
        let x: [u8; 16] = match read_bytes16_item(r) {
            Ok(x) => x,
            Err(e) => {
                proof { lemma_repeat_fails(s0, (i + 1) as nat, n as nat, item); }
                return Err(e);
            },
        };
        let ghost old_items = items@;
        items.push(x);
        proof { assert(crate::byte_stream::views(items@) =~= crate::byte_stream::views(old_items).push(x@)); }
        i = i + 1;
    }
    Ok(items)
}

fn read_unknown_somethings(r: &mut ByteStream) -> (res: Result<Vec<[u8; 16]>, ObjectBaseParseError>)
    ensures
        match spec_u16_counted(old(r)@, bytes16_item()) {
            Some((m, s2)) => res matches Ok(v) && views(v@) == m && final(r)@ == s2,
            None => res is Err,
        },
        final(r)@.same_frame(old(r)@),
{
    let n: u16 = match r.read_u16_le() {
        Ok(v) => v,
        Err(e) => return Err(ObjectBaseParseError::Io(e)),
    };
    read_bytes16_list(r, n)
}

/// The property bits of an object base: bits 0 to 9 are flags, and bit 12 is set when the object cannot be removed.
pub open spec fn spec_base_props(fb: u32) -> (bool, bool, bool, bool, bool, bool, bool, bool, bool, bool, bool) {
    (bit_is_set(fb, 0), bit_is_set(fb, 1), bit_is_set(fb, 2), bit_is_set(fb, 3), bit_is_set(fb, 4), bit_is_set(fb, 5), bit_is_set(fb, 6), bit_is_set(fb, 7), bit_is_set(fb, 8), bit_is_set(fb, 9), !bit_is_set(fb, 12))
}

fn check_base_props(flags: &mut CheckedBitfield) -> (r: (bool, bool, bool, bool, bool, bool, bool, bool, bool, bool, bool))
    ensures
        r == spec_base_props(old(flags).bits()),
        final(flags).bits() == old(flags).bits(),
        final(flags).checked() == old(flags).checked() | 0x13ff,
{
    let ghost c0 = flags.checked();
    let is_rotatable: bool = flags.check_bit(0);
    let ghost c1 = flags.checked();
    let is_selectable: bool = flags.check_bit(1);
    let ghost c2 = flags.checked();
    let is_movable: bool = flags.check_bit(2);
    let ghost c3 = flags.checked();
    let is_visible: bool = flags.check_bit(3);
    let ghost c4 = flags.checked();
    let is_replayable: bool = flags.check_bit(4);
    let ghost c5 = flags.checked();
    let is_clippable: bool = flags.check_bit(5);
    let ghost c6 = flags.checked();
    let is_template_object: bool = flags.check_bit(6);
    let ghost c7 = flags.checked();
    let is_flippable: bool = flags.check_bit(7);
    let ghost c8 = flags.checked();
    let has_been_to_att: bool = flags.check_bit(8);
    let ghost c9 = flags.checked();
    let is_locked: bool = flags.check_bit(9);
    let ghost c10 = flags.checked();
    let is_removable: bool = !flags.check_bit(12);
    let ghost c11 = flags.checked();
    proof {
        crate::bits::lemma_or_assoc(c0, crate::bits::bit_mask(0u8), crate::bits::bit_mask(1u8));
        crate::bits::lemma_or_assoc(c0, crate::bits::bit_mask(0u8) | crate::bits::bit_mask(1u8), crate::bits::bit_mask(2u8));
        crate::bits::lemma_or_assoc(c0, crate::bits::bit_mask(0u8) | crate::bits::bit_mask(1u8) | crate::bits::bit_mask(2u8), crate::bits::bit_mask(3u8));
        crate::bits::lemma_or_assoc(c0, crate::bits::bit_mask(0u8) | crate::bits::bit_mask(1u8) | crate::bits::bit_mask(2u8) | crate::bits::bit_mask(3u8), crate::bits::bit_mask(4u8));
        crate::bits::lemma_or_assoc(c0, crate::bits::bit_mask(0u8) | crate::bits::bit_mask(1u8) | crate::bits::bit_mask(2u8) | crate::bits::bit_mask(3u8) | crate::bits::bit_mask(4u8), crate::bits::bit_mask(5u8));
        crate::bits::lemma_or_assoc(c0, crate::bits::bit_mask(0u8) | crate::bits::bit_mask(1u8) | crate::bits::bit_mask(2u8) | crate::bits::bit_mask(3u8) | crate::bits::bit_mask(4u8) | crate::bits::bit_mask(5u8), crate::bits::bit_mask(6u8));
        crate::bits::lemma_or_assoc(c0, crate::bits::bit_mask(0u8) | crate::bits::bit_mask(1u8) | crate::bits::bit_mask(2u8) | crate::bits::bit_mask(3u8) | crate::bits::bit_mask(4u8) | crate::bits::bit_mask(5u8) | crate::bits::bit_mask(6u8), crate::bits::bit_mask(7u8));
        crate::bits::lemma_or_assoc(c0, crate::bits::bit_mask(0u8) | crate::bits::bit_mask(1u8) | crate::bits::bit_mask(2u8) | crate::bits::bit_mask(3u8) | crate::bits::bit_mask(4u8) | crate::bits::bit_mask(5u8) | crate::bits::bit_mask(6u8) | crate::bits::bit_mask(7u8), crate::bits::bit_mask(8u8));
        crate::bits::lemma_or_assoc(c0, crate::bits::bit_mask(0u8) | crate::bits::bit_mask(1u8) | crate::bits::bit_mask(2u8) | crate::bits::bit_mask(3u8) | crate::bits::bit_mask(4u8) | crate::bits::bit_mask(5u8) | crate::bits::bit_mask(6u8) | crate::bits::bit_mask(7u8) | crate::bits::bit_mask(8u8), crate::bits::bit_mask(9u8));
        crate::bits::lemma_or_assoc(c0, crate::bits::bit_mask(0u8) | crate::bits::bit_mask(1u8) | crate::bits::bit_mask(2u8) | crate::bits::bit_mask(3u8) | crate::bits::bit_mask(4u8) | crate::bits::bit_mask(5u8) | crate::bits::bit_mask(6u8) | crate::bits::bit_mask(7u8) | crate::bits::bit_mask(8u8) | crate::bits::bit_mask(9u8), crate::bits::bit_mask(12u8));
        crate::bits::lemma_chunk_masks();
        assert(c11 == c0 | 0x13ffu32);
    }
    (is_rotatable, is_selectable, is_movable, is_visible, is_replayable, is_clippable, is_template_object, is_flippable, has_been_to_att, is_locked, is_removable)
}

/// The fixed fields of an object base: format version, id, modification time, bounds, an integer time stamp and the resize mode.
#[verifier::opaque]
pub open spec fn spec_base_fixed(s: StreamModel) -> SpecRead<(u32, Seq<char>, Timestamp, Rect, u32, ResizeMode)> {
    match spec_u32(s) {
        Some((format_version, s1)) => 
        match spec_str_opt(spec_short_u8_string(s1)) {
            Some((uuid, s2)) => 
            match spec_ts_opt(s2) {
                Some((modified_time, s3)) => 
                match spec_rect(s3) {
                    Some((rect, s4)) => 
                    match spec_u32(s4) {
                        Some((timestamp_int, s5)) => 
                        match spec_then(spec_u8(s5), |v: u8| spec_resize_mode(v)) {
                            Some((resize_mode, s6)) => Some(((format_version, uuid, modified_time, rect, timestamp_int, resize_mode), s6)),
                            None => None,
                        },
                        None => None,
                    },
                    None => None,
                },
                None => None,
            },
            None => None,
        },
        None => None,
    }
}

fn read_base_fixed(r: &mut ByteStream) -> (res: Result<(u32, String, Timestamp, Rect, u32, ResizeMode), ObjectBaseParseError>)
    ensures
        match spec_base_fixed(old(r)@) {
            Some((m, s2)) => res matches Ok(v) && v.0 == m.0
                && v.1@ == m.1
                && v.2 == m.2
                && v.3 == m.3
                && v.4 == m.4
                && v.5 == m.5
                && final(r)@ == s2,
            None => res is Err,
        },
        final(r)@.same_frame(old(r)@),
{
    reveal(spec_base_fixed);
    let format_version: u32 = match r.read_u32_le() {
            Ok(v) => v,
            Err(e) => return Err(ObjectBaseParseError::Io(e)),
        };
    let uuid: String = match r.read_short_u8_string() {
            Ok(v) => v,
            Err(e) => return Err(ObjectBaseParseError::String(e)),
        };
    let modified_time: Timestamp = match r.read_timestamp() {
            Ok(v) => v,
            Err(e) => return Err(ObjectBaseParseError::Timestamp(e)),
        };
    let rect: Rect = match Rect::try_parse_f64(r) {
            Ok(v) => v,
            Err(e) => return Err(ObjectBaseParseError::Io(e)),
        };
    let timestamp_int: u32 = match r.read_u32_le() {
            Ok(v) => v,
            Err(e) => return Err(ObjectBaseParseError::Io(e)),
        };
    let resize_mode: ResizeMode = {
            let raw = match r.read_u8() {
            Ok(v) => v,
            Err(e) => return Err(ObjectBaseParseError::Io(e)),
        };
            match ResizeMode::try_from_u8(raw) {
                Ok(v) => v,
                Err(e) => return Err(ObjectBaseParseError::ResizeMode(e)),
            }
        };
    Ok((format_version, uuid, modified_time, rect, timestamp_int, resize_mode))
}

/// The optional fields of an object base on field bits 0 to 8.
#[verifier::opaque]
pub open spec fn spec_base_opt_a(s: StreamModel, fb: u32) -> SpecRead<(Option<RawF32>, Option<Seq<Seq<u8>>>, Option<Seq<char>>, Option<BundleModel>, Option<Seq<char>>, Option<BundleModel>, Option<u32>, Option<(RawF32, RawF32)>, Option<(RawF32, RawF32)>)> {
    match spec_opt(bit_is_set(fb, 0), spec_f32(s), s) {
        Some((angle, s1)) => 
        match spec_opt(bit_is_set(fb, 1), spec_u16_counted(s1, bytes16_item()), s1) {
            Some((unknown_somethings, s2)) => 
            match spec_opt(bit_is_set(fb, 2), spec_str_opt(spec_short_u16_string(s2)), s2) {
                Some((ao_info, s3)) => 
                match spec_opt(bit_is_set(fb, 3), spec_bundle(s3), s3) {
                    Some((sor_bundle, s4)) => 
                    match spec_opt(bit_is_set(fb, 4), spec_str_opt(spec_short_u16_string(s4)), s4) {
                        Some((plugin_link, s5)) => 
                        match spec_opt(bit_is_set(fb, 5), spec_bundle(s5), s5) {
                            Some((extra_bundle, s6)) => 
                            match spec_opt(bit_is_set(fb, 6), spec_u32(s6), s6) {
                                Some((attached_file_id, s7)) => 
                                match spec_opt(bit_is_set(fb, 7), spec_f32_pair(s7), s7) {
                                    Some((min_width_height, s8)) => 
                                    match spec_opt(bit_is_set(fb, 8), spec_f32_pair(s8), s8) {
                                        Some((max_width_height, s9)) => Some(((angle, unknown_somethings, ao_info, sor_bundle, plugin_link, extra_bundle, attached_file_id, min_width_height, max_width_height), s9)),
                                        None => None,
                                    },
                                    None => None,
                                },
                                None => None,
                            },
                            None => None,
                        },
                        None => None,
                    },
                    None => None,
                },
                None => None,
            },
            None => None,
        },
        None => None,
    }
}

#[verifier::rlimit(40)]
fn read_base_opt_a(r: &mut ByteStream, flags: &mut CheckedBitfield) -> (res: Result<(Option<RawF32>, Option<Vec<[u8; 16]>>, Option<String>, Option<Bundle>, Option<String>, Option<Bundle>, Option<u32>, Option<(RawF32, RawF32)>, Option<(RawF32, RawF32)>), ObjectBaseParseError>)
    ensures
        match spec_base_opt_a(old(r)@, old(flags).bits()) {
            Some((m, s2)) => res matches Ok(v) && v.0 == m.0
                && opt_vec_views(v.1) == m.1
                && opt_view(v.2) == m.2
                && opt_view(v.3) == m.3
                && opt_view(v.4) == m.4
                && opt_view(v.5) == m.5
                && v.6 == m.6
                && v.7 == m.7
                && v.8 == m.8
                && final(flags).bits() == old(flags).bits()
                && final(flags).checked() == old(flags).checked() | 0x1ff
                && final(r)@ == s2,
            None => res is Err,
        },
        final(r)@.same_frame(old(r)@),
{
    reveal(spec_base_opt_a);
    let ghost c0 = flags.checked();
    let present_angle: bool = flags.check_bit(0);
    let ghost c1 = flags.checked();
    let angle: Option<RawF32> = if present_angle {
        Some(match r.read_f32_le() {
            Ok(v) => v,
            Err(e) => return Err(ObjectBaseParseError::Io(e)),
        })
    } else {
        None
    };
    let present_unknown_somethings: bool = flags.check_bit(1);
    let ghost c2 = flags.checked();
    let unknown_somethings: Option<Vec<[u8; 16]>> = if present_unknown_somethings {
        Some(match read_unknown_somethings(r) {
            Ok(v) => v,
            Err(e) => return Err(e),
        })
    } else {
        None
    };
    let present_ao_info: bool = flags.check_bit(2);
    let ghost c3 = flags.checked();
    let ao_info: Option<String> = if present_ao_info {
        Some(match r.read_short_u16_string() {
            Ok(v) => v,
            Err(e) => return Err(ObjectBaseParseError::String(e)),
        })
    } else {
        None
    };
    let present_sor_bundle: bool = flags.check_bit(3);
    let ghost c4 = flags.checked();
    let sor_bundle: Option<Bundle> = if present_sor_bundle {
        Some(match Bundle::try_parse(r) {
            Ok(v) => v,
            Err(e) => return Err(ObjectBaseParseError::Bundle(e)),
        })
    } else {
        None
    };
    let present_plugin_link: bool = flags.check_bit(4);
    let ghost c5 = flags.checked();
    let plugin_link: Option<String> = if present_plugin_link {
        Some(match r.read_short_u16_string() {
            Ok(v) => v,
            Err(e) => return Err(ObjectBaseParseError::String(e)),
        })
    } else {
        None
    };
    let present_extra_bundle: bool = flags.check_bit(5);
    let ghost c6 = flags.checked();
    let extra_bundle: Option<Bundle> = if present_extra_bundle {
        Some(match Bundle::try_parse(r) {
            Ok(v) => v,
            Err(e) => return Err(ObjectBaseParseError::Bundle(e)),
        })
    } else {
        None
    };
    let present_attached_file_id: bool = flags.check_bit(6);
    let ghost c7 = flags.checked();
    let attached_file_id: Option<u32> = if present_attached_file_id {
        Some(match r.read_u32_le() {
            Ok(v) => v,
            Err(e) => return Err(ObjectBaseParseError::Io(e)),
        })
    } else {
        None
    };
    let present_min_width_height: bool = flags.check_bit(7);
    let ghost c8 = flags.checked();
    let min_width_height: Option<(RawF32, RawF32)> = if present_min_width_height {
        Some(match read_f32_pair(r) {
            Ok(v) => v,
            Err(e) => return Err(ObjectBaseParseError::Io(e)),
        })
    } else {
        None
    };
    let present_max_width_height: bool = flags.check_bit(8);
    let ghost c9 = flags.checked();
    let max_width_height: Option<(RawF32, RawF32)> = if present_max_width_height {
        Some(match read_f32_pair(r) {
            Ok(v) => v,
            Err(e) => return Err(ObjectBaseParseError::Io(e)),
        })
    } else {
        None
    };
    proof {
        crate::bits::lemma_or_assoc(c0, crate::bits::bit_mask(0u8), crate::bits::bit_mask(1u8));
        crate::bits::lemma_or_assoc(c0, crate::bits::bit_mask(0u8) | crate::bits::bit_mask(1u8), crate::bits::bit_mask(2u8));
        crate::bits::lemma_or_assoc(c0, crate::bits::bit_mask(0u8) | crate::bits::bit_mask(1u8) | crate::bits::bit_mask(2u8), crate::bits::bit_mask(3u8));
        crate::bits::lemma_or_assoc(c0, crate::bits::bit_mask(0u8) | crate::bits::bit_mask(1u8) | crate::bits::bit_mask(2u8) | crate::bits::bit_mask(3u8), crate::bits::bit_mask(4u8));
        crate::bits::lemma_or_assoc(c0, crate::bits::bit_mask(0u8) | crate::bits::bit_mask(1u8) | crate::bits::bit_mask(2u8) | crate::bits::bit_mask(3u8) | crate::bits::bit_mask(4u8), crate::bits::bit_mask(5u8));
        crate::bits::lemma_or_assoc(c0, crate::bits::bit_mask(0u8) | crate::bits::bit_mask(1u8) | crate::bits::bit_mask(2u8) | crate::bits::bit_mask(3u8) | crate::bits::bit_mask(4u8) | crate::bits::bit_mask(5u8), crate::bits::bit_mask(6u8));
        crate::bits::lemma_or_assoc(c0, crate::bits::bit_mask(0u8) | crate::bits::bit_mask(1u8) | crate::bits::bit_mask(2u8) | crate::bits::bit_mask(3u8) | crate::bits::bit_mask(4u8) | crate::bits::bit_mask(5u8) | crate::bits::bit_mask(6u8), crate::bits::bit_mask(7u8));
        crate::bits::lemma_or_assoc(c0, crate::bits::bit_mask(0u8) | crate::bits::bit_mask(1u8) | crate::bits::bit_mask(2u8) | crate::bits::bit_mask(3u8) | crate::bits::bit_mask(4u8) | crate::bits::bit_mask(5u8) | crate::bits::bit_mask(6u8) | crate::bits::bit_mask(7u8), crate::bits::bit_mask(8u8));
        crate::bits::lemma_chunk_masks();
        assert(c9 == c0 | 0x1ffu32);
    }
    Ok((angle, unknown_somethings, ao_info, sor_bundle, plugin_link, extra_bundle, attached_file_id, min_width_height, max_width_height))
}

/// The optional fields of an object base on field bits 13 to 19.
#[verifier::opaque]
pub open spec fn spec_base_opt_b(s: StreamModel, fb: u32) -> SpecRead<(Option<Timestamp>, Option<(u32, u32)>, Option<LayoutType>, Option<Seq<u8>>, Option<u32>, Option<Point>, Option<Seq<char>>)> {
    match spec_opt(bit_is_set(fb, 13), spec_ts_opt(s), s) {
        Some((append_time, s1)) => 
        match spec_opt(bit_is_set(fb, 14), spec_u32_pair(s1), s1) {
            Some((owner_page_width_height, s2)) => 
            match spec_opt(bit_is_set(fb, 15), spec_then(spec_u8(s2), |v: u8| spec_layout_type(v)), s2) {
                Some((layout_type, s3)) => 
                match spec_opt(bit_is_set(fb, 16), spec_take(s3, 20), s3) {
                    Some((unknown_20, s4)) => 
                    match spec_opt(bit_is_set(fb, 17), spec_u32(s4), s4) {
                        Some((thumbnail_bind_id, s5)) => 
                        match spec_opt(bit_is_set(fb, 18), spec_point(s5), s5) {
                            Some((pivot, s6)) => 
                            match spec_opt(bit_is_set(fb, 19), spec_str_opt(spec_short_u16_string(s6)), s6) {
                                Some((group_id, s7)) => Some(((append_time, owner_page_width_height, layout_type, unknown_20, thumbnail_bind_id, pivot, group_id), s7)),
                                None => None,
                            },
                            None => None,
                        },
                        None => None,
                    },
                    None => None,
                },
                None => None,
            },
            None => None,
        },
        None => None,
    }
}

#[verifier::rlimit(100)]
#[verifier::spinoff_prover]
fn read_base_opt_b(r: &mut ByteStream, flags: &mut CheckedBitfield) -> (res: Result<(Option<Timestamp>, Option<(u32, u32)>, Option<LayoutType>, Option<[u8; 20]>, Option<u32>, Option<Point>, Option<String>), ObjectBaseParseError>)
    ensures
        match spec_base_opt_b(old(r)@, old(flags).bits()) {
            Some((m, s2)) => res matches Ok(v) && v.0 == m.0
                && v.1 == m.1
                && v.2 == m.2
                && opt_view(v.3) == m.3
                && v.4 == m.4
                && v.5 == m.5
                && opt_view(v.6) == m.6
                && final(flags).bits() == old(flags).bits()
                && final(flags).checked() == old(flags).checked() | 0xfe000
                && final(r)@ == s2,
            None => res is Err,
        },
        final(r)@.same_frame(old(r)@),
{
    reveal(spec_base_opt_b);
    let ghost c0 = flags.checked();
    let present_append_time: bool = flags.check_bit(13);
    let ghost c1 = flags.checked();
    let append_time: Option<Timestamp> = if present_append_time {
        Some(match r.read_timestamp() {
            Ok(v) => v,
            Err(e) => return Err(ObjectBaseParseError::Timestamp(e)),
        })
    } else {
        None
    };
    let present_owner_page_width_height: bool = flags.check_bit(14);
    let ghost c2 = flags.checked();
    let owner_page_width_height: Option<(u32, u32)> = if present_owner_page_width_height {
        Some(match read_u32_pair(r) {
            Ok(v) => v,
            Err(e) => return Err(ObjectBaseParseError::Io(e)),
        })
    } else {
        None
    };
    let present_layout_type: bool = flags.check_bit(15);
    let ghost c3 = flags.checked();
    let layout_type: Option<LayoutType> = if present_layout_type {
        Some({
            let raw = match r.read_u8() {
            Ok(v) => v,
            Err(e) => return Err(ObjectBaseParseError::Io(e)),
        };
            match LayoutType::try_from_u8(raw) {
                Ok(v) => v,
                Err(e) => return Err(ObjectBaseParseError::LayoutType(e)),
            }
        })
    } else {
        None
    };
    let present_unknown_20: bool = flags.check_bit(16);
    let ghost c4 = flags.checked();
    let unknown_20: Option<[u8; 20]> = if present_unknown_20 {
        Some(match r.read_20_bytes() {
            Ok(v) => v,
            Err(e) => return Err(ObjectBaseParseError::Io(e)),
        })
    } else {
        None
    };
    let present_thumbnail_bind_id: bool = flags.check_bit(17);
    let ghost c5 = flags.checked();
    let thumbnail_bind_id: Option<u32> = if present_thumbnail_bind_id {
        Some(match r.read_u32_le() {
            Ok(v) => v,
            Err(e) => return Err(ObjectBaseParseError::Io(e)),
        })
    } else {
        None
    };
    let present_pivot: bool = flags.check_bit(18);
    let ghost c6 = flags.checked();
    let pivot: Option<Point> = if present_pivot {
        Some(match Point::try_parse_f64(r) {
            Ok(v) => v,
            Err(e) => return Err(ObjectBaseParseError::Io(e)),
        })
    } else {
        None
    };
    let present_group_id: bool = flags.check_bit(19);
    let ghost c7 = flags.checked();
    let group_id: Option<String> = if present_group_id {
        Some(match r.read_short_u16_string() {
            Ok(v) => v,
            Err(e) => return Err(ObjectBaseParseError::String(e)),
        })
    } else {
        None
    };
    proof {
        crate::bits::lemma_or_assoc(c0, crate::bits::bit_mask(13u8), crate::bits::bit_mask(14u8));
        crate::bits::lemma_or_assoc(c0, crate::bits::bit_mask(13u8) | crate::bits::bit_mask(14u8), crate::bits::bit_mask(15u8));
        crate::bits::lemma_or_assoc(c0, crate::bits::bit_mask(13u8) | crate::bits::bit_mask(14u8) | crate::bits::bit_mask(15u8), crate::bits::bit_mask(16u8));
        crate::bits::lemma_or_assoc(c0, crate::bits::bit_mask(13u8) | crate::bits::bit_mask(14u8) | crate::bits::bit_mask(15u8) | crate::bits::bit_mask(16u8), crate::bits::bit_mask(17u8));
        crate::bits::lemma_or_assoc(c0, crate::bits::bit_mask(13u8) | crate::bits::bit_mask(14u8) | crate::bits::bit_mask(15u8) | crate::bits::bit_mask(16u8) | crate::bits::bit_mask(17u8), crate::bits::bit_mask(18u8));
        crate::bits::lemma_or_assoc(c0, crate::bits::bit_mask(13u8) | crate::bits::bit_mask(14u8) | crate::bits::bit_mask(15u8) | crate::bits::bit_mask(16u8) | crate::bits::bit_mask(17u8) | crate::bits::bit_mask(18u8), crate::bits::bit_mask(19u8));
        crate::bits::lemma_chunk_masks();
        assert(c7 == c0 | 0xfe000u32);
    }
    Ok((append_time, owner_page_width_height, layout_type, unknown_20, thumbnail_bind_id, pivot, group_id))
}


/// What every object begins with.
#[derive(Debug)]
pub struct ObjectBase {
    pub is_rotatable: bool,
    pub is_selectable: bool,
    pub is_movable: bool,
    pub is_visible: bool,
    pub is_replayable: bool,
    pub is_clippable: bool,
    pub is_template_object: bool,
    pub is_flippable: bool,
    pub has_been_to_att: bool,
    pub is_locked: bool,
    pub is_removable: bool,
    pub format_version: u32,
    pub uuid: String,
    pub modified_time: Timestamp,
    pub rect: Rect,
    pub timestamp_int: u32,
    pub resize_mode: ResizeMode,
    pub angle: Option<RawF32>,
    pub unknown_somethings: Option<Vec<[u8; 16]>>,
    pub ao_info: Option<String>,
    pub sor_bundle: Option<Bundle>,
    pub plugin_link: Option<String>,
    pub extra_bundle: Option<Bundle>,
    pub attached_file_id: Option<u32>,
    pub min_width_height: Option<(RawF32, RawF32)>,
    pub max_width_height: Option<(RawF32, RawF32)>,
    pub append_time: Option<Timestamp>,
    pub owner_page_width_height: Option<(u32, u32)>,
    pub layout_type: Option<LayoutType>,
    pub unknown_20: Option<[u8; 20]>,
    pub thumbnail_bind_id: Option<u32>,
    pub pivot: Option<Point>,
    pub group_id: Option<String>,
}

pub struct ObjectBaseModel {
    /// The property flags, in the order of the fields of `ObjectBase`.
    pub properties: (bool, bool, bool, bool, bool, bool, bool, bool, bool, bool, bool),
    pub format_version: u32,
    pub uuid: Seq<char>,
    pub modified_time: Timestamp,
    pub rect: Rect,
    pub timestamp_int: u32,
    pub resize_mode: ResizeMode,
    pub angle: Option<RawF32>,
    pub unknown_somethings: Option<Seq<Seq<u8>>>,
    pub ao_info: Option<Seq<char>>,
    pub sor_bundle: Option<BundleModel>,
    pub plugin_link: Option<Seq<char>>,
    pub extra_bundle: Option<BundleModel>,
    pub attached_file_id: Option<u32>,
    pub min_width_height: Option<(RawF32, RawF32)>,
    pub max_width_height: Option<(RawF32, RawF32)>,
    pub append_time: Option<Timestamp>,
    pub owner_page_width_height: Option<(u32, u32)>,
    pub layout_type: Option<LayoutType>,
    pub unknown_20: Option<Seq<u8>>,
    pub thumbnail_bind_id: Option<u32>,
    pub pivot: Option<Point>,
    pub group_id: Option<Seq<char>>,
}

impl View for ObjectBase {
    type V = ObjectBaseModel;

    open spec fn view(&self) -> ObjectBaseModel {
        ObjectBaseModel {
            properties: (self.is_rotatable, self.is_selectable, self.is_movable, self.is_visible,
                self.is_replayable, self.is_clippable, self.is_template_object, self.is_flippable,
                self.has_been_to_att, self.is_locked, self.is_removable),
            format_version: self.format_version,
            uuid: self.uuid@,
            modified_time: self.modified_time,
            rect: self.rect,
            timestamp_int: self.timestamp_int,
            resize_mode: self.resize_mode,
            angle: self.angle,
            unknown_somethings: opt_vec_views(self.unknown_somethings),
            ao_info: opt_view(self.ao_info),
            sor_bundle: opt_view(self.sor_bundle),
            plugin_link: opt_view(self.plugin_link),
            extra_bundle: opt_view(self.extra_bundle),
            attached_file_id: self.attached_file_id,
            min_width_height: self.min_width_height,
            max_width_height: self.max_width_height,
            append_time: self.append_time,
            owner_page_width_height: self.owner_page_width_height,
            layout_type: self.layout_type,
            unknown_20: opt_view(self.unknown_20),
            thumbnail_bind_id: self.thumbnail_bind_id,
            pivot: self.pivot,
            group_id: opt_view(self.group_id),
        }
    }
}

/// The property bits that an object base handles.
pub open spec fn base_property_mask() -> u32 {
    0x13ffu32
}

/// The field bits that an object base handles.
pub open spec fn base_field_mask() -> u32 {
    0xfe1ffu32
}

/// Where the optional fields of a block begin, and with which field bits: at the flex offset
/// with the block's field bits, or, for a zero offset, where the fixed fields ended and with
/// no field bits.
pub open spec fn spec_flex(w: StreamModel, fb: crate::page::object::header::FlagBlockModel) -> Option<(StreamModel, u32)> {
    if fb.flex_offset == 0 {
        Some((w, 0))
    } else {
        match spec_seek(w, fb.flex_offset as int) {
            Some(w2) => Some((w2, fb.field_bits)),
            None => None,
        }
    }
}

/// An object base: an object block of data type 0 holding the property flags, the fixed fields
/// and the optional fields, with every set flag handled and every byte of the block used.
#[verifier::opaque]
pub open spec fn spec_object_base(s: StreamModel) -> SpecRead<ObjectBaseModel> {
    match spec_object_header(s, 0) {
        Some((fb, w, s1)) => match spec_base_fixed(w) {
            Some((x, w1)) => match spec_flex(w1, fb) {
                Some((w2, ff)) => match spec_base_opt_a(w2, ff) {
                    Some((a, w3)) => match spec_base_opt_b(w3, ff) {
                        Some((b, w4)) => if fb.property_bits & !base_property_mask() == 0
                            && ff & !base_field_mask() == 0 && w4.remaining() == 0 {
                            Some((ObjectBaseModel {
                                properties: spec_base_props(fb.property_bits),
                                format_version: x.0,
                                uuid: x.1,
                                modified_time: x.2,
                                rect: x.3,
                                timestamp_int: x.4,
                                resize_mode: x.5,
                                angle: a.0,
                                unknown_somethings: a.1,
                                ao_info: a.2,
                                sor_bundle: a.3,
                                plugin_link: a.4,
                                extra_bundle: a.5,
                                attached_file_id: a.6,
                                min_width_height: a.7,
                                max_width_height: a.8,
                                append_time: b.0,
                                owner_page_width_height: b.1,
                                layout_type: b.2,
                                unknown_20: b.3,
                                thumbnail_bind_id: b.4,
                                pivot: b.5,
                                group_id: b.6,
                            }, spec_continue(s1, w4)))
                        } else {
                            None
                        },
                        None => None,
                    },
                    None => None,
                },
                None => None,
            },
            None => None,
        },
        None => None,
    }
}

impl<'a> TryParse<ByteStream<'a>> for ObjectBase {
    type ParseError = ObjectBaseParseError;

    fn try_parse(stream: &mut ByteStream<'a>) -> (r: Result<ObjectBase, ObjectBaseParseError>)
        ensures
            match spec_object_base(old(stream)@) {
                Some((m, s2)) => r matches Ok(v) && v@ == m && final(stream)@ == s2,
                None => r is Err,
            },
            final(stream)@.same_frame(old(stream)@),
    {
        reveal(spec_object_base);
        let (mut header, mut w) = match ObjectHeader::try_parse(stream, 0) {
            Ok(v) => v,
            Err(e) => return Err(ObjectBaseParseError::Header(e)),
        };
        let ghost fbm = crate::page::object::header::FlagBlockModel {
            flex_offset: header.0.flex_offset(),
            property_bits: header.0.property_flags().bits(),
            field_bits: header.0.field_flags().bits(),
        };
        let props = check_base_props(header.property_flags_mut());
        let x = read_base_fixed(&mut w)?;
        let ff: &mut CheckedBitfield = match header.init_flex(&mut w) {
            Ok(f) => f,
            Err(e) => return Err(ObjectBaseParseError::Io(e)),
        };
        let a = read_base_opt_a(&mut w, ff)?;
        let b = read_base_opt_b(&mut w, ff)?;
        proof {
            let c = header.0.field_flags().checked();
            assert(c == 0xfe1ffu32) by (bit_vector)
                requires
                    c == (0u32 | 0x1ffu32) | 0xfe000u32,
            ;
            let pc = header.0.property_flags().checked();
            crate::bits::lemma_zero_or(0x13ffu32);
            assert(pc == 0x13ffu32);
        }
        if let Err(e) = header.ensure_flags_used() {
            return Err(ObjectBaseParseError::Header(e));
        }
        if let Err(e) = w.ensure_eof() {
            return Err(ObjectBaseParseError::Unfinished(e));
        }
        proof { use_type_invariant(&*stream); use_type_invariant(&w); }
        stream.continue_after(&w);
        Ok(ObjectBase {
            is_rotatable: props.0,
            is_selectable: props.1,
            is_movable: props.2,
            is_visible: props.3,
            is_replayable: props.4,
            is_clippable: props.5,
            is_template_object: props.6,
            is_flippable: props.7,
            has_been_to_att: props.8,
            is_locked: props.9,
            is_removable: props.10,
            format_version: x.0,
            uuid: x.1,
            modified_time: x.2,
            rect: x.3,
            timestamp_int: x.4,
            resize_mode: x.5,
            angle: a.0,
            unknown_somethings: a.1,
            ao_info: a.2,
            sor_bundle: a.3,
            plugin_link: a.4,
            extra_bundle: a.5,
            attached_file_id: a.6,
            min_width_height: a.7,
            max_width_height: a.8,
            append_time: b.0,
            owner_page_width_height: b.1,
            layout_type: b.2,
            unknown_20: b.3,
            thumbnail_bind_id: b.4,
            pivot: b.5,
            group_id: b.6,
        })
    }
}

/// The bytes whose SHA-256 digest is an object's hash: its uuid in UTF-8, then its modification
/// time in microseconds since the Unix epoch, in decimal.
pub open spec fn object_hash_input(uuid: Seq<char>, micros: i64) -> Seq<u8> {
    encode_utf8(uuid) + decimal_text(micros as int)
}

impl ObjectBase {
    /// The hash that a page stores after the object: the SHA-256 digest of
    /// `object_hash_input(uuid, modified_time)`.
    pub fn compute_hash(&self) -> (r: [u8; 32])
        ensures
            r@ == sha256_digest(object_hash_input(self.uuid@, self.modified_time.micros)),
    {
        let mut bytes: Vec<u8> = slice_to_vec(self.uuid.as_str().as_bytes());
        push_decimal(self.modified_time.micros, &mut bytes);
        sha256(bytes.as_slice())
    }

    pub fn uuid(&self) -> (r: &str)
        ensures
            r@ == self.uuid@,
    {
        self.uuid.as_str()
    }
}

} // verus!
