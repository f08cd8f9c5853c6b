//! Voice memo objects.
use vstd::prelude::*;

use crate::bits::{bit_is_set, CheckedBitfield};
use crate::byte_stream::{
    lemma_repeat_fails, opt_view, spec_continue, spec_f32, spec_opt, spec_opt_or, spec_repeat,
    spec_short_u16_string, spec_str_opt, spec_take, spec_then, spec_u16, spec_u32, spec_u8, views,
    ByteStream, ExactSizedStream, IoError, RawF32, ReadStringError, SpecRead, StreamModel,
    TryParse, UnfinishedParsingError,
};
use crate::page::object::base::{spec_flex, spec_object_base, ObjectBase, ObjectBaseModel, ObjectBaseParseError};
use crate::page::object::header::{spec_object_header, ObjectHeader, ObjectHeaderError};
use crate::page::object::header::{spec_flag_block, FlagBlock, FlagBlockError};
use crate::byte_stream::{spec_exclusive_window, spec_u32_counted};

verus! {

/// Failure to read a background gradient.
#[derive(Debug, Clone, Copy, PartialEq, Eq, Structural)]
pub enum BackgroundGradientError {
    Io(IoError),
    FlagBlock(FlagBlockError),
    Unfinished(UnfinishedParsingError),
    /// The stop count does not fit in `usize`.
    TooManyStops(u32),
}

/// A gradient stop: a colour and a position.
pub open spec fn spec_gradient_stop(s: StreamModel) -> SpecRead<(Seq<u8>, RawF32)> {
    match spec_take(s, 4) {
        Some((c, s1)) => match spec_f32(s1) {
            Some((p, s2)) => Some(((c, p), s2)),
            None => None,
        },
        None => None,
    }
}

pub open spec fn gradient_stop_item() -> spec_fn(StreamModel) -> SpecRead<(Seq<u8>, RawF32)> {
    |t: StreamModel| spec_gradient_stop(t)
}

fn read_gradient_stop(r: &mut ByteStream) -> (res: Result<([u8; 4], RawF32), BackgroundGradientError>)
    ensures
        match spec_gradient_stop(old(r)@) {
            Some((m, s2)) => res matches Ok(v) && v@ == m && final(r)@ == s2,
            None => res is Err,
        },
        final(r)@.same_frame(old(r)@),
{
    let c: [u8; 4] = match r.read_4_bytes() {
        Ok(v) => v,
        Err(e) => return Err(BackgroundGradientError::Io(e)),
    };
    let p: RawF32 = match r.read_f32_le() {
        Ok(v) => v,
        Err(e) => return Err(BackgroundGradientError::Io(e)),
    };
    Ok((c, p))
}

/// Reads `n` items.
fn read_gradient_stops_n(r: &mut ByteStream, n: u32) -> (res: Result<Vec<([u8; 4], RawF32)>, BackgroundGradientError>)
    ensures
        match spec_repeat(old(r)@, n as nat, gradient_stop_item()) {
            Some((vs, s2)) => res matches Ok(v) && crate::byte_stream::views(v@) == vs && final(r)@ == s2,
            None => res is Err,
        },
        final(r)@.same_frame(old(r)@),
{
    let ghost s0 = r@;
    let ghost item = gradient_stop_item();
    let mut items: Vec<([u8; 4], RawF32)> = Vec::new();
    let mut i: u32 = 0;
    while i < n
        invariant
            i <= n,
            item == gradient_stop_item(),
            s0 == old(r)@,
            r@.same_frame(s0),
            spec_repeat(s0, i as nat, item) matches Some((vs, st)) && crate::byte_stream::views(items@) == vs && r@ == st,
        decreases n - i,
    {
        let ghost before = r@;
        proof { assert(item(before) == gradient_stop_item()(before)); }
        let x: ([u8; 4], RawF32) = match read_gradient_stop(r) {
            Ok(x) => x,
            Err(e) => {
                proof { lemma_repeat_fails(s0, (i + 1) as nat, n as nat, item); }
                return Err(e);
            },
        };
        let ghost old_items = items@;
        items.push(x);
        proof { assert(crate::byte_stream::views(items@) =~= crate::byte_stream::views(old_items).push(x@)); }
        i = i + 1;
    }
    Ok(items)
}

/// A `u32` count, then that many items.
fn read_gradient_stops(r: &mut ByteStream) -> (res: Result<Vec<([u8; 4], RawF32)>, BackgroundGradientError>)
    ensures
        match spec_u32_counted(old(r)@, gradient_stop_item()) {
            Some((vs, s2)) => res matches Ok(v) && crate::byte_stream::views(v@) == vs && final(r)@ == s2,
            None => res is Err,
        },
        final(r)@.same_frame(old(r)@),
{
    let n: u32 = match r.read_u32_le() {
        Ok(v) => v,
        Err(e) => return Err(BackgroundGradientError::Io(e)),
    };
    read_gradient_stops_n(r, n)
}


/// The background of a voice memo.
#[derive(Debug)]
pub struct BackgroundGradient {
    pub stops: Vec<([u8; 4], RawF32)>,
}

impl View for BackgroundGradient {
    type V = Seq<(Seq<u8>, RawF32)>;

    open spec fn view(&self) -> Seq<(Seq<u8>, RawF32)> {
        views(self.stops@)
    }
}

/// A background gradient: a `u32` size and a window of that many bytes, holding a flag block
/// with no flag set, then a `u32` count of stops and the stops, and nothing more.
pub open spec fn spec_background_gradient(s: StreamModel) -> SpecRead<Seq<(Seq<u8>, RawF32)>> {
    match spec_exclusive_window(s) {
        Some((w, s1)) => match spec_flag_block(w) {
            Some((fb, w1)) => if fb.property_bits == 0 && fb.field_bits == 0 {
                match spec_u32_counted(w1, gradient_stop_item()) {
                    Some((stops, w2)) => if w2.remaining() == 0 {
                        Some((stops, spec_continue(s1, w2)))
                    } else {
                        None
                    },
                    None => None,
                }
            } else {
                None
            },
            None => None,
        },
        None => None,
    }
}

impl<'a> TryParse<ByteStream<'a>> for BackgroundGradient {
    type ParseError = BackgroundGradientError;

    fn try_parse(stream: &mut ByteStream<'a>) -> (r: Result<BackgroundGradient, BackgroundGradientError>)
        ensures
            match spec_background_gradient(old(stream)@) {
                Some((m, s2)) => r matches Ok(v) && v@ == m && final(stream)@ == s2,
                None => r is Err,
            },
            final(stream)@.same_frame(old(stream)@),
    {
        let mut w: ByteStream = match stream.exclusive_blind_window() {
            Ok(w) => w,
            Err(e) => return Err(BackgroundGradientError::Io(e)),
        };
        let fb: FlagBlock = match FlagBlock::try_parse(&mut w) {
            Ok(v) => v,
            Err(e) => return Err(BackgroundGradientError::FlagBlock(e)),
        };
        proof {
            let pb = fb.property_flags().bits();
            let fd = fb.field_flags().bits();
            crate::bits::lemma_and_not_zero(pb);
            crate::bits::lemma_and_not_zero(fd);
        }
        if let Err(e) = fb.ensure_flags_used() {
            return Err(BackgroundGradientError::FlagBlock(e));
        }
        let stops = read_gradient_stops(&mut w)?;
        if let Err(e) = w.ensure_eof() {
            return Err(BackgroundGradientError::Unfinished(e));
        }
        proof { use_type_invariant(&*stream); use_type_invariant(&w); }
        stream.continue_after(&w);
        Ok(BackgroundGradient { stops })
    }
}

/// Failure to read a voice memo object.
#[derive(Debug, Clone, Copy, PartialEq, Eq, Structural)]
pub enum AudioParseError {
    Io(IoError),
    Base(ObjectBaseParseError),
    Header(ObjectHeaderError),
    Unfinished(UnfinishedParsingError),
    BackgroundGradient(BackgroundGradientError),
    ViewType(InvalidViewTypeError),
    /// The title could not be read.
    Title(ReadStringError),
    /// The play time could not be read.
    PlayTime(ReadStringError),
    /// The body could not be read.
    Body(ReadStringError),
}

/// Two colours.
pub open spec fn spec_colour_pair(s: StreamModel) -> SpecRead<(Seq<u8>, Seq<u8>)> {
    match spec_take(s, 4) {
        Some((a, s1)) => match spec_take(s1, 4) {
            Some((b, s2)) => Some(((a, b), s2)),
            None => None,
        },
        None => None,
    }
}

fn read_colour_pair(r: &mut ByteStream) -> (res: Result<([u8; 4], [u8; 4]), IoError>)
    ensures
        match spec_colour_pair(old(r)@) {
            Some((m, s2)) => res matches Ok(v) && v@ == m && final(r)@ == s2,
            None => res is Err,
        },
        final(r)@.same_frame(old(r)@),
{
    let a: [u8; 4] = r.read_4_bytes()?;
    let b: [u8; 4] = r.read_4_bytes()?;
    Ok((a, b))
}

/// How large a voice memo is shown.
#[derive(Debug, Clone, Copy, PartialEq, Eq, Structural)]
pub enum ViewType {
    /// `0`
    Small,
    /// `1`
    Medium,
    /// `2`
    Large,
}

/// The value is not that of a `ViewType`.
#[derive(Debug, Clone, Copy, PartialEq, Eq, Structural)]
pub struct InvalidViewTypeError {
    pub bad_value: u32,
}

/// The `ViewType` that `v` stands for: 0 to 2 in declaration order.
pub open spec fn spec_view_type(v: u32) -> Option<ViewType> {
    if v == 0 {
        Some(ViewType::Small)
    } else if v == 1 {
        Some(ViewType::Medium)
    } else if v == 2 {
        Some(ViewType::Large)
    } else {
        None
    }
}

impl ViewType {
    pub fn try_from_u32(v: u32) -> (r: Result<ViewType, InvalidViewTypeError>)
        ensures
            match spec_view_type(v) {
                Some(x) => r == Ok::<ViewType, InvalidViewTypeError>(x),
                None => r == Err::<ViewType, InvalidViewTypeError>(InvalidViewTypeError { bad_value: v }),
            },
    {
        match v {
            0 => Ok(ViewType::Small),
            1 => Ok(ViewType::Medium),
            2 => Ok(ViewType::Large),
            _ => Err(InvalidViewTypeError { bad_value: v }),
        }
    }
}

/// The property bits of a `Audio`.
pub open spec fn spec_audio_props(fb: u32) -> (bool,) {
    (bit_is_set(fb, 0),)
}

fn check_audio_props(flags: &mut CheckedBitfield) -> (r: (bool,))
    ensures
        r == spec_audio_props(old(flags).bits()),
        final(flags).bits() == old(flags).bits(),
        final(flags).checked() == old(flags).checked() | 0x1,
{
    let ghost c0 = flags.checked();
    let is_recorded: bool = flags.check_bit(0);
    let ghost c1 = flags.checked();
    proof {
        crate::bits::lemma_chunk_masks();
        assert(c1 == c0 | 0x1u32);
    }
    (is_recorded,)
}

fn read_audio_opt0_attached_file_id(r: &mut ByteStream, present: bool) -> (res: Result<Option<u32>, AudioParseError>)
    ensures
        match spec_opt(present, spec_u32(old(r)@), old(r)@) {
            Some((m, s2)) => res matches Ok(v) && v == m && final(r)@ == s2,
            None => res is Err,
        },
        final(r)@.same_frame(old(r)@),
{
    if present {
        Ok(Some(match r.read_u32_le() {
            Ok(v) => v,
            Err(e) => return Err(AudioParseError::Io(e)),
        }))
    } else {
        Ok(None)
    }
}

fn read_audio_opt0_title(r: &mut ByteStream, present: bool) -> (res: Result<Option<String>, AudioParseError>)
    ensures
        match spec_opt(present, spec_str_opt(spec_short_u16_string(old(r)@)), old(r)@) {
            Some((m, s2)) => res matches Ok(v) && opt_view(v) == m && final(r)@ == s2,
            None => res is Err,
        },
        final(r)@.same_frame(old(r)@),
{
    if present {
        Ok(Some(match r.read_short_u16_string() {
            Ok(v) => v,
            Err(e) => return Err(AudioParseError::Title(e)),
        }))
    } else {
        Ok(None)
    }
}

fn read_audio_opt0_play_time(r: &mut ByteStream, present: bool) -> (res: Result<Option<String>, AudioParseError>)
    ensures
        match spec_opt(present, spec_str_opt(spec_short_u16_string(old(r)@)), old(r)@) {
            Some((m, s2)) => res matches Ok(v) && opt_view(v) == m && final(r)@ == s2,
            None => res is Err,
        },
        final(r)@.same_frame(old(r)@),
{
    if present {
        Ok(Some(match r.read_short_u16_string() {
            Ok(v) => v,
            Err(e) => return Err(AudioParseError::PlayTime(e)),
        }))
    } else {
        Ok(None)
    }
}

fn read_audio_opt0_background_gradient(r: &mut ByteStream, present: bool) -> (res: Result<Option<BackgroundGradient>, AudioParseError>)
    ensures
        match spec_opt(present, spec_background_gradient(old(r)@), old(r)@) {
            Some((m, s2)) => res matches Ok(v) && opt_view(v) == m && final(r)@ == s2,
            None => res is Err,
        },
        final(r)@.same_frame(old(r)@),
{
    if present {
        Ok(Some(match BackgroundGradient::try_parse(r) {
            Ok(v) => v,
            Err(e) => return Err(AudioParseError::BackgroundGradient(e)),
        }))
    } else {
        Ok(None)
    }
}

fn read_audio_opt0_version(r: &mut ByteStream, present: bool) -> (res: Result<Option<u32>, AudioParseError>)
    ensures
        match spec_opt(present, spec_u32(old(r)@), old(r)@) {
            Some((m, s2)) => res matches Ok(v) && v == m && final(r)@ == s2,
            None => res is Err,
        },
        final(r)@.same_frame(old(r)@),
{
    if present {
        Ok(Some(match r.read_u32_le() {
            Ok(v) => v,
            Err(e) => return Err(AudioParseError::Io(e)),
        }))
    } else {
        Ok(None)
    }
}

/// Fields of a `Audio` after its flex offset.
#[verifier::opaque]
pub open spec fn spec_audio_opt0(s: StreamModel, fb: u32) -> SpecRead<(Option<u32>, Option<Seq<char>>, Option<Seq<char>>, Option<Seq<(Seq<u8>, RawF32)>>, Option<u32>)> {
    match spec_opt(bit_is_set(fb, 0), spec_u32(s), s) {
        Some((attached_file_id, s1)) => 
        match spec_opt(bit_is_set(fb, 1), spec_str_opt(spec_short_u16_string(s1)), s1) {
            Some((title, s2)) => 
            match spec_opt(bit_is_set(fb, 2), spec_str_opt(spec_short_u16_string(s2)), s2) {
                Some((play_time, s3)) => 
                match spec_opt(bit_is_set(fb, 3), spec_background_gradient(s3), s3) {
                    Some((background_gradient, s4)) => 
                    match spec_opt(bit_is_set(fb, 4), spec_u32(s4), s4) {
                        Some((version, s5)) => Some(((attached_file_id, title, play_time, background_gradient, version), s5)),
                        None => None,
                    },
                    None => None,
                },
                None => None,
            },
            None => None,
        },
        None => None,
    }
}

#[verifier::rlimit(30)]
fn read_audio_opt0(r: &mut ByteStream, flags: &mut CheckedBitfield) -> (res: Result<(Option<u32>, Option<String>, Option<String>, Option<BackgroundGradient>, Option<u32>), AudioParseError>)
    ensures
        match spec_audio_opt0(old(r)@, old(flags).bits()) {
            Some((m, s2)) => res matches Ok(v) && v.0 == m.0
                && opt_view(v.1) == m.1
                && opt_view(v.2) == m.2
                && opt_view(v.3) == m.3
                && v.4 == m.4
                && final(flags).bits() == old(flags).bits()
                && final(flags).checked() == old(flags).checked() | 0x1f
                && final(r)@ == s2,
            None => res is Err,
        },
        final(r)@.same_frame(old(r)@),
{
    reveal(spec_audio_opt0);
    let ghost c0 = flags.checked();
    let present_attached_file_id: bool = flags.check_bit(0);
    let ghost c1 = flags.checked();
    let attached_file_id: Option<u32> = read_audio_opt0_attached_file_id(r, present_attached_file_id)?;
    let present_title: bool = flags.check_bit(1);
    let ghost c2 = flags.checked();
    let title: Option<String> = read_audio_opt0_title(r, present_title)?;
    let present_play_time: bool = flags.check_bit(2);
    let ghost c3 = flags.checked();
    let play_time: Option<String> = read_audio_opt0_play_time(r, present_play_time)?;
    let present_background_gradient: bool = flags.check_bit(3);
    let ghost c4 = flags.checked();
    let background_gradient: Option<BackgroundGradient> = read_audio_opt0_background_gradient(r, present_background_gradient)?;
    let present_version: bool = flags.check_bit(4);
    let ghost c5 = flags.checked();
    let version: Option<u32> = read_audio_opt0_version(r, present_version)?;
    proof {
        crate::bits::lemma_or_assoc(c0, crate::bits::bit_mask(0u8), crate::bits::bit_mask(1u8));
        crate::bits::lemma_or_assoc(c0, crate::bits::bit_mask(0u8) | crate::bits::bit_mask(1u8), crate::bits::bit_mask(2u8));
        crate::bits::lemma_or_assoc(c0, crate::bits::bit_mask(0u8) | crate::bits::bit_mask(1u8) | crate::bits::bit_mask(2u8), crate::bits::bit_mask(3u8));
        crate::bits::lemma_or_assoc(c0, crate::bits::bit_mask(0u8) | crate::bits::bit_mask(1u8) | crate::bits::bit_mask(2u8) | crate::bits::bit_mask(3u8), crate::bits::bit_mask(4u8));
        crate::bits::lemma_chunk_masks();
        assert(c5 == c0 | 0x1fu32);
    }
    Ok((attached_file_id, title, play_time, background_gradient, version))
}

fn read_audio_opt1_thumbnail_file_id(r: &mut ByteStream, present: bool) -> (res: Result<Option<u32>, AudioParseError>)
    ensures
        match spec_opt(present, spec_u32(old(r)@), old(r)@) {
            Some((m, s2)) => res matches Ok(v) && v == m && final(r)@ == s2,
            None => res is Err,
        },
        final(r)@.same_frame(old(r)@),
{
    if present {
        Ok(Some(match r.read_u32_le() {
            Ok(v) => v,
            Err(e) => return Err(AudioParseError::Io(e)),
        }))
    } else {
        Ok(None)
    }
}

fn read_audio_opt1_body(r: &mut ByteStream, present: bool) -> (res: Result<Option<String>, AudioParseError>)
    ensures
        match spec_opt(present, spec_str_opt(spec_short_u16_string(old(r)@)), old(r)@) {
            Some((m, s2)) => res matches Ok(v) && opt_view(v) == m && final(r)@ == s2,
            None => res is Err,
        },
        final(r)@.same_frame(old(r)@),
{
    if present {
        Ok(Some(match r.read_short_u16_string() {
            Ok(v) => v,
            Err(e) => return Err(AudioParseError::Body(e)),
        }))
    } else {
        Ok(None)
    }
}

fn read_audio_opt1_dummy_thumbnail_colours(r: &mut ByteStream, present: bool) -> (res: Result<Option<([u8; 4], [u8; 4])>, AudioParseError>)
    ensures
        match spec_opt(present, spec_colour_pair(old(r)@), old(r)@) {
            Some((m, s2)) => res matches Ok(v) && opt_view(v) == m && final(r)@ == s2,
            None => res is Err,
        },
        final(r)@.same_frame(old(r)@),
{
    if present {
        Ok(Some(match read_colour_pair(r) {
            Ok(v) => v,
            Err(e) => return Err(AudioParseError::Io(e)),
        }))
    } else {
        Ok(None)
    }
}

fn read_audio_opt1_view_type(r: &mut ByteStream, present: bool) -> (res: Result<ViewType, AudioParseError>)
    ensures
        match spec_opt_or(present, spec_then(spec_u32(old(r)@), |v: u32| spec_view_type(v)), old(r)@, ViewType::Small) {
            Some((m, s2)) => res matches Ok(v) && v == m && final(r)@ == s2,
            None => res is Err,
        },
        final(r)@.same_frame(old(r)@),
{
    if present {
        Ok({
            let raw = match r.read_u32_le() {
            Ok(v) => v,
            Err(e) => return Err(AudioParseError::Io(e)),
        };
            match ViewType::try_from_u32(raw) {
                Ok(v) => v,
                Err(e) => return Err(AudioParseError::ViewType(e)),
            }
        })
    } else {
        Ok(ViewType::Small)
    }
}

/// Fields of a `Audio` after its flex offset.
#[verifier::opaque]
pub open spec fn spec_audio_opt1(s: StreamModel, fb: u32) -> SpecRead<(Option<u32>, Option<Seq<char>>, Option<(Seq<u8>, Seq<u8>)>, ViewType)> {
    match spec_opt(bit_is_set(fb, 6), spec_u32(s), s) {
        Some((thumbnail_file_id, s1)) => 
        match spec_opt(bit_is_set(fb, 7), spec_str_opt(spec_short_u16_string(s1)), s1) {
            Some((body, s2)) => 
            match spec_opt(bit_is_set(fb, 8), spec_colour_pair(s2), s2) {
                Some((dummy_thumbnail_colours, s3)) => 
                match spec_opt_or(bit_is_set(fb, 9), spec_then(spec_u32(s3), |v: u32| spec_view_type(v)), s3, ViewType::Small) {
                    Some((view_type, s4)) => Some(((thumbnail_file_id, body, dummy_thumbnail_colours, view_type), s4)),
                    None => None,
                },
                None => None,
            },
            None => None,
        },
        None => None,
    }
}

#[verifier::rlimit(30)]
fn read_audio_opt1(r: &mut ByteStream, flags: &mut CheckedBitfield) -> (res: Result<(Option<u32>, Option<String>, Option<([u8; 4], [u8; 4])>, ViewType), AudioParseError>)
    ensures
        match spec_audio_opt1(old(r)@, old(flags).bits()) {
            Some((m, s2)) => res matches Ok(v) && v.0 == m.0
                && opt_view(v.1) == m.1
                && opt_view(v.2) == m.2
                && v.3 == m.3
                && final(flags).bits() == old(flags).bits()
                && final(flags).checked() == old(flags).checked() | 0x3c0
                && final(r)@ == s2,
            None => res is Err,
        },
        final(r)@.same_frame(old(r)@),
{
    reveal(spec_audio_opt1);
    let ghost c0 = flags.checked();
    let present_thumbnail_file_id: bool = flags.check_bit(6);
    let ghost c1 = flags.checked();
    let thumbnail_file_id: Option<u32> = read_audio_opt1_thumbnail_file_id(r, present_thumbnail_file_id)?;
    let present_body: bool = flags.check_bit(7);
    let ghost c2 = flags.checked();
    let body: Option<String> = read_audio_opt1_body(r, present_body)?;
    let present_dummy_thumbnail_colours: bool = flags.check_bit(8);
    let ghost c3 = flags.checked();
    let dummy_thumbnail_colours: Option<([u8; 4], [u8; 4])> = read_audio_opt1_dummy_thumbnail_colours(r, present_dummy_thumbnail_colours)?;
    let present_view_type: bool = flags.check_bit(9);
    let ghost c4 = flags.checked();
    let view_type: ViewType = read_audio_opt1_view_type(r, present_view_type)?;
    proof {
        crate::bits::lemma_or_assoc(c0, crate::bits::bit_mask(6u8), crate::bits::bit_mask(7u8));
        crate::bits::lemma_or_assoc(c0, crate::bits::bit_mask(6u8) | crate::bits::bit_mask(7u8), crate::bits::bit_mask(8u8));
        crate::bits::lemma_or_assoc(c0, crate::bits::bit_mask(6u8) | crate::bits::bit_mask(7u8) | crate::bits::bit_mask(8u8), crate::bits::bit_mask(9u8));
        crate::bits::lemma_chunk_masks();
        assert(c4 == c0 | 0x3c0u32);
    }
    Ok((thumbnail_file_id, body, dummy_thumbnail_colours, view_type))
}

/// A voice memo.
#[derive(Debug)]
pub struct Audio {
    pub object_base: ObjectBase,
    pub is_recorded: bool,
    pub attached_file_id: Option<u32>,
    pub title: Option<String>,
    pub play_time: Option<String>,
    pub background_gradient: Option<BackgroundGradient>,
    pub version: Option<u32>,
    pub thumbnail_file_id: Option<u32>,
    pub body: Option<String>,
    pub dummy_thumbnail_colours: Option<([u8; 4], [u8; 4])>,
    pub view_type: ViewType,
}

pub struct AudioModel {
    pub object_base: ObjectBaseModel,
    pub is_recorded: bool,
    pub attached_file_id: Option<u32>,
    pub title: Option<Seq<char>>,
    pub play_time: Option<Seq<char>>,
    pub background_gradient: Option<Seq<(Seq<u8>, RawF32)>>,
    pub version: Option<u32>,
    pub thumbnail_file_id: Option<u32>,
    pub body: Option<Seq<char>>,
    pub dummy_thumbnail_colours: Option<(Seq<u8>, Seq<u8>)>,
    pub view_type: ViewType,
}

impl View for Audio {
    type V = AudioModel;

    open spec fn view(&self) -> AudioModel {
        AudioModel {
            object_base: self.object_base@,
            is_recorded: self.is_recorded,
            attached_file_id: self.attached_file_id,
            title: opt_view(self.title),
            play_time: opt_view(self.play_time),
            background_gradient: opt_view(self.background_gradient),
            version: self.version,
            thumbnail_file_id: self.thumbnail_file_id,
            body: opt_view(self.body),
            dummy_thumbnail_colours: opt_view(self.dummy_thumbnail_colours),
            view_type: self.view_type,
        }
    }
}

/// A `Audio`: its base, then an object block of data type 10.
#[verifier::opaque]
#[verifier::opaque]
pub open spec fn spec_audio(s: StreamModel) -> SpecRead<AudioModel> {
    match spec_object_base(s) {
        Some((base, s1)) => match spec_object_header(s1, 10) {
            Some((fb, w, s2)) => match spec_flex(w, fb) {
                Some((wf, ff)) => match spec_audio_opt0(wf, ff) {
                    Some((o0, w0)) => match spec_audio_opt1(w0, ff) {
                        Some((o1, w1)) => if fb.property_bits & !0x1u32 == 0 && ff & !0x3dfu32 == 0 && w1.remaining() == 0 {
                            Some((AudioModel {
                                object_base: base,
                                is_recorded: spec_audio_props(fb.property_bits).0,
                                attached_file_id: o0.0,
                                title: o0.1,
                                play_time: o0.2,
                                background_gradient: o0.3,
                                version: o0.4,
                                thumbnail_file_id: o1.0,
                                body: o1.1,
                                dummy_thumbnail_colours: o1.2,
                                view_type: o1.3,
                            }, spec_continue(s2, w1)))
                        } else {
                            None
                        },
                        None => None,
                    },
                    None => None,
                },
                None => None,
            },
            None => None,
        },
        None => None,
    }
}

impl<'a> TryParse<ByteStream<'a>> for Audio {
    type ParseError = AudioParseError;

    fn try_parse(stream: &mut ByteStream<'a>) -> (r: Result<Audio, AudioParseError>)
        ensures
            match spec_audio(old(stream)@) {
                Some((m, s2)) => r matches Ok(v) && v@ == m && final(stream)@ == s2,
                None => r is Err,
            },
            final(stream)@.same_frame(old(stream)@),
    {
        proof {
            reveal(spec_audio);
        }
        reveal(spec_audio);
        let object_base: ObjectBase = match ObjectBase::try_parse(stream) {
            Ok(v) => v,
            Err(e) => return Err(AudioParseError::Base(e)),
        };
        let (mut header, mut w) = match ObjectHeader::try_parse(stream, 10) {
            Ok(v) => v,
            Err(e) => return Err(AudioParseError::Header(e)),
        };
        let props = check_audio_props(header.property_flags_mut());
        let ff: &mut CheckedBitfield = match header.init_flex(&mut w) {
            Ok(f) => f,
            Err(e) => return Err(AudioParseError::Io(e)),
        };
        let o0 = read_audio_opt0(&mut w, ff)?;
        let o1 = read_audio_opt1(&mut w, ff)?;
        proof {
            let fc = header.0.field_flags().checked();
            assert(fc == 0x3dfu32) by (bit_vector)
                requires
                    fc == ((0u32 | 0x1fu32) | 0x3c0u32),
            ;
            let pc = header.0.property_flags().checked();
            crate::bits::lemma_zero_or(0x1u32);
            assert(pc == 0x1u32);
        }
        if let Err(e) = header.ensure_flags_used() {
            return Err(AudioParseError::Header(e));
        }
        if let Err(e) = w.ensure_eof() {
            return Err(AudioParseError::Unfinished(e));
        }
        proof { use_type_invariant(&*stream); use_type_invariant(&w); }
        stream.continue_after(&w);
        Ok(Audio {
            object_base,
            is_recorded: props.0,
            attached_file_id: o0.0,
            title: o0.1,
            play_time: o0.2,
            background_gradient: o0.3,
            version: o0.4,
            thumbnail_file_id: o1.0,
            body: o1.1,
            dummy_thumbnail_colours: o1.2,
            view_type: o1.3,
        })
    }
}


impl Audio {
    pub fn object_base(&self) -> (r: &ObjectBase)
        ensures
            r@ == self@.object_base,
    {
        &self.object_base
    }
}

} // verus!
