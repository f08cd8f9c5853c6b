//! Pen strokes.
use vstd::prelude::*;

use crate::bits::{bit_is_set, CheckedBitfield};
use crate::byte_stream::{
    lemma_repeat_fails, opt_view, spec_continue, spec_f32, spec_f64, spec_opt, spec_opt_or, spec_repeat,
    spec_take, spec_then, spec_u16, spec_u16s, spec_u32, views, ByteStream, ExactSizedStream,
    IoError, RawF32, RawF64, SpecRead, StreamModel, TryParse, UnfinishedParsingError,
};
use crate::page::object::base::{spec_flex, spec_object_base, ObjectBase, ObjectBaseModel, ObjectBaseParseError};
use crate::page::object::header::{spec_object_header, ObjectHeader, ObjectHeaderError};
use crate::page::object::shared::{spec_point, Point};

verus! {

/// What drew a stroke.
#[derive(Debug, Clone, Copy, PartialEq, Eq, Structural)]
pub enum ToolType {
    /// `TOOL_TYPE_UNKNOWN`
    Unknown,
    /// `TOOL_TYPE_FINGER`
    Finger,
    /// `TOOL_TYPE_SPEN`
    Pen,
    /// `TOOL_TYPE_MOUSE`
    Mouse,
    /// `TOOL_TYPE_ERASER`
    Eraser,
}

/// The value is not that of a `ToolType`.
#[derive(Debug, Clone, Copy, PartialEq, Eq, Structural)]
pub struct InvalidToolTypeError {
    pub bad_value: u16,
}

/// The `ToolType` that `v` stands for: 0 to 4 in declaration order.
pub open spec fn spec_tool_type(v: u16) -> Option<ToolType> {
    if v == 0 {
        Some(ToolType::Unknown)
    } else if v == 1 {
        Some(ToolType::Finger)
    } else if v == 2 {
        Some(ToolType::Pen)
    } else if v == 3 {
        Some(ToolType::Mouse)
    } else if v == 4 {
        Some(ToolType::Eraser)
    } else {
        None
    }
}

impl ToolType {
    pub fn try_from_u16(v: u16) -> (r: Result<ToolType, InvalidToolTypeError>)
        ensures
            match spec_tool_type(v) {
                Some(x) => r == Ok::<ToolType, InvalidToolTypeError>(x),
                None => r == Err::<ToolType, InvalidToolTypeError>(InvalidToolTypeError { bad_value: v }),
            },
    {
        match v {
            0 => Ok(ToolType::Unknown),
            1 => Ok(ToolType::Finger),
            2 => Ok(ToolType::Pen),
            3 => Ok(ToolType::Mouse),
            4 => Ok(ToolType::Eraser),
            _ => Err(InvalidToolTypeError { bad_value: v }),
        }
    }
}

/// The dash pattern of a stroke.
#[derive(Debug, Clone, Copy, PartialEq, Eq, Structural)]
pub enum DashType {
    /// `CONTINUOUS_LINE`
    Continuous,
    /// `DASHED_LINE`
    Dashed,
    /// `DASHED_SPACE_LINE`
    DashedSpace,
    /// `LONG_DASHED_DOTTED_LINE`
    LongDashedDotted,
    /// `LONG_DASHED_DOUBLE_DOTTED_LINE`
    LongDashedDoubleDotted,
    /// `LONG_DASHED_TRIPLE_DOTTED_LINE`
    LongDashedTripleDotted,
    /// `DOTTED_LINE`
    Dotted,
    /// `LONG_DASHED_SHORT_DASHED_LINE`
    LongDashedShortDashed,
    /// `LONG_DASHED_DOULBE_SHORT_DASHED_LINE`
    LongDashedDoulbeShortDashed,
    /// `DASHED_DOTTED_LINE`
    DashedDotted,
    /// `DOUBLE_DASHED_DOTTED_LINE`
    DoubleDashedDotted,
    /// `DASHED_DOUBLE_DOTTED_LINE`
    DashedDoubleDotted,
    /// `DOUBLE_DASHED_DOUBLE_DOTTED_LINE`
    DoubleDashedDoubleDotted,
    /// `DASHED_TRIPLE_DOTTED_LINE`
    DashedTripleDotted,
    /// `DOUBLE_DASHED_TRIPLE_DOTTED_LINE`
    DoubleDashedTripleDotted,
}

/// The value is not that of a `DashType`.
#[derive(Debug, Clone, Copy, PartialEq, Eq, Structural)]
pub struct InvalidDashTypeError {
    pub bad_value: u16,
}

/// The `DashType` that `v` stands for: 0 to 14 in declaration order.
pub open spec fn spec_stroke_dash_type(v: u16) -> Option<DashType> {
    if v == 0 {
        Some(DashType::Continuous)
    } else if v == 1 {
        Some(DashType::Dashed)
    } else if v == 2 {
        Some(DashType::DashedSpace)
    } else if v == 3 {
        Some(DashType::LongDashedDotted)
    } else if v == 4 {
        Some(DashType::LongDashedDoubleDotted)
    } else if v == 5 {
        Some(DashType::LongDashedTripleDotted)
    } else if v == 6 {
        Some(DashType::Dotted)
    } else if v == 7 {
        Some(DashType::LongDashedShortDashed)
    } else if v == 8 {
        Some(DashType::LongDashedDoulbeShortDashed)
    } else if v == 9 {
        Some(DashType::DashedDotted)
    } else if v == 10 {
        Some(DashType::DoubleDashedDotted)
    } else if v == 11 {
        Some(DashType::DashedDoubleDotted)
    } else if v == 12 {
        Some(DashType::DoubleDashedDoubleDotted)
    } else if v == 13 {
        Some(DashType::DashedTripleDotted)
    } else if v == 14 {
        Some(DashType::DoubleDashedTripleDotted)
    } else {
        None
    }
}

impl DashType {
    pub fn try_from_u16(v: u16) -> (r: Result<DashType, InvalidDashTypeError>)
        ensures
            match spec_stroke_dash_type(v) {
                Some(x) => r == Ok::<DashType, InvalidDashTypeError>(x),
                None => r == Err::<DashType, InvalidDashTypeError>(InvalidDashTypeError { bad_value: v }),
            },
    {
        match v {
            0 => Ok(DashType::Continuous),
            1 => Ok(DashType::Dashed),
            2 => Ok(DashType::DashedSpace),
            3 => Ok(DashType::LongDashedDotted),
            4 => Ok(DashType::LongDashedDoubleDotted),
            5 => Ok(DashType::LongDashedTripleDotted),
            6 => Ok(DashType::Dotted),
            7 => Ok(DashType::LongDashedShortDashed),
            8 => Ok(DashType::LongDashedDoulbeShortDashed),
            9 => Ok(DashType::DashedDotted),
            10 => Ok(DashType::DoubleDashedDotted),
            11 => Ok(DashType::DashedDoubleDotted),
            12 => Ok(DashType::DoubleDashedDoubleDotted),
            13 => Ok(DashType::DashedTripleDotted),
            14 => Ok(DashType::DoubleDashedTripleDotted),
            _ => Err(InvalidDashTypeError { bad_value: v }),
        }
    }
}

/// The type of a stroke; the app refuses values of 3 or more.
#[derive(Debug, Clone, Copy, PartialEq, Eq, Structural)]
pub enum StrokeType {
    /// `0`
    Zero,
    /// `1`
    One,
    /// `2`
    Two,
}

/// The value is not that of a `StrokeType`.
#[derive(Debug, Clone, Copy, PartialEq, Eq, Structural)]
pub struct InvalidStrokeTypeError {
    pub bad_value: u16,
}

/// The `StrokeType` that `v` stands for: 0 to 2 in declaration order.
pub open spec fn spec_stroke_type(v: u16) -> Option<StrokeType> {
    if v == 0 {
        Some(StrokeType::Zero)
    } else if v == 1 {
        Some(StrokeType::One)
    } else if v == 2 {
        Some(StrokeType::Two)
    } else {
        None
    }
}

impl StrokeType {
    pub fn try_from_u16(v: u16) -> (r: Result<StrokeType, InvalidStrokeTypeError>)
        ensures
            match spec_stroke_type(v) {
                Some(x) => r == Ok::<StrokeType, InvalidStrokeTypeError>(x),
                None => r == Err::<StrokeType, InvalidStrokeTypeError>(InvalidStrokeTypeError { bad_value: v }),
            },
    {
        match v {
            0 => Ok(StrokeType::Zero),
            1 => Ok(StrokeType::One),
            2 => Ok(StrokeType::Two),
            _ => Err(InvalidStrokeTypeError { bad_value: v }),
        }
    }
}


/// Failure to read a stroke.
#[derive(Debug, Clone, Copy, PartialEq, Eq, Structural)]
pub enum StrokeParseError {
    Io(IoError),
    Base(ObjectBaseParseError),
    Header(ObjectHeaderError),
    BadToolType(InvalidToolTypeError),
    BadDashType(InvalidDashTypeError),
    BadStrokeType(InvalidStrokeTypeError),
    Unfinished(UnfinishedParsingError),
}

/// A point component delta of compressed event data, in 32nds: the format is a sign bit, a
/// 10-bit integer part and a 5-bit fraction.
pub open spec fn spec_point_delta_32nds(fixed: u16) -> int {
    if fixed >= 0x8000 { -(fixed - 0x8000) } else { fixed as int }
}

/// A pressure, tilt or orientation delta of compressed event data, in 4096ths: the format is a
/// sign bit, a 3-bit integer part and a 12-bit fraction.
pub open spec fn spec_small_delta_4096ths(fixed: u16) -> int {
    if fixed >= 0x8000 { -(fixed - 0x8000) } else { fixed as int }
}

/// The value of a point component delta, in 32nds of a unit.
pub fn point_delta_32nds(fixed: u16) -> (r: i32)
    ensures
        r == spec_point_delta_32nds(fixed),
{
    if fixed >= 0x8000 { -((fixed - 0x8000) as i32) } else { fixed as i32 }
}

/// The value of a pressure, tilt or orientation delta, in 4096ths of a unit.
pub fn small_delta_4096ths(fixed: u16) -> (r: i32)
    ensures
        r == spec_small_delta_4096ths(fixed),
{
    if fixed >= 0x8000 { -((fixed - 0x8000) as i32) } else { fixed as i32 }
}

pub open spec fn f64_item() -> spec_fn(StreamModel) -> SpecRead<RawF64> {
    |t: StreamModel| spec_f64(t)
}

pub open spec fn f32_item() -> spec_fn(StreamModel) -> SpecRead<RawF32> {
    |t: StreamModel| spec_f32(t)
}

pub open spec fn u32_item() -> spec_fn(StreamModel) -> SpecRead<u32> {
    |t: StreamModel| spec_u32(t)
}

fn read_f64_item(r: &mut ByteStream) -> (res: Result<RawF64, IoError>)
    ensures
        match spec_f64(old(r)@) {
            Some((m, s2)) => res == Ok::<RawF64, IoError>(m) && final(r)@ == s2,
            None => res is Err,
        },
        final(r)@.same_frame(old(r)@),
{
    r.read_f64_le()
}

fn read_f32_item(r: &mut ByteStream) -> (res: Result<RawF32, IoError>)
    ensures
        match spec_f32(old(r)@) {
            Some((m, s2)) => res == Ok::<RawF32, IoError>(m) && final(r)@ == s2,
            None => res is Err,
        },
        final(r)@.same_frame(old(r)@),
{
    r.read_f32_le()
}

fn read_u32_item(r: &mut ByteStream) -> (res: Result<u32, IoError>)
    ensures
        match spec_u32(old(r)@) {
            Some((m, s2)) => res == Ok::<u32, IoError>(m) && final(r)@ == s2,
            None => res is Err,
        },
        final(r)@.same_frame(old(r)@),
{
    r.read_u32_le()
}

/// Reads `n` items.
fn read_f64s(r: &mut ByteStream, n: usize) -> (res: Result<Vec<RawF64>, IoError>)
    ensures
        match spec_repeat(old(r)@, n as nat, f64_item()) {
            Some((vs, s2)) => res matches Ok(v) && v@ == vs && final(r)@ == s2,
            None => res is Err,
        },
        final(r)@.same_frame(old(r)@),
{
    let ghost s0 = r@;
    let ghost item = f64_item();
    let mut items: Vec<RawF64> = Vec::new();
    let mut i: usize = 0;
    while i < n
        invariant
            i <= n,
            item == f64_item(),
            s0 == old(r)@,
            r@.same_frame(s0),
            spec_repeat(s0, i as nat, item) matches Some((vs, st)) && items@ == vs && r@ == st,
        decreases n - i,
    {
        let ghost before = r@;
        proof { assert(item(before) == f64_item()(before)); }
        let x: RawF64 = match read_f64_item(r) {
            Ok(x) => x,
            Err(e) => {
                proof { lemma_repeat_fails(s0, (i + 1) as nat, n as nat, item); }
                return Err(e);
            },
        };
        items.push(x);
        i = i + 1;
    }
    Ok(items)
}

/// Reads `n` items.
fn read_f32s(r: &mut ByteStream, n: usize) -> (res: Result<Vec<RawF32>, IoError>)
    ensures
        match spec_repeat(old(r)@, n as nat, f32_item()) {
            Some((vs, s2)) => res matches Ok(v) && v@ == vs && final(r)@ == s2,
            None => res is Err,
        },
        final(r)@.same_frame(old(r)@),
{
    let ghost s0 = r@;
    let ghost item = f32_item();
    let mut items: Vec<RawF32> = Vec::new();
    let mut i: usize = 0;
    while i < n
        invariant
            i <= n,
            item == f32_item(),
            s0 == old(r)@,
            r@.same_frame(s0),
            spec_repeat(s0, i as nat, item) matches Some((vs, st)) && items@ == vs && r@ == st,
        decreases n - i,
    {
        let ghost before = r@;
        proof { assert(item(before) == f32_item()(before)); }
        let x: RawF32 = match read_f32_item(r) {
            Ok(x) => x,
            Err(e) => {
                proof { lemma_repeat_fails(s0, (i + 1) as nat, n as nat, item); }
                return Err(e);
            },
        };
        items.push(x);
        i = i + 1;
    }
    Ok(items)
}

/// Reads `n` items.
fn read_u32s(r: &mut ByteStream, n: usize) -> (res: Result<Vec<u32>, IoError>)
    ensures
        match spec_repeat(old(r)@, n as nat, u32_item()) {
            Some((vs, s2)) => res matches Ok(v) && v@ == vs && final(r)@ == s2,
            None => res is Err,
        },
        final(r)@.same_frame(old(r)@),
{
    let ghost s0 = r@;
    let ghost item = u32_item();
    let mut items: Vec<u32> = Vec::new();
    let mut i: usize = 0;
    while i < n
        invariant
            i <= n,
            item == u32_item(),
            s0 == old(r)@,
            r@.same_frame(s0),
            spec_repeat(s0, i as nat, item) matches Some((vs, st)) && items@ == vs && r@ == st,
        decreases n - i,
    {
        let ghost before = r@;
        proof { assert(item(before) == u32_item()(before)); }
        let x: u32 = match read_u32_item(r) {
            Ok(x) => x,
            Err(e) => {
                proof { lemma_repeat_fails(s0, (i + 1) as nat, n as nat, item); }
                return Err(e);
            },
        };
        items.push(x);
        i = i + 1;
    }
    Ok(items)
}


/// The events (sampled points) of a stroke, as stored.
#[derive(Debug)]
pub enum StrokeEvents {
    /// Every field of every event in full: `2 n` coordinates (x, y, x, y, ...), `n` pressures,
    /// `n` time stamps and, with tilt data, `n` tilts and `n` orientations.
    Uncompressed {
        points_xy: Vec<RawF64>,
        pressures: Vec<RawF32>,
        timestamps: Vec<u32>,
        tilts_orientations: Option<(Vec<RawF32>, Vec<RawF32>)>,
    },
    /// No events, in the compressed form.
    Empty,
    /// The first event in full, then, for each later event, 16-bit fixed-point deltas from the
    /// event before: `2 (n - 1)` coordinate deltas (the first of each pair is added to x),
    /// pressure deltas, time stamp deltas and, with tilt data, tilt and orientation deltas.
    Compressed {
        origin: Point,
        point_deltas_xy: Vec<u16>,
        origin_pressure: RawF32,
        pressure_deltas: Vec<u16>,
        origin_timestamp: u32,
        timestamp_deltas: Vec<u16>,
        tilt: Option<(RawF32, Vec<u16>, RawF32, Vec<u16>)>,
    },
}

pub enum StrokeEventsModel {
    Uncompressed {
        points_xy: Seq<RawF64>,
        pressures: Seq<RawF32>,
        timestamps: Seq<u32>,
        tilts_orientations: Option<(Seq<RawF32>, Seq<RawF32>)>,
    },
    Empty,
    Compressed {
        origin: Point,
        point_deltas_xy: Seq<u16>,
        origin_pressure: RawF32,
        pressure_deltas: Seq<u16>,
        origin_timestamp: u32,
        timestamp_deltas: Seq<u16>,
        tilt: Option<(RawF32, Seq<u16>, RawF32, Seq<u16>)>,
    },
}

impl View for StrokeEvents {
    type V = StrokeEventsModel;

    open spec fn view(&self) -> StrokeEventsModel {
        match self {
            StrokeEvents::Uncompressed { points_xy, pressures, timestamps, tilts_orientations } => StrokeEventsModel::Uncompressed {
                points_xy: points_xy@,
                pressures: pressures@,
                timestamps: timestamps@,
                tilts_orientations: match tilts_orientations {
                    Some((t, o)) => Some((t@, o@)),
                    None => None,
                },
            },
            StrokeEvents::Empty => StrokeEventsModel::Empty,
            StrokeEvents::Compressed { origin, point_deltas_xy, origin_pressure, pressure_deltas, origin_timestamp, timestamp_deltas, tilt } => StrokeEventsModel::Compressed {
                origin: *origin,
                point_deltas_xy: point_deltas_xy@,
                origin_pressure: *origin_pressure,
                pressure_deltas: pressure_deltas@,
                origin_timestamp: *origin_timestamp,
                timestamp_deltas: timestamp_deltas@,
                tilt: match tilt {
                    Some((a, b, c, d)) => Some((*a, b@, *c, d@)),
                    None => None,
                },
            },
        }
    }
}

/// `n` events in full.
#[verifier::opaque]
pub open spec fn spec_uncompressed_events(s: StreamModel, n: nat, tilt: bool) -> SpecRead<StrokeEventsModel> {
    match spec_repeat(s, 2 * n, f64_item()) {
        Some((points_xy, s1)) => match spec_repeat(s1, n, f32_item()) {
            Some((pressures, s2)) => match spec_repeat(s2, n, u32_item()) {
                Some((timestamps, s3)) => if tilt {
                    match spec_repeat(s3, n, f32_item()) {
                        Some((tilts, s4)) => match spec_repeat(s4, n, f32_item()) {
                            Some((orientations, s5)) => Some((StrokeEventsModel::Uncompressed {
                                points_xy, pressures, timestamps, tilts_orientations: Some((tilts, orientations)),
                            }, s5)),
                            None => None,
                        },
                        None => None,
                    }
                } else {
                    Some((StrokeEventsModel::Uncompressed { points_xy, pressures, timestamps, tilts_orientations: None }, s3))
                },
                None => None,
            },
            None => None,
        },
        None => None,
    }
}

/// `n` events, the first in full and the others as deltas; nothing at all for no events.
#[verifier::opaque]
pub open spec fn spec_compressed_events(s: StreamModel, n: nat, tilt: bool) -> SpecRead<StrokeEventsModel> {
    if n == 0 {
        Some((StrokeEventsModel::Empty, s))
    } else {
        let d = (n - 1) as nat;
        match spec_point(s) {
            Some((origin, s1)) => match spec_u16s(s1, 2 * d) {
                Some((point_deltas_xy, s2)) => match spec_f32(s2) {
                    Some((origin_pressure, s3)) => match spec_u16s(s3, d) {
                        Some((pressure_deltas, s4)) => match spec_u32(s4) {
                            Some((origin_timestamp, s5)) => match spec_u16s(s5, d) {
                                Some((timestamp_deltas, s6)) => if tilt {
                                    match spec_f32(s6) {
                                        Some((t0, s7)) => match spec_u16s(s7, d) {
                                            Some((td, s8)) => match spec_f32(s8) {
                                                Some((o0, s9)) => match spec_u16s(s9, d) {
                                                    Some((od, s10)) => Some((StrokeEventsModel::Compressed {
                                                        origin, point_deltas_xy, origin_pressure, pressure_deltas,
                                                        origin_timestamp, timestamp_deltas, tilt: Some((t0, td, o0, od)),
                                                    }, s10)),
                                                    None => None,
                                                },
                                                None => None,
                                            },
                                            None => None,
                                        },
                                        None => None,
                                    }
                                } else {
                                    Some((StrokeEventsModel::Compressed {
                                        origin, point_deltas_xy, origin_pressure, pressure_deltas,
                                        origin_timestamp, timestamp_deltas, tilt: None,
                                    }, s6))
                                },
                                None => None,
                            },
                            None => None,
                        },
                        None => None,
                    },
                    None => None,
                },
                None => None,
            },
            None => None,
        }
    }
}

fn read_uncompressed_events(stream: &mut ByteStream, n: u16, tilt: bool) -> (r: Result<StrokeEvents, IoError>)
    ensures
        match spec_uncompressed_events(old(stream)@, n as nat, tilt) {
            Some((m, s2)) => r matches Ok(v) && v@ == m && final(stream)@ == s2,
            None => r is Err,
        },
        final(stream)@.same_frame(old(stream)@),
{
    reveal(spec_uncompressed_events);
    let n: usize = n as usize;
    let points_xy: Vec<RawF64> = read_f64s(stream, 2 * n)?;
    let pressures: Vec<RawF32> = read_f32s(stream, n)?;
    let timestamps: Vec<u32> = read_u32s(stream, n)?;
    let tilts_orientations: Option<(Vec<RawF32>, Vec<RawF32>)> = if tilt {
        let tilts: Vec<RawF32> = read_f32s(stream, n)?;
        let orientations: Vec<RawF32> = read_f32s(stream, n)?;
        Some((tilts, orientations))
    } else {
        None
    };
    Ok(StrokeEvents::Uncompressed { points_xy, pressures, timestamps, tilts_orientations })
}

fn read_compressed_events(stream: &mut ByteStream, n: u16, tilt: bool) -> (r: Result<StrokeEvents, IoError>)
    ensures
        match spec_compressed_events(old(stream)@, n as nat, tilt) {
            Some((m, s2)) => r matches Ok(v) && v@ == m && final(stream)@ == s2,
            None => r is Err,
        },
        final(stream)@.same_frame(old(stream)@),
{
    reveal(spec_compressed_events);
    if n == 0 {
        return Ok(StrokeEvents::Empty);
    }
    let d: usize = (n - 1) as usize;
    let origin: Point = Point::try_parse_f64(stream)?;
    let point_deltas_xy: Vec<u16> = stream.read_u16s(2 * d)?;
    let origin_pressure: RawF32 = stream.read_f32_le()?;
    let pressure_deltas: Vec<u16> = stream.read_u16s(d)?;
    let origin_timestamp: u32 = stream.read_u32_le()?;
    let timestamp_deltas: Vec<u16> = stream.read_u16s(d)?;
    let tilt_data: Option<(RawF32, Vec<u16>, RawF32, Vec<u16>)> = if tilt {
        let t0: RawF32 = stream.read_f32_le()?;
        let td: Vec<u16> = stream.read_u16s(d)?;
        let o0: RawF32 = stream.read_f32_le()?;
        let od: Vec<u16> = stream.read_u16s(d)?;
        Some((t0, td, o0, od))
    } else {
        None
    };
    Ok(StrokeEvents::Compressed {
        origin,
        point_deltas_xy,
        origin_pressure,
        pressure_deltas,
        origin_timestamp,
        timestamp_deltas,
        tilt: tilt_data,
    })
}

/// The events of a stroke: compressed when the curve flag is set.
pub open spec fn spec_stroke_events(s: StreamModel, n: u16, compressed: bool, tilt: bool) -> SpecRead<StrokeEventsModel> {
    if compressed {
        spec_compressed_events(s, n as nat, tilt)
    } else {
        spec_uncompressed_events(s, n as nat, tilt)
    }
}

/// The pen repeat distance of a stroke that does not give one: 0.5.
pub open spec fn default_pen_repeat_distance() -> RawF32 {
    RawF32 { bits: 0x3f00_0000 }
}

/// The property bits of a stroke; bits 8 and 10 are set when the stroke was not added as binary data and was not generated.
pub open spec fn spec_stroke_props(fb: u32) -> (bool, bool, bool, bool, bool, bool, bool, bool, bool, bool) {
    (bit_is_set(fb, 0), bit_is_set(fb, 1), bit_is_set(fb, 2), bit_is_set(fb, 3), bit_is_set(fb, 4), bit_is_set(fb, 5), bit_is_set(fb, 6), bit_is_set(fb, 7), !bit_is_set(fb, 8), !bit_is_set(fb, 10))
}

fn check_stroke_props(flags: &mut CheckedBitfield) -> (r: (bool, bool, bool, bool, bool, bool, bool, bool, bool, bool))
    ensures
        r == spec_stroke_props(old(flags).bits()),
        final(flags).bits() == old(flags).bits(),
        final(flags).checked() == old(flags).checked() | 0x5ff,
{
    let ghost c0 = flags.checked();
    let is_curve_enabled: bool = flags.check_bit(0);
    let ghost c1 = flags.checked();
    let is_replay_only_enabled: bool = flags.check_bit(1);
    let ghost c2 = flags.checked();
    let is_tilt_data_present: bool = flags.check_bit(2);
    let ghost c3 = flags.checked();
    let is_eraser_enabled: bool = flags.check_bit(3);
    let ghost c4 = flags.checked();
    let is_fixed_width_enabled: bool = flags.check_bit(4);
    let ghost c5 = flags.checked();
    let is_millisecond_mode: bool = flags.check_bit(5);
    let ghost c6 = flags.checked();
    let is_top_layer_pen: bool = flags.check_bit(6);
    let ghost c7 = flags.checked();
    let is_alpha_locked: bool = flags.check_bit(7);
    let ghost c8 = flags.checked();
    let is_binary_added: bool = !flags.check_bit(8);
    let ghost c9 = flags.checked();
    let is_generated: bool = !flags.check_bit(10);
    let ghost c10 = flags.checked();
    proof {
        crate::bits::lemma_or_assoc(c0, crate::bits::bit_mask(0u8), crate::bits::bit_mask(1u8));
        crate::bits::lemma_or_assoc(c0, crate::bits::bit_mask(0u8) | crate::bits::bit_mask(1u8), crate::bits::bit_mask(2u8));
        crate::bits::lemma_or_assoc(c0, crate::bits::bit_mask(0u8) | crate::bits::bit_mask(1u8) | crate::bits::bit_mask(2u8), crate::bits::bit_mask(3u8));
        crate::bits::lemma_or_assoc(c0, crate::bits::bit_mask(0u8) | crate::bits::bit_mask(1u8) | crate::bits::bit_mask(2u8) | crate::bits::bit_mask(3u8), crate::bits::bit_mask(4u8));
        crate::bits::lemma_or_assoc(c0, crate::bits::bit_mask(0u8) | crate::bits::bit_mask(1u8) | crate::bits::bit_mask(2u8) | crate::bits::bit_mask(3u8) | crate::bits::bit_mask(4u8), crate::bits::bit_mask(5u8));
        crate::bits::lemma_or_assoc(c0, crate::bits::bit_mask(0u8) | crate::bits::bit_mask(1u8) | crate::bits::bit_mask(2u8) | crate::bits::bit_mask(3u8) | crate::bits::bit_mask(4u8) | crate::bits::bit_mask(5u8), crate::bits::bit_mask(6u8));
        crate::bits::lemma_or_assoc(c0, crate::bits::bit_mask(0u8) | crate::bits::bit_mask(1u8) | crate::bits::bit_mask(2u8) | crate::bits::bit_mask(3u8) | crate::bits::bit_mask(4u8) | crate::bits::bit_mask(5u8) | crate::bits::bit_mask(6u8), crate::bits::bit_mask(7u8));
        crate::bits::lemma_or_assoc(c0, crate::bits::bit_mask(0u8) | crate::bits::bit_mask(1u8) | crate::bits::bit_mask(2u8) | crate::bits::bit_mask(3u8) | crate::bits::bit_mask(4u8) | crate::bits::bit_mask(5u8) | crate::bits::bit_mask(6u8) | crate::bits::bit_mask(7u8), crate::bits::bit_mask(8u8));
        crate::bits::lemma_or_assoc(c0, crate::bits::bit_mask(0u8) | crate::bits::bit_mask(1u8) | crate::bits::bit_mask(2u8) | crate::bits::bit_mask(3u8) | crate::bits::bit_mask(4u8) | crate::bits::bit_mask(5u8) | crate::bits::bit_mask(6u8) | crate::bits::bit_mask(7u8) | crate::bits::bit_mask(8u8), crate::bits::bit_mask(10u8));
        crate::bits::lemma_chunk_masks();
        assert(c10 == c0 | 0x5ffu32);
    }
    (is_curve_enabled, is_replay_only_enabled, is_tilt_data_present, is_eraser_enabled, is_fixed_width_enabled, is_millisecond_mode, is_top_layer_pen, is_alpha_locked, is_binary_added, is_generated)
}

fn read_stroke_opt0_advanced_pen_settings_str_id(r: &mut ByteStream, present: bool) -> (res: Result<Option<u32>, StrokeParseError>)
    ensures
        match spec_opt(present, spec_u32(old(r)@), old(r)@) {
            Some((m, s2)) => res matches Ok(v) && v == m && final(r)@ == s2,
            None => res is Err,
        },
        final(r)@.same_frame(old(r)@),
{
    if present {
        Ok(Some(match r.read_u32_le() {
            Ok(v) => v,
            Err(e) => return Err(StrokeParseError::Io(e)),
        }))
    } else {
        Ok(None)
    }
}

fn read_stroke_opt0_colour(r: &mut ByteStream, present: bool) -> (res: Result<Option<[u8; 4]>, StrokeParseError>)
    ensures
        match spec_opt(present, spec_take(old(r)@, 4), old(r)@) {
            Some((m, s2)) => res matches Ok(v) && opt_view(v) == m && final(r)@ == s2,
            None => res is Err,
        },
        final(r)@.same_frame(old(r)@),
{
    if present {
        Ok(Some(match r.read_4_bytes() {
            Ok(v) => v,
            Err(e) => return Err(StrokeParseError::Io(e)),
        }))
    } else {
        Ok(None)
    }
}

fn read_stroke_opt0_pen_size(r: &mut ByteStream, present: bool) -> (res: Result<Option<RawF32>, StrokeParseError>)
    ensures
        match spec_opt(present, spec_f32(old(r)@), old(r)@) {
            Some((m, s2)) => res matches Ok(v) && v == m && final(r)@ == s2,
            None => res is Err,
        },
        final(r)@.same_frame(old(r)@),
{
    if present {
        Ok(Some(match r.read_f32_le() {
            Ok(v) => v,
            Err(e) => return Err(StrokeParseError::Io(e)),
        }))
    } else {
        Ok(None)
    }
}

fn read_stroke_opt0_unk(r: &mut ByteStream, present: bool) -> (res: Result<Option<u32>, StrokeParseError>)
    ensures
        match spec_opt(present, spec_u32(old(r)@), old(r)@) {
            Some((m, s2)) => res matches Ok(v) && v == m && final(r)@ == s2,
            None => res is Err,
        },
        final(r)@.same_frame(old(r)@),
{
    if present {
        Ok(Some(match r.read_u32_le() {
            Ok(v) => v,
            Err(e) => return Err(StrokeParseError::Io(e)),
        }))
    } else {
        Ok(None)
    }
}

/// Optional fields of a stroke on field bits 1 to 4.
#[verifier::opaque]
pub open spec fn spec_stroke_opt0(s: StreamModel, fb: u32) -> SpecRead<(Option<u32>, Option<Seq<u8>>, Option<RawF32>, Option<u32>)> {
    match spec_opt(bit_is_set(fb, 1), spec_u32(s), s) {
        Some((advanced_pen_settings_str_id, s1)) => 
        match spec_opt(bit_is_set(fb, 2), spec_take(s1, 4), s1) {
            Some((colour, s2)) => 
            match spec_opt(bit_is_set(fb, 3), spec_f32(s2), s2) {
                Some((pen_size, s3)) => 
                match spec_opt(bit_is_set(fb, 4), spec_u32(s3), s3) {
                    Some((unk, s4)) => Some(((advanced_pen_settings_str_id, colour, pen_size, unk), s4)),
                    None => None,
                },
                None => None,
            },
            None => None,
        },
        None => None,
    }
}

#[verifier::rlimit(30)]
fn read_stroke_opt0(r: &mut ByteStream, flags: &mut CheckedBitfield) -> (res: Result<(Option<u32>, Option<[u8; 4]>, Option<RawF32>, Option<u32>), StrokeParseError>)
    ensures
        match spec_stroke_opt0(old(r)@, old(flags).bits()) {
            Some((m, s2)) => res matches Ok(v) && v.0 == m.0
                && opt_view(v.1) == m.1
                && v.2 == m.2
                && v.3 == m.3
                && final(flags).bits() == old(flags).bits()
                && final(flags).checked() == old(flags).checked() | 0x1e
                && final(r)@ == s2,
            None => res is Err,
        },
        final(r)@.same_frame(old(r)@),
{
    reveal(spec_stroke_opt0);
    let ghost c0 = flags.checked();
    let present_advanced_pen_settings_str_id: bool = flags.check_bit(1);
    let ghost c1 = flags.checked();
    let advanced_pen_settings_str_id: Option<u32> = read_stroke_opt0_advanced_pen_settings_str_id(r, present_advanced_pen_settings_str_id)?;
    let present_colour: bool = flags.check_bit(2);
    let ghost c2 = flags.checked();
    let colour: Option<[u8; 4]> = read_stroke_opt0_colour(r, present_colour)?;
    let present_pen_size: bool = flags.check_bit(3);
    let ghost c3 = flags.checked();
    let pen_size: Option<RawF32> = read_stroke_opt0_pen_size(r, present_pen_size)?;
    let present_unk: bool = flags.check_bit(4);
    let ghost c4 = flags.checked();
    let unk: Option<u32> = read_stroke_opt0_unk(r, present_unk)?;
    proof {
        crate::bits::lemma_or_assoc(c0, crate::bits::bit_mask(1u8), crate::bits::bit_mask(2u8));
        crate::bits::lemma_or_assoc(c0, crate::bits::bit_mask(1u8) | crate::bits::bit_mask(2u8), crate::bits::bit_mask(3u8));
        crate::bits::lemma_or_assoc(c0, crate::bits::bit_mask(1u8) | crate::bits::bit_mask(2u8) | crate::bits::bit_mask(3u8), crate::bits::bit_mask(4u8));
        crate::bits::lemma_chunk_masks();
        assert(c4 == c0 | 0x1eu32);
    }
    Ok((advanced_pen_settings_str_id, colour, pen_size, unk))
}

fn read_stroke_opt3_pen_name_str_id(r: &mut ByteStream, present: bool) -> (res: Result<Option<u32>, StrokeParseError>)
    ensures
        match spec_opt(present, spec_u32(old(r)@), old(r)@) {
            Some((m, s2)) => res matches Ok(v) && v == m && final(r)@ == s2,
            None => res is Err,
        },
        final(r)@.same_frame(old(r)@),
{
    if present {
        Ok(Some(match r.read_u32_le() {
            Ok(v) => v,
            Err(e) => return Err(StrokeParseError::Io(e)),
        }))
    } else {
        Ok(None)
    }
}

fn read_stroke_opt3_fixed_width(r: &mut ByteStream, present: bool) -> (res: Result<Option<RawF32>, StrokeParseError>)
    ensures
        match spec_opt(present, spec_f32(old(r)@), old(r)@) {
            Some((m, s2)) => res matches Ok(v) && v == m && final(r)@ == s2,
            None => res is Err,
        },
        final(r)@.same_frame(old(r)@),
{
    if present {
        Ok(Some(match r.read_f32_le() {
            Ok(v) => v,
            Err(e) => return Err(StrokeParseError::Io(e)),
        }))
    } else {
        Ok(None)
    }
}

fn read_stroke_opt3_size_level(r: &mut ByteStream, present: bool) -> (res: Result<Option<u32>, StrokeParseError>)
    ensures
        match spec_opt(present, spec_u32(old(r)@), old(r)@) {
            Some((m, s2)) => res matches Ok(v) && v == m && final(r)@ == s2,
            None => res is Err,
        },
        final(r)@.same_frame(old(r)@),
{
    if present {
        Ok(Some(match r.read_u32_le() {
            Ok(v) => v,
            Err(e) => return Err(StrokeParseError::Io(e)),
        }))
    } else {
        Ok(None)
    }
}

/// Optional fields of a stroke on field bits 7 to 9.
#[verifier::opaque]
pub open spec fn spec_stroke_opt3(s: StreamModel, fb: u32) -> SpecRead<(Option<u32>, Option<RawF32>, Option<u32>)> {
    match spec_opt(bit_is_set(fb, 7), spec_u32(s), s) {
        Some((pen_name_str_id, s1)) => 
        match spec_opt(bit_is_set(fb, 8), spec_f32(s1), s1) {
            Some((fixed_width, s2)) => 
            match spec_opt(bit_is_set(fb, 9), spec_u32(s2), s2) {
                Some((size_level, s3)) => Some(((pen_name_str_id, fixed_width, size_level), s3)),
                None => None,
            },
            None => None,
        },
        None => None,
    }
}

#[verifier::rlimit(30)]
fn read_stroke_opt3(r: &mut ByteStream, flags: &mut CheckedBitfield) -> (res: Result<(Option<u32>, Option<RawF32>, Option<u32>), StrokeParseError>)
    ensures
        match spec_stroke_opt3(old(r)@, old(flags).bits()) {
            Some((m, s2)) => res matches Ok(v) && v.0 == m.0
                && v.1 == m.1
                && v.2 == m.2
                && final(flags).bits() == old(flags).bits()
                && final(flags).checked() == old(flags).checked() | 0x380
                && final(r)@ == s2,
            None => res is Err,
        },
        final(r)@.same_frame(old(r)@),
{
    reveal(spec_stroke_opt3);
    let ghost c0 = flags.checked();
    let present_pen_name_str_id: bool = flags.check_bit(7);
    let ghost c1 = flags.checked();
    let pen_name_str_id: Option<u32> = read_stroke_opt3_pen_name_str_id(r, present_pen_name_str_id)?;
    let present_fixed_width: bool = flags.check_bit(8);
    let ghost c2 = flags.checked();
    let fixed_width: Option<RawF32> = read_stroke_opt3_fixed_width(r, present_fixed_width)?;
    let present_size_level: bool = flags.check_bit(9);
    let ghost c3 = flags.checked();
    let size_level: Option<u32> = read_stroke_opt3_size_level(r, present_size_level)?;
    proof {
        crate::bits::lemma_or_assoc(c0, crate::bits::bit_mask(7u8), crate::bits::bit_mask(8u8));
        crate::bits::lemma_or_assoc(c0, crate::bits::bit_mask(7u8) | crate::bits::bit_mask(8u8), crate::bits::bit_mask(9u8));
        crate::bits::lemma_chunk_masks();
        assert(c3 == c0 | 0x380u32);
    }
    Ok((pen_name_str_id, fixed_width, size_level))
}

fn read_stroke_opt1_particle_density(r: &mut ByteStream, present: bool) -> (res: Result<Option<u32>, StrokeParseError>)
    ensures
        match spec_opt(present, spec_u32(old(r)@), old(r)@) {
            Some((m, s2)) => res matches Ok(v) && v == m && final(r)@ == s2,
            None => res is Err,
        },
        final(r)@.same_frame(old(r)@),
{
    if present {
        Ok(Some(match r.read_u32_le() {
            Ok(v) => v,
            Err(e) => return Err(StrokeParseError::Io(e)),
        }))
    } else {
        Ok(None)
    }
}

fn read_stroke_opt1_rendering_level(r: &mut ByteStream, present: bool) -> (res: Result<Option<u32>, StrokeParseError>)
    ensures
        match spec_opt(present, spec_u32(old(r)@), old(r)@) {
            Some((m, s2)) => res matches Ok(v) && v == m && final(r)@ == s2,
            None => res is Err,
        },
        final(r)@.same_frame(old(r)@),
{
    if present {
        Ok(Some(match r.read_u32_le() {
            Ok(v) => v,
            Err(e) => return Err(StrokeParseError::Io(e)),
        }))
    } else {
        Ok(None)
    }
}

fn read_stroke_opt1_original_width(r: &mut ByteStream, present: bool) -> (res: Result<Option<u32>, StrokeParseError>)
    ensures
        match spec_opt(present, spec_u32(old(r)@), old(r)@) {
            Some((m, s2)) => res matches Ok(v) && v == m && final(r)@ == s2,
            None => res is Err,
        },
        final(r)@.same_frame(old(r)@),
{
    if present {
        Ok(Some(match r.read_u32_le() {
            Ok(v) => v,
            Err(e) => return Err(StrokeParseError::Io(e)),
        }))
    } else {
        Ok(None)
    }
}

fn read_stroke_opt1_initial_tolerance(r: &mut ByteStream, present: bool) -> (res: Result<Option<RawF32>, StrokeParseError>)
    ensures
        match spec_opt(present, spec_f32(old(r)@), old(r)@) {
            Some((m, s2)) => res matches Ok(v) && v == m && final(r)@ == s2,
            None => res is Err,
        },
        final(r)@.same_frame(old(r)@),
{
    if present {
        Ok(Some(match r.read_f32_le() {
            Ok(v) => v,
            Err(e) => return Err(StrokeParseError::Io(e)),
        }))
    } else {
        Ok(None)
    }
}

/// Optional fields of a stroke on field bits 10 to 13.
#[verifier::opaque]
pub open spec fn spec_stroke_opt1(s: StreamModel, fb: u32) -> SpecRead<(Option<u32>, Option<u32>, Option<u32>, Option<RawF32>)> {
    match spec_opt(bit_is_set(fb, 10), spec_u32(s), s) {
        Some((particle_density, s1)) => 
        match spec_opt(bit_is_set(fb, 11), spec_u32(s1), s1) {
            Some((rendering_level, s2)) => 
            match spec_opt(bit_is_set(fb, 12), spec_u32(s2), s2) {
                Some((original_width, s3)) => 
                match spec_opt(bit_is_set(fb, 13), spec_f32(s3), s3) {
                    Some((initial_tolerance, s4)) => Some(((particle_density, rendering_level, original_width, initial_tolerance), s4)),
                    None => None,
                },
                None => None,
            },
            None => None,
        },
        None => None,
    }
}

#[verifier::rlimit(30)]
fn read_stroke_opt1(r: &mut ByteStream, flags: &mut CheckedBitfield) -> (res: Result<(Option<u32>, Option<u32>, Option<u32>, Option<RawF32>), StrokeParseError>)
    ensures
        match spec_stroke_opt1(old(r)@, old(flags).bits()) {
            Some((m, s2)) => res matches Ok(v) && v.0 == m.0
                && v.1 == m.1
                && v.2 == m.2
                && v.3 == m.3
                && final(flags).bits() == old(flags).bits()
                && final(flags).checked() == old(flags).checked() | 0x3c00
                && final(r)@ == s2,
            None => res is Err,
        },
        final(r)@.same_frame(old(r)@),
{
    reveal(spec_stroke_opt1);
    let ghost c0 = flags.checked();
    let present_particle_density: bool = flags.check_bit(10);
    let ghost c1 = flags.checked();
    let particle_density: Option<u32> = read_stroke_opt1_particle_density(r, present_particle_density)?;
    let present_rendering_level: bool = flags.check_bit(11);
    let ghost c2 = flags.checked();
    let rendering_level: Option<u32> = read_stroke_opt1_rendering_level(r, present_rendering_level)?;
    let present_original_width: bool = flags.check_bit(12);
    let ghost c3 = flags.checked();
    let original_width: Option<u32> = read_stroke_opt1_original_width(r, present_original_width)?;
    let present_initial_tolerance: bool = flags.check_bit(13);
    let ghost c4 = flags.checked();
    let initial_tolerance: Option<RawF32> = read_stroke_opt1_initial_tolerance(r, present_initial_tolerance)?;
    proof {
        crate::bits::lemma_or_assoc(c0, crate::bits::bit_mask(10u8), crate::bits::bit_mask(11u8));
        crate::bits::lemma_or_assoc(c0, crate::bits::bit_mask(10u8) | crate::bits::bit_mask(11u8), crate::bits::bit_mask(12u8));
        crate::bits::lemma_or_assoc(c0, crate::bits::bit_mask(10u8) | crate::bits::bit_mask(11u8) | crate::bits::bit_mask(12u8), crate::bits::bit_mask(13u8));
        crate::bits::lemma_chunk_masks();
        assert(c4 == c0 | 0x3c00u32);
    }
    Ok((particle_density, rendering_level, original_width, initial_tolerance))
}

fn read_stroke_opt2_dash_type(r: &mut ByteStream, present: bool) -> (res: Result<Option<DashType>, StrokeParseError>)
    ensures
        match spec_opt(present, spec_then(spec_u16(old(r)@), |v: u16| spec_stroke_dash_type(v)), old(r)@) {
            Some((m, s2)) => res matches Ok(v) && v == m && final(r)@ == s2,
            None => res is Err,
        },
        final(r)@.same_frame(old(r)@),
{
    if present {
        Ok(Some({
            let raw = match r.read_u16_le() {
            Ok(v) => v,
            Err(e) => return Err(StrokeParseError::Io(e)),
        };
            match DashType::try_from_u16(raw) {
                Ok(v) => v,
                Err(e) => return Err(StrokeParseError::BadDashType(e)),
            }
        }))
    } else {
        Ok(None)
    }
}

fn read_stroke_opt2_dash_offset(r: &mut ByteStream, present: bool) -> (res: Result<Option<RawF32>, StrokeParseError>)
    ensures
        match spec_opt(present, spec_f32(old(r)@), old(r)@) {
            Some((m, s2)) => res matches Ok(v) && v == m && final(r)@ == s2,
            None => res is Err,
        },
        final(r)@.same_frame(old(r)@),
{
    if present {
        Ok(Some(match r.read_f32_le() {
            Ok(v) => v,
            Err(e) => return Err(StrokeParseError::Io(e)),
        }))
    } else {
        Ok(None)
    }
}

fn read_stroke_opt2_stroke_type(r: &mut ByteStream, present: bool) -> (res: Result<Option<StrokeType>, StrokeParseError>)
    ensures
        match spec_opt(present, spec_then(spec_u16(old(r)@), |v: u16| spec_stroke_type(v)), old(r)@) {
            Some((m, s2)) => res matches Ok(v) && v == m && final(r)@ == s2,
            None => res is Err,
        },
        final(r)@.same_frame(old(r)@),
{
    if present {
        Ok(Some({
            let raw = match r.read_u16_le() {
            Ok(v) => v,
            Err(e) => return Err(StrokeParseError::Io(e)),
        };
            match StrokeType::try_from_u16(raw) {
                Ok(v) => v,
                Err(e) => return Err(StrokeParseError::BadStrokeType(e)),
            }
        }))
    } else {
        Ok(None)
    }
}

fn read_stroke_opt2_pen_repeat_distance(r: &mut ByteStream, present: bool) -> (res: Result<RawF32, StrokeParseError>)
    ensures
        match spec_opt_or(present, spec_f32(old(r)@), old(r)@, default_pen_repeat_distance()) {
            Some((m, s2)) => res matches Ok(v) && v == m && final(r)@ == s2,
            None => res is Err,
        },
        final(r)@.same_frame(old(r)@),
{
    if present {
        Ok(match r.read_f32_le() {
            Ok(v) => v,
            Err(e) => return Err(StrokeParseError::Io(e)),
        })
    } else {
        Ok(RawF32 { bits: 0x3f00_0000 })
    }
}

/// Optional fields of a stroke on field bits 14 to 17.
#[verifier::opaque]
pub open spec fn spec_stroke_opt2(s: StreamModel, fb: u32) -> SpecRead<(Option<DashType>, Option<RawF32>, Option<StrokeType>, RawF32)> {
    match spec_opt(bit_is_set(fb, 14), spec_then(spec_u16(s), |v: u16| spec_stroke_dash_type(v)), s) {
        Some((dash_type, s1)) => 
        match spec_opt(bit_is_set(fb, 15), spec_f32(s1), s1) {
            Some((dash_offset, s2)) => 
            match spec_opt(bit_is_set(fb, 16), spec_then(spec_u16(s2), |v: u16| spec_stroke_type(v)), s2) {
                Some((stroke_type, s3)) => 
                match spec_opt_or(bit_is_set(fb, 17), spec_f32(s3), s3, default_pen_repeat_distance()) {
                    Some((pen_repeat_distance, s4)) => Some(((dash_type, dash_offset, stroke_type, pen_repeat_distance), s4)),
                    None => None,
                },
                None => None,
            },
            None => None,
        },
        None => None,
    }
}

#[verifier::rlimit(30)]
fn read_stroke_opt2(r: &mut ByteStream, flags: &mut CheckedBitfield) -> (res: Result<(Option<DashType>, Option<RawF32>, Option<StrokeType>, RawF32), StrokeParseError>)
    ensures
        match spec_stroke_opt2(old(r)@, old(flags).bits()) {
            Some((m, s2)) => res matches Ok(v) && v.0 == m.0
                && v.1 == m.1
                && v.2 == m.2
                && v.3 == m.3
                && final(flags).bits() == old(flags).bits()
                && final(flags).checked() == old(flags).checked() | 0x3c000
                && final(r)@ == s2,
            None => res is Err,
        },
        final(r)@.same_frame(old(r)@),
{
    reveal(spec_stroke_opt2);
    let ghost c0 = flags.checked();
    let present_dash_type: bool = flags.check_bit(14);
    let ghost c1 = flags.checked();
    let dash_type: Option<DashType> = read_stroke_opt2_dash_type(r, present_dash_type)?;
    let present_dash_offset: bool = flags.check_bit(15);
    let ghost c2 = flags.checked();
    let dash_offset: Option<RawF32> = read_stroke_opt2_dash_offset(r, present_dash_offset)?;
    let present_stroke_type: bool = flags.check_bit(16);
    let ghost c3 = flags.checked();
    let stroke_type: Option<StrokeType> = read_stroke_opt2_stroke_type(r, present_stroke_type)?;
    let present_pen_repeat_distance: bool = flags.check_bit(17);
    let ghost c4 = flags.checked();
    let pen_repeat_distance: RawF32 = read_stroke_opt2_pen_repeat_distance(r, present_pen_repeat_distance)?;
    proof {
        crate::bits::lemma_or_assoc(c0, crate::bits::bit_mask(14u8), crate::bits::bit_mask(15u8));
        crate::bits::lemma_or_assoc(c0, crate::bits::bit_mask(14u8) | crate::bits::bit_mask(15u8), crate::bits::bit_mask(16u8));
        crate::bits::lemma_or_assoc(c0, crate::bits::bit_mask(14u8) | crate::bits::bit_mask(15u8) | crate::bits::bit_mask(16u8), crate::bits::bit_mask(17u8));
        crate::bits::lemma_chunk_masks();
        assert(c4 == c0 | 0x3c000u32);
    }
    Ok((dash_type, dash_offset, stroke_type, pen_repeat_distance))
}


/// The event count, events and tool type of a stroke.
#[verifier::opaque]
pub open spec fn spec_stroke_fixed(w: StreamModel, compressed: bool, tilt: bool) -> SpecRead<(StrokeEventsModel, ToolType)> {
    match spec_u16(w) {
        Some((n, w1)) => match spec_stroke_events(w1, n, compressed, tilt) {
            Some((events, w2)) => match spec_then(spec_u16(w2), |v: u16| spec_tool_type(v)) {
                Some((tool_type, w3)) => Some(((events, tool_type), w3)),
                None => None,
            },
            None => None,
        },
        None => None,
    }
}

fn read_stroke_fixed(w: &mut ByteStream, compressed: bool, tilt: bool) -> (res: Result<(StrokeEvents, ToolType), StrokeParseError>)
    ensures
        match spec_stroke_fixed(old(w)@, compressed, tilt) {
            Some((m, s2)) => res matches Ok(v) && v.0@ == m.0 && v.1 == m.1 && final(w)@ == s2,
            None => res is Err,
        },
        final(w)@.same_frame(old(w)@),
{
    reveal(spec_stroke_fixed);
    let n: u16 = match w.read_u16_le() {
        Ok(v) => v,
        Err(e) => return Err(StrokeParseError::Io(e)),
    };
    let events: StrokeEvents = if compressed {
        match read_compressed_events(w, n, tilt) {
            Ok(v) => v,
            Err(e) => return Err(StrokeParseError::Io(e)),
        }
    } else {
        match read_uncompressed_events(w, n, tilt) {
            Ok(v) => v,
            Err(e) => return Err(StrokeParseError::Io(e)),
        }
    };
    let t: u16 = match w.read_u16_le() {
        Ok(v) => v,
        Err(e) => return Err(StrokeParseError::Io(e)),
    };
    let tool_type: ToolType = match ToolType::try_from_u16(t) {
        Ok(v) => v,
        Err(e) => return Err(StrokeParseError::BadToolType(e)),
    };
    Ok((events, tool_type))
}

/// The fields of a stroke after its flex offset.
#[verifier::opaque]
pub open spec fn spec_stroke_flex(w: StreamModel, ff: u32) -> SpecRead<(
    (Option<u32>, Option<Seq<u8>>, Option<RawF32>, Option<u32>),
    (Option<u32>, Option<RawF32>, Option<u32>),
    (Option<u32>, Option<u32>, Option<u32>, Option<RawF32>),
    (Option<DashType>, Option<RawF32>, Option<StrokeType>, RawF32),
)> {
    match spec_stroke_opt0(w, ff) {
        Some((o0, w1)) => match spec_stroke_opt3(w1, ff) {
            Some((o3, w2)) => match spec_stroke_opt1(w2, ff) {
                Some((o1, w3)) => match spec_stroke_opt2(w3, ff) {
                    Some((o2, w4)) => Some(((o0, o3, o1, o2), w4)),
                    None => None,
                },
                None => None,
            },
            None => None,
        },
        None => None,
    }
}

fn read_stroke_flex(w: &mut ByteStream, ff: &mut CheckedBitfield) -> (res: Result<(
    (Option<u32>, Option<[u8; 4]>, Option<RawF32>, Option<u32>),
    (Option<u32>, Option<RawF32>, Option<u32>),
    (Option<u32>, Option<u32>, Option<u32>, Option<RawF32>),
    (Option<DashType>, Option<RawF32>, Option<StrokeType>, RawF32),
), StrokeParseError>)
    ensures
        match spec_stroke_flex(old(w)@, old(ff).bits()) {
            Some((m, s2)) => res matches Ok(v) && (v.0).0 == (m.0).0 && opt_view((v.0).1) == (m.0).1
                && (v.0).2 == (m.0).2 && (v.0).3 == (m.0).3 && v.1 == m.1 && v.2 == m.2 && v.3 == m.3
                && final(ff).bits() == old(ff).bits()
                && final(ff).checked() == old(ff).checked() | 0x3ff9e
                && final(w)@ == s2,
            None => res is Err,
        },
        final(w)@.same_frame(old(w)@),
{
    reveal(spec_stroke_flex);
    let ghost c0 = ff.checked();
    let o0 = read_stroke_opt0(w, ff)?;
    let o3 = read_stroke_opt3(w, ff)?;
    let o1 = read_stroke_opt1(w, ff)?;
    let o2 = read_stroke_opt2(w, ff)?;
    proof {
        let c = ff.checked();
        assert(c == c0 | 0x3ff9eu32) by (bit_vector)
            requires
                c == (((c0 | 0x1eu32) | 0x380u32) | 0x3c00u32) | 0x3c000u32,
        ;
    }
    Ok((o0, o3, o1, o2))
}


/// A pen stroke.
#[derive(Debug)]
pub struct Stroke {
    pub object_base: ObjectBase,
    pub is_curve_enabled: bool,
    pub is_replay_only_enabled: bool,
    pub is_tilt_data_present: bool,
    pub is_eraser_enabled: bool,
    pub is_fixed_width_enabled: bool,
    pub is_millisecond_mode: bool,
    pub is_top_layer_pen: bool,
    pub is_alpha_locked: bool,
    pub is_binary_added: bool,
    pub is_generated: bool,
    pub events: StrokeEvents,
    pub tool_type: ToolType,
    pub advanced_pen_settings_str_id: Option<u32>,
    pub colour: Option<[u8; 4]>,
    pub pen_size: Option<RawF32>,
    pub unk: Option<u32>,
    pub pen_name_str_id: Option<u32>,
    pub fixed_width: Option<RawF32>,
    pub size_level: Option<u32>,
    pub particle_density: Option<u32>,
    pub rendering_level: Option<u32>,
    pub original_width: Option<u32>,
    pub initial_tolerance: Option<RawF32>,
    pub dash_type: Option<DashType>,
    pub dash_offset: Option<RawF32>,
    pub stroke_type: Option<StrokeType>,
    pub pen_repeat_distance: RawF32,
}

pub struct StrokeModel {
    pub object_base: ObjectBaseModel,
    pub is_curve_enabled: bool,
    pub is_replay_only_enabled: bool,
    pub is_tilt_data_present: bool,
    pub is_eraser_enabled: bool,
    pub is_fixed_width_enabled: bool,
    pub is_millisecond_mode: bool,
    pub is_top_layer_pen: bool,
    pub is_alpha_locked: bool,
    pub is_binary_added: bool,
    pub is_generated: bool,
    pub events: StrokeEventsModel,
    pub tool_type: ToolType,
    pub advanced_pen_settings_str_id: Option<u32>,
    pub colour: Option<Seq<u8>>,
    pub pen_size: Option<RawF32>,
    pub unk: Option<u32>,
    pub pen_name_str_id: Option<u32>,
    pub fixed_width: Option<RawF32>,
    pub size_level: Option<u32>,
    pub particle_density: Option<u32>,
    pub rendering_level: Option<u32>,
    pub original_width: Option<u32>,
    pub initial_tolerance: Option<RawF32>,
    pub dash_type: Option<DashType>,
    pub dash_offset: Option<RawF32>,
    pub stroke_type: Option<StrokeType>,
    pub pen_repeat_distance: RawF32,
}

impl View for Stroke {
    type V = StrokeModel;

    open spec fn view(&self) -> StrokeModel {
        StrokeModel {
            object_base: self.object_base@,
            is_curve_enabled: self.is_curve_enabled,
            is_replay_only_enabled: self.is_replay_only_enabled,
            is_tilt_data_present: self.is_tilt_data_present,
            is_eraser_enabled: self.is_eraser_enabled,
            is_fixed_width_enabled: self.is_fixed_width_enabled,
            is_millisecond_mode: self.is_millisecond_mode,
            is_top_layer_pen: self.is_top_layer_pen,
            is_alpha_locked: self.is_alpha_locked,
            is_binary_added: self.is_binary_added,
            is_generated: self.is_generated,
            events: self.events@,
            tool_type: self.tool_type,
            advanced_pen_settings_str_id: self.advanced_pen_settings_str_id,
            colour: opt_view(self.colour),
            pen_size: self.pen_size,
            unk: self.unk,
            pen_name_str_id: self.pen_name_str_id,
            fixed_width: self.fixed_width,
            size_level: self.size_level,
            particle_density: self.particle_density,
            rendering_level: self.rendering_level,
            original_width: self.original_width,
            initial_tolerance: self.initial_tolerance,
            dash_type: self.dash_type,
            dash_offset: self.dash_offset,
            stroke_type: self.stroke_type,
            pen_repeat_distance: self.pen_repeat_distance,
        }
    }
}

/// A stroke: an object base, then an object block of data type 1 holding the property flags, a
/// `u16` event count, the events, a `u16` tool type and the optional fields.
#[verifier::opaque]
#[verifier::opaque]
pub open spec fn spec_stroke(s: StreamModel) -> SpecRead<StrokeModel> {
    match spec_object_base(s) {
        Some((base, s1)) => match spec_object_header(s1, 1) {
            Some((fb, w, s2)) => {
                let p = spec_stroke_props(fb.property_bits);
                match spec_stroke_fixed(w, p.0, p.2) {
                    Some((x, w3)) => match spec_flex(w3, fb) {
                        Some((wf, ff)) => match spec_stroke_flex(wf, ff) {
                            Some((o, w5)) => if fb.property_bits & !0x5ffu32 == 0 && ff & !0x3ff9eu32 == 0
                                && w5.remaining() == 0 {
                                let (o0, o3, o1, o2) = o;
                                Some((StrokeModel {
                                    object_base: base,
                                    is_curve_enabled: p.0,
                                    is_replay_only_enabled: p.1,
                                    is_tilt_data_present: p.2,
                                    is_eraser_enabled: p.3,
                                    is_fixed_width_enabled: p.4,
                                    is_millisecond_mode: p.5,
                                    is_top_layer_pen: p.6,
                                    is_alpha_locked: p.7,
                                    is_binary_added: p.8,
                                    is_generated: p.9,
                                    events: x.0,
                                    tool_type: x.1,
                                    advanced_pen_settings_str_id: o0.0,
                                    colour: o0.1,
                                    pen_size: o0.2,
                                    unk: o0.3,
                                    pen_name_str_id: o3.0,
                                    fixed_width: o3.1,
                                    size_level: o3.2,
                                    particle_density: o1.0,
                                    rendering_level: o1.1,
                                    original_width: o1.2,
                                    initial_tolerance: o1.3,
                                    dash_type: o2.0,
                                    dash_offset: o2.1,
                                    stroke_type: o2.2,
                                    pen_repeat_distance: o2.3,
                                }, spec_continue(s2, w5)))
                            } else {
                                None
                            },
                            None => None,
                        },
                        None => None,
                    },
                    None => None,
                }
            },
            None => None,
        },
        None => None,
    }
}

impl<'a> TryParse<ByteStream<'a>> for Stroke {
    type ParseError = StrokeParseError;

    #[verifier::rlimit(100)]
    #[verifier::spinoff_prover]
    fn try_parse(stream: &mut ByteStream<'a>) -> (r: Result<Stroke, StrokeParseError>)
        ensures
            match spec_stroke(old(stream)@) {
                Some((m, s2)) => r matches Ok(v) && v@ == m && final(stream)@ == s2,
                None => r is Err,
            },
            final(stream)@.same_frame(old(stream)@),
    {
        proof {
            reveal(spec_stroke);
        }
        reveal(spec_stroke);
        let object_base: ObjectBase = match ObjectBase::try_parse(stream) {
            Ok(v) => v,
            Err(e) => return Err(StrokeParseError::Base(e)),
        };
        let (mut header, mut w) = match ObjectHeader::try_parse(stream, 1) {
            Ok(v) => v,
            Err(e) => return Err(StrokeParseError::Header(e)),
        };
        let props = check_stroke_props(header.property_flags_mut());
        let x = read_stroke_fixed(&mut w, props.0, props.2)?;
        let ff: &mut CheckedBitfield = match header.init_flex(&mut w) {
            Ok(f) => f,
            Err(e) => return Err(StrokeParseError::Io(e)),
        };
        let (o0, o3, o1, o2) = read_stroke_flex(&mut w, ff)?;
        proof {
            let fc = header.0.field_flags().checked();
            crate::bits::lemma_zero_or(0x3ff9eu32);
            assert(fc == 0x3ff9eu32);
            let pc = header.0.property_flags().checked();
            crate::bits::lemma_zero_or(0x5ffu32);
            assert(pc == 0x5ffu32);
        }
        if let Err(e) = header.ensure_flags_used() {
            return Err(StrokeParseError::Header(e));
        }
        if let Err(e) = w.ensure_eof() {
            return Err(StrokeParseError::Unfinished(e));
        }
        proof { use_type_invariant(&*stream); use_type_invariant(&w); }
        stream.continue_after(&w);
        Ok(Stroke {
            object_base,
            is_curve_enabled: props.0,
            is_replay_only_enabled: props.1,
            is_tilt_data_present: props.2,
            is_eraser_enabled: props.3,
            is_fixed_width_enabled: props.4,
            is_millisecond_mode: props.5,
            is_top_layer_pen: props.6,
            is_alpha_locked: props.7,
            is_binary_added: props.8,
            is_generated: props.9,
            events: x.0,
            tool_type: x.1,
            advanced_pen_settings_str_id: o0.0,
            colour: o0.1,
            pen_size: o0.2,
            unk: o0.3,
            pen_name_str_id: o3.0,
            fixed_width: o3.1,
            size_level: o3.2,
            particle_density: o1.0,
            rendering_level: o1.1,
            original_width: o1.2,
            initial_tolerance: o1.3,
            dash_type: o2.0,
            dash_offset: o2.1,
            stroke_type: o2.2,
            pen_repeat_distance: o2.3,
        })
    }
}

impl Stroke {
    pub fn object_base(&self) -> (r: &ObjectBase)
        ensures
            r@ == self@.object_base,
    {
        &self.object_base
    }
}


/// A stroke's flags are the property bits of its object block, one bit each: bit 0 says that
/// its events are compressed (the curve flag), bit 1 replay only, bit 2 that tilt data is
/// present, bit 3 eraser, bit 4 fixed width, bit 5 millisecond mode, bit 6 top layer pen, bit 7
/// alpha locked; bits 8 and 10 are cleared for a stroke added as binary data and a generated
/// one. The events are read in the compressed form exactly when bit 0 is set, and carry tilt
/// data exactly when bit 2 is set.
pub proof fn lemma_stroke_flags(s: StreamModel)
    requires
        spec_stroke(s) is Some,
    ensures
        ({
            let m = spec_stroke(s)->Some_0.0;
            let pb = spec_object_header(spec_object_base(s)->Some_0.1, 1)->Some_0.0.property_bits;
            &&& m.is_curve_enabled == bit_is_set(pb, 0)
            &&& m.is_replay_only_enabled == bit_is_set(pb, 1)
            &&& m.is_tilt_data_present == bit_is_set(pb, 2)
            &&& m.is_eraser_enabled == bit_is_set(pb, 3)
            &&& m.is_fixed_width_enabled == bit_is_set(pb, 4)
            &&& m.is_millisecond_mode == bit_is_set(pb, 5)
            &&& m.is_top_layer_pen == bit_is_set(pb, 6)
            &&& m.is_alpha_locked == bit_is_set(pb, 7)
            &&& m.is_binary_added == !bit_is_set(pb, 8)
            &&& m.is_generated == !bit_is_set(pb, 10)
            &&& bit_is_set(pb, 0) ==> (m.events is Compressed || m.events is Empty)
            &&& !bit_is_set(pb, 0) ==> m.events is Uncompressed
            &&& (m.events matches StrokeEventsModel::Compressed { tilt, .. } ==> (tilt is Some <==> bit_is_set(pb, 2)))
            &&& (m.events matches StrokeEventsModel::Uncompressed { tilts_orientations, .. }
                ==> (tilts_orientations is Some <==> bit_is_set(pb, 2)))
        }),
{
    reveal(spec_stroke);
    reveal(spec_stroke_fixed);
    reveal(spec_compressed_events);
    reveal(spec_uncompressed_events);
    let s1 = spec_object_base(s)->Some_0.1;
    let (fb, w, _) = spec_object_header(s1, 1)->Some_0;
    let p = spec_stroke_props(fb.property_bits);
    let w1 = spec_u16(w)->Some_0.1;
    let n = spec_u16(w)->Some_0.0;
    assert(spec_stroke_events(w1, n, p.0, p.2) is Some);
}

} // verus!
