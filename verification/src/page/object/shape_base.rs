//! The base of shape-like objects: line effects and connection points.
use vstd::prelude::*;

use crate::bits::{bit_is_set, CheckedBitfield, UnhandledBitsError};
use crate::byte_stream::{
    lemma_repeat_fails, opt_view, spec_bitfield, spec_continue, spec_exclusive_window, spec_f32,
    spec_opt, spec_opt_or, spec_repeat, spec_short_u8_string, spec_str_opt, spec_take, spec_then,
    spec_u16, spec_u16_counted, spec_u32, spec_u32_counted, spec_u8, spec_u8_counted, views,
    ByteStream, ExactSizedStream, IoError, RawF32, ReadBitfieldError, ReadStringError, SpecRead,
    StreamModel, TakeInclusiveLengthPrefixedError, TryParse, UnfinishedParsingError,
};
use crate::page::object::base::{spec_flex, spec_object_base, ObjectBase, ObjectBaseModel, ObjectBaseParseError};
use crate::page::object::header::{spec_object_header, ObjectHeader, ObjectHeaderError};
use crate::page::object::shared::{
    gradient_colour_item, read_gradient_colours, spec_colour_type, spec_gradient_type,
    spec_point, spec_point_f32, ColourType, GradientColour, GradientColourModel, GradientType,
    InvalidColourTypeError, InvalidGradientTypeError, Point, PointF32,
};

verus! {

/// The ends of a line.
#[derive(Debug, Clone, Copy, PartialEq, Eq, Structural)]
pub enum CapType {
    /// `CAP_TYPE_BUTT`
    Butt,
    /// `CAP_TYPE_ROUND`
    Round,
    /// `CAP_TYPE_SQUARE`
    Square,
}

/// The value is not that of a `CapType`.
#[derive(Debug, Clone, Copy, PartialEq, Eq, Structural)]
pub struct InvalidCapTypeError {
    pub bad_value: u8,
}

/// The `CapType` that `v` stands for: 0 to 2 in declaration order.
pub open spec fn spec_cap_type(v: u8) -> Option<CapType> {
    if v == 0 {
        Some(CapType::Butt)
    } else if v == 1 {
        Some(CapType::Round)
    } else if v == 2 {
        Some(CapType::Square)
    } else {
        None
    }
}

impl CapType {
    pub fn try_from_u8(v: u8) -> (r: Result<CapType, InvalidCapTypeError>)
        ensures
            match spec_cap_type(v) {
                Some(x) => r == Ok::<CapType, InvalidCapTypeError>(x),
                None => r == Err::<CapType, InvalidCapTypeError>(InvalidCapTypeError { bad_value: v }),
            },
    {
        match v {
            0 => Ok(CapType::Butt),
            1 => Ok(CapType::Round),
            2 => Ok(CapType::Square),
            _ => Err(InvalidCapTypeError { bad_value: v }),
        }
    }
}

/// How many strokes a line is drawn with.
#[derive(Debug, Clone, Copy, PartialEq, Eq, Structural)]
pub enum CompoundType {
    /// `COMPOUND_TYPE_SIMPLE`
    Simple,
    /// `COMPOUND_TYPE_DOUBLE`
    Double,
    /// `COMPOUND_TYPE_THICK_THIN`
    ThickThin,
    /// `COMPOUND_TYPE_THIN_THICK`
    ThinThick,
    /// `COMPOUND_TYPE_TRIPLE`
    Triple,
}

/// The value is not that of a `CompoundType`.
#[derive(Debug, Clone, Copy, PartialEq, Eq, Structural)]
pub struct InvalidCompoundTypeError {
    pub bad_value: u8,
}

/// The `CompoundType` that `v` stands for: 0 to 4 in declaration order.
pub open spec fn spec_compound_type(v: u8) -> Option<CompoundType> {
    if v == 0 {
        Some(CompoundType::Simple)
    } else if v == 1 {
        Some(CompoundType::Double)
    } else if v == 2 {
        Some(CompoundType::ThickThin)
    } else if v == 3 {
        Some(CompoundType::ThinThick)
    } else if v == 4 {
        Some(CompoundType::Triple)
    } else {
        None
    }
}

impl CompoundType {
    pub fn try_from_u8(v: u8) -> (r: Result<CompoundType, InvalidCompoundTypeError>)
        ensures
            match spec_compound_type(v) {
                Some(x) => r == Ok::<CompoundType, InvalidCompoundTypeError>(x),
                None => r == Err::<CompoundType, InvalidCompoundTypeError>(InvalidCompoundTypeError { bad_value: v }),
            },
    {
        match v {
            0 => Ok(CompoundType::Simple),
            1 => Ok(CompoundType::Double),
            2 => Ok(CompoundType::ThickThin),
            3 => Ok(CompoundType::ThinThick),
            4 => Ok(CompoundType::Triple),
            _ => Err(InvalidCompoundTypeError { bad_value: v }),
        }
    }
}

/// The dash pattern of a line.
#[derive(Debug, Clone, Copy, PartialEq, Eq, Structural)]
pub enum DashType {
    /// `DASH_TYPE_SOLID`
    Solid,
    /// `DASH_TYPE_ROUND_DOT`
    RoundDot,
    /// `DASH_TYPE_SQUARE_DOT`
    SquareDot,
    /// `DASH_TYPE_DASH`
    Dash,
    /// `DASH_TYPE_DASH_DOT`
    DashDot,
    /// `DASH_TYPE_LONG_DASH`
    LongDash,
    /// `DASH_TYPE_LONG_DASH_DOT`
    LongDashDot,
    /// `DASH_TYPE_LONG_DASH_DOT_DOT`
    LongDashDotDot,
}

/// The value is not that of a `DashType`.
#[derive(Debug, Clone, Copy, PartialEq, Eq, Structural)]
pub struct InvalidDashTypeError {
    pub bad_value: u8,
}

/// The `DashType` that `v` stands for: 0 to 7 in declaration order.
pub open spec fn spec_dash_type(v: u8) -> Option<DashType> {
    if v == 0 {
        Some(DashType::Solid)
    } else if v == 1 {
        Some(DashType::RoundDot)
    } else if v == 2 {
        Some(DashType::SquareDot)
    } else if v == 3 {
        Some(DashType::Dash)
    } else if v == 4 {
        Some(DashType::DashDot)
    } else if v == 5 {
        Some(DashType::LongDash)
    } else if v == 6 {
        Some(DashType::LongDashDot)
    } else if v == 7 {
        Some(DashType::LongDashDotDot)
    } else {
        None
    }
}

impl DashType {
    pub fn try_from_u8(v: u8) -> (r: Result<DashType, InvalidDashTypeError>)
        ensures
            match spec_dash_type(v) {
                Some(x) => r == Ok::<DashType, InvalidDashTypeError>(x),
                None => r == Err::<DashType, InvalidDashTypeError>(InvalidDashTypeError { bad_value: v }),
            },
    {
        match v {
            0 => Ok(DashType::Solid),
            1 => Ok(DashType::RoundDot),
            2 => Ok(DashType::SquareDot),
            3 => Ok(DashType::Dash),
            4 => Ok(DashType::DashDot),
            5 => Ok(DashType::LongDash),
            6 => Ok(DashType::LongDashDot),
            7 => Ok(DashType::LongDashDotDot),
            _ => Err(InvalidDashTypeError { bad_value: v }),
        }
    }
}

/// The size of an arrow head.
#[derive(Debug, Clone, Copy, PartialEq, Eq, Structural)]
pub enum ArrowSize {
    /// `ARROW_SIZE_NORMAL`
    Normal,
    /// `ARROW_SIZE_SMALL`
    Small,
    /// `ARROW_SIZE_BIG`
    Big,
}

/// The value is not that of a `ArrowSize`.
#[derive(Debug, Clone, Copy, PartialEq, Eq, Structural)]
pub struct InvalidArrowSizeError {
    pub bad_value: u8,
}

/// The `ArrowSize` that `v` stands for: 0 to 2 in declaration order.
pub open spec fn spec_arrow_size(v: u8) -> Option<ArrowSize> {
    if v == 0 {
        Some(ArrowSize::Normal)
    } else if v == 1 {
        Some(ArrowSize::Small)
    } else if v == 2 {
        Some(ArrowSize::Big)
    } else {
        None
    }
}

impl ArrowSize {
    pub fn try_from_u8(v: u8) -> (r: Result<ArrowSize, InvalidArrowSizeError>)
        ensures
            match spec_arrow_size(v) {
                Some(x) => r == Ok::<ArrowSize, InvalidArrowSizeError>(x),
                None => r == Err::<ArrowSize, InvalidArrowSizeError>(InvalidArrowSizeError { bad_value: v }),
            },
    {
        match v {
            0 => Ok(ArrowSize::Normal),
            1 => Ok(ArrowSize::Small),
            2 => Ok(ArrowSize::Big),
            _ => Err(InvalidArrowSizeError { bad_value: v }),
        }
    }
}

/// The shape of an arrow head.
#[derive(Debug, Clone, Copy, PartialEq, Eq, Structural)]
pub enum ArrowShape {
    /// `ARROW_TYPE_NONE`
    NoArrow,
    /// `ARROW_TYPE_ARROW`
    Arrow,
    /// `ARROW_TYPE_OPEN_ARROW`
    OpenArrow,
    /// `ARROW_TYPE_STEALTH_ARROW`
    StealthArrow,
    /// `ARROW_TYPE_DIAMOND_ARROW`
    DiamondArrow,
    /// `ARROW_TYPE_OVAL_ARROW`
    OvalArrow,
}

/// The value is not that of a `ArrowShape`.
#[derive(Debug, Clone, Copy, PartialEq, Eq, Structural)]
pub struct InvalidArrowShapeError {
    pub bad_value: u8,
}

/// The `ArrowShape` that `v` stands for: 0 to 5 in declaration order.
pub open spec fn spec_arrow_shape(v: u8) -> Option<ArrowShape> {
    if v == 0 {
        Some(ArrowShape::NoArrow)
    } else if v == 1 {
        Some(ArrowShape::Arrow)
    } else if v == 2 {
        Some(ArrowShape::OpenArrow)
    } else if v == 3 {
        Some(ArrowShape::StealthArrow)
    } else if v == 4 {
        Some(ArrowShape::DiamondArrow)
    } else if v == 5 {
        Some(ArrowShape::OvalArrow)
    } else {
        None
    }
}

impl ArrowShape {
    pub fn try_from_u8(v: u8) -> (r: Result<ArrowShape, InvalidArrowShapeError>)
        ensures
            match spec_arrow_shape(v) {
                Some(x) => r == Ok::<ArrowShape, InvalidArrowShapeError>(x),
                None => r == Err::<ArrowShape, InvalidArrowShapeError>(InvalidArrowShapeError { bad_value: v }),
            },
    {
        match v {
            0 => Ok(ArrowShape::NoArrow),
            1 => Ok(ArrowShape::Arrow),
            2 => Ok(ArrowShape::OpenArrow),
            3 => Ok(ArrowShape::StealthArrow),
            4 => Ok(ArrowShape::DiamondArrow),
            5 => Ok(ArrowShape::OvalArrow),
            _ => Err(InvalidArrowShapeError { bad_value: v }),
        }
    }
}

/// How the segments of a line are joined.
#[derive(Debug, Clone, Copy, PartialEq, Eq, Structural)]
pub enum JoinType {
    /// `JOIN_TYPE_MITER`
    Miter,
    /// `JOIN_TYPE_ROUND`
    Round,
    /// `JOIN_TYPE_BEVEL`
    Bevel,
}

/// The value is not that of a `JoinType`.
#[derive(Debug, Clone, Copy, PartialEq, Eq, Structural)]
pub struct InvalidJoinTypeError {
    pub bad_value: u8,
}

/// The `JoinType` that `v` stands for: 0 to 2 in declaration order.
pub open spec fn spec_join_type(v: u8) -> Option<JoinType> {
    if v == 0 {
        Some(JoinType::Miter)
    } else if v == 1 {
        Some(JoinType::Round)
    } else if v == 2 {
        Some(JoinType::Bevel)
    } else {
        None
    }
}

impl JoinType {
    pub fn try_from_u8(v: u8) -> (r: Result<JoinType, InvalidJoinTypeError>)
        ensures
            match spec_join_type(v) {
                Some(x) => r == Ok::<JoinType, InvalidJoinTypeError>(x),
                None => r == Err::<JoinType, InvalidJoinTypeError>(InvalidJoinTypeError { bad_value: v }),
            },
    {
        match v {
            0 => Ok(JoinType::Miter),
            1 => Ok(JoinType::Round),
            2 => Ok(JoinType::Bevel),
            _ => Err(InvalidJoinTypeError { bad_value: v }),
        }
    }
}


/// Failure to read a line colour effect.
#[derive(Debug, Clone, Copy, PartialEq, Eq, Structural)]
pub enum LineColourEffectParseError {
    Io(IoError),
    BadSize(TakeInclusiveLengthPrefixedError),
    PropertyFlags(ReadBitfieldError),
    UnhandledProperty(UnhandledBitsError),
    ColourType(InvalidColourTypeError),
    GradientType(InvalidGradientTypeError),
    Unfinished(UnfinishedParsingError),
}

/// The colour of a line.
#[derive(Debug)]
pub struct LineColourEffect {
    pub gradient_rotatable: bool,
    pub colour_type: ColourType,
    pub solid_colour: [u8; 4],
    pub gradient_type: GradientType,
    pub angle: u16,
    pub radial_gradient_pos: PointF32,
    pub colours: Vec<GradientColour>,
}

pub struct LineColourEffectModel {
    pub gradient_rotatable: bool,
    pub colour_type: ColourType,
    pub solid_colour: Seq<u8>,
    pub gradient_type: GradientType,
    pub angle: u16,
    pub radial_gradient_pos: PointF32,
    pub colours: Seq<GradientColourModel>,
}

impl View for LineColourEffect {
    type V = LineColourEffectModel;

    open spec fn view(&self) -> LineColourEffectModel {
        LineColourEffectModel {
            gradient_rotatable: self.gradient_rotatable,
            colour_type: self.colour_type,
            solid_colour: self.solid_colour@,
            gradient_type: self.gradient_type,
            angle: self.angle,
            radial_gradient_pos: self.radial_gradient_pos,
            colours: views(self.colours@),
        }
    }
}

fn read_gradient_colours_u8(r: &mut ByteStream) -> (res: Result<Vec<GradientColour>, IoError>)
    ensures
        match spec_u8_counted(old(r)@, gradient_colour_item()) {
            Some((m, s2)) => res matches Ok(v) && views(v@) == m && final(r)@ == s2,
            None => res is Err,
        },
        final(r)@.same_frame(old(r)@),
{
    let n: u8 = r.read_u8()?;
    read_gradient_colours(r, n)
}

/// The fields of a line colour effect after its property flags.
#[verifier::opaque]
pub open spec fn spec_line_colour_body(s: StreamModel) -> SpecRead<(ColourType, Seq<u8>, GradientType, u16, PointF32, Seq<GradientColourModel>)> {
    match spec_then(spec_u8(s), |v: u8| spec_colour_type(v)) {
        Some((colour_type, s1)) => 
        match spec_take(s1, 4) {
            Some((solid_colour, s2)) => 
            match spec_then(spec_u8(s2), |v: u8| spec_gradient_type(v)) {
                Some((gradient_type, s3)) => 
                match spec_u16(s3) {
                    Some((angle, s4)) => 
                    match spec_point_f32(s4) {
                        Some((radial_gradient_pos, s5)) => 
                        match spec_u8_counted(s5, gradient_colour_item()) {
                            Some((colours, s6)) => Some(((colour_type, solid_colour, gradient_type, angle, radial_gradient_pos, colours), s6)),
                            None => None,
                        },
                        None => None,
                    },
                    None => None,
                },
                None => None,
            },
            None => None,
        },
        None => None,
    }
}

fn read_line_colour_body(r: &mut ByteStream) -> (res: Result<(ColourType, [u8; 4], GradientType, u16, PointF32, Vec<GradientColour>), LineColourEffectParseError>)
    ensures
        match spec_line_colour_body(old(r)@) {
            Some((m, s2)) => res matches Ok(v) && v.0 == m.0
                && v.1@ == m.1
                && v.2 == m.2
                && v.3 == m.3
                && v.4 == m.4
                && views(v.5@) == m.5
                && final(r)@ == s2,
            None => res is Err,
        },
        final(r)@.same_frame(old(r)@),
{
    reveal(spec_line_colour_body);
    let colour_type: ColourType = {
            let raw = match r.read_u8() {
            Ok(v) => v,
            Err(e) => return Err(LineColourEffectParseError::Io(e)),
        };
            match ColourType::try_from_u8(raw) {
                Ok(v) => v,
                Err(e) => return Err(LineColourEffectParseError::ColourType(e)),
            }
        };
    let solid_colour: [u8; 4] = match r.read_4_bytes() {
            Ok(v) => v,
            Err(e) => return Err(LineColourEffectParseError::Io(e)),
        };
    let gradient_type: GradientType = {
            let raw = match r.read_u8() {
            Ok(v) => v,
            Err(e) => return Err(LineColourEffectParseError::Io(e)),
        };
            match GradientType::try_from_u8(raw) {
                Ok(v) => v,
                Err(e) => return Err(LineColourEffectParseError::GradientType(e)),
            }
        };
    let angle: u16 = match r.read_u16_le() {
            Ok(v) => v,
            Err(e) => return Err(LineColourEffectParseError::Io(e)),
        };
    let radial_gradient_pos: PointF32 = match PointF32::try_parse_f32(r) {
            Ok(v) => v,
            Err(e) => return Err(LineColourEffectParseError::Io(e)),
        };
    let colours: Vec<GradientColour> = match read_gradient_colours_u8(r) {
            Ok(v) => v,
            Err(e) => return Err(LineColourEffectParseError::Io(e)),
        };
    Ok((colour_type, solid_colour, gradient_type, angle, radial_gradient_pos, colours))
}


/// A line colour effect: a `u32` size and a window of that many bytes, holding property flags
/// (bit 0: the gradient rotates; no other bit) and the fields, and nothing after them.
pub open spec fn spec_line_colour_effect(s: StreamModel) -> SpecRead<LineColourEffectModel> {
    match spec_exclusive_window(s) {
        Some((w, s1)) => match spec_bitfield(w) {
            Ok((p, w1)) => if p & !1u32 != 0 {
                None
            } else {
                match spec_line_colour_body(w1) {
                    Some((b, w2)) => if w2.remaining() == 0 {
                        Some((LineColourEffectModel {
                            gradient_rotatable: bit_is_set(p, 0),
                            colour_type: b.0,
                            solid_colour: b.1,
                            gradient_type: b.2,
                            angle: b.3,
                            radial_gradient_pos: b.4,
                            colours: b.5,
                        }, spec_continue(s1, w2)))
                    } else {
                        None
                    },
                    None => None,
                }
            },
            Err(_) => None,
        },
        None => None,
    }
}

impl LineColourEffect {
    pub fn try_parse(stream: &mut ByteStream) -> (r: Result<LineColourEffect, LineColourEffectParseError>)
        ensures
            match spec_line_colour_effect(old(stream)@) {
                Some((m, s2)) => r matches Ok(v) && v@ == m && final(stream)@ == s2,
                None => r is Err,
            },
            final(stream)@.same_frame(old(stream)@),
    {
        let mut w: ByteStream = match stream.exclusive_blind_window() {
            Ok(w) => w,
            Err(e) => return Err(LineColourEffectParseError::Io(e)),
        };
        let mut flags: CheckedBitfield = match CheckedBitfield::try_parse(&mut w) {
            Ok(f) => f,
            Err(e) => return Err(LineColourEffectParseError::PropertyFlags(e)),
        };
        let gradient_rotatable: bool = flags.check_bit(0);
        proof {
            let c = flags.checked();
            assert(c == 1u32) by (bit_vector)
                requires
                    c == 0u32 | (1u32 << 0u8),
            ;
        }
        if let Err(e) = flags.ensure_none_set_unchecked() {
            return Err(LineColourEffectParseError::UnhandledProperty(e));
        }
        let b = read_line_colour_body(&mut w)?;
        if let Err(e) = w.ensure_eof() {
            return Err(LineColourEffectParseError::Unfinished(e));
        }
        proof { use_type_invariant(&*stream); use_type_invariant(&w); }
        stream.continue_after(&w);
        Ok(LineColourEffect {
            gradient_rotatable,
            colour_type: b.0,
            solid_colour: b.1,
            gradient_type: b.2,
            angle: b.3,
            radial_gradient_pos: b.4,
            colours: b.5,
        })
    }
}

/// Failure to read a line style effect.
#[derive(Debug, Clone, Copy, PartialEq, Eq, Structural)]
pub enum LineStyleEffectParseError {
    Io(IoError),
    /// The effect must be exactly 12 bytes.
    WrongSize(u32),
    CompoundType(InvalidCompoundTypeError),
    DashType(InvalidDashTypeError),
    CapType(InvalidCapTypeError),
    JoinType(InvalidJoinTypeError),
    ArrowShape(InvalidArrowShapeError),
    ArrowSize(InvalidArrowSizeError),
}

/// The style of a line.
#[derive(Debug, Clone, Copy, PartialEq, Eq, Structural)]
pub struct LineStyleEffect {
    pub width: RawF32,
    pub compound_type: CompoundType,
    pub dash_type: DashType,
    pub cap_type: CapType,
    pub join_type: JoinType,
    pub begin_arrow_shape: ArrowShape,
    pub begin_arrow_size: ArrowSize,
    pub end_arrow_shape: ArrowShape,
    pub end_arrow_size: ArrowSize,
}

/// The fields of a line style effect: the width, then eight bytes, one for each kind.
#[verifier::opaque]
pub open spec fn spec_line_style_body(s: StreamModel) -> SpecRead<(RawF32, CompoundType, DashType, CapType, JoinType, ArrowShape, ArrowSize, ArrowShape, ArrowSize)> {
    match spec_f32(s) {
        Some((width, s1)) => 
        match spec_then(spec_u8(s1), |v: u8| spec_compound_type(v)) {
            Some((compound_type, s2)) => 
            match spec_then(spec_u8(s2), |v: u8| spec_dash_type(v)) {
                Some((dash_type, s3)) => 
                match spec_then(spec_u8(s3), |v: u8| spec_cap_type(v)) {
                    Some((cap_type, s4)) => 
                    match spec_then(spec_u8(s4), |v: u8| spec_join_type(v)) {
                        Some((join_type, s5)) => 
                        match spec_then(spec_u8(s5), |v: u8| spec_arrow_shape(v)) {
                            Some((begin_arrow_shape, s6)) => 
                            match spec_then(spec_u8(s6), |v: u8| spec_arrow_size(v)) {
                                Some((begin_arrow_size, s7)) => 
                                match spec_then(spec_u8(s7), |v: u8| spec_arrow_shape(v)) {
                                    Some((end_arrow_shape, s8)) => 
                                    match spec_then(spec_u8(s8), |v: u8| spec_arrow_size(v)) {
                                        Some((end_arrow_size, s9)) => Some(((width, compound_type, dash_type, cap_type, join_type, begin_arrow_shape, begin_arrow_size, end_arrow_shape, end_arrow_size), s9)),
                                        None => None,
                                    },
                                    None => None,
                                },
                                None => None,
                            },
                            None => None,
                        },
                        None => None,
                    },
                    None => None,
                },
                None => None,
            },
            None => None,
        },
        None => None,
    }
}

#[verifier::rlimit(30)]
fn read_line_style_body(r: &mut ByteStream) -> (res: Result<(RawF32, CompoundType, DashType, CapType, JoinType, ArrowShape, ArrowSize, ArrowShape, ArrowSize), LineStyleEffectParseError>)
    ensures
        match spec_line_style_body(old(r)@) {
            Some((m, s2)) => res matches Ok(v) && v.0 == m.0
                && v.1 == m.1
                && v.2 == m.2
                && v.3 == m.3
                && v.4 == m.4
                && v.5 == m.5
                && v.6 == m.6
                && v.7 == m.7
                && v.8 == m.8
                && final(r)@ == s2,
            None => res is Err,
        },
        final(r)@.same_frame(old(r)@),
{
    reveal(spec_line_style_body);
    let width: RawF32 = match r.read_f32_le() {
            Ok(v) => v,
            Err(e) => return Err(LineStyleEffectParseError::Io(e)),
        };
    let compound_type: CompoundType = {
            let raw = match r.read_u8() {
            Ok(v) => v,
            Err(e) => return Err(LineStyleEffectParseError::Io(e)),
        };
            match CompoundType::try_from_u8(raw) {
                Ok(v) => v,
                Err(e) => return Err(LineStyleEffectParseError::CompoundType(e)),
            }
        };
    let dash_type: DashType = {
            let raw = match r.read_u8() {
            Ok(v) => v,
            Err(e) => return Err(LineStyleEffectParseError::Io(e)),
        };
            match DashType::try_from_u8(raw) {
                Ok(v) => v,
                Err(e) => return Err(LineStyleEffectParseError::DashType(e)),
            }
        };
    let cap_type: CapType = {
            let raw = match r.read_u8() {
            Ok(v) => v,
            Err(e) => return Err(LineStyleEffectParseError::Io(e)),
        };
            match CapType::try_from_u8(raw) {
                Ok(v) => v,
                Err(e) => return Err(LineStyleEffectParseError::CapType(e)),
            }
        };
    let join_type: JoinType = {
            let raw = match r.read_u8() {
            Ok(v) => v,
            Err(e) => return Err(LineStyleEffectParseError::Io(e)),
        };
            match JoinType::try_from_u8(raw) {
                Ok(v) => v,
                Err(e) => return Err(LineStyleEffectParseError::JoinType(e)),
            }
        };
    let begin_arrow_shape: ArrowShape = {
            let raw = match r.read_u8() {
            Ok(v) => v,
            Err(e) => return Err(LineStyleEffectParseError::Io(e)),
        };
            match ArrowShape::try_from_u8(raw) {
                Ok(v) => v,
                Err(e) => return Err(LineStyleEffectParseError::ArrowShape(e)),
            }
        };
    let begin_arrow_size: ArrowSize = {
            let raw = match r.read_u8() {
            Ok(v) => v,
            Err(e) => return Err(LineStyleEffectParseError::Io(e)),
        };
            match ArrowSize::try_from_u8(raw) {
                Ok(v) => v,
                Err(e) => return Err(LineStyleEffectParseError::ArrowSize(e)),
            }
        };
    let end_arrow_shape: ArrowShape = {
            let raw = match r.read_u8() {
            Ok(v) => v,
            Err(e) => return Err(LineStyleEffectParseError::Io(e)),
        };
            match ArrowShape::try_from_u8(raw) {
                Ok(v) => v,
                Err(e) => return Err(LineStyleEffectParseError::ArrowShape(e)),
            }
        };
    let end_arrow_size: ArrowSize = {
            let raw = match r.read_u8() {
            Ok(v) => v,
            Err(e) => return Err(LineStyleEffectParseError::Io(e)),
        };
            match ArrowSize::try_from_u8(raw) {
                Ok(v) => v,
                Err(e) => return Err(LineStyleEffectParseError::ArrowSize(e)),
            }
        };
    Ok((width, compound_type, dash_type, cap_type, join_type, begin_arrow_shape, begin_arrow_size, end_arrow_shape, end_arrow_size))
}


/// A line style effect: a `u32` size that must be 12, then the width and eight kind bytes.
pub open spec fn spec_line_style_effect(s: StreamModel) -> SpecRead<LineStyleEffect> {
    match spec_u32(s) {
        Some((size, s1)) => if size != 12 {
            None
        } else {
            match spec_line_style_body(s1) {
                Some((b, s2)) => Some((LineStyleEffect {
                    width: b.0,
                    compound_type: b.1,
                    dash_type: b.2,
                    cap_type: b.3,
                    join_type: b.4,
                    begin_arrow_shape: b.5,
                    begin_arrow_size: b.6,
                    end_arrow_shape: b.7,
                    end_arrow_size: b.8,
                }, s2)),
                None => None,
            }
        },
        None => None,
    }
}

impl LineStyleEffect {
    pub fn try_parse(stream: &mut ByteStream) -> (r: Result<LineStyleEffect, LineStyleEffectParseError>)
        ensures
            match spec_line_style_effect(old(stream)@) {
                Some((m, s2)) => r == Ok::<LineStyleEffect, LineStyleEffectParseError>(m) && final(stream)@ == s2,
                None => r is Err,
            },
            final(stream)@.same_frame(old(stream)@),
    {
        let size: u32 = match stream.read_u32_le() {
            Ok(v) => v,
            Err(e) => return Err(LineStyleEffectParseError::Io(e)),
        };
        if size != 12 {
            return Err(LineStyleEffectParseError::WrongSize(size));
        }
        let b = read_line_style_body(stream)?;
        Ok(LineStyleEffect {
            width: b.0,
            compound_type: b.1,
            dash_type: b.2,
            cap_type: b.3,
            join_type: b.4,
            begin_arrow_shape: b.5,
            begin_arrow_size: b.6,
            end_arrow_shape: b.7,
            end_arrow_size: b.8,
        })
    }
}

/// Failure to read the base of a shape.
#[derive(Debug, Clone, Copy, PartialEq, Eq, Structural)]
pub enum ShapeBaseParseError {
    Io(IoError),
    Base(ObjectBaseParseError),
    Header(ObjectHeaderError),
    /// An element count does not fit in `usize`.
    TooManyElements(u32),
    LineColourEffect(LineColourEffectParseError),
    LineStyleEffect(LineStyleEffectParseError),
    String(ReadStringError),
    Unfinished(UnfinishedParsingError),
}

pub open spec fn short_u8_string_item() -> spec_fn(StreamModel) -> SpecRead<Seq<char>> {
    |t: StreamModel| spec_str_opt(spec_short_u8_string(t))
}

fn read_short_u8_string_item(r: &mut ByteStream) -> (res: Result<String, ShapeBaseParseError>)
    ensures
        match spec_str_opt(spec_short_u8_string(old(r)@)) {
            Some((m, s2)) => res matches Ok(v) && v@ == m && final(r)@ == s2,
            None => res is Err,
        },
        final(r)@.same_frame(old(r)@),
{
    match r.read_short_u8_string() {
        Ok(v) => Ok(v),
        Err(e) => Err(ShapeBaseParseError::String(e)),
    }
}

/// Reads `n` items.
fn read_u32_u8_strings_n(r: &mut ByteStream, n: u32) -> (res: Result<Vec<String>, ShapeBaseParseError>)
    ensures
        match spec_repeat(old(r)@, n as nat, short_u8_string_item()) {
            Some((vs, s2)) => res matches Ok(v) && crate::byte_stream::views(v@) == vs && final(r)@ == s2,
            None => res is Err,
        },
        final(r)@.same_frame(old(r)@),
{
    let ghost s0 = r@;
    let ghost item = short_u8_string_item();
    let mut items: Vec<String> = Vec::new();
    let mut i: u32 = 0;
    while i < n
        invariant
            i <= n,
            item == short_u8_string_item(),
            s0 == old(r)@,
            r@.same_frame(s0),
            spec_repeat(s0, i as nat, item) matches Some((vs, st)) && crate::byte_stream::views(items@) == vs && r@ == st,
        decreases n - i,
    {
        let ghost before = r@;
        proof { assert(item(before) == short_u8_string_item()(before)); }
        let x: String = match read_short_u8_string_item(r) {
            Ok(x) => x,
            Err(e) => {
                proof { lemma_repeat_fails(s0, (i + 1) as nat, n as nat, item); }
                return Err(e);
            },
        };
        let ghost old_items = items@;
        items.push(x);
        proof { assert(crate::byte_stream::views(items@) =~= crate::byte_stream::views(old_items).push(x@)); }
        i = i + 1;
    }
    Ok(items)
}

/// A `u32` count, then that many items.
fn read_u32_u8_strings(r: &mut ByteStream) -> (res: Result<Vec<String>, ShapeBaseParseError>)
    ensures
        match spec_u32_counted(old(r)@, short_u8_string_item()) {
            Some((vs, s2)) => res matches Ok(v) && crate::byte_stream::views(v@) == vs && final(r)@ == s2,
            None => res is Err,
        },
        final(r)@.same_frame(old(r)@),
{
    let n: u32 = match r.read_u32_le() {
        Ok(v) => v,
        Err(e) => return Err(ShapeBaseParseError::Io(e)),
    };
    read_u32_u8_strings_n(r, n)
}

/// Reads `n` items.
fn read_u16_u8_strings_n(r: &mut ByteStream, n: u16) -> (res: Result<Vec<String>, ShapeBaseParseError>)
    ensures
        match spec_repeat(old(r)@, n as nat, short_u8_string_item()) {
            Some((vs, s2)) => res matches Ok(v) && crate::byte_stream::views(v@) == vs && final(r)@ == s2,
            None => res is Err,
        },
        final(r)@.same_frame(old(r)@),
{
    let ghost s0 = r@;
    let ghost item = short_u8_string_item();
    let mut items: Vec<String> = Vec::new();
    let mut i: u16 = 0;
    while i < n
        invariant
            i <= n,
            item == short_u8_string_item(),
            s0 == old(r)@,
            r@.same_frame(s0),
            spec_repeat(s0, i as nat, item) matches Some((vs, st)) && crate::byte_stream::views(items@) == vs && r@ == st,
        decreases n - i,
    {
        let ghost before = r@;
        proof { assert(item(before) == short_u8_string_item()(before)); }
        let x: String = match read_short_u8_string_item(r) {
            Ok(x) => x,
            Err(e) => {
                proof { lemma_repeat_fails(s0, (i + 1) as nat, n as nat, item); }
                return Err(e);
            },
        };
        let ghost old_items = items@;
        items.push(x);
        proof { assert(crate::byte_stream::views(items@) =~= crate::byte_stream::views(old_items).push(x@)); }
        i = i + 1;
    }
    Ok(items)
}

/// A `u16` count, then that many items.
fn read_u16_u8_strings(r: &mut ByteStream) -> (res: Result<Vec<String>, ShapeBaseParseError>)
    ensures
        match spec_u16_counted(old(r)@, short_u8_string_item()) {
            Some((vs, s2)) => res matches Ok(v) && crate::byte_stream::views(v@) == vs && final(r)@ == s2,
            None => res is Err,
        },
        final(r)@.same_frame(old(r)@),
{
    let n: u16 = match r.read_u16_le() {
        Ok(v) => v,
        Err(e) => return Err(ShapeBaseParseError::Io(e)),
    };
    read_u16_u8_strings_n(r, n)
}


/// A point where connectors may attach, and the objects attached there.
#[derive(Debug)]
pub struct ConnectionPoint {
    pub point: Point,
    pub uuids: Vec<String>,
}

pub struct ConnectionPointModel {
    pub point: Point,
    pub uuids: Seq<Seq<char>>,
}

impl View for ConnectionPoint {
    type V = ConnectionPointModel;

    open spec fn view(&self) -> ConnectionPointModel {
        ConnectionPointModel { point: self.point, uuids: views(self.uuids@) }
    }
}

/// A point, then a `u32` count of short UTF-8 strings.
pub open spec fn spec_connection_point(s: StreamModel) -> SpecRead<ConnectionPointModel> {
    match spec_point(s) {
        Some((point, s1)) => match spec_u32_counted(s1, short_u8_string_item()) {
            Some((uuids, s2)) => Some((ConnectionPointModel { point, uuids }, s2)),
            None => None,
        },
        None => None,
    }
}

pub open spec fn connection_point_item() -> spec_fn(StreamModel) -> SpecRead<ConnectionPointModel> {
    |t: StreamModel| spec_connection_point(t)
}

fn read_connection_point(r: &mut ByteStream) -> (res: Result<ConnectionPoint, ShapeBaseParseError>)
    ensures
        match spec_connection_point(old(r)@) {
            Some((m, s2)) => res matches Ok(v) && v@ == m && final(r)@ == s2,
            None => res is Err,
        },
        final(r)@.same_frame(old(r)@),
{
    let point: Point = match Point::try_parse_f64(r) {
        Ok(v) => v,
        Err(e) => return Err(ShapeBaseParseError::Io(e)),
    };
    let uuids: Vec<String> = read_u32_u8_strings(r)?;
    Ok(ConnectionPoint { point, uuids })
}

pub open spec fn point_item() -> spec_fn(StreamModel) -> SpecRead<Point> {
    |t: StreamModel| spec_point(t)
}

fn read_point_item(r: &mut ByteStream) -> (res: Result<Point, ShapeBaseParseError>)
    ensures
        match spec_point(old(r)@) {
            Some((m, s2)) => res == Ok::<Point, ShapeBaseParseError>(m) && final(r)@ == s2,
            None => res is Err,
        },
        final(r)@.same_frame(old(r)@),
{
    match Point::try_parse_f64(r) {
        Ok(v) => Ok(v),
        Err(e) => Err(ShapeBaseParseError::Io(e)),
    }
}

/// Reads `n` items.
fn read_connection_points_n(r: &mut ByteStream, n: u32) -> (res: Result<Vec<ConnectionPoint>, ShapeBaseParseError>)
    ensures
        match spec_repeat(old(r)@, n as nat, connection_point_item()) {
            Some((vs, s2)) => res matches Ok(v) && crate::byte_stream::views(v@) == vs && final(r)@ == s2,
            None => res is Err,
        },
        final(r)@.same_frame(old(r)@),
{
    let ghost s0 = r@;
    let ghost item = connection_point_item();
    let mut items: Vec<ConnectionPoint> = Vec::new();
    let mut i: u32 = 0;
    while i < n
        invariant
            i <= n,
            item == connection_point_item(),
            s0 == old(r)@,
            r@.same_frame(s0),
            spec_repeat(s0, i as nat, item) matches Some((vs, st)) && crate::byte_stream::views(items@) == vs && r@ == st,
        decreases n - i,
    {
        let ghost before = r@;
        proof { assert(item(before) == connection_point_item()(before)); }
        let x: ConnectionPoint = match read_connection_point(r) {
            Ok(x) => x,
            Err(e) => {
                proof { lemma_repeat_fails(s0, (i + 1) as nat, n as nat, item); }
                return Err(e);
            },
        };
        let ghost old_items = items@;
        items.push(x);
        proof { assert(crate::byte_stream::views(items@) =~= crate::byte_stream::views(old_items).push(x@)); }
        i = i + 1;
    }
    Ok(items)
}

/// A `u32` count, then that many items.
fn read_connection_points(r: &mut ByteStream) -> (res: Result<Vec<ConnectionPoint>, ShapeBaseParseError>)
    ensures
        match spec_u32_counted(old(r)@, connection_point_item()) {
            Some((vs, s2)) => res matches Ok(v) && crate::byte_stream::views(v@) == vs && final(r)@ == s2,
            None => res is Err,
        },
        final(r)@.same_frame(old(r)@),
{
    let n: u32 = match r.read_u32_le() {
        Ok(v) => v,
        Err(e) => return Err(ShapeBaseParseError::Io(e)),
    };
    read_connection_points_n(r, n)
}

/// Reads `n` items.
fn read_points_n(r: &mut ByteStream, n: u32) -> (res: Result<Vec<Point>, ShapeBaseParseError>)
    ensures
        match spec_repeat(old(r)@, n as nat, point_item()) {
            Some((vs, s2)) => res matches Ok(v) && v@ == vs && final(r)@ == s2,
            None => res is Err,
        },
        final(r)@.same_frame(old(r)@),
{
    let ghost s0 = r@;
    let ghost item = point_item();
    let mut items: Vec<Point> = Vec::new();
    let mut i: u32 = 0;
    while i < n
        invariant
            i <= n,
            item == point_item(),
            s0 == old(r)@,
            r@.same_frame(s0),
            spec_repeat(s0, i as nat, item) matches Some((vs, st)) && items@ == vs && r@ == st,
        decreases n - i,
    {
        let ghost before = r@;
        proof { assert(item(before) == point_item()(before)); }
        let x: Point = match read_point_item(r) {
            Ok(x) => x,
            Err(e) => {
                proof { lemma_repeat_fails(s0, (i + 1) as nat, n as nat, item); }
                return Err(e);
            },
        };
        items.push(x);
        i = i + 1;
    }
    Ok(items)
}

/// A `u32` count, then that many items.
fn read_points(r: &mut ByteStream) -> (res: Result<Vec<Point>, ShapeBaseParseError>)
    ensures
        match spec_u32_counted(old(r)@, point_item()) {
            Some((vs, s2)) => res matches Ok(v) && v@ == vs && final(r)@ == s2,
            None => res is Err,
        },
        final(r)@.same_frame(old(r)@),
{
    let n: u32 = match r.read_u32_le() {
        Ok(v) => v,
        Err(e) => return Err(ShapeBaseParseError::Io(e)),
    };
    read_points_n(r, n)
}

/// The fixed fields of a shape base: the points of connection, the (unused) total size of the connection points, the connection points and a skipped byte.
#[verifier::opaque]
pub open spec fn spec_shape_base_fixed(s: StreamModel) -> SpecRead<(Seq<Point>, u32, Seq<ConnectionPointModel>, u8)> {
    match spec_u32_counted(s, point_item()) {
        Some((points_of_connection, s1)) => 
        match spec_u32(s1) {
            Some((connection_points_total_size, s2)) => 
            match spec_u32_counted(s2, connection_point_item()) {
                Some((connection_points, s3)) => 
                match spec_u8(s3) {
                    Some((skip, s4)) => Some(((points_of_connection, connection_points_total_size, connection_points, skip), s4)),
                    None => None,
                },
                None => None,
            },
            None => None,
        },
        None => None,
    }
}

fn read_shape_base_fixed(r: &mut ByteStream) -> (res: Result<(Vec<Point>, u32, Vec<ConnectionPoint>, u8), ShapeBaseParseError>)
    ensures
        match spec_shape_base_fixed(old(r)@) {
            Some((m, s2)) => res matches Ok(v) && v.0@ == m.0
                && v.1 == m.1
                && views(v.2@) == m.2
                && v.3 == m.3
                && final(r)@ == s2,
            None => res is Err,
        },
        final(r)@.same_frame(old(r)@),
{
    reveal(spec_shape_base_fixed);
    let points_of_connection: Vec<Point> = match read_points(r) {
            Ok(v) => v,
            Err(e) => return Err(e),
        };
    let connection_points_total_size: u32 = match r.read_u32_le() {
            Ok(v) => v,
            Err(e) => return Err(ShapeBaseParseError::Io(e)),
        };
    let connection_points: Vec<ConnectionPoint> = match read_connection_points(r) {
            Ok(v) => v,
            Err(e) => return Err(e),
        };
    let skip: u8 = match r.read_u8() {
            Ok(v) => v,
            Err(e) => return Err(ShapeBaseParseError::Io(e)),
        };
    Ok((points_of_connection, connection_points_total_size, connection_points, skip))
}

/// The optional fields of a shape base: line colour (bit 2), line style (bit 3) and followers (bit 7; none if absent).
#[verifier::opaque]
pub open spec fn spec_shape_base_opt(s: StreamModel, fb: u32) -> SpecRead<(Option<LineColourEffectModel>, Option<LineStyleEffect>, Seq<Seq<char>>)> {
    match spec_opt(bit_is_set(fb, 2), spec_line_colour_effect(s), s) {
        Some((line_colour_effect, s1)) => 
        match spec_opt(bit_is_set(fb, 3), spec_line_style_effect(s1), s1) {
            Some((line_style_effect, s2)) => 
            match spec_opt_or(bit_is_set(fb, 7), spec_u16_counted(s2, short_u8_string_item()), s2, Seq::<Seq<char>>::empty()) {
                Some((slave_uuids, s3)) => Some(((line_colour_effect, line_style_effect, slave_uuids), s3)),
                None => None,
            },
            None => None,
        },
        None => None,
    }
}

fn read_shape_base_opt(r: &mut ByteStream, flags: &mut CheckedBitfield) -> (res: Result<(Option<LineColourEffect>, Option<LineStyleEffect>, Vec<String>), ShapeBaseParseError>)
    ensures
        match spec_shape_base_opt(old(r)@, old(flags).bits()) {
            Some((m, s2)) => res matches Ok(v) && opt_view(v.0) == m.0
                && v.1 == m.1
                && views(v.2@) == m.2
                && final(flags).bits() == old(flags).bits()
                && final(flags).checked() == old(flags).checked() | 0x8c
                && final(r)@ == s2,
            None => res is Err,
        },
        final(r)@.same_frame(old(r)@),
{
    reveal(spec_shape_base_opt);
    let ghost c0 = flags.checked();
    let present_line_colour_effect: bool = flags.check_bit(2);
    let ghost c1 = flags.checked();
    let line_colour_effect: Option<LineColourEffect> = if present_line_colour_effect {
        Some(match LineColourEffect::try_parse(r) {
            Ok(v) => v,
            Err(e) => return Err(ShapeBaseParseError::LineColourEffect(e)),
        })
    } else {
        None
    };
    let present_line_style_effect: bool = flags.check_bit(3);
    let ghost c2 = flags.checked();
    let line_style_effect: Option<LineStyleEffect> = if present_line_style_effect {
        Some(match LineStyleEffect::try_parse(r) {
            Ok(v) => v,
            Err(e) => return Err(ShapeBaseParseError::LineStyleEffect(e)),
        })
    } else {
        None
    };
    let present_slave_uuids: bool = flags.check_bit(7);
    let ghost c3 = flags.checked();
    let slave_uuids: Vec<String> = if present_slave_uuids {
        match read_u16_u8_strings(r) {
            Ok(v) => v,
            Err(e) => return Err(e),
        }
    } else {
        Vec::new()
    };
    proof {
        crate::bits::lemma_or_assoc(c0, crate::bits::bit_mask(2u8), crate::bits::bit_mask(3u8));
        crate::bits::lemma_or_assoc(c0, crate::bits::bit_mask(2u8) | crate::bits::bit_mask(3u8), crate::bits::bit_mask(7u8));
        crate::bits::lemma_chunk_masks();
        assert(c3 == c0 | 0x8cu32);
    }
    Ok((line_colour_effect, line_style_effect, slave_uuids))
}

/// The base of shape-like objects.
#[derive(Debug)]
pub struct ShapeBase {
    pub object_base: ObjectBase,
    pub line_colour_effect: Option<LineColourEffect>,
    pub line_style_effect: Option<LineStyleEffect>,
    pub slave_uuids: Vec<String>,
    /// In the JVM code, both this and `points_of_connection` are lists of connection points,
    /// but one uses only the points, while the other uses both points and ids.
    pub connection_points: Vec<ConnectionPoint>,
    pub points_of_connection: Vec<Point>,
}

pub struct ShapeBaseModel {
    pub object_base: ObjectBaseModel,
    pub line_colour_effect: Option<LineColourEffectModel>,
    pub line_style_effect: Option<LineStyleEffect>,
    pub slave_uuids: Seq<Seq<char>>,
    pub connection_points: Seq<ConnectionPointModel>,
    pub points_of_connection: Seq<Point>,
}

impl View for ShapeBase {
    type V = ShapeBaseModel;

    open spec fn view(&self) -> ShapeBaseModel {
        ShapeBaseModel {
            object_base: self.object_base@,
            line_colour_effect: opt_view(self.line_colour_effect),
            line_style_effect: self.line_style_effect,
            slave_uuids: views(self.slave_uuids@),
            connection_points: views(self.connection_points@),
            points_of_connection: self.points_of_connection@,
        }
    }
}

/// The field bits that a shape base handles.
pub open spec fn shape_base_field_mask() -> u32 {
    0x8cu32
}

/// A shape base: an object base, then an object block of data type 6 with no property flags,
/// holding the fixed and optional fields and nothing else.
#[verifier::opaque]
pub open spec fn spec_shape_base(s: StreamModel) -> SpecRead<ShapeBaseModel> {
    match spec_object_base(s) {
        Some((object_base, s1)) => match spec_object_header(s1, 6) {
            Some((fb, w, s2)) => match spec_shape_base_fixed(w) {
                Some((x, w1)) => match spec_flex(w1, fb) {
                    Some((w2, ff)) => match spec_shape_base_opt(w2, ff) {
                        Some((o, w3)) => if fb.property_bits == 0 && ff & !shape_base_field_mask() == 0
                            && w3.remaining() == 0 {
                            Some((ShapeBaseModel {
                                object_base,
                                line_colour_effect: o.0,
                                line_style_effect: o.1,
                                slave_uuids: o.2,
                                connection_points: x.2,
                                points_of_connection: x.0,
                            }, spec_continue(s2, w3)))
                        } else {
                            None
                        },
                        None => None,
                    },
                    None => None,
                },
                None => None,
            },
            None => None,
        },
        None => None,
    }
}

impl<'a> TryParse<ByteStream<'a>> for ShapeBase {
    type ParseError = ShapeBaseParseError;

    fn try_parse(stream: &mut ByteStream<'a>) -> (r: Result<ShapeBase, ShapeBaseParseError>)
        ensures
            match spec_shape_base(old(stream)@) {
                Some((m, s2)) => r matches Ok(v) && v@ == m && final(stream)@ == s2,
                None => r is Err,
            },
            final(stream)@.same_frame(old(stream)@),
    {
        reveal(spec_shape_base);
        let object_base: ObjectBase = match ObjectBase::try_parse(stream) {
            Ok(v) => v,
            Err(e) => return Err(ShapeBaseParseError::Base(e)),
        };
        let (mut header, mut w) = match ObjectHeader::try_parse(stream, 6) {
            Ok(v) => v,
            Err(e) => return Err(ShapeBaseParseError::Header(e)),
        };
        let x = read_shape_base_fixed(&mut w)?;
        let ff: &mut CheckedBitfield = match header.init_flex(&mut w) {
            Ok(f) => f,
            Err(e) => return Err(ShapeBaseParseError::Io(e)),
        };
        let o = read_shape_base_opt(&mut w, ff)?;
        proof {
            let c = header.0.field_flags().checked();
            crate::bits::lemma_zero_or(0x8cu32);
            assert(c == 0x8cu32);
            let pb = header.0.property_flags().bits();
            crate::bits::lemma_and_not_zero(pb);
        }
        if let Err(e) = header.ensure_flags_used() {
            return Err(ShapeBaseParseError::Header(e));
        }
        if let Err(e) = w.ensure_eof() {
            return Err(ShapeBaseParseError::Unfinished(e));
        }
        proof { use_type_invariant(&*stream); use_type_invariant(&w); }
        stream.continue_after(&w);
        Ok(ShapeBase {
            object_base,
            line_colour_effect: o.0,
            line_style_effect: o.1,
            slave_uuids: o.2,
            connection_points: x.2,
            points_of_connection: x.0,
        })
    }
}

impl ShapeBase {
    pub fn object_base(&self) -> (r: &ObjectBase)
        ensures
            r@ == self@.object_base,
    {
        &self.object_base
    }
}

} // verus!
