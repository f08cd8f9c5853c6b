//! Values shared by several kinds of object: points, rectangles, paths and colours.
use vstd::prelude::*;

use crate::byte_stream::{
    lemma_repeat_fails, spec_f32, spec_f64, spec_i32, spec_repeat, spec_take, spec_u32, spec_u8,
    ByteStream, IoError, RawF32, RawF64, SpecRead, StreamModel,
};

verus! {

/// A point with double-precision coordinates.
#[derive(Debug, Clone, Copy, PartialEq, Eq, Structural)]
pub struct Point {
    pub x: RawF64,
    pub y: RawF64,
}

pub open spec fn spec_point(s: StreamModel) -> SpecRead<Point> {
    match spec_f64(s) {
        Some((x, s1)) => 
        match spec_f64(s1) {
            Some((y, s2)) => Some((Point { x, y }, s2)),
            None => None,
        },
        None => None,
    }
}

impl Point {
    pub fn try_parse_f64(stream: &mut ByteStream) -> (r: Result<Point, IoError>)
        ensures
            match spec_point(old(stream)@) {
                Some((v, s2)) => r == Ok::<Point, IoError>(v) && final(stream)@ == s2,
                None => r is Err,
            },
            final(stream)@.same_frame(old(stream)@),
    {
        let x: RawF64 = stream.read_f64_le()?;
        let y: RawF64 = stream.read_f64_le()?;
        Ok(Point { x, y })
    }
}

/// A point with single-precision coordinates.
#[derive(Debug, Clone, Copy, PartialEq, Eq, Structural)]
pub struct PointF32 {
    pub x: RawF32,
    pub y: RawF32,
}

pub open spec fn spec_point_f32(s: StreamModel) -> SpecRead<PointF32> {
    match spec_f32(s) {
        Some((x, s1)) => 
        match spec_f32(s1) {
            Some((y, s2)) => Some((PointF32 { x, y }, s2)),
            None => None,
        },
        None => None,
    }
}

impl PointF32 {
    pub fn try_parse_f32(stream: &mut ByteStream) -> (r: Result<PointF32, IoError>)
        ensures
            match spec_point_f32(old(stream)@) {
                Some((v, s2)) => r == Ok::<PointF32, IoError>(v) && final(stream)@ == s2,
                None => r is Err,
            },
            final(stream)@.same_frame(old(stream)@),
    {
        let x: RawF32 = stream.read_f32_le()?;
        let y: RawF32 = stream.read_f32_le()?;
        Ok(PointF32 { x, y })
    }
}

/// A rectangle with double-precision edges.
#[derive(Debug, Clone, Copy, PartialEq, Eq, Structural)]
pub struct Rect {
    pub left: RawF64,
    pub top: RawF64,
    pub right: RawF64,
    pub bottom: RawF64,
}

pub open spec fn spec_rect(s: StreamModel) -> SpecRead<Rect> {
    match spec_f64(s) {
        Some((left, s1)) => 
        match spec_f64(s1) {
            Some((top, s2)) => 
            match spec_f64(s2) {
                Some((right, s3)) => 
                match spec_f64(s3) {
                    Some((bottom, s4)) => Some((Rect { left, top, right, bottom }, s4)),
                    None => None,
                },
                None => None,
            },
            None => None,
        },
        None => None,
    }
}

impl Rect {
    pub fn try_parse_f64(stream: &mut ByteStream) -> (r: Result<Rect, IoError>)
        ensures
            match spec_rect(old(stream)@) {
                Some((v, s2)) => r == Ok::<Rect, IoError>(v) && final(stream)@ == s2,
                None => r is Err,
            },
            final(stream)@.same_frame(old(stream)@),
    {
        let left: RawF64 = stream.read_f64_le()?;
        let top: RawF64 = stream.read_f64_le()?;
        let right: RawF64 = stream.read_f64_le()?;
        let bottom: RawF64 = stream.read_f64_le()?;
        Ok(Rect { left, top, right, bottom })
    }
}

/// A rectangle with single-precision edges.
#[derive(Debug, Clone, Copy, PartialEq, Eq, Structural)]
pub struct RectF32 {
    pub left: RawF32,
    pub top: RawF32,
    pub right: RawF32,
    pub bottom: RawF32,
}

pub open spec fn spec_rect_f32(s: StreamModel) -> SpecRead<RectF32> {
    match spec_f32(s) {
        Some((left, s1)) => 
        match spec_f32(s1) {
            Some((top, s2)) => 
            match spec_f32(s2) {
                Some((right, s3)) => 
                match spec_f32(s3) {
                    Some((bottom, s4)) => Some((RectF32 { left, top, right, bottom }, s4)),
                    None => None,
                },
                None => None,
            },
            None => None,
        },
        None => None,
    }
}

impl RectF32 {
    pub fn try_parse_f32(stream: &mut ByteStream) -> (r: Result<RectF32, IoError>)
        ensures
            match spec_rect_f32(old(stream)@) {
                Some((v, s2)) => r == Ok::<RectF32, IoError>(v) && final(stream)@ == s2,
                None => r is Err,
            },
            final(stream)@.same_frame(old(stream)@),
    {
        let left: RawF32 = stream.read_f32_le()?;
        let top: RawF32 = stream.read_f32_le()?;
        let right: RawF32 = stream.read_f32_le()?;
        let bottom: RawF32 = stream.read_f32_le()?;
        Ok(RectF32 { left, top, right, bottom })
    }
}

/// A rectangle with integer edges.
#[derive(Debug, Clone, Copy, PartialEq, Eq, Structural)]
pub struct RectI32 {
    pub left: i32,
    pub top: i32,
    pub right: i32,
    pub bottom: i32,
}

pub open spec fn spec_rect_i32(s: StreamModel) -> SpecRead<RectI32> {
    match spec_i32(s) {
        Some((left, s1)) => 
        match spec_i32(s1) {
            Some((top, s2)) => 
            match spec_i32(s2) {
                Some((right, s3)) => 
                match spec_i32(s3) {
                    Some((bottom, s4)) => Some((RectI32 { left, top, right, bottom }, s4)),
                    None => None,
                },
                None => None,
            },
            None => None,
        },
        None => None,
    }
}

impl RectI32 {
    pub fn try_parse_i32(stream: &mut ByteStream) -> (r: Result<RectI32, IoError>)
        ensures
            match spec_rect_i32(old(stream)@) {
                Some((v, s2)) => r == Ok::<RectI32, IoError>(v) && final(stream)@ == s2,
                None => r is Err,
            },
            final(stream)@.same_frame(old(stream)@),
    {
        let left: i32 = stream.read_i32_le()?;
        let top: i32 = stream.read_i32_le()?;
        let right: i32 = stream.read_i32_le()?;
        let bottom: i32 = stream.read_i32_le()?;
        Ok(RectI32 { left, top, right, bottom })
    }
}

/// How an area is coloured.
#[derive(Debug, Clone, Copy, PartialEq, Eq, Structural)]
pub enum ColourType {
    /// `COLOR_SOLID`
    Solid,
    /// `COLOR_GRADIENT`
    Gradient,
    /// `COLOR_NONE`
    NoColour,
}

/// The value is not that of a `ColourType`.
#[derive(Debug, Clone, Copy, PartialEq, Eq, Structural)]
pub struct InvalidColourTypeError {
    pub bad_value: u8,
}

/// The `ColourType` that `v` stands for: 0 to 2 in declaration order.
pub open spec fn spec_colour_type(v: u8) -> Option<ColourType> {
    if v == 0 {
        Some(ColourType::Solid)
    } else if v == 1 {
        Some(ColourType::Gradient)
    } else if v == 2 {
        Some(ColourType::NoColour)
    } else {
        None
    }
}

impl ColourType {
    pub fn try_from_u8(v: u8) -> (r: Result<ColourType, InvalidColourTypeError>)
        ensures
            match spec_colour_type(v) {
                Some(x) => r == Ok::<ColourType, InvalidColourTypeError>(x),
                None => r == Err::<ColourType, InvalidColourTypeError>(InvalidColourTypeError { bad_value: v }),
            },
    {
        match v {
            0 => Ok(ColourType::Solid),
            1 => Ok(ColourType::Gradient),
            2 => Ok(ColourType::NoColour),
            _ => Err(InvalidColourTypeError { bad_value: v }),
        }
    }
}

/// The shape of a colour gradient.
#[derive(Debug, Clone, Copy, PartialEq, Eq, Structural)]
pub enum GradientType {
    /// `GRADIENT_LINEAR`
    Linear,
    /// `GRADIENT_RADIAL`
    Radial,
    /// `GRADIENT_RECTANGULAR`
    Rectangular,
    /// `GRADIENT_PATH`
    Path,
}

/// The value is not that of a `GradientType`.
#[derive(Debug, Clone, Copy, PartialEq, Eq, Structural)]
pub struct InvalidGradientTypeError {
    pub bad_value: u8,
}

/// The `GradientType` that `v` stands for: 0 to 3 in declaration order.
pub open spec fn spec_gradient_type(v: u8) -> Option<GradientType> {
    if v == 0 {
        Some(GradientType::Linear)
    } else if v == 1 {
        Some(GradientType::Radial)
    } else if v == 2 {
        Some(GradientType::Rectangular)
    } else if v == 3 {
        Some(GradientType::Path)
    } else {
        None
    }
}

impl GradientType {
    pub fn try_from_u8(v: u8) -> (r: Result<GradientType, InvalidGradientTypeError>)
        ensures
            match spec_gradient_type(v) {
                Some(x) => r == Ok::<GradientType, InvalidGradientTypeError>(x),
                None => r == Err::<GradientType, InvalidGradientTypeError>(InvalidGradientTypeError { bad_value: v }),
            },
    {
        match v {
            0 => Ok(GradientType::Linear),
            1 => Ok(GradientType::Radial),
            2 => Ok(GradientType::Rectangular),
            3 => Ok(GradientType::Path),
            _ => Err(InvalidGradientTypeError { bad_value: v }),
        }
    }
}

impl ColourType {
    pub fn is_solid(self) -> (r: bool)
        ensures
            r <==> self == ColourType::Solid,
    {
        match self {
            ColourType::Solid => true,
            _ => false,
        }
    }
}

/// A colour stop of a gradient.
#[derive(Debug, Clone, Copy)]
pub struct GradientColour {
    pub colour: [u8; 4],
    pub position: RawF32,
}

pub struct GradientColourModel {
    pub colour: Seq<u8>,
    pub position: RawF32,
}

impl View for GradientColour {
    type V = GradientColourModel;

    open spec fn view(&self) -> GradientColourModel {
        GradientColourModel { colour: self.colour@, position: self.position }
    }
}

/// Four colour bytes, then an `f32` position.
pub open spec fn spec_gradient_colour(s: StreamModel) -> SpecRead<GradientColourModel> {
    match spec_take(s, 4) {
        Some((colour, s1)) => match spec_f32(s1) {
            Some((position, s2)) => Some((GradientColourModel { colour, position }, s2)),
            None => None,
        },
        None => None,
    }
}

pub open spec fn gradient_colour_item() -> spec_fn(StreamModel) -> SpecRead<GradientColourModel> {
    |t: StreamModel| spec_gradient_colour(t)
}

impl GradientColour {
    pub fn try_parse(stream: &mut ByteStream) -> (r: Result<GradientColour, IoError>)
        ensures
            match spec_gradient_colour(old(stream)@) {
                Some((m, s2)) => r matches Ok(v) && v@ == m && final(stream)@ == s2,
                None => r is Err,
            },
            final(stream)@.same_frame(old(stream)@),
    {
        let colour: [u8; 4] = stream.read_4_bytes()?;
        let position: RawF32 = stream.read_f32_le()?;
        Ok(GradientColour { colour, position })
    }
}

/// Reads `n` gradient colour stops.
pub fn read_gradient_colours(stream: &mut ByteStream, n: u8) -> (r: Result<Vec<GradientColour>, IoError>)
    ensures
        match spec_repeat(old(stream)@, n as nat, gradient_colour_item()) {
            Some((cs, s2)) => r matches Ok(v) && crate::byte_stream::views(v@) == cs && final(stream)@ == s2,
            None => r is Err,
        },
        final(stream)@.same_frame(old(stream)@),
{
    let ghost s0 = stream@;
    let ghost item = gradient_colour_item();
    let mut v: Vec<GradientColour> = Vec::new();
    let mut i: u8 = 0;
    while i < n
        invariant
            i <= n,
            item == gradient_colour_item(),
            s0 == old(stream)@,
            stream@.same_frame(s0),
            spec_repeat(s0, i as nat, item) matches Some((cs, st)) && crate::byte_stream::views(v@) == cs && stream@ == st,
        decreases n - i,
    {
        let ghost before = stream@;
        proof { assert(item(before) == spec_gradient_colour(before)); }
        let c: GradientColour = match GradientColour::try_parse(stream) {
            Ok(c) => c,
            Err(e) => {
                proof { lemma_repeat_fails(s0, (i + 1) as nat, n as nat, item); }
                return Err(e);
            },
        };
        let ghost old_v = v@;
        v.push(c);
        proof { assert(crate::byte_stream::views(v@) =~= crate::byte_stream::views(old_v).push(c@)); }
        i = i + 1;
    }
    Ok(v)
}

/// A segment of a `Path`. Variant names are based on `SpenPath` constants; they correspond to
/// methods of `android.graphics.Path`.
#[derive(Debug, Clone, Copy, PartialEq, Eq, Structural)]
pub enum PathSegment {
    /// `TYPE_MOVETO`; 1
    MoveTo(Point),
    /// `TYPE_LINETO`; 2
    LineTo(Point),
    /// `TYPE_QUADTO`; 3
    QuadTo { cp1: Point, p2: Point },
    /// `TYPE_CUBICTO`; 4
    CubicTo { cp1: Point, cp2: Point, p3: Point },
    /// `TYPE_ARCTO`; 5
    ArcTo { oval: Rect, start_angle: RawF64, sweep_angle: RawF64 },
    /// `TYPE_CLOSE`; 6
    Close,
    /// `TYPE_ADDOVAL`; 7
    AddOval(Rect),
}

/// A segment: a `u8` type (1 to 7) and the points, rectangle or angles that it takes.
pub open spec fn spec_path_segment(s: StreamModel) -> SpecRead<PathSegment> {
    match spec_u8(s) {
        Some((t, s1)) => if t == 1 {
            match spec_point(s1) {
                Some((p, s2)) => Some((PathSegment::MoveTo(p), s2)),
                None => None,
            }
        } else if t == 2 {
            match spec_point(s1) {
                Some((p, s2)) => Some((PathSegment::LineTo(p), s2)),
                None => None,
            }
        } else if t == 3 {
            match spec_point(s1) {
                Some((cp1, s2)) => match spec_point(s2) {
                    Some((p2, s3)) => Some((PathSegment::QuadTo { cp1, p2 }, s3)),
                    None => None,
                },
                None => None,
            }
        } else if t == 4 {
            match spec_point(s1) {
                Some((cp1, s2)) => match spec_point(s2) {
                    Some((cp2, s3)) => match spec_point(s3) {
                        Some((p3, s4)) => Some((PathSegment::CubicTo { cp1, cp2, p3 }, s4)),
                        None => None,
                    },
                    None => None,
                },
                None => None,
            }
        } else if t == 5 {
            match spec_rect(s1) {
                Some((oval, s2)) => match spec_f64(s2) {
                    Some((start_angle, s3)) => match spec_f64(s3) {
                        Some((sweep_angle, s4)) => Some((PathSegment::ArcTo { oval, start_angle, sweep_angle }, s4)),
                        None => None,
                    },
                    None => None,
                },
                None => None,
            }
        } else if t == 6 {
            Some((PathSegment::Close, s1))
        } else if t == 7 {
            match spec_rect(s1) {
                Some((r, s2)) => Some((PathSegment::AddOval(r), s2)),
                None => None,
            }
        } else {
            None
        },
        None => None,
    }
}

pub open spec fn path_segment_item() -> spec_fn(StreamModel) -> SpecRead<PathSegment> {
    |t: StreamModel| spec_path_segment(t)
}

/// Failure to read a path.
#[derive(Debug, Clone, Copy, PartialEq, Eq, Structural)]
pub enum PathParseError {
    Io(IoError),
    /// The segment count does not fit in `usize`.
    TooManySegments(u32),
    /// A segment has an unknown type.
    BadSegmentType(u8),
}

/// A path made of segments.
#[derive(Debug)]
pub struct Path {
    segments: Vec<PathSegment>,
}

impl View for Path {
    type V = Seq<PathSegment>;

    closed spec fn view(&self) -> Seq<PathSegment> {
        self.segments@
    }
}

/// A `u32` count of segments, then the segments.
pub open spec fn spec_path(s: StreamModel) -> SpecRead<Seq<PathSegment>> {
    match spec_u32(s) {
        Some((n, s1)) => spec_repeat(s1, n as nat, path_segment_item()),
        None => None,
    }
}

fn read_path_segment(stream: &mut ByteStream) -> (r: Result<PathSegment, PathParseError>)
    ensures
        match spec_path_segment(old(stream)@) {
            Some((m, s2)) => r == Ok::<PathSegment, PathParseError>(m) && final(stream)@ == s2,
            None => r is Err,
        },
        final(stream)@.same_frame(old(stream)@),
{
    let t: u8 = match stream.read_u8() {
        Ok(v) => v,
        Err(e) => return Err(PathParseError::Io(e)),
    };
    let seg: Result<PathSegment, IoError> = match t {
        1 => match Point::try_parse_f64(stream) {
            Ok(p) => Ok(PathSegment::MoveTo(p)),
            Err(e) => Err(e),
        },
        2 => match Point::try_parse_f64(stream) {
            Ok(p) => Ok(PathSegment::LineTo(p)),
            Err(e) => Err(e),
        },
        3 => {
            let cp1: Point = match Point::try_parse_f64(stream) {
                Ok(p) => p,
                Err(e) => return Err(PathParseError::Io(e)),
            };
            match Point::try_parse_f64(stream) {
                Ok(p2) => Ok(PathSegment::QuadTo { cp1, p2 }),
                Err(e) => Err(e),
            }
        },
        4 => {
            let cp1: Point = match Point::try_parse_f64(stream) {
                Ok(p) => p,
                Err(e) => return Err(PathParseError::Io(e)),
            };
            let cp2: Point = match Point::try_parse_f64(stream) {
                Ok(p) => p,
                Err(e) => return Err(PathParseError::Io(e)),
            };
            match Point::try_parse_f64(stream) {
                Ok(p3) => Ok(PathSegment::CubicTo { cp1, cp2, p3 }),
                Err(e) => Err(e),
            }
        },
        5 => {
            let oval: Rect = match Rect::try_parse_f64(stream) {
                Ok(r) => r,
                Err(e) => return Err(PathParseError::Io(e)),
            };
            let start_angle: RawF64 = match stream.read_f64_le() {
                Ok(v) => v,
                Err(e) => return Err(PathParseError::Io(e)),
            };
            match stream.read_f64_le() {
                Ok(sweep_angle) => Ok(PathSegment::ArcTo { oval, start_angle, sweep_angle }),
                Err(e) => Err(e),
            }
        },
        6 => Ok(PathSegment::Close),
        7 => match Rect::try_parse_f64(stream) {
            Ok(r) => Ok(PathSegment::AddOval(r)),
            Err(e) => Err(e),
        },
        bad => return Err(PathParseError::BadSegmentType(bad)),
    };
    match seg {
        Ok(s) => Ok(s),
        Err(e) => Err(PathParseError::Io(e)),
    }
}

impl Path {
    pub fn try_parse(stream: &mut ByteStream) -> (r: Result<Path, PathParseError>)
        ensures
            match spec_path(old(stream)@) {
                Some((m, s2)) => r matches Ok(v) && v@ == m && final(stream)@ == s2,
                None => r is Err,
            },
            final(stream)@.same_frame(old(stream)@),
    {
        let n: u32 = match stream.read_u32_le() {
            Ok(v) => v,
            Err(e) => return Err(PathParseError::Io(e)),
        };
        let ghost s0 = stream@;
        let ghost item = path_segment_item();
        let mut segments: Vec<PathSegment> = Vec::new();
        let mut i: u32 = 0;
        while i < n
            invariant
                i <= n,
                item == path_segment_item(),
                stream@.same_frame(s0),
                s0.same_frame(old(stream)@),
                spec_u32(old(stream)@) == Some((n, s0)),
                spec_repeat(s0, i as nat, item) == Some((segments@, stream@)),
            decreases n - i,
        {
            let ghost before = stream@;
            proof { assert(item(before) == spec_path_segment(before)); }
            let seg: PathSegment = match read_path_segment(stream) {
                Ok(v) => v,
                Err(e) => {
                    proof { lemma_repeat_fails(s0, (i + 1) as nat, n as nat, item); }
                    return Err(e);
                },
            };
            segments.push(seg);
            i = i + 1;
        }
        Ok(Path { segments })
    }

    pub fn segments(&self) -> (r: &[PathSegment])
        ensures
            r@ == self@,
    {
        self.segments.as_slice()
    }
}

} // verus!
