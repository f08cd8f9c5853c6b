//! Line (connector) objects.
use vstd::prelude::*;

use crate::bits::{bit_is_set, CheckedBitfield};
use crate::byte_stream::{
    lemma_repeat_fails, opt_view, spec_continue, spec_f32, spec_opt, spec_opt_or, spec_repeat,
    spec_short_u16_string, spec_str_opt, spec_take, spec_then, spec_u16, spec_u32, spec_u8, views,
    ByteStream, ExactSizedStream, IoError, RawF32, ReadStringError, SpecRead, StreamModel,
    TryParse, UnfinishedParsingError,
};
use crate::page::object::base::{spec_flex, spec_object_base, ObjectBase, ObjectBaseModel, ObjectBaseParseError};
use crate::page::object::header::{spec_object_header, ObjectHeader, ObjectHeaderError};
use crate::byte_stream::spec_u8_counted;
use crate::page::object::shape_base::{point_item, spec_shape_base, ShapeBase, ShapeBaseModel, ShapeBaseParseError};
use crate::page::object::shared::{spec_path, spec_point, spec_rect, Path, PathParseError, PathSegment, Point, Rect};

verus! {

/// Which end of a connector a line is.
#[derive(Debug, Clone, Copy, PartialEq, Eq, Structural)]
pub enum ConnectorType {
    /// `CONNECTOR_BEGIN`
    Begin,
    /// `CONNECTOR_END`
    End,
}

/// The value is not that of a `ConnectorType`.
#[derive(Debug, Clone, Copy, PartialEq, Eq, Structural)]
pub struct InvalidConnectorTypeError {
    pub bad_value: u8,
}

/// The `ConnectorType` that `v` stands for: 0 to 1 in declaration order.
pub open spec fn spec_connector_type(v: u8) -> Option<ConnectorType> {
    if v == 0 {
        Some(ConnectorType::Begin)
    } else if v == 1 {
        Some(ConnectorType::End)
    } else {
        None
    }
}

impl ConnectorType {
    pub fn try_from_u8(v: u8) -> (r: Result<ConnectorType, InvalidConnectorTypeError>)
        ensures
            match spec_connector_type(v) {
                Some(x) => r == Ok::<ConnectorType, InvalidConnectorTypeError>(x),
                None => r == Err::<ConnectorType, InvalidConnectorTypeError>(InvalidConnectorTypeError { bad_value: v }),
            },
    {
        match v {
            0 => Ok(ConnectorType::Begin),
            1 => Ok(ConnectorType::End),
            _ => Err(InvalidConnectorTypeError { bad_value: v }),
        }
    }
}


/// Failure to read a line.
#[derive(Debug, Clone, Copy, PartialEq, Eq, Structural)]
pub enum LineParseError {
    Io(IoError),
    Base(ShapeBaseParseError),
    Header(ObjectHeaderError),
    ConnectorType(InvalidConnectorTypeError),
    Path(PathParseError),
    Unfinished(UnfinishedParsingError),
}

fn read_line_point(r: &mut ByteStream) -> (res: Result<Point, LineParseError>)
    ensures
        match spec_point(old(r)@) {
            Some((m, s2)) => res == Ok::<Point, LineParseError>(m) && final(r)@ == s2,
            None => res is Err,
        },
        final(r)@.same_frame(old(r)@),
{
    match Point::try_parse_f64(r) {
        Ok(v) => Ok(v),
        Err(e) => Err(LineParseError::Io(e)),
    }
}

/// Reads `n` items.
fn read_line_control_points_n(r: &mut ByteStream, n: u8) -> (res: Result<Vec<Point>, LineParseError>)
    ensures
        match spec_repeat(old(r)@, n as nat, point_item()) {
            Some((vs, s2)) => res matches Ok(v) && v@ == vs && final(r)@ == s2,
            None => res is Err,
        },
        final(r)@.same_frame(old(r)@),
{
    let ghost s0 = r@;
    let ghost item = point_item();
    let mut items: Vec<Point> = Vec::new();
    let mut i: u8 = 0;
    while i < n
        invariant
            i <= n,
            item == point_item(),
            s0 == old(r)@,
            r@.same_frame(s0),
            spec_repeat(s0, i as nat, item) matches Some((vs, st)) && items@ == vs && r@ == st,
        decreases n - i,
    {
        let ghost before = r@;
        proof { assert(item(before) == point_item()(before)); }
        let x: Point = match read_line_point(r) {
            Ok(x) => x,
            Err(e) => {
                proof { lemma_repeat_fails(s0, (i + 1) as nat, n as nat, item); }
                return Err(e);
            },
        };
        items.push(x);
        i = i + 1;
    }
    Ok(items)
}

/// A `u8` count, then that many items.
fn read_line_control_points(r: &mut ByteStream) -> (res: Result<Vec<Point>, LineParseError>)
    ensures
        match spec_u8_counted(old(r)@, point_item()) {
            Some((vs, s2)) => res matches Ok(v) && v@ == vs && final(r)@ == s2,
            None => res is Err,
        },
        final(r)@.same_frame(old(r)@),
{
    let n: u8 = match r.read_u8() {
        Ok(v) => v,
        Err(e) => return Err(LineParseError::Io(e)),
    };
    read_line_control_points_n(r, n)
}


/// The fixed fields of a `Line`.
#[verifier::opaque]
pub open spec fn spec_line_fixed(s: StreamModel) -> SpecRead<(ConnectorType, u8, Seq<Point>, Point, Point, Rect, Rect, RawF32)> {
    match spec_then(spec_u8(s), |v: u8| spec_connector_type(v)) {
        Some((connector_type, s1)) => 
        match spec_u8(s1) {
            Some((start_direction, s2)) => 
            match spec_u8_counted(s2, point_item()) {
                Some((control_points, s3)) => 
                match spec_point(s3) {
                    Some((start_point, s4)) => 
                    match spec_point(s4) {
                        Some((end_point, s5)) => 
                        match spec_rect(s5) {
                            Some((original_drawn_rect, s6)) => 
                            match spec_rect(s6) {
                                Some((original_rect, s7)) => 
                                match spec_f32(s7) {
                                    Some((original_angle, s8)) => Some(((connector_type, start_direction, control_points, start_point, end_point, original_drawn_rect, original_rect, original_angle), s8)),
                                    None => None,
                                },
                                None => None,
                            },
                            None => None,
                        },
                        None => None,
                    },
                    None => None,
                },
                None => None,
            },
            None => None,
        },
        None => None,
    }
}

fn read_line_fixed(r: &mut ByteStream) -> (res: Result<(ConnectorType, u8, Vec<Point>, Point, Point, Rect, Rect, RawF32), LineParseError>)
    ensures
        match spec_line_fixed(old(r)@) {
            Some((m, s2)) => res matches Ok(v) && v.0 == m.0
                && v.1 == m.1
                && v.2@ == m.2
                && v.3 == m.3
                && v.4 == m.4
                && v.5 == m.5
                && v.6 == m.6
                && v.7 == m.7
                && final(r)@ == s2,
            None => res is Err,
        },
        final(r)@.same_frame(old(r)@),
{
    reveal(spec_line_fixed);
    let connector_type: ConnectorType = {
            let raw = match r.read_u8() {
            Ok(v) => v,
            Err(e) => return Err(LineParseError::Io(e)),
        };
            match ConnectorType::try_from_u8(raw) {
                Ok(v) => v,
                Err(e) => return Err(LineParseError::ConnectorType(e)),
            }
        };
    let start_direction: u8 = match r.read_u8() {
            Ok(v) => v,
            Err(e) => return Err(LineParseError::Io(e)),
        };
    let control_points: Vec<Point> = match read_line_control_points(r) {
            Ok(v) => v,
            Err(e) => return Err(e),
        };
    let start_point: Point = match Point::try_parse_f64(r) {
            Ok(v) => v,
            Err(e) => return Err(LineParseError::Io(e)),
        };
    let end_point: Point = match Point::try_parse_f64(r) {
            Ok(v) => v,
            Err(e) => return Err(LineParseError::Io(e)),
        };
    let original_drawn_rect: Rect = match Rect::try_parse_f64(r) {
            Ok(v) => v,
            Err(e) => return Err(LineParseError::Io(e)),
        };
    let original_rect: Rect = match Rect::try_parse_f64(r) {
            Ok(v) => v,
            Err(e) => return Err(LineParseError::Io(e)),
        };
    let original_angle: RawF32 = match r.read_f32_le() {
            Ok(v) => v,
            Err(e) => return Err(LineParseError::Io(e)),
        };
    Ok((connector_type, start_direction, control_points, start_point, end_point, original_drawn_rect, original_rect, original_angle))
}

fn read_line_opt0_default_pen_name_id(r: &mut ByteStream, present: bool) -> (res: Result<Option<u32>, LineParseError>)
    ensures
        match spec_opt(present, spec_u32(old(r)@), old(r)@) {
            Some((m, s2)) => res matches Ok(v) && v == m && final(r)@ == s2,
            None => res is Err,
        },
        final(r)@.same_frame(old(r)@),
{
    if present {
        Ok(Some(match r.read_u32_le() {
            Ok(v) => v,
            Err(e) => return Err(LineParseError::Io(e)),
        }))
    } else {
        Ok(None)
    }
}

fn read_line_opt0_pen_style_id(r: &mut ByteStream, present: bool) -> (res: Result<Option<u32>, LineParseError>)
    ensures
        match spec_opt(present, spec_u32(old(r)@), old(r)@) {
            Some((m, s2)) => res matches Ok(v) && v == m && final(r)@ == s2,
            None => res is Err,
        },
        final(r)@.same_frame(old(r)@),
{
    if present {
        Ok(Some(match r.read_u32_le() {
            Ok(v) => v,
            Err(e) => return Err(LineParseError::Io(e)),
        }))
    } else {
        Ok(None)
    }
}

fn read_line_opt0_pen_name_id(r: &mut ByteStream, present: bool) -> (res: Result<Option<u32>, LineParseError>)
    ensures
        match spec_opt(present, spec_u32(old(r)@), old(r)@) {
            Some((m, s2)) => res matches Ok(v) && v == m && final(r)@ == s2,
            None => res is Err,
        },
        final(r)@.same_frame(old(r)@),
{
    if present {
        Ok(Some(match r.read_u32_le() {
            Ok(v) => v,
            Err(e) => return Err(LineParseError::Io(e)),
        }))
    } else {
        Ok(None)
    }
}

fn read_line_opt0_path(r: &mut ByteStream, present: bool) -> (res: Result<Option<Path>, LineParseError>)
    ensures
        match spec_opt(present, spec_path(old(r)@), old(r)@) {
            Some((m, s2)) => res matches Ok(v) && opt_view(v) == m && final(r)@ == s2,
            None => res is Err,
        },
        final(r)@.same_frame(old(r)@),
{
    if present {
        Ok(Some(match Path::try_parse(r) {
            Ok(v) => v,
            Err(e) => return Err(LineParseError::Path(e)),
        }))
    } else {
        Ok(None)
    }
}

/// Fields of a `Line` after its flex offset.
#[verifier::opaque]
pub open spec fn spec_line_opt0(s: StreamModel, fb: u32) -> SpecRead<(Option<u32>, Option<u32>, Option<u32>, Option<Seq<PathSegment>>)> {
    match spec_opt(bit_is_set(fb, 0), spec_u32(s), s) {
        Some((default_pen_name_id, s1)) => 
        match spec_opt(bit_is_set(fb, 1), spec_u32(s1), s1) {
            Some((pen_style_id, s2)) => 
            match spec_opt(bit_is_set(fb, 2), spec_u32(s2), s2) {
                Some((pen_name_id, s3)) => 
                match spec_opt(bit_is_set(fb, 3), spec_path(s3), s3) {
                    Some((path, s4)) => Some(((default_pen_name_id, pen_style_id, pen_name_id, path), s4)),
                    None => None,
                },
                None => None,
            },
            None => None,
        },
        None => None,
    }
}

#[verifier::rlimit(30)]
fn read_line_opt0(r: &mut ByteStream, flags: &mut CheckedBitfield) -> (res: Result<(Option<u32>, Option<u32>, Option<u32>, Option<Path>), LineParseError>)
    ensures
        match spec_line_opt0(old(r)@, old(flags).bits()) {
            Some((m, s2)) => res matches Ok(v) && v.0 == m.0
                && v.1 == m.1
                && v.2 == m.2
                && opt_view(v.3) == m.3
                && final(flags).bits() == old(flags).bits()
                && final(flags).checked() == old(flags).checked() | 0xf
                && final(r)@ == s2,
            None => res is Err,
        },
        final(r)@.same_frame(old(r)@),
{
    reveal(spec_line_opt0);
    let ghost c0 = flags.checked();
    let present_default_pen_name_id: bool = flags.check_bit(0);
    let ghost c1 = flags.checked();
    let default_pen_name_id: Option<u32> = read_line_opt0_default_pen_name_id(r, present_default_pen_name_id)?;
    let present_pen_style_id: bool = flags.check_bit(1);
    let ghost c2 = flags.checked();
    let pen_style_id: Option<u32> = read_line_opt0_pen_style_id(r, present_pen_style_id)?;
    let present_pen_name_id: bool = flags.check_bit(2);
    let ghost c3 = flags.checked();
    let pen_name_id: Option<u32> = read_line_opt0_pen_name_id(r, present_pen_name_id)?;
    let present_path: bool = flags.check_bit(3);
    let ghost c4 = flags.checked();
    let path: Option<Path> = read_line_opt0_path(r, present_path)?;
    proof {
        crate::bits::lemma_or_assoc(c0, crate::bits::bit_mask(0u8), crate::bits::bit_mask(1u8));
        crate::bits::lemma_or_assoc(c0, crate::bits::bit_mask(0u8) | crate::bits::bit_mask(1u8), crate::bits::bit_mask(2u8));
        crate::bits::lemma_or_assoc(c0, crate::bits::bit_mask(0u8) | crate::bits::bit_mask(1u8) | crate::bits::bit_mask(2u8), crate::bits::bit_mask(3u8));
        crate::bits::lemma_chunk_masks();
        assert(c4 == c0 | 0xfu32);
    }
    Ok((default_pen_name_id, pen_style_id, pen_name_id, path))
}

/// A line between shapes.
#[derive(Debug)]
pub struct Line {
    pub shape_base: ShapeBase,
    pub connector_type: ConnectorType,
    pub start_direction: u8,
    pub control_points: Vec<Point>,
    pub start_point: Point,
    pub end_point: Point,
    pub original_drawn_rect: Rect,
    pub original_rect: Rect,
    pub original_angle: RawF32,
    pub default_pen_name_id: Option<u32>,
    pub pen_style_id: Option<u32>,
    pub pen_name_id: Option<u32>,
    pub path: Option<Path>,
}

pub struct LineModel {
    pub shape_base: ShapeBaseModel,
    pub connector_type: ConnectorType,
    pub start_direction: u8,
    pub control_points: Seq<Point>,
    pub start_point: Point,
    pub end_point: Point,
    pub original_drawn_rect: Rect,
    pub original_rect: Rect,
    pub original_angle: RawF32,
    pub default_pen_name_id: Option<u32>,
    pub pen_style_id: Option<u32>,
    pub pen_name_id: Option<u32>,
    pub path: Option<Seq<PathSegment>>,
}

impl View for Line {
    type V = LineModel;

    open spec fn view(&self) -> LineModel {
        LineModel {
            shape_base: self.shape_base@,
            connector_type: self.connector_type,
            start_direction: self.start_direction,
            control_points: self.control_points@,
            start_point: self.start_point,
            end_point: self.end_point,
            original_drawn_rect: self.original_drawn_rect,
            original_rect: self.original_rect,
            original_angle: self.original_angle,
            default_pen_name_id: self.default_pen_name_id,
            pen_style_id: self.pen_style_id,
            pen_name_id: self.pen_name_id,
            path: opt_view(self.path),
        }
    }
}

/// A `Line`: its base, then an object block of data type 8.
#[verifier::opaque]
#[verifier::opaque]
pub open spec fn spec_line(s: StreamModel) -> SpecRead<LineModel> {
    match spec_shape_base(s) {
        Some((base, s1)) => match spec_object_header(s1, 8) {
            Some((fb, w, s2)) => match spec_line_fixed(w) {
                Some((x, wx)) => match spec_flex(wx, fb) {
                    Some((wf, ff)) => match spec_line_opt0(wf, ff) {
                        Some((o0, w0)) => if fb.property_bits & !0x0u32 == 0 && ff & !0xfu32 == 0 && w0.remaining() == 0 {
                            Some((LineModel {
                                shape_base: base,
                                connector_type: x.0,
                                start_direction: x.1,
                                control_points: x.2,
                                start_point: x.3,
                                end_point: x.4,
                                original_drawn_rect: x.5,
                                original_rect: x.6,
                                original_angle: x.7,
                                default_pen_name_id: o0.0,
                                pen_style_id: o0.1,
                                pen_name_id: o0.2,
                                path: o0.3,
                            }, spec_continue(s2, w0)))
                        } else {
                            None
                        },
                        None => None,
                    },
                    None => None,
                },
                None => None,
            },
            None => None,
        },
        None => None,
    }
}

impl<'a> TryParse<ByteStream<'a>> for Line {
    type ParseError = LineParseError;

    fn try_parse(stream: &mut ByteStream<'a>) -> (r: Result<Line, LineParseError>)
        ensures
            match spec_line(old(stream)@) {
                Some((m, s2)) => r matches Ok(v) && v@ == m && final(stream)@ == s2,
                None => r is Err,
            },
            final(stream)@.same_frame(old(stream)@),
    {
        proof {
            reveal(spec_line);
        }
        reveal(spec_line);
        let shape_base: ShapeBase = match ShapeBase::try_parse(stream) {
            Ok(v) => v,
            Err(e) => return Err(LineParseError::Base(e)),
        };
        let (mut header, mut w) = match ObjectHeader::try_parse(stream, 8) {
            Ok(v) => v,
            Err(e) => return Err(LineParseError::Header(e)),
        };
        let x = read_line_fixed(&mut w)?;
        let ff: &mut CheckedBitfield = match header.init_flex(&mut w) {
            Ok(f) => f,
            Err(e) => return Err(LineParseError::Io(e)),
        };
        let o0 = read_line_opt0(&mut w, ff)?;
        proof {
            let fc = header.0.field_flags().checked();
            assert(fc == 0xfu32) by (bit_vector)
                requires
                    fc == (0u32 | 0xfu32),
            ;
            let pc = header.0.property_flags().checked();
            assert(pc == 0x0u32) by (bit_vector)
                requires
                    pc == 0u32,
            ;
        }
        if let Err(e) = header.ensure_flags_used() {
            return Err(LineParseError::Header(e));
        }
        if let Err(e) = w.ensure_eof() {
            return Err(LineParseError::Unfinished(e));
        }
        proof { use_type_invariant(&*stream); use_type_invariant(&w); }
        stream.continue_after(&w);
        Ok(Line {
            shape_base,
            connector_type: x.0,
            start_direction: x.1,
            control_points: x.2,
            start_point: x.3,
            end_point: x.4,
            original_drawn_rect: x.5,
            original_rect: x.6,
            original_angle: x.7,
            default_pen_name_id: o0.0,
            pen_style_id: o0.1,
            pen_name_id: o0.2,
            path: o0.3,
        })
    }
}


impl Line {
    pub fn object_base(&self) -> (r: &ObjectBase)
        ensures
            r@ == self@.shape_base.object_base,
    {
        self.shape_base.object_base()
    }
}

} // verus!
