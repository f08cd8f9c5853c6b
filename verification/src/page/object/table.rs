//! Tables: a shape holding rows of cells, each cell holding text.
use vstd::prelude::*;

use crate::bits::{bit_is_set, CheckedBitfield};
use crate::byte_stream::{
    lemma_repeat_fails, opt_view, spec_continue, spec_exclusive_window, spec_f32, spec_opt,
    spec_opt_or, spec_repeat, spec_then, spec_u32, spec_u32_counted, spec_u8, views, ByteStream,
    ExactSizedStream, IoError, RawF32, SpecRead, StreamModel, TryParse, UnfinishedParsingError,
};
use crate::context::{DocumentContext, TryParseWithContext};
use crate::page::object::base::{spec_flex, ObjectBase};
use crate::page::object::header::{
    spec_flag_block, spec_object_header, FlagBlock, FlagBlockError, ObjectHeader, ObjectHeaderError,
};
use crate::page::object::shape::{
    shape_model, spec_shape, spec_text_auto_fit_type, InvalidTextAutoFitTypeError, Shape,
    ShapeModel, ShapeParseContext, ShapeParseError, TextAutoFitType,
};
use crate::page::object::shared::{spec_rect, Rect};
use crate::page::object::text::{spec_text, text_model, Text, TextModel, TextParseError};
use crate::page::object::NESTING_LIMIT;

verus! {

/// The style of one side of a border.
#[derive(Debug, Clone, Copy, PartialEq, Eq, Structural)]
pub struct SingleBorderStyle {
    pub colour: u32,
    pub width: RawF32,
    pub start_radius: RawF32,
    pub end_radius: RawF32,
}

/// A side of a border: a `u32` colour and three `f32`s (width, start and end radius).
pub open spec fn spec_single_border(s: StreamModel) -> SpecRead<SingleBorderStyle> {
    match spec_u32(s) {
        Some((colour, s1)) => match spec_f32(s1) {
            Some((width, s2)) => match spec_f32(s2) {
                Some((start_radius, s3)) => match spec_f32(s3) {
                    Some((end_radius, s4)) => Some((SingleBorderStyle { colour, width, start_radius, end_radius }, s4)),
                    None => None,
                },
                None => None,
            },
            None => None,
        },
        None => None,
    }
}

impl<'a> TryParse<ByteStream<'a>> for SingleBorderStyle {
    type ParseError = IoError;

    fn try_parse(stream: &mut ByteStream<'a>) -> (r: Result<SingleBorderStyle, IoError>)
        ensures
            match spec_single_border(old(stream)@) {
                Some((m, s2)) => r == Ok::<SingleBorderStyle, IoError>(m) && final(stream)@ == s2,
                None => r is Err,
            },
            final(stream)@.same_frame(old(stream)@),
    {
        let colour: u32 = stream.read_u32_le()?;
        let width: RawF32 = stream.read_f32_le()?;
        let start_radius: RawF32 = stream.read_f32_le()?;
        let end_radius: RawF32 = stream.read_f32_le()?;
        Ok(SingleBorderStyle { colour, width, start_radius, end_radius })
    }
}

/// Failure to read a border.
#[derive(Debug, Clone, Copy, PartialEq, Eq, Structural)]
pub enum FullBorderStyleParseError {
    Io(IoError),
    FlagBlock(FlagBlockError),
    Unfinished(UnfinishedParsingError),
    /// A side of the border could not be read.
    SingleBorderStyle(IoError),
}

/// The four sides of a border.
#[derive(Debug, Clone, Copy, PartialEq, Eq, Structural)]
pub struct FullBorderStyle {
    pub left: SingleBorderStyle,
    pub top: SingleBorderStyle,
    pub right: SingleBorderStyle,
    pub bottom: SingleBorderStyle,
}

/// A border: a `u32` size and a window of that many bytes, holding a flag block with no flag
/// set, then the left, top, right and bottom sides, and nothing more.
pub open spec fn spec_full_border(s: StreamModel) -> SpecRead<FullBorderStyle> {
    match spec_exclusive_window(s) {
        Some((w, s1)) => match spec_flag_block(w) {
            Some((fb, w1)) => if fb.property_bits != 0 || fb.field_bits != 0 {
                None
            } else {
                match spec_single_border(w1) {
                    Some((left, w2)) => match spec_single_border(w2) {
                        Some((top, w3)) => match spec_single_border(w3) {
                            Some((right, w4)) => match spec_single_border(w4) {
                                Some((bottom, w5)) => if w5.remaining() == 0 {
                                    Some((FullBorderStyle { left, top, right, bottom }, spec_continue(s1, w5)))
                                } else {
                                    None
                                },
                                None => None,
                            },
                            None => None,
                        },
                        None => None,
                    },
                    None => None,
                }
            },
            None => None,
        },
        None => None,
    }
}

fn read_side(w: &mut ByteStream) -> (r: Result<SingleBorderStyle, FullBorderStyleParseError>)
    ensures
        match spec_single_border(old(w)@) {
            Some((m, s2)) => r == Ok::<SingleBorderStyle, FullBorderStyleParseError>(m) && final(w)@ == s2,
            None => r is Err,
        },
        final(w)@.same_frame(old(w)@),
{
    match SingleBorderStyle::try_parse(w) {
        Ok(v) => Ok(v),
        Err(e) => Err(FullBorderStyleParseError::SingleBorderStyle(e)),
    }
}

impl<'a> TryParse<ByteStream<'a>> for FullBorderStyle {
    type ParseError = FullBorderStyleParseError;

    fn try_parse(stream: &mut ByteStream<'a>) -> (r: Result<FullBorderStyle, FullBorderStyleParseError>)
        ensures
            match spec_full_border(old(stream)@) {
                Some((m, s2)) => r == Ok::<FullBorderStyle, FullBorderStyleParseError>(m) && final(stream)@ == s2,
                None => r is Err,
            },
            final(stream)@.same_frame(old(stream)@),
    {
        let mut w: ByteStream = match stream.exclusive_blind_window() {
            Ok(w) => w,
            Err(e) => return Err(FullBorderStyleParseError::Io(e)),
        };
        let fb: FlagBlock = match FlagBlock::try_parse(&mut w) {
            Ok(v) => v,
            Err(e) => return Err(FullBorderStyleParseError::FlagBlock(e)),
        };
        proof {
            crate::bits::lemma_and_not_zero(fb.property_flags().bits());
            crate::bits::lemma_and_not_zero(fb.field_flags().bits());
        }
        if let Err(e) = fb.ensure_flags_used() {
            return Err(FullBorderStyleParseError::FlagBlock(e));
        }
        let left = read_side(&mut w)?;
        let top = read_side(&mut w)?;
        let right = read_side(&mut w)?;
        let bottom = read_side(&mut w)?;
        if let Err(e) = w.ensure_eof() {
            return Err(FullBorderStyleParseError::Unfinished(e));
        }
        proof { use_type_invariant(&*stream); use_type_invariant(&w); }
        stream.continue_after(&w);
        Ok(FullBorderStyle { left, top, right, bottom })
    }
}

/// Failure to read a cell.
#[derive(Debug)]
pub enum CellParseError {
    Io(IoError),
    FlagBlock(FlagBlockError),
    CellBorder(FullBorderStyleParseError),
    Content(TextParseError),
    /// The cell's text did not use all of its bytes.
    ContentUnfinished(UnfinishedParsingError),
    /// The cell did not use all of its bytes.
    CellUnfinished(UnfinishedParsingError),
    /// The cell's text lies deeper than objects may be nested.
    NestingTooDeep,
}

/// A cell of a table.
#[derive(Debug)]
pub struct Cell {
    pub column_index: u32,
    pub row_span: u32,
    pub column_span: u32,
    pub background_colour: Option<u32>,
    pub rect: Rect,
    pub is_editable: bool,
    pub text: Text,
    pub border: Option<FullBorderStyle>,
}

pub struct CellModel {
    pub column_index: u32,
    pub row_span: u32,
    pub column_span: u32,
    pub background_colour: Option<u32>,
    pub rect: Rect,
    pub is_editable: bool,
    pub text: TextModel,
    pub border: Option<FullBorderStyle>,
}

/// The model of a cell in a table whose objects are nested at most `depth` levels; the cell's
/// text is one level deeper than the table.
#[verifier::opaque]
pub open spec fn cell_model(c: &Cell, depth: nat) -> CellModel
    decreases depth, 3nat, 0nat,
{
    CellModel {
        column_index: c.column_index,
        row_span: c.row_span,
        column_span: c.column_span,
        background_colour: c.background_colour,
        rect: c.rect,
        is_editable: c.is_editable,
        text: if depth == 0 {
            arbitrary()
        } else {
            text_model(&c.text, (depth - 1) as nat)
        },
        border: c.border,
    }
}

/// The models of the first `n` cells of `v`.
pub open spec fn cells_model(v: Seq<Cell>, depth: nat, n: nat) -> Seq<CellModel>
    decreases depth, 4nat, n,
{
    if n == 0 || n > v.len() {
        Seq::empty()
    } else {
        cells_model(v, depth, (n - 1) as nat).push(cell_model(&v[n - 1], depth))
    }
}

/// The text of a cell: a `u32` size and a window of that many bytes holding exactly a text box,
/// read one level deeper.
#[verifier::opaque]
pub open spec fn spec_cell_text(s: StreamModel, depth: nat) -> SpecRead<TextModel>
    decreases depth, 2nat, 0nat,
{
    if depth == 0 {
        None
    } else {
        match spec_exclusive_window(s) {
            Some((w, s1)) => match spec_text(w, (depth - 1) as nat) {
                Some((t, w2)) => if w2.remaining() == 0 {
                    Some((t, spec_continue(s1, w2)))
                } else {
                    None
                },
                None => None,
            },
            None => None,
        }
    }
}

/// A cell: a `u32` size and a window of that many bytes holding a flag block (property bit 0
/// says whether the background colour is set), the column index, row span and column span, the
/// background colour (`u32`s), the rectangle, a `u8` that is not zero when the cell can be
/// edited, the text, then, at the flex offset, the border (field bit 0), with every flag handled
/// and every byte used.
#[verifier::opaque]
pub open spec fn spec_cell(s: StreamModel, depth: nat) -> SpecRead<CellModel>
    decreases depth, 3nat, 0nat,
{
    match spec_exclusive_window(s) {
        Some((w, s1)) => match spec_flag_block(w) {
            Some((fb, w1)) => match spec_u32(w1) {
                Some((column_index, w2)) => match spec_u32(w2) {
                    Some((row_span, w3)) => match spec_u32(w3) {
                        Some((column_span, w4)) => match spec_u32(w4) {
                            Some((colour, w5)) => match spec_rect(w5) {
                                Some((rect, w6)) => match spec_u8(w6) {
                                    Some((editable, w7)) => match spec_cell_text(w7, depth) {
                                        Some((text, w8)) => match spec_flex(w8, fb) {
                                            Some((wf, ff)) => match spec_opt(bit_is_set(ff, 0), spec_full_border(wf), wf) {
                                                Some((border, w9)) => if fb.property_bits & !1u32 == 0 && ff & !1u32 == 0
                                                    && w9.remaining() == 0 {
                                                    Some((CellModel {
                                                        column_index,
                                                        row_span,
                                                        column_span,
                                                        background_colour: if bit_is_set(fb.property_bits, 0) { Some(colour) } else { None },
                                                        rect,
                                                        is_editable: editable != 0,
                                                        text,
                                                        border,
                                                    }, spec_continue(s1, w9)))
                                                } else {
                                                    None
                                                },
                                                None => None,
                                            },
                                            None => None,
                                        },
                                        None => None,
                                    },
                                    None => None,
                                },
                                None => None,
                            },
                            None => None,
                        },
                        None => None,
                    },
                    None => None,
                },
                None => None,
            },
            None => None,
        },
        None => None,
    }
}

/// `n` cells, one after the other.
pub open spec fn spec_cells(s: StreamModel, depth: nat, n: nat) -> SpecRead<Seq<CellModel>>
    decreases depth, 4nat, n,
{
    if n == 0 {
        Some((Seq::empty(), s))
    } else {
        match spec_cells(s, depth, (n - 1) as nat) {
            Some((vs, s2)) => match spec_cell(s2, depth) {
                Some((v, s3)) => Some((vs.push(v), s3)),
                None => None,
            },
            None => None,
        }
    }
}

fn read_cell_border(w: &mut ByteStream, present: bool) -> (r: Result<Option<FullBorderStyle>, CellParseError>)
    ensures
        match spec_opt(present, spec_full_border(old(w)@), old(w)@) {
            Some((m, s2)) => r == Ok::<Option<FullBorderStyle>, CellParseError>(m) && final(w)@ == s2,
            None => r is Err,
        },
        final(w)@.same_frame(old(w)@),
{
    if present {
        match FullBorderStyle::try_parse(w) {
            Ok(b) => Ok(Some(b)),
            Err(e) => Err(CellParseError::CellBorder(e)),
        }
    } else {
        Ok(None)
    }
}

impl Cell {
    fn read_text(w: &mut ByteStream, ctx: &DocumentContext, depth: u32) -> (r: Result<Text, CellParseError>)
        ensures
            match spec_cell_text(old(w)@, depth as nat) {
                Some((m, s2)) => r matches Ok(v) && depth > 0 && text_model(&v, (depth - 1) as nat) == m && final(w)@ == s2,
                None => r is Err,
            },
            final(w)@.same_frame(old(w)@),
        decreases depth, 2nat,
    {
        proof { reveal(spec_cell_text); }
        if depth == 0 {
            return Err(CellParseError::NestingTooDeep);
        }
        let mut tw: ByteStream = match w.exclusive_blind_window() {
            Ok(v) => v,
            Err(e) => return Err(CellParseError::Io(e)),
        };
        let text: Text = match Text::parse_nested(&mut tw, ctx, depth - 1) {
            Ok(t) => t,
            Err(e) => return Err(CellParseError::Content(e)),
        };
        if let Err(e) = tw.ensure_eof() {
            return Err(CellParseError::ContentUnfinished(e));
        }
        proof { use_type_invariant(&*w); use_type_invariant(&tw); }
        w.continue_after(&tw);
        Ok(text)
    }

    /// Reads a cell of a table whose objects may nest `depth` more levels.
    #[verifier::rlimit(60)]
    pub fn parse_nested(stream: &mut ByteStream, ctx: &DocumentContext, depth: u32) -> (r: Result<Cell, CellParseError>)
        ensures
            match spec_cell(old(stream)@, depth as nat) {
                Some((m, s2)) => r matches Ok(v) && cell_model(&v, depth as nat) == m && final(stream)@ == s2,
                None => r is Err,
            },
            final(stream)@.same_frame(old(stream)@),
        decreases depth, 3nat,
    {
        proof {
            reveal(spec_cell);
            reveal(spec_cell_text);
        }
        let mut w: ByteStream = match stream.exclusive_blind_window() {
            Ok(w) => w,
            Err(e) => return Err(CellParseError::Io(e)),
        };
        let mut fb: FlagBlock = match FlagBlock::try_parse(&mut w) {
            Ok(v) => v,
            Err(e) => return Err(CellParseError::FlagBlock(e)),
        };
        let column_index: u32 = match w.read_u32_le() {
            Ok(v) => v,
            Err(e) => return Err(CellParseError::Io(e)),
        };
        let row_span: u32 = match w.read_u32_le() {
            Ok(v) => v,
            Err(e) => return Err(CellParseError::Io(e)),
        };
        let column_span: u32 = match w.read_u32_le() {
            Ok(v) => v,
            Err(e) => return Err(CellParseError::Io(e)),
        };
        let colour: u32 = match w.read_u32_le() {
            Ok(v) => v,
            Err(e) => return Err(CellParseError::Io(e)),
        };
        let rect: Rect = match Rect::try_parse_f64(&mut w) {
            Ok(v) => v,
            Err(e) => return Err(CellParseError::Io(e)),
        };
        let editable: u8 = match w.read_u8() {
            Ok(v) => v,
            Err(e) => return Err(CellParseError::Io(e)),
        };
        let text: Text = match Cell::read_text(&mut w, ctx, depth) {
            Ok(t) => t,
            Err(e) => return Err(e),
        };
        let pf: &mut CheckedBitfield = fb.property_flags_mut();
        let has_colour: bool = pf.check_bit(0);
        let ff: &mut CheckedBitfield = match fb.init_flex(&mut w) {
            Ok(f) => f,
            Err(e) => return Err(CellParseError::Io(e)),
        };
        let has_border: bool = ff.check_bit(0);
        let border: Option<FullBorderStyle> = match read_cell_border(&mut w, has_border) {
            Ok(v) => v,
            Err(e) => return Err(e),
        };
        proof {
            let pc = fb.property_flags().checked();
            let fc = fb.field_flags().checked();
            lemma_table_masks();
            assert(pc == 1u32);
            assert(fc == 1u32);
        }
        if let Err(e) = fb.ensure_flags_used() {
            return Err(CellParseError::FlagBlock(e));
        }
        if let Err(e) = w.ensure_eof() {
            return Err(CellParseError::CellUnfinished(e));
        }
        proof {
            use_type_invariant(&*stream);
            use_type_invariant(&w);
            reveal(cell_model);
        }
        stream.continue_after(&w);
        Ok(Cell {
            column_index,
            row_span,
            column_span,
            background_colour: if has_colour { Some(colour) } else { None },
            rect,
            is_editable: editable != 0,
            text,
            border,
        })
    }
}

impl<'a, 'fr, 'sr> TryParseWithContext<ByteStream<'a>, DocumentContext<'fr, 'sr>> for Cell {
    type ParseError = CellParseError;

    fn try_parse_with_ctx(stream: &mut ByteStream<'a>, ctx: &DocumentContext<'fr, 'sr>) -> (r: Result<Cell, CellParseError>)
        ensures
            match spec_cell(old(stream)@, NESTING_LIMIT as nat) {
                Some((m, s2)) => r matches Ok(v) && cell_model(&v, NESTING_LIMIT as nat) == m && final(stream)@ == s2,
                None => r is Err,
            },
            final(stream)@.same_frame(old(stream)@),
    {
        Cell::parse_nested(stream, ctx, NESTING_LIMIT)
    }
}

fn read_table_opt1_min_column_width(r: &mut ByteStream, present: bool) -> (res: Result<RawF32, TableParseError>)
    ensures
        match spec_opt_or(present, spec_f32(old(r)@), old(r)@, RawF32 { bits: 0x4120_0000u32 }) {
            Some((m, s2)) => res matches Ok(v) && v == m && final(r)@ == s2,
            None => res is Err,
        },
        final(r)@.same_frame(old(r)@),
{
    if present {
        Ok(match r.read_f32_le() {
            Ok(v) => v,
            Err(e) => return Err(TableParseError::Io(e)),
        })
    } else {
        Ok(RawF32 { bits: 0x4120_0000u32 })
    }
}

fn read_table_opt1_min_row_height(r: &mut ByteStream, present: bool) -> (res: Result<RawF32, TableParseError>)
    ensures
        match spec_opt_or(present, spec_f32(old(r)@), old(r)@, RawF32 { bits: 0x4120_0000u32 }) {
            Some((m, s2)) => res matches Ok(v) && v == m && final(r)@ == s2,
            None => res is Err,
        },
        final(r)@.same_frame(old(r)@),
{
    if present {
        Ok(match r.read_f32_le() {
            Ok(v) => v,
            Err(e) => return Err(TableParseError::Io(e)),
        })
    } else {
        Ok(RawF32 { bits: 0x4120_0000u32 })
    }
}

fn read_table_opt1_column_widths(r: &mut ByteStream, present: bool) -> (res: Result<Vec<RawF32>, TableParseError>)
    ensures
        match spec_opt_or(present, spec_u32_counted(old(r)@, f32_item()), old(r)@, Seq::empty()) {
            Some((m, s2)) => res matches Ok(v) && v@ == m && final(r)@ == s2,
            None => res is Err,
        },
        final(r)@.same_frame(old(r)@),
{
    if present {
        Ok(match read_f32_list(r) {
            Ok(v) => v,
            Err(e) => return Err(e),
        })
    } else {
        Ok(Vec::new())
    }
}

/// The optional fields of a table for bits 0 to 2 of the field bits `fb`; the minimum width and height are 10 when absent.
#[verifier::opaque]
pub open spec fn spec_table_opt1(s: StreamModel, fb: u32) -> SpecRead<(RawF32, RawF32, Seq<RawF32>)> {
    match spec_opt_or(bit_is_set(fb, 0), spec_f32(s), s, RawF32 { bits: 0x4120_0000u32 }) {
        Some((min_column_width, s1)) => 
        match spec_opt_or(bit_is_set(fb, 1), spec_f32(s1), s1, RawF32 { bits: 0x4120_0000u32 }) {
            Some((min_row_height, s2)) => 
            match spec_opt_or(bit_is_set(fb, 2), spec_u32_counted(s2, f32_item()), s2, Seq::empty()) {
                Some((column_widths, s3)) => Some(((min_column_width, min_row_height, column_widths), s3)),
                None => None,
            },
            None => None,
        },
        None => None,
    }
}

fn read_table_opt1(r: &mut ByteStream, flags: &mut CheckedBitfield) -> (res: Result<(RawF32, RawF32, Vec<RawF32>), TableParseError>)
    ensures
        match spec_table_opt1(old(r)@, old(flags).bits()) {
            Some((m, s2)) => res matches Ok(v) && v.0 == m.0
                && v.1 == m.1
                && v.2@ == m.2
                && final(flags).bits() == old(flags).bits()
                && final(flags).checked() == old(flags).checked() | 0x7
                && final(r)@ == s2,
            None => res is Err,
        },
        final(r)@.same_frame(old(r)@),
{
    reveal(spec_table_opt1);
    let ghost c0 = flags.checked();
    let present_min_column_width: bool = flags.check_bit(0);
    let ghost c1 = flags.checked();
    let min_column_width: RawF32 = read_table_opt1_min_column_width(r, present_min_column_width)?;
    let present_min_row_height: bool = flags.check_bit(1);
    let ghost c2 = flags.checked();
    let min_row_height: RawF32 = read_table_opt1_min_row_height(r, present_min_row_height)?;
    let present_column_widths: bool = flags.check_bit(2);
    let ghost c3 = flags.checked();
    let column_widths: Vec<RawF32> = read_table_opt1_column_widths(r, present_column_widths)?;
    proof {
        crate::bits::lemma_or_assoc(c0, crate::bits::bit_mask(0u8), crate::bits::bit_mask(1u8));
        crate::bits::lemma_or_assoc(c0, crate::bits::bit_mask(0u8) | crate::bits::bit_mask(1u8), crate::bits::bit_mask(2u8));
        lemma_table_chunk_masks();
        assert(c3 == c0 | 0x7u32);
    }
    Ok((min_column_width, min_row_height, column_widths))
}

fn read_table_opt2_rect(r: &mut ByteStream, present: bool) -> (res: Result<Option<Rect>, TableParseError>)
    ensures
        match spec_opt(present, spec_rect(old(r)@), old(r)@) {
            Some((m, s2)) => res matches Ok(v) && v == m && final(r)@ == s2,
            None => res is Err,
        },
        final(r)@.same_frame(old(r)@),
{
    if present {
        Ok(Some(match Rect::try_parse_f64(r) {
            Ok(v) => v,
            Err(e) => return Err(TableParseError::Io(e)),
        }))
    } else {
        Ok(None)
    }
}

fn read_table_opt2_border(r: &mut ByteStream, present: bool) -> (res: Result<Option<FullBorderStyle>, TableParseError>)
    ensures
        match spec_opt(present, spec_full_border(old(r)@), old(r)@) {
            Some((m, s2)) => res matches Ok(v) && v == m && final(r)@ == s2,
            None => res is Err,
        },
        final(r)@.same_frame(old(r)@),
{
    if present {
        Ok(Some(match FullBorderStyle::try_parse(r) {
            Ok(v) => v,
            Err(e) => return Err(TableParseError::Border(e)),
        }))
    } else {
        Ok(None)
    }
}

fn read_table_opt2_auto_fit_type(r: &mut ByteStream, present: bool) -> (res: Result<Option<TextAutoFitType>, TableParseError>)
    ensures
        match spec_opt(present, spec_then(spec_u8(old(r)@), |v: u8| spec_text_auto_fit_type(v)), old(r)@) {
            Some((m, s2)) => res matches Ok(v) && v == m && final(r)@ == s2,
            None => res is Err,
        },
        final(r)@.same_frame(old(r)@),
{
    if present {
        Ok(Some({
            let raw = match r.read_u8() {
            Ok(v) => v,
            Err(e) => return Err(TableParseError::Io(e)),
        };
            match TextAutoFitType::try_from_u8(raw) {
                Ok(v) => v,
                Err(e) => return Err(TableParseError::BadTextAutoFitType(e)),
            }
        }))
    } else {
        Ok(None)
    }
}

fn read_table_opt2_column_min_widths(r: &mut ByteStream, present: bool) -> (res: Result<Vec<RawF32>, TableParseError>)
    ensures
        match spec_opt_or(present, spec_u32_counted(old(r)@, f32_item()), old(r)@, Seq::empty()) {
            Some((m, s2)) => res matches Ok(v) && v@ == m && final(r)@ == s2,
            None => res is Err,
        },
        final(r)@.same_frame(old(r)@),
{
    if present {
        Ok(match read_f32_list(r) {
            Ok(v) => v,
            Err(e) => return Err(e),
        })
    } else {
        Ok(Vec::new())
    }
}

fn read_table_opt2_column_max_widths(r: &mut ByteStream, present: bool) -> (res: Result<Vec<RawF32>, TableParseError>)
    ensures
        match spec_opt_or(present, spec_u32_counted(old(r)@, f32_item()), old(r)@, Seq::empty()) {
            Some((m, s2)) => res matches Ok(v) && v@ == m && final(r)@ == s2,
            None => res is Err,
        },
        final(r)@.same_frame(old(r)@),
{
    if present {
        Ok(match read_f32_list(r) {
            Ok(v) => v,
            Err(e) => return Err(e),
        })
    } else {
        Ok(Vec::new())
    }
}

fn read_table_opt2_max_height(r: &mut ByteStream, present: bool) -> (res: Result<Option<RawF32>, TableParseError>)
    ensures
        match spec_opt(present, spec_f32(old(r)@), old(r)@) {
            Some((m, s2)) => res matches Ok(v) && v == m && final(r)@ == s2,
            None => res is Err,
        },
        final(r)@.same_frame(old(r)@),
{
    if present {
        Ok(Some(match r.read_f32_le() {
            Ok(v) => v,
            Err(e) => return Err(TableParseError::Io(e)),
        }))
    } else {
        Ok(None)
    }
}

fn read_table_opt2_max_width(r: &mut ByteStream, present: bool) -> (res: Result<Option<RawF32>, TableParseError>)
    ensures
        match spec_opt(present, spec_f32(old(r)@), old(r)@) {
            Some((m, s2)) => res matches Ok(v) && v == m && final(r)@ == s2,
            None => res is Err,
        },
        final(r)@.same_frame(old(r)@),
{
    if present {
        Ok(Some(match r.read_f32_le() {
            Ok(v) => v,
            Err(e) => return Err(TableParseError::Io(e)),
        }))
    } else {
        Ok(None)
    }
}

fn read_table_opt2_default_cell_border(r: &mut ByteStream, present: bool) -> (res: Result<Option<FullBorderStyle>, TableParseError>)
    ensures
        match spec_opt(present, spec_full_border(old(r)@), old(r)@) {
            Some((m, s2)) => res matches Ok(v) && v == m && final(r)@ == s2,
            None => res is Err,
        },
        final(r)@.same_frame(old(r)@),
{
    if present {
        Ok(Some(match FullBorderStyle::try_parse(r) {
            Ok(v) => v,
            Err(e) => return Err(TableParseError::Border(e)),
        }))
    } else {
        Ok(None)
    }
}

fn read_table_opt2_heading_background_colour(r: &mut ByteStream, present: bool) -> (res: Result<Option<u32>, TableParseError>)
    ensures
        match spec_opt(present, spec_u32(old(r)@), old(r)@) {
            Some((m, s2)) => res matches Ok(v) && v == m && final(r)@ == s2,
            None => res is Err,
        },
        final(r)@.same_frame(old(r)@),
{
    if present {
        Ok(Some(match r.read_u32_le() {
            Ok(v) => v,
            Err(e) => return Err(TableParseError::Io(e)),
        }))
    } else {
        Ok(None)
    }
}

fn read_table_opt2_cell_background_colour(r: &mut ByteStream, present: bool) -> (res: Result<Option<u32>, TableParseError>)
    ensures
        match spec_opt(present, spec_u32(old(r)@), old(r)@) {
            Some((m, s2)) => res matches Ok(v) && v == m && final(r)@ == s2,
            None => res is Err,
        },
        final(r)@.same_frame(old(r)@),
{
    if present {
        Ok(Some(match r.read_u32_le() {
            Ok(v) => v,
            Err(e) => return Err(TableParseError::Io(e)),
        }))
    } else {
        Ok(None)
    }
}

/// The optional fields of a table for bits 4 to 13 of the field bits `fb`.
#[verifier::opaque]
pub open spec fn spec_table_opt2(s: StreamModel, fb: u32) -> SpecRead<(Option<Rect>, Option<FullBorderStyle>, Option<TextAutoFitType>, Seq<RawF32>, Seq<RawF32>, Option<RawF32>, Option<RawF32>, Option<FullBorderStyle>, Option<u32>, Option<u32>)> {
    match spec_opt(bit_is_set(fb, 4), spec_rect(s), s) {
        Some((rect, s1)) => 
        match spec_opt(bit_is_set(fb, 5), spec_full_border(s1), s1) {
            Some((border, s2)) => 
            match spec_opt(bit_is_set(fb, 6), spec_then(spec_u8(s2), |v: u8| spec_text_auto_fit_type(v)), s2) {
                Some((auto_fit_type, s3)) => 
                match spec_opt_or(bit_is_set(fb, 7), spec_u32_counted(s3, f32_item()), s3, Seq::empty()) {
                    Some((column_min_widths, s4)) => 
                    match spec_opt_or(bit_is_set(fb, 8), spec_u32_counted(s4, f32_item()), s4, Seq::empty()) {
                        Some((column_max_widths, s5)) => 
                        match spec_opt(bit_is_set(fb, 9), spec_f32(s5), s5) {
                            Some((max_height, s6)) => 
                            match spec_opt(bit_is_set(fb, 10), spec_f32(s6), s6) {
                                Some((max_width, s7)) => 
                                match spec_opt(bit_is_set(fb, 11), spec_full_border(s7), s7) {
                                    Some((default_cell_border, s8)) => 
                                    match spec_opt(bit_is_set(fb, 12), spec_u32(s8), s8) {
                                        Some((heading_background_colour, s9)) => 
                                        match spec_opt(bit_is_set(fb, 13), spec_u32(s9), s9) {
                                            Some((cell_background_colour, s10)) => Some(((rect, border, auto_fit_type, column_min_widths, column_max_widths, max_height, max_width, default_cell_border, heading_background_colour, cell_background_colour), s10)),
                                            None => None,
                                        },
                                        None => None,
                                    },
                                    None => None,
                                },
                                None => None,
                            },
                            None => None,
                        },
                        None => None,
                    },
                    None => None,
                },
                None => None,
            },
            None => None,
        },
        None => None,
    }
}

#[verifier::rlimit(40)]
fn read_table_opt2(r: &mut ByteStream, flags: &mut CheckedBitfield) -> (res: Result<(Option<Rect>, Option<FullBorderStyle>, Option<TextAutoFitType>, Vec<RawF32>, Vec<RawF32>, Option<RawF32>, Option<RawF32>, Option<FullBorderStyle>, Option<u32>, Option<u32>), TableParseError>)
    ensures
        match spec_table_opt2(old(r)@, old(flags).bits()) {
            Some((m, s2)) => res matches Ok(v) && v.0 == m.0
                && v.1 == m.1
                && v.2 == m.2
                && v.3@ == m.3
                && v.4@ == m.4
                && v.5 == m.5
                && v.6 == m.6
                && v.7 == m.7
                && v.8 == m.8
                && v.9 == m.9
                && final(flags).bits() == old(flags).bits()
                && final(flags).checked() == old(flags).checked() | 0x3ff0
                && final(r)@ == s2,
            None => res is Err,
        },
        final(r)@.same_frame(old(r)@),
{
    reveal(spec_table_opt2);
    let ghost c0 = flags.checked();
    let present_rect: bool = flags.check_bit(4);
    let ghost c1 = flags.checked();
    let rect: Option<Rect> = read_table_opt2_rect(r, present_rect)?;
    let present_border: bool = flags.check_bit(5);
    let ghost c2 = flags.checked();
    let border: Option<FullBorderStyle> = read_table_opt2_border(r, present_border)?;
    let present_auto_fit_type: bool = flags.check_bit(6);
    let ghost c3 = flags.checked();
    let auto_fit_type: Option<TextAutoFitType> = read_table_opt2_auto_fit_type(r, present_auto_fit_type)?;
    let present_column_min_widths: bool = flags.check_bit(7);
    let ghost c4 = flags.checked();
    let column_min_widths: Vec<RawF32> = read_table_opt2_column_min_widths(r, present_column_min_widths)?;
    let present_column_max_widths: bool = flags.check_bit(8);
    let ghost c5 = flags.checked();
    let column_max_widths: Vec<RawF32> = read_table_opt2_column_max_widths(r, present_column_max_widths)?;
    let present_max_height: bool = flags.check_bit(9);
    let ghost c6 = flags.checked();
    let max_height: Option<RawF32> = read_table_opt2_max_height(r, present_max_height)?;
    let present_max_width: bool = flags.check_bit(10);
    let ghost c7 = flags.checked();
    let max_width: Option<RawF32> = read_table_opt2_max_width(r, present_max_width)?;
    let present_default_cell_border: bool = flags.check_bit(11);
    let ghost c8 = flags.checked();
    let default_cell_border: Option<FullBorderStyle> = read_table_opt2_default_cell_border(r, present_default_cell_border)?;
    let present_heading_background_colour: bool = flags.check_bit(12);
    let ghost c9 = flags.checked();
    let heading_background_colour: Option<u32> = read_table_opt2_heading_background_colour(r, present_heading_background_colour)?;
    let present_cell_background_colour: bool = flags.check_bit(13);
    let ghost c10 = flags.checked();
    let cell_background_colour: Option<u32> = read_table_opt2_cell_background_colour(r, present_cell_background_colour)?;
    proof {
        crate::bits::lemma_or_assoc(c0, crate::bits::bit_mask(4u8), crate::bits::bit_mask(5u8));
        crate::bits::lemma_or_assoc(c0, crate::bits::bit_mask(4u8) | crate::bits::bit_mask(5u8), crate::bits::bit_mask(6u8));
        crate::bits::lemma_or_assoc(c0, crate::bits::bit_mask(4u8) | crate::bits::bit_mask(5u8) | crate::bits::bit_mask(6u8), crate::bits::bit_mask(7u8));
        crate::bits::lemma_or_assoc(c0, crate::bits::bit_mask(4u8) | crate::bits::bit_mask(5u8) | crate::bits::bit_mask(6u8) | crate::bits::bit_mask(7u8), crate::bits::bit_mask(8u8));
        crate::bits::lemma_or_assoc(c0, crate::bits::bit_mask(4u8) | crate::bits::bit_mask(5u8) | crate::bits::bit_mask(6u8) | crate::bits::bit_mask(7u8) | crate::bits::bit_mask(8u8), crate::bits::bit_mask(9u8));
        crate::bits::lemma_or_assoc(c0, crate::bits::bit_mask(4u8) | crate::bits::bit_mask(5u8) | crate::bits::bit_mask(6u8) | crate::bits::bit_mask(7u8) | crate::bits::bit_mask(8u8) | crate::bits::bit_mask(9u8), crate::bits::bit_mask(10u8));
        crate::bits::lemma_or_assoc(c0, crate::bits::bit_mask(4u8) | crate::bits::bit_mask(5u8) | crate::bits::bit_mask(6u8) | crate::bits::bit_mask(7u8) | crate::bits::bit_mask(8u8) | crate::bits::bit_mask(9u8) | crate::bits::bit_mask(10u8), crate::bits::bit_mask(11u8));
        crate::bits::lemma_or_assoc(c0, crate::bits::bit_mask(4u8) | crate::bits::bit_mask(5u8) | crate::bits::bit_mask(6u8) | crate::bits::bit_mask(7u8) | crate::bits::bit_mask(8u8) | crate::bits::bit_mask(9u8) | crate::bits::bit_mask(10u8) | crate::bits::bit_mask(11u8), crate::bits::bit_mask(12u8));
        crate::bits::lemma_or_assoc(c0, crate::bits::bit_mask(4u8) | crate::bits::bit_mask(5u8) | crate::bits::bit_mask(6u8) | crate::bits::bit_mask(7u8) | crate::bits::bit_mask(8u8) | crate::bits::bit_mask(9u8) | crate::bits::bit_mask(10u8) | crate::bits::bit_mask(11u8) | crate::bits::bit_mask(12u8), crate::bits::bit_mask(13u8));
        lemma_table_chunk_masks();
        assert(c10 == c0 | 0x3ff0u32);
    }
    Ok((rect, border, auto_fit_type, column_min_widths, column_max_widths, max_height, max_width, default_cell_border, heading_background_colour, cell_background_colour))
}

fn read_row_opt_max_height(r: &mut ByteStream, present: bool) -> (res: Result<Option<RawF32>, RowParseError>)
    ensures
        match spec_opt(present, spec_f32(old(r)@), old(r)@) {
            Some((m, s2)) => res matches Ok(v) && v == m && final(r)@ == s2,
            None => res is Err,
        },
        final(r)@.same_frame(old(r)@),
{
    if present {
        Ok(Some(match r.read_f32_le() {
            Ok(v) => v,
            Err(e) => return Err(RowParseError::Io(e)),
        }))
    } else {
        Ok(None)
    }
}

fn read_row_opt_min_height(r: &mut ByteStream, present: bool) -> (res: Result<Option<RawF32>, RowParseError>)
    ensures
        match spec_opt(present, spec_f32(old(r)@), old(r)@) {
            Some((m, s2)) => res matches Ok(v) && v == m && final(r)@ == s2,
            None => res is Err,
        },
        final(r)@.same_frame(old(r)@),
{
    if present {
        Ok(Some(match r.read_f32_le() {
            Ok(v) => v,
            Err(e) => return Err(RowParseError::Io(e)),
        }))
    } else {
        Ok(None)
    }
}

/// The optional fields of a row: the maximum height (bit 9 of `fb`), then the minimum height (bit 1).
#[verifier::opaque]
pub open spec fn spec_row_opt(s: StreamModel, fb: u32) -> SpecRead<(Option<RawF32>, Option<RawF32>)> {
    match spec_opt(bit_is_set(fb, 9), spec_f32(s), s) {
        Some((max_height, s1)) => 
        match spec_opt(bit_is_set(fb, 1), spec_f32(s1), s1) {
            Some((min_height, s2)) => Some(((max_height, min_height), s2)),
            None => None,
        },
        None => None,
    }
}

fn read_row_opt(r: &mut ByteStream, flags: &mut CheckedBitfield) -> (res: Result<(Option<RawF32>, Option<RawF32>), RowParseError>)
    ensures
        match spec_row_opt(old(r)@, old(flags).bits()) {
            Some((m, s2)) => res matches Ok(v) && v.0 == m.0
                && v.1 == m.1
                && final(flags).bits() == old(flags).bits()
                && final(flags).checked() == old(flags).checked() | 0x202
                && final(r)@ == s2,
            None => res is Err,
        },
        final(r)@.same_frame(old(r)@),
{
    reveal(spec_row_opt);
    let ghost c0 = flags.checked();
    let present_max_height: bool = flags.check_bit(9);
    let ghost c1 = flags.checked();
    let max_height: Option<RawF32> = read_row_opt_max_height(r, present_max_height)?;
    let present_min_height: bool = flags.check_bit(1);
    let ghost c2 = flags.checked();
    let min_height: Option<RawF32> = read_row_opt_min_height(r, present_min_height)?;
    proof {
        crate::bits::lemma_or_assoc(c0, crate::bits::bit_mask(9u8), crate::bits::bit_mask(1u8));
        lemma_table_chunk_masks();
        assert(c2 == c0 | 0x202u32);
    }
    Ok((max_height, min_height))
}


pub open spec fn f32_item() -> spec_fn(StreamModel) -> SpecRead<RawF32> {
    |t: StreamModel| spec_f32(t)
}

/// Appending a cell appends its model.
proof fn lemma_cells_model_push(v: Seq<Cell>, x: Cell, depth: nat)
    ensures
        cells_model(v.push(x), depth, v.len() + 1) == cells_model(v, depth, v.len()).push(cell_model(&x, depth)),
{
    reveal(cell_model);
    lemma_cells_model_prefix(v, x, depth, v.len());
    assert(v.push(x)[v.len() as int] == x);
}

proof fn lemma_cells_model_prefix(v: Seq<Cell>, x: Cell, depth: nat, n: nat)
    requires
        n <= v.len(),
    ensures
        cells_model(v.push(x), depth, n) == cells_model(v, depth, n),
    decreases n,
{
    reveal(cell_model);
    if n > 0 {
        lemma_cells_model_prefix(v, x, depth, (n - 1) as nat);
        assert(v.push(x)[n - 1] == v[n - 1]);
    }
}

/// Once reading cells fails, reading more fails too.
proof fn lemma_cells_fail(s: StreamModel, depth: nat, m: nat, n: nat)
    requires
        spec_cells(s, depth, m) is None,
        m <= n,
    ensures
        spec_cells(s, depth, n) is None,
    decreases n - m,
{
    reveal(spec_cell);
    if m < n {
        lemma_cells_fail(s, depth, m, (n - 1) as nat);
    }
}

/// Failure to read a row.
#[derive(Debug)]
pub enum RowParseError {
    Io(IoError),
    Flags(FlagBlockError),
    Cell(CellParseError),
    Unfinished(UnfinishedParsingError),
    /// The cell count does not fit in `usize`.
    TooManyCells(u32),
}

/// A row of a table.
#[derive(Debug)]
pub struct Row {
    pub cells: Vec<Cell>,
    pub index: u32,
    pub height: RawF32,
    pub max_height: Option<RawF32>,
    pub min_height: Option<RawF32>,
}

pub struct RowModel {
    pub cells: Seq<CellModel>,
    pub index: u32,
    pub height: RawF32,
    pub max_height: Option<RawF32>,
    pub min_height: Option<RawF32>,
}

/// The model of a row of a table whose objects are nested at most `depth` levels.
#[verifier::opaque]
pub open spec fn row_model(r: &Row, depth: nat) -> RowModel
    decreases depth, 5nat, 0nat,
{
    RowModel {
        cells: cells_model(r.cells@, depth, r.cells@.len()),
        index: r.index,
        height: r.height,
        max_height: r.max_height,
        min_height: r.min_height,
    }
}

/// The models of the first `n` rows of `v`.
pub open spec fn rows_model(v: Seq<Row>, depth: nat, n: nat) -> Seq<RowModel>
    decreases depth, 6nat, n,
{
    if n == 0 || n > v.len() {
        Seq::empty()
    } else {
        rows_model(v, depth, (n - 1) as nat).push(row_model(&v[n - 1], depth))
    }
}

/// A row: a `u32` size and a window of that many bytes holding a flag block, the height
/// (`f32`), the index (`u32`), a `u32` count of cells and the cells, then, at the flex offset,
/// the maximum height (field bit 9) and the minimum height (field bit 1), with every flag
/// handled and every byte used.
#[verifier::opaque]
pub open spec fn spec_row(s: StreamModel, depth: nat) -> SpecRead<RowModel>
    decreases depth, 5nat, 0nat,
{
    match spec_exclusive_window(s) {
        Some((w, s1)) => match spec_flag_block(w) {
            Some((fb, w1)) => match spec_f32(w1) {
                Some((height, w2)) => match spec_u32(w2) {
                    Some((index, w3)) => match spec_u32(w3) {
                        Some((n, w3b)) => match spec_cells(w3b, depth, n as nat) {
                            Some((cells, w4)) => match spec_flex(w4, fb) {
                                Some((wf, ff)) => match spec_row_opt(wf, ff) {
                                    Some((o, w5)) => if fb.property_bits == 0 && ff & !0x202u32 == 0
                                        && w5.remaining() == 0 {
                                        Some((RowModel { cells, index, height, max_height: o.0, min_height: o.1 }, spec_continue(s1, w5)))
                                    } else {
                                        None
                                    },
                                    None => None,
                                },
                                None => None,
                            },
                            None => None,
                        },
                        None => None,
                    },
                    None => None,
                },
                None => None,
            },
            None => None,
        },
        None => None,
    }
}

/// `n` rows, one after the other.
pub open spec fn spec_rows(s: StreamModel, depth: nat, n: nat) -> SpecRead<Seq<RowModel>>
    decreases depth, 6nat, n,
{
    if n == 0 {
        Some((Seq::empty(), s))
    } else {
        match spec_rows(s, depth, (n - 1) as nat) {
            Some((vs, s2)) => match spec_row(s2, depth) {
                Some((v, s3)) => Some((vs.push(v), s3)),
                None => None,
            },
            None => None,
        }
    }
}

/// Appending a row appends its model.
proof fn lemma_rows_model_push(v: Seq<Row>, x: Row, depth: nat)
    ensures
        rows_model(v.push(x), depth, v.len() + 1) == rows_model(v, depth, v.len()).push(row_model(&x, depth)),
{
    reveal(row_model);
    lemma_rows_model_prefix(v, x, depth, v.len());
    assert(v.push(x)[v.len() as int] == x);
}

proof fn lemma_rows_model_prefix(v: Seq<Row>, x: Row, depth: nat, n: nat)
    requires
        n <= v.len(),
    ensures
        rows_model(v.push(x), depth, n) == rows_model(v, depth, n),
    decreases n,
{
    reveal(row_model);
    if n > 0 {
        lemma_rows_model_prefix(v, x, depth, (n - 1) as nat);
        assert(v.push(x)[n - 1] == v[n - 1]);
    }
}

/// Reading `n` rows reads `n - 1` rows, then one more.
proof fn lemma_rows_step(s: StreamModel, depth: nat, n: nat)
    requires
        n > 0,
    ensures
        spec_rows(s, depth, n) == match spec_rows(s, depth, (n - 1) as nat) {
            Some((vs, s2)) => match spec_row(s2, depth) {
                Some((v, s3)) => Some((vs.push(v), s3)),
                None => None,
            },
            None => None,
        },
{
    reveal(spec_row);
}

/// Once reading rows fails, reading more fails too.
proof fn lemma_rows_fail(s: StreamModel, depth: nat, m: nat, n: nat)
    requires
        spec_rows(s, depth, m) is None,
        m <= n,
    ensures
        spec_rows(s, depth, n) is None,
    decreases n - m,
{
    reveal(spec_row);
    if m < n {
        lemma_rows_fail(s, depth, m, (n - 1) as nat);
    }
}

impl Row {
    fn read_cells(r: &mut ByteStream, ctx: &DocumentContext, depth: u32, n: u32) -> (res: Result<Vec<Cell>, RowParseError>)
        ensures
            match spec_cells(old(r)@, depth as nat, n as nat) {
                Some((m, s2)) => res matches Ok(v) && cells_model(v@, depth as nat, v@.len()) == m && final(r)@ == s2,
                None => res is Err,
            },
            final(r)@.same_frame(old(r)@),
        decreases depth, 4nat,
    {
        let ghost s0 = r@;
        let mut out: Vec<Cell> = Vec::new();
        let mut i: u32 = 0;
        while i < n
            invariant
                i <= n,
                s0 == old(r)@,
                r@.same_frame(s0),
                spec_cells(s0, depth as nat, i as nat) == Some((cells_model(out@, depth as nat, out@.len()), r@)),
            decreases n - i,
        {
            proof {
                reveal(spec_cell);
            }
            let x: Cell = match Cell::parse_nested(r, ctx, depth) {
                Ok(x) => x,
                Err(e) => {
                    proof { lemma_cells_fail(s0, depth as nat, (i + 1) as nat, n as nat); }
                    return Err(RowParseError::Cell(e));
                },
            };
            proof { lemma_cells_model_push(out@, x, depth as nat); }
            out.push(x);
            i = i + 1;
        }
        Ok(out)
    }

    /// Reads a row of a table whose objects may nest `depth` more levels.
    #[verifier::rlimit(40)]
    pub fn parse_nested(stream: &mut ByteStream, ctx: &DocumentContext, depth: u32) -> (r: Result<Row, RowParseError>)
        ensures
            match spec_row(old(stream)@, depth as nat) {
                Some((m, s2)) => r matches Ok(v) && row_model(&v, depth as nat) == m && final(stream)@ == s2,
                None => r is Err,
            },
            final(stream)@.same_frame(old(stream)@),
        decreases depth, 5nat,
    {
        proof {
            reveal(spec_row);
            reveal(row_model);
        }
        let mut w: ByteStream = match stream.exclusive_blind_window() {
            Ok(w) => w,
            Err(e) => return Err(RowParseError::Io(e)),
        };
        let mut fb: FlagBlock = match FlagBlock::try_parse(&mut w) {
            Ok(v) => v,
            Err(e) => return Err(RowParseError::Flags(e)),
        };
        let height: RawF32 = match w.read_f32_le() {
            Ok(v) => v,
            Err(e) => return Err(RowParseError::Io(e)),
        };
        let index: u32 = match w.read_u32_le() {
            Ok(v) => v,
            Err(e) => return Err(RowParseError::Io(e)),
        };
        let n: u32 = match w.read_u32_le() {
            Ok(v) => v,
            Err(e) => return Err(RowParseError::Io(e)),
        };
        let cells: Vec<Cell> = Row::read_cells(&mut w, ctx, depth, n)?;
        let ff: &mut CheckedBitfield = match fb.init_flex(&mut w) {
            Ok(f) => f,
            Err(e) => return Err(RowParseError::Io(e)),
        };
        let o = read_row_opt(&mut w, ff)?;
        proof {
            let fc = fb.field_flags().checked();
            crate::bits::lemma_zero_or(0x202u32);
            crate::bits::lemma_and_not_zero(fb.property_flags().bits());
            assert(fc == 0x202u32);
        }
        if let Err(e) = fb.ensure_flags_used() {
            return Err(RowParseError::Flags(e));
        }
        if let Err(e) = w.ensure_eof() {
            return Err(RowParseError::Unfinished(e));
        }
        proof { use_type_invariant(&*stream); use_type_invariant(&w); }
        stream.continue_after(&w);
        Ok(Row { cells, index, height, max_height: o.0, min_height: o.1 })
    }
}

/// Failure to read a table.
#[derive(Debug)]
pub enum TableParseError {
    Io(IoError),
    Shape(ShapeParseError),
    Header(ObjectHeaderError),
    FlagBlock(FlagBlockError),
    Row(RowParseError),
    BadTextAutoFitType(InvalidTextAutoFitTypeError),
    Border(FullBorderStyleParseError),
    Unfinished(UnfinishedParsingError),
    /// An element count does not fit in `usize`.
    TooManyElements(u32),
}

/// A table: a shape, and its rows of cells.
#[derive(Debug)]
pub struct Table {
    pub shape: Shape,
    pub is_heading_column_enabled: bool,
    pub is_heading_row_enabled: bool,
    pub is_max_height_enabled: bool,
    pub min_column_width: RawF32,
    pub min_row_height: RawF32,
    pub column_widths: Vec<RawF32>,
    pub rows: Vec<Row>,
    pub rect: Option<Rect>,
    pub border: Option<FullBorderStyle>,
    pub auto_fit_type: Option<TextAutoFitType>,
    pub column_min_widths: Vec<RawF32>,
    pub column_max_widths: Vec<RawF32>,
    pub max_height: Option<RawF32>,
    pub max_width: Option<RawF32>,
    pub default_cell_border: Option<FullBorderStyle>,
    pub heading_background_colour: Option<u32>,
    pub cell_background_colour: Option<u32>,
}

pub struct TableModel {
    pub shape: ShapeModel,
    pub is_heading_column_enabled: bool,
    pub is_heading_row_enabled: bool,
    pub is_max_height_enabled: bool,
    pub min_column_width: RawF32,
    pub min_row_height: RawF32,
    pub column_widths: Seq<RawF32>,
    pub rows: Seq<RowModel>,
    pub rect: Option<Rect>,
    pub border: Option<FullBorderStyle>,
    pub auto_fit_type: Option<TextAutoFitType>,
    pub column_min_widths: Seq<RawF32>,
    pub column_max_widths: Seq<RawF32>,
    pub max_height: Option<RawF32>,
    pub max_width: Option<RawF32>,
    pub default_cell_border: Option<FullBorderStyle>,
    pub heading_background_colour: Option<u32>,
    pub cell_background_colour: Option<u32>,
}

/// The model of a table whose objects are nested at most `depth` levels.
#[verifier::opaque]
pub open spec fn table_model(t: &Table, depth: nat) -> TableModel
    decreases depth, 8nat, 0nat,
{
    TableModel {
        shape: shape_model(&t.shape, depth),
        is_heading_column_enabled: t.is_heading_column_enabled,
        is_heading_row_enabled: t.is_heading_row_enabled,
        is_max_height_enabled: t.is_max_height_enabled,
        min_column_width: t.min_column_width,
        min_row_height: t.min_row_height,
        column_widths: t.column_widths@,
        rows: rows_model(t.rows@, depth, t.rows@.len()),
        rect: t.rect,
        border: t.border,
        auto_fit_type: t.auto_fit_type,
        column_min_widths: t.column_min_widths@,
        column_max_widths: t.column_max_widths@,
        max_height: t.max_height,
        max_width: t.max_width,
        default_cell_border: t.default_cell_border,
        heading_background_colour: t.heading_background_colour,
        cell_background_colour: t.cell_background_colour,
    }
}

/// A table: a shape (not a plain one), then an object block of data type 22 whose property bits
/// 0 to 2 say whether the heading column, the heading row and the maximum height are enabled,
/// and whose optional fields are those of bits 0 to 2, the rows (bit 3, a `u32` count), and those
/// of bits 4 to 13, with every flag handled and every byte of the block used.
#[verifier::opaque]
pub open spec fn spec_table(s: StreamModel, depth: nat) -> SpecRead<TableModel>
    decreases depth, 8nat, 0nat,
{
    match spec_shape(s, false, depth) {
        Some((shape, s1)) => match spec_object_header(s1, 22) {
            Some((fb, w, s2)) => match spec_flex(w, fb) {
                Some((wf, ff)) => match spec_table_opt1(wf, ff) {
                    Some((o1, w1)) => {
                        let rows_read: SpecRead<Seq<RowModel>> = if bit_is_set(ff, 3) {
                            match spec_u32(w1) {
                                Some((n, w1b)) => spec_rows(w1b, depth, n as nat),
                                None => None,
                            }
                        } else {
                            Some((Seq::empty(), w1))
                        };
                        match rows_read {
                            Some((rows, w2)) => match spec_table_opt2(w2, ff) {
                                Some((o2, w3)) => if fb.property_bits & !7u32 == 0 && ff & !0x3fffu32 == 0
                                    && w3.remaining() == 0 {
                                    Some((TableModel {
                                        shape,
                                        is_heading_column_enabled: bit_is_set(fb.property_bits, 0),
                                        is_heading_row_enabled: bit_is_set(fb.property_bits, 1),
                                        is_max_height_enabled: bit_is_set(fb.property_bits, 2),
                                        min_column_width: o1.0,
                                        min_row_height: o1.1,
                                        column_widths: o1.2,
                                        rows,
                                        rect: o2.0,
                                        border: o2.1,
                                        auto_fit_type: o2.2,
                                        column_min_widths: o2.3,
                                        column_max_widths: o2.4,
                                        max_height: o2.5,
                                        max_width: o2.6,
                                        default_cell_border: o2.7,
                                        heading_background_colour: o2.8,
                                        cell_background_colour: o2.9,
                                    }, spec_continue(s2, w3)))
                                } else {
                                    None
                                },
                                None => None,
                            },
                            None => None,
                        }
                    },
                    None => None,
                },
                None => None,
            },
            None => None,
        },
        None => None,
    }
}

/// Reads a `u32` count and that many `f32`s.
fn read_f32_list(r: &mut ByteStream) -> (res: Result<Vec<RawF32>, TableParseError>)
    ensures
        match spec_u32_counted(old(r)@, f32_item()) {
            Some((m, s2)) => res matches Ok(v) && v@ == m && final(r)@ == s2,
            None => res is Err,
        },
        final(r)@.same_frame(old(r)@),
{
    let n: u32 = match r.read_u32_le() {
        Ok(v) => v,
        Err(e) => return Err(TableParseError::Io(e)),
    };
    let ghost s0 = r@;
    let ghost item = f32_item();
    let mut out: Vec<RawF32> = Vec::new();
    let mut i: u32 = 0;
    while i < n
        invariant
            i <= n,
            item == f32_item(),
            out@.len() == i,
            s0.same_frame(old(r)@),
            spec_u32(old(r)@) == Some((n, s0)),
            r@.same_frame(s0),
            spec_repeat(s0, i as nat, item) == Some((out@, r@)),
        decreases n - i,
    {
        let ghost before = r@;
        proof { assert(item(before) == spec_f32(before)); }
        let x: RawF32 = match r.read_f32_le() {
            Ok(v) => v,
            Err(e) => {
                proof { lemma_repeat_fails(s0, (i + 1) as nat, n as nat, item); }
                return Err(TableParseError::Io(e));
            },
        };
        out.push(x);
        i = i + 1;
    }
    Ok(out)
}

impl Table {
    #[verifier::rlimit(40)]
    fn read_rows(r: &mut ByteStream, ctx: &DocumentContext, depth: u32, n: u32) -> (res: Result<Vec<Row>, TableParseError>)
        ensures
            match spec_rows(old(r)@, depth as nat, n as nat) {
                Some((m, s2)) => res matches Ok(v) && rows_model(v@, depth as nat, v@.len()) == m && final(r)@ == s2,
                None => res is Err,
            },
            final(r)@.same_frame(old(r)@),
        decreases depth, 6nat,
    {
        let ghost s0 = r@;
        let mut out: Vec<Row> = Vec::new();
        let mut i: u32 = 0;
        while i < n
            invariant
                i <= n,
                s0 == old(r)@,
                r@.same_frame(s0),
                spec_rows(s0, depth as nat, i as nat) == Some((rows_model(out@, depth as nat, out@.len()), r@)),
            decreases n - i,
        {
            proof { lemma_rows_step(s0, depth as nat, (i + 1) as nat); }
            let x: Row = match Row::parse_nested(r, ctx, depth) {
                Ok(x) => x,
                Err(e) => {
                    proof { lemma_rows_fail(s0, depth as nat, (i + 1) as nat, n as nat); }
                    return Err(TableParseError::Row(e));
                },
            };
            proof { lemma_rows_model_push(out@, x, depth as nat); }
            out.push(x);
            i = i + 1;
        }
        Ok(out)
    }

    /// Reads a table whose objects may nest `depth` more levels.
    #[verifier::rlimit(60)]
    pub fn parse_nested(stream: &mut ByteStream, ctx: &DocumentContext, depth: u32) -> (r: Result<Table, TableParseError>)
        ensures
            match spec_table(old(stream)@, depth as nat) {
                Some((m, s2)) => r matches Ok(v) && table_model(&v, depth as nat) == m && final(stream)@ == s2,
                None => r is Err,
            },
            final(stream)@.same_frame(old(stream)@),
        decreases depth, 8nat,
    {
        proof {
            reveal(spec_table);
            reveal(table_model);
        }
        let shape: Shape = match Shape::parse_nested(stream, &ShapeParseContext { is_shape_only: false, doc_ctx: *ctx }, depth) {
            Ok(v) => v,
            Err(e) => return Err(TableParseError::Shape(e)),
        };
        let (mut header, mut w) = match ObjectHeader::try_parse(stream, 22) {
            Ok(v) => v,
            Err(e) => return Err(TableParseError::Header(e)),
        };
        let pf: &mut CheckedBitfield = header.property_flags_mut();
        let is_heading_column_enabled: bool = pf.check_bit(0);
        let is_heading_row_enabled: bool = pf.check_bit(1);
        let is_max_height_enabled: bool = pf.check_bit(2);
        let ff: &mut CheckedBitfield = match header.init_flex(&mut w) {
            Ok(f) => f,
            Err(e) => return Err(TableParseError::Io(e)),
        };
        let o1 = read_table_opt1(&mut w, ff)?;
        let has_rows: bool = ff.check_bit(3);
        let rows: Vec<Row> = if has_rows {
            let n: u32 = match w.read_u32_le() {
                Ok(v) => v,
                Err(e) => return Err(TableParseError::Io(e)),
            };
            Table::read_rows(&mut w, ctx, depth, n)?
        } else {
            Vec::new()
        };
        assert(!has_rows ==> rows_model(rows@, depth as nat, rows@.len()) =~= Seq::<RowModel>::empty());
        let o2 = read_table_opt2(&mut w, ff)?;
        proof {
            let pc = header.0.property_flags().checked();
            let fc = header.0.field_flags().checked();
            lemma_table_masks();
            assert(pc == 7u32);
            assert(fc == 0x3fffu32);
        }
        if let Err(e) = header.ensure_flags_used() {
            return Err(TableParseError::Header(e));
        }
        if let Err(e) = w.ensure_eof() {
            return Err(TableParseError::Unfinished(e));
        }
        proof { use_type_invariant(&*stream); use_type_invariant(&w); }
        stream.continue_after(&w);
        Ok(Table {
            shape,
            is_heading_column_enabled,
            is_heading_row_enabled,
            is_max_height_enabled,
            min_column_width: o1.0,
            min_row_height: o1.1,
            column_widths: o1.2,
            rows,
            rect: o2.0,
            border: o2.1,
            auto_fit_type: o2.2,
            column_min_widths: o2.3,
            column_max_widths: o2.4,
            max_height: o2.5,
            max_width: o2.6,
            default_cell_border: o2.7,
            heading_background_colour: o2.8,
            cell_background_colour: o2.9,
        })
    }

    /// The base of this table.
    pub fn object_base(&self) -> (r: &ObjectBase)
        ensures
            r@ == self.shape.shape_base@.object_base,
    {
        self.shape.object_base()
    }
}

impl<'a, 'fr, 'sr> TryParseWithContext<ByteStream<'a>, DocumentContext<'fr, 'sr>> for Table {
    type ParseError = TableParseError;

    fn try_parse_with_ctx(stream: &mut ByteStream<'a>, ctx: &DocumentContext<'fr, 'sr>) -> (r: Result<Table, TableParseError>)
        ensures
            match spec_table(old(stream)@, NESTING_LIMIT as nat) {
                Some((m, s2)) => r matches Ok(v) && table_model(&v, NESTING_LIMIT as nat) == m && final(stream)@ == s2,
                None => r is Err,
            },
            final(stream)@.same_frame(old(stream)@),
    {
        Table::parse_nested(stream, ctx, NESTING_LIMIT)
    }
}

/// The flags that cells, rows and tables check, as numbers.
proof fn lemma_table_masks()
    by (bit_vector)
    ensures
        0u32 | crate::bits::bit_mask(0u8) == 1u32,
        ((0u32 | crate::bits::bit_mask(0u8)) | crate::bits::bit_mask(1u8)) | crate::bits::bit_mask(2u8) == 7u32,
        ((0u32 | 0x7u32) | crate::bits::bit_mask(3u8)) | 0x3ff0u32 == 0x3fffu32,
{
}

/// The masks of the runs of optional fields of tables and rows, as numbers.
proof fn lemma_table_chunk_masks()
    by (bit_vector)
    ensures
        crate::bits::bit_mask(0u8) | crate::bits::bit_mask(1u8) | crate::bits::bit_mask(2u8) == 0x7u32,
        crate::bits::bit_mask(4u8) | crate::bits::bit_mask(5u8) | crate::bits::bit_mask(6u8) | crate::bits::bit_mask(7u8) | crate::bits::bit_mask(8u8) | crate::bits::bit_mask(9u8) | crate::bits::bit_mask(10u8) | crate::bits::bit_mask(11u8) | crate::bits::bit_mask(12u8) | crate::bits::bit_mask(13u8) == 0x3ff0u32,
        crate::bits::bit_mask(9u8) | crate::bits::bit_mask(1u8) == 0x202u32,
{
}

} // verus!
