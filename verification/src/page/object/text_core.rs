//! The text of text boxes and shapes: the characters, their spans and paragraphs, and objects
//! placed inline.
use vstd::prelude::*;

use crate::bits::{bit_is_set, CheckedBitfield, UnhandledBitsError};
use crate::byte_stream::{
    lemma_repeat_fails, opt_view, spec_blind_window, spec_continue, spec_exclusive_window,
    spec_f32, spec_long_u16_string, spec_opt, spec_repeat, spec_str_opt, spec_take, spec_then, spec_u16,
    spec_u16_counted, spec_u32, spec_u32_counted, spec_u8, views, ByteStream, ExactSizedStream,
    IoError, RawF32, ReadStringError, SpecRead, StreamModel, UnfinishedParsingError,
};
use crate::context::{DocumentContext, TryParseWithContext};
use crate::page::object::{
    doc_object_model, spec_doc_object, DocObject, DocObjectModel, DocObjectParseContext,
    DocObjectParseError,
};

verus! {

/// Where text sits vertically.
#[derive(Debug, Clone, Copy, PartialEq, Eq, Structural)]
pub enum Gravity {
    /// `GRAVITY_TOP`
    Top,
    /// `GRAVITY_CENTER`
    Centre,
    /// `GRAVITY_BOTTOM`
    Bottom,
}

/// The value is not that of a `Gravity`.
#[derive(Debug, Clone, Copy, PartialEq, Eq, Structural)]
pub struct InvalidGravityError {
    pub bad_value: u8,
}

/// The `Gravity` that `v` stands for: 0 to 2 in declaration order.
pub open spec fn spec_gravity(v: u8) -> Option<Gravity> {
    if v == 0 {
        Some(Gravity::Top)
    } else if v == 1 {
        Some(Gravity::Centre)
    } else if v == 2 {
        Some(Gravity::Bottom)
    } else {
        None
    }
}

impl Gravity {
    pub fn try_from_u8(v: u8) -> (r: Result<Gravity, InvalidGravityError>)
        ensures
            match spec_gravity(v) {
                Some(x) => r == Ok::<Gravity, InvalidGravityError>(x),
                None => r == Err::<Gravity, InvalidGravityError>(InvalidGravityError { bad_value: v }),
            },
    {
        match v {
            0 => Ok(Gravity::Top),
            1 => Ok(Gravity::Centre),
            2 => Ok(Gravity::Bottom),
            _ => Err(InvalidGravityError { bad_value: v }),
        }
    }
}

/// What a span of text sets.
#[derive(Debug, Clone, Copy, PartialEq, Eq, Structural)]
pub enum SpanType {
    /// `TYPE_NONE`
    NoSpan,
    /// `TYPE_FOREGROUND_COLOR`
    ForegroundColour,
    /// `TYPE_FONT_SIZE`
    FontSize,
    /// `TYPE_FONT_NAME`
    FontName,
    /// `TYPE_BOLD`
    Bold,
    /// `TYPE_ITALIC`
    Italic,
    /// `TYPE_UNDERLINE`
    Underline,
    /// `TYPE_HYPER_TEXT`
    Hypertext,
    /// `TYPE_COMPOSING_BACKGROUND_COLOR`
    ComposingBackgroundColour,
    /// `TYPE_COMPOSING`
    Composing,
    /// `TYPE_BACKGROUND_COLOR`
    BackgroundColour,
    /// `TYPE_COMPOSING_TAG`
    ComposingTag,
    /// `TYPE_TIME_STAMP`
    TimeStamp,
    /// `TYPE_STRIKETHROUGH`
    Strikethrough,
    /// `TYPE_SUGGESTION`
    Suggestion,
    /// `TYPE_SPELL_CORRECTION`
    SpellCorrection,
    /// `TYPE_FORMULA`
    Formula,
}

/// The value is not that of a `SpanType`.
#[derive(Debug, Clone, Copy, PartialEq, Eq, Structural)]
pub struct InvalidSpanTypeError {
    pub bad_value: u32,
}

/// The `SpanType` that `v` stands for: 0 is `NoSpan`, 1 is `ForegroundColour`, 3 is `FontSize`, 4 is `FontName`, 5 is `Bold`, 6 is `Italic`, 7 is `Underline`, 9 is `Hypertext`, 15 is `ComposingBackgroundColour`, 16 is `Composing`, 17 is `BackgroundColour`, 18 is `ComposingTag`, 19 is `TimeStamp`, 20 is `Strikethrough`, 21 is `Suggestion`, 22 is `SpellCorrection`, 23 is `Formula`.
pub open spec fn spec_span_type(v: u32) -> Option<SpanType> {
    if v == 0 {
        Some(SpanType::NoSpan)
    } else if v == 1 {
        Some(SpanType::ForegroundColour)
    } else if v == 3 {
        Some(SpanType::FontSize)
    } else if v == 4 {
        Some(SpanType::FontName)
    } else if v == 5 {
        Some(SpanType::Bold)
    } else if v == 6 {
        Some(SpanType::Italic)
    } else if v == 7 {
        Some(SpanType::Underline)
    } else if v == 9 {
        Some(SpanType::Hypertext)
    } else if v == 15 {
        Some(SpanType::ComposingBackgroundColour)
    } else if v == 16 {
        Some(SpanType::Composing)
    } else if v == 17 {
        Some(SpanType::BackgroundColour)
    } else if v == 18 {
        Some(SpanType::ComposingTag)
    } else if v == 19 {
        Some(SpanType::TimeStamp)
    } else if v == 20 {
        Some(SpanType::Strikethrough)
    } else if v == 21 {
        Some(SpanType::Suggestion)
    } else if v == 22 {
        Some(SpanType::SpellCorrection)
    } else if v == 23 {
        Some(SpanType::Formula)
    } else {
        None
    }
}

impl SpanType {
    pub fn try_from_u32(v: u32) -> (r: Result<SpanType, InvalidSpanTypeError>)
        ensures
            match spec_span_type(v) {
                Some(x) => r == Ok::<SpanType, InvalidSpanTypeError>(x),
                None => r == Err::<SpanType, InvalidSpanTypeError>(InvalidSpanTypeError { bad_value: v }),
            },
    {
        match v {
            0 => Ok(SpanType::NoSpan),
            1 => Ok(SpanType::ForegroundColour),
            3 => Ok(SpanType::FontSize),
            4 => Ok(SpanType::FontName),
            5 => Ok(SpanType::Bold),
            6 => Ok(SpanType::Italic),
            7 => Ok(SpanType::Underline),
            9 => Ok(SpanType::Hypertext),
            15 => Ok(SpanType::ComposingBackgroundColour),
            16 => Ok(SpanType::Composing),
            17 => Ok(SpanType::BackgroundColour),
            18 => Ok(SpanType::ComposingTag),
            19 => Ok(SpanType::TimeStamp),
            20 => Ok(SpanType::Strikethrough),
            21 => Ok(SpanType::Suggestion),
            22 => Ok(SpanType::SpellCorrection),
            23 => Ok(SpanType::Formula),
            _ => Err(InvalidSpanTypeError { bad_value: v }),
        }
    }
}

/// Whether a span takes in text inserted at its ends.
#[derive(Debug, Clone, Copy, PartialEq, Eq, Structural)]
pub enum IntervalType {
    /// `SPAN_INCLUSIVE_EXCLUSIVE`
    InclusiveExclusive,
    /// `SPAN_INCLUSIVE_INCLUSIVE`
    InclusiveInclusive,
    /// `SPAN_EXCLUSIVE_EXCLUSIVE`
    ExclusiveExclusive,
    /// `SPAN_EXCLUSIVE_INCLUSIVE`
    ExclusiveInclusive,
}

/// The value is not that of a `IntervalType`.
#[derive(Debug, Clone, Copy, PartialEq, Eq, Structural)]
pub struct InvalidIntervalTypeError {
    pub bad_value: u32,
}

/// The `IntervalType` that `v` stands for: 0 to 3 in declaration order.
pub open spec fn spec_interval_type(v: u32) -> Option<IntervalType> {
    if v == 0 {
        Some(IntervalType::InclusiveExclusive)
    } else if v == 1 {
        Some(IntervalType::InclusiveInclusive)
    } else if v == 2 {
        Some(IntervalType::ExclusiveExclusive)
    } else if v == 3 {
        Some(IntervalType::ExclusiveInclusive)
    } else {
        None
    }
}

impl IntervalType {
    pub fn try_from_u32(v: u32) -> (r: Result<IntervalType, InvalidIntervalTypeError>)
        ensures
            match spec_interval_type(v) {
                Some(x) => r == Ok::<IntervalType, InvalidIntervalTypeError>(x),
                None => r == Err::<IntervalType, InvalidIntervalTypeError>(InvalidIntervalTypeError { bad_value: v }),
            },
    {
        match v {
            0 => Ok(IntervalType::InclusiveExclusive),
            1 => Ok(IntervalType::InclusiveInclusive),
            2 => Ok(IntervalType::ExclusiveExclusive),
            3 => Ok(IntervalType::ExclusiveInclusive),
            _ => Err(InvalidIntervalTypeError { bad_value: v }),
        }
    }
}

/// What a paragraph setting sets.
#[derive(Debug, Clone, Copy, PartialEq, Eq, Structural)]
pub enum ParagraphType {
    /// `TYPE_INDENTLEVEL`
    IndentLevel,
    /// `TYPE_ALIGN`
    Alignment,
    /// `TYPE_LINE_SPACING`
    LineSpacing,
    /// `TYPE_BULLET`
    Bullet,
    /// `TYPE_PARSING_STATE`
    ParsingState,
}

/// The value is not that of a `ParagraphType`.
#[derive(Debug, Clone, Copy, PartialEq, Eq, Structural)]
pub struct InvalidParagraphTypeError {
    pub bad_value: u32,
}

/// The `ParagraphType` that `v` stands for: 2 is `IndentLevel`, 3 is `Alignment`, 4 is `LineSpacing`, 5 is `Bullet`, 6 is `ParsingState`.
pub open spec fn spec_paragraph_type(v: u32) -> Option<ParagraphType> {
    if v == 2 {
        Some(ParagraphType::IndentLevel)
    } else if v == 3 {
        Some(ParagraphType::Alignment)
    } else if v == 4 {
        Some(ParagraphType::LineSpacing)
    } else if v == 5 {
        Some(ParagraphType::Bullet)
    } else if v == 6 {
        Some(ParagraphType::ParsingState)
    } else {
        None
    }
}

impl ParagraphType {
    pub fn try_from_u32(v: u32) -> (r: Result<ParagraphType, InvalidParagraphTypeError>)
        ensures
            match spec_paragraph_type(v) {
                Some(x) => r == Ok::<ParagraphType, InvalidParagraphTypeError>(x),
                None => r == Err::<ParagraphType, InvalidParagraphTypeError>(InvalidParagraphTypeError { bad_value: v }),
            },
    {
        match v {
            2 => Ok(ParagraphType::IndentLevel),
            3 => Ok(ParagraphType::Alignment),
            4 => Ok(ParagraphType::LineSpacing),
            5 => Ok(ParagraphType::Bullet),
            6 => Ok(ParagraphType::ParsingState),
            _ => Err(InvalidParagraphTypeError { bad_value: v }),
        }
    }
}

/// How an inline object is laid out in its text.
#[derive(Debug, Clone, Copy, PartialEq, Eq, Structural)]
pub enum InTextLayoutOption {
    /// `LAYOUT_OPTION_BLOCK`
    Block,
    /// `LAYOUT_OPTION_INLINE`
    Inline,
    /// `LAYOUT_OPTION_BLOCK_WITH_MARGIN_SMALL`
    BlockSmallMargin,
    /// `LAYOUT_OPTION_BLOCK_WITH_MARGIN_MEDIUM`
    BlockMediumMargin,
}

/// The value is not that of a `InTextLayoutOption`.
#[derive(Debug, Clone, Copy, PartialEq, Eq, Structural)]
pub struct InvalidInTextLayoutOptionError {
    pub bad_value: u32,
}

/// The `InTextLayoutOption` that `v` stands for: 0 to 3 in declaration order.
pub open spec fn spec_in_text_layout_option(v: u32) -> Option<InTextLayoutOption> {
    if v == 0 {
        Some(InTextLayoutOption::Block)
    } else if v == 1 {
        Some(InTextLayoutOption::Inline)
    } else if v == 2 {
        Some(InTextLayoutOption::BlockSmallMargin)
    } else if v == 3 {
        Some(InTextLayoutOption::BlockMediumMargin)
    } else {
        None
    }
}

impl InTextLayoutOption {
    pub fn try_from_u32(v: u32) -> (r: Result<InTextLayoutOption, InvalidInTextLayoutOptionError>)
        ensures
            match spec_in_text_layout_option(v) {
                Some(x) => r == Ok::<InTextLayoutOption, InvalidInTextLayoutOptionError>(x),
                None => r == Err::<InTextLayoutOption, InvalidInTextLayoutOptionError>(InvalidInTextLayoutOptionError { bad_value: v }),
            },
    {
        match v {
            0 => Ok(InTextLayoutOption::Block),
            1 => Ok(InTextLayoutOption::Inline),
            2 => Ok(InTextLayoutOption::BlockSmallMargin),
            3 => Ok(InTextLayoutOption::BlockMediumMargin),
            _ => Err(InvalidInTextLayoutOptionError { bad_value: v }),
        }
    }
}

/// How an inline object may spread over pages.
#[derive(Debug, Clone, Copy, PartialEq, Eq, Structural)]
pub enum InTextLayoutConstraint {
    /// `LAYOUT_CONSTRAINT_NORMAL`
    Normal,
    /// `LAYOUT_CONSTRAINT_OVER_PAGES_OVERLAP_PADDING`
    OverPagesOverlapPadding,
    /// `LAYOUT_CONSTRAINT_OVER_PAGES`
    OverPages,
}

/// The value is not that of a `InTextLayoutConstraint`.
#[derive(Debug, Clone, Copy, PartialEq, Eq, Structural)]
pub struct InvalidInTextLayoutConstraintError {
    pub bad_value: u32,
}

/// The `InTextLayoutConstraint` that `v` stands for: 0 to 2 in declaration order.
pub open spec fn spec_in_text_layout_constraint(v: u32) -> Option<InTextLayoutConstraint> {
    if v == 0 {
        Some(InTextLayoutConstraint::Normal)
    } else if v == 1 {
        Some(InTextLayoutConstraint::OverPagesOverlapPadding)
    } else if v == 2 {
        Some(InTextLayoutConstraint::OverPages)
    } else {
        None
    }
}

impl InTextLayoutConstraint {
    pub fn try_from_u32(v: u32) -> (r: Result<InTextLayoutConstraint, InvalidInTextLayoutConstraintError>)
        ensures
            match spec_in_text_layout_constraint(v) {
                Some(x) => r == Ok::<InTextLayoutConstraint, InvalidInTextLayoutConstraintError>(x),
                None => r == Err::<InTextLayoutConstraint, InvalidInTextLayoutConstraintError>(InvalidInTextLayoutConstraintError { bad_value: v }),
            },
    {
        match v {
            0 => Ok(InTextLayoutConstraint::Normal),
            1 => Ok(InTextLayoutConstraint::OverPagesOverlapPadding),
            2 => Ok(InTextLayoutConstraint::OverPages),
            _ => Err(InvalidInTextLayoutConstraintError { bad_value: v }),
        }
    }
}


/// Failure to read a span.
#[derive(Debug, Clone, Copy, PartialEq, Eq, Structural)]
pub enum SpanParseError {
    Io(IoError),
    SpanType(InvalidSpanTypeError),
    IntervalTypes(InvalidIntervalTypeError),
    /// The data size is smaller than the 16 bytes of the span base.
    BadSize(u16),
}

/// What every span has.
#[derive(Debug, Clone, Copy, PartialEq, Eq, Structural)]
pub struct SpanBase {
    pub span_type: SpanType,
    pub start_pos: u32,
    pub end_pos: u32,
    pub interval_type: IntervalType,
}

/// A span of text with a setting.
#[derive(Debug)]
pub struct Span {
    pub span_base: SpanBase,
    pub bytes: Vec<u8>,
}

pub struct SpanModel {
    pub span_base: SpanBase,
    pub bytes: Seq<u8>,
}

impl View for Span {
    type V = SpanModel;

    open spec fn view(&self) -> SpanModel {
        SpanModel { span_base: self.span_base, bytes: self.bytes@ }
    }
}

/// A span: a `u16` data size (at least 16), the type, start, end and interval type (`u32`
/// each), then the remaining `size - 16` bytes.
pub open spec fn spec_span(s: StreamModel) -> SpecRead<SpanModel> {
    match spec_u16(s) {
        Some((size, s1)) => if size < 16 {
            None
        } else {
            match spec_then(spec_u32(s1), |v: u32| spec_span_type(v)) {
                Some((span_type, s2)) => match spec_u32(s2) {
                    Some((start_pos, s3)) => match spec_u32(s3) {
                        Some((end_pos, s4)) => match spec_then(spec_u32(s4), |v: u32| spec_interval_type(v)) {
                            Some((interval_type, s5)) => match spec_take(s5, size - 16) {
                                Some((bytes, s6)) => Some((SpanModel {
                                    span_base: SpanBase { span_type, start_pos, end_pos, interval_type },
                                    bytes,
                                }, s6)),
                                None => None,
                            },
                            None => None,
                        },
                        None => None,
                    },
                    None => None,
                },
                None => None,
            }
        },
        None => None,
    }
}

pub open spec fn span_item() -> spec_fn(StreamModel) -> SpecRead<SpanModel> {
    |t: StreamModel| spec_span(t)
}

impl Span {
    pub fn try_parse(stream: &mut ByteStream) -> (r: Result<Span, SpanParseError>)
        ensures
            match spec_span(old(stream)@) {
                Some((m, s2)) => r matches Ok(v) && v@ == m && final(stream)@ == s2,
                None => r is Err,
            },
            final(stream)@.same_frame(old(stream)@),
    {
        let size: u16 = match stream.read_u16_le() {
            Ok(v) => v,
            Err(e) => return Err(SpanParseError::Io(e)),
        };
        // The span base is 16 bytes.
        if size < 16 {
            return Err(SpanParseError::BadSize(size));
        }
        let t: u32 = match stream.read_u32_le() {
            Ok(v) => v,
            Err(e) => return Err(SpanParseError::Io(e)),
        };
        let span_type: SpanType = match SpanType::try_from_u32(t) {
            Ok(v) => v,
            Err(e) => return Err(SpanParseError::SpanType(e)),
        };
        let start_pos: u32 = match stream.read_u32_le() {
            Ok(v) => v,
            Err(e) => return Err(SpanParseError::Io(e)),
        };
        let end_pos: u32 = match stream.read_u32_le() {
            Ok(v) => v,
            Err(e) => return Err(SpanParseError::Io(e)),
        };
        let it: u32 = match stream.read_u32_le() {
            Ok(v) => v,
            Err(e) => return Err(SpanParseError::Io(e)),
        };
        let interval_type: IntervalType = match IntervalType::try_from_u32(it) {
            Ok(v) => v,
            Err(e) => return Err(SpanParseError::IntervalTypes(e)),
        };
        let bytes: Vec<u8> = match stream.read_u8s((size - 16) as usize) {
            Ok(v) => v,
            Err(e) => return Err(SpanParseError::Io(e)),
        };
        Ok(Span { span_base: SpanBase { span_type, start_pos, end_pos, interval_type }, bytes })
    }
}

/// Failure to read a paragraph setting.
#[derive(Debug, Clone, Copy, PartialEq, Eq, Structural)]
pub enum ParagraphParseError {
    Io(IoError),
    ParagraphType(InvalidParagraphTypeError),
    /// The data size is smaller than the 12 bytes of the paragraph base.
    BadSize(u16),
}

/// What every paragraph setting has.
#[derive(Debug, Clone, Copy, PartialEq, Eq, Structural)]
pub struct ParagraphBase {
    pub paragraph_type: ParagraphType,
    pub start_pos: u32,
    pub end_pos: u32,
}

/// A setting of a run of paragraphs.
#[derive(Debug)]
pub struct Paragraph {
    pub paragraph_base: ParagraphBase,
    pub bytes: Vec<u8>,
}

pub struct ParagraphModel {
    pub paragraph_base: ParagraphBase,
    pub bytes: Seq<u8>,
}

impl View for Paragraph {
    type V = ParagraphModel;

    open spec fn view(&self) -> ParagraphModel {
        ParagraphModel { paragraph_base: self.paragraph_base, bytes: self.bytes@ }
    }
}

/// A paragraph setting: a `u16` data size (at least 12), the type, start and end (`u32` each),
/// then the remaining `size - 12` bytes.
pub open spec fn spec_paragraph(s: StreamModel) -> SpecRead<ParagraphModel> {
    match spec_u16(s) {
        Some((size, s1)) => if size < 12 {
            None
        } else {
            match spec_then(spec_u32(s1), |v: u32| spec_paragraph_type(v)) {
                Some((paragraph_type, s2)) => match spec_u32(s2) {
                    Some((start_pos, s3)) => match spec_u32(s3) {
                        Some((end_pos, s4)) => match spec_take(s4, size - 12) {
                            Some((bytes, s5)) => Some((ParagraphModel {
                                paragraph_base: ParagraphBase { paragraph_type, start_pos, end_pos },
                                bytes,
                            }, s5)),
                            None => None,
                        },
                        None => None,
                    },
                    None => None,
                },
                None => None,
            }
        },
        None => None,
    }
}

pub open spec fn paragraph_item() -> spec_fn(StreamModel) -> SpecRead<ParagraphModel> {
    |t: StreamModel| spec_paragraph(t)
}

impl Paragraph {
    pub fn try_parse(stream: &mut ByteStream) -> (r: Result<Paragraph, ParagraphParseError>)
        ensures
            match spec_paragraph(old(stream)@) {
                Some((m, s2)) => r matches Ok(v) && v@ == m && final(stream)@ == s2,
                None => r is Err,
            },
            final(stream)@.same_frame(old(stream)@),
    {
        let size: u16 = match stream.read_u16_le() {
            Ok(v) => v,
            Err(e) => return Err(ParagraphParseError::Io(e)),
        };
        // The paragraph base is 12 bytes.
        if size < 12 {
            return Err(ParagraphParseError::BadSize(size));
        }
        let t: u32 = match stream.read_u32_le() {
            Ok(v) => v,
            Err(e) => return Err(ParagraphParseError::Io(e)),
        };
        let paragraph_type: ParagraphType = match ParagraphType::try_from_u32(t) {
            Ok(v) => v,
            Err(e) => return Err(ParagraphParseError::ParagraphType(e)),
        };
        let start_pos: u32 = match stream.read_u32_le() {
            Ok(v) => v,
            Err(e) => return Err(ParagraphParseError::Io(e)),
        };
        let end_pos: u32 = match stream.read_u32_le() {
            Ok(v) => v,
            Err(e) => return Err(ParagraphParseError::Io(e)),
        };
        let bytes: Vec<u8> = match stream.read_u8s((size - 12) as usize) {
            Ok(v) => v,
            Err(e) => return Err(ParagraphParseError::Io(e)),
        };
        Ok(Paragraph { paragraph_base: ParagraphBase { paragraph_type, start_pos, end_pos }, bytes })
    }
}

/// Failure to read the text of a text box or shape.
#[derive(Debug)]
pub enum CommonParseError {
    Io(IoError),
    /// The main text could not be read.
    MainText(ReadStringError),
    /// An element count does not fit in `usize`.
    TooManyElements(u32),
    Span(SpanParseError),
    Paragraph(ParagraphParseError),
    BadGravityType(InvalidGravityError),
    /// An inline object's type does not fit in a byte.
    ObjectTypeTooBig(u32),
    /// Flags of the inline object list were set but not checked.
    UnhandledInlineObjectListFlags(UnhandledBitsError),
    /// An inline object could not be read. It may itself hold text, so the error is boxed.
    InlineObject(Box<DocObjectParseError>),
    BadLayoutOption(InvalidInTextLayoutOptionError),
    BadLayoutConstraint(InvalidInTextLayoutConstraintError),
    /// An inline object did not use all of its bytes.
    ObjectSpanUnfinished(UnfinishedParsingError),
    /// The object held by an inline object did not use all of its bytes.
    ObjectInObjectSpanUnfinished(UnfinishedParsingError),
    Unfinished(UnfinishedParsingError),
    /// Inline objects are nested more deeply than the library reads.
    NestingTooDeep,
}

/// What parsing text needs: the format version of the object that holds it, and the document.
pub struct CommonParseContext<'fr, 'sr> {
    pub format_version: u32,
    pub doc_ctx: DocumentContext<'fr, 'sr>,
}


fn read_span_item(r: &mut ByteStream) -> (res: Result<Span, CommonParseError>)
    ensures
        match spec_span(old(r)@) {
            Some((m, s2)) => res matches Ok(v) && v@ == m && final(r)@ == s2,
            None => res is Err,
        },
        final(r)@.same_frame(old(r)@),
{
    match Span::try_parse(r) {
        Ok(v) => Ok(v),
        Err(e) => Err(CommonParseError::Span(e)),
    }
}

fn read_paragraph_item(r: &mut ByteStream) -> (res: Result<Paragraph, CommonParseError>)
    ensures
        match spec_paragraph(old(r)@) {
            Some((m, s2)) => res matches Ok(v) && v@ == m && final(r)@ == s2,
            None => res is Err,
        },
        final(r)@.same_frame(old(r)@),
{
    match Paragraph::try_parse(r) {
        Ok(v) => Ok(v),
        Err(e) => Err(CommonParseError::Paragraph(e)),
    }
}

/// A section: two `u32`s.
pub open spec fn spec_section(s: StreamModel) -> SpecRead<(u32, u32)> {
    match spec_u32(s) {
        Some((a, s1)) => match spec_u32(s1) {
            Some((b, s2)) => Some(((a, b), s2)),
            None => None,
        },
        None => None,
    }
}

pub open spec fn section_item() -> spec_fn(StreamModel) -> SpecRead<(u32, u32)> {
    |t: StreamModel| spec_section(t)
}

fn read_section_item(r: &mut ByteStream) -> (res: Result<(u32, u32), CommonParseError>)
    ensures
        match spec_section(old(r)@) {
            Some((m, s2)) => res == Ok::<(u32, u32), CommonParseError>(m) && final(r)@ == s2,
            None => res is Err,
        },
        final(r)@.same_frame(old(r)@),
{
    let a: u32 = match r.read_u32_le() {
        Ok(v) => v,
        Err(e) => return Err(CommonParseError::Io(e)),
    };
    let b: u32 = match r.read_u32_le() {
        Ok(v) => v,
        Err(e) => return Err(CommonParseError::Io(e)),
    };
    Ok((a, b))
}

/// Reads `n` items.
fn read_spans_n(r: &mut ByteStream, n: u32) -> (res: Result<Vec<Span>, CommonParseError>)
    ensures
        match spec_repeat(old(r)@, n as nat, span_item()) {
            Some((vs, s2)) => res matches Ok(v) && crate::byte_stream::views(v@) == vs && final(r)@ == s2,
            None => res is Err,
        },
        final(r)@.same_frame(old(r)@),
{
    let ghost s0 = r@;
    let ghost item = span_item();
    let mut items: Vec<Span> = Vec::new();
    let mut i: u32 = 0;
    while i < n
        invariant
            i <= n,
            item == span_item(),
            s0 == old(r)@,
            r@.same_frame(s0),
            spec_repeat(s0, i as nat, item) matches Some((vs, st)) && crate::byte_stream::views(items@) == vs && r@ == st,
        decreases n - i,
    {
        let ghost before = r@;
        proof { assert(item(before) == span_item()(before)); }
        let x: Span = match read_span_item(r) {
            Ok(x) => x,
            Err(e) => {
                proof { lemma_repeat_fails(s0, (i + 1) as nat, n as nat, item); }
                return Err(e);
            },
        };
        let ghost old_items = items@;
        items.push(x);
        proof { assert(crate::byte_stream::views(items@) =~= crate::byte_stream::views(old_items).push(x@)); }
        i = i + 1;
    }
    Ok(items)
}

/// A `u32` count, then that many items.
fn read_spans(r: &mut ByteStream) -> (res: Result<Vec<Span>, CommonParseError>)
    ensures
        match spec_u32_counted(old(r)@, span_item()) {
            Some((vs, s2)) => res matches Ok(v) && crate::byte_stream::views(v@) == vs && final(r)@ == s2,
            None => res is Err,
        },
        final(r)@.same_frame(old(r)@),
{
    let n: u32 = match r.read_u32_le() {
        Ok(v) => v,
        Err(e) => return Err(CommonParseError::Io(e)),
    };
    read_spans_n(r, n)
}

/// Reads `n` items.
fn read_paragraphs_n(r: &mut ByteStream, n: u32) -> (res: Result<Vec<Paragraph>, CommonParseError>)
    ensures
        match spec_repeat(old(r)@, n as nat, paragraph_item()) {
            Some((vs, s2)) => res matches Ok(v) && crate::byte_stream::views(v@) == vs && final(r)@ == s2,
            None => res is Err,
        },
        final(r)@.same_frame(old(r)@),
{
    let ghost s0 = r@;
    let ghost item = paragraph_item();
    let mut items: Vec<Paragraph> = Vec::new();
    let mut i: u32 = 0;
    while i < n
        invariant
            i <= n,
            item == paragraph_item(),
            s0 == old(r)@,
            r@.same_frame(s0),
            spec_repeat(s0, i as nat, item) matches Some((vs, st)) && crate::byte_stream::views(items@) == vs && r@ == st,
        decreases n - i,
    {
        let ghost before = r@;
        proof { assert(item(before) == paragraph_item()(before)); }
        let x: Paragraph = match read_paragraph_item(r) {
            Ok(x) => x,
            Err(e) => {
                proof { lemma_repeat_fails(s0, (i + 1) as nat, n as nat, item); }
                return Err(e);
            },
        };
        let ghost old_items = items@;
        items.push(x);
        proof { assert(crate::byte_stream::views(items@) =~= crate::byte_stream::views(old_items).push(x@)); }
        i = i + 1;
    }
    Ok(items)
}

/// A `u32` count, then that many items.
fn read_paragraphs(r: &mut ByteStream) -> (res: Result<Vec<Paragraph>, CommonParseError>)
    ensures
        match spec_u32_counted(old(r)@, paragraph_item()) {
            Some((vs, s2)) => res matches Ok(v) && crate::byte_stream::views(v@) == vs && final(r)@ == s2,
            None => res is Err,
        },
        final(r)@.same_frame(old(r)@),
{
    let n: u32 = match r.read_u32_le() {
        Ok(v) => v,
        Err(e) => return Err(CommonParseError::Io(e)),
    };
    read_paragraphs_n(r, n)
}

/// Reads `n` items.
fn read_sections_n(r: &mut ByteStream, n: u16) -> (res: Result<Vec<(u32, u32)>, CommonParseError>)
    ensures
        match spec_repeat(old(r)@, n as nat, section_item()) {
            Some((vs, s2)) => res matches Ok(v) && v@ == vs && final(r)@ == s2,
            None => res is Err,
        },
        final(r)@.same_frame(old(r)@),
{
    let ghost s0 = r@;
    let ghost item = section_item();
    let mut items: Vec<(u32, u32)> = Vec::new();
    let mut i: u16 = 0;
    while i < n
        invariant
            i <= n,
            item == section_item(),
            s0 == old(r)@,
            r@.same_frame(s0),
            spec_repeat(s0, i as nat, item) matches Some((vs, st)) && items@ == vs && r@ == st,
        decreases n - i,
    {
        let ghost before = r@;
        proof { assert(item(before) == section_item()(before)); }
        let x: (u32, u32) = match read_section_item(r) {
            Ok(x) => x,
            Err(e) => {
                proof { lemma_repeat_fails(s0, (i + 1) as nat, n as nat, item); }
                return Err(e);
            },
        };
        items.push(x);
        i = i + 1;
    }
    Ok(items)
}

/// A `u16` count, then that many items.
fn read_sections(r: &mut ByteStream) -> (res: Result<Vec<(u32, u32)>, CommonParseError>)
    ensures
        match spec_u16_counted(old(r)@, section_item()) {
            Some((vs, s2)) => res matches Ok(v) && v@ == vs && final(r)@ == s2,
            None => res is Err,
        },
        final(r)@.same_frame(old(r)@),
{
    let n: u16 = match r.read_u16_le() {
        Ok(v) => v,
        Err(e) => return Err(CommonParseError::Io(e)),
    };
    read_sections_n(r, n)
}


/// The fields of text before its inline objects: the characters, spans, paragraph settings, margins, gravity and sections.
#[verifier::opaque]
pub open spec fn spec_common_head(s: StreamModel) -> SpecRead<(Seq<char>, Seq<SpanModel>, Seq<ParagraphModel>, RawF32, RawF32, RawF32, RawF32, Gravity, Seq<(u32, u32)>)> {
    match spec_str_opt(spec_long_u16_string(s)) {
        Some((text, s1)) => 
        match spec_u32_counted(s1, span_item()) {
            Some((spans, s2)) => 
            match spec_u32_counted(s2, paragraph_item()) {
                Some((paragraphs, s3)) => 
                match spec_f32(s3) {
                    Some((left_margin, s4)) => 
                    match spec_f32(s4) {
                        Some((top_margin, s5)) => 
                        match spec_f32(s5) {
                            Some((right_margin, s6)) => 
                            match spec_f32(s6) {
                                Some((bottom_margin, s7)) => 
                                match spec_then(spec_u8(s7), |v: u8| spec_gravity(v)) {
                                    Some((gravity, s8)) => 
                                    match spec_u16_counted(s8, section_item()) {
                                        Some((section_data, s9)) => Some(((text, spans, paragraphs, left_margin, top_margin, right_margin, bottom_margin, gravity, section_data), s9)),
                                        None => None,
                                    },
                                    None => None,
                                },
                                None => None,
                            },
                            None => None,
                        },
                        None => None,
                    },
                    None => None,
                },
                None => None,
            },
            None => None,
        },
        None => None,
    }
}

#[verifier::rlimit(60)]
fn read_common_head(r: &mut ByteStream) -> (res: Result<(String, Vec<Span>, Vec<Paragraph>, RawF32, RawF32, RawF32, RawF32, Gravity, Vec<(u32, u32)>), CommonParseError>)
    ensures
        match spec_common_head(old(r)@) {
            Some((m, s2)) => res matches Ok(v) && v.0@ == m.0
                && views(v.1@) == m.1
                && views(v.2@) == m.2
                && v.3 == m.3
                && v.4 == m.4
                && v.5 == m.5
                && v.6 == m.6
                && v.7 == m.7
                && v.8@ == m.8
                && final(r)@ == s2,
            None => res is Err,
        },
        final(r)@.same_frame(old(r)@),
{
    reveal(spec_common_head);
    let text: String = match r.read_long_u16_string() {
            Ok(v) => v,
            Err(e) => return Err(CommonParseError::MainText(e)),
        };
    let spans: Vec<Span> = match read_spans(r) {
            Ok(v) => v,
            Err(e) => return Err(e),
        };
    let paragraphs: Vec<Paragraph> = match read_paragraphs(r) {
            Ok(v) => v,
            Err(e) => return Err(e),
        };
    let left_margin: RawF32 = match r.read_f32_le() {
            Ok(v) => v,
            Err(e) => return Err(CommonParseError::Io(e)),
        };
    let top_margin: RawF32 = match r.read_f32_le() {
            Ok(v) => v,
            Err(e) => return Err(CommonParseError::Io(e)),
        };
    let right_margin: RawF32 = match r.read_f32_le() {
            Ok(v) => v,
            Err(e) => return Err(CommonParseError::Io(e)),
        };
    let bottom_margin: RawF32 = match r.read_f32_le() {
            Ok(v) => v,
            Err(e) => return Err(CommonParseError::Io(e)),
        };
    let gravity: Gravity = {
            let raw = match r.read_u8() {
            Ok(v) => v,
            Err(e) => return Err(CommonParseError::Io(e)),
        };
            match Gravity::try_from_u8(raw) {
                Ok(v) => v,
                Err(e) => return Err(CommonParseError::BadGravityType(e)),
            }
        };
    let section_data: Vec<(u32, u32)> = match read_sections(r) {
            Ok(v) => v,
            Err(e) => return Err(e),
        };
    Ok((text, spans, paragraphs, left_margin, top_margin, right_margin, bottom_margin, gravity, section_data))
}


/// An object placed in text.
#[derive(Debug)]
pub struct InlineObject {
    pub index_in_text: u32,
    pub layout_option: Option<InTextLayoutOption>,
    pub layout_constraint: Option<InTextLayoutConstraint>,
    pub object: DocObject,
}

pub struct InlineObjectModel {
    pub index_in_text: u32,
    pub layout_option: Option<InTextLayoutOption>,
    pub layout_constraint: Option<InTextLayoutConstraint>,
    pub object: DocObjectModel,
}

/// The text of a text box or shape.
#[derive(Debug)]
pub struct Common {
    pub text: String,
    pub spans: Vec<Span>,
    pub paragraphs: Vec<Paragraph>,
    pub left_margin: RawF32,
    pub top_margin: RawF32,
    pub right_margin: RawF32,
    pub bottom_margin: RawF32,
    pub gravity: Gravity,
    pub section_data: Vec<(u32, u32)>,
    /// Also known as object spans, though they are not really spans.
    pub inline_objects: Vec<InlineObject>,
}

pub struct CommonModel {
    pub text: Seq<char>,
    pub spans: Seq<SpanModel>,
    pub paragraphs: Seq<ParagraphModel>,
    pub left_margin: RawF32,
    pub top_margin: RawF32,
    pub right_margin: RawF32,
    pub bottom_margin: RawF32,
    pub gravity: Gravity,
    pub section_data: Seq<(u32, u32)>,
    pub inline_objects: Seq<InlineObjectModel>,
}

/// The model of an inline object, whose object is read within `depth` levels of nesting.
#[verifier::opaque]
pub open spec fn inline_object_model(o: &InlineObject, depth: nat) -> InlineObjectModel
    decreases depth, 1nat, 0nat,
{
    InlineObjectModel {
        index_in_text: o.index_in_text,
        layout_option: o.layout_option,
        layout_constraint: o.layout_constraint,
        object: if depth == 0 {
            arbitrary()
        } else {
            doc_object_model(&o.object, (depth - 1) as nat)
        },
    }
}

/// The models of the first `n` inline objects of `v`.
pub open spec fn inline_objects_model(v: Seq<InlineObject>, depth: nat, n: nat) -> Seq<InlineObjectModel>
    decreases depth, 2nat, n,
{
    if n == 0 || n > v.len() {
        Seq::empty()
    } else {
        inline_objects_model(v, depth, (n - 1) as nat).push(inline_object_model(&v[n - 1], depth))
    }
}

/// The model of text whose inline objects are read within `depth` levels of nesting.
#[verifier::opaque]
pub open spec fn common_model(c: &Common, depth: nat) -> CommonModel
    decreases depth, 4nat, 0nat,
{
    CommonModel {
        text: c.text@,
        spans: views(c.spans@),
        paragraphs: views(c.paragraphs@),
        left_margin: c.left_margin,
        top_margin: c.top_margin,
        right_margin: c.right_margin,
        bottom_margin: c.bottom_margin,
        gravity: c.gravity,
        section_data: c.section_data@,
        inline_objects: inline_objects_model(c.inline_objects@, depth, c.inline_objects@.len()),
    }
}

/// Appending an inline object appends its model.
pub proof fn lemma_inline_objects_model_push(v: Seq<InlineObject>, x: InlineObject, depth: nat)
    ensures
        inline_objects_model(v.push(x), depth, v.len() + 1)
            == inline_objects_model(v, depth, v.len()).push(inline_object_model(&x, depth)),
{
    reveal(inline_object_model);
    lemma_inline_objects_model_prefix(v, x, depth, v.len());
    assert(v.push(x)[v.len() as int] == x);
}

proof fn lemma_inline_objects_model_prefix(v: Seq<InlineObject>, x: InlineObject, depth: nat, n: nat)
    requires
        n <= v.len(),
    ensures
        inline_objects_model(v.push(x), depth, n) == inline_objects_model(v, depth, n),
    decreases n,
{
    if n > 0 {
        lemma_inline_objects_model_prefix(v, x, depth, (n - 1) as nat);
        assert(v.push(x)[n - 1] == v[n - 1]);
    }
}

/// An inline object: a `u32` size and a window of that many bytes, holding the object's size
/// `n` (`u32`), its type (a `u32` of at most 255), the object itself (a window of `n` bytes,
/// read as a document object of that type one level deeper, and used fully), its index in the
/// text, then, if bytes remain, a layout option and, if bytes still remain, a layout
/// constraint, and nothing more. Nothing is read beyond `depth` levels of nesting.
#[verifier::opaque]
pub open spec fn spec_inline_object(s: StreamModel, depth: nat) -> SpecRead<InlineObjectModel>
    decreases depth, 1nat, 0nat,
{
    if depth == 0 {
        None
    } else {
        match spec_exclusive_window(s) {
            Some((w, s1)) => match spec_u32(w) {
                Some((obj_size, w1)) => match spec_u32(w1) {
                    Some((t, w2)) => if t > 255 {
                        None
                    } else {
                        match spec_blind_window(w2, obj_size as int) {
                            Some(inner) => match spec_doc_object(inner, t as u8, (depth - 1) as nat) {
                                Some((object, inner2)) => if inner2.remaining() != 0 {
                                    None
                                } else {
                                    spec_inline_object_tail(spec_continue(w2, inner2), s1, object)
                                },
                                None => None,
                            },
                            None => None,
                        }
                    },
                    None => None,
                },
                None => None,
            },
            None => None,
        }
    }
}

/// The fields of an inline object after its object, in its window `w`; `s1` is the outer
/// stream, which continues where the window ends.
pub open spec fn spec_inline_object_tail(w: StreamModel, s1: StreamModel, object: DocObjectModel) -> SpecRead<InlineObjectModel> {
    match spec_u32(w) {
        Some((index_in_text, w1)) => match spec_opt(w1.remaining() > 0, spec_then(spec_u32(w1), |v: u32| spec_in_text_layout_option(v)), w1) {
            Some((layout_option, w2)) => match spec_opt(w2.remaining() > 0, spec_then(spec_u32(w2), |v: u32| spec_in_text_layout_constraint(v)), w2) {
                Some((layout_constraint, w3)) => if w3.remaining() == 0 {
                    Some((InlineObjectModel { index_in_text, layout_option, layout_constraint, object }, spec_continue(s1, w3)))
                } else {
                    None
                },
                None => None,
            },
            None => None,
        },
        None => None,
    }
}

/// `n` inline objects, one after the other.
pub open spec fn spec_inline_objects(s: StreamModel, depth: nat, n: nat) -> SpecRead<Seq<InlineObjectModel>>
    decreases depth, 2nat, n,
{
    if n == 0 {
        Some((Seq::empty(), s))
    } else {
        match spec_inline_objects(s, depth, (n - 1) as nat) {
            Some((vs, s2)) => match spec_inline_object(s2, depth) {
                Some((v, s3)) => Some((vs.push(v), s3)),
                None => None,
            },
            None => None,
        }
    }
}

/// The inline objects of text, which only documents of format 2035 or later have: two `u32`
/// flag words (bit 0 of the first says whether objects follow; no other bit may be set), then,
/// if objects follow, a `u32` count and the objects.
pub open spec fn spec_inline_object_list(s: StreamModel, format_version: u32, depth: nat) -> SpecRead<Seq<InlineObjectModel>>
    decreases depth, 3nat, 0nat,
{
    if format_version < 2035 {
        Some((Seq::empty(), s))
    } else {
        match spec_u32(s) {
            Some((f1, s1)) => if f1 & !1u32 != 0 {
                None
            } else {
                match spec_u32(s1) {
                    Some((f2, s2)) => if f2 != 0 {
                        None
                    } else if bit_is_set(f1, 0) {
                        match spec_u32(s2) {
                            Some((n, s3)) => spec_inline_objects(s3, depth, n as nat),
                            None => None,
                        }
                    } else {
                        Some((Seq::empty(), s2))
                    },
                    None => None,
                }
            },
            None => None,
        }
    }
}

/// Text: a `u32` size and a window of that many bytes, holding the fields before the inline
/// objects, then the inline objects, and nothing more.
#[verifier::opaque]
pub open spec fn spec_common(s: StreamModel, format_version: u32, depth: nat) -> SpecRead<CommonModel>
    decreases depth, 4nat, 0nat,
{
    match spec_exclusive_window(s) {
        Some((w, s1)) => match spec_common_head(w) {
            Some((h, w1)) => match spec_inline_object_list(w1, format_version, depth) {
                Some((inline_objects, w2)) => if w2.remaining() == 0 {
                    Some((CommonModel {
                        text: h.0,
                        spans: h.1,
                        paragraphs: h.2,
                        left_margin: h.3,
                        top_margin: h.4,
                        right_margin: h.5,
                        bottom_margin: h.6,
                        gravity: h.7,
                        section_data: h.8,
                        inline_objects,
                    }, spec_continue(s1, w2)))
                } else {
                    None
                },
                None => None,
            },
            None => None,
        },
        None => None,
    }
}

impl Common {
    #[verifier::rlimit(100)]
    #[verifier::spinoff_prover]
    fn read_inline_object(r: &mut ByteStream, doc_ctx: DocumentContext, depth: u32) -> (res: Result<InlineObject, CommonParseError>)
        ensures
            match spec_inline_object(old(r)@, depth as nat) {
                Some((m, s2)) => res matches Ok(v) && inline_object_model(&v, depth as nat) == m && final(r)@ == s2,
                None => res is Err,
            },
            final(r)@.same_frame(old(r)@),
        decreases depth, 1nat,
    {
        proof {
            reveal(spec_inline_object);
            reveal(inline_object_model);
        }
        if depth == 0 {
            return Err(CommonParseError::NestingTooDeep);
        }
        let mut w: ByteStream = match r.exclusive_blind_window() {
            Ok(w) => w,
            Err(e) => return Err(CommonParseError::Io(e)),
        };
        let obj_size: u32 = match w.read_u32_le() {
            Ok(v) => v,
            Err(e) => return Err(CommonParseError::Io(e)),
        };
        let t: u32 = match w.read_u32_le() {
            Ok(v) => v,
            Err(e) => return Err(CommonParseError::Io(e)),
        };
        if t > 255 {
            return Err(CommonParseError::ObjectTypeTooBig(t));
        }
        let mut inner: ByteStream = match w.blind_window(obj_size as u64) {
            Ok(v) => v,
            Err(e) => return Err(CommonParseError::Io(e)),
        };
        let object: DocObject = match DocObject::parse_nested(&mut inner, &DocObjectParseContext { object_type: t as u8, doc_ctx }, depth - 1) {
            Ok(v) => v,
            Err(e) => return Err(CommonParseError::InlineObject(Box::new(e))),
        };
        if let Err(e) = inner.ensure_eof() {
            return Err(CommonParseError::ObjectSpanUnfinished(e));
        }
        proof { use_type_invariant(&w); use_type_invariant(&inner); }
        w.continue_after(&inner);
        let index_in_text: u32 = match w.read_u32_le() {
            Ok(v) => v,
            Err(e) => return Err(CommonParseError::Io(e)),
        };
        let layout_option: Option<InTextLayoutOption> = if w.n_remaining() > 0 {
            let v: u32 = match w.read_u32_le() {
                Ok(v) => v,
                Err(e) => return Err(CommonParseError::Io(e)),
            };
            match InTextLayoutOption::try_from_u32(v) {
                Ok(o) => Some(o),
                Err(e) => return Err(CommonParseError::BadLayoutOption(e)),
            }
        } else {
            None
        };
        let layout_constraint: Option<InTextLayoutConstraint> = if w.n_remaining() > 0 {
            let v: u32 = match w.read_u32_le() {
                Ok(v) => v,
                Err(e) => return Err(CommonParseError::Io(e)),
            };
            match InTextLayoutConstraint::try_from_u32(v) {
                Ok(o) => Some(o),
                Err(e) => return Err(CommonParseError::BadLayoutConstraint(e)),
            }
        } else {
            None
        };
        if let Err(e) = w.ensure_eof() {
            return Err(CommonParseError::ObjectSpanUnfinished(e));
        }
        proof { use_type_invariant(&*r); use_type_invariant(&w); }
        r.continue_after(&w);
        Ok(InlineObject { index_in_text, layout_option, layout_constraint, object })
    }

    fn read_inline_objects(r: &mut ByteStream, doc_ctx: DocumentContext, depth: u32, n: u32) -> (res: Result<Vec<InlineObject>, CommonParseError>)
        ensures
            match spec_inline_objects(old(r)@, depth as nat, n as nat) {
                Some((m, s2)) => res matches Ok(v) && inline_objects_model(v@, depth as nat, v@.len()) == m && final(r)@ == s2,
                None => res is Err,
            },
            final(r)@.same_frame(old(r)@),
        decreases depth, 2nat,
    {
        let ghost s0 = r@;
        let mut items: Vec<InlineObject> = Vec::new();
        let mut i: u32 = 0;
        while i < n
            invariant
                i <= n,
                s0 == old(r)@,
                r@.same_frame(s0),
                spec_inline_objects(s0, depth as nat, i as nat) == Some((inline_objects_model(items@, depth as nat, items@.len()), r@)),
            decreases n - i,
        {
            proof {
                reveal(spec_inline_object);
            }
            let x: InlineObject = match Common::read_inline_object(r, doc_ctx, depth) {
                Ok(x) => x,
                Err(e) => {
                    proof { lemma_inline_objects_fail(s0, depth as nat, (i + 1) as nat, n as nat); }
                    return Err(e);
                },
            };
            proof { lemma_inline_objects_model_push(items@, x, depth as nat); }
            items.push(x);
            i = i + 1;
        }
        Ok(items)
    }

    fn read_inline_object_list(r: &mut ByteStream, doc_ctx: DocumentContext, format_version: u32, depth: u32) -> (res: Result<Vec<InlineObject>, CommonParseError>)
        ensures
            match spec_inline_object_list(old(r)@, format_version, depth as nat) {
                Some((m, s2)) => res matches Ok(v) && inline_objects_model(v@, depth as nat, v@.len()) == m && final(r)@ == s2,
                None => res is Err,
            },
            final(r)@.same_frame(old(r)@),
        decreases depth, 3nat,
    {
        if format_version < 2035 {
            return Ok(Vec::new());
        }
        let f1: u32 = match r.read_u32_le() {
            Ok(v) => v,
            Err(e) => return Err(CommonParseError::Io(e)),
        };
        let mut flags: CheckedBitfield = CheckedBitfield::from_bits(f1);
        let any_present: bool = flags.check_bit(0);
        proof {
            let c = flags.checked();
            assert(c == 1u32) by (bit_vector)
                requires
                    c == 0u32 | (1u32 << 0u8),
            ;
        }
        if let Err(e) = flags.ensure_none_set_unchecked() {
            return Err(CommonParseError::UnhandledInlineObjectListFlags(e));
        }
        // The flags are 64 bits really; none of the second half may be set.
        let f2: u32 = match r.read_u32_le() {
            Ok(v) => v,
            Err(e) => return Err(CommonParseError::Io(e)),
        };
        proof { crate::bits::lemma_and_not_zero(f2); }
        if let Err(e) = CheckedBitfield::from_bits(f2).ensure_none_set_unchecked() {
            return Err(CommonParseError::UnhandledInlineObjectListFlags(e));
        }
        if !any_present {
            return Ok(Vec::new());
        }
        let n: u32 = match r.read_u32_le() {
            Ok(v) => v,
            Err(e) => return Err(CommonParseError::Io(e)),
        };
        Common::read_inline_objects(r, doc_ctx, depth, n)
    }

    /// Reads text whose inline objects may nest `depth` more levels.
    #[verifier::rlimit(100)]
    #[verifier::spinoff_prover]
    pub fn parse_nested(r: &mut ByteStream, ctx: &CommonParseContext, depth: u32) -> (res: Result<Common, CommonParseError>)
        ensures
            match spec_common(old(r)@, ctx.format_version, depth as nat) {
                Some((m, s2)) => res matches Ok(v) && common_model(&v, depth as nat) == m && final(r)@ == s2,
                None => res is Err,
            },
            final(r)@.same_frame(old(r)@),
        decreases depth, 4nat,
    {
        proof {
            reveal(spec_common);
            reveal(common_model);
        }
        let mut w: ByteStream = match r.exclusive_blind_window() {
            Ok(w) => w,
            Err(e) => return Err(CommonParseError::Io(e)),
        };
        let h = read_common_head(&mut w)?;
        let inline_objects: Vec<InlineObject> = Common::read_inline_object_list(&mut w, ctx.doc_ctx, ctx.format_version, depth)?;
        if let Err(e) = w.ensure_eof() {
            return Err(CommonParseError::Unfinished(e));
        }
        proof { use_type_invariant(&*r); use_type_invariant(&w); }
        r.continue_after(&w);
        let c = Common {
            text: h.0,
            spans: h.1,
            paragraphs: h.2,
            left_margin: h.3,
            top_margin: h.4,
            right_margin: h.5,
            bottom_margin: h.6,
            gravity: h.7,
            section_data: h.8,
            inline_objects,
        };
        Ok(c)
    }

    pub fn raw_string(&self) -> (r: &str)
        ensures
            r@ == self.text@,
    {
        self.text.as_str()
    }
}

/// Once reading inline objects fails, reading more fails too.
proof fn lemma_inline_objects_fail(s: StreamModel, depth: nat, m: nat, n: nat)
    requires
        spec_inline_objects(s, depth, m) is None,
        m <= n,
    ensures
        spec_inline_objects(s, depth, n) is None,
    decreases n - m,
{
    reveal(spec_inline_object);
    if m < n {
        lemma_inline_objects_fail(s, depth, m, (n - 1) as nat);
    }
}


/// A span's type is given by the `u32` that follows its `u16` size; its start position is the
/// `u32` after that, its end position the next `u32`, and its interval type the one after.
pub proof fn lemma_span_positions(s: StreamModel)
    requires
        spec_span(s) is Some,
    ensures
        spec_u32(s.with_pos(s.pos + 2)) matches Some((t, _)) && spec_span_type(t) == Some(spec_span(s)->Some_0.0.span_base.span_type),
        spec_u32(s.with_pos(s.pos + 14)) matches Some((i, _)) && spec_interval_type(i) == Some(spec_span(s)->Some_0.0.span_base.interval_type),
        spec_u32(s.with_pos(s.pos + 6)) matches Some((start, _)) && start == spec_span(s)->Some_0.0.span_base.start_pos,
        spec_u32(s.with_pos(s.pos + 10)) matches Some((end, _)) && end == spec_span(s)->Some_0.0.span_base.end_pos,
{
}

} // verus!
