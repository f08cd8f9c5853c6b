//! Shapes, and the shape data that text boxes and images build on.
use vstd::prelude::*;

use crate::bits::{bit_is_set, CheckedBitfield};
use crate::byte_stream::{
    lemma_repeat_fails, opt_view, spec_bitfield, spec_blind_window, spec_continue, spec_f32,
    spec_bool_u8, spec_i16, spec_i32, spec_opt, spec_opt_or, spec_repeat, spec_short_u16_string, spec_skip_r,
    spec_str_opt, spec_take, spec_then, spec_u16, spec_u32, spec_u8, spec_u8_counted, views,
    ByteStream, ExactSizedStream, IoError, RawF32, ReadBitfieldError, ReadStringError, SpecRead,
    StreamModel, UnfinishedParsingError,
};
use crate::byte_stream::TryParse;
use crate::context::{DocumentContext, TryParseWithContext};
use crate::page::object::base::{spec_flex, ObjectBase};
use crate::page::object::header::{spec_object_header, spec_object_header_error, ObjectHeader, ObjectHeaderError};
use crate::page::object::shape_base::{point_item, spec_shape_base, ShapeBase, ShapeBaseModel, ShapeBaseParseError};
use crate::page::object::text_core::{common_model, spec_common, Common, CommonModel, CommonParseContext, CommonParseError};
use crate::page::object::NESTING_LIMIT;
use crate::page::object::shared::{
    spec_path, spec_point, spec_rect, Path, PathParseError, PathSegment, Point, Rect,
    gradient_colour_item, read_gradient_colours, spec_gradient_type, spec_point_f32,
    spec_rect_f32, spec_rect_i32, ColourType, GradientColour, GradientColourModel, GradientType,
    PointF32, RectF32, RectI32,
};

verus! {

/// The kind of a shape.
#[derive(Debug, Clone, Copy, PartialEq, Eq, Structural)]
pub enum ShapeType {
    /// `TYPE_UNKNOWN`
    Unknown,
    /// `TYPE_OVAL`
    Oval,
    /// `TYPE_TRIANGLE`
    Triangle,
    /// `TYPE_RIGHT_TRIANGLE`
    RightTriangle,
    /// `TYPE_RECTANGLE`
    Rectangle,
    /// `TYPE_ROUNDED_RECTANGLE`
    RoundedRectangle,
    /// `TYPE_HEXAGON`
    Hexagon,
    /// `TYPE_PARALLELOGRAM`
    Parallelogram,
    /// `TYPE_DIAMOND`
    Diamond,
    /// `TYPE_TRAPEZOID`
    Trapezoid,
    /// `TYPE_PENTAGON`
    Pentagon,
    /// `TYPE_REGULAR_PENTAGON`
    RegularPentagon,
    /// `TYPE_4_POINT_STAR`
    Star4,
    /// `TYPE_5_POINT_STAR`
    Star5,
    /// `TYPE_8_POINT_STAR`
    Star8,
    /// `TYPE_10_POINT_STAR`
    Star10,
    /// `TYPE_32_POINT_STAR`
    Star32,
    /// `TYPE_CROSS`
    Cross,
    /// `TYPE_L_SHAPE`
    LShape,
    /// `TYPE_CHEVRON`
    Chevron,
    /// `TYPE_ARC`
    Arc,
    /// `TYPE_MOON`
    Moon,
    /// `TYPE_SMILEY_FACE`
    SmileyFace,
    /// `TYPE_HEART`
    Heart,
    /// `TYPE_PIE`
    Pie,
    /// `TYPE_CHORD`
    Chord,
    /// `TYPE_CAN`
    Can,
    /// `TYPE_CUBE`
    Cube,
    /// `TYPE_EXPLOSION_1`
    Explosion1,
    /// `TYPE_EXPLOSION_2`
    Explosion2,
    /// `TYPE_FOLDED_CORNER`
    FoldedCorner,
    /// `TYPE_LIGHTNING_BOLT`
    LightningBolt,
    /// `TYPE_PLAQUE`
    Plaque,
    /// `TYPE_UP_RIBBON`
    Ribbon,
    /// `TYPE_DOWN_RIBBON`
    DownRibbon,
    /// `TYPE_DONUT`
    Donut,
    /// `TYPE_NO_SYMBOL`
    NoSymbol,
    /// `TYPE_HORIZONTAL_SCROLL`
    HorizontalScroll,
    /// `TYPE_VERTICAL_SCROLL`
    VerticalScroll,
    /// `TYPE_BLOCK_ARC`
    BlockArc,
    /// `TYPE_BEVEL`
    Bevel,
    /// `TYPE_SUN`
    Sun,
    /// `TYPE_WAVE`
    Wave,
    /// `TYPE_DOUBLE_WAVE`
    DoubleWave,
    /// `TYPE_LEFT_ARROW`
    LeftArrow,
    /// `TYPE_RIGHT_ARROW`
    RightArrow,
    /// `TYPE_UP_ARROW`
    UpArrow,
    /// `TYPE_DOWN_ARROW`
    DownArrow,
    /// `TYPE_LEFT_RIGHT_ARROW`
    LeftRightArrow,
    /// `TYPE_UP_DOWN_ARROW`
    UpDownArrow,
    /// `TYPE_LEFT_UP_ARROW`
    LeftUpArrow,
    /// `TYPE_LEFT_RIGHT_UP_ARROW`
    LeftRightUpArrow,
    /// `TYPE_QUAD_ARROW`
    QuadArrow,
    /// `TYPE_BENT_ARROW`
    BentArrow,
    /// `TYPE_BENT_UP_ARROW`
    BentUpArrow,
    /// `TYPE_CURVED_LEFT_ARROW`
    CurvedLeftArrow,
    /// `TYPE_CURVED_RIGHT_ARROW`
    CurvedRightArrow,
    /// `TYPE_CURVED_UP_ARROW`
    CurvedUpArrow,
    /// `TYPE_CURVED_DOWN_ARROW`
    CurvedDownArrow,
    /// `TYPE_STRIPED_RIGHT_ARROW`
    StripedRightArrow,
    /// `TYPE_NOTCHED_RIGHT_ARROW`
    NotchedRightArrow,
    /// `TYPE_U_TURN_ARROW`
    UTurnArrow,
    /// `TYPE_CIRCULAR_ARROW`
    CircularArrow,
    /// `TYPE_FLOWCHART_MANUAL_INPUT`
    FlowchartManualInput,
    /// `TYPE_FLOWCHART_TERMINATOR`
    FlowchartTerminator,
    /// `TYPE_FLOWCHART_PREDEFINED_PROCESS`
    FlowchartPredefinedProcess,
    /// `TYPE_FLOWCHART_STORED_DATA`
    FlowchartStoredData,
    /// `TYPE_FLOWCHART_DELAY`
    FlowchartDelay,
    /// `TYPE_FLOWCHART_CARD`
    FlowchartCard,
    /// `TYPE_FLOWCHART_OFF_PAGE_CONNECTOR`
    FlowchartOffPageConnector,
    /// `TYPE_FLOWCHART_DISPLAY`
    FlowchartDisplay,
    /// `TYPE_FLOWCHART_DOCUMENT`
    FlowchartDocument,
    /// `TYPE_FLOWCHART_PUNCHED_TAPE`
    FlowchartPunchedTape,
    /// `TYPE_FLOWCHART_SEQUENTIAL_ACCESS_STORAGE`
    FlowchartSequentialAccessStorage,
    /// `TYPE_LEFT_BRACE`
    LeftBrace,
    /// `TYPE_RIGHT_BRACE`
    RightBrace,
    /// `TYPE_LEFT_BRACKET`
    LeftBracket,
    /// `TYPE_RIGHT_BRACKET`
    RightBracket,
    /// `TYPE_RECTANGULAR_CALLOUT`
    RectangularCallout,
    /// `TYPE_ROUNDED_RECTANGULAR_CALLOUT`
    RoundedRectangularCallout,
    /// `TYPE_OVAL_CALLOUT`
    OvalCallout,
    /// `TYPE_LEFT_ARROW_CALLOUT`
    LeftArrowCallout,
    /// `TYPE_UP_ARROW_CALLOUT`
    UpArrowCallout,
    /// `TYPE_RIGHT_ARROW_CALLOUT`
    RightArrowCallout,
    /// `TYPE_DOWN_ARROW_CALLOUT`
    DownArrowCallout,
    /// `TYPE_LEFT_RIGHT_ARROW_CALLOUT`
    LeftRightArrowCallout,
    /// `TYPE_UP_DOWN_ARROW_CALLOUT`
    UpDownArrowCallout,
    /// `TYPE_QUAD_ARROW_CALLOUT`
    QuadArrowCallout,
    /// `TYPE_POLYLINE`
    Polyline,
    /// `TYPE_POLYGON`
    Polygon,
    /// `TYPE_CURVE`
    Curve,
}

/// The value is not that of a `ShapeType`.
#[derive(Debug, Clone, Copy, PartialEq, Eq, Structural)]
pub struct InvalidShapeTypeError {
    pub bad_value: u32,
}

/// The `ShapeType` that `v` stands for: 0 to 90 in declaration order.
pub open spec fn spec_shape_type(v: u32) -> Option<ShapeType> {
    if v == 0 {
        Some(ShapeType::Unknown)
    } else if v == 1 {
        Some(ShapeType::Oval)
    } else if v == 2 {
        Some(ShapeType::Triangle)
    } else if v == 3 {
        Some(ShapeType::RightTriangle)
    } else if v == 4 {
        Some(ShapeType::Rectangle)
    } else if v == 5 {
        Some(ShapeType::RoundedRectangle)
    } else if v == 6 {
        Some(ShapeType::Hexagon)
    } else if v == 7 {
        Some(ShapeType::Parallelogram)
    } else if v == 8 {
        Some(ShapeType::Diamond)
    } else if v == 9 {
        Some(ShapeType::Trapezoid)
    } else if v == 10 {
        Some(ShapeType::Pentagon)
    } else if v == 11 {
        Some(ShapeType::RegularPentagon)
    } else if v == 12 {
        Some(ShapeType::Star4)
    } else if v == 13 {
        Some(ShapeType::Star5)
    } else if v == 14 {
        Some(ShapeType::Star8)
    } else if v == 15 {
        Some(ShapeType::Star10)
    } else if v == 16 {
        Some(ShapeType::Star32)
    } else if v == 17 {
        Some(ShapeType::Cross)
    } else if v == 18 {
        Some(ShapeType::LShape)
    } else if v == 19 {
        Some(ShapeType::Chevron)
    } else if v == 20 {
        Some(ShapeType::Arc)
    } else if v == 21 {
        Some(ShapeType::Moon)
    } else if v == 22 {
        Some(ShapeType::SmileyFace)
    } else if v == 23 {
        Some(ShapeType::Heart)
    } else if v == 24 {
        Some(ShapeType::Pie)
    } else if v == 25 {
        Some(ShapeType::Chord)
    } else if v == 26 {
        Some(ShapeType::Can)
    } else if v == 27 {
        Some(ShapeType::Cube)
    } else if v == 28 {
        Some(ShapeType::Explosion1)
    } else if v == 29 {
        Some(ShapeType::Explosion2)
    } else if v == 30 {
        Some(ShapeType::FoldedCorner)
    } else if v == 31 {
        Some(ShapeType::LightningBolt)
    } else if v == 32 {
        Some(ShapeType::Plaque)
    } else if v == 33 {
        Some(ShapeType::Ribbon)
    } else if v == 34 {
        Some(ShapeType::DownRibbon)
    } else if v == 35 {
        Some(ShapeType::Donut)
    } else if v == 36 {
        Some(ShapeType::NoSymbol)
    } else if v == 37 {
        Some(ShapeType::HorizontalScroll)
    } else if v == 38 {
        Some(ShapeType::VerticalScroll)
    } else if v == 39 {
        Some(ShapeType::BlockArc)
    } else if v == 40 {
        Some(ShapeType::Bevel)
    } else if v == 41 {
        Some(ShapeType::Sun)
    } else if v == 42 {
        Some(ShapeType::Wave)
    } else if v == 43 {
        Some(ShapeType::DoubleWave)
    } else if v == 44 {
        Some(ShapeType::LeftArrow)
    } else if v == 45 {
        Some(ShapeType::RightArrow)
    } else if v == 46 {
        Some(ShapeType::UpArrow)
    } else if v == 47 {
        Some(ShapeType::DownArrow)
    } else if v == 48 {
        Some(ShapeType::LeftRightArrow)
    } else if v == 49 {
        Some(ShapeType::UpDownArrow)
    } else if v == 50 {
        Some(ShapeType::LeftUpArrow)
    } else if v == 51 {
        Some(ShapeType::LeftRightUpArrow)
    } else if v == 52 {
        Some(ShapeType::QuadArrow)
    } else if v == 53 {
        Some(ShapeType::BentArrow)
    } else if v == 54 {
        Some(ShapeType::BentUpArrow)
    } else if v == 55 {
        Some(ShapeType::CurvedLeftArrow)
    } else if v == 56 {
        Some(ShapeType::CurvedRightArrow)
    } else if v == 57 {
        Some(ShapeType::CurvedUpArrow)
    } else if v == 58 {
        Some(ShapeType::CurvedDownArrow)
    } else if v == 59 {
        Some(ShapeType::StripedRightArrow)
    } else if v == 60 {
        Some(ShapeType::NotchedRightArrow)
    } else if v == 61 {
        Some(ShapeType::UTurnArrow)
    } else if v == 62 {
        Some(ShapeType::CircularArrow)
    } else if v == 63 {
        Some(ShapeType::FlowchartManualInput)
    } else if v == 64 {
        Some(ShapeType::FlowchartTerminator)
    } else if v == 65 {
        Some(ShapeType::FlowchartPredefinedProcess)
    } else if v == 66 {
        Some(ShapeType::FlowchartStoredData)
    } else if v == 67 {
        Some(ShapeType::FlowchartDelay)
    } else if v == 68 {
        Some(ShapeType::FlowchartCard)
    } else if v == 69 {
        Some(ShapeType::FlowchartOffPageConnector)
    } else if v == 70 {
        Some(ShapeType::FlowchartDisplay)
    } else if v == 71 {
        Some(ShapeType::FlowchartDocument)
    } else if v == 72 {
        Some(ShapeType::FlowchartPunchedTape)
    } else if v == 73 {
        Some(ShapeType::FlowchartSequentialAccessStorage)
    } else if v == 74 {
        Some(ShapeType::LeftBrace)
    } else if v == 75 {
        Some(ShapeType::RightBrace)
    } else if v == 76 {
        Some(ShapeType::LeftBracket)
    } else if v == 77 {
        Some(ShapeType::RightBracket)
    } else if v == 78 {
        Some(ShapeType::RectangularCallout)
    } else if v == 79 {
        Some(ShapeType::RoundedRectangularCallout)
    } else if v == 80 {
        Some(ShapeType::OvalCallout)
    } else if v == 81 {
        Some(ShapeType::LeftArrowCallout)
    } else if v == 82 {
        Some(ShapeType::UpArrowCallout)
    } else if v == 83 {
        Some(ShapeType::RightArrowCallout)
    } else if v == 84 {
        Some(ShapeType::DownArrowCallout)
    } else if v == 85 {
        Some(ShapeType::LeftRightArrowCallout)
    } else if v == 86 {
        Some(ShapeType::UpDownArrowCallout)
    } else if v == 87 {
        Some(ShapeType::QuadArrowCallout)
    } else if v == 88 {
        Some(ShapeType::Polyline)
    } else if v == 89 {
        Some(ShapeType::Polygon)
    } else if v == 90 {
        Some(ShapeType::Curve)
    } else {
        None
    }
}

impl ShapeType {
    pub fn try_from_u32(v: u32) -> (r: Result<ShapeType, InvalidShapeTypeError>)
        ensures
            match spec_shape_type(v) {
                Some(x) => r == Ok::<ShapeType, InvalidShapeTypeError>(x),
                None => r == Err::<ShapeType, InvalidShapeTypeError>(InvalidShapeTypeError { bad_value: v }),
            },
    {
        match v {
            0 => Ok(ShapeType::Unknown),
            1 => Ok(ShapeType::Oval),
            2 => Ok(ShapeType::Triangle),
            3 => Ok(ShapeType::RightTriangle),
            4 => Ok(ShapeType::Rectangle),
            5 => Ok(ShapeType::RoundedRectangle),
            6 => Ok(ShapeType::Hexagon),
            7 => Ok(ShapeType::Parallelogram),
            8 => Ok(ShapeType::Diamond),
            9 => Ok(ShapeType::Trapezoid),
            10 => Ok(ShapeType::Pentagon),
            11 => Ok(ShapeType::RegularPentagon),
            12 => Ok(ShapeType::Star4),
            13 => Ok(ShapeType::Star5),
            14 => Ok(ShapeType::Star8),
            15 => Ok(ShapeType::Star10),
            16 => Ok(ShapeType::Star32),
            17 => Ok(ShapeType::Cross),
            18 => Ok(ShapeType::LShape),
            19 => Ok(ShapeType::Chevron),
            20 => Ok(ShapeType::Arc),
            21 => Ok(ShapeType::Moon),
            22 => Ok(ShapeType::SmileyFace),
            23 => Ok(ShapeType::Heart),
            24 => Ok(ShapeType::Pie),
            25 => Ok(ShapeType::Chord),
            26 => Ok(ShapeType::Can),
            27 => Ok(ShapeType::Cube),
            28 => Ok(ShapeType::Explosion1),
            29 => Ok(ShapeType::Explosion2),
            30 => Ok(ShapeType::FoldedCorner),
            31 => Ok(ShapeType::LightningBolt),
            32 => Ok(ShapeType::Plaque),
            33 => Ok(ShapeType::Ribbon),
            34 => Ok(ShapeType::DownRibbon),
            35 => Ok(ShapeType::Donut),
            36 => Ok(ShapeType::NoSymbol),
            37 => Ok(ShapeType::HorizontalScroll),
            38 => Ok(ShapeType::VerticalScroll),
            39 => Ok(ShapeType::BlockArc),
            40 => Ok(ShapeType::Bevel),
            41 => Ok(ShapeType::Sun),
            42 => Ok(ShapeType::Wave),
            43 => Ok(ShapeType::DoubleWave),
            44 => Ok(ShapeType::LeftArrow),
            45 => Ok(ShapeType::RightArrow),
            46 => Ok(ShapeType::UpArrow),
            47 => Ok(ShapeType::DownArrow),
            48 => Ok(ShapeType::LeftRightArrow),
            49 => Ok(ShapeType::UpDownArrow),
            50 => Ok(ShapeType::LeftUpArrow),
            51 => Ok(ShapeType::LeftRightUpArrow),
            52 => Ok(ShapeType::QuadArrow),
            53 => Ok(ShapeType::BentArrow),
            54 => Ok(ShapeType::BentUpArrow),
            55 => Ok(ShapeType::CurvedLeftArrow),
            56 => Ok(ShapeType::CurvedRightArrow),
            57 => Ok(ShapeType::CurvedUpArrow),
            58 => Ok(ShapeType::CurvedDownArrow),
            59 => Ok(ShapeType::StripedRightArrow),
            60 => Ok(ShapeType::NotchedRightArrow),
            61 => Ok(ShapeType::UTurnArrow),
            62 => Ok(ShapeType::CircularArrow),
            63 => Ok(ShapeType::FlowchartManualInput),
            64 => Ok(ShapeType::FlowchartTerminator),
            65 => Ok(ShapeType::FlowchartPredefinedProcess),
            66 => Ok(ShapeType::FlowchartStoredData),
            67 => Ok(ShapeType::FlowchartDelay),
            68 => Ok(ShapeType::FlowchartCard),
            69 => Ok(ShapeType::FlowchartOffPageConnector),
            70 => Ok(ShapeType::FlowchartDisplay),
            71 => Ok(ShapeType::FlowchartDocument),
            72 => Ok(ShapeType::FlowchartPunchedTape),
            73 => Ok(ShapeType::FlowchartSequentialAccessStorage),
            74 => Ok(ShapeType::LeftBrace),
            75 => Ok(ShapeType::RightBrace),
            76 => Ok(ShapeType::LeftBracket),
            77 => Ok(ShapeType::RightBracket),
            78 => Ok(ShapeType::RectangularCallout),
            79 => Ok(ShapeType::RoundedRectangularCallout),
            80 => Ok(ShapeType::OvalCallout),
            81 => Ok(ShapeType::LeftArrowCallout),
            82 => Ok(ShapeType::UpArrowCallout),
            83 => Ok(ShapeType::RightArrowCallout),
            84 => Ok(ShapeType::DownArrowCallout),
            85 => Ok(ShapeType::LeftRightArrowCallout),
            86 => Ok(ShapeType::UpDownArrowCallout),
            87 => Ok(ShapeType::QuadArrowCallout),
            88 => Ok(ShapeType::Polyline),
            89 => Ok(ShapeType::Polygon),
            90 => Ok(ShapeType::Curve),
            _ => Err(InvalidShapeTypeError { bad_value: v }),
        }
    }
}

/// The border of a text box or image.
#[derive(Debug, Clone, Copy, PartialEq, Eq, Structural)]
pub enum BorderType {
    /// `BORDER_TYPE_NONE`
    NoBorder,
    /// `BORDER_TYPE_SQUARE`
    Square,
    /// `BORDER_TYPE_SHADOW`
    Shadow,
    /// `BORDER_TYPE_DOT`
    Dot,
    /// `BORDER_TYPE_IMAGE`
    Image,
}

/// The value is not that of a `BorderType`.
#[derive(Debug, Clone, Copy, PartialEq, Eq, Structural)]
pub struct InvalidBorderTypeError {
    pub bad_value: u16,
}

/// The `BorderType` that `v` stands for: 0 to 4 in declaration order.
pub open spec fn spec_border_type(v: u16) -> Option<BorderType> {
    if v == 0 {
        Some(BorderType::NoBorder)
    } else if v == 1 {
        Some(BorderType::Square)
    } else if v == 2 {
        Some(BorderType::Shadow)
    } else if v == 3 {
        Some(BorderType::Dot)
    } else if v == 4 {
        Some(BorderType::Image)
    } else {
        None
    }
}

impl BorderType {
    pub fn try_from_u16(v: u16) -> (r: Result<BorderType, InvalidBorderTypeError>)
        ensures
            match spec_border_type(v) {
                Some(x) => r == Ok::<BorderType, InvalidBorderTypeError>(x),
                None => r == Err::<BorderType, InvalidBorderTypeError>(InvalidBorderTypeError { bad_value: v }),
            },
    {
        match v {
            0 => Ok(BorderType::NoBorder),
            1 => Ok(BorderType::Square),
            2 => Ok(BorderType::Shadow),
            3 => Ok(BorderType::Dot),
            4 => Ok(BorderType::Image),
            _ => Err(InvalidBorderTypeError { bad_value: v }),
        }
    }
}

/// Where the text of a shape may go.
#[derive(Debug, Clone, Copy, PartialEq, Eq, Structural)]
pub enum TextAreaType {
    /// `TEXT_AREA_TYPE_MARGIN`
    Margin,
    /// `TEXT_AREA_TYPE_FREE`
    Free,
    /// `TEXT_AREA_TYPE_PATH`
    Path,
}

/// The value is not that of a `TextAreaType`.
#[derive(Debug, Clone, Copy, PartialEq, Eq, Structural)]
pub struct InvalidTextAreaTypeError {
    pub bad_value: u8,
}

/// The `TextAreaType` that `v` stands for: 0 to 2 in declaration order.
pub open spec fn spec_text_area_type(v: u8) -> Option<TextAreaType> {
    if v == 0 {
        Some(TextAreaType::Margin)
    } else if v == 1 {
        Some(TextAreaType::Free)
    } else if v == 2 {
        Some(TextAreaType::Path)
    } else {
        None
    }
}

impl TextAreaType {
    pub fn try_from_u8(v: u8) -> (r: Result<TextAreaType, InvalidTextAreaTypeError>)
        ensures
            match spec_text_area_type(v) {
                Some(x) => r == Ok::<TextAreaType, InvalidTextAreaTypeError>(x),
                None => r == Err::<TextAreaType, InvalidTextAreaTypeError>(InvalidTextAreaTypeError { bad_value: v }),
            },
    {
        match v {
            0 => Ok(TextAreaType::Margin),
            1 => Ok(TextAreaType::Free),
            2 => Ok(TextAreaType::Path),
            _ => Err(InvalidTextAreaTypeError { bad_value: v }),
        }
    }
}

/// The style of hint text.
#[derive(Debug, Clone, Copy, PartialEq, Eq, Structural)]
pub enum HintTextStyle {
    /// `HINT_TEXT_STYLE_NONE`
    NoStyle,
    /// `HINT_TEXT_STYLE_BOLD`
    Bold,
    /// `HINT_TEXT_STYLE_ITALIC`
    Italic,
    /// `HINT_TEXT_STYLE_UNDERLINE`
    Underline,
    /// `HINT_TEXT_STYLE_MASK`
    Mask,
}

/// The value is not that of a `HintTextStyle`.
#[derive(Debug, Clone, Copy, PartialEq, Eq, Structural)]
pub struct InvalidHintTextStyleError {
    pub bad_value: u8,
}

/// The `HintTextStyle` that `v` stands for: 0 is `NoStyle`, 1 is `Bold`, 2 is `Italic`, 4 is `Underline`, 7 is `Mask`.
pub open spec fn spec_hint_text_style(v: u8) -> Option<HintTextStyle> {
    if v == 0 {
        Some(HintTextStyle::NoStyle)
    } else if v == 1 {
        Some(HintTextStyle::Bold)
    } else if v == 2 {
        Some(HintTextStyle::Italic)
    } else if v == 4 {
        Some(HintTextStyle::Underline)
    } else if v == 7 {
        Some(HintTextStyle::Mask)
    } else {
        None
    }
}

impl HintTextStyle {
    pub fn try_from_u8(v: u8) -> (r: Result<HintTextStyle, InvalidHintTextStyleError>)
        ensures
            match spec_hint_text_style(v) {
                Some(x) => r == Ok::<HintTextStyle, InvalidHintTextStyleError>(x),
                None => r == Err::<HintTextStyle, InvalidHintTextStyleError>(InvalidHintTextStyleError { bad_value: v }),
            },
    {
        match v {
            0 => Ok(HintTextStyle::NoStyle),
            1 => Ok(HintTextStyle::Bold),
            2 => Ok(HintTextStyle::Italic),
            4 => Ok(HintTextStyle::Underline),
            7 => Ok(HintTextStyle::Mask),
            _ => Err(InvalidHintTextStyleError { bad_value: v }),
        }
    }
}

/// The action key of an input method.
#[derive(Debug, Clone, Copy, PartialEq, Eq, Structural)]
pub enum ImeActionType {
    /// `IME_ACTION_TYPE_UNSPECIFIED`
    Unspecified,
    /// `IME_ACTION_TYPE_NONE`
    NoAction,
    /// `IME_ACTION_TYPE_GO`
    Go,
    /// `IME_ACTION_TYPE_SEARCH`
    Search,
    /// `IME_ACTION_TYPE_DONE`
    Done,
    /// `IME_ACTION_TYPE_SEND`
    Send,
    /// `IME_ACTION_TYPE_NEXT`
    Next,
    /// `IME_ACTION_TYPE_PREVIOUS`
    Previous,
}

/// The value is not that of a `ImeActionType`.
#[derive(Debug, Clone, Copy, PartialEq, Eq, Structural)]
pub struct InvalidImeActionTypeError {
    pub bad_value: u8,
}

/// The `ImeActionType` that `v` stands for: 0 to 7 in declaration order.
pub open spec fn spec_ime_action_type(v: u8) -> Option<ImeActionType> {
    if v == 0 {
        Some(ImeActionType::Unspecified)
    } else if v == 1 {
        Some(ImeActionType::NoAction)
    } else if v == 2 {
        Some(ImeActionType::Go)
    } else if v == 3 {
        Some(ImeActionType::Search)
    } else if v == 4 {
        Some(ImeActionType::Done)
    } else if v == 5 {
        Some(ImeActionType::Send)
    } else if v == 6 {
        Some(ImeActionType::Next)
    } else if v == 7 {
        Some(ImeActionType::Previous)
    } else {
        None
    }
}

impl ImeActionType {
    pub fn try_from_u8(v: u8) -> (r: Result<ImeActionType, InvalidImeActionTypeError>)
        ensures
            match spec_ime_action_type(v) {
                Some(x) => r == Ok::<ImeActionType, InvalidImeActionTypeError>(x),
                None => r == Err::<ImeActionType, InvalidImeActionTypeError>(InvalidImeActionTypeError { bad_value: v }),
            },
    {
        match v {
            0 => Ok(ImeActionType::Unspecified),
            1 => Ok(ImeActionType::NoAction),
            2 => Ok(ImeActionType::Go),
            3 => Ok(ImeActionType::Search),
            4 => Ok(ImeActionType::Done),
            5 => Ok(ImeActionType::Send),
            6 => Ok(ImeActionType::Next),
            7 => Ok(ImeActionType::Previous),
            _ => Err(InvalidImeActionTypeError { bad_value: v }),
        }
    }
}

/// The kind of input that a text box takes.
#[derive(Debug, Clone, Copy, PartialEq, Eq, Structural)]
pub enum TextInputType {
    /// `INPUT_TYPE_NONE`
    NoInput,
    /// `INPUT_TYPE_TEXT`
    Text,
    /// `INPUT_TYPE_NUMBER`
    Number,
    /// `INPUT_TYPE_PHONE`
    Phone,
    /// `INPUT_TYPE_DATETIME`
    Datetime,
}

/// The value is not that of a `TextInputType`.
#[derive(Debug, Clone, Copy, PartialEq, Eq, Structural)]
pub struct InvalidTextInputTypeError {
    pub bad_value: u8,
}

/// The `TextInputType` that `v` stands for: 0 to 4 in declaration order.
pub open spec fn spec_text_input_type(v: u8) -> Option<TextInputType> {
    if v == 0 {
        Some(TextInputType::NoInput)
    } else if v == 1 {
        Some(TextInputType::Text)
    } else if v == 2 {
        Some(TextInputType::Number)
    } else if v == 3 {
        Some(TextInputType::Phone)
    } else if v == 4 {
        Some(TextInputType::Datetime)
    } else {
        None
    }
}

impl TextInputType {
    pub fn try_from_u8(v: u8) -> (r: Result<TextInputType, InvalidTextInputTypeError>)
        ensures
            match spec_text_input_type(v) {
                Some(x) => r == Ok::<TextInputType, InvalidTextInputTypeError>(x),
                None => r == Err::<TextInputType, InvalidTextInputTypeError>(InvalidTextInputTypeError { bad_value: v }),
            },
    {
        match v {
            0 => Ok(TextInputType::NoInput),
            1 => Ok(TextInputType::Text),
            2 => Ok(TextInputType::Number),
            3 => Ok(TextInputType::Phone),
            4 => Ok(TextInputType::Datetime),
            _ => Err(InvalidTextInputTypeError { bad_value: v }),
        }
    }
}

/// How overflowing text is marked.
#[derive(Debug, Clone, Copy, PartialEq, Eq, Structural)]
pub enum EllipsisType {
    /// `ELLIPSIS_TYPE_NONE`
    NoEllipsis,
    /// `ELLIPSIS_TYPE_DOTS`
    Dots,
    /// `ELLIPSIS_TYPE_TRIANGLE`
    Triangle,
}

/// The value is not that of a `EllipsisType`.
#[derive(Debug, Clone, Copy, PartialEq, Eq, Structural)]
pub struct InvalidEllipsisTypeError {
    pub bad_value: u8,
}

/// The `EllipsisType` that `v` stands for: 0 to 2 in declaration order.
pub open spec fn spec_ellipsis_type(v: u8) -> Option<EllipsisType> {
    if v == 0 {
        Some(EllipsisType::NoEllipsis)
    } else if v == 1 {
        Some(EllipsisType::Dots)
    } else if v == 2 {
        Some(EllipsisType::Triangle)
    } else {
        None
    }
}

impl EllipsisType {
    pub fn try_from_u8(v: u8) -> (r: Result<EllipsisType, InvalidEllipsisTypeError>)
        ensures
            match spec_ellipsis_type(v) {
                Some(x) => r == Ok::<EllipsisType, InvalidEllipsisTypeError>(x),
                None => r == Err::<EllipsisType, InvalidEllipsisTypeError>(InvalidEllipsisTypeError { bad_value: v }),
            },
    {
        match v {
            0 => Ok(EllipsisType::NoEllipsis),
            1 => Ok(EllipsisType::Dots),
            2 => Ok(EllipsisType::Triangle),
            _ => Err(InvalidEllipsisTypeError { bad_value: v }),
        }
    }
}

/// How a text box fits its text.
#[derive(Debug, Clone, Copy, PartialEq, Eq, Structural)]
pub enum TextAutoFitType {
    /// `AUTO_FIT_OPTION_NONE`
    NoAutoFit,
    /// `AUTO_FIT_OPTION_HORIZONTAL`
    Horizontal,
    /// `AUTO_FIT_OPTION_VERTICAL`
    Vertical,
    /// `AUTO_FIT_OPTION_BOTH`
    Both,
}

/// The value is not that of a `TextAutoFitType`.
#[derive(Debug, Clone, Copy, PartialEq, Eq, Structural)]
pub struct InvalidTextAutoFitTypeError {
    pub bad_value: u8,
}

/// The `TextAutoFitType` that `v` stands for: 0 to 3 in declaration order.
pub open spec fn spec_text_auto_fit_type(v: u8) -> Option<TextAutoFitType> {
    if v == 0 {
        Some(TextAutoFitType::NoAutoFit)
    } else if v == 1 {
        Some(TextAutoFitType::Horizontal)
    } else if v == 2 {
        Some(TextAutoFitType::Vertical)
    } else if v == 3 {
        Some(TextAutoFitType::Both)
    } else {
        None
    }
}

impl TextAutoFitType {
    pub fn try_from_u8(v: u8) -> (r: Result<TextAutoFitType, InvalidTextAutoFitTypeError>)
        ensures
            match spec_text_auto_fit_type(v) {
                Some(x) => r == Ok::<TextAutoFitType, InvalidTextAutoFitTypeError>(x),
                None => r == Err::<TextAutoFitType, InvalidTextAutoFitTypeError>(InvalidTextAutoFitTypeError { bad_value: v }),
            },
    {
        match v {
            0 => Ok(TextAutoFitType::NoAutoFit),
            1 => Ok(TextAutoFitType::Horizontal),
            2 => Ok(TextAutoFitType::Vertical),
            3 => Ok(TextAutoFitType::Both),
            _ => Err(InvalidTextAutoFitTypeError { bad_value: v }),
        }
    }
}


/// Failure to read a fill colour effect.
#[derive(Debug, Clone, Copy, PartialEq, Eq, Structural)]
pub enum FillColourEffectParseError {
    Io(IoError),
    PropertyFlags(ReadBitfieldError),
    /// The gradient type is unknown.
    BadGradientType(u8),
}

/// A colour fill; similar to `LineColourEffect`, but serialised differently.
#[derive(Debug)]
pub struct FillColourEffect {
    pub solid_colour: [u8; 4],
    pub colour_type: ColourType,
    pub gradient_rotatable: bool,
    pub gradient_type: GradientType,
    pub angle: i16,
    pub radial_gradient_pos: PointF32,
    pub colours: Vec<GradientColour>,
}

pub struct FillColourEffectModel {
    pub solid_colour: Seq<u8>,
    pub colour_type: ColourType,
    pub gradient_rotatable: bool,
    pub gradient_type: GradientType,
    pub angle: i16,
    pub radial_gradient_pos: PointF32,
    pub colours: Seq<GradientColourModel>,
}

impl View for FillColourEffect {
    type V = FillColourEffectModel;

    open spec fn view(&self) -> FillColourEffectModel {
        FillColourEffectModel {
            solid_colour: self.solid_colour@,
            colour_type: self.colour_type,
            gradient_rotatable: self.gradient_rotatable,
            gradient_type: self.gradient_type,
            angle: self.angle,
            radial_gradient_pos: self.radial_gradient_pos,
            colours: views(self.colours@),
        }
    }
}

/// The colour type that bit 0 of the property bits gives.
pub open spec fn fill_colour_type(p: u32) -> ColourType {
    if p & 1 == 0 { ColourType::Solid } else { ColourType::Gradient }
}

fn read_gradient_colours_u8(r: &mut ByteStream) -> (res: Result<Vec<GradientColour>, IoError>)
    ensures
        match spec_u8_counted(old(r)@, gradient_colour_item()) {
            Some((m, s2)) => res matches Ok(v) && views(v@) == m && final(r)@ == s2,
            None => res is Err,
        },
        final(r)@.same_frame(old(r)@),
{
    let n: u8 = r.read_u8()?;
    read_gradient_colours(r, n)
}


/// The fields of a fill colour effect after its property bits.
#[verifier::opaque]
pub open spec fn spec_fill_colour_body(s: StreamModel) -> SpecRead<(Seq<u8>, GradientType, i16, PointF32, Seq<GradientColourModel>)> {
    match spec_take(s, 4) {
        Some((solid_colour, s1)) => 
        match spec_then(spec_u8(s1), |v: u8| spec_gradient_type(v)) {
            Some((gradient_type, s2)) => 
            match spec_i16(s2) {
                Some((angle, s3)) => 
                match spec_point_f32(s3) {
                    Some((radial_gradient_pos, s4)) => 
                    match spec_u8_counted(s4, gradient_colour_item()) {
                        Some((colours, s5)) => Some(((solid_colour, gradient_type, angle, radial_gradient_pos, colours), s5)),
                        None => None,
                    },
                    None => None,
                },
                None => None,
            },
            None => None,
        },
        None => None,
    }
}

fn read_fill_colour_body(r: &mut ByteStream) -> (res: Result<([u8; 4], GradientType, i16, PointF32, Vec<GradientColour>), FillColourEffectParseError>)
    ensures
        match spec_fill_colour_body(old(r)@) {
            Some((m, s2)) => res matches Ok(v) && v.0@ == m.0
                && v.1 == m.1
                && v.2 == m.2
                && v.3 == m.3
                && views(v.4@) == m.4
                && final(r)@ == s2,
            None => res is Err,
        },
        final(r)@.same_frame(old(r)@),
{
    reveal(spec_fill_colour_body);
    let solid_colour: [u8; 4] = match r.read_4_bytes() {
            Ok(v) => v,
            Err(e) => return Err(FillColourEffectParseError::Io(e)),
        };
    let gradient_type: GradientType = {
            let raw = match r.read_u8() {
            Ok(v) => v,
            Err(e) => return Err(FillColourEffectParseError::Io(e)),
        };
            match match GradientType::try_from_u8(raw) { Ok(t) => Ok(t), Err(e) => Err(e.bad_value) } {
                Ok(v) => v,
                Err(e) => return Err(FillColourEffectParseError::BadGradientType(e)),
            }
        };
    let angle: i16 = match r.read_i16_le() {
            Ok(v) => v,
            Err(e) => return Err(FillColourEffectParseError::Io(e)),
        };
    let radial_gradient_pos: PointF32 = match PointF32::try_parse_f32(r) {
            Ok(v) => v,
            Err(e) => return Err(FillColourEffectParseError::Io(e)),
        };
    let colours: Vec<GradientColour> = match read_gradient_colours_u8(r) {
            Ok(v) => v,
            Err(e) => return Err(FillColourEffectParseError::Io(e)),
        };
    Ok((solid_colour, gradient_type, angle, radial_gradient_pos, colours))
}


/// A fill colour effect: property bits (bit 0: gradient rather than solid colour; bit 1: the
/// gradient rotates; others ignored), then the fields.
pub open spec fn spec_fill_colour_effect(s: StreamModel) -> SpecRead<FillColourEffectModel> {
    match spec_bitfield(s) {
        Ok((p, s1)) => match spec_fill_colour_body(s1) {
            Some((b, s2)) => Some((FillColourEffectModel {
                solid_colour: b.0,
                colour_type: fill_colour_type(p),
                gradient_rotatable: p & 2 != 0,
                gradient_type: b.1,
                angle: b.2,
                radial_gradient_pos: b.3,
                colours: b.4,
            }, s2)),
            None => None,
        },
        Err(_) => None,
    }
}

impl FillColourEffect {
    pub fn try_parse(stream: &mut ByteStream) -> (r: Result<FillColourEffect, FillColourEffectParseError>)
        ensures
            match spec_fill_colour_effect(old(stream)@) {
                Some((m, s2)) => r matches Ok(v) && v@ == m && final(stream)@ == s2,
                None => r is Err,
            },
            final(stream)@.same_frame(old(stream)@),
    {
        let p: u32 = match stream.read_variable_length_bitfield() {
            Ok(v) => v,
            Err(e) => return Err(FillColourEffectParseError::PropertyFlags(e)),
        };
        // The first bit can only be 0 or 1.
        let colour_type: ColourType = if p & 1 == 0 { ColourType::Solid } else { ColourType::Gradient };
        let gradient_rotatable: bool = p & 2 != 0;
        let b = read_fill_colour_body(stream)?;
        Ok(FillColourEffect {
            solid_colour: b.0,
            colour_type,
            gradient_rotatable,
            gradient_type: b.1,
            angle: b.2,
            radial_gradient_pos: b.3,
            colours: b.4,
        })
    }
}

/// An image fill.
#[derive(Debug, Clone, Copy, PartialEq, Eq, Structural)]
pub struct FillImageEffect {
    pub image_type: u8,
    pub image_id: i32,
    pub nine_patch_rect: RectI32,
    pub nine_patch_width: u32,
    pub stretch_offset: RectF32,
    pub tiling_offset: PointF32,
    pub tiling_scale_x: RawF32,
    pub tiling_scale_y: RawF32,
    pub alpha: RawF32,
    pub rotatable: bool,
}


/// The fields of an image fill, in the order they are stored.
#[verifier::opaque]
pub open spec fn spec_fill_image_body(s: StreamModel) -> SpecRead<(u8, i32, RectF32, PointF32, RawF32, RawF32, RawF32, bool, RectI32, u32)> {
    match spec_u8(s) {
        Some((image_type, s1)) => 
        match spec_i32(s1) {
            Some((image_id, s2)) => 
            match spec_rect_f32(s2) {
                Some((stretch_offset, s3)) => 
                match spec_point_f32(s3) {
                    Some((tiling_offset, s4)) => 
                    match spec_f32(s4) {
                        Some((tiling_scale_x, s5)) => 
                        match spec_f32(s5) {
                            Some((tiling_scale_y, s6)) => 
                            match spec_f32(s6) {
                                Some((alpha, s7)) => 
                                match spec_bool_u8(s7) {
                                    Some((rotatable, s8)) => 
                                    match spec_rect_i32(s8) {
                                        Some((nine_patch_rect, s9)) => 
                                        match spec_u32(s9) {
                                            Some((nine_patch_width, s10)) => Some(((image_type, image_id, stretch_offset, tiling_offset, tiling_scale_x, tiling_scale_y, alpha, rotatable, nine_patch_rect, nine_patch_width), s10)),
                                            None => None,
                                        },
                                        None => None,
                                    },
                                    None => None,
                                },
                                None => None,
                            },
                            None => None,
                        },
                        None => None,
                    },
                    None => None,
                },
                None => None,
            },
            None => None,
        },
        None => None,
    }
}

#[verifier::rlimit(30)]
fn read_fill_image_body(r: &mut ByteStream) -> (res: Result<(u8, i32, RectF32, PointF32, RawF32, RawF32, RawF32, bool, RectI32, u32), IoError>)
    ensures
        match spec_fill_image_body(old(r)@) {
            Some((m, s2)) => res matches Ok(v) && v.0 == m.0
                && v.1 == m.1
                && v.2 == m.2
                && v.3 == m.3
                && v.4 == m.4
                && v.5 == m.5
                && v.6 == m.6
                && v.7 == m.7
                && v.8 == m.8
                && v.9 == m.9
                && final(r)@ == s2,
            None => res is Err,
        },
        final(r)@.same_frame(old(r)@),
{
    reveal(spec_fill_image_body);
    let image_type: u8 = match r.read_u8() {
            Ok(v) => v,
            Err(e) => return Err(e),
        };
    let image_id: i32 = match r.read_i32_le() {
            Ok(v) => v,
            Err(e) => return Err(e),
        };
    let stretch_offset: RectF32 = match RectF32::try_parse_f32(r) {
            Ok(v) => v,
            Err(e) => return Err(e),
        };
    let tiling_offset: PointF32 = match PointF32::try_parse_f32(r) {
            Ok(v) => v,
            Err(e) => return Err(e),
        };
    let tiling_scale_x: RawF32 = match r.read_f32_le() {
            Ok(v) => v,
            Err(e) => return Err(e),
        };
    let tiling_scale_y: RawF32 = match r.read_f32_le() {
            Ok(v) => v,
            Err(e) => return Err(e),
        };
    let alpha: RawF32 = match r.read_f32_le() {
            Ok(v) => v,
            Err(e) => return Err(e),
        };
    let rotatable: bool = match r.read_bool_u8() {
            Ok(v) => v,
            Err(e) => return Err(e),
        };
    let nine_patch_rect: RectI32 = match RectI32::try_parse_i32(r) {
            Ok(v) => v,
            Err(e) => return Err(e),
        };
    let nine_patch_width: u32 = match r.read_u32_le() {
            Ok(v) => v,
            Err(e) => return Err(e),
        };
    Ok((image_type, image_id, stretch_offset, tiling_offset, tiling_scale_x, tiling_scale_y, alpha, rotatable, nine_patch_rect, nine_patch_width))
}


pub open spec fn spec_fill_image_effect(s: StreamModel) -> SpecRead<FillImageEffect> {
    match spec_fill_image_body(s) {
        Some((b, s2)) => Some((FillImageEffect {
            image_type: b.0,
            image_id: b.1,
            stretch_offset: b.2,
            tiling_offset: b.3,
            tiling_scale_x: b.4,
            tiling_scale_y: b.5,
            alpha: b.6,
            rotatable: b.7,
            nine_patch_rect: b.8,
            nine_patch_width: b.9,
        }, s2)),
        None => None,
    }
}

impl FillImageEffect {
    pub fn try_parse(stream: &mut ByteStream) -> (r: Result<FillImageEffect, IoError>)
        ensures
            match spec_fill_image_effect(old(stream)@) {
                Some((m, s2)) => r == Ok::<FillImageEffect, IoError>(m) && final(stream)@ == s2,
                None => r is Err,
            },
            final(stream)@.same_frame(old(stream)@),
    {
        let b = read_fill_image_body(stream)?;
        Ok(FillImageEffect {
            image_type: b.0,
            image_id: b.1,
            stretch_offset: b.2,
            tiling_offset: b.3,
            tiling_scale_x: b.4,
            tiling_scale_y: b.5,
            alpha: b.6,
            rotatable: b.7,
            nine_patch_rect: b.8,
            nine_patch_width: b.9,
        })
    }
}

/// Failure to read a fill effect.
#[derive(Debug, Clone, Copy, PartialEq, Eq, Structural)]
pub enum FillEffectParseError {
    Io(IoError),
    /// The effect type is unknown.
    BadEffectType(u8),
    ColourEffect(FillColourEffectParseError),
}

/// How a shape is filled.
#[derive(Debug)]
pub enum FillEffect {
    Background { transparency: RawF32 },
    Colour(FillColourEffect),
    Image(FillImageEffect),
    Pattern { pattern: [u8; 8], foreground_colour: [u8; 4], background_colour: [u8; 4] },
}

pub enum FillEffectModel {
    Background { transparency: RawF32 },
    Colour(FillColourEffectModel),
    Image(FillImageEffect),
    Pattern { pattern: Seq<u8>, foreground_colour: Seq<u8>, background_colour: Seq<u8> },
}

impl View for FillEffect {
    type V = FillEffectModel;

    open spec fn view(&self) -> FillEffectModel {
        match self {
            FillEffect::Background { transparency } => FillEffectModel::Background { transparency: *transparency },
            FillEffect::Colour(c) => FillEffectModel::Colour(c@),
            FillEffect::Image(i) => FillEffectModel::Image(*i),
            FillEffect::Pattern { pattern, foreground_colour, background_colour } => FillEffectModel::Pattern {
                pattern: pattern@,
                foreground_colour: foreground_colour@,
                background_colour: background_colour@,
            },
        }
    }
}

/// A fill effect: a `u32` size (not used), a `u8` effect type and the effect: 1 colour, 2 image,
/// 3 pattern (8 pattern bytes and two colours), 4 background (a transparency).
pub open spec fn spec_fill_effect(s: StreamModel) -> SpecRead<FillEffectModel> {
    match spec_u32(s) {
        Some((_, s1)) => match spec_u8(s1) {
            Some((t, s2)) => if t == 1 {
                match spec_fill_colour_effect(s2) {
                    Some((c, s3)) => Some((FillEffectModel::Colour(c), s3)),
                    None => None,
                }
            } else if t == 2 {
                match spec_fill_image_effect(s2) {
                    Some((i, s3)) => Some((FillEffectModel::Image(i), s3)),
                    None => None,
                }
            } else if t == 3 {
                match spec_take(s2, 8) {
                    Some((pattern, s3)) => match spec_take(s3, 4) {
                        Some((foreground_colour, s4)) => match spec_take(s4, 4) {
                            Some((background_colour, s5)) => Some((FillEffectModel::Pattern {
                                pattern,
                                foreground_colour,
                                background_colour,
                            }, s5)),
                            None => None,
                        },
                        None => None,
                    },
                    None => None,
                }
            } else if t == 4 {
                match spec_f32(s2) {
                    Some((transparency, s3)) => Some((FillEffectModel::Background { transparency }, s3)),
                    None => None,
                }
            } else {
                None
            },
            None => None,
        },
        None => None,
    }
}

impl FillEffect {
    pub fn try_parse(stream: &mut ByteStream) -> (r: Result<FillEffect, FillEffectParseError>)
        ensures
            match spec_fill_effect(old(stream)@) {
                Some((m, s2)) => r matches Ok(v) && v@ == m && final(stream)@ == s2,
                None => r is Err,
            },
            final(stream)@.same_frame(old(stream)@),
    {
        let _effect_size: u32 = match stream.read_u32_le() {
            Ok(v) => v,
            Err(e) => return Err(FillEffectParseError::Io(e)),
        };
        let t: u8 = match stream.read_u8() {
            Ok(v) => v,
            Err(e) => return Err(FillEffectParseError::Io(e)),
        };
        if t == 1 {
            match FillColourEffect::try_parse(stream) {
                Ok(c) => Ok(FillEffect::Colour(c)),
                Err(e) => Err(FillEffectParseError::ColourEffect(e)),
            }
        } else if t == 2 {
            match FillImageEffect::try_parse(stream) {
                Ok(i) => Ok(FillEffect::Image(i)),
                Err(e) => Err(FillEffectParseError::Io(e)),
            }
        } else if t == 3 {
            let pattern: [u8; 8] = match stream.read_8_bytes() {
                Ok(v) => v,
                Err(e) => return Err(FillEffectParseError::Io(e)),
            };
            let foreground_colour: [u8; 4] = match stream.read_4_bytes() {
                Ok(v) => v,
                Err(e) => return Err(FillEffectParseError::Io(e)),
            };
            let background_colour: [u8; 4] = match stream.read_4_bytes() {
                Ok(v) => v,
                Err(e) => return Err(FillEffectParseError::Io(e)),
            };
            Ok(FillEffect::Pattern { pattern, foreground_colour, background_colour })
        } else if t == 4 {
            match stream.read_f32_le() {
                Ok(transparency) => Ok(FillEffect::Background { transparency }),
                Err(e) => Err(FillEffectParseError::Io(e)),
            }
        } else {
            Err(FillEffectParseError::BadEffectType(t))
        }
    }
}


// ---------------------------------------------------------------------------------------------
// Shapes
// ---------------------------------------------------------------------------------------------

/// The outline that a shape is drawn from.
#[derive(Debug)]
pub struct Template {
    pub is_flipped_horizontally: bool,
    pub is_flipped_vertically: bool,
    pub owner_rect: Rect,
    pub rotation: RawF32,
    pub path: Path,
}

pub struct TemplateModel {
    pub is_flipped_horizontally: bool,
    pub is_flipped_vertically: bool,
    pub owner_rect: Rect,
    pub rotation: RawF32,
    pub path: Seq<PathSegment>,
}

impl View for Template {
    type V = TemplateModel;

    open spec fn view(&self) -> TemplateModel {
        TemplateModel {
            is_flipped_horizontally: self.is_flipped_horizontally,
            is_flipped_vertically: self.is_flipped_vertically,
            owner_rect: self.owner_rect,
            rotation: self.rotation,
            path: self.path@,
        }
    }
}

/// Failure to read a shape.
#[derive(Debug)]
pub enum ShapeParseError {
    Io(IoError),
    Base(ShapeBaseParseError),
    Header(ObjectHeaderError),
    BadShapeType(InvalidShapeTypeError),
    /// The template path could not be read.
    TemplatePath(PathParseError),
    /// The template path did not use all of its bytes.
    UnfinishedPath(UnfinishedParsingError),
    TextCommon(CommonParseError),
    BadTextAreaType(InvalidTextAreaTypeError),
    FillEffect(FillEffectParseError),
    /// The hint text could not be read.
    HintText(ReadStringError),
    BadHintTextStyle(InvalidHintTextStyleError),
    BadEllipsisType(InvalidEllipsisTypeError),
    BadTextAutoFitType(InvalidTextAutoFitTypeError),
    BadImeActionType(InvalidImeActionTypeError),
    BadTextInputType(InvalidTextInputTypeError),
    Unfinished(UnfinishedParsingError),
}

/// A shape's template, if it has one: a `u32` size and, if it is not zero, a path that must
/// fill exactly that many bytes.
pub open spec fn spec_template(w: StreamModel, flip_h: bool, flip_v: bool, rect: Rect, angle: RawF32) -> SpecRead<Option<TemplateModel>> {
    match spec_u32(w) {
        Some((size, w1)) => if size == 0 {
            Some((None, w1))
        } else {
            match spec_blind_window(w1, size as int) {
                Some(pw) => match spec_path(pw) {
                    Some((path, pw2)) => if pw2.remaining() == 0 {
                        Some((Some(TemplateModel {
                            is_flipped_horizontally: flip_h,
                            is_flipped_vertically: flip_v,
                            owner_rect: rect,
                            rotation: angle,
                            path,
                        }), spec_continue(w1, pw2)))
                    } else {
                        None
                    },
                    None => None,
                },
                None => None,
            }
        },
        None => None,
    }
}

fn read_template(w: &mut ByteStream, flip_h: bool, flip_v: bool, rect: Rect, angle: RawF32) -> (res: Result<Option<Template>, ShapeParseError>)
    ensures
        match spec_template(old(w)@, flip_h, flip_v, rect, angle) {
            Some((m, s2)) => res matches Ok(v) && opt_view(v) == m && final(w)@ == s2,
            None => res is Err,
        },
        final(w)@.same_frame(old(w)@),
{
    let size: u32 = match w.read_u32_le() {
        Ok(v) => v,
        Err(e) => return Err(ShapeParseError::Io(e)),
    };
    // Only read the path if its size is not zero.
    if size == 0 {
        return Ok(None);
    }
    let mut pw: ByteStream = match w.blind_window(size as u64) {
        Ok(v) => v,
        Err(e) => return Err(ShapeParseError::Io(e)),
    };
    let path: Path = match Path::try_parse(&mut pw) {
        Ok(v) => v,
        Err(e) => return Err(ShapeParseError::TemplatePath(e)),
    };
    if let Err(e) = pw.ensure_eof() {
        return Err(ShapeParseError::UnfinishedPath(e));
    }
    proof { use_type_invariant(&*w); use_type_invariant(&pw); }
    w.continue_after(&pw);
    Ok(Some(Template { is_flipped_horizontally: flip_h, is_flipped_vertically: flip_v, owner_rect: rect, rotation: angle, path }))
}

fn read_shape_point(r: &mut ByteStream) -> (res: Result<Point, ShapeParseError>)
    ensures
        match spec_point(old(r)@) {
            Some((m, s2)) => res == Ok::<Point, ShapeParseError>(m) && final(r)@ == s2,
            None => res is Err,
        },
        final(r)@.same_frame(old(r)@),
{
    match Point::try_parse_f64(r) {
        Ok(v) => Ok(v),
        Err(e) => Err(ShapeParseError::Io(e)),
    }
}

/// Reads `n` items.
fn read_shape_control_points_n(r: &mut ByteStream, n: u8) -> (res: Result<Vec<Point>, ShapeParseError>)
    ensures
        match spec_repeat(old(r)@, n as nat, point_item()) {
            Some((vs, s2)) => res matches Ok(v) && v@ == vs && final(r)@ == s2,
            None => res is Err,
        },
        final(r)@.same_frame(old(r)@),
{
    let ghost s0 = r@;
    let ghost item = point_item();
    let mut items: Vec<Point> = Vec::new();
    let mut i: u8 = 0;
    while i < n
        invariant
            i <= n,
            item == point_item(),
            s0 == old(r)@,
            r@.same_frame(s0),
            spec_repeat(s0, i as nat, item) matches Some((vs, st)) && items@ == vs && r@ == st,
        decreases n - i,
    {
        let ghost before = r@;
        proof { assert(item(before) == point_item()(before)); }
        let x: Point = match read_shape_point(r) {
            Ok(x) => x,
            Err(e) => {
                proof { lemma_repeat_fails(s0, (i + 1) as nat, n as nat, item); }
                return Err(e);
            },
        };
        items.push(x);
        i = i + 1;
    }
    Ok(items)
}

/// A `u8` count, then that many items.
fn read_shape_control_points(r: &mut ByteStream) -> (res: Result<Vec<Point>, ShapeParseError>)
    ensures
        match spec_u8_counted(old(r)@, point_item()) {
            Some((vs, s2)) => res matches Ok(v) && v@ == vs && final(r)@ == s2,
            None => res is Err,
        },
        final(r)@.same_frame(old(r)@),
{
    let n: u8 = match r.read_u8() {
        Ok(v) => v,
        Err(e) => return Err(ShapeParseError::Io(e)),
    };
    read_shape_control_points_n(r, n)
}


/// The fixed fields of a shape: its type, bounds and angle, its template, its control points
/// and, for a plain shape only, the bounds it was drawn with.
#[verifier::opaque]
pub open spec fn spec_shape_fixed(w: StreamModel, flip_h: bool, flip_v: bool, is_shape_only: bool) -> SpecRead<(ShapeType, Rect, RawF32, Option<TemplateModel>, Seq<Point>, Option<Rect>)> {
    match spec_then(spec_u32(w), |v: u32| spec_shape_type(v)) {
        Some((shape_type, w1)) => match spec_rect(w1) {
            Some((rect, w2)) => match spec_f32(w2) {
                Some((angle, w3)) => match spec_template(w3, flip_h, flip_v, rect, angle) {
                    Some((template, w4)) => match spec_u8_counted(w4, point_item()) {
                        Some((control_points, w5)) => match spec_opt(is_shape_only, spec_rect(w5), w5) {
                            Some((drawn, w6)) => Some(((shape_type, rect, angle, template, control_points, drawn), w6)),
                            None => None,
                        },
                        None => None,
                    },
                    None => None,
                },
                None => None,
            },
            None => None,
        },
        None => None,
    }
}

fn read_shape_fixed(w: &mut ByteStream, flip_h: bool, flip_v: bool, is_shape_only: bool) -> (res: Result<(ShapeType, Rect, RawF32, Option<Template>, Vec<Point>, Option<Rect>), ShapeParseError>)
    ensures
        match spec_shape_fixed(old(w)@, flip_h, flip_v, is_shape_only) {
            Some((m, s2)) => res matches Ok(v) && v.0 == m.0 && v.1 == m.1 && v.2 == m.2
                && opt_view(v.3) == m.3 && v.4@ == m.4 && v.5 == m.5 && final(w)@ == s2,
            None => res is Err,
        },
        final(w)@.same_frame(old(w)@),
{
    reveal(spec_shape_fixed);
    let t: u32 = match w.read_u32_le() {
        Ok(v) => v,
        Err(e) => return Err(ShapeParseError::Io(e)),
    };
    let shape_type: ShapeType = match ShapeType::try_from_u32(t) {
        Ok(v) => v,
        Err(e) => return Err(ShapeParseError::BadShapeType(e)),
    };
    let rect: Rect = match Rect::try_parse_f64(w) {
        Ok(v) => v,
        Err(e) => return Err(ShapeParseError::Io(e)),
    };
    let angle: RawF32 = match w.read_f32_le() {
        Ok(v) => v,
        Err(e) => return Err(ShapeParseError::Io(e)),
    };
    let template: Option<Template> = read_template(w, flip_h, flip_v, rect, angle)?;
    let control_points: Vec<Point> = read_shape_control_points(w)?;
    // This field exists iff this is a plain shape object, and not a text box or image.
    let drawn: Option<Rect> = if is_shape_only {
        match Rect::try_parse_f64(w) {
            Ok(v) => Some(v),
            Err(e) => return Err(ShapeParseError::Io(e)),
        }
    } else {
        None
    };
    Ok((shape_type, rect, angle, template, control_points, drawn))
}

fn read_shape_opt1_text_area_type(r: &mut ByteStream, present: bool) -> (res: Result<Option<TextAreaType>, ShapeParseError>)
    ensures
        match spec_opt(present, spec_then(spec_u8(old(r)@), |v: u8| spec_text_area_type(v)), old(r)@) {
            Some((m, s2)) => res matches Ok(v) && v == m && final(r)@ == s2,
            None => res is Err,
        },
        final(r)@.same_frame(old(r)@),
{
    if present {
        Ok(Some({
            let raw = match r.read_u8() {
            Ok(v) => v,
            Err(e) => return Err(ShapeParseError::Io(e)),
        };
            match TextAreaType::try_from_u8(raw) {
                Ok(v) => v,
                Err(e) => return Err(ShapeParseError::BadTextAreaType(e)),
            }
        }))
    } else {
        Ok(None)
    }
}

fn read_shape_opt1_pen_name_id(r: &mut ByteStream, present: bool) -> (res: Result<Option<u32>, ShapeParseError>)
    ensures
        match spec_opt(present, spec_u32(old(r)@), old(r)@) {
            Some((m, s2)) => res matches Ok(v) && v == m && final(r)@ == s2,
            None => res is Err,
        },
        final(r)@.same_frame(old(r)@),
{
    if present {
        Ok(Some(match r.read_u32_le() {
            Ok(v) => v,
            Err(e) => return Err(ShapeParseError::Io(e)),
        }))
    } else {
        Ok(None)
    }
}

fn read_shape_opt1_default_pen_name_id(r: &mut ByteStream, present: bool) -> (res: Result<Option<u32>, ShapeParseError>)
    ensures
        match spec_opt(present, spec_u32(old(r)@), old(r)@) {
            Some((m, s2)) => res matches Ok(v) && v == m && final(r)@ == s2,
            None => res is Err,
        },
        final(r)@.same_frame(old(r)@),
{
    if present {
        Ok(Some(match r.read_u32_le() {
            Ok(v) => v,
            Err(e) => return Err(ShapeParseError::Io(e)),
        }))
    } else {
        Ok(None)
    }
}

fn read_shape_opt1_style_id(r: &mut ByteStream, present: bool) -> (res: Result<Option<u32>, ShapeParseError>)
    ensures
        match spec_opt(present, spec_u32(old(r)@), old(r)@) {
            Some((m, s2)) => res matches Ok(v) && v == m && final(r)@ == s2,
            None => res is Err,
        },
        final(r)@.same_frame(old(r)@),
{
    if present {
        Ok(Some(match r.read_u32_le() {
            Ok(v) => v,
            Err(e) => return Err(ShapeParseError::Io(e)),
        }))
    } else {
        Ok(None)
    }
}

/// Optional fields of a shape.
#[verifier::opaque]
pub open spec fn spec_shape_opt1(s: StreamModel, fb: u32) -> SpecRead<(Option<TextAreaType>, Option<u32>, Option<u32>, Option<u32>)> {
    match spec_opt(bit_is_set(fb, 1), spec_then(spec_u8(s), |v: u8| spec_text_area_type(v)), s) {
        Some((text_area_type, s1)) => 
        match spec_opt(bit_is_set(fb, 2), spec_u32(s1), s1) {
            Some((pen_name_id, s2)) => 
            match spec_opt(bit_is_set(fb, 3), spec_u32(s2), s2) {
                Some((default_pen_name_id, s3)) => 
                match spec_opt(bit_is_set(fb, 4), spec_u32(s3), s3) {
                    Some((style_id, s4)) => Some(((text_area_type, pen_name_id, default_pen_name_id, style_id), s4)),
                    None => None,
                },
                None => None,
            },
            None => None,
        },
        None => None,
    }
}

#[verifier::rlimit(30)]
fn read_shape_opt1(r: &mut ByteStream, flags: &mut CheckedBitfield) -> (res: Result<(Option<TextAreaType>, Option<u32>, Option<u32>, Option<u32>), ShapeParseError>)
    ensures
        match spec_shape_opt1(old(r)@, old(flags).bits()) {
            Some((m, s2)) => res matches Ok(v) && v.0 == m.0
                && v.1 == m.1
                && v.2 == m.2
                && v.3 == m.3
                && final(flags).bits() == old(flags).bits()
                && final(flags).checked() == old(flags).checked() | 0x1e
                && final(r)@ == s2,
            None => res is Err,
        },
        final(r)@.same_frame(old(r)@),
{
    reveal(spec_shape_opt1);
    let ghost c0 = flags.checked();
    let present_text_area_type: bool = flags.check_bit(1);
    let ghost c1 = flags.checked();
    let text_area_type: Option<TextAreaType> = read_shape_opt1_text_area_type(r, present_text_area_type)?;
    let present_pen_name_id: bool = flags.check_bit(2);
    let ghost c2 = flags.checked();
    let pen_name_id: Option<u32> = read_shape_opt1_pen_name_id(r, present_pen_name_id)?;
    let present_default_pen_name_id: bool = flags.check_bit(3);
    let ghost c3 = flags.checked();
    let default_pen_name_id: Option<u32> = read_shape_opt1_default_pen_name_id(r, present_default_pen_name_id)?;
    let present_style_id: bool = flags.check_bit(4);
    let ghost c4 = flags.checked();
    let style_id: Option<u32> = read_shape_opt1_style_id(r, present_style_id)?;
    proof {
        crate::bits::lemma_or_assoc(c0, crate::bits::bit_mask(1u8), crate::bits::bit_mask(2u8));
        crate::bits::lemma_or_assoc(c0, crate::bits::bit_mask(1u8) | crate::bits::bit_mask(2u8), crate::bits::bit_mask(3u8));
        crate::bits::lemma_or_assoc(c0, crate::bits::bit_mask(1u8) | crate::bits::bit_mask(2u8) | crate::bits::bit_mask(3u8), crate::bits::bit_mask(4u8));
        crate::bits::lemma_chunk_masks();
        assert(c4 == c0 | 0x1eu32);
    }
    Ok((text_area_type, pen_name_id, default_pen_name_id, style_id))
}

fn read_shape_opt2_fill_effect(r: &mut ByteStream, present: bool) -> (res: Result<Option<FillEffect>, ShapeParseError>)
    ensures
        match spec_opt(present, spec_fill_effect(old(r)@), old(r)@) {
            Some((m, s2)) => res matches Ok(v) && opt_view(v) == m && final(r)@ == s2,
            None => res is Err,
        },
        final(r)@.same_frame(old(r)@),
{
    if present {
        Ok(Some(match FillEffect::try_parse(r) {
            Ok(v) => v,
            Err(e) => return Err(ShapeParseError::FillEffect(e)),
        }))
    } else {
        Ok(None)
    }
}

fn read_shape_opt2_border_1(r: &mut ByteStream, present: bool) -> (res: Result<Option<()>, ShapeParseError>)
    ensures
        match spec_opt(present, spec_skip_r(old(r)@, 4), old(r)@) {
            Some((m, s2)) => res matches Ok(v) && v == m && final(r)@ == s2,
            None => res is Err,
        },
        final(r)@.same_frame(old(r)@),
{
    if present {
        Ok(Some(match r.skip_bytes(4) {
            Ok(v) => v,
            Err(e) => return Err(ShapeParseError::Io(e)),
        }))
    } else {
        Ok(None)
    }
}

fn read_shape_opt2_border_2(r: &mut ByteStream, present: bool) -> (res: Result<Option<()>, ShapeParseError>)
    ensures
        match spec_opt(present, spec_skip_r(old(r)@, 4), old(r)@) {
            Some((m, s2)) => res matches Ok(v) && v == m && final(r)@ == s2,
            None => res is Err,
        },
        final(r)@.same_frame(old(r)@),
{
    if present {
        Ok(Some(match r.skip_bytes(4) {
            Ok(v) => v,
            Err(e) => return Err(ShapeParseError::Io(e)),
        }))
    } else {
        Ok(None)
    }
}

fn read_shape_opt2_border_3(r: &mut ByteStream, present: bool) -> (res: Result<Option<()>, ShapeParseError>)
    ensures
        match spec_opt(present, spec_skip_r(old(r)@, 2), old(r)@) {
            Some((m, s2)) => res matches Ok(v) && v == m && final(r)@ == s2,
            None => res is Err,
        },
        final(r)@.same_frame(old(r)@),
{
    if present {
        Ok(Some(match r.skip_bytes(2) {
            Ok(v) => v,
            Err(e) => return Err(ShapeParseError::Io(e)),
        }))
    } else {
        Ok(None)
    }
}

/// Optional fields of a shape.
#[verifier::opaque]
pub open spec fn spec_shape_opt2(s: StreamModel, fb: u32) -> SpecRead<(Option<FillEffectModel>, Option<()>, Option<()>, Option<()>)> {
    match spec_opt(bit_is_set(fb, 5), spec_fill_effect(s), s) {
        Some((fill_effect, s1)) => 
        match spec_opt(bit_is_set(fb, 6), spec_skip_r(s1, 4), s1) {
            Some((_border_1, s2)) => 
            match spec_opt(bit_is_set(fb, 7), spec_skip_r(s2, 4), s2) {
                Some((_border_2, s3)) => 
                match spec_opt(bit_is_set(fb, 8), spec_skip_r(s3, 2), s3) {
                    Some((_border_3, s4)) => Some(((fill_effect, _border_1, _border_2, _border_3), s4)),
                    None => None,
                },
                None => None,
            },
            None => None,
        },
        None => None,
    }
}

#[verifier::rlimit(30)]
fn read_shape_opt2(r: &mut ByteStream, flags: &mut CheckedBitfield) -> (res: Result<(Option<FillEffect>, Option<()>, Option<()>, Option<()>), ShapeParseError>)
    ensures
        match spec_shape_opt2(old(r)@, old(flags).bits()) {
            Some((m, s2)) => res matches Ok(v) && opt_view(v.0) == m.0
                && v.1 == m.1
                && v.2 == m.2
                && v.3 == m.3
                && final(flags).bits() == old(flags).bits()
                && final(flags).checked() == old(flags).checked() | 0x1e0
                && final(r)@ == s2,
            None => res is Err,
        },
        final(r)@.same_frame(old(r)@),
{
    reveal(spec_shape_opt2);
    let ghost c0 = flags.checked();
    let present_fill_effect: bool = flags.check_bit(5);
    let ghost c1 = flags.checked();
    let fill_effect: Option<FillEffect> = read_shape_opt2_fill_effect(r, present_fill_effect)?;
    let present__border_1: bool = flags.check_bit(6);
    let ghost c2 = flags.checked();
    let _border_1: Option<()> = read_shape_opt2_border_1(r, present__border_1)?;
    let present__border_2: bool = flags.check_bit(7);
    let ghost c3 = flags.checked();
    let _border_2: Option<()> = read_shape_opt2_border_2(r, present__border_2)?;
    let present__border_3: bool = flags.check_bit(8);
    let ghost c4 = flags.checked();
    let _border_3: Option<()> = read_shape_opt2_border_3(r, present__border_3)?;
    proof {
        crate::bits::lemma_or_assoc(c0, crate::bits::bit_mask(5u8), crate::bits::bit_mask(6u8));
        crate::bits::lemma_or_assoc(c0, crate::bits::bit_mask(5u8) | crate::bits::bit_mask(6u8), crate::bits::bit_mask(7u8));
        crate::bits::lemma_or_assoc(c0, crate::bits::bit_mask(5u8) | crate::bits::bit_mask(6u8) | crate::bits::bit_mask(7u8), crate::bits::bit_mask(8u8));
        crate::bits::lemma_chunk_masks();
        assert(c4 == c0 | 0x1e0u32);
    }
    Ok((fill_effect, _border_1, _border_2, _border_3))
}

fn read_shape_opt3_hint_text(r: &mut ByteStream, present: bool) -> (res: Result<Option<String>, ShapeParseError>)
    ensures
        match spec_opt(present, spec_str_opt(spec_short_u16_string(old(r)@)), old(r)@) {
            Some((m, s2)) => res matches Ok(v) && opt_view(v) == m && final(r)@ == s2,
            None => res is Err,
        },
        final(r)@.same_frame(old(r)@),
{
    if present {
        Ok(Some(match r.read_short_u16_string() {
            Ok(v) => v,
            Err(e) => return Err(ShapeParseError::HintText(e)),
        }))
    } else {
        Ok(None)
    }
}

fn read_shape_opt3_hint_text_colour(r: &mut ByteStream, present: bool) -> (res: Result<Option<[u8; 4]>, ShapeParseError>)
    ensures
        match spec_opt(present, spec_take(old(r)@, 4), old(r)@) {
            Some((m, s2)) => res matches Ok(v) && opt_view(v) == m && final(r)@ == s2,
            None => res is Err,
        },
        final(r)@.same_frame(old(r)@),
{
    if present {
        Ok(Some(match r.read_4_bytes() {
            Ok(v) => v,
            Err(e) => return Err(ShapeParseError::Io(e)),
        }))
    } else {
        Ok(None)
    }
}

fn read_shape_opt3_hint_text_font_size(r: &mut ByteStream, present: bool) -> (res: Result<Option<RawF32>, ShapeParseError>)
    ensures
        match spec_opt(present, spec_f32(old(r)@), old(r)@) {
            Some((m, s2)) => res matches Ok(v) && v == m && final(r)@ == s2,
            None => res is Err,
        },
        final(r)@.same_frame(old(r)@),
{
    if present {
        Ok(Some(match r.read_f32_le() {
            Ok(v) => v,
            Err(e) => return Err(ShapeParseError::Io(e)),
        }))
    } else {
        Ok(None)
    }
}

fn read_shape_opt3_hint_text_style(r: &mut ByteStream, present: bool) -> (res: Result<Option<HintTextStyle>, ShapeParseError>)
    ensures
        match spec_opt(present, spec_then(spec_u8(old(r)@), |v: u8| spec_hint_text_style(v)), old(r)@) {
            Some((m, s2)) => res matches Ok(v) && v == m && final(r)@ == s2,
            None => res is Err,
        },
        final(r)@.same_frame(old(r)@),
{
    if present {
        Ok(Some({
            let raw = match r.read_u8() {
            Ok(v) => v,
            Err(e) => return Err(ShapeParseError::Io(e)),
        };
            match HintTextStyle::try_from_u8(raw) {
                Ok(v) => v,
                Err(e) => return Err(ShapeParseError::BadHintTextStyle(e)),
            }
        }))
    } else {
        Ok(None)
    }
}

/// Optional fields of a shape.
#[verifier::opaque]
pub open spec fn spec_shape_opt3(s: StreamModel, fb: u32) -> SpecRead<(Option<Seq<char>>, Option<Seq<u8>>, Option<RawF32>, Option<HintTextStyle>)> {
    match spec_opt(bit_is_set(fb, 9), spec_str_opt(spec_short_u16_string(s)), s) {
        Some((hint_text, s1)) => 
        match spec_opt(bit_is_set(fb, 10), spec_take(s1, 4), s1) {
            Some((hint_text_colour, s2)) => 
            match spec_opt(bit_is_set(fb, 11), spec_f32(s2), s2) {
                Some((hint_text_font_size, s3)) => 
                match spec_opt(bit_is_set(fb, 22), spec_then(spec_u8(s3), |v: u8| spec_hint_text_style(v)), s3) {
                    Some((hint_text_style, s4)) => Some(((hint_text, hint_text_colour, hint_text_font_size, hint_text_style), s4)),
                    None => None,
                },
                None => None,
            },
            None => None,
        },
        None => None,
    }
}

#[verifier::rlimit(30)]
fn read_shape_opt3(r: &mut ByteStream, flags: &mut CheckedBitfield) -> (res: Result<(Option<String>, Option<[u8; 4]>, Option<RawF32>, Option<HintTextStyle>), ShapeParseError>)
    ensures
        match spec_shape_opt3(old(r)@, old(flags).bits()) {
            Some((m, s2)) => res matches Ok(v) && opt_view(v.0) == m.0
                && opt_view(v.1) == m.1
                && v.2 == m.2
                && v.3 == m.3
                && final(flags).bits() == old(flags).bits()
                && final(flags).checked() == old(flags).checked() | 0x400e00
                && final(r)@ == s2,
            None => res is Err,
        },
        final(r)@.same_frame(old(r)@),
{
    reveal(spec_shape_opt3);
    let ghost c0 = flags.checked();
    let present_hint_text: bool = flags.check_bit(9);
    let ghost c1 = flags.checked();
    let hint_text: Option<String> = read_shape_opt3_hint_text(r, present_hint_text)?;
    let present_hint_text_colour: bool = flags.check_bit(10);
    let ghost c2 = flags.checked();
    let hint_text_colour: Option<[u8; 4]> = read_shape_opt3_hint_text_colour(r, present_hint_text_colour)?;
    let present_hint_text_font_size: bool = flags.check_bit(11);
    let ghost c3 = flags.checked();
    let hint_text_font_size: Option<RawF32> = read_shape_opt3_hint_text_font_size(r, present_hint_text_font_size)?;
    let present_hint_text_style: bool = flags.check_bit(22);
    let ghost c4 = flags.checked();
    let hint_text_style: Option<HintTextStyle> = read_shape_opt3_hint_text_style(r, present_hint_text_style)?;
    proof {
        crate::bits::lemma_or_assoc(c0, crate::bits::bit_mask(9u8), crate::bits::bit_mask(10u8));
        crate::bits::lemma_or_assoc(c0, crate::bits::bit_mask(9u8) | crate::bits::bit_mask(10u8), crate::bits::bit_mask(11u8));
        crate::bits::lemma_or_assoc(c0, crate::bits::bit_mask(9u8) | crate::bits::bit_mask(10u8) | crate::bits::bit_mask(11u8), crate::bits::bit_mask(22u8));
        crate::bits::lemma_chunk_masks();
        assert(c4 == c0 | 0x400e00u32);
    }
    Ok((hint_text, hint_text_colour, hint_text_font_size, hint_text_style))
}

fn read_shape_opt4_ellipsis_type(r: &mut ByteStream, present: bool) -> (res: Result<Option<EllipsisType>, ShapeParseError>)
    ensures
        match spec_opt(present, spec_then(spec_u8(old(r)@), |v: u8| spec_ellipsis_type(v)), old(r)@) {
            Some((m, s2)) => res matches Ok(v) && v == m && final(r)@ == s2,
            None => res is Err,
        },
        final(r)@.same_frame(old(r)@),
{
    if present {
        Ok(Some({
            let raw = match r.read_u8() {
            Ok(v) => v,
            Err(e) => return Err(ShapeParseError::Io(e)),
        };
            match EllipsisType::try_from_u8(raw) {
                Ok(v) => v,
                Err(e) => return Err(ShapeParseError::BadEllipsisType(e)),
            }
        }))
    } else {
        Ok(None)
    }
}

fn read_shape_opt4_text_auto_fit_type(r: &mut ByteStream, present: bool) -> (res: Result<Option<TextAutoFitType>, ShapeParseError>)
    ensures
        match spec_opt(present, spec_then(spec_u8(old(r)@), |v: u8| spec_text_auto_fit_type(v)), old(r)@) {
            Some((m, s2)) => res matches Ok(v) && v == m && final(r)@ == s2,
            None => res is Err,
        },
        final(r)@.same_frame(old(r)@),
{
    if present {
        Ok(Some({
            let raw = match r.read_u8() {
            Ok(v) => v,
            Err(e) => return Err(ShapeParseError::Io(e)),
        };
            match TextAutoFitType::try_from_u8(raw) {
                Ok(v) => v,
                Err(e) => return Err(ShapeParseError::BadTextAutoFitType(e)),
            }
        }))
    } else {
        Ok(None)
    }
}

fn read_shape_opt4_ime_action_type(r: &mut ByteStream, present: bool) -> (res: Result<Option<ImeActionType>, ShapeParseError>)
    ensures
        match spec_opt(present, spec_then(spec_u8(old(r)@), |v: u8| spec_ime_action_type(v)), old(r)@) {
            Some((m, s2)) => res matches Ok(v) && v == m && final(r)@ == s2,
            None => res is Err,
        },
        final(r)@.same_frame(old(r)@),
{
    if present {
        Ok(Some({
            let raw = match r.read_u8() {
            Ok(v) => v,
            Err(e) => return Err(ShapeParseError::Io(e)),
        };
            match ImeActionType::try_from_u8(raw) {
                Ok(v) => v,
                Err(e) => return Err(ShapeParseError::BadImeActionType(e)),
            }
        }))
    } else {
        Ok(None)
    }
}

fn read_shape_opt4_text_input_type(r: &mut ByteStream, present: bool) -> (res: Result<TextInputType, ShapeParseError>)
    ensures
        match spec_opt_or(present, spec_then(spec_u8(old(r)@), |v: u8| spec_text_input_type(v)), old(r)@, TextInputType::Text) {
            Some((m, s2)) => res matches Ok(v) && v == m && final(r)@ == s2,
            None => res is Err,
        },
        final(r)@.same_frame(old(r)@),
{
    if present {
        Ok({
            let raw = match r.read_u8() {
            Ok(v) => v,
            Err(e) => return Err(ShapeParseError::Io(e)),
        };
            match TextInputType::try_from_u8(raw) {
                Ok(v) => v,
                Err(e) => return Err(ShapeParseError::BadTextInputType(e)),
            }
        })
    } else {
        Ok(TextInputType::Text)
    }
}

/// Optional fields of a shape.
#[verifier::opaque]
pub open spec fn spec_shape_opt4(s: StreamModel, fb: u32) -> SpecRead<(Option<EllipsisType>, Option<TextAutoFitType>, Option<ImeActionType>, TextInputType)> {
    match spec_opt(bit_is_set(fb, 12), spec_then(spec_u8(s), |v: u8| spec_ellipsis_type(v)), s) {
        Some((ellipsis_type, s1)) => 
        match spec_opt(bit_is_set(fb, 13), spec_then(spec_u8(s1), |v: u8| spec_text_auto_fit_type(v)), s1) {
            Some((text_auto_fit_type, s2)) => 
            match spec_opt(bit_is_set(fb, 14), spec_then(spec_u8(s2), |v: u8| spec_ime_action_type(v)), s2) {
                Some((ime_action_type, s3)) => 
                match spec_opt_or(bit_is_set(fb, 15), spec_then(spec_u8(s3), |v: u8| spec_text_input_type(v)), s3, TextInputType::Text) {
                    Some((text_input_type, s4)) => Some(((ellipsis_type, text_auto_fit_type, ime_action_type, text_input_type), s4)),
                    None => None,
                },
                None => None,
            },
            None => None,
        },
        None => None,
    }
}

#[verifier::rlimit(30)]
fn read_shape_opt4(r: &mut ByteStream, flags: &mut CheckedBitfield) -> (res: Result<(Option<EllipsisType>, Option<TextAutoFitType>, Option<ImeActionType>, TextInputType), ShapeParseError>)
    ensures
        match spec_shape_opt4(old(r)@, old(flags).bits()) {
            Some((m, s2)) => res matches Ok(v) && v.0 == m.0
                && v.1 == m.1
                && v.2 == m.2
                && v.3 == m.3
                && final(flags).bits() == old(flags).bits()
                && final(flags).checked() == old(flags).checked() | 0xf000
                && final(r)@ == s2,
            None => res is Err,
        },
        final(r)@.same_frame(old(r)@),
{
    reveal(spec_shape_opt4);
    let ghost c0 = flags.checked();
    let present_ellipsis_type: bool = flags.check_bit(12);
    let ghost c1 = flags.checked();
    let ellipsis_type: Option<EllipsisType> = read_shape_opt4_ellipsis_type(r, present_ellipsis_type)?;
    let present_text_auto_fit_type: bool = flags.check_bit(13);
    let ghost c2 = flags.checked();
    let text_auto_fit_type: Option<TextAutoFitType> = read_shape_opt4_text_auto_fit_type(r, present_text_auto_fit_type)?;
    let present_ime_action_type: bool = flags.check_bit(14);
    let ghost c3 = flags.checked();
    let ime_action_type: Option<ImeActionType> = read_shape_opt4_ime_action_type(r, present_ime_action_type)?;
    let present_text_input_type: bool = flags.check_bit(15);
    let ghost c4 = flags.checked();
    let text_input_type: TextInputType = read_shape_opt4_text_input_type(r, present_text_input_type)?;
    proof {
        crate::bits::lemma_or_assoc(c0, crate::bits::bit_mask(12u8), crate::bits::bit_mask(13u8));
        crate::bits::lemma_or_assoc(c0, crate::bits::bit_mask(12u8) | crate::bits::bit_mask(13u8), crate::bits::bit_mask(14u8));
        crate::bits::lemma_or_assoc(c0, crate::bits::bit_mask(12u8) | crate::bits::bit_mask(13u8) | crate::bits::bit_mask(14u8), crate::bits::bit_mask(15u8));
        crate::bits::lemma_chunk_masks();
        assert(c4 == c0 | 0xf000u32);
    }
    Ok((ellipsis_type, text_auto_fit_type, ime_action_type, text_input_type))
}

fn read_shape_opt5_dep_1(r: &mut ByteStream, present: bool) -> (res: Result<Option<()>, ShapeParseError>)
    ensures
        match spec_opt(present, spec_skip_r(old(r)@, 16), old(r)@) {
            Some((m, s2)) => res matches Ok(v) && v == m && final(r)@ == s2,
            None => res is Err,
        },
        final(r)@.same_frame(old(r)@),
{
    if present {
        Ok(Some(match r.skip_bytes(16) {
            Ok(v) => v,
            Err(e) => return Err(ShapeParseError::Io(e)),
        }))
    } else {
        Ok(None)
    }
}

fn read_shape_opt5_dep_2(r: &mut ByteStream, present: bool) -> (res: Result<Option<()>, ShapeParseError>)
    ensures
        match spec_opt(present, spec_skip_r(old(r)@, 4), old(r)@) {
            Some((m, s2)) => res matches Ok(v) && v == m && final(r)@ == s2,
            None => res is Err,
        },
        final(r)@.same_frame(old(r)@),
{
    if present {
        Ok(Some(match r.skip_bytes(4) {
            Ok(v) => v,
            Err(e) => return Err(ShapeParseError::Io(e)),
        }))
    } else {
        Ok(None)
    }
}

fn read_shape_opt5_dep_3(r: &mut ByteStream, present: bool) -> (res: Result<Option<()>, ShapeParseError>)
    ensures
        match spec_opt(present, spec_skip_r(old(r)@, 16), old(r)@) {
            Some((m, s2)) => res matches Ok(v) && v == m && final(r)@ == s2,
            None => res is Err,
        },
        final(r)@.same_frame(old(r)@),
{
    if present {
        Ok(Some(match r.skip_bytes(16) {
            Ok(v) => v,
            Err(e) => return Err(ShapeParseError::Io(e)),
        }))
    } else {
        Ok(None)
    }
}

fn read_shape_opt5_dep_4(r: &mut ByteStream, present: bool) -> (res: Result<Option<()>, ShapeParseError>)
    ensures
        match spec_opt(present, spec_skip_r(old(r)@, 16), old(r)@) {
            Some((m, s2)) => res matches Ok(v) && v == m && final(r)@ == s2,
            None => res is Err,
        },
        final(r)@.same_frame(old(r)@),
{
    if present {
        Ok(Some(match r.skip_bytes(16) {
            Ok(v) => v,
            Err(e) => return Err(ShapeParseError::Io(e)),
        }))
    } else {
        Ok(None)
    }
}

/// Optional fields of a shape.
#[verifier::opaque]
pub open spec fn spec_shape_opt5(s: StreamModel, fb: u32) -> SpecRead<(Option<()>, Option<()>, Option<()>, Option<()>)> {
    match spec_opt(bit_is_set(fb, 16), spec_skip_r(s, 16), s) {
        Some((_dep_1, s1)) => 
        match spec_opt(bit_is_set(fb, 17), spec_skip_r(s1, 4), s1) {
            Some((_dep_2, s2)) => 
            match spec_opt(bit_is_set(fb, 18), spec_skip_r(s2, 16), s2) {
                Some((_dep_3, s3)) => 
                match spec_opt(bit_is_set(fb, 19), spec_skip_r(s3, 16), s3) {
                    Some((_dep_4, s4)) => Some(((_dep_1, _dep_2, _dep_3, _dep_4), s4)),
                    None => None,
                },
                None => None,
            },
            None => None,
        },
        None => None,
    }
}

#[verifier::rlimit(30)]
fn read_shape_opt5(r: &mut ByteStream, flags: &mut CheckedBitfield) -> (res: Result<(Option<()>, Option<()>, Option<()>, Option<()>), ShapeParseError>)
    ensures
        match spec_shape_opt5(old(r)@, old(flags).bits()) {
            Some((m, s2)) => res matches Ok(v) && v.0 == m.0
                && v.1 == m.1
                && v.2 == m.2
                && v.3 == m.3
                && final(flags).bits() == old(flags).bits()
                && final(flags).checked() == old(flags).checked() | 0xf0000
                && final(r)@ == s2,
            None => res is Err,
        },
        final(r)@.same_frame(old(r)@),
{
    reveal(spec_shape_opt5);
    let ghost c0 = flags.checked();
    let present__dep_1: bool = flags.check_bit(16);
    let ghost c1 = flags.checked();
    let _dep_1: Option<()> = read_shape_opt5_dep_1(r, present__dep_1)?;
    let present__dep_2: bool = flags.check_bit(17);
    let ghost c2 = flags.checked();
    let _dep_2: Option<()> = read_shape_opt5_dep_2(r, present__dep_2)?;
    let present__dep_3: bool = flags.check_bit(18);
    let ghost c3 = flags.checked();
    let _dep_3: Option<()> = read_shape_opt5_dep_3(r, present__dep_3)?;
    let present__dep_4: bool = flags.check_bit(19);
    let ghost c4 = flags.checked();
    let _dep_4: Option<()> = read_shape_opt5_dep_4(r, present__dep_4)?;
    proof {
        crate::bits::lemma_or_assoc(c0, crate::bits::bit_mask(16u8), crate::bits::bit_mask(17u8));
        crate::bits::lemma_or_assoc(c0, crate::bits::bit_mask(16u8) | crate::bits::bit_mask(17u8), crate::bits::bit_mask(18u8));
        crate::bits::lemma_or_assoc(c0, crate::bits::bit_mask(16u8) | crate::bits::bit_mask(17u8) | crate::bits::bit_mask(18u8), crate::bits::bit_mask(19u8));
        crate::bits::lemma_chunk_masks();
        assert(c4 == c0 | 0xf0000u32);
    }
    Ok((_dep_1, _dep_2, _dep_3, _dep_4))
}

fn read_shape_opt6_dep_5(r: &mut ByteStream, present: bool) -> (res: Result<Option<()>, ShapeParseError>)
    ensures
        match spec_opt(present, spec_skip_r(old(r)@, 4), old(r)@) {
            Some((m, s2)) => res matches Ok(v) && v == m && final(r)@ == s2,
            None => res is Err,
        },
        final(r)@.same_frame(old(r)@),
{
    if present {
        Ok(Some(match r.skip_bytes(4) {
            Ok(v) => v,
            Err(e) => return Err(ShapeParseError::Io(e)),
        }))
    } else {
        Ok(None)
    }
}

fn read_shape_opt6_hint_text_vertical_offset(r: &mut ByteStream, present: bool) -> (res: Result<Option<RawF32>, ShapeParseError>)
    ensures
        match spec_opt(present, spec_f32(old(r)@), old(r)@) {
            Some((m, s2)) => res matches Ok(v) && v == m && final(r)@ == s2,
            None => res is Err,
        },
        final(r)@.same_frame(old(r)@),
{
    if present {
        Ok(Some(match r.read_f32_le() {
            Ok(v) => v,
            Err(e) => return Err(ShapeParseError::Io(e)),
        }))
    } else {
        Ok(None)
    }
}

fn read_shape_opt6_lined_paper_thickness(r: &mut ByteStream, present: bool) -> (res: Result<Option<RawF32>, ShapeParseError>)
    ensures
        match spec_opt(present, spec_f32(old(r)@), old(r)@) {
            Some((m, s2)) => res matches Ok(v) && v == m && final(r)@ == s2,
            None => res is Err,
        },
        final(r)@.same_frame(old(r)@),
{
    if present {
        Ok(Some(match r.read_f32_le() {
            Ok(v) => v,
            Err(e) => return Err(ShapeParseError::Io(e)),
        }))
    } else {
        Ok(None)
    }
}

fn read_shape_opt6_lined_paper_colour(r: &mut ByteStream, present: bool) -> (res: Result<Option<[u8; 4]>, ShapeParseError>)
    ensures
        match spec_opt(present, spec_take(old(r)@, 4), old(r)@) {
            Some((m, s2)) => res matches Ok(v) && opt_view(v) == m && final(r)@ == s2,
            None => res is Err,
        },
        final(r)@.same_frame(old(r)@),
{
    if present {
        Ok(Some(match r.read_4_bytes() {
            Ok(v) => v,
            Err(e) => return Err(ShapeParseError::Io(e)),
        }))
    } else {
        Ok(None)
    }
}

/// Optional fields of a shape.
#[verifier::opaque]
pub open spec fn spec_shape_opt6(s: StreamModel, fb: u32) -> SpecRead<(Option<()>, Option<RawF32>, Option<RawF32>, Option<Seq<u8>>)> {
    match spec_opt(bit_is_set(fb, 20), spec_skip_r(s, 4), s) {
        Some((_dep_5, s1)) => 
        match spec_opt(bit_is_set(fb, 21), spec_f32(s1), s1) {
            Some((hint_text_vertical_offset, s2)) => 
            match spec_opt(bit_is_set(fb, 23), spec_f32(s2), s2) {
                Some((lined_paper_thickness, s3)) => 
                match spec_opt(bit_is_set(fb, 24), spec_take(s3, 4), s3) {
                    Some((lined_paper_colour, s4)) => Some(((_dep_5, hint_text_vertical_offset, lined_paper_thickness, lined_paper_colour), s4)),
                    None => None,
                },
                None => None,
            },
            None => None,
        },
        None => None,
    }
}

#[verifier::rlimit(30)]
fn read_shape_opt6(r: &mut ByteStream, flags: &mut CheckedBitfield) -> (res: Result<(Option<()>, Option<RawF32>, Option<RawF32>, Option<[u8; 4]>), ShapeParseError>)
    ensures
        match spec_shape_opt6(old(r)@, old(flags).bits()) {
            Some((m, s2)) => res matches Ok(v) && v.0 == m.0
                && v.1 == m.1
                && v.2 == m.2
                && opt_view(v.3) == m.3
                && final(flags).bits() == old(flags).bits()
                && final(flags).checked() == old(flags).checked() | 0x1b00000
                && final(r)@ == s2,
            None => res is Err,
        },
        final(r)@.same_frame(old(r)@),
{
    reveal(spec_shape_opt6);
    let ghost c0 = flags.checked();
    let present__dep_5: bool = flags.check_bit(20);
    let ghost c1 = flags.checked();
    let _dep_5: Option<()> = read_shape_opt6_dep_5(r, present__dep_5)?;
    let present_hint_text_vertical_offset: bool = flags.check_bit(21);
    let ghost c2 = flags.checked();
    let hint_text_vertical_offset: Option<RawF32> = read_shape_opt6_hint_text_vertical_offset(r, present_hint_text_vertical_offset)?;
    let present_lined_paper_thickness: bool = flags.check_bit(23);
    let ghost c3 = flags.checked();
    let lined_paper_thickness: Option<RawF32> = read_shape_opt6_lined_paper_thickness(r, present_lined_paper_thickness)?;
    let present_lined_paper_colour: bool = flags.check_bit(24);
    let ghost c4 = flags.checked();
    let lined_paper_colour: Option<[u8; 4]> = read_shape_opt6_lined_paper_colour(r, present_lined_paper_colour)?;
    proof {
        crate::bits::lemma_or_assoc(c0, crate::bits::bit_mask(20u8), crate::bits::bit_mask(21u8));
        crate::bits::lemma_or_assoc(c0, crate::bits::bit_mask(20u8) | crate::bits::bit_mask(21u8), crate::bits::bit_mask(23u8));
        crate::bits::lemma_or_assoc(c0, crate::bits::bit_mask(20u8) | crate::bits::bit_mask(21u8) | crate::bits::bit_mask(23u8), crate::bits::bit_mask(24u8));
        crate::bits::lemma_chunk_masks();
        assert(c4 == c0 | 0x1b00000u32);
    }
    Ok((_dep_5, hint_text_vertical_offset, lined_paper_thickness, lined_paper_colour))
}

/// The optional fields of a shape (those after its flex offset).
#[derive(Debug)]
pub struct ShapeFlex {
    pub text_common: Option<Common>,
    pub text_area_type: Option<TextAreaType>,
    pub pen_name_id: Option<u32>,
    pub default_pen_name_id: Option<u32>,
    pub style_id: Option<u32>,
    pub fill_effect: Option<FillEffect>,
    pub hint_text: Option<String>,
    pub hint_text_colour: Option<[u8; 4]>,
    pub hint_text_font_size: Option<RawF32>,
    pub hint_text_style: Option<HintTextStyle>,
    pub ellipsis_type: Option<EllipsisType>,
    pub text_auto_fit_type: Option<TextAutoFitType>,
    pub ime_action_type: Option<ImeActionType>,
    pub text_input_type: TextInputType,
    pub hint_text_vertical_offset: Option<RawF32>,
    pub lined_paper_thickness: Option<RawF32>,
    pub lined_paper_colour: Option<[u8; 4]>,
}

pub struct ShapeFlexModel {
    pub text_common: Option<CommonModel>,
    pub text_area_type: Option<TextAreaType>,
    pub pen_name_id: Option<u32>,
    pub default_pen_name_id: Option<u32>,
    pub style_id: Option<u32>,
    pub fill_effect: Option<FillEffectModel>,
    pub hint_text: Option<Seq<char>>,
    pub hint_text_colour: Option<Seq<u8>>,
    pub hint_text_font_size: Option<RawF32>,
    pub hint_text_style: Option<HintTextStyle>,
    pub ellipsis_type: Option<EllipsisType>,
    pub text_auto_fit_type: Option<TextAutoFitType>,
    pub ime_action_type: Option<ImeActionType>,
    pub text_input_type: TextInputType,
    pub hint_text_vertical_offset: Option<RawF32>,
    pub lined_paper_thickness: Option<RawF32>,
    pub lined_paper_colour: Option<Seq<u8>>,
}

/// The model of some text, if there is any.
pub open spec fn opt_common_model(c: &Option<Common>, depth: nat) -> Option<CommonModel>
    decreases depth, 5nat, 0nat,
{
    match c {
        Some(c) => Some(common_model(c, depth)),
        None => None,
    }
}

pub open spec fn shape_flex_model(f: &ShapeFlex, depth: nat) -> ShapeFlexModel
    decreases depth, 6nat, 0nat,
{
    ShapeFlexModel {
        text_common: opt_common_model(&f.text_common, depth),
        text_area_type: f.text_area_type,
        pen_name_id: f.pen_name_id,
        default_pen_name_id: f.default_pen_name_id,
        style_id: f.style_id,
        fill_effect: opt_view(f.fill_effect),
        hint_text: opt_view(f.hint_text),
        hint_text_colour: opt_view(f.hint_text_colour),
        hint_text_font_size: f.hint_text_font_size,
        hint_text_style: f.hint_text_style,
        ellipsis_type: f.ellipsis_type,
        text_auto_fit_type: f.text_auto_fit_type,
        ime_action_type: f.ime_action_type,
        text_input_type: f.text_input_type,
        hint_text_vertical_offset: f.hint_text_vertical_offset,
        lined_paper_thickness: f.lined_paper_thickness,
        lined_paper_colour: opt_view(f.lined_paper_colour),
    }
}

/// The optional fields of a shape after its text: bits 1 to 24 of the field bits `ff`.
#[verifier::opaque]
pub open spec fn spec_shape_flex_rest(w: StreamModel, ff: u32) -> SpecRead<ShapeFlexModel> {
    match spec_shape_opt1(w, ff) {
        Some((c1, w1)) => match spec_shape_opt2(w1, ff) {
            Some((c2, w2)) => match spec_shape_opt3(w2, ff) {
                Some((c3, w3)) => match spec_shape_opt4(w3, ff) {
                    Some((c4, w4)) => match spec_shape_opt5(w4, ff) {
                        Some((_c5, w5)) => match spec_shape_opt6(w5, ff) {
                            Some((c6, w6)) => Some((ShapeFlexModel {
                                text_common: None,
                                text_area_type: c1.0,
                                pen_name_id: c1.1,
                                default_pen_name_id: c1.2,
                                style_id: c1.3,
                                fill_effect: c2.0,
                                hint_text: c3.0,
                                hint_text_colour: c3.1,
                                hint_text_font_size: c3.2,
                                hint_text_style: c3.3,
                                ellipsis_type: c4.0,
                                text_auto_fit_type: c4.1,
                                ime_action_type: c4.2,
                                text_input_type: c4.3,
                                hint_text_vertical_offset: c6.1,
                                lined_paper_thickness: c6.2,
                                lined_paper_colour: c6.3,
                            }, w6)),
                            None => None,
                        },
                        None => None,
                    },
                    None => None,
                },
                None => None,
            },
            None => None,
        },
        None => None,
    }
}

#[verifier::rlimit(60)]
fn read_shape_flex_rest(w: &mut ByteStream, ff: &mut CheckedBitfield) -> (res: Result<ShapeFlex, ShapeParseError>)
    ensures
        match spec_shape_flex_rest(old(w)@, old(ff).bits()) {
            Some((m, s2)) => res matches Ok(v) && shape_flex_model(&v, 0) == m && final(w)@ == s2
                && final(ff).bits() == old(ff).bits()
                && final(ff).checked() == old(ff).checked() | 0x1fffffeu32,
            None => res is Err,
        },
        final(w)@.same_frame(old(w)@),
{
    reveal(spec_shape_flex_rest);
    let ghost c0 = ff.checked();
    let c1 = read_shape_opt1(w, ff)?;
    let c2 = read_shape_opt2(w, ff)?;
    let c3 = read_shape_opt3(w, ff)?;
    let c4 = read_shape_opt4(w, ff)?;
    let _c5 = read_shape_opt5(w, ff)?;
    let c6 = read_shape_opt6(w, ff)?;
    proof {
        let c = ff.checked();
        assert(c == c0 | 0x1fffffeu32) by (bit_vector)
            requires
                c == (((((c0 | 0x1eu32) | 0x1e0u32) | 0x400e00u32) | 0xf000u32) | 0xf0000u32) | 0x1b00000u32,
        ;
    }
    Ok(ShapeFlex {
        text_common: None,
        text_area_type: c1.0,
        pen_name_id: c1.1,
        default_pen_name_id: c1.2,
        style_id: c1.3,
        fill_effect: c2.0,
        hint_text: c3.0,
        hint_text_colour: c3.1,
        hint_text_font_size: c3.2,
        hint_text_style: c3.3,
        ellipsis_type: c4.0,
        text_auto_fit_type: c4.1,
        ime_action_type: c4.2,
        text_input_type: c4.3,
        hint_text_vertical_offset: c6.1,
        lined_paper_thickness: c6.2,
        lined_paper_colour: c6.3,
    })
}

/// The optional fields of a shape: its text (bit 0 of `ff`, read with the format version `fv`)
/// and the others.
pub open spec fn spec_shape_flex(w: StreamModel, ff: u32, fv: u32, depth: nat) -> SpecRead<ShapeFlexModel>
    decreases depth, 5nat, 0nat,
{
    match spec_opt(bit_is_set(ff, 0), spec_common(w, fv, depth), w) {
        Some((text_common, w1)) => match spec_shape_flex_rest(w1, ff) {
            Some((rest, w2)) => Some((ShapeFlexModel { text_common, ..rest }, w2)),
            None => None,
        },
        None => None,
    }
}

fn read_shape_flex(w: &mut ByteStream, ff: &mut CheckedBitfield, fv: u32, doc_ctx: DocumentContext, depth: u32) -> (res: Result<ShapeFlex, ShapeParseError>)
    ensures
        match spec_shape_flex(old(w)@, old(ff).bits(), fv, depth as nat) {
            Some((m, s2)) => res matches Ok(v) && shape_flex_model(&v, depth as nat) == m && final(w)@ == s2
                && final(ff).bits() == old(ff).bits()
                && final(ff).checked() == old(ff).checked() | 0x1ffffffu32,
            None => res is Err,
        },
        final(w)@.same_frame(old(w)@),
    decreases depth, 5nat,
{
    let ghost c0 = ff.checked();
    let present: bool = ff.check_bit(0);
    let text_common: Option<Common> = if present {
        match Common::parse_nested(w, &CommonParseContext { format_version: fv, doc_ctx }, depth) {
            Ok(c) => Some(c),
            Err(e) => return Err(ShapeParseError::TextCommon(e)),
        }
    } else {
        None
    };
    let ghost c1 = ff.checked();
    let rest: ShapeFlex = read_shape_flex_rest(w, ff)?;
    proof {
        let c = ff.checked();
        assert(c == c0 | 0x1ffffffu32) by (bit_vector)
            requires
                c1 == c0 | (1u32 << 0u8),
                c == c1 | 0x1fffffeu32,
        ;
    }
    Ok(ShapeFlex { text_common, ..rest })
}

/// Which shape a text box or image draws, and how.
#[derive(Debug)]
pub struct ShapeData {
    pub shape_type: ShapeType,
    pub fill_effect: Option<FillEffect>,
    pub template: Option<Template>,
    pub border_colour: Option<[u8; 4]>,
    pub border_width: Option<RawF32>,
    pub border_type: Option<BorderType>,
    pub original_drawn_rect: Option<Rect>,
    pub original_rect: Rect,
    pub original_angle: RawF32,
}

pub struct ShapeDataModel {
    pub shape_type: ShapeType,
    pub fill_effect: Option<FillEffectModel>,
    pub template: Option<TemplateModel>,
    pub border_colour: Option<Seq<u8>>,
    pub border_width: Option<RawF32>,
    pub border_type: Option<BorderType>,
    pub original_drawn_rect: Option<Rect>,
    pub original_rect: Rect,
    pub original_angle: RawF32,
}

impl View for ShapeData {
    type V = ShapeDataModel;

    open spec fn view(&self) -> ShapeDataModel {
        ShapeDataModel {
            shape_type: self.shape_type,
            fill_effect: opt_view(self.fill_effect),
            template: opt_view(self.template),
            border_colour: opt_view(self.border_colour),
            border_width: self.border_width,
            border_type: self.border_type,
            original_drawn_rect: self.original_drawn_rect,
            original_rect: self.original_rect,
            original_angle: self.original_angle,
        }
    }
}

/// The pens of a shape, by string id.
#[derive(Debug, Clone, Copy, PartialEq, Eq, Structural)]
pub struct Pen {
    pub pen_name_id: Option<u32>,
    pub default_pen_name_id: Option<u32>,
    pub style_id: Option<u32>,
}

/// The text settings of a shape.
#[derive(Debug)]
pub struct TextData {
    pub text_common: Option<Common>,
    pub text_area_type: Option<TextAreaType>,
    pub hint_text: Option<String>,
    pub hint_text_vertical_offset: Option<RawF32>,
    pub hint_text_style: Option<HintTextStyle>,
    pub is_hint_text_visible: bool,
    pub is_read_only: bool,
    pub is_text_editable: bool,
    pub hint_text_font_size: Option<RawF32>,
    pub hint_text_colour: Option<[u8; 4]>,
    pub ime_action_type: Option<ImeActionType>,
    pub text_input_type: TextInputType,
    pub ellipsis_type: Option<EllipsisType>,
    pub text_auto_fit_type: Option<TextAutoFitType>,
    pub lined_paper_thickness: Option<RawF32>,
    pub lined_paper_colour: Option<[u8; 4]>,
}

pub struct TextDataModel {
    pub text_common: Option<CommonModel>,
    pub text_area_type: Option<TextAreaType>,
    pub hint_text: Option<Seq<char>>,
    pub hint_text_vertical_offset: Option<RawF32>,
    pub hint_text_style: Option<HintTextStyle>,
    pub is_hint_text_visible: bool,
    pub is_read_only: bool,
    pub is_text_editable: bool,
    pub hint_text_font_size: Option<RawF32>,
    pub hint_text_colour: Option<Seq<u8>>,
    pub ime_action_type: Option<ImeActionType>,
    pub text_input_type: TextInputType,
    pub ellipsis_type: Option<EllipsisType>,
    pub text_auto_fit_type: Option<TextAutoFitType>,
    pub lined_paper_thickness: Option<RawF32>,
    pub lined_paper_colour: Option<Seq<u8>>,
}

pub open spec fn text_data_model(t: &TextData, depth: nat) -> TextDataModel
    decreases depth, 6nat, 0nat,
{
    TextDataModel {
        text_common: opt_common_model(&t.text_common, depth),
        text_area_type: t.text_area_type,
        hint_text: opt_view(t.hint_text),
        hint_text_vertical_offset: t.hint_text_vertical_offset,
        hint_text_style: t.hint_text_style,
        is_hint_text_visible: t.is_hint_text_visible,
        is_read_only: t.is_read_only,
        is_text_editable: t.is_text_editable,
        hint_text_font_size: t.hint_text_font_size,
        hint_text_colour: opt_view(t.hint_text_colour),
        ime_action_type: t.ime_action_type,
        text_input_type: t.text_input_type,
        ellipsis_type: t.ellipsis_type,
        text_auto_fit_type: t.text_auto_fit_type,
        lined_paper_thickness: t.lined_paper_thickness,
        lined_paper_colour: opt_view(t.lined_paper_colour),
    }
}

/// The image settings of a shape; only images fill them in.
#[derive(Debug)]
pub struct ImageData {
    pub transparency: bool,
    pub border_image_hash: Option<String>,
    pub border_image_nine_patch_width: Option<u32>,
    pub original_image_hash: Option<String>,
    pub crop_rect: Option<RectI32>,
    pub border_line_width: Option<RectF32>,
    pub border_image_bind_id: Option<u32>,
    pub border_image_nine_patch_rect: Option<RectI32>,
    pub compat_image_id: Option<u32>,
    pub original_image_id: Option<u32>,
    pub original_rect: Option<Rect>,
}

pub struct ImageDataModel {
    pub transparency: bool,
    pub border_image_hash: Option<Seq<char>>,
    pub border_image_nine_patch_width: Option<u32>,
    pub original_image_hash: Option<Seq<char>>,
    pub crop_rect: Option<RectI32>,
    pub border_line_width: Option<RectF32>,
    pub border_image_bind_id: Option<u32>,
    pub border_image_nine_patch_rect: Option<RectI32>,
    pub compat_image_id: Option<u32>,
    pub original_image_id: Option<u32>,
    pub original_rect: Option<Rect>,
}

impl View for ImageData {
    type V = ImageDataModel;

    open spec fn view(&self) -> ImageDataModel {
        ImageDataModel {
            transparency: self.transparency,
            border_image_hash: opt_view(self.border_image_hash),
            border_image_nine_patch_width: self.border_image_nine_patch_width,
            original_image_hash: opt_view(self.original_image_hash),
            crop_rect: self.crop_rect,
            border_line_width: self.border_line_width,
            border_image_bind_id: self.border_image_bind_id,
            border_image_nine_patch_rect: self.border_image_nine_patch_rect,
            compat_image_id: self.compat_image_id,
            original_image_id: self.original_image_id,
            original_rect: self.original_rect,
        }
    }
}

/// What parsing a shape needs: whether it is a plain shape (not a text box or image), and the
/// document.
pub struct ShapeParseContext<'fr, 'sr> {
    pub is_shape_only: bool,
    pub doc_ctx: DocumentContext<'fr, 'sr>,
}

/// A shape.
#[derive(Debug)]
pub struct Shape {
    pub shape_base: ShapeBase,
    pub shape_data: ShapeData,
    pub pen: Pen,
    pub text_data: TextData,
    pub image_data: ImageData,
    pub control_points: Vec<Point>,
}

pub struct ShapeModel {
    pub shape_base: ShapeBaseModel,
    pub shape_data: ShapeDataModel,
    pub pen: Pen,
    pub text_data: TextDataModel,
    pub image_data: ImageDataModel,
    pub control_points: Seq<Point>,
}

#[verifier::opaque]
pub open spec fn shape_model(s: &Shape, depth: nat) -> ShapeModel
    decreases depth, 7nat, 0nat,
{
    ShapeModel {
        shape_base: s.shape_base@,
        shape_data: s.shape_data@,
        pen: s.pen,
        text_data: text_data_model(&s.text_data, depth),
        image_data: s.image_data@,
        control_points: s.control_points@,
    }
}

/// The property bits of a shape.
pub open spec fn spec_shape_props(p: u32) -> (bool, bool, bool, bool, bool, bool) {
    (bit_is_set(p, 0), bit_is_set(p, 1), bit_is_set(p, 2), bit_is_set(p, 3), bit_is_set(p, 4), bit_is_set(p, 5))
}

/// The shape that a shape base, an object block of data type 7 and its fields make.
#[verifier::opaque]
pub open spec fn shape_of(sb: ShapeBaseModel, p: u32, x: (ShapeType, Rect, RawF32, Option<TemplateModel>, Seq<Point>, Option<Rect>), f: ShapeFlexModel) -> ShapeModel {
    let props = spec_shape_props(p);
    ShapeModel {
        shape_base: sb,
        shape_data: ShapeDataModel {
            shape_type: x.0,
            fill_effect: f.fill_effect,
            template: x.3,
            border_colour: None,
            border_width: None,
            border_type: None,
            original_drawn_rect: x.5,
            original_rect: x.1,
            original_angle: x.2,
        },
        pen: Pen { pen_name_id: f.pen_name_id, default_pen_name_id: f.default_pen_name_id, style_id: f.style_id },
        text_data: TextDataModel {
            text_common: f.text_common,
            text_area_type: f.text_area_type,
            hint_text: f.hint_text,
            hint_text_vertical_offset: f.hint_text_vertical_offset,
            hint_text_style: f.hint_text_style,
            is_hint_text_visible: props.3,
            is_read_only: props.4,
            is_text_editable: props.2,
            hint_text_font_size: f.hint_text_font_size,
            hint_text_colour: f.hint_text_colour,
            ime_action_type: f.ime_action_type,
            text_input_type: f.text_input_type,
            ellipsis_type: f.ellipsis_type,
            text_auto_fit_type: f.text_auto_fit_type,
            lined_paper_thickness: f.lined_paper_thickness,
            lined_paper_colour: f.lined_paper_colour,
        },
        image_data: ImageDataModel {
            transparency: props.5,
            border_image_hash: None,
            border_image_nine_patch_width: None,
            original_image_hash: None,
            crop_rect: None,
            border_line_width: None,
            border_image_bind_id: None,
            border_image_nine_patch_rect: None,
            compat_image_id: None,
            original_image_id: None,
            original_rect: None,
        },
        control_points: x.4,
    }
}

/// A shape: a shape base, then an object block of data type 7 with property bits 0 to 5, the
/// fixed fields, and the optional fields, with every set flag handled and every byte used.
#[verifier::opaque]
pub open spec fn spec_shape(s: StreamModel, is_shape_only: bool, depth: nat) -> SpecRead<ShapeModel>
    decreases depth, 7nat, 0nat,
{
    match spec_shape_base(s) {
        Some((sb, s1)) => match spec_object_header(s1, 7) {
            Some((fb, w, s2)) => {
                let p = spec_shape_props(fb.property_bits);
                match spec_shape_fixed(w, p.0, p.1, is_shape_only) {
                    Some((x, w1)) => match spec_flex(w1, fb) {
                        Some((wf, ff)) => match spec_shape_flex(wf, ff, sb.object_base.format_version, depth) {
                            Some((f, w2)) => if fb.property_bits & !0x3fu32 == 0 && ff & !0x1ffffffu32 == 0
                                && w2.remaining() == 0 {
                                Some((shape_of(sb, fb.property_bits, x, f), spec_continue(s2, w2)))
                            } else {
                                None
                            },
                            None => None,
                        },
                        None => None,
                    },
                    None => None,
                }
            },
            None => None,
        },
        None => None,
    }
}

/// Where the shape in `s` reads without error and handles every flag, but bytes are left in its
/// block: their number.
pub open spec fn spec_shape_unfinished(s: StreamModel, is_shape_only: bool, depth: nat) -> Option<int> {
    match spec_shape_base(s) {
        Some((sb, s1)) => match spec_object_header(s1, 7) {
            Some((fb, w, _)) => {
                let p = spec_shape_props(fb.property_bits);
                match spec_shape_fixed(w, p.0, p.1, is_shape_only) {
                    Some((_, w1)) => match spec_flex(w1, fb) {
                        Some((wf, ff)) => match spec_shape_flex(wf, ff, sb.object_base.format_version, depth) {
                            Some((_, w2)) => if fb.property_bits & !0x3fu32 == 0 && ff & !0x1ffffffu32 == 0
                                && w2.remaining() != 0 {
                                Some(w2.remaining())
                            } else {
                                None
                            },
                            None => None,
                        },
                        None => None,
                    },
                    None => None,
                }
            },
            None => None,
        },
        None => None,
    }
}

fn check_shape_props(flags: &mut CheckedBitfield) -> (r: (bool, bool, bool, bool, bool, bool))
    ensures
        r == spec_shape_props(old(flags).bits()),
        final(flags).bits() == old(flags).bits(),
        final(flags).checked() == old(flags).checked() | 0x3fu32,
{
    let ghost c0 = flags.checked();
    let a: bool = flags.check_bit(0);
    let ghost c1 = flags.checked();
    let b: bool = flags.check_bit(1);
    let ghost c2 = flags.checked();
    let c: bool = flags.check_bit(2);
    let ghost c3 = flags.checked();
    let d: bool = flags.check_bit(3);
    let ghost c4 = flags.checked();
    let e: bool = flags.check_bit(4);
    let ghost c5 = flags.checked();
    let f: bool = flags.check_bit(5);
    let ghost c6 = flags.checked();
    proof {
        crate::bits::lemma_or_assoc(c0, crate::bits::bit_mask(0u8), crate::bits::bit_mask(1u8));
        crate::bits::lemma_or_assoc(c0, crate::bits::bit_mask(0u8) | crate::bits::bit_mask(1u8), crate::bits::bit_mask(2u8));
        crate::bits::lemma_or_assoc(c0, crate::bits::bit_mask(0u8) | crate::bits::bit_mask(1u8) | crate::bits::bit_mask(2u8), crate::bits::bit_mask(3u8));
        crate::bits::lemma_or_assoc(c0, crate::bits::bit_mask(0u8) | crate::bits::bit_mask(1u8) | crate::bits::bit_mask(2u8) | crate::bits::bit_mask(3u8), crate::bits::bit_mask(4u8));
        crate::bits::lemma_or_assoc(c0, crate::bits::bit_mask(0u8) | crate::bits::bit_mask(1u8) | crate::bits::bit_mask(2u8) | crate::bits::bit_mask(3u8) | crate::bits::bit_mask(4u8), crate::bits::bit_mask(5u8));
        crate::bits::lemma_chunk_masks();
        assert(c6 == c0 | 0x3fu32);
    }
    (a, b, c, d, e, f)
}

/// Puts together a shape from its base, its property bits and its fields.
fn build_shape(
    shape_base: ShapeBase,
    props: (bool, bool, bool, bool, bool, bool),
    x: (ShapeType, Rect, RawF32, Option<Template>, Vec<Point>, Option<Rect>),
    f: ShapeFlex,
    Ghost(p): Ghost<u32>,
    Ghost(depth): Ghost<nat>,
) -> (shape: Shape)
    requires
        props == spec_shape_props(p),
    ensures
        shape_model(&shape, depth) == shape_of(
            shape_base@,
            p,
            (x.0, x.1, x.2, opt_view(x.3), x.4@, x.5),
            shape_flex_model(&f, depth),
        ),
{
    proof {
        reveal(shape_model);
        reveal(shape_of);
    }
    let shape = Shape {
        shape_base,
        shape_data: ShapeData {
            shape_type: x.0,
            fill_effect: f.fill_effect,
            template: x.3,
            border_colour: None,
            border_width: None,
            border_type: None,
            original_drawn_rect: x.5,
            original_rect: x.1,
            original_angle: x.2,
        },
        pen: Pen { pen_name_id: f.pen_name_id, default_pen_name_id: f.default_pen_name_id, style_id: f.style_id },
        text_data: TextData {
            text_common: f.text_common,
            text_area_type: f.text_area_type,
            hint_text: f.hint_text,
            hint_text_vertical_offset: f.hint_text_vertical_offset,
            hint_text_style: f.hint_text_style,
            is_hint_text_visible: props.3,
            is_read_only: props.4,
            is_text_editable: props.2,
            hint_text_font_size: f.hint_text_font_size,
            hint_text_colour: f.hint_text_colour,
            ime_action_type: f.ime_action_type,
            text_input_type: f.text_input_type,
            ellipsis_type: f.ellipsis_type,
            text_auto_fit_type: f.text_auto_fit_type,
            lined_paper_thickness: f.lined_paper_thickness,
            lined_paper_colour: f.lined_paper_colour,
        },
        image_data: ImageData {
            transparency: props.5,
            border_image_hash: None,
            border_image_nine_patch_width: None,
            original_image_hash: None,
            crop_rect: None,
            border_line_width: None,
            border_image_bind_id: None,
            border_image_nine_patch_rect: None,
            compat_image_id: None,
            original_image_id: None,
            original_rect: None,
        },
        control_points: x.4,
    };
    shape
}

impl Shape {
    /// Reads a shape whose text may hold objects nested `depth` more levels.
    #[verifier::rlimit(100)]
    #[verifier::spinoff_prover]
    pub fn parse_nested(stream: &mut ByteStream, ctx: &ShapeParseContext, depth: u32) -> (r: Result<Shape, ShapeParseError>)
        ensures
            match spec_shape(old(stream)@, ctx.is_shape_only, depth as nat) {
                Some((m, s2)) => r matches Ok(v) && shape_model(&v, depth as nat) == m && final(stream)@ == s2,
                None => r is Err,
            },
            spec_shape_base(old(stream)@) matches Some((_, s1)) ==> (spec_object_header_error(s1, 7) matches Some(e)
                ==> (r matches Err(ShapeParseError::Header(he)) && he == e)),
            spec_shape_unfinished(old(stream)@, ctx.is_shape_only, depth as nat) matches Some(n)
                ==> (r matches Err(ShapeParseError::Unfinished(u)) && u.remaining == n),
            final(stream)@.same_frame(old(stream)@),
        decreases depth, 7nat,
    {
        proof {
            reveal(spec_shape);
        }
        let shape_base: ShapeBase = match ShapeBase::try_parse(stream) {
            Ok(v) => v,
            Err(e) => return Err(ShapeParseError::Base(e)),
        };
        let (mut header, mut w) = match ObjectHeader::try_parse(stream, 7) {
            Ok(v) => v,
            Err(e) => return Err(ShapeParseError::Header(e)),
        };
        let ghost pbits = header.0.property_flags().bits();
        let props = check_shape_props(header.property_flags_mut());
        let x = read_shape_fixed(&mut w, props.0, props.1, ctx.is_shape_only)?;
        let ff: &mut CheckedBitfield = match header.init_flex(&mut w) {
            Ok(f) => f,
            Err(e) => return Err(ShapeParseError::Io(e)),
        };
        let fv: u32 = shape_base.object_base.format_version;
        let f: ShapeFlex = read_shape_flex(&mut w, ff, fv, ctx.doc_ctx, depth)?;
        proof {
            let fc = header.0.field_flags().checked();
            crate::bits::lemma_zero_or(0x1ffffffu32);
            assert(fc == 0x1ffffffu32);
            let pc = header.0.property_flags().checked();
            crate::bits::lemma_zero_or(0x3fu32);
            assert(pc == 0x3fu32);
        }
        if let Err(e) = header.ensure_flags_used() {
            return Err(ShapeParseError::Header(e));
        }
        if let Err(e) = w.ensure_eof() {
            return Err(ShapeParseError::Unfinished(e));
        }
        proof { use_type_invariant(&*stream); use_type_invariant(&w); }
        stream.continue_after(&w);
        Ok(build_shape(shape_base, props, x, f, Ghost(pbits), Ghost(depth as nat)))
    }

    pub fn raw_text_string(&self) -> (r: Option<&str>)
        ensures
            match r {
                Some(t) => self.text_data.text_common matches Some(c) && t@ == c.text@,
                None => self.text_data.text_common is None,
            },
    {
        match &self.text_data.text_common {
            Some(c) => Some(c.raw_string()),
            None => None,
        }
    }

    pub fn object_base(&self) -> (r: &ObjectBase)
        ensures
            r@ == self.shape_base@.object_base,
    {
        self.shape_base.object_base()
    }
}

impl<'a, 'fr, 'sr> TryParseWithContext<ByteStream<'a>, ShapeParseContext<'fr, 'sr>> for Shape {
    type ParseError = ShapeParseError;

    fn try_parse_with_ctx(stream: &mut ByteStream<'a>, ctx: &ShapeParseContext<'fr, 'sr>) -> (r: Result<Shape, ShapeParseError>)
        ensures
            match spec_shape(old(stream)@, ctx.is_shape_only, NESTING_LIMIT as nat) {
                Some((m, s2)) => r matches Ok(v) && shape_model(&v, NESTING_LIMIT as nat) == m && final(stream)@ == s2,
                None => r is Err,
            },
            final(stream)@.same_frame(old(stream)@),
    {
        Shape::parse_nested(stream, ctx, NESTING_LIMIT)
    }
}

} // verus!
