//! The end tag in `end_tag.bin`: document settings, checked against the SDK type's identifier.
use vstd::prelude::*;
use vstd::string::StringSliceAdditionalSpecFns;

use crate::bits::{bit_is_set, bit_mask, CheckedBitfield, UnhandledBitsError};
use crate::byte_stream::{
    string_from_utf8_lossy, utf8_lossy,
    bytes_eq, spec_blind_window, spec_skip, spec_continue, spec_i64, spec_long_u16_string,
    spec_short_u16_string, spec_take, spec_timestamp_r, spec_u16, spec_u32, spec_f32, ByteStream,
    ExactSizedStream, IoError, RawF32, ReadStringError, ReadTimestampError, StreamModel, Timestamp,
    UnfinishedParsingError,
};
use crate::context::TryParseWithContext;
use crate::{spec_app_version, AppVersion, AppVersionModel, AppVersionParseError};
use crate::byte_stream::TryParse;

verus! {

/// The SDK that a document was written for; each ends its end tag with its own identifier.
#[derive(Debug, Clone, Copy, PartialEq, Eq, Structural)]
pub enum NoteSdkType {
    /// `SAMSUNG S-Pen PAINTING SDK`; 0x1 in DLL
    SamsungSPenPainting,
    /// `S-Pen SDK`; 0x2 in DLL
    SPen,
    /// `S-Pen PAINTING SDK`; 0x3 in DLL
    SPenPainting,
    /// `SAMSUNG S-Pen SDK`; 0x4 in DLL
    SamsungSPen,
}

/// The identifier of an SDK type.
pub open spec fn spec_ident(t: NoteSdkType) -> &'static str {
    match t {
        NoteSdkType::SamsungSPenPainting => "Document for SAMSUNG S-Pen PAINTING SDK",
        NoteSdkType::SPen => "Document for S-Pen SDK",
        NoteSdkType::SPenPainting => "Document for S-Pen PAINTING SDK",
        NoteSdkType::SamsungSPen => "Document for SAMSUNG S-Pen SDK",
    }
}

/// The bytes of an SDK type's identifier.
pub open spec fn ident_bytes(t: NoteSdkType) -> Seq<u8> {
    spec_ident(t).spec_bytes()
}

impl NoteSdkType {
    pub fn ident(self) -> (r: &'static str)
        ensures
            r == spec_ident(self),
    {
        match self {
            NoteSdkType::SamsungSPenPainting => "Document for SAMSUNG S-Pen PAINTING SDK",
            NoteSdkType::SPen => "Document for S-Pen SDK",
            NoteSdkType::SPenPainting => "Document for S-Pen PAINTING SDK",
            NoteSdkType::SamsungSPen => "Document for SAMSUNG S-Pen SDK",
        }
    }
}

/// How the pages of a document are laid out.
#[derive(Debug, Clone, Copy, PartialEq, Eq, Structural)]
pub enum PageModel {
    /// `PageMode.LIST`
    Paged,
    /// `PageMode.SINGLE`
    Pageless,
}

/// The value is not that of a `PageModel`.
#[derive(Debug, Clone, Copy, PartialEq, Eq, Structural)]
pub struct InvalidPageModelError {
    pub bad_value: u16,
}

/// The `PageModel` that `v` stands for: 0 to 1 in declaration order.
pub open spec fn spec_page_model(v: u16) -> Option<PageModel> {
    if v == 0 {
        Some(PageModel::Paged)
    } else if v == 1 {
        Some(PageModel::Pageless)
    } else {
        None
    }
}

impl PageModel {
    pub fn try_from_u16(v: u16) -> (r: Result<PageModel, InvalidPageModelError>)
        ensures
            match spec_page_model(v) {
                Some(x) => r == Ok::<PageModel, InvalidPageModelError>(x),
                None => r == Err::<PageModel, InvalidPageModelError>(InvalidPageModelError { bad_value: v }),
            },
    {
        match v {
            0 => Ok(PageModel::Paged),
            1 => Ok(PageModel::Pageless),
            _ => Err(InvalidPageModelError { bad_value: v }),
        }
    }
}

/// Whether and how a document is locked.
#[derive(Debug, Clone, Copy, PartialEq, Eq, Structural)]
pub enum DocumentType {
    /// `UNLOCKED_DOC`
    UnlockedDoc,
    /// `LOCKED_SDOC`
    LockedSdoc,
    /// `LOCKED_SPD`
    LockedSpd,
    /// `LOCKED_SNB`
    LockedSnb,
    /// `LOCKED_TMEMO`
    LockedTmemo,
    /// `LOCKED_WDOC`
    LockedWdoc,
}

/// The value is not that of a `DocumentType`.
#[derive(Debug, Clone, Copy, PartialEq, Eq, Structural)]
pub struct InvalidDocumentTypeError {
    pub bad_value: u16,
}

/// The `DocumentType` that `v` stands for: 0 to 5 in declaration order.
pub open spec fn spec_document_type(v: u16) -> Option<DocumentType> {
    if v == 0 {
        Some(DocumentType::UnlockedDoc)
    } else if v == 1 {
        Some(DocumentType::LockedSdoc)
    } else if v == 2 {
        Some(DocumentType::LockedSpd)
    } else if v == 3 {
        Some(DocumentType::LockedSnb)
    } else if v == 4 {
        Some(DocumentType::LockedTmemo)
    } else if v == 5 {
        Some(DocumentType::LockedWdoc)
    } else {
        None
    }
}

impl DocumentType {
    pub fn try_from_u16(v: u16) -> (r: Result<DocumentType, InvalidDocumentTypeError>)
        ensures
            match spec_document_type(v) {
                Some(x) => r == Ok::<DocumentType, InvalidDocumentTypeError>(x),
                None => r == Err::<DocumentType, InvalidDocumentTypeError>(InvalidDocumentTypeError { bad_value: v }),
            },
    {
        match v {
            0 => Ok(DocumentType::UnlockedDoc),
            1 => Ok(DocumentType::LockedSdoc),
            2 => Ok(DocumentType::LockedSpd),
            3 => Ok(DocumentType::LockedSnb),
            4 => Ok(DocumentType::LockedTmemo),
            5 => Ok(DocumentType::LockedWdoc),
            _ => Err(InvalidDocumentTypeError { bad_value: v }),
        }
    }
}

/// The direction of text.
#[derive(Debug, Clone, Copy, PartialEq, Eq, Structural)]
pub enum TextDirection {
    /// `TEXT_DIRECTION_LTR`
    LeftToRight,
    /// `TEXT_DIRECTION_RTL`
    RightToLeft,
    /// `TEXT_DIRECTION_DEFAULT`
    Default,
}

/// The value is not that of a `TextDirection`.
#[derive(Debug, Clone, Copy, PartialEq, Eq, Structural)]
pub struct InvalidTextDirectionError {
    pub bad_value: u32,
}

/// The `TextDirection` that `v` stands for: 0 to 2 in declaration order.
pub open spec fn spec_text_direction(v: u32) -> Option<TextDirection> {
    if v == 0 {
        Some(TextDirection::LeftToRight)
    } else if v == 1 {
        Some(TextDirection::RightToLeft)
    } else if v == 2 {
        Some(TextDirection::Default)
    } else {
        None
    }
}

impl TextDirection {
    pub fn try_from_u32(v: u32) -> (r: Result<TextDirection, InvalidTextDirectionError>)
        ensures
            match spec_text_direction(v) {
                Some(x) => r == Ok::<TextDirection, InvalidTextDirectionError>(x),
                None => r == Err::<TextDirection, InvalidTextDirectionError>(InvalidTextDirectionError { bad_value: v }),
            },
    {
        match v {
            0 => Ok(TextDirection::LeftToRight),
            1 => Ok(TextDirection::RightToLeft),
            2 => Ok(TextDirection::Default),
            _ => Err(InvalidTextDirectionError { bad_value: v }),
        }
    }
}

/// The theme of the background.
#[derive(Debug, Clone, Copy, PartialEq, Eq, Structural)]
pub enum BackgroundTheme {
    /// `THEME_LIGHT`
    Light,
    /// `THEME_DARK`
    Dark,
    /// `THEME_DEFAULT`
    Default,
}

/// The value is not that of a `BackgroundTheme`.
#[derive(Debug, Clone, Copy, PartialEq, Eq, Structural)]
pub struct InvalidBackgroundThemeError {
    pub bad_value: u32,
}

/// The `BackgroundTheme` that `v` stands for: 0 to 2 in declaration order.
pub open spec fn spec_background_theme(v: u32) -> Option<BackgroundTheme> {
    if v == 0 {
        Some(BackgroundTheme::Light)
    } else if v == 1 {
        Some(BackgroundTheme::Dark)
    } else if v == 2 {
        Some(BackgroundTheme::Default)
    } else {
        None
    }
}

impl BackgroundTheme {
    pub fn try_from_u32(v: u32) -> (r: Result<BackgroundTheme, InvalidBackgroundThemeError>)
        ensures
            match spec_background_theme(v) {
                Some(x) => r == Ok::<BackgroundTheme, InvalidBackgroundThemeError>(x),
                None => r == Err::<BackgroundTheme, InvalidBackgroundThemeError>(InvalidBackgroundThemeError { bad_value: v }),
            },
    {
        match v {
            0 => Ok(BackgroundTheme::Light),
            1 => Ok(BackgroundTheme::Dark),
            2 => Ok(BackgroundTheme::Default),
            _ => Err(InvalidBackgroundThemeError { bad_value: v }),
        }
    }
}

/// The orientation of a document.
#[derive(Debug, Clone, Copy, PartialEq, Eq, Structural)]
pub enum Orientation {
    /// `Orientation.PORTRAIT`
    Portrait,
    /// `Orientation.LANDSCAPE`
    Landscape,
    /// `Orientation.LANDSCAPE_NEW`
    LandscapeNew,
}

/// The value is not that of a `Orientation`.
#[derive(Debug, Clone, Copy, PartialEq, Eq, Structural)]
pub struct InvalidOrientationError {
    pub bad_value: u32,
}

/// The `Orientation` that `v` stands for: 0 to 2 in declaration order.
pub open spec fn spec_orientation(v: u32) -> Option<Orientation> {
    if v == 0 {
        Some(Orientation::Portrait)
    } else if v == 1 {
        Some(Orientation::Landscape)
    } else if v == 2 {
        Some(Orientation::LandscapeNew)
    } else {
        None
    }
}

impl Orientation {
    pub fn try_from_u32(v: u32) -> (r: Result<Orientation, InvalidOrientationError>)
        ensures
            match spec_orientation(v) {
                Some(x) => r == Ok::<Orientation, InvalidOrientationError>(x),
                None => r == Err::<Orientation, InvalidOrientationError>(InvalidOrientationError { bad_value: v }),
            },
    {
        match v {
            0 => Ok(Orientation::Portrait),
            1 => Ok(Orientation::Landscape),
            2 => Ok(Orientation::LandscapeNew),
            _ => Err(InvalidOrientationError { bad_value: v }),
        }
    }
}


// ---------------------------------------------------------------------------------------------
// Encryption information
// ---------------------------------------------------------------------------------------------

/// Keys of an encrypted document.
#[derive(Debug)]
pub struct EncryptionInfo {
    pub size: u32,
    pub salt: Vec<u8>,
    pub iv: Vec<u8>,
    pub key: Vec<u8>,
}

pub struct EncryptionInfoModel {
    pub size: u32,
    pub salt: Seq<u8>,
    pub iv: Seq<u8>,
    pub key: Seq<u8>,
}

impl View for EncryptionInfo {
    type V = EncryptionInfoModel;

    open spec fn view(&self) -> EncryptionInfoModel {
        EncryptionInfoModel { size: self.size, salt: self.salt@, iv: self.iv@, key: self.key@ }
    }
}

/// `n: u32` followed by `n` bytes.
pub open spec fn spec_u32_sized_bytes(s: StreamModel) -> Option<(Seq<u8>, StreamModel)> {
    match spec_u32(s) {
        Some((n, s1)) => spec_take(s1, n as int),
        None => None,
    }
}

/// A `u32` size, then salt, initialisation vector and key, each a `u32` length and the bytes.
pub open spec fn spec_encryption_info(s: StreamModel) -> Option<(EncryptionInfoModel, StreamModel)> {
    match spec_u32(s) {
        Some((size, s1)) => match spec_u32_sized_bytes(s1) {
            Some((salt, s2)) => match spec_u32_sized_bytes(s2) {
                Some((iv, s3)) => match spec_u32_sized_bytes(s3) {
                    Some((key, s4)) => Some((EncryptionInfoModel { size, salt, iv, key }, s4)),
                    None => None,
                },
                None => None,
            },
            None => None,
        },
        None => None,
    }
}

fn read_u32_sized_bytes(reader: &mut ByteStream) -> (r: Result<Vec<u8>, IoError>)
    ensures
        match spec_u32_sized_bytes(old(reader)@) {
            Some((b, s2)) => r matches Ok(v) && v@ == b && final(reader)@ == s2,
            None => r == Err::<Vec<u8>, IoError>(IoError::UnexpectedEof),
        },
        final(reader)@.same_frame(old(reader)@),
{
    let n: u32 = reader.read_u32_le()?;
    reader.read_u8s(n as usize)
}

impl<'a> TryParse<ByteStream<'a>> for EncryptionInfo {
    type ParseError = IoError;

    fn try_parse(reader: &mut ByteStream<'a>) -> (r: Result<EncryptionInfo, IoError>)
        ensures
            match spec_encryption_info(old(reader)@) {
                Some((m, s2)) => r matches Ok(v) && v@ == m && final(reader)@ == s2,
                None => r == Err::<EncryptionInfo, IoError>(IoError::UnexpectedEof),
            },
            final(reader)@.same_frame(old(reader)@),
    {
        let size: u32 = reader.read_u32_le()?;
        let salt: Vec<u8> = read_u32_sized_bytes(reader)?;
        let iv: Vec<u8> = read_u32_sized_bytes(reader)?;
        let key: Vec<u8> = read_u32_sized_bytes(reader)?;
        Ok(EncryptionInfo { size, salt, iv, key })
    }
}

// ---------------------------------------------------------------------------------------------
// The end tag
// ---------------------------------------------------------------------------------------------

/// Failure to parse an end tag.
#[derive(Debug, PartialEq, Eq)]
pub enum EndTagParseError {
    Io(IoError),
    String(ReadStringError),
    Timestamp(ReadTimestampError),
    AppVersion(AppVersionParseError),
    PageModel(InvalidPageModelError),
    DocumentType(InvalidDocumentTypeError),
    TextDirection(InvalidTextDirectionError),
    BackgroundTheme(InvalidBackgroundThemeError),
    Orientation(InvalidOrientationError),
    Unfinished(UnfinishedParsingError),
    /// One or more property bits were unhandled.
    UnhandledProperty(UnhandledBitsError),
    /// The tag does not end with the identifier of the expected SDK type; holds the text found
    /// in its place and the expected type.
    WrongIdent(String, NoteSdkType),
}

/// `EndTagParseError` with the found text of `WrongIdent` as a sequence.
pub enum EndTagErrorModel {
    Io(IoError),
    String(ReadStringError),
    Timestamp(ReadTimestampError),
    AppVersion(AppVersionParseError),
    PageModel(InvalidPageModelError),
    DocumentType(InvalidDocumentTypeError),
    TextDirection(InvalidTextDirectionError),
    BackgroundTheme(InvalidBackgroundThemeError),
    Orientation(InvalidOrientationError),
    Unfinished(UnfinishedParsingError),
    UnhandledProperty(UnhandledBitsError),
    WrongIdent(Seq<char>, NoteSdkType),
}

impl View for EndTagParseError {
    type V = EndTagErrorModel;

    open spec fn view(&self) -> EndTagErrorModel {
        match self {
            EndTagParseError::Io(e) => EndTagErrorModel::Io(*e),
            EndTagParseError::String(e) => EndTagErrorModel::String(*e),
            EndTagParseError::Timestamp(e) => EndTagErrorModel::Timestamp(*e),
            EndTagParseError::AppVersion(e) => EndTagErrorModel::AppVersion(*e),
            EndTagParseError::PageModel(e) => EndTagErrorModel::PageModel(*e),
            EndTagParseError::DocumentType(e) => EndTagErrorModel::DocumentType(*e),
            EndTagParseError::TextDirection(e) => EndTagErrorModel::TextDirection(*e),
            EndTagParseError::BackgroundTheme(e) => EndTagErrorModel::BackgroundTheme(*e),
            EndTagParseError::Orientation(e) => EndTagErrorModel::Orientation(*e),
            EndTagParseError::Unfinished(e) => EndTagErrorModel::Unfinished(*e),
            EndTagParseError::UnhandledProperty(e) => EndTagErrorModel::UnhandledProperty(*e),
            EndTagParseError::WrongIdent(b, t) => EndTagErrorModel::WrongIdent(b@, *t),
        }
    }
}

/// The structure in `end_tag.bin`.
#[derive(Debug)]
pub struct EndTag {
    pub sdk_type: NoteSdkType,
    pub format_version: u32,
    pub note_uuid: String,
    pub last_modified_time: Timestamp,
    pub is_landscape: bool,
    pub cover_image: String,
    pub note_width: u32,
    pub note_height: RawF32,
    pub app_name: String,
    pub app_version: AppVersion,
    pub min_format_version: u32,
    pub created_time: Timestamp,
    pub last_viewed_page_index: u32,
    pub page_model: PageModel,
    pub document_type: DocumentType,
    pub owner_id: String,
    /// Never filled in: exported documents are not meant to be encrypted, and the keys are not
    /// kept.
    pub encryption_info: Option<EncryptionInfo>,
    pub display_created_time: Timestamp,
    pub display_modified_time: Timestamp,
    pub last_recognised_data_modified_time: Timestamp,
    pub fixed_font: String,
    pub fixed_text_direction: TextDirection,
    pub fixed_background_theme: BackgroundTheme,
    pub server_check_point: i64,
    pub new_orientation: Orientation,
    pub min_unknown_version: u32,
    pub app_custom_data: String,
}

/// The first part of an end tag: format version, note id, modification time, the landscape
/// flag, cover image, width, height and application name.
pub struct EndTagPartA {
    pub format_version: u32,
    pub note_uuid: Seq<char>,
    pub last_modified_time: Timestamp,
    pub is_landscape: bool,
    pub cover_image: Seq<char>,
    pub note_width: u32,
    pub note_height: RawF32,
    pub app_name: Seq<char>,
}

/// The second part: application version, minimum format version, creation time, last viewed
/// page, page model, document type and owner.
pub struct EndTagPartB {
    pub app_version: AppVersionModel,
    pub min_format_version: u32,
    pub created_time: Timestamp,
    pub last_viewed_page_index: u32,
    pub page_model: PageModel,
    pub document_type: DocumentType,
    pub owner_id: Seq<char>,
}

/// The third part: display times, the last recognition time and the fixed font. It comes after
/// a skipped run of bytes and the (discarded) encryption information.
pub struct EndTagPartC {
    pub display_created_time: Timestamp,
    pub display_modified_time: Timestamp,
    pub last_recognised_data_modified_time: Timestamp,
    pub fixed_font: Seq<char>,
}

/// The last part: text direction, background theme, server check point, orientation, minimum
/// unknown version and custom data.
pub struct EndTagPartD {
    pub fixed_text_direction: TextDirection,
    pub fixed_background_theme: BackgroundTheme,
    pub server_check_point: i64,
    pub new_orientation: Orientation,
    pub min_unknown_version: u32,
    pub app_custom_data: Seq<char>,
}

pub struct EndTagModel {
    pub sdk_type: NoteSdkType,
    pub a: EndTagPartA,
    pub b: EndTagPartB,
    pub c: EndTagPartC,
    pub d: EndTagPartD,
}

impl View for EndTag {
    type V = EndTagModel;

    open spec fn view(&self) -> EndTagModel {
        EndTagModel {
            sdk_type: self.sdk_type,
            a: EndTagPartA {
                format_version: self.format_version,
                note_uuid: self.note_uuid@,
                last_modified_time: self.last_modified_time,
                is_landscape: self.is_landscape,
                cover_image: self.cover_image@,
                note_width: self.note_width,
                note_height: self.note_height,
                app_name: self.app_name@,
            },
            b: EndTagPartB {
                app_version: self.app_version@,
                min_format_version: self.min_format_version,
                created_time: self.created_time,
                last_viewed_page_index: self.last_viewed_page_index,
                page_model: self.page_model,
                document_type: self.document_type,
                owner_id: self.owner_id@,
            },
            c: EndTagPartC {
                display_created_time: self.display_created_time,
                display_modified_time: self.display_modified_time,
                last_recognised_data_modified_time: self.last_recognised_data_modified_time,
                fixed_font: self.fixed_font@,
            },
            d: EndTagPartD {
                fixed_text_direction: self.fixed_text_direction,
                fixed_background_theme: self.fixed_background_theme,
                server_check_point: self.server_check_point,
                new_orientation: self.new_orientation,
                min_unknown_version: self.min_unknown_version,
                app_custom_data: self.app_custom_data@,
            },
        }
    }
}

/// The property bits of an end tag: bit 1 is the landscape flag; no other bit may be set.
pub open spec fn spec_end_tag_properties(v: u32) -> Result<bool, EndTagErrorModel> {
    if v & !bit_mask(1) == 0 {
        Ok(bit_is_set(v, 1))
    } else {
        Err(EndTagErrorModel::UnhandledProperty(UnhandledBitsError(v & !bit_mask(1))))
    }
}

pub open spec fn eof_err() -> EndTagErrorModel {
    EndTagErrorModel::Io(IoError::UnexpectedEof)
}

pub open spec fn spec_end_tag_a(s: StreamModel) -> Result<(EndTagPartA, StreamModel), EndTagErrorModel> {
    match spec_u32(s) {
        Some((format_version, s1)) => match spec_short_u16_string(s1) {
            Ok((note_uuid, s2)) => match spec_timestamp_r(s2) {
                Ok((last_modified_time, s3)) => match spec_u32(s3) {
                    Some((props, s4)) => match spec_end_tag_properties(props) {
                        Ok(is_landscape) => match spec_short_u16_string(s4) {
                            Ok((cover_image, s5)) => match spec_u32(s5) {
                                Some((note_width, s6)) => match spec_f32(s6) {
                                    Some((note_height, s7)) => match spec_short_u16_string(s7) {
                                        Ok((app_name, s8)) => Ok((EndTagPartA {
                                            format_version,
                                            note_uuid,
                                            last_modified_time,
                                            is_landscape,
                                            cover_image,
                                            note_width,
                                            note_height,
                                            app_name,
                                        }, s8)),
                                        Err(e) => Err(EndTagErrorModel::String(e)),
                                    },
                                    None => Err(eof_err()),
                                },
                                None => Err(eof_err()),
                            },
                            Err(e) => Err(EndTagErrorModel::String(e)),
                        },
                        Err(e) => Err(e),
                    },
                    None => Err(eof_err()),
                },
                Err(e) => Err(EndTagErrorModel::Timestamp(e)),
            },
            Err(e) => Err(EndTagErrorModel::String(e)),
        },
        None => Err(eof_err()),
    }
}

pub open spec fn spec_end_tag_b(s: StreamModel) -> Result<(EndTagPartB, StreamModel), EndTagErrorModel> {
    match spec_app_version(s) {
        Ok((app_version, s1)) => match spec_u32(s1) {
            Some((min_format_version, s2)) => match spec_timestamp_r(s2) {
                Ok((created_time, s3)) => match spec_u32(s3) {
                    Some((last_viewed_page_index, s4)) => match spec_u16(s4) {
                        Some((pm, s5)) => match spec_page_model(pm) {
                            Some(page_model) => match spec_u16(s5) {
                                Some((dt, s6)) => match spec_document_type(dt) {
                                    Some(document_type) => match spec_short_u16_string(s6) {
                                        Ok((owner_id, s7)) => Ok((EndTagPartB {
                                            app_version,
                                            min_format_version,
                                            created_time,
                                            last_viewed_page_index,
                                            page_model,
                                            document_type,
                                            owner_id,
                                        }, s7)),
                                        Err(e) => Err(EndTagErrorModel::String(e)),
                                    },
                                    None => Err(EndTagErrorModel::DocumentType(InvalidDocumentTypeError { bad_value: dt })),
                                },
                                None => Err(eof_err()),
                            },
                            None => Err(EndTagErrorModel::PageModel(InvalidPageModelError { bad_value: pm })),
                        },
                        None => Err(eof_err()),
                    },
                    None => Err(eof_err()),
                },
                Err(e) => Err(EndTagErrorModel::Timestamp(e)),
            },
            None => Err(eof_err()),
        },
        Err(e) => Err(EndTagErrorModel::AppVersion(e)),
    }
}

/// A `u32` count of bytes to skip, then a `u32` that, if not zero, is followed by encryption
/// information (which is read and dropped), then the fields of part C.
pub open spec fn spec_end_tag_c(s: StreamModel) -> Result<(EndTagPartC, StreamModel), EndTagErrorModel> {
    match spec_u32(s) {
        Some((n_to_skip, s1)) => match spec_skip(s1, n_to_skip as int) {
            Some(s2) => match spec_u32(s2) {
                Some((encryption_size, s3)) => {
                    let enc = if encryption_size == 0 {
                        Some(s3)
                    } else {
                        match spec_encryption_info(s3) {
                            Some((_, s4)) => Some(s4),
                            None => None,
                        }
                    };
                    match enc {
                        Some(s4) => match spec_timestamp_r(s4) {
                            Ok((display_created_time, s5)) => match spec_timestamp_r(s5) {
                                Ok((display_modified_time, s6)) => match spec_timestamp_r(s6) {
                                    Ok((last_recognised_data_modified_time, s7)) => match spec_short_u16_string(s7) {
                                        Ok((fixed_font, s8)) => Ok((EndTagPartC {
                                            display_created_time,
                                            display_modified_time,
                                            last_recognised_data_modified_time,
                                            fixed_font,
                                        }, s8)),
                                        Err(e) => Err(EndTagErrorModel::String(e)),
                                    },
                                    Err(e) => Err(EndTagErrorModel::Timestamp(e)),
                                },
                                Err(e) => Err(EndTagErrorModel::Timestamp(e)),
                            },
                            Err(e) => Err(EndTagErrorModel::Timestamp(e)),
                        },
                        None => Err(eof_err()),
                    }
                },
                None => Err(eof_err()),
            },
            None => Err(EndTagErrorModel::Io(IoError::InvalidInput)),
        },
        None => Err(eof_err()),
    }
}

pub open spec fn spec_end_tag_d(s: StreamModel) -> Result<(EndTagPartD, StreamModel), EndTagErrorModel> {
    match spec_u32(s) {
        Some((td, s1)) => match spec_text_direction(td) {
            Some(fixed_text_direction) => match spec_u32(s1) {
                Some((bt, s2)) => match spec_background_theme(bt) {
                    Some(fixed_background_theme) => match spec_i64(s2) {
                        Some((server_check_point, s3)) => match spec_u32(s3) {
                            Some((o, s4)) => match spec_orientation(o) {
                                Some(new_orientation) => match spec_u32(s4) {
                                    Some((min_unknown_version, s5)) => match spec_long_u16_string(s5) {
                                        Ok((app_custom_data, s6)) => Ok((EndTagPartD {
                                            fixed_text_direction,
                                            fixed_background_theme,
                                            server_check_point,
                                            new_orientation,
                                            min_unknown_version,
                                            app_custom_data,
                                        }, s6)),
                                        Err(e) => Err(EndTagErrorModel::String(e)),
                                    },
                                    None => Err(eof_err()),
                                },
                                None => Err(EndTagErrorModel::Orientation(InvalidOrientationError { bad_value: o })),
                            },
                            None => Err(eof_err()),
                        },
                        None => Err(eof_err()),
                    },
                    None => Err(EndTagErrorModel::BackgroundTheme(InvalidBackgroundThemeError { bad_value: bt })),
                },
                None => Err(eof_err()),
            },
            None => Err(EndTagErrorModel::TextDirection(InvalidTextDirectionError { bad_value: td })),
        },
        None => Err(eof_err()),
    }
}

/// The fields of an end tag that follow the identifier check, up to and including the
/// identifier itself, which must end the window.
#[verifier::opaque]
pub open spec fn spec_end_tag_fields(w: StreamModel, t: NoteSdkType) -> Result<(EndTagModel, StreamModel), EndTagErrorModel> {
    match spec_end_tag_a(w) {
        Ok((a, w1)) => match spec_end_tag_b(w1) {
            Ok((b, w2)) => match spec_end_tag_c(w2) {
                Ok((c, w3)) => match spec_end_tag_d(w3) {
                    Ok((d, w4)) => match spec_skip(w4, ident_bytes(t).len() as int) {
                        Some(w5) => if w5.remaining() == 0 {
                            Ok((EndTagModel { sdk_type: t, a, b, c, d }, w5))
                        } else {
                            Err(EndTagErrorModel::Unfinished(UnfinishedParsingError { remaining: w5.remaining() as u64 }))
                        },
                        None => Err(EndTagErrorModel::Io(IoError::InvalidInput)),
                    },
                    Err(e) => Err(e),
                },
                Err(e) => Err(e),
            },
            Err(e) => Err(e),
        },
        Err(e) => Err(e),
    }
}

/// An end tag: a `u16` size and a window of that many bytes, which must end with the identifier
/// of the SDK type `t` (checked before anything else is read).
pub open spec fn spec_end_tag(s: StreamModel, t: NoteSdkType) -> Result<(EndTagModel, StreamModel), EndTagErrorModel> {
    match spec_u16(s) {
        Some((n, s1)) => match spec_blind_window(s1, n as int) {
            Some(w) => {
                let len = ident_bytes(t).len() as int;
                if w.end - len < w.start {
                    Err(EndTagErrorModel::Io(IoError::InvalidInput))
                } else if w.data.subrange(w.end - len, w.end) != ident_bytes(t) {
                    Err(EndTagErrorModel::WrongIdent(utf8_lossy(w.data.subrange(w.end - len, w.end)), t))
                } else {
                    match spec_end_tag_fields(w, t) {
                        Ok((m, w2)) => Ok((m, spec_continue(s1, w2))),
                        Err(e) => Err(e),
                    }
                }
            },
            None => Err(eof_err()),
        },
        None => Err(eof_err()),
    }
}


type PartA = (u32, String, Timestamp, bool, String, u32, RawF32, String);

type PartB = (AppVersion, u32, Timestamp, u32, PageModel, DocumentType, String);

type PartC = (Timestamp, Timestamp, Timestamp, String);

type PartD = (TextDirection, BackgroundTheme, i64, Orientation, u32, String);

fn read_part_a(w: &mut ByteStream) -> (r: Result<PartA, EndTagParseError>)
    ensures
        match spec_end_tag_a(old(w)@) {
            Ok((m, s2)) => r matches Ok(v) && v.0 == m.format_version && v.1@ == m.note_uuid
                && v.2 == m.last_modified_time && v.3 == m.is_landscape && v.4@ == m.cover_image
                && v.5 == m.note_width && v.6 == m.note_height && v.7@ == m.app_name
                && final(w)@ == s2,
            Err(e) => r matches Err(re) && re@ == e,
        },
        final(w)@.same_frame(old(w)@),
{
        let format_version: u32 = match w.read_u32_le() {
            Ok(v) => v,
            Err(e) => return Err(EndTagParseError::Io(e)),
        };
        let note_uuid: String = match w.read_short_u16_string() {
            Ok(v) => v,
            Err(e) => return Err(EndTagParseError::String(e)),
        };
        let last_modified_time: Timestamp = match w.read_timestamp() {
            Ok(v) => v,
            Err(e) => return Err(EndTagParseError::Timestamp(e)),
        };
        let props: u32 = match w.read_u32_le() {
            Ok(v) => v,
            Err(e) => return Err(EndTagParseError::Io(e)),
        };
        let mut flags: CheckedBitfield = CheckedBitfield::from_bits(props);
        let is_landscape: bool = flags.check_bit(1);
        proof {
            assert(props & !(0u32 | (1u32 << 1u8)) == props & !(1u32 << 1u8)) by (bit_vector);
        }
        if let Err(e) = flags.ensure_none_set_unchecked() {
            return Err(EndTagParseError::UnhandledProperty(e));
        }
        let cover_image: String = match w.read_short_u16_string() {
            Ok(v) => v,
            Err(e) => return Err(EndTagParseError::String(e)),
        };
        let note_width: u32 = match w.read_u32_le() {
            Ok(v) => v,
            Err(e) => return Err(EndTagParseError::Io(e)),
        };
        let note_height: RawF32 = match w.read_f32_le() {
            Ok(v) => v,
            Err(e) => return Err(EndTagParseError::Io(e)),
        };
        let app_name: String = match w.read_short_u16_string() {
            Ok(v) => v,
            Err(e) => return Err(EndTagParseError::String(e)),
        };
        Ok((format_version, note_uuid, last_modified_time, is_landscape, cover_image, note_width,
            note_height, app_name))
}

fn read_part_b(w: &mut ByteStream) -> (r: Result<PartB, EndTagParseError>)
    ensures
        match spec_end_tag_b(old(w)@) {
            Ok((m, s2)) => r matches Ok(v) && v.0@ == m.app_version && v.1 == m.min_format_version
                && v.2 == m.created_time && v.3 == m.last_viewed_page_index && v.4 == m.page_model
                && v.5 == m.document_type && v.6@ == m.owner_id && final(w)@ == s2,
            Err(e) => r matches Err(re) && re@ == e,
        },
        final(w)@.same_frame(old(w)@),
{
        let app_version: AppVersion = match AppVersion::try_parse(w) {
            Ok(v) => v,
            Err(e) => return Err(EndTagParseError::AppVersion(e)),
        };
        let min_format_version: u32 = match w.read_u32_le() {
            Ok(v) => v,
            Err(e) => return Err(EndTagParseError::Io(e)),
        };
        let created_time: Timestamp = match w.read_timestamp() {
            Ok(v) => v,
            Err(e) => return Err(EndTagParseError::Timestamp(e)),
        };
        let last_viewed_page_index: u32 = match w.read_u32_le() {
            Ok(v) => v,
            Err(e) => return Err(EndTagParseError::Io(e)),
        };
        let pm: u16 = match w.read_u16_le() {
            Ok(v) => v,
            Err(e) => return Err(EndTagParseError::Io(e)),
        };
        let page_model: PageModel = match PageModel::try_from_u16(pm) {
            Ok(v) => v,
            Err(e) => return Err(EndTagParseError::PageModel(e)),
        };
        let dt: u16 = match w.read_u16_le() {
            Ok(v) => v,
            Err(e) => return Err(EndTagParseError::Io(e)),
        };
        let document_type: DocumentType = match DocumentType::try_from_u16(dt) {
            Ok(v) => v,
            Err(e) => return Err(EndTagParseError::DocumentType(e)),
        };
        let owner_id: String = match w.read_short_u16_string() {
            Ok(v) => v,
            Err(e) => return Err(EndTagParseError::String(e)),
        };
        Ok((app_version, min_format_version, created_time, last_viewed_page_index, page_model,
            document_type, owner_id))
}

fn read_part_c(w: &mut ByteStream) -> (r: Result<PartC, EndTagParseError>)
    ensures
        match spec_end_tag_c(old(w)@) {
            Ok((m, s2)) => r matches Ok(v) && v.0 == m.display_created_time
                && v.1 == m.display_modified_time && v.2 == m.last_recognised_data_modified_time
                && v.3@ == m.fixed_font && final(w)@ == s2,
            Err(e) => r matches Err(re) && re@ == e,
        },
        final(w)@.same_frame(old(w)@),
{
        let n_to_skip: u32 = match w.read_u32_le() {
            Ok(v) => v,
            Err(e) => return Err(EndTagParseError::Io(e)),
        };
        if n_to_skip >= 1 {
            if let Err(e) = w.skip_bytes(n_to_skip as u64) {
                return Err(EndTagParseError::Io(e));
            }
        }
        let encryption_size: u32 = match w.read_u32_le() {
            Ok(v) => v,
            Err(e) => return Err(EndTagParseError::Io(e)),
        };
        if encryption_size >= 1 {
            // Exported documents are not meant to be encrypted; the keys are read and dropped.
            if let Err(e) = EncryptionInfo::try_parse(w) {
                return Err(EndTagParseError::Io(e));
            }
        }
        let display_created_time: Timestamp = match w.read_timestamp() {
            Ok(v) => v,
            Err(e) => return Err(EndTagParseError::Timestamp(e)),
        };
        let display_modified_time: Timestamp = match w.read_timestamp() {
            Ok(v) => v,
            Err(e) => return Err(EndTagParseError::Timestamp(e)),
        };
        let last_recognised_data_modified_time: Timestamp = match w.read_timestamp() {
            Ok(v) => v,
            Err(e) => return Err(EndTagParseError::Timestamp(e)),
        };
        let fixed_font: String = match w.read_short_u16_string() {
            Ok(v) => v,
            Err(e) => return Err(EndTagParseError::String(e)),
        };
        Ok((display_created_time, display_modified_time, last_recognised_data_modified_time,
            fixed_font))
}

fn read_part_d(w: &mut ByteStream) -> (r: Result<PartD, EndTagParseError>)
    ensures
        match spec_end_tag_d(old(w)@) {
            Ok((m, s2)) => r matches Ok(v) && v.0 == m.fixed_text_direction
                && v.1 == m.fixed_background_theme && v.2 == m.server_check_point
                && v.3 == m.new_orientation && v.4 == m.min_unknown_version
                && v.5@ == m.app_custom_data && final(w)@ == s2,
            Err(e) => r matches Err(re) && re@ == e,
        },
        final(w)@.same_frame(old(w)@),
{
        let td: u32 = match w.read_u32_le() {
            Ok(v) => v,
            Err(e) => return Err(EndTagParseError::Io(e)),
        };
        let fixed_text_direction: TextDirection = match TextDirection::try_from_u32(td) {
            Ok(v) => v,
            Err(e) => return Err(EndTagParseError::TextDirection(e)),
        };
        let bt: u32 = match w.read_u32_le() {
            Ok(v) => v,
            Err(e) => return Err(EndTagParseError::Io(e)),
        };
        let fixed_background_theme: BackgroundTheme = match BackgroundTheme::try_from_u32(bt) {
            Ok(v) => v,
            Err(e) => return Err(EndTagParseError::BackgroundTheme(e)),
        };
        let server_check_point: i64 = match w.read_i64_le() {
            Ok(v) => v,
            Err(e) => return Err(EndTagParseError::Io(e)),
        };
        let o: u32 = match w.read_u32_le() {
            Ok(v) => v,
            Err(e) => return Err(EndTagParseError::Io(e)),
        };
        let new_orientation: Orientation = match Orientation::try_from_u32(o) {
            Ok(v) => v,
            Err(e) => return Err(EndTagParseError::Orientation(e)),
        };
        let min_unknown_version: u32 = match w.read_u32_le() {
            Ok(v) => v,
            Err(e) => return Err(EndTagParseError::Io(e)),
        };
        let app_custom_data: String = match w.read_long_u16_string() {
            Ok(v) => v,
            Err(e) => return Err(EndTagParseError::String(e)),
        };
        Ok((fixed_text_direction, fixed_background_theme, server_check_point, new_orientation,
            min_unknown_version, app_custom_data))
}


/// Reads the fields of an end tag from `w` (positioned at its start), then the identifier of
/// `t`, which is `len` bytes long and must end `w`.
fn read_fields(w: &mut ByteStream, t: NoteSdkType, len: usize) -> (r: Result<EndTag, EndTagParseError>)
    requires
        len == ident_bytes(t).len(),
    ensures
        match spec_end_tag_fields(old(w)@, t) {
            Ok((m, s2)) => r matches Ok(v) && v@ == m && final(w)@ == s2,
            Err(e) => r matches Err(re) && re@ == e,
        },
        final(w)@.same_frame(old(w)@),
{
    reveal(spec_end_tag_fields);
    let a: PartA = match read_part_a(w) {
        Ok(v) => v,
        Err(e) => return Err(e),
    };
    let b: PartB = match read_part_b(w) {
        Ok(v) => v,
        Err(e) => return Err(e),
    };
    let c: PartC = match read_part_c(w) {
        Ok(v) => v,
        Err(e) => return Err(e),
    };
    let d: PartD = match read_part_d(w) {
        Ok(v) => v,
        Err(e) => return Err(e),
    };
    // The only thing left should be the identifier.
    if let Err(e) = w.skip_bytes(len as u64) {
        return Err(EndTagParseError::Io(e));
    }
    if let Err(e) = w.ensure_eof() {
        return Err(EndTagParseError::Unfinished(e));
    }
    Ok(EndTag {
        sdk_type: t,
        format_version: a.0,
        note_uuid: a.1,
        last_modified_time: a.2,
        is_landscape: a.3,
        cover_image: a.4,
        note_width: a.5,
        note_height: a.6,
        app_name: a.7,
        app_version: b.0,
        min_format_version: b.1,
        created_time: b.2,
        last_viewed_page_index: b.3,
        page_model: b.4,
        document_type: b.5,
        owner_id: b.6,
        encryption_info: None,
        display_created_time: c.0,
        display_modified_time: c.1,
        last_recognised_data_modified_time: c.2,
        fixed_font: c.3,
        fixed_text_direction: d.0,
        fixed_background_theme: d.1,
        server_check_point: d.2,
        new_orientation: d.3,
        min_unknown_version: d.4,
        app_custom_data: d.5,
    })
}

impl<'a> TryParseWithContext<ByteStream<'a>, NoteSdkType> for EndTag {
    type ParseError = EndTagParseError;

    /// Reads an end tag, which must end with the identifier of `sdk_type`.
    fn try_parse_with_ctx(reader: &mut ByteStream<'a>, sdk_type: &NoteSdkType) -> (r: Result<EndTag, EndTagParseError>)
        ensures
            match spec_end_tag(old(reader)@, *sdk_type) {
                Ok((m, s2)) => r matches Ok(v) && v@ == m && final(reader)@ == s2,
                Err(e) => r matches Err(re) && re@ == e,
            },
            final(reader)@.same_frame(old(reader)@),
    {
        // The first two bytes give the size of the rest of the data.
        let n: u16 = match reader.read_u16_le() {
            Ok(v) => v,
            Err(e) => return Err(EndTagParseError::Io(e)),
        };
        let w0: ByteStream = match reader.blind_window(n as u64) {
            Ok(v) => v,
            Err(e) => return Err(EndTagParseError::Io(e)),
        };
        let mut w: ByteStream = w0;
        let ident: &str = sdk_type.ident();
        let id: &[u8] = ident.as_bytes();
        let len: usize = id.len();
        // The file's SDK type is indicated by a string at the end. Before parsing anything
        // significant, check that it matches the SDK type we are parsing for.
        if let Err(e) = w.seek_from_end(len as u64) {
            return Err(EndTagParseError::Io(e));
        }
        let last_bytes: Vec<u8> = match w.read_u8s(len) {
            Ok(v) => v,
            Err(e) => return Err(EndTagParseError::Io(e)),
        };
        if !bytes_eq(last_bytes.as_slice(), id) {
            return Err(EndTagParseError::WrongIdent(string_from_utf8_lossy(last_bytes.as_slice()), *sdk_type));
        }
        // Go back to the beginning so we can actually parse the tag.
        if let Err(e) = w.seek_to(0) {
            return Err(EndTagParseError::Io(e));
        }
        let t: EndTag = match read_fields(&mut w, *sdk_type, len) {
            Ok(v) => v,
            Err(e) => return Err(e),
        };
        proof { use_type_invariant(&*reader); use_type_invariant(&w); }
        reader.continue_after(&w);
        Ok(t)
    }
}


/// An end tag's landscape flag is bit 1 of the `u32` property field that follows its format
/// version, note id and last-modified time.
pub proof fn lemma_end_tag_landscape(s: StreamModel)
    requires
        spec_end_tag_a(s) is Ok,
    ensures
        ({
            let s2 = spec_short_u16_string(spec_u32(s)->Some_0.1)->Ok_0.1;
            spec_u32(s2.with_pos(s2.pos + 8)) matches Some((props, _))
                && spec_end_tag_a(s)->Ok_0.0.is_landscape == bit_is_set(props, 1)
        }),
{
}

} // verus!
