//! Parsing of Samsung Notes (SDOCX) documents.
//!
//! A document is a set of binary files (normally packed in a zip archive). The library works on
//! the bytes of those files; reading them from disk or from the archive is left to the caller.
use vstd::prelude::*;

pub mod bits;
pub mod byte_stream;
pub mod context;
pub mod digest;
pub mod doc;
pub mod end_tag;
pub mod media_info;
pub mod note_doc;
pub mod page;
pub mod page_id_info;
pub mod page_list;

use crate::byte_stream::{
    spec_short_u16_string, spec_take, spec_u32, ByteStream, IoError, ReadStringError, StreamModel,
    TryParse,
};

verus! {

/// Failure to read a size-prefixed run of bytes.
#[derive(Debug, Clone, Copy, PartialEq, Eq, Structural)]
pub enum OpaqueBytesParseError {
    Io(IoError),
    /// The size does not fit in `usize`.
    TooBig(u32),
    /// The size is smaller than the four bytes of the size field that it counts.
    TooSmall(u32),
}

/// Holds a vector of bytes.
///
/// A common pattern in the binary formats is a 32-bit size `n` followed by `n` bytes. This
/// structure stores the bytes that occur in these patterns without parsing whatever they encode.
#[derive(Debug)]
pub struct OpaqueBytes(pub Vec<u8>);

impl View for OpaqueBytes {
    type V = Seq<u8>;

    open spec fn view(&self) -> Seq<u8> {
        self.0@
    }
}

/// `size: u32` followed by `size` bytes.
pub open spec fn spec_opaque_exclusive(s: StreamModel) -> Result<(Seq<u8>, StreamModel), OpaqueBytesParseError> {
    match spec_u32(s) {
        Some((n, s1)) => match spec_take(s1, n as int) {
            Some((b, s2)) => Ok((b, s2)),
            None => Err(OpaqueBytesParseError::Io(IoError::UnexpectedEof)),
        },
        None => Err(OpaqueBytesParseError::Io(IoError::UnexpectedEof)),
    }
}

/// `size: u32` followed by `size - 4` bytes: the size counts its own four bytes.
pub open spec fn spec_opaque_inclusive(s: StreamModel) -> Result<(Seq<u8>, StreamModel), OpaqueBytesParseError> {
    match spec_u32(s) {
        Some((n, s1)) => if n < 4 {
            Err(OpaqueBytesParseError::TooSmall(n))
        } else {
            match spec_take(s1, n - 4) {
                Some((b, s2)) => Ok((b, s2)),
                None => Err(OpaqueBytesParseError::Io(IoError::UnexpectedEof)),
            }
        },
        None => Err(OpaqueBytesParseError::Io(IoError::UnexpectedEof)),
    }
}

impl OpaqueBytes {
    /// Reads `size: u32` and the `size` bytes that follow, reading `size + 4` bytes in total.
    pub fn try_parse_exclusive(stream: &mut ByteStream) -> (r: Result<OpaqueBytes, OpaqueBytesParseError>)
        ensures
            match spec_opaque_exclusive(old(stream)@) {
                Ok((b, s2)) => r matches Ok(v) && v@ == b && final(stream)@ == s2,
                Err(e) => r == Err::<OpaqueBytes, OpaqueBytesParseError>(e),
            },
            final(stream)@.same_frame(old(stream)@),
    {
        let size: u32 = match stream.read_u32_le() {
            Ok(n) => n,
            Err(e) => return Err(OpaqueBytesParseError::Io(e)),
        };
        match stream.read_u8s(size as usize) {
            Ok(b) => Ok(OpaqueBytes(b)),
            Err(e) => Err(OpaqueBytesParseError::Io(e)),
        }
    }

    /// Reads `size: u32` and the `size - 4` bytes that follow, reading `size` bytes in total.
    pub fn try_parse_inclusive(stream: &mut ByteStream) -> (r: Result<OpaqueBytes, OpaqueBytesParseError>)
        ensures
            match spec_opaque_inclusive(old(stream)@) {
                Ok((b, s2)) => r matches Ok(v) && v@ == b && final(stream)@ == s2,
                Err(e) => r == Err::<OpaqueBytes, OpaqueBytesParseError>(e),
            },
            final(stream)@.same_frame(old(stream)@),
    {
        let size: u32 = match stream.read_u32_le() {
            Ok(n) => n,
            Err(e) => return Err(OpaqueBytesParseError::Io(e)),
        };
        if size < 4 {
            return Err(OpaqueBytesParseError::TooSmall(size));
        }
        match stream.read_u8s((size - 4) as usize) {
            Ok(b) => Ok(OpaqueBytes(b)),
            Err(e) => Err(OpaqueBytesParseError::Io(e)),
        }
    }

    /// The number of bytes held.
    pub fn len(&self) -> (r: usize)
        ensures
            r == self@.len(),
    {
        self.0.len()
    }
}

/// Failure to read an application version.
#[derive(Debug, Clone, Copy, PartialEq, Eq, Structural)]
pub enum AppVersionParseError {
    Io(IoError),
    String(ReadStringError),
}

/// The version of the application that wrote a file.
#[derive(Debug)]
pub struct AppVersion {
    pub major: u32,
    pub minor: u32,
    pub patch_name: String,
}

pub struct AppVersionModel {
    pub major: u32,
    pub minor: u32,
    pub patch_name: Seq<char>,
}

impl View for AppVersion {
    type V = AppVersionModel;

    open spec fn view(&self) -> AppVersionModel {
        AppVersionModel { major: self.major, minor: self.minor, patch_name: self.patch_name@ }
    }
}

/// Major and minor version (`u32` each), then the patch name as a short UTF-16 string.
pub open spec fn spec_app_version(s: StreamModel) -> Result<(AppVersionModel, StreamModel), AppVersionParseError> {
    match spec_u32(s) {
        Some((major, s1)) => match spec_u32(s1) {
            Some((minor, s2)) => match spec_short_u16_string(s2) {
                Ok((patch_name, s3)) => Ok((AppVersionModel { major, minor, patch_name }, s3)),
                Err(e) => Err(AppVersionParseError::String(e)),
            },
            None => Err(AppVersionParseError::Io(IoError::UnexpectedEof)),
        },
        None => Err(AppVersionParseError::Io(IoError::UnexpectedEof)),
    }
}

impl<'a> TryParse<ByteStream<'a>> for AppVersion {
    type ParseError = AppVersionParseError;

    fn try_parse(reader: &mut ByteStream<'a>) -> (r: Result<AppVersion, AppVersionParseError>)
        ensures
            match spec_app_version(old(reader)@) {
                Ok((m, s2)) => r matches Ok(v) && v@ == m && final(reader)@ == s2,
                Err(e) => r == Err::<AppVersion, AppVersionParseError>(e),
            },
            final(reader)@.same_frame(old(reader)@),
    {
        let major: u32 = match reader.read_u32_le() {
            Ok(v) => v,
            Err(e) => return Err(AppVersionParseError::Io(e)),
        };
        let minor: u32 = match reader.read_u32_le() {
            Ok(v) => v,
            Err(e) => return Err(AppVersionParseError::Io(e)),
        };
        let patch_name: String = match reader.read_short_u16_string() {
            Ok(v) => v,
            Err(e) => return Err(AppVersionParseError::String(e)),
        };
        Ok(AppVersion { major, minor, patch_name })
    }
}

} // verus!
