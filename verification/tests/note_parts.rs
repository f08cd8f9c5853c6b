use sdocx::byte_stream::{ByteStream, IoError, ReadBitfieldError, ReadStringError, TryParse};
use sdocx::page::object::header::{try_parse_object_header, FlagBlock, FlagBlockError, ObjectHeader, ObjectHeaderError};
use sdocx::context::TryParseWithContext;
use sdocx::media_info::{FileRegistry, FileRegistryParseError, NoSuchRegisteredFileError};
use sdocx::note_doc::{
    AuthorInfo, AuthorInfoParseError, NoSuchRegisteredStringError, StringRegistry,
    StringRegistryParseError, VoiceAction, VoiceRecording, VoiceRecordingParseError,
};
use sdocx::{AppVersion, AppVersionParseError, OpaqueBytes, OpaqueBytesParseError};

fn short_u16(s: &str) -> Vec<u8> {
    let units: Vec<u16> = s.encode_utf16().collect();
    let mut v = (units.len() as u16).to_le_bytes().to_vec();
    for u in units {
        v.extend_from_slice(&u.to_le_bytes());
    }
    v
}

fn string_registry_bytes(entries: &[(u32, &str)]) -> Vec<u8> {
    let mut body = (entries.len() as u16).to_le_bytes().to_vec();
    for (k, s) in entries {
        body.extend_from_slice(&k.to_le_bytes());
        body.extend_from_slice(&short_u16(s));
    }
    let mut v = (body.len() as u32).to_le_bytes().to_vec();
    v.extend_from_slice(&body);
    v
}

#[test]
fn string_registry_keeps_the_later_string() {
    let bytes = string_registry_bytes(&[(1, "one"), (2, "two"), (1, "uno")]);
    let r = StringRegistry::try_parse(&mut ByteStream::new(&bytes)).unwrap();
    assert_eq!(r.get(1).as_deref().map(|s| s.as_str()), Some("uno"));
    assert_eq!(r.try_get(2).unwrap().as_str(), "two");
    assert_eq!(r.try_get(3).err(), Some(NoSuchRegisteredStringError(3)));
    let empty = StringRegistry::try_parse(&mut ByteStream::new(&[0u8, 0, 0, 0])).unwrap();
    assert!(empty.get(1).is_none());
}

#[test]
fn string_registry_must_use_its_bytes() {
    let mut bytes = string_registry_bytes(&[(1, "a")]);
    bytes[0] += 1;
    bytes.push(0);
    let r = StringRegistry::try_parse(&mut ByteStream::new(&bytes));
    assert!(matches!(r, Err(StringRegistryParseError::Unfinished(_))));
}

/// A file registry in the newer format ("EOFX") with one file.
fn newer_registry() -> Vec<u8> {
    let mut entry = 9u32.to_le_bytes().to_vec();
    entry.extend_from_slice(&short_u16("voice.m4a"));
    entry.extend_from_slice(&[b'a'; 64]);
    entry.extend_from_slice(&[1u8, 0]);
    entry.extend_from_slice(&1_600_000_000_000_000i64.to_le_bytes());
    entry.push(1);
    let mut v = 3000u32.to_le_bytes().to_vec();
    v.extend_from_slice(&1u16.to_le_bytes());
    v.extend_from_slice(&(entry.len() as u32).to_le_bytes());
    v.extend_from_slice(&entry);
    v.extend_from_slice(b"EOFX");
    v
}

#[test]
fn reads_file_registries() {
    let r = FileRegistry::try_parse(&mut ByteStream::new(&newer_registry())).unwrap();
    let f = r.try_get(9).unwrap();
    assert_eq!(f.name(), "voice.m4a");
    assert_eq!(f.is_attached(), Some(true));
    assert_eq!(r.try_get(1).err(), Some(NoSuchRegisteredFileError(1)));
    let bad = FileRegistry::try_parse(&mut ByteStream::new(b"xxxxNOPE"));
    assert!(bad.is_err());
    let _ = FileRegistryParseError::UnfinishedEntry;
}

fn voice_bytes(file: u32, duration_ms: i64) -> Vec<u8> {
    let mut body = file.to_le_bytes().to_vec();
    body.extend_from_slice(&short_u16("memo"));
    body.extend_from_slice(&short_u16("0:01"));
    body.extend_from_slice(&1_600_000_000_000_000i64.to_le_bytes());
    body.extend_from_slice(&1u32.to_le_bytes());
    body.extend_from_slice(&1u32.to_le_bytes());
    body.extend_from_slice(&1_600_000_000_000_500i64.to_le_bytes());
    body.extend_from_slice(&duration_ms.to_le_bytes());
    let mut v = (body.len() as u32).to_le_bytes().to_vec();
    v.extend_from_slice(&body);
    v
}

#[test]
fn reads_voice_recordings() {
    let files = FileRegistry::try_parse(&mut ByteStream::new(&newer_registry())).unwrap();
    let v = VoiceRecording::try_parse_with_ctx(&mut ByteStream::new(&voice_bytes(9, 1500)), &files).unwrap();
    assert_eq!(v.name, "memo");
    assert_eq!(v.precise_duration, 1500);
    assert_eq!(v.events.len(), 1);
    assert_eq!(v.events[0].action, VoiceAction::Start);
    assert_eq!(v.file.name(), "voice.m4a");
    let r = VoiceRecording::try_parse_with_ctx(&mut ByteStream::new(&voice_bytes(9, i64::MIN)), &files);
    assert_eq!(r.err(), Some(VoiceRecordingParseError::DurationOutOfRange(i64::MIN)));
    let r = VoiceRecording::try_parse_with_ctx(&mut ByteStream::new(&voice_bytes(4, 1)), &files);
    assert_eq!(r.err(), Some(VoiceRecordingParseError::NoSuchFile(NoSuchRegisteredFileError(4))));
}

#[test]
fn reads_app_versions_and_authors() {
    let mut v = 5u32.to_le_bytes().to_vec();
    v.extend_from_slice(&2u32.to_le_bytes());
    v.extend_from_slice(&short_u16("beta"));
    let a = AppVersion::try_parse(&mut ByteStream::new(&v)).unwrap();
    assert_eq!((a.major, a.minor, a.patch_name.as_str()), (5, 2, "beta"));
    let r = AppVersion::try_parse(&mut ByteStream::new(&v[..9]));
    assert_eq!(r.err(), Some(AppVersionParseError::String(ReadStringError::SizeIo(IoError::UnexpectedEof))));

    let mut w = Vec::new();
    for s in ["a", "b", "c"] {
        w.extend_from_slice(&short_u16(s));
    }
    w.extend_from_slice(&7u32.to_le_bytes());
    let au = AuthorInfo::try_parse(&mut ByteStream::new(&w)).unwrap();
    assert_eq!(au.image_id, 7);
    assert_eq!(au.strings[2], "c");
    let r = AuthorInfo::try_parse(&mut ByteStream::new(&w[..w.len() - 1]));
    assert_eq!(r.err(), Some(AuthorInfoParseError::Io(IoError::UnexpectedEof)));
}

#[test]
fn reads_size_prefixed_bytes() {
    let v = [2u8, 0, 0, 0, 9, 8, 7];
    let b = OpaqueBytes::try_parse_exclusive(&mut ByteStream::new(&v)).unwrap();
    assert_eq!(b.0, vec![9u8, 8]);
    let w = [6u8, 0, 0, 0, 9, 8, 7];
    let c = OpaqueBytes::try_parse_inclusive(&mut ByteStream::new(&w)).unwrap();
    assert_eq!(c.0, vec![9u8, 8]);
    assert_eq!(c.len(), 2);
    let r = OpaqueBytes::try_parse_inclusive(&mut ByteStream::new(&[2u8, 0, 0, 0]));
    assert_eq!(r.err(), Some(OpaqueBytesParseError::TooSmall(2)));
    let r = OpaqueBytes::try_parse_exclusive(&mut ByteStream::new(&[9u8, 0, 0, 0, 1]));
    assert_eq!(r.err(), Some(OpaqueBytesParseError::Io(IoError::UnexpectedEof)));
}

#[test]
fn string_registry_reports_leftover_bytes() {
    let v = [0x0Cu8, 0, 0, 0, 0x01, 0x00, 0x07, 0, 0, 0, 0x01, 0x00, 0x41, 0x00, 0x00, 0x00];
    let r = StringRegistry::try_parse(&mut ByteStream::new(&v));
    assert_eq!(r.err(), Some(StringRegistryParseError::Unfinished(sdocx::byte_stream::UnfinishedParsingError { remaining: 2 })));
}

#[test]
fn file_registry_reports_a_bad_end_string() {
    let v = [0x00u8, 0x00, b'A', b'B', b'C', b'D'];
    let r = FileRegistry::try_parse(&mut ByteStream::new(&v));
    assert!(matches!(r, Err(FileRegistryParseError::BadEofStr(b)) if b == "ABCD"));
}

#[test]
fn flag_blocks_and_headers_report_their_errors() {
    let v = [0u8, 0, 0, 0, 0x00, 0x07];
    let r = FlagBlock::try_parse(&mut ByteStream::new(&v));
    assert!(matches!(r, Err(FlagBlockError::FieldFlags(ReadBitfieldError::SizeOutOfRange(7)))));
    let v = [0u8, 0, 0, 0, 0x09];
    let r = FlagBlock::try_parse(&mut ByteStream::new(&v));
    assert!(matches!(r, Err(FlagBlockError::PropertyFlags(ReadBitfieldError::SizeOutOfRange(9)))));

    let h = [0x0Cu8, 0, 0, 0, 0x02, 0x00, 0, 0, 0, 0, 0x00, 0x00];
    let r = try_parse_object_header(&mut ByteStream::new(&h), 1);
    assert!(matches!(r, Err(ObjectHeaderError::WrongDataType { is: 2, not: 1 })));
    assert_eq!(r.err().unwrap().data_type_message(), Some("expected data type 1, not 2".to_string()));
    let e = ObjectHeaderError::WrongDataType { is: 7, not: 1234 };
    assert_eq!(e.data_type_message(), Some("expected data type 1234, not 7".to_string()));
    assert_eq!(ObjectHeaderError::FlagBlock(FlagBlockError::Io(IoError::UnexpectedEof)).data_type_message(), None);
    let r = ObjectHeader::try_parse(&mut ByteStream::new(&h), 1);
    assert!(matches!(r, Err(ObjectHeaderError::WrongDataType { is: 2, not: 1 })));
    let r = ObjectHeader::try_parse(&mut ByteStream::new(&h), 2);
    assert!(r.is_ok());
}
