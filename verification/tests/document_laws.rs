use sdocx::byte_stream::{ByteStream, TryParse};
use sdocx::context::TryParseWithContext;
use sdocx::doc::{Document, DocumentError, DocumentFiles};
use sdocx::media_info::FileRegistry;
use sdocx::note_doc::{NoteDoc, NoteDocParseError};
use sha2::Digest;
use std::io::Write;

fn u32b(v: u32) -> [u8; 4] {
    v.to_le_bytes()
}

fn short_u16(s: &str) -> Vec<u8> {
    let units: Vec<u16> = s.encode_utf16().collect();
    let mut v = (units.len() as u16).to_le_bytes().to_vec();
    for u in units {
        v.extend_from_slice(&u.to_le_bytes());
    }
    v
}

/// An object block of data type `t` with no flags, holding `fields`.
fn block(t: u16, fields: &[u8]) -> Vec<u8> {
    let mut body = t.to_le_bytes().to_vec();
    body.extend_from_slice(&u32b(0));
    body.extend_from_slice(&[0u8, 0u8]);
    body.extend_from_slice(fields);
    let mut v = u32b((body.len() + 4) as u32).to_vec();
    v.extend_from_slice(&body);
    v
}

fn rect() -> Vec<u8> {
    let mut v = Vec::new();
    for x in [0.0f64, 0.0, 100.0, 50.0] {
        v.extend_from_slice(&x.to_le_bytes());
    }
    v
}

/// A text box with no text: an object base, a shape base, a shape and a text block.
fn empty_text_box(uuid: &str) -> Vec<u8> {
    let mut base = u32b(2035).to_vec();
    base.extend_from_slice(&(uuid.len() as u16).to_le_bytes());
    base.extend_from_slice(uuid.as_bytes());
    base.extend_from_slice(&1_700_000_000_000_000i64.to_le_bytes());
    base.extend_from_slice(&rect());
    base.extend_from_slice(&u32b(0));
    base.push(0);
    let mut shape_base = u32b(0).to_vec();
    shape_base.extend_from_slice(&u32b(0));
    shape_base.extend_from_slice(&u32b(0));
    shape_base.push(0);
    let mut shape = u32b(0).to_vec();
    shape.extend_from_slice(&rect());
    shape.extend_from_slice(&0.0f32.to_le_bytes());
    shape.extend_from_slice(&u32b(0));
    shape.push(0);
    let mut v = block(0, &base);
    v.extend_from_slice(&block(6, &shape_base));
    v.extend_from_slice(&block(7, &shape));
    v.extend_from_slice(&block(2, &[]));
    v
}

/// A note document whose title and body are empty text boxes, followed by `hash` (or by the
/// digest of the bytes before it when `hash` is `None`).
fn note_bytes(hash: Option<[u8; 32]>) -> Vec<u8> {
    let title = empty_text_box("title");
    let body = empty_text_box("body");
    let mut rest = Vec::new();
    rest.extend_from_slice(&[0u8, 0u8]);
    rest.extend_from_slice(&u32b(2035));
    rest.extend_from_slice(&short_u16("note-id"));
    rest.extend_from_slice(&u32b(1));
    rest.extend_from_slice(&1_700_000_000_000_000i64.to_le_bytes());
    rest.extend_from_slice(&1_700_000_000_000_001i64.to_le_bytes());
    for x in [1600u32, 2560, 0, 0, 2000] {
        rest.extend_from_slice(&u32b(x));
    }
    rest.extend_from_slice(&u32b(title.len() as u32));
    rest.extend_from_slice(&title);
    rest.extend_from_slice(&u32b(body.len() as u32));
    rest.extend_from_slice(&body);
    let mut v = u32b((4 + rest.len()) as u32).to_vec();
    v.extend_from_slice(&rest);
    let digest: [u8; 32] = sha2::Sha256::digest(&v).into();
    v.extend_from_slice(&hash.unwrap_or(digest));
    v
}

fn empty_registry() -> Vec<u8> {
    vec![0u8, 0, 0, b'E', b'O', b'F']
}

#[test]
fn note_hash_is_the_digest_of_what_precedes_it() {
    let bytes = note_bytes(None);
    let files = FileRegistry::try_parse(&mut ByteStream::new(&empty_registry())).unwrap();
    let note = NoteDoc::try_parse_with_ctx(&mut ByteStream::new(&bytes), &files).unwrap();
    let expected: [u8; 32] = sha2::Sha256::digest(&bytes[..bytes.len() - 32]).into();
    assert_eq!(note.hash(), &expected);
    assert_eq!(note.width, 1600);
    assert_eq!(note.height, 2560);
    assert_eq!(note.id, "note-id");
    assert_eq!(note.title_text.object_base().uuid(), "title");
    assert!(note.title_text.raw_string().is_none());

    let bad = note_bytes(Some([7u8; 32]));
    let r = NoteDoc::try_parse_with_ctx(&mut ByteStream::new(&bad), &files);
    assert!(matches!(r, Err(NoteDocParseError::HashMismatch)));
}

/// The fixed fields of a page.
fn page_bytes() -> Vec<u8> {
    let mut fixed = Vec::new();
    for x in [0u32, 1600, 2560, 0, 0] {
        fixed.extend_from_slice(&u32b(x));
    }
    fixed.extend_from_slice(&short_u16("p1"));
    fixed.extend_from_slice(&1_600_000_000_000_000i64.to_le_bytes());
    fixed.extend_from_slice(&u32b(2035));
    fixed.extend_from_slice(&u32b(2000));
    let head_len = (4 + 4 + 2 + fixed.len()) as u32;
    let mut v = u32b(head_len).to_vec();
    v.extend_from_slice(&u32b(head_len));
    v.extend_from_slice(&[0u8, 0u8]);
    v.extend_from_slice(&fixed);
    v.extend_from_slice(&0u16.to_le_bytes());
    v.extend_from_slice(&0u16.to_le_bytes());
    v.extend_from_slice(&[0x5au8; 32]);
    v.extend_from_slice(b"Page for SAMSUNG S-Pen SDK");
    v
}

fn page_list(note_hash: [u8; 32], page_hash: [u8; 32]) -> Vec<u8> {
    let mut v = note_hash.to_vec();
    v.extend_from_slice(&1u16.to_le_bytes());
    v.extend_from_slice(&short_u16("p1"));
    v.extend_from_slice(&page_hash);
    v
}

fn document(note_hash: [u8; 32], page_hash: [u8; 32]) -> Result<Document, DocumentError> {
    let note = note_bytes(None);
    let files = DocumentFiles {
        entries: vec![
            ("media/mediaInfo.dat".to_string(), empty_registry()),
            ("note.note".to_string(), note),
            ("pageIdInfo.dat".to_string(), page_list(note_hash, page_hash)),
            ("p1.page".to_string(), page_bytes()),
        ],
    };
    Document::from_files(&files)
}

#[test]
fn document_files_must_agree_on_hashes() {
    let note = note_bytes(None);
    let note_hash: [u8; 32] = note[note.len() - 32..].try_into().unwrap();
    // Everything agrees: reading goes on to the end tag, which is missing.
    match document(note_hash, [0x5au8; 32]) {
        Err(DocumentError::MissingArchiveEntry(n)) => assert_eq!(n, "end_tag.bin"),
        other => panic!("unexpected {:?}", other.err()),
    }
    // The page list records another hash for the note document.
    assert!(matches!(document([1u8; 32], [0x5au8; 32]), Err(DocumentError::PageListHashMismatch)));
    // The page list records another hash for the page.
    match document(note_hash, [2u8; 32]) {
        Err(DocumentError::PageHashMismatch(n)) => assert_eq!(n, "p1.page"),
        other => panic!("unexpected {:?}", other.err()),
    }
}

fn zip_of(entries: &[(&str, Vec<u8>)]) -> Vec<u8> {
    let mut z = zip::ZipWriter::new(std::io::Cursor::new(Vec::new()));
    for (name, bytes) in entries {
        z.start_file(name.to_string(), zip::write::SimpleFileOptions::default()).unwrap();
        z.write_all(bytes).unwrap();
    }
    z.finish().unwrap().into_inner()
}

#[test]
fn documents_are_read_from_zip_archives() {
    let note = note_bytes(None);
    let note_hash: [u8; 32] = note[note.len() - 32..].try_into().unwrap();
    let archive = zip_of(&[
        ("media/mediaInfo.dat", empty_registry()),
        ("note.note", note),
        ("pageIdInfo.dat", page_list(note_hash, [0x5au8; 32])),
        ("p1.page", page_bytes()),
    ]);
    match Document::from_zip_bytes(&archive) {
        Err(DocumentError::MissingArchiveEntry(n)) => assert_eq!(n, "end_tag.bin"),
        other => panic!("unexpected {:?}", other.err()),
    }
    let archive = zip_of(&[("note.note", vec![1u8, 2, 3])]);
    match Document::from_zip_bytes(&archive) {
        Err(DocumentError::MissingArchiveEntry(n)) => assert_eq!(n, "media/mediaInfo.dat"),
        other => panic!("unexpected {:?}", other.err()),
    }
    assert!(matches!(Document::from_zip_bytes(b"not a zip archive"), Err(DocumentError::Zip)));
}

/// Breaks the local header of the last entry written to `archive`.
fn break_last_entry(archive: &mut Vec<u8>) {
    let sig = [0x50u8, 0x4b, 0x03, 0x04];
    let at = (0..archive.len() - 3).rev().find(|&i| archive[i..i + 4] == sig).unwrap();
    archive[at + 2] = 0xff;
}

#[test]
fn only_the_entries_a_document_needs_are_read() {
    let note = note_bytes(None);
    let note_hash: [u8; 32] = note[note.len() - 32..].try_into().unwrap();
    let mut entries = vec![
        ("media/mediaInfo.dat", empty_registry()),
        ("note.note", note),
        ("pageIdInfo.dat", page_list(note_hash, [0x5au8; 32])),
        ("p1.page", page_bytes()),
        ("unused.bin", vec![7u8; 16]),
    ];
    // A broken entry that the document never needs is never read.
    let mut archive = zip_of(&entries);
    break_last_entry(&mut archive);
    match Document::from_zip_bytes(&archive) {
        Err(DocumentError::MissingArchiveEntry(n)) => assert_eq!(n, "end_tag.bin"),
        other => panic!("unexpected {:?}", other.err()),
    }
    // A broken entry that it needs cannot be read.
    entries[4].0 = "end_tag.bin";
    let mut archive = zip_of(&entries);
    break_last_entry(&mut archive);
    assert!(matches!(Document::from_zip_bytes(&archive), Err(DocumentError::Zip)));
}
