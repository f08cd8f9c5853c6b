use sdocx::byte_stream::Timestamp;
use sdocx::digest::push_decimal;
use sdocx::doc::{str_eq, Document, DocumentError, DocumentFiles};
use sdocx::page::object::base::{ObjectBase, ResizeMode};
use sdocx::page::object::shared::Rect;
use sdocx::byte_stream::RawF64;
use sha2::Digest;

fn files(entries: &[(&str, Vec<u8>)]) -> DocumentFiles {
    DocumentFiles { entries: entries.iter().map(|(n, b)| (n.to_string(), b.clone())).collect() }
}

#[test]
fn finds_files_by_name() {
    let f = files(&[("a", vec![1]), ("b", vec![2]), ("a", vec![3])]);
    assert_eq!(f.get("a"), Some(&[1u8][..]));
    assert_eq!(f.get("b"), Some(&[2u8][..]));
    assert_eq!(f.get("c"), None);
    assert!(str_eq("héllo", "héllo"));
    assert!(!str_eq("hello", "hellö"));
}

#[test]
fn missing_files_are_named() {
    let r = Document::from_files(&files(&[]));
    match r {
        Err(DocumentError::MissingArchiveEntry(n)) => assert_eq!(n, "media/mediaInfo.dat"),
        other => panic!("unexpected {:?}", other),
    }
    // A registry in the older format with no files.
    let registry = vec![0u8, 0, 0, b'E', b'O', b'F'];
    let r = Document::from_files(&files(&[("media/mediaInfo.dat", registry.clone())]));
    match r {
        Err(DocumentError::MissingArchiveEntry(n)) => assert_eq!(n, "note.note"),
        other => panic!("unexpected {:?}", other),
    }
    let r = Document::from_files(&files(&[("media/mediaInfo.dat", registry), ("note.note", vec![1, 2, 3])]));
    assert!(matches!(r, Err(DocumentError::NoteDoc(_))));
    let r = Document::from_files(&files(&[("media/mediaInfo.dat", vec![1, 2])]));
    assert!(matches!(r, Err(DocumentError::FileRegistry(_))));
}

fn decimal(v: i64) -> Vec<u8> {
    let mut out = vec![b'#'];
    push_decimal(v, &mut out);
    out
}

#[test]
fn writes_decimal_numbers() {
    assert_eq!(decimal(0), b"#0".to_vec());
    assert_eq!(decimal(7), b"#7".to_vec());
    assert_eq!(decimal(1234567890), b"#1234567890".to_vec());
    assert_eq!(decimal(-45), b"#-45".to_vec());
    assert_eq!(decimal(i64::MIN), b"#-9223372036854775808".to_vec());
    assert_eq!(decimal(i64::MAX), b"#9223372036854775807".to_vec());
}

fn object_base(uuid: &str, micros: i64) -> ObjectBase {
    let zero = RawF64 { bits: 0 };
    ObjectBase {
        is_rotatable: false,
        is_selectable: false,
        is_movable: false,
        is_visible: true,
        is_replayable: false,
        is_clippable: false,
        is_template_object: false,
        is_flippable: false,
        has_been_to_att: false,
        is_locked: false,
        is_removable: false,
        format_version: 2035,
        uuid: uuid.to_string(),
        modified_time: Timestamp { micros },
        rect: Rect { left: zero, top: zero, right: zero, bottom: zero },
        timestamp_int: 0,
        resize_mode: ResizeMode::Free,
        angle: None,
        unknown_somethings: None,
        ao_info: None,
        sor_bundle: None,
        plugin_link: None,
        extra_bundle: None,
        attached_file_id: None,
        min_width_height: None,
        max_width_height: None,
        append_time: None,
        owner_page_width_height: None,
        layout_type: None,
        unknown_20: None,
        thumbnail_bind_id: None,
        pivot: None,
        group_id: None,
    }
}

#[test]
fn object_hash_is_digest_of_uuid_and_time() {
    let b = object_base("3f2a-é", -1_234_567);
    let expected: [u8; 32] = sha2::Sha256::digest("3f2a-é-1234567".as_bytes()).into();
    assert_eq!(b.compute_hash(), expected);
    // The SHA-256 digest of "ab0".
    let abc = object_base("ab", 0);
    let want: [u8; 32] = [73, 136, 103, 162, 80, 163, 67, 71, 157, 221, 180, 45, 94, 134, 252, 178, 67, 208, 55, 22, 45, 16, 211, 30, 38, 108, 165, 211, 82, 80, 21, 238];
    assert_eq!(abc.compute_hash(), want);
    assert_ne!(abc.compute_hash(), b.compute_hash());
}
