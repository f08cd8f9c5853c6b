use sdocx::byte_stream::{ByteStream, IoError, RawF32, RawF64, TryParse};
use sdocx::page::object::table::{
    Cell, CellParseError, FullBorderStyle, FullBorderStyleParseError, SingleBorderStyle, TableParseError,
};
use sdocx::page::object::{DocObject, DocObjectParseContext, DocObjectParseError};
use sha2::Digest;
use sdocx::context::{DocumentContext, TryParseWithContext};
use sdocx::media_info::FileRegistry;
use sdocx::note_doc::StringRegistry;
use sdocx::page::header::{
    CanvasCacheEntry, CustomObjectType, CustomPageObject, PdfDataItemParseCtx, PdfDataItemParseError,
    PdfPage, PdfRect,
};
use sdocx::page::{
    page_end_bytes, BackgroundImageMode, InvalidBackgroundImageModeError, InvalidTemplateTypeError,
    Layer, LayerParseError, Page, PageParseError, TemplateType,
};
use sdocx::page_id_info::PageIdInfo;
use sdocx::page_list::{PageList, PageListParseError};

fn short_u16(s: &str) -> Vec<u8> {
    let units: Vec<u16> = s.encode_utf16().collect();
    let mut v = (units.len() as u16).to_le_bytes().to_vec();
    for u in units {
        v.extend_from_slice(&u.to_le_bytes());
    }
    v
}

fn u32b(v: u32) -> [u8; 4] {
    v.to_le_bytes()
}

/// A file registry in the older format with one file, bind id 5, named "a.pdf".
fn registry_bytes() -> Vec<u8> {
    let mut v = vec![1u8, 0];
    v.extend_from_slice(&u32b(5));
    v.extend_from_slice(&short_u16("a.pdf"));
    v.extend_from_slice(&[b'0'; 64]);
    v.extend_from_slice(&[1u8, 0]);
    v.extend_from_slice(&1_600_000_000_000_000i64.to_le_bytes());
    v.extend_from_slice(&[0u8, b'E', b'O', b'F']);
    v
}

/// The fixed fields of a page.
fn page_fixed() -> Vec<u8> {
    let mut v = Vec::new();
    for x in [0u32, 1000, 2000, 0, 0] {
        v.extend_from_slice(&u32b(x));
    }
    v.extend_from_slice(&short_u16("page-uuid"));
    v.extend_from_slice(&1_600_000_000_000_000i64.to_le_bytes());
    v.extend_from_slice(&u32b(2035));
    v.extend_from_slice(&u32b(2000));
    v
}

/// A page with the given property bits, field bits, optional fields and layers.
fn page_bytes(props: u8, fields: u32, flex: &[u8], layers: &[Vec<u8>], trailer: &[u8]) -> Vec<u8> {
    let fixed = page_fixed();
    let head_len = 4 + 4 + 2 + 5 + fixed.len();
    let flex_rel = head_len as u32;
    let end_rel = (head_len + flex.len()) as u32;
    let mut v = Vec::new();
    v.extend_from_slice(&u32b(end_rel));
    v.extend_from_slice(&u32b(flex_rel));
    v.extend_from_slice(&[1u8, props]);
    v.push(4);
    v.extend_from_slice(&u32b(fields));
    v.extend_from_slice(&fixed);
    assert_eq!(v.len(), head_len);
    v.extend_from_slice(flex);
    v.extend_from_slice(&(layers.len() as u16).to_le_bytes());
    v.extend_from_slice(&0u16.to_le_bytes());
    for l in layers {
        v.extend_from_slice(l);
    }
    v.extend_from_slice(&[0xabu8; 32]);
    v.extend_from_slice(trailer);
    v
}

/// An empty layer whose header starts at `at` in the page.
fn layer_bytes(at: usize, id: u32) -> Vec<u8> {
    // size, flex offset, property bits (hidden), field bits, layer id
    let size = 4 + 4 + 2 + 1 + 4;
    let flex = (at + size) as u32;
    let mut v = Vec::new();
    v.extend_from_slice(&u32b(size as u32));
    v.extend_from_slice(&u32b(flex));
    v.extend_from_slice(&[1u8, 1]);
    v.push(0);
    v.extend_from_slice(&u32b(id));
    v.extend_from_slice(&u32b(0));
    v.extend_from_slice(&[0x11u8; 32]);
    v
}

fn with_registries<T>(f: impl FnOnce(&DocumentContext) -> T) -> T {
    let files = FileRegistry::new();
    let strings = StringRegistry::new();
    let ctx = DocumentContext { file_registry: &files, string_registry: &strings };
    f(&ctx)
}

#[test]
fn reads_a_plain_page() {
    let bytes = page_bytes(1, 0, &[], &[], &page_end_bytes());
    let page = with_registries(|ctx| Page::try_parse_with_ctx(&mut ByteStream::new(&bytes), ctx)).unwrap();
    assert!(page.is_text_only);
    assert_eq!(page.width, 1000);
    assert_eq!(page.height, 2000);
    assert_eq!(page.uuid, "page-uuid");
    assert_eq!(page.format_version, 2035);
    assert!(page.layers.is_empty());
    assert!(page.tags.is_empty());
    assert_eq!(page.hash(), &[0xabu8; 32]);
}

#[test]
fn page_end_string_is_checked() {
    let bytes = page_bytes(0, 0, &[], &[], b"Page for SAMSUNG S-Pen SDX");
    let r = with_registries(|ctx| Page::try_parse_with_ctx(&mut ByteStream::new(&bytes), ctx));
    match r {
        Err(PageParseError::BadEndString(b)) => assert_eq!(b, "Page for SAMSUNG S-Pen SDX"),
        other => panic!("unexpected {:?}", other),
    }
    assert_eq!(page_end_bytes().to_vec(), b"Page for SAMSUNG S-Pen SDK".to_vec());
}

#[test]
fn unknown_page_property_is_refused() {
    let bytes = page_bytes(2, 0, &[], &[], &page_end_bytes());
    let r = with_registries(|ctx| Page::try_parse_with_ctx(&mut ByteStream::new(&bytes), ctx));
    assert!(matches!(r, Err(PageParseError::UnhandledProperty(_))));
}

#[test]
fn unknown_page_field_is_refused() {
    let bytes = page_bytes(0, 1 << 13, &[], &[], &page_end_bytes());
    let r = with_registries(|ctx| Page::try_parse_with_ctx(&mut ByteStream::new(&bytes), ctx));
    assert!(matches!(r, Err(PageParseError::UnhandledField(_))));
}

#[test]
fn reads_page_optional_fields() {
    // bit 6: background width; bit 10: a canvas cache of 2 entries of 3 bytes, skipped;
    // bit 1: two tags.
    let mut flex = Vec::new();
    flex.extend_from_slice(&2u16.to_le_bytes());
    flex.extend_from_slice(&short_u16("x"));
    flex.extend_from_slice(&short_u16("yz"));
    flex.extend_from_slice(&u32b(777));
    flex.extend_from_slice(&u32b(2));
    flex.extend_from_slice(&3u16.to_le_bytes());
    flex.extend_from_slice(&[9u8; 6]);
    let bytes = page_bytes(0, (1 << 1) | (1 << 6) | (1 << 10), &flex, &[], &page_end_bytes());
    let page = with_registries(|ctx| Page::try_parse_with_ctx(&mut ByteStream::new(&bytes), ctx)).unwrap();
    assert_eq!(page.tags, vec!["x".to_string(), "yz".to_string()]);
    assert_eq!(page.background_width, Some(777));
    assert!(page.canvas_cache_map.is_empty());
    assert_eq!(page.background_rotation, None);
}

#[test]
fn bad_background_image_mode_is_refused() {
    let bytes = page_bytes(0, 1 << 4, &u32b(9), &[], &page_end_bytes());
    let r = with_registries(|ctx| Page::try_parse_with_ctx(&mut ByteStream::new(&bytes), ctx));
    match r {
        Err(PageParseError::BackgroundImageMode(e)) => assert_eq!(e, InvalidBackgroundImageModeError { bad_value: 9 }),
        other => panic!("unexpected {:?}", other),
    }
}

#[test]
fn reads_layers() {
    let fixed_len = 4 + 4 + 2 + 5 + page_fixed().len();
    let first = layer_bytes(fixed_len + 4, 7);
    let second = layer_bytes(fixed_len + 4 + first.len(), 8);
    let bytes = page_bytes(0, 0, &[], &[first, second], &page_end_bytes());
    let page = with_registries(|ctx| Page::try_parse_with_ctx(&mut ByteStream::new(&bytes), ctx)).unwrap();
    assert_eq!(page.layers.len(), 2);
    assert_eq!(page.layers[0].layer_id, 7);
    assert_eq!(page.layers[1].layer_id, 8);
    assert!(!page.layers[0].visible);
    assert!(page.layers[0].objects.is_empty());
    assert_eq!(page.layers[1].hash, [0x11u8; 32]);
}

#[test]
fn layer_with_children_is_refused() {
    let mut l = layer_bytes(0, 1);
    // One object: type 1, one child.
    let n = l.len() - 36;
    l.truncate(n);
    l.extend_from_slice(&u32b(1));
    l.push(1);
    l.extend_from_slice(&1u16.to_le_bytes());
    let r = with_registries(|ctx| Layer::try_parse_with_ctx(&mut ByteStream::new(&l), ctx));
    assert!(matches!(r, Err(LayerParseError::ObjectHasChildren(1))));
}

#[test]
fn enums_from_numbers() {
    assert_eq!(TemplateType::try_from_u32(0), Ok(TemplateType::NoTemplate));
    assert_eq!(TemplateType::try_from_u32(16), Ok(TemplateType::Pdf));
    assert_eq!(TemplateType::try_from_u32(17), Err(InvalidTemplateTypeError { bad_value: 17 }));
    assert_eq!(BackgroundImageMode::try_from_u32(3), Ok(BackgroundImageMode::Tile));
    assert_eq!(CustomObjectType::from_u32(1), CustomObjectType::StickyNote);
    assert_eq!(CustomObjectType::from_u32(4), CustomObjectType::Unknown(4));
}

#[test]
fn reads_pdf_pages() {
    let files = FileRegistry::try_parse(&mut ByteStream::new(&registry_bytes())).unwrap();
    let mut v = u32b(5).to_vec();
    v.extend_from_slice(&u32b(3));
    for x in [1i32, 2, 3, 4] {
        v.extend_from_slice(&x.to_le_bytes());
    }
    let p = PdfPage::try_parse_with_ctx(&mut ByteStream::new(&v), &PdfDataItemParseCtx { file_registry: &files, format_version: 2034 }).unwrap();
    assert_eq!(p.page_index, 3);
    assert_eq!(p.pdf.name(), "a.pdf");
    match p.rect {
        PdfRect::Int(r) => assert_eq!((r.left, r.top, r.right, r.bottom), (1, 2, 3, 4)),
        PdfRect::Float(_) => panic!("expected whole numbers"),
    }
    let mut w = u32b(5).to_vec();
    w.extend_from_slice(&u32b(0));
    for x in [0.5f64, 1.0, 2.0, 3.0] {
        w.extend_from_slice(&x.to_le_bytes());
    }
    let q = PdfPage::try_parse_with_ctx(&mut ByteStream::new(&w), &PdfDataItemParseCtx { file_registry: &files, format_version: 2000 }).unwrap();
    match q.rect {
        PdfRect::Float(r) => assert_eq!(r.left, RawF64 { bits: 0.5f64.to_bits() }),
        PdfRect::Int(_) => panic!("expected floats"),
    }
    let mut bad = u32b(6).to_vec();
    bad.extend_from_slice(&[0u8; 24]);
    let r = PdfPage::try_parse_with_ctx(&mut ByteStream::new(&bad), &PdfDataItemParseCtx { file_registry: &files, format_version: 2034 });
    assert!(matches!(r, Err(PdfDataItemParseError::NoSuchFile(_))));
    let r = PdfPage::try_parse_with_ctx(&mut ByteStream::new(&u32b(5)), &PdfDataItemParseCtx { file_registry: &files, format_version: 2034 });
    assert!(matches!(r, Err(PdfDataItemParseError::Io(IoError::UnexpectedEof))));
}

#[test]
fn reads_canvas_cache_entries() {
    let mut v = Vec::new();
    for x in [1u32, 2, 3] {
        v.extend_from_slice(&u32b(x));
    }
    v.push(1);
    v.extend_from_slice(&[10u8, 20, 30, 40]);
    for x in [4u32, 5, 6, 7, 8, 9, 10] {
        v.extend_from_slice(&u32b(x));
    }
    let e = CanvasCacheEntry::try_parse(&mut ByteStream::new(&v)).unwrap();
    assert_eq!(e.file_id, 1);
    assert!(e.is_dark_mode);
    assert_eq!(e.background_colour, [10, 20, 30, 40]);
    assert_eq!(e.version, [4, 5, 6]);
    assert_eq!(e.system_font_path_hash, 10);
}

#[test]
fn reads_custom_objects() {
    let files = FileRegistry::try_parse(&mut ByteStream::new(&registry_bytes())).unwrap();
    let mut body = u32b(0).to_vec();
    body.extend_from_slice(&[0u8, 0u8]);
    body.extend_from_slice(&2u16.to_le_bytes());
    body.extend_from_slice(b"id");
    body.extend_from_slice(&u32b(1));
    body.extend_from_slice(&u32b(1));
    body.push(b'f');
    body.extend_from_slice(&u32b(5));
    body.extend_from_slice(&u32b(2));
    for (k, val) in [("k", "v1"), ("k", "v2")] {
        body.extend_from_slice(&u32b(k.len() as u32));
        body.extend_from_slice(k.as_bytes());
        body.extend_from_slice(&u32b(val.len() as u32));
        body.extend_from_slice(val.as_bytes());
    }
    for x in [0.0f64, 0.0, 1.0, 1.0] {
        body.extend_from_slice(&x.to_le_bytes());
    }
    let mut v = u32b(1).to_vec();
    v.extend_from_slice(&u32b(body.len() as u32));
    v.extend_from_slice(&body);
    let o = CustomPageObject::try_parse_with_ctx(&mut ByteStream::new(&v), &files).unwrap();
    assert_eq!(o.object_type, CustomObjectType::StickyNote);
    assert_eq!(o.uuid, "id");
    assert_eq!(o.attached_files.len(), 1);
    assert_eq!(o.attached_files[0].0, "f");
    assert_eq!(o.custom_data.len(), 2);
    assert_eq!(o.custom_data[1].1, "v2");
}

/// A page list: a note hash and one page reference.
fn page_list_bytes() -> Vec<u8> {
    let mut v = vec![0x22u8; 32];
    v.extend_from_slice(&1u16.to_le_bytes());
    v.extend_from_slice(&short_u16("p1"));
    v.extend_from_slice(&[0x33u8; 32]);
    v
}

#[test]
fn reads_page_lists() {
    let bytes = page_list_bytes();
    let l = PageList::try_parse(&mut ByteStream::new(&bytes)).unwrap();
    assert_eq!(l.note_hash, [0x22u8; 32]);
    assert_eq!(l.pages().len(), 1);
    assert_eq!(l.pages()[0].uuid(), "p1");
    let info = PageIdInfo::try_parse(&mut ByteStream::new(&bytes)).unwrap();
    assert_eq!(info.note_doc_sha256, [0x22u8; 32]);
    assert_eq!(info.pages[0].page_id, "p1");
    assert_eq!(info.pages[0].hash, [0x33u8; 32]);
    let short = &bytes[..37];
    assert!(matches!(PageList::try_parse(&mut ByteStream::new(short)), Err(PageListParseError::Uuid(_))));
}

/// An object base block with no optional fields.
fn object_base_bytes(uuid: &str, micros: i64) -> Vec<u8> {
    let mut body = 0u16.to_le_bytes().to_vec();
    body.extend_from_slice(&0u32.to_le_bytes());
    body.extend_from_slice(&[0u8, 0u8]);
    body.extend_from_slice(&2035u32.to_le_bytes());
    body.extend_from_slice(&(uuid.len() as u16).to_le_bytes());
    body.extend_from_slice(uuid.as_bytes());
    body.extend_from_slice(&micros.to_le_bytes());
    for x in [0.0f64, 0.0, 10.0, 10.0] {
        body.extend_from_slice(&x.to_le_bytes());
    }
    body.extend_from_slice(&0u32.to_le_bytes());
    body.push(0);
    let mut v = ((body.len() + 4) as u32).to_le_bytes().to_vec();
    v.extend_from_slice(&body);
    v
}

/// A layer holding one container object (type 4) with the given stored hash.
fn layer_with_container(uuid: &str, micros: i64, hash: [u8; 32]) -> Vec<u8> {
    let mut l = layer_bytes(0, 3);
    let n = l.len() - 36;
    l.truncate(n);
    l.extend_from_slice(&u32b(1));
    l.push(4);
    l.extend_from_slice(&0u16.to_le_bytes());
    let mut window = object_base_bytes(uuid, micros);
    window.extend_from_slice(&u32b(4));
    window.extend_from_slice(&hash);
    l.extend_from_slice(&u32b(window.len() as u32));
    l.extend_from_slice(&window);
    l.extend_from_slice(&[0x44u8; 32]);
    l
}

#[test]
fn layer_objects_carry_their_hash() {
    let good: [u8; 32] = sha2::Sha256::digest(b"obj-11700000000000000").into();
    let l = layer_with_container("obj-1", 1_700_000_000_000_000, good);
    let layer = with_registries(|ctx| Layer::try_parse_with_ctx(&mut ByteStream::new(&l), ctx)).unwrap();
    assert_eq!(layer.objects.len(), 1);
    assert_eq!(layer.objects[0].object_base().uuid(), "obj-1");
    assert_eq!(layer.objects[0].object_base().compute_hash(), good);
    assert_eq!(layer.hash, [0x44u8; 32]);

    let bad = layer_with_container("obj-1", 1_700_000_000_000_000, [0u8; 32]);
    let r = with_registries(|ctx| Layer::try_parse_with_ctx(&mut ByteStream::new(&bad), ctx));
    match r {
        Err(LayerParseError::ObjectHashMismatch(u)) => assert_eq!(u, "obj-1"),
        other => panic!("unexpected {:?}", other),
    }
}

#[test]
fn reads_borders() {
    let mut body = u32b(0).to_vec();
    body.extend_from_slice(&[0u8, 0u8]);
    for i in 0..4u32 {
        body.extend_from_slice(&u32b(0xff00_0000 + i));
        for x in [1.0f32, 2.0, 3.0] {
            body.extend_from_slice(&x.to_le_bytes());
        }
    }
    let mut v = u32b(body.len() as u32).to_vec();
    v.extend_from_slice(&body);
    let b = FullBorderStyle::try_parse(&mut ByteStream::new(&v)).unwrap();
    assert_eq!(b.left.colour, 0xff00_0000);
    assert_eq!(b.bottom.colour, 0xff00_0003);
    assert_eq!(
        b.top,
        SingleBorderStyle {
            colour: 0xff00_0001,
            width: RawF32 { bits: 1.0f32.to_bits() },
            start_radius: RawF32 { bits: 2.0f32.to_bits() },
            end_radius: RawF32 { bits: 3.0f32.to_bits() },
        }
    );
    // A set property flag is refused.
    let mut flagged = v.clone();
    flagged[8] = 1;
    flagged.insert(9, 1);
    flagged[0] += 1;
    let r = FullBorderStyle::try_parse(&mut ByteStream::new(&flagged));
    assert!(matches!(r, Err(FullBorderStyleParseError::FlagBlock(_))));
}

#[test]
fn tables_are_read_in_detail() {
    // An object base followed by an empty inclusive block: a valid container, but no table.
    let mut v = object_base_bytes("t-1", 5);
    v.extend_from_slice(&u32b(4));
    let container = with_registries(|ctx| {
        let octx = DocObjectParseContext { object_type: 4, doc_ctx: *ctx };
        DocObject::try_parse_with_ctx(&mut ByteStream::new(&v), &octx)
    });
    assert!(matches!(container, Ok(DocObject::Container(_))));
    let table = with_registries(|ctx| {
        let octx = DocObjectParseContext { object_type: 22, doc_ctx: *ctx };
        DocObject::try_parse_with_ctx(&mut ByteStream::new(&v), &octx)
    });
    assert!(matches!(table, Err(DocObjectParseError::Table(TableParseError::Shape(_)))));
}

#[test]
fn cell_text_nesting_is_bounded() {
    let mut body = u32b(0).to_vec();
    body.extend_from_slice(&[0u8, 0u8]);
    for x in [1u32, 1, 1, 0] {
        body.extend_from_slice(&u32b(x));
    }
    for x in [0.0f64, 0.0, 5.0, 5.0] {
        body.extend_from_slice(&x.to_le_bytes());
    }
    body.push(1);
    let mut v = u32b(body.len() as u32).to_vec();
    v.extend_from_slice(&body);
    let r = with_registries(|ctx| Cell::parse_nested(&mut ByteStream::new(&v), ctx, 0));
    assert!(matches!(r, Err(CellParseError::NestingTooDeep)));
    // One level more: the text's size is missing.
    let r = with_registries(|ctx| Cell::parse_nested(&mut ByteStream::new(&v), ctx, 1));
    assert!(matches!(r, Err(CellParseError::Io(_))));
}
