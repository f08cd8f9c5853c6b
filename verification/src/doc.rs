//! A whole document: its files, read and checked against each other.
use vstd::prelude::*;

use crate::byte_stream::{bytes_eq, spec_u16, views, ByteStream, TryParse};
use crate::context::{DocumentContext, TryParseWithContext};
use crate::end_tag::{spec_end_tag, spec_end_tag_fields, EndTag, EndTagModel, EndTagParseError, NoteSdkType, PageModel as EndTagPageModel};
use crate::media_info::{spec_file_registry, BoundFileModel, FileRegistry, FileRegistryParseError};
use crate::note_doc::{bytes_stream, spec_note_doc, NoteDoc, NoteDocModel, NoteDocParseError};
use crate::page::object::text::Text;
use crate::page::{spec_page, Page, PageModel, PageParseError};
use crate::page_list::{spec_page_list, PageList, PageListModel, PageListParseError, PageRef, PageRefModel};

verus! {

broadcast use vstd::utf8::encode_utf8_decode_utf8;

/// Whether two strings are equal.
pub fn str_eq(a: &str, b: &str) -> (r: bool)
    ensures
        r == (a@ == b@),
{
    let r = bytes_eq(a.as_bytes(), b.as_bytes());
    proof {
        if r {
            assert(vstd::utf8::decode_utf8(vstd::utf8::encode_utf8(a@)) == a@);
            assert(vstd::utf8::decode_utf8(vstd::utf8::encode_utf8(b@)) == b@);
        }
    }
    r
}

/// The files of a document by name, as an archive (or a directory) holds them.
#[derive(Debug)]
pub struct DocumentFiles {
    pub entries: Vec<(String, Vec<u8>)>,
}

impl View for DocumentFiles {
    type V = Seq<(Seq<char>, Seq<u8>)>;

    open spec fn view(&self) -> Seq<(Seq<char>, Seq<u8>)> {
        views(self.entries@)
    }
}

/// The bytes of the first file named `name`, if there is one.
pub open spec fn entry_of(es: Seq<(Seq<char>, Seq<u8>)>, name: Seq<char>) -> Option<Seq<u8>>
    decreases es.len(),
{
    if es.len() == 0 {
        None
    } else if es[0].0 == name {
        Some(es[0].1)
    } else {
        entry_of(es.drop_first(), name)
    }
}

impl DocumentFiles {
    /// The bytes of the first file named `name`.
    pub fn get(&self, name: &str) -> (r: Option<&[u8]>)
        ensures
            match entry_of(self@, name@) {
                Some(b) => r matches Some(v) && v@ == b,
                None => r is None,
            },
    {
        let mut i: usize = 0;
        assert(self@.subrange(0, self@.len() as int) =~= self@);
        while i < self.entries.len()
            invariant
                i <= self.entries@.len(),
                entry_of(self@, name@) == entry_of(self@.subrange(i as int, self@.len() as int), name@),
            decreases self.entries@.len() - i,
        {
            let ghost rest = self@.subrange(i as int, self@.len() as int);
            assert(rest.drop_first() =~= self@.subrange(i + 1, self@.len() as int));
            assert(rest[0] == self.entries@[i as int]@);
            if str_eq(self.entries[i].0.as_str(), name) {
                return Some(self.entries[i].1.as_slice());
            }
            i = i + 1;
        }
        assert(self@.subrange(i as int, self@.len() as int).len() == 0);
        None
    }
}

/// Failure to read a document.
#[derive(Debug)]
pub enum DocumentError {
    /// The zip archive, or one of its entries, could not be read.
    Zip,
    FileRegistry(FileRegistryParseError),
    NoteDoc(NoteDocParseError),
    PageList(PageListParseError),
    Page(PageParseError),
    EndTag(EndTagParseError),
    /// The document has no file with this name.
    MissingArchiveEntry(String),
    /// The page list does not record the hash of the note document.
    PageListHashMismatch,
    /// The page in the file with this name does not have the hash that the page list records.
    PageHashMismatch(String),
}

/// What failed, as the contracts tell it: which file was missing, which file could not be read,
/// or which hash did not match.
pub enum DocumentErrorKind {
    Zip,
    FileRegistry,
    NoteDoc,
    PageList,
    Page,
    EndTag,
    MissingArchiveEntry(Seq<char>),
    PageListHashMismatch,
    PageHashMismatch(Seq<char>),
}

impl DocumentError {
    pub open spec fn kind(&self) -> DocumentErrorKind {
        match self {
            DocumentError::Zip => DocumentErrorKind::Zip,
            DocumentError::FileRegistry(_) => DocumentErrorKind::FileRegistry,
            DocumentError::NoteDoc(_) => DocumentErrorKind::NoteDoc,
            DocumentError::PageList(_) => DocumentErrorKind::PageList,
            DocumentError::Page(_) => DocumentErrorKind::Page,
            DocumentError::EndTag(_) => DocumentErrorKind::EndTag,
            DocumentError::MissingArchiveEntry(n) => DocumentErrorKind::MissingArchiveEntry(n@),
            DocumentError::PageListHashMismatch => DocumentErrorKind::PageListHashMismatch,
            DocumentError::PageHashMismatch(n) => DocumentErrorKind::PageHashMismatch(n@),
        }
    }
}

/// A document: the note document, its pages in the order of the page list, and its end tag.
#[derive(Debug)]
pub struct Document {
    note: NoteDoc,
    pages: Vec<Page>,
    end_tag: EndTag,
}

pub struct DocumentModel {
    pub note: NoteDocModel,
    pub pages: Seq<PageModel>,
    pub end_tag: EndTagModel,
}

impl View for Document {
    type V = DocumentModel;

    closed spec fn view(&self) -> DocumentModel {
        DocumentModel { note: self.note@, pages: views(self.pages@), end_tag: self.end_tag@ }
    }
}

/// The name of the file of the page whose uuid is `uuid`.
pub open spec fn page_file_name(uuid: Seq<char>) -> Seq<char> {
    uuid + ".page"@
}

/// The first `n` pages that `refs` names: each page file must be there, must be read as a page,
/// and must hold the hash that its reference records.
pub open spec fn spec_pages(src: SourceModel, refs: Seq<PageRefModel>, files: Map<u32, BoundFileModel>, n: nat) -> Result<Seq<PageModel>, DocumentErrorKind>
    decreases n,
{
    if n == 0 {
        Ok(Seq::empty())
    } else {
        match spec_pages(src, refs, files, (n - 1) as nat) {
            Ok(ps) => {
                let name = page_file_name(refs[n - 1].uuid);
                match lookup(src, name) {
                    EntryLookup::Found(bytes) => match spec_page(bytes_stream(bytes), files) {
                        Some((p, _)) => if p.hash != refs[n - 1].hash {
                            Err(DocumentErrorKind::PageHashMismatch(name))
                        } else {
                            Ok(ps.push(p))
                        },
                        None => Err(DocumentErrorKind::Page),
                    },
                    EntryLookup::Missing => Err(DocumentErrorKind::MissingArchiveEntry(name)),
                    EntryLookup::Unreadable => Err(DocumentErrorKind::Zip),
                }
            },
            Err(k) => Err(k),
        }
    }
}

/// A document from its files: the file registry (`media/mediaInfo.dat`), the note document
/// (`note.note`), the page list (`pageIdInfo.dat`), which must record the note document's hash,
/// the pages that the list names, and the end tag (`end_tag.bin`, of an S-Pen SDK document), in
/// that order; the first missing or unreadable file, or mismatched hash, is the error. Each file
/// is looked up in `src` when it is needed.
pub open spec fn spec_document_in(src: SourceModel) -> Result<DocumentModel, DocumentErrorKind> {
    match lookup(src, "media/mediaInfo.dat"@) {
        EntryLookup::Found(mb) => match spec_file_registry(bytes_stream(mb)) {
            Some((files, _)) => match lookup(src, "note.note"@) {
                EntryLookup::Found(nb) => match spec_note_doc(bytes_stream(nb), files) {
                    Some((note, _)) => match lookup(src, "pageIdInfo.dat"@) {
                        EntryLookup::Found(lb) => match spec_page_list(bytes_stream(lb)) {
                            Some((pl, _)) => if pl.note_hash != note.hash {
                                Err(DocumentErrorKind::PageListHashMismatch)
                            } else {
                                match spec_pages(src, pl.pages, files, pl.pages.len()) {
                                    Ok(pages) => match lookup(src, "end_tag.bin"@) {
                                        EntryLookup::Found(eb) => match spec_end_tag(bytes_stream(eb), NoteSdkType::SPen) {
                                            Ok((end_tag, _)) => Ok(DocumentModel { note, pages, end_tag }),
                                            Err(_) => Err(DocumentErrorKind::EndTag),
                                        },
                                        EntryLookup::Missing => Err(DocumentErrorKind::MissingArchiveEntry("end_tag.bin"@)),
                                        EntryLookup::Unreadable => Err(DocumentErrorKind::Zip),
                                    },
                                    Err(k) => Err(k),
                                }
                            },
                            None => Err(DocumentErrorKind::PageList),
                        },
                        EntryLookup::Missing => Err(DocumentErrorKind::MissingArchiveEntry("pageIdInfo.dat"@)),
                        EntryLookup::Unreadable => Err(DocumentErrorKind::Zip),
                    },
                    None => Err(DocumentErrorKind::NoteDoc),
                },
                EntryLookup::Missing => Err(DocumentErrorKind::MissingArchiveEntry("note.note"@)),
                EntryLookup::Unreadable => Err(DocumentErrorKind::Zip),
            },
            None => Err(DocumentErrorKind::FileRegistry),
        },
        EntryLookup::Missing => Err(DocumentErrorKind::MissingArchiveEntry("media/mediaInfo.dat"@)),
        EntryLookup::Unreadable => Err(DocumentErrorKind::Zip),
    }
}

/// A document from a set of files (see `spec_document_in`).
pub open spec fn spec_document(es: Seq<(Seq<char>, Seq<u8>)>) -> Result<DocumentModel, DocumentErrorKind> {
    spec_document_in(SourceModel::Files(es))
}

/// A document from the bytes of its zip archive (see `spec_document_in`): each file is opened
/// by name when it is needed, so an entry that is never needed is never read.
pub open spec fn spec_document_from_zip(archive: Seq<u8>) -> Result<DocumentModel, DocumentErrorKind> {
    spec_document_in(SourceModel::Zip(archive))
}

/// Where a document's files come from: a set of named files, or a zip archive's bytes.
pub enum SourceModel {
    Files(Seq<(Seq<char>, Seq<u8>)>),
    Zip(Seq<u8>),
}

/// What looking a file up gives: its bytes, that it is not there, or that it cannot be read.
pub enum EntryLookup {
    Found(Seq<u8>),
    Missing,
    Unreadable,
}

/// Looking up the file named `name` in `src`.
pub open spec fn lookup(src: SourceModel, name: Seq<char>) -> EntryLookup {
    match src {
        SourceModel::Files(es) => match entry_of(es, name) {
            Some(b) => EntryLookup::Found(b),
            None => EntryLookup::Missing,
        },
        SourceModel::Zip(archive) => match zip_entry(archive, name) {
            Some(Some(b)) => EntryLookup::Found(b),
            Some(None) => EntryLookup::Missing,
            None => EntryLookup::Unreadable,
        },
    }
}

/// What opening the zip archive `archive` and reading its entry named `name` gives: `None` if
/// the archive or the entry cannot be read, `Some(None)` if there is no entry of that name, and
/// otherwise the entry's uncompressed bytes.
pub uninterp spec fn zip_entry(archive: Seq<u8>, name: Seq<char>) -> Option<Option<Seq<u8>>>;

/// Opens `archive` with `zip::ZipArchive::new`, finds the entry named `name` with
/// `ZipArchive::by_name` and reads it to its end.
///
/// Claimed: the outcome depends on the archive's bytes and the name alone (it is named by
/// `zip_entry`); a missing entry (`ZipError::FileNotFound`) is told apart from other failures.
/// What the zip format yields for given bytes is not stated.
#[verifier::external_body]
fn read_zip_entry(archive: &[u8], name: &str) -> (r: Option<Option<Vec<u8>>>)
    ensures
        match r {
            None => zip_entry(archive@, name@) is None,
            Some(None) => zip_entry(archive@, name@) == Some(None::<Seq<u8>>),
            Some(Some(v)) => zip_entry(archive@, name@) == Some(Some(v@)),
        },
{
    let mut a = zip::ZipArchive::new(std::io::Cursor::new(archive)).ok()?;
    let mut f = match a.by_name(name) {
        Ok(f) => f,
        Err(zip::result::ZipError::FileNotFound) => return Some(None),
        Err(_) => return None,
    };
    let mut bytes: Vec<u8> = Vec::new();
    std::io::Read::read_to_end(&mut f, &mut bytes).ok()?;
    Some(Some(bytes))
}

/// Where a document's files come from.
pub enum DocumentSource<'a> {
    Files(&'a DocumentFiles),
    Zip(&'a [u8]),
}

impl<'a> DocumentSource<'a> {
    pub open spec fn model(&self) -> SourceModel {
        match self {
            DocumentSource::Files(f) => SourceModel::Files(f@),
            DocumentSource::Zip(a) => SourceModel::Zip(a@),
        }
    }
}

/// The bytes of a file, borrowed from a set of files or unpacked from an archive.
pub enum EntryBytes<'a> {
    Borrowed(&'a [u8]),
    Owned(Vec<u8>),
}

impl<'a> EntryBytes<'a> {
    pub open spec fn model(&self) -> Seq<u8> {
        match self {
            EntryBytes::Borrowed(b) => b@,
            EntryBytes::Owned(v) => v@,
        }
    }

    pub fn as_slice(&self) -> (r: &[u8])
        ensures
            r@ == self.model(),
    {
        match self {
            EntryBytes::Borrowed(b) => b,
            EntryBytes::Owned(v) => v.as_slice(),
        }
    }
}

/// The bytes of the file named `name`, or the error that it is missing or cannot be read.
fn fetch<'a>(src: &DocumentSource<'a>, name: &str) -> (r: Result<EntryBytes<'a>, DocumentError>)
    ensures
        match lookup(src.model(), name@) {
            EntryLookup::Found(b) => r matches Ok(v) && v.model() == b,
            EntryLookup::Missing => r matches Err(e) && e.kind() == DocumentErrorKind::MissingArchiveEntry(name@),
            EntryLookup::Unreadable => r matches Err(e) && e.kind() == DocumentErrorKind::Zip,
        },
{
    match src {
        DocumentSource::Files(files) => match files.get(name) {
            Some(b) => Ok(EntryBytes::Borrowed(b)),
            None => Err(DocumentError::MissingArchiveEntry(name.to_owned())),
        },
        DocumentSource::Zip(archive) => match read_zip_entry(archive, name) {
            Some(Some(v)) => Ok(EntryBytes::Owned(v)),
            Some(None) => Err(DocumentError::MissingArchiveEntry(name.to_owned())),
            None => Err(DocumentError::Zip),
        },
    }
}

/// Reads the pages that `refs` names.
fn read_pages(src: &DocumentSource, refs: &[PageRef], ctx: &DocumentContext) -> (r: Result<Vec<Page>, DocumentError>)
    ensures
        match spec_pages(src.model(), views(refs@), ctx.file_registry@, refs@.len() as nat) {
            Ok(ps) => r matches Ok(v) && views(v@) == ps,
            Err(k) => r matches Err(e) && e.kind() == k,
        },
{
    let mut pages: Vec<Page> = Vec::new();
    let mut i: usize = 0;
    assert(views(pages@) =~= Seq::<PageModel>::empty());
    while i < refs.len()
        invariant
            i <= refs@.len(),
            pages@.len() == i,
            spec_pages(src.model(), views(refs@), ctx.file_registry@, i as nat) == Ok::<Seq<PageModel>, DocumentErrorKind>(views(pages@)),
        decreases refs@.len() - i,
    {
        let ghost prev = views(pages@);
        let name: String = refs[i].uuid.as_str().to_owned().concat(".page");
        assert(views(refs@)[i as int] == refs@[i as int]@);
        let entry: EntryBytes = match fetch(src, name.as_str()) {
            Ok(b) => b,
            Err(e) => {
                proof { lemma_pages_fail(src.model(), views(refs@), ctx.file_registry@, (i + 1) as nat, refs@.len() as nat); }
                return Err(e);
            },
        };
        let mut reader: ByteStream = ByteStream::new(entry.as_slice());
        let page: Page = match Page::try_parse_with_ctx(&mut reader, ctx) {
            Ok(p) => p,
            Err(e) => {
                proof { lemma_pages_fail(src.model(), views(refs@), ctx.file_registry@, (i + 1) as nat, refs@.len() as nat); }
                return Err(DocumentError::Page(e));
            },
        };
        if !bytes_eq(refs[i].hash.as_slice(), page.hash().as_slice()) {
            proof { lemma_pages_fail(src.model(), views(refs@), ctx.file_registry@, (i + 1) as nat, refs@.len() as nat); }
            return Err(DocumentError::PageHashMismatch(name));
        }
        pages.push(page);
        proof { assert(views(pages@) =~= prev.push(pages@[i as int]@)); }
        i = i + 1;
    }
    Ok(pages)
}

/// Once reading the pages fails, reading more fails the same way.
proof fn lemma_pages_fail(src: SourceModel, refs: Seq<PageRefModel>, files: Map<u32, BoundFileModel>, m: nat, n: nat)
    requires
        spec_pages(src, refs, files, m) is Err,
        m <= n,
    ensures
        spec_pages(src, refs, files, n) == spec_pages(src, refs, files, m),
    decreases n - m,
{
    if m < n {
        lemma_pages_fail(src, refs, files, m, (n - 1) as nat);
    }
}

/// Whether the `f32` with bit pattern `bits` lies within one of `h` as the check
/// `|f64::from(f32::from_bits(bits)) - f64::from(h)| < 1.0` finds it: the difference, taken exactly
/// and then rounded to an `f64`, is below 1. It rounds to 1 exactly when it is at least
/// `1 - 2^-54`, so the exact difference must be below that; an infinity or NaN is never within.
/// Values are scaled by `2^150`, which makes every finite `f32` an integer.
pub open spec fn f32_within_one(bits: u32, h: u32) -> bool {
    let e: int = ((bits / 0x80_0000) % 0x100) as int;
    let m: int = (bits % 0x80_0000) as int;
    let negative: bool = bits >= 0x8000_0000;
    if e == 255 {
        false
    } else {
        let mant: int = if e == 0 { m } else { m + 0x80_0000 };
        let shift: nat = if e == 0 { 1 } else { e as nat };
        let v: int = mant * vstd::arithmetic::power2::pow2(shift) as int;
        let hs: int = h * vstd::arithmetic::power2::pow2(150) as int;
        let bound: int = vstd::arithmetic::power2::pow2(150) as int - vstd::arithmetic::power2::pow2(96) as int;
        if negative {
            v + hs < bound
        } else {
            v - hs < bound && hs - v < bound
        }
    }
}

impl Document {
    /// Reads a document from the bytes of its zip archive (see `spec_document_from_zip`).
    pub fn from_zip_bytes(archive: &[u8]) -> (r: Result<Document, DocumentError>)
        ensures
            match spec_document_from_zip(archive@) {
                Ok(m) => r matches Ok(d) && d@ == m,
                Err(k) => r matches Err(e) && e.kind() == k,
            },
    {
        Document::read_from(&DocumentSource::Zip(archive))
    }

    /// Reads a document from its files (see `spec_document`).
    pub fn from_files(files: &DocumentFiles) -> (r: Result<Document, DocumentError>)
        ensures
            match spec_document(files@) {
                Ok(m) => r matches Ok(d) && d@ == m,
                Err(k) => r matches Err(e) && e.kind() == k,
            },
    {
        Document::read_from(&DocumentSource::Files(files))
    }

    /// Reads a document whose files come from `src` (see `spec_document_in`).
    #[verifier::rlimit(40)]
    pub fn read_from(src: &DocumentSource) -> (r: Result<Document, DocumentError>)
        ensures
            match spec_document_in(src.model()) {
                Ok(m) => r matches Ok(d) && d@ == m,
                Err(k) => r matches Err(e) && e.kind() == k,
            },
    {
        let mb: EntryBytes = fetch(src, "media/mediaInfo.dat")?;
        let file_registry: FileRegistry = match FileRegistry::try_parse(&mut ByteStream::new(mb.as_slice())) {
            Ok(v) => v,
            Err(e) => return Err(DocumentError::FileRegistry(e)),
        };
        let nb: EntryBytes = fetch(src, "note.note")?;
        let note: NoteDoc = match NoteDoc::try_parse_with_ctx(&mut ByteStream::new(nb.as_slice()), &file_registry) {
            Ok(v) => v,
            Err(e) => return Err(DocumentError::NoteDoc(e)),
        };
        let lb: EntryBytes = fetch(src, "pageIdInfo.dat")?;
        let page_list: PageList = match PageList::try_parse(&mut ByteStream::new(lb.as_slice())) {
            Ok(v) => v,
            Err(e) => return Err(DocumentError::PageList(e)),
        };
        if !bytes_eq(page_list.note_hash.as_slice(), note.hash().as_slice()) {
            return Err(DocumentError::PageListHashMismatch);
        }
        let pages: Vec<Page> = {
            let ctx = DocumentContext { file_registry: &file_registry, string_registry: note.string_registry() };
            read_pages(src, page_list.pages(), &ctx)?
        };
        let eb: EntryBytes = fetch(src, "end_tag.bin")?;
        let end_tag: EndTag = match EndTag::try_parse_with_ctx(&mut ByteStream::new(eb.as_slice()), &NoteSdkType::SPen) {
            Ok(v) => v,
            Err(e) => return Err(DocumentError::EndTag(e)),
        };
        Ok(Document { note, pages, end_tag })
    }

    /// The pages, in the order of the page list.
    pub fn pages(&self) -> (r: &[Page])
        ensures
            views(r@) == self@.pages,
    {
        self.pages.as_slice()
    }

    /// The page model that the end tag records.
    pub fn page_model(&self) -> (r: EndTagPageModel)
        ensures
            r == self@.end_tag.b.page_model,
    {
        self.end_tag.page_model
    }

    /// The width and height of the document, as the note document records them. The end tag
    /// records them too: the width must be the same, and its height (an `f32`) within one of the
    /// note document's.
    pub fn width_height(&self) -> (r: (u32, u32))
        requires
            self@.end_tag.a.note_width == self@.note.width,
            f32_within_one(self@.end_tag.a.note_height.bits, self@.note.height),
        ensures
            r == (self@.note.width, self@.note.height),
    {
        (self.note.width, self.note.height)
    }

    /// The note document.
    pub fn note(&self) -> (r: &NoteDoc)
        ensures
            r@ == self@.note,
    {
        &self.note
    }

    /// The end tag.
    pub fn end_tag(&self) -> (r: &EndTag)
        ensures
            r@ == self@.end_tag,
    {
        &self.end_tag
    }

    /// The title of the document.
    pub fn title_text(&self) -> (r: &Text)
        ensures
            crate::page::object::text::text_model(r, crate::page::object::NESTING_LIMIT as nat) == self@.note.title_text,
    {
        &self.note.title_text
    }

    /// The body text of the document.
    pub fn body_text(&self) -> (r: &Text)
        ensures
            crate::page::object::text::text_model(r, crate::page::object::NESTING_LIMIT as nat) == self@.note.body_text,
    {
        &self.note.body_text
    }
}

/// The page list among a document's files, where it can be read.
pub open spec fn page_list_of(src: SourceModel) -> PageListModel {
    match lookup(src, "pageIdInfo.dat"@) {
        EntryLookup::Found(lb) => match spec_page_list(bytes_stream(lb)) {
            Some((pl, _)) => pl,
            None => arbitrary(),
        },
        _ => arbitrary(),
    }
}

/// The pages read for the first `n` references are `n` pages, each holding its reference's hash.
proof fn lemma_pages_hashes(src: SourceModel, refs: Seq<PageRefModel>, files: Map<u32, BoundFileModel>, n: nat)
    requires
        spec_pages(src, refs, files, n) is Ok,
    ensures
        spec_pages(src, refs, files, n)->Ok_0.len() == n,
        forall|i: int| 0 <= i < n ==> #[trigger] spec_pages(src, refs, files, n)->Ok_0[i].hash == refs[i].hash,
    decreases n,
{
    if n > 0 {
        lemma_pages_hashes(src, refs, files, (n - 1) as nat);
    }
}

/// A document that is read holds together, whether from files or from a zip archive: its page
/// list records the hash that the note document stores, and its pages are those of the page
/// list, in order, each holding the hash that its reference records.
pub proof fn lemma_document_hashes_agree(src: SourceModel)
    requires
        spec_document_in(src) is Ok,
    ensures
        spec_document_in(src)->Ok_0.note.hash == page_list_of(src).note_hash,
        spec_document_in(src)->Ok_0.pages.len() == page_list_of(src).pages.len(),
        forall|i: int| 0 <= i < page_list_of(src).pages.len()
            ==> #[trigger] spec_document_in(src)->Ok_0.pages[i].hash == page_list_of(src).pages[i].hash,
{
    let mb = lookup(src, "media/mediaInfo.dat"@)->Found_0;
    let files = spec_file_registry(bytes_stream(mb))->Some_0.0;
    let pl = page_list_of(src);
    lemma_pages_hashes(src, pl.pages, files, pl.pages.len());
}


/// The end tag that a read document ends with is that of a document written by Samsung Notes:
/// its window (a `u16` size, then that many bytes, or as many as there are) ends with the bytes
/// of "Document for S-Pen SDK", and it is read as an S-Pen SDK end tag.
pub proof fn lemma_documents_end_with_s_pen_ident(src: SourceModel)
    requires
        spec_document_in(src) is Ok,
    ensures
        lookup(src, "end_tag.bin"@) matches EntryLookup::Found(eb) && ({
            let id = vstd::utf8::encode_utf8("Document for S-Pen SDK"@);
            spec_u16(bytes_stream(eb)) matches Some((n, _)) && ({
                let e: int = if 2 + n <= eb.len() { 2 + n } else { eb.len() as int };
                &&& 2 + id.len() <= e
                &&& eb.subrange(e - id.len(), e) == id
            })
        }),
        spec_document_in(src)->Ok_0.end_tag.sdk_type == NoteSdkType::SPen,
{
    reveal(spec_end_tag_fields);
}

} // verus!
