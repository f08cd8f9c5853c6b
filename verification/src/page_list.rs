//! The list of pages in `pageIdInfo.dat`.
use vstd::prelude::*;

use crate::byte_stream::{
    lemma_repeat_fails, spec_repeat, spec_short_u16_string, spec_take, spec_u16, views, ByteStream,
    IoError, ReadStringError, SpecRead, StreamModel, TryParse,
};

verus! {

/// A reference to a page file: its name (without the `.page` extension) and its hash.
#[derive(Debug)]
pub struct PageRef {
    pub uuid: String,
    pub hash: [u8; 32],
}

pub struct PageRefModel {
    pub uuid: Seq<char>,
    pub hash: Seq<u8>,
}

impl View for PageRef {
    type V = PageRefModel;

    open spec fn view(&self) -> PageRefModel {
        PageRefModel { uuid: self.uuid@, hash: self.hash@ }
    }
}

impl PageRef {
    pub fn uuid(&self) -> (r: &str)
        ensures
            r@ == self.uuid@,
    {
        self.uuid.as_str()
    }
}

/// The structure in the `pageIdInfo.dat` file.
#[derive(Debug)]
pub struct PageList {
    pub pages: Vec<PageRef>,
    /// The hash of the associated `note.note` file.
    pub note_hash: [u8; 32],
}

pub struct PageListModel {
    pub pages: Seq<PageRefModel>,
    pub note_hash: Seq<u8>,
}

impl View for PageList {
    type V = PageListModel;

    open spec fn view(&self) -> PageListModel {
        PageListModel { pages: views(self.pages@), note_hash: self.note_hash@ }
    }
}

impl PageList {
    pub fn pages(&self) -> (r: &[PageRef])
        ensures
            r@ == self.pages@,
    {
        self.pages.as_slice()
    }
}

/// A page reference: a UTF-16 name with a `u16` length, then a 32-byte hash.
pub open spec fn spec_page_ref(s: StreamModel) -> SpecRead<PageRefModel> {
    match spec_short_u16_string(s) {
        Ok((uuid, s1)) => match spec_take(s1, 32) {
            Some((hash, s2)) => Some((PageRefModel { uuid, hash }, s2)),
            None => None,
        },
        Err(_) => None,
    }
}

pub open spec fn page_ref_item() -> spec_fn(StreamModel) -> SpecRead<PageRefModel> {
    |t: StreamModel| spec_page_ref(t)
}

/// The page list: the note file's hash, a `u16` count, and that many page references.
pub open spec fn spec_page_list(s: StreamModel) -> SpecRead<PageListModel> {
    match spec_take(s, 32) {
        Some((note_hash, s1)) => match spec_u16(s1) {
            Some((n, s2)) => match spec_repeat(s2, n as nat, page_ref_item()) {
                Some((pages, s3)) => Some((PageListModel { pages, note_hash }, s3)),
                None => None,
            },
            None => None,
        },
        None => None,
    }
}

/// Failure to parse a page list.
#[derive(Debug, Clone, Copy, PartialEq, Eq, Structural)]
pub enum PageListParseError {
    Io(IoError),
    Uuid(ReadStringError),
}

impl PageRef {
    fn try_parse(reader: &mut ByteStream) -> (r: Result<PageRef, PageListParseError>)
        ensures
            match spec_page_ref(old(reader)@) {
                Some((m, s2)) => r matches Ok(v) && v@ == m && final(reader)@ == s2,
                None => r is Err,
            },
    {
        let uuid: String = match reader.read_short_u16_string() {
            Ok(u) => u,
            Err(e) => return Err(PageListParseError::Uuid(e)),
        };
        let hash: [u8; 32] = match reader.read_32_bytes() {
            Ok(h) => h,
            Err(e) => return Err(PageListParseError::Io(e)),
        };
        Ok(PageRef { uuid, hash })
    }
}

impl<'a> TryParse<ByteStream<'a>> for PageList {
    type ParseError = PageListParseError;

    #[verifier::loop_isolation(false)]
    fn try_parse(reader: &mut ByteStream<'a>) -> (r: Result<PageList, PageListParseError>)
        ensures
            match spec_page_list(old(reader)@) {
                Some((m, s2)) => r matches Ok(v) && v@ == m && final(reader)@ == s2,
                None => r is Err,
            },
    {
        let note_hash: [u8; 32] = match reader.read_32_bytes() {
            Ok(h) => h,
            Err(e) => return Err(PageListParseError::Io(e)),
        };
        let n: u16 = match reader.read_u16_le() {
            Ok(n) => n,
            Err(e) => return Err(PageListParseError::Io(e)),
        };
        let ghost s0 = reader@;
        let ghost item = page_ref_item();
        let mut pages: Vec<PageRef> = Vec::with_capacity(n as usize);
        let mut i: u16 = 0;
        while i < n
            invariant
                i <= n,
                item == page_ref_item(),
                spec_repeat(s0, i as nat, item) == Some((views(pages@), reader@)),
            decreases n - i,
        {
            let page: PageRef = match PageRef::try_parse(reader) {
                Ok(p) => p,
                Err(e) => {
                    proof { lemma_repeat_fails(s0, (i + 1) as nat, n as nat, item); }
                    return Err(e);
                },
            };
            proof { assert(views(pages@.push(page)) =~= views(pages@).push(page@)); }
            pages.push(page);
            i = i + 1;
        }
        Ok(PageList { pages, note_hash })
    }
}

} // verus!
