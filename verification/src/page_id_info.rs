//! The page list in the form that older documents are read in: page ids and hashes.
use vstd::prelude::*;

use crate::byte_stream::{ByteStream, TryParse};
use crate::page_list::{spec_page_list, PageList, PageListParseError, PageRef};

verus! {

/// A page of the page list: its id (the name of its file without `.page`) and its hash.
#[derive(Debug)]
pub struct PageIdInfoPage {
    pub page_id: String,
    pub hash: [u8; 32],
}

/// The page list: the hash of the note document and the pages.
#[derive(Debug)]
pub struct PageIdInfo {
    /// The SHA-256 digest from the associated `note.note` file.
    pub note_doc_sha256: [u8; 32],
    pub pages: Vec<PageIdInfoPage>,
}

impl PageIdInfo {
    /// Reads the page list (see `spec_page_list`).
    pub fn try_parse(stream: &mut ByteStream) -> (r: Result<PageIdInfo, PageListParseError>)
        ensures
            match spec_page_list(old(stream)@) {
                Some((m, s2)) => r matches Ok(v) && v.note_doc_sha256@ == m.note_hash
                    && v.pages@.len() == m.pages.len()
                    && (forall|i: int| 0 <= i < v.pages@.len()
                        ==> #[trigger] v.pages@[i].page_id@ == m.pages[i].uuid && v.pages@[i].hash@ == m.pages[i].hash)
                    && final(stream)@ == s2,
                None => r is Err,
            },
    {
        let list: PageList = PageList::try_parse(stream)?;
        let note_doc_sha256: [u8; 32] = list.note_hash;
        let mut pages: Vec<PageIdInfoPage> = Vec::new();
        let mut rest: Vec<PageRef> = list.pages;
        let ghost all = crate::byte_stream::views(rest@);
        let n: usize = rest.len();
        let mut i: usize = 0;
        assert(crate::byte_stream::views(rest@) =~= all.subrange(0, n as int));
        while i < n
            invariant
                n == all.len(),
                i <= n,
                rest@.len() == n - i,
                pages@.len() == i,
                crate::byte_stream::views(rest@) == all.subrange(i as int, n as int),
                forall|j: int| 0 <= j < i ==> #[trigger] pages@[j].page_id@ == all[j].uuid && pages@[j].hash@ == all[j].hash,
            decreases n - i,
        {
            let ghost before = rest@;
            let p: PageRef = rest.remove(0);
            assert(p@ == all[i as int]) by {
                assert(crate::byte_stream::views(before)[0] == before[0]@);
            }
            assert(crate::byte_stream::views(rest@) =~= all.subrange(i + 1, n as int)) by {
                assert forall|k: int| 0 <= k < rest@.len() implies crate::byte_stream::views(rest@)[k] == all.subrange(i + 1, n as int)[k] by {
                    assert(rest@[k] == before[k + 1]);
                    assert(crate::byte_stream::views(before)[k + 1] == before[k + 1]@);
                }
            }
            pages.push(PageIdInfoPage { page_id: p.uuid, hash: p.hash });
            i = i + 1;
        }
        assert(all == list@.pages);
        assert(all.len() == n);
        assert(pages@.len() == all.len());
        Ok(PageIdInfo { note_doc_sha256, pages })
    }
}

} // verus!
