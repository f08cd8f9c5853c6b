//! The file registry found in `media/mediaInfo.dat`.
use std::collections::HashMap;
use std::rc::Rc;
use vstd::prelude::*;

use crate::byte_stream::{
    string_from_utf8_lossy, utf8_lossy,
    lemma_pairs_to_map_push, lemma_rc_map_view_insert, lemma_repeat_fails, pairs_to_map,
    rc_map_view, spec_blind_window, spec_repeat, spec_short_u16_string, spec_take,
    spec_timestamp, spec_u16, spec_u32, spec_u8, spec_u8_string, ByteStream, ExactSizedStream,
    IoError, ReadStringError, ReadTimestampError, SpecRead, StreamModel, Timestamp, TryParse,
};

verus! {

broadcast use vstd::std_specs::hash::group_hash_axioms;

/// A file stored in the document's media directory.
#[derive(Debug)]
pub struct BoundFile {
    name: String,
    hash: String,
    /// Only given in newer versions.
    is_attached: Option<bool>,
}

pub struct BoundFileModel {
    pub name: Seq<char>,
    pub hash: Seq<char>,
    pub is_attached: Option<bool>,
}

impl View for BoundFile {
    type V = BoundFileModel;

    closed spec fn view(&self) -> BoundFileModel {
        BoundFileModel { name: self.name@, hash: self.hash@, is_attached: self.is_attached }
    }
}

impl BoundFile {
    pub fn name(&self) -> (r: &str)
        ensures
            r@ == self@.name,
    {
        self.name.as_str()
    }

    pub fn hash(&self) -> (r: &str)
        ensures
            r@ == self@.hash,
    {
        self.hash.as_str()
    }

    pub fn is_attached(&self) -> (r: Option<bool>)
        ensures
            r == self@.is_attached,
    {
        self.is_attached
    }
}

/// There is no file registered with this id.
#[derive(Debug, Clone, Copy, PartialEq, Eq, Structural)]
pub struct NoSuchRegisteredFileError(pub u32);

/// The files of a document, by bind id.
#[derive(Debug)]
pub struct FileRegistry {
    /// Keys are bind IDs.
    files: HashMap<u32, Rc<BoundFile>>,
}

impl View for FileRegistry {
    type V = Map<u32, BoundFileModel>;

    closed spec fn view(&self) -> Map<u32, BoundFileModel> {
        rc_map_view(self.files@)
    }
}


fn rc_clone_file(f: &Rc<BoundFile>) -> (r: Rc<BoundFile>)
    ensures
        r@ == f@,
{
    Rc::clone(f)
}

impl FileRegistry {
    /// An empty registry.
    pub fn new() -> (r: FileRegistry)
        ensures
            r@ == Map::<u32, BoundFileModel>::empty(),
    {
        let r = FileRegistry { files: HashMap::new() };
        assert(r@ =~= Map::<u32, BoundFileModel>::empty());
        r
    }

    pub fn get(&self, key: u32) -> (r: Option<Rc<BoundFile>>)
        ensures
            match r {
                Some(f) => self@.contains_key(key) && f@ == self@[key],
                None => !self@.contains_key(key),
            },
    {
        match self.files.get(&key) {
            Some(f) => Some(rc_clone_file(f)),
            None => None,
        }
    }

    pub fn try_get(&self, key: u32) -> (r: Result<Rc<BoundFile>, NoSuchRegisteredFileError>)
        ensures
            match r {
                Ok(f) => self@.contains_key(key) && f@ == self@[key],
                Err(e) => !self@.contains_key(key) && e.0 == key,
            },
    {
        match self.get(key) {
            Some(f) => Ok(f),
            None => Err(NoSuchRegisteredFileError(key)),
        }
    }
}

/// Failure to parse the file registry.
#[derive(Debug, Clone, PartialEq, Eq)]
pub enum FileRegistryParseError {
    Io(IoError),
    String(ReadStringError),
    Timestamp(ReadTimestampError),
    /// The file ends with neither "EOF" nor "EOFX"; holds its last four bytes, decoded lossily.
    BadEofStr(String),
    /// An entry of the newer format did not use all of its declared bytes.
    UnfinishedEntry,
}

/// Whether the registry's last four bytes mark the newer format (`Some(true)`: "EOFX"), the older
/// one (`Some(false)`: ending in "EOF"), or neither.
pub open spec fn spec_eof_kind(last_four: Seq<u8>) -> Option<bool> {
    if last_four == seq![0x45u8, 0x4f, 0x46, 0x58] {
        Some(true)
    } else if last_four[1] == 0x45 && last_four[2] == 0x4f && last_four[3] == 0x46 {
        Some(false)
    } else {
        None
    }
}

/// The fields of one registry entry: bind id, name, hash, reference count, modification time
/// and, in the newer format, the attached flag.
pub open spec fn spec_entry_body(s: StreamModel, newer: bool) -> SpecRead<(u32, BoundFileModel)> {
    match spec_u32(s) {
        Some((bind_id, s1)) => match spec_short_u16_string(s1) {
            Ok((name, s2)) => match spec_u8_string(s2, 64) {
                Some((Ok(hash), s3)) => match spec_u16(s3) {
                    Some((_, s4)) => match spec_timestamp(s4) {
                        Some((Ok(_), s5)) => if newer {
                            match spec_u8(s5) {
                                Some((a, s6)) => Some((
                                    (bind_id, BoundFileModel { name, hash, is_attached: Some(a != 0) }),
                                    s6,
                                )),
                                None => None,
                            }
                        } else {
                            Some(((bind_id, BoundFileModel { name, hash, is_attached: None }), s5))
                        },
                        _ => None,
                    },
                    None => None,
                },
                _ => None,
            },
            Err(_) => None,
        },
        None => None,
    }
}

/// One registry entry. In the newer format it is preceded by its size, and must use exactly
/// that many bytes.
pub open spec fn spec_entry(s: StreamModel, newer: bool) -> SpecRead<(u32, BoundFileModel)> {
    if newer {
        match spec_u32(s) {
            Some((size, s1)) => match spec_blind_window(s1, size as int) {
                Some(w) => match spec_entry_body(w, true) {
                    Some((e, w2)) => if w2.remaining() == 0 {
                        Some((e, s1.with_pos(w2.pos)))
                    } else {
                        None
                    },
                    None => None,
                },
                None => None,
            },
            None => None,
        }
    } else {
        spec_entry_body(s, false)
    }
}

pub open spec fn entry_item(newer: bool) -> spec_fn(StreamModel) -> SpecRead<(u32, BoundFileModel)> {
    |t: StreamModel| spec_entry(t, newer)
}

/// The registry file: its last four bytes give the format; the newer format starts with a
/// `u32` format version. Then a `u16` count of entries follows.
pub open spec fn spec_file_registry(s: StreamModel) -> SpecRead<Map<u32, BoundFileModel>> {
    if s.end - 4 < s.start {
        None
    } else {
        match spec_eof_kind(s.data.subrange(s.end - 4, s.end)) {
            Some(newer) => {
                let s1 = if newer { spec_u32(s) } else { Some((0u32, s)) };
                match s1 {
                    Some((_, s2)) => match spec_u16(s2) {
                        Some((n, s3)) => match spec_repeat(s3, n as nat, entry_item(newer)) {
                            Some((es, s4)) => Some((pairs_to_map(es), s4)),
                            None => None,
                        },
                        None => None,
                    },
                    None => None,
                }
            },
            None => None,
        }
    }
}

impl BoundFile {
    fn try_parse_body(reader: &mut ByteStream, newer: bool) -> (r: Result<(u32, BoundFile), FileRegistryParseError>)
        ensures
            match spec_entry_body(old(reader)@, newer) {
                Some((m, s2)) => r matches Ok((k, f)) && k == m.0 && f@ == m.1 && final(reader)@ == s2,
                None => r is Err,
            },
            final(reader)@.same_frame(old(reader)@),
    {
        let bind_id: u32 = match reader.read_u32_le() {
            Ok(v) => v,
            Err(e) => return Err(FileRegistryParseError::Io(e)),
        };
        let name: String = match reader.read_short_u16_string() {
            Ok(v) => v,
            Err(e) => return Err(FileRegistryParseError::String(e)),
        };
        let hash: String = match reader.read_u8_string(64) {
            Ok(v) => v,
            Err(e) => return Err(FileRegistryParseError::String(e)),
        };
        let _ref_count: u16 = match reader.read_u16_le() {
            Ok(v) => v,
            Err(e) => return Err(FileRegistryParseError::Io(e)),
        };
        let _modified_time: Timestamp = match reader.read_timestamp() {
            Ok(v) => v,
            Err(e) => return Err(FileRegistryParseError::Timestamp(e)),
        };
        let is_attached: Option<bool> = if newer {
            match reader.read_u8() {
                Ok(a) => Some(a != 0),
                Err(e) => return Err(FileRegistryParseError::Io(e)),
            }
        } else {
            None
        };
        Ok((bind_id, BoundFile { name, hash, is_attached }))
    }

    fn try_parse_entry(reader: &mut ByteStream, newer: bool) -> (r: Result<(u32, BoundFile), FileRegistryParseError>)
        ensures
            match spec_entry(old(reader)@, newer) {
                Some((m, s2)) => r matches Ok((k, f)) && k == m.0 && f@ == m.1 && final(reader)@ == s2,
                None => r is Err,
            },
            final(reader)@.same_frame(old(reader)@),
    {
        if newer {
            let size: u32 = match reader.read_u32_le() {
                Ok(v) => v,
                Err(e) => return Err(FileRegistryParseError::Io(e)),
            };
            let mut entry: ByteStream = match reader.blind_window(size as u64) {
                Ok(w) => w,
                Err(e) => return Err(FileRegistryParseError::Io(e)),
            };
            let r = BoundFile::try_parse_body(&mut entry, true)?;
            // The entry ends here; the newer format limits it, so it should be exhausted.
            if entry.n_remaining() != 0 {
                return Err(FileRegistryParseError::UnfinishedEntry);
            }
            proof { use_type_invariant(&*reader); use_type_invariant(&entry); }
            reader.continue_after(&entry);
            Ok(r)
        } else {
            BoundFile::try_parse_body(reader, false)
        }
    }
}

/// Reads `n` registry entries.
fn read_entries(reader: &mut ByteStream, n: u16, newer: bool) -> (r: Result<FileRegistry, FileRegistryParseError>)
    ensures
        match spec_repeat(old(reader)@, n as nat, entry_item(newer)) {
            Some((es, s2)) => r matches Ok(v) && v@ == pairs_to_map(es) && final(reader)@ == s2,
            None => r is Err,
        },
{
    let ghost s0 = reader@;
    let ghost item = entry_item(newer);
    let mut files: HashMap<u32, Rc<BoundFile>> = HashMap::new();
    let ghost mut entries: Seq<(u32, BoundFileModel)> = Seq::empty();
    proof { assert(rc_map_view(files@) =~= pairs_to_map(entries)); }
    let mut i: u16 = 0;
    while i < n
        invariant
            i <= n,
            item == entry_item(newer),
            s0 == old(reader)@,
            spec_repeat(s0, i as nat, item) == Some((entries, reader@)),
            rc_map_view(files@) == pairs_to_map(entries),
        decreases n - i,
    {
        let ghost before = reader@;
        proof { assert(item(before) == spec_entry(before, newer)); }
        let (k, f) = match BoundFile::try_parse_entry(reader, newer) {
            Ok(e) => e,
            Err(e) => {
                proof {
                    lemma_repeat_fails(s0, (i + 1) as nat, n as nat, item);
                }
                return Err(e);
            },
        };
        let ghost fm = f@;
        let rf: Rc<BoundFile> = Rc::new(f);
        proof {
            lemma_rc_map_view_insert(files@, k, rf);
            lemma_pairs_to_map_push(entries, k, fm);
            entries = entries.push((k, fm));
        }
        files.insert(k, rf);
        i = i + 1;
    }
    Ok(FileRegistry { files })
}

impl<'a> TryParse<ByteStream<'a>> for FileRegistry {
    type ParseError = FileRegistryParseError;

    /// If the media info file ends with "EOFX", then the `.note` format is > 3001, and the
    /// media info starts with that format value. For older note formats, this file ends with
    /// "EOF", and does not start with the exact note format version.
    fn try_parse(reader: &mut ByteStream<'a>) -> (r: Result<FileRegistry, FileRegistryParseError>)
        ensures
            match spec_file_registry(old(reader)@) {
                Some((m, s2)) => r matches Ok(v) && v@ == m && final(reader)@ == s2,
                None => r is Err,
            },
            ({
                let s = old(reader)@;
                s.end - 4 >= s.start && spec_eof_kind(s.data.subrange(s.end - 4, s.end)) is None
                    ==> (r matches Err(FileRegistryParseError::BadEofStr(b)) && b@ == utf8_lossy(s.data.subrange(s.end - 4, s.end)))
            }),
    {
        proof { use_type_invariant(&*reader); }
        // Read the last four bytes in the stream, then go back.
        let start: u64 = reader.stream_position();
        if let Err(e) = reader.seek_from_end(4) {
            return Err(FileRegistryParseError::Io(e));
        }
        let last_four: [u8; 4] = match reader.read_4_bytes() {
            Ok(b) => b,
            Err(e) => return Err(FileRegistryParseError::Io(e)),
        };
        if let Err(e) = reader.seek_to(start) {
            return Err(FileRegistryParseError::Io(e));
        }
        let newer: bool = if last_four[0] == 0x45 && last_four[1] == 0x4f && last_four[2] == 0x46
            && last_four[3] == 0x58 {
            true
        } else if last_four[1] == 0x45 && last_four[2] == 0x4f && last_four[3] == 0x46 {
            // The other option has only three bytes at the end, so ignore the first of the four.
            false
        } else {
            return Err(FileRegistryParseError::BadEofStr(string_from_utf8_lossy(last_four.as_slice())));
        };
        proof {
            assert(newer ==> last_four@ =~= seq![0x45u8, 0x4f, 0x46, 0x58]);
            assert(!newer ==> last_four@ != seq![0x45u8, 0x4f, 0x46, 0x58]);
        }
        if newer {
            let _format_version: u32 = match reader.read_u32_le() {
                Ok(v) => v,
                Err(e) => return Err(FileRegistryParseError::Io(e)),
            };
        }
        let n: u16 = match reader.read_u16_le() {
            Ok(v) => v,
            Err(e) => return Err(FileRegistryParseError::Io(e)),
        };
        read_entries(reader, n, newer)
    }
}

} // verus!
