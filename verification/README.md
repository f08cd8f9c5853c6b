# sdocx

A verified reader for Samsung Notes documents (the SDOCX format).

A document is a set of binary files, normally packed in a zip archive: a registry of attached
media (`media/mediaInfo.dat`), the note document (`note.note`), the page list (`pageIdInfo.dat`),
one file per page (`<uuid>.page`) and an end tag (`end_tag.bin`). The library reads each of them
from its bytes and checks them against each other; every reader is proved against a mathematical
model of the format (a spec function from the bytes to the value read), and the checks of the
SHA-256 hashes that tie the files together are stated as properties of the whole document.

Layout:

- `src/byte_stream.rs`: the little-endian reader over a byte buffer, with windows and seeks.
- `src/bits.rs`: bitfields that report flags that were never looked at.
- `src/media_info.rs`, `src/note_doc.rs`, `src/page_list.rs`, `src/page_id_info.rs`,
  `src/end_tag.rs`: the document-level files.
- `src/page.rs`, `src/page/`: pages, layers and the objects on them (strokes, shapes, text boxes,
  images, lines, voice memos, web links, paintings, tables whose cells hold text boxes).
- `src/doc.rs`: a whole document, read from its files or from the bytes of its zip archive
  (each entry unpacked by the `zip` crate when it is needed).
- `src/digest.rs`: SHA-256 (computed by the `sha2` crate) and the decimal text that object hashes
  are taken of.
- `app/`: a command-line tool that reads a `.sdocx` file or an extracted directory from disk and
  prints a summary.
