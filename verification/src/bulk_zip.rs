//! The archive of a bulk download: the selected files of a share, in their
//! order and under their safe, unique entry names, written into one ZIP
//! archive in memory.

use vstd::prelude::*;
use std::io::Cursor;
use std::io::Write;
use zip::write::FileOptions;
use zip::CompressionMethod;
use zip::ZipWriter;
use crate::api_error::{AppError, AppErrorView};
use crate::download::{FileShare, bulk_content_disposition, bulk_disposition, entry_names_ok, ints, prefix_names, zip_entry_names};
use crate::text::views;
use crate::zip_names::lemma_entry_name_is_fresh_below_limit;

verus! {

/// A ZIP archive being written into memory: a `zip::ZipWriter` over an
/// in-memory buffer. Verus refuses a declaration of the writer type itself
/// (its bounds name `std::io` traits), so the writer is held here, out of
/// Verus's sight, and read only through `zip_entries`.
#[verifier::external_body]
pub struct ZipBuffer {
    writer: ZipWriter<Cursor<Vec<u8>>>,
}

/// One entry of an archive being written: its name, its Unix mode, whether
/// it is deflated (else stored as it is) and the chunks of data written into
/// it, in order.
pub type ZipEntry = (Seq<char>, u32, bool, Seq<Seq<u8>>);

/// The entries that a writer has started, in order, each with what was
/// written into it.
pub uninterp spec fn zip_entries(w: ZipBuffer) -> Seq<(Seq<char>, u32, bool, Seq<Seq<u8>>)>;

/// Whether a writer is still open and, once an entry was started, writing
/// into the entry started last (as after `ZipWriter::new` and every
/// successful `start_file` or `write_all`; `finish` closes it).
pub uninterp spec fn zip_open(w: ZipBuffer) -> bool;

/// Bytes an entry may hold here: two GiB. An entry must stay below the ZIP64
/// threshold (`0xFFFFFFFF` bytes, written and compressed) unless the large
/// file option is set; deflating adds at most a few bytes per 64 KiB block,
/// so two GiB of data keeps far below it.
pub const ZIP_ENTRY_LIMIT: u64 = 0x8000_0000;

/// How many bytes the chunks hold together.
pub open spec fn chunks_len(chunks: Seq<Seq<u8>>) -> nat
    decreases chunks.len(),
{
    if chunks.len() == 0 {
        0
    } else {
        chunks_len(chunks.drop_last()) + chunks.last().len()
    }
}

/// Whether the entry started last (if any) holds less than the limit.
pub open spec fn last_entry_small(entries: Seq<ZipEntry>) -> bool {
    entries.len() == 0 || chunks_len(entries.last().3) < ZIP_ENTRY_LIMIT
}

/// The bytes of the finished archive that holds these entries, each with
/// its compression and the default timestamp (the crate is built without
/// its `time` feature), followed by the central directory.
pub uninterp spec fn zip_archive(entries: Seq<(Seq<char>, u32, bool, Seq<Seq<u8>>)>) -> Seq<u8>;

/// `ZipWriter::new` on an empty in-memory buffer: an open writer with no
/// entry.
#[verifier::external_body]
fn zip_new() -> (w: ZipBuffer)
    ensures
        zip_entries(w) == Seq::<ZipEntry>::empty(),
        zip_open(w),
{
    ZipBuffer { writer: ZipWriter::new(Cursor::new(Vec::new())) }
}

/// How an entry's data is kept in the archive.
#[derive(Clone, Copy, PartialEq, Eq, Structural)]
pub enum Compression {
    Deflated,
    Stored,
}

/// `ZipWriter::start_file` with the given Unix mode, deflated or stored
/// (no compression level). It first finishes the entry started last, which
/// fails only when that entry passed the ZIP64 threshold, and writes into an
/// in-memory buffer, which does not fail; so on an open writer whose last
/// entry is below the limit it succeeds. When it succeeds, the writer is
/// open and holds one more entry, with that name, mode and compression and
/// nothing written into it yet.
#[verifier::external_body]
fn zip_start_file(w: &mut ZipBuffer, name: &str, mode: u32, compression: Compression) -> (ok: bool)
    ensures
        zip_open(*old(w)) && last_entry_small(zip_entries(*old(w))) ==> ok,
        ok ==> zip_open(*final(w)),
        ok ==> zip_entries(*final(w)) == zip_entries(*old(w)).push(
            (name@, mode, compression == Compression::Deflated, Seq::<Seq<u8>>::empty())),
{
    let method = match compression {
        Compression::Deflated => CompressionMethod::Deflated,
        Compression::Stored => CompressionMethod::Stored,
    };
    let options = FileOptions::default().compression_method(method).unix_permissions(mode);
    w.writer.start_file(name, options).is_ok()
}

/// `Write::write_all` on the writer. Writing with no entry started fails,
/// and so does an entry passing the ZIP64 threshold; into an open writer's
/// entry that stays below the limit it succeeds. When it succeeds, the data
/// went into the entry started last and the writer is still open.
#[verifier::external_body]
fn zip_write_all(w: &mut ZipBuffer, data: &[u8]) -> (ok: bool)
    ensures
        zip_open(*old(w)) && zip_entries(*old(w)).len() > 0
            && chunks_len(zip_entries(*old(w)).last().3) + data@.len() < ZIP_ENTRY_LIMIT ==> ok,
        ok ==> zip_open(*final(w)),
        ok && zip_entries(*old(w)).len() > 0 ==> zip_entries(*final(w)) == zip_entries(*old(w)).update(
            zip_entries(*old(w)).len() - 1,
            (
                zip_entries(*old(w)).last().0,
                zip_entries(*old(w)).last().1,
                zip_entries(*old(w)).last().2,
                zip_entries(*old(w)).last().3.push(data@),
            ),
        ),
{
    w.writer.write_all(data).is_ok()
}

/// `ZipWriter::finish`, then the buffer's bytes. It finishes the entry
/// started last and writes the central directory into the buffer, so on an
/// open writer whose last entry is below the limit it succeeds. When it
/// succeeds, the bytes are the archive of the entries written.
#[verifier::external_body]
fn zip_finish(w: &mut ZipBuffer) -> (r: Option<Vec<u8>>)
    ensures
        zip_open(*old(w)) && last_entry_small(zip_entries(*old(w))) ==> r is Some,
        r matches Some(bytes) ==> bytes@ == zip_archive(zip_entries(*old(w))),
{
    match w.writer.finish() {
        Ok(buffer) => Some(buffer.into_inner()),
        Err(_) => None,
    }
}

/// Unix mode of every file in a bulk download archive.
pub const BULK_ENTRY_MODE: u32 = 0o755;

/// The entries of a download archive: for each selected file, its entry
/// name, the mode, the compression, and its content written at once.
pub open spec fn archive_entries(names: Seq<String>, contents: Seq<Vec<u8>>, deflate: bool) -> Seq<ZipEntry> {
    Seq::new(names.len(), |k: int| (names[k]@, BULK_ENTRY_MODE, deflate, seq![contents[k]@]))
}

/// Whether every content is below the limit of an entry.
pub open spec fn contents_small(contents: Seq<Vec<u8>>) -> bool {
    forall|k: int| 0 <= k < contents.len() ==> (#[trigger] contents[k])@.len() < ZIP_ENTRY_LIMIT
}

/// The internal errors of building a bulk download archive.
pub open spec fn zip_build_error(e: AppErrorView) -> bool {
    ||| e == AppErrorView::Internal("Failed to create ZIP file"@)
    ||| e == AppErrorView::Internal("Failed to write ZIP file"@)
    ||| e == AppErrorView::Internal("Failed to finalize ZIP file"@)
}

/// Each entry of a download archive holds its content written at once, so
/// the entry written last is below the limit when every content is.
proof fn lemma_archive_prefix_small(names: Seq<String>, contents: Seq<Vec<u8>>, deflate: bool, k: int)
    requires
        names.len() == contents.len(),
        contents_small(contents),
        0 <= k <= names.len(),
    ensures
        last_entry_small(archive_entries(names, contents, deflate).take(k)),
{
    if k > 0 {
        let x = contents[k - 1]@;
        assert(seq![x].drop_last() =~= Seq::<Seq<u8>>::empty());
        assert(chunks_len(seq![x]) == x.len()) by {
            reveal_with_fuel(chunks_len, 2);
        }
        assert(archive_entries(names, contents, deflate).take(k).last().3 == seq![x]);
    }
}

/// Builds a download archive of the selected files: `selected` are the
/// chosen files' indices into `files` and `contents[k]` is the stored
/// content of the file `selected[k]`. The archive holds one entry per
/// selected file, in order, named as `zip_entry_names` names them, deflated
/// or stored as asked. It succeeds whenever every content is below
/// `ZIP_ENTRY_LIMIT`; otherwise the ZIP writer may refuse an entry.
fn build_zip(files: &Vec<FileShare>, selected: &Vec<usize>, contents: &Vec<Vec<u8>>, compression: Compression) -> (r: Result<Vec<u8>, AppError>)
    requires
        contents@.len() == selected@.len(),
        forall|k: int| 0 <= k < selected@.len() ==> #[trigger] selected@[k] < files@.len(),
    ensures
        r matches Ok(bytes) ==> exists|names: Seq<String>|
            entry_names_ok(files@, ints(selected@), names)
                && bytes@ == zip_archive(archive_entries(names, contents@, compression == Compression::Deflated)),
        r matches Err(e) ==> zip_build_error(e@),
        contents_small(contents@) ==> r is Ok,
{
    let ghost deflate = compression == Compression::Deflated;
    let names = zip_entry_names(files, selected);
    let mut zip = zip_new();
    let mut k: usize = 0;
    while k < names.len()
        invariant
            0 <= k <= names@.len(),
            names@.len() == contents@.len(),
            deflate == (compression == Compression::Deflated),
            contents_small(contents@) ==> zip_open(zip),
            zip_entries(zip) == archive_entries(names@, contents@, deflate).take(k as int),
        decreases names.len() - k,
    {
        proof {
            if contents_small(contents@) {
                lemma_archive_prefix_small(names@, contents@, deflate, k as int);
                assert(contents@[k as int]@.len() < ZIP_ENTRY_LIMIT);
                assert(chunks_len(Seq::<Seq<u8>>::empty()) == 0);
            }
        }
        if !zip_start_file(&mut zip, names[k].as_str(), BULK_ENTRY_MODE, compression) {
            return Err(AppError::Internal("Failed to create ZIP file".to_string()));
        }
        if !zip_write_all(&mut zip, contents[k].as_slice()) {
            return Err(AppError::Internal("Failed to write ZIP file".to_string()));
        }
        proof {
            assert(zip_entries(zip) =~= archive_entries(names@, contents@, deflate).take(k + 1));
        }
        k = k + 1;
    }
    proof {
        if contents_small(contents@) {
            lemma_archive_prefix_small(names@, contents@, deflate, k as int);
        }
    }
    match zip_finish(&mut zip) {
        Some(bytes) => {
            proof {
                assert(archive_entries(names@, contents@, deflate).take(names@.len() as int) =~= archive_entries(names@, contents@, deflate));
            }
            Ok(bytes)
        },
        None => Err(AppError::Internal("Failed to finalize ZIP file".to_string())),
    }
}

/// Builds the archive of a bulk download (`POST /download/multiple`): the
/// selected files, in order, under their `zip_entry_names` names, deflated;
/// it succeeds whenever every content is below `ZIP_ENTRY_LIMIT` (the bulk
/// limits keep the whole selection under 150 MiB).
pub fn build_bulk_zip(files: &Vec<FileShare>, selected: &Vec<usize>, contents: &Vec<Vec<u8>>) -> (r: Result<Vec<u8>, AppError>)
    requires
        contents@.len() == selected@.len(),
        forall|k: int| 0 <= k < selected@.len() ==> #[trigger] selected@[k] < files@.len(),
    ensures
        r matches Ok(bytes) ==> exists|names: Seq<String>|
            entry_names_ok(files@, ints(selected@), names) && bytes@ == zip_archive(archive_entries(names, contents@, true)),
        r matches Err(e) ==> zip_build_error(e@),
        contents_small(contents@) ==> r is Ok,
{
    build_zip(files, selected, contents, Compression::Deflated)
}

/// Builds the archive of a whole `/v1` share: the selected files, in
/// order, under their `zip_entry_names` names, stored without compression;
/// it succeeds whenever every content is below `ZIP_ENTRY_LIMIT`.
pub fn build_share_zip(files: &Vec<FileShare>, selected: &Vec<usize>, contents: &Vec<Vec<u8>>) -> (r: Result<Vec<u8>, AppError>)
    requires
        contents@.len() == selected@.len(),
        forall|k: int| 0 <= k < selected@.len() ==> #[trigger] selected@[k] < files@.len(),
    ensures
        r matches Ok(bytes) ==> exists|names: Seq<String>|
            entry_names_ok(files@, ints(selected@), names) && bytes@ == zip_archive(archive_entries(names, contents@, false)),
        r matches Err(e) ==> zip_build_error(e@),
        contents_small(contents@) ==> r is Ok,
{
    build_zip(files, selected, contents, Compression::Stored)
}

/// Law: the entries of an archive of at most 10001 files have pairwise
/// different names.
pub proof fn lemma_entry_names_distinct(files: Seq<FileShare>, sel: Seq<int>, names: Seq<String>)
    requires
        entry_names_ok(files, sel, names),
        names.len() <= 10001,
    ensures
        forall|a: int, b: int| 0 <= a < b < names.len() ==> (#[trigger] names[a])@ != (#[trigger] names[b])@,
{
    assert forall|a: int, b: int| 0 <= a < b < names.len() implies (#[trigger] names[a])@ != (#[trigger] names[b])@ by {
        let before = views(names).take(b);
        vstd::seq_lib::seq_to_set_is_finite(before);
        before.lemma_cardinality_of_set();
        assert(prefix_names(names, b) == before.to_set());
        lemma_entry_name_is_fresh_below_limit(files[sel[b]].file_name@, files[sel[b]].id@, prefix_names(names, b));
        assert(before[a] == names[a]@);
        assert(before.to_set().contains(names[a]@));
    }
}

/// The answer of a ZIP download: its type, its file name and the archive.
#[derive(Debug)]
pub struct ZipDownload {
    pub content_type: String,
    pub content_disposition: String,
    pub body: Vec<u8>,
}

/// The answer of a ZIP download of share `code`: `application/zip`, named
/// `share-{code}.zip`, with the archive as its body.
pub fn zip_download(code: &str, body: Vec<u8>) -> (r: ZipDownload)
    ensures
        r.content_type@ == "application/zip"@,
        r.content_disposition@ == bulk_disposition(code@),
        r.body@ == body@,
{
    ZipDownload {
        content_type: "application/zip".to_string(),
        content_disposition: bulk_content_disposition(code),
        body,
    }
}

} // verus!
