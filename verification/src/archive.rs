//! In-memory compressed archive holding the two named log streams.

use vstd::prelude::*;
use std::io::Cursor;
use std::io::Write;
use zip::write::SimpleFileOptions;
use zip::CompressionMethod;
use zip::ZipWriter;
use crate::lines::{concat_lines, joined_lines, lemma_lines_round_trip, split_lines, string_views};

verus! {

/// Name of the archive entry holding the runtime log stream.
pub open spec fn runtime_entry_name() -> Seq<char> {
    "runtime.log"@
}

/// Name of the archive entry holding the XHR log stream.
pub open spec fn xhr_entry_name() -> Seq<char> {
    "xhr.log"@
}

/// Local serialization failure while building the archive: the offending
/// entry name and the underlying cause. Always fatal to the pipeline.
#[derive(Debug)]
pub struct ArchiveBuildError {
    pub entry: String,
    pub cause: String,
}

impl ArchiveBuildError {
    /// Records a failure while writing `entry`.
    pub fn new(entry: &str, cause: String) -> (r: ArchiveBuildError)
        ensures
            r.entry@ == entry@,
            r.cause@ == cause@,
    {
        ArchiveBuildError { entry: entry.to_owned(), cause }
    }
}

/// The text stored under `name` in the archive bytes `archive`, or `None`
/// when the bytes do not parse as an archive, the entry is absent, or its
/// content is not text. A pure function of the bytes and the name.
pub uninterp spec fn zip_entry_text(archive: Seq<u8>, name: Seq<char>) -> Option<Seq<char>>;

/// Texts comfortably inside the writer's 32-bit size limits: an entry's
/// UTF-8 size is at most four bytes per character, and the margin below the
/// 4 GiB boundary absorbs the worst-case deflate expansion and all headers.
/// Within this bound the in-memory build cannot fail.
pub open spec fn fits_zip_limits(runtime_text: Seq<char>, xhr_text: Seq<char>) -> bool {
    4 * runtime_text.len() + 4 * xhr_text.len() < 0xF000_0000
}

/// Relies on zip's `ZipWriter`: `start_file` with deflate options, the
/// `Write` impl, and `finish` produce an in-memory archive with exactly the
/// two named entries, and reading a written entry back yields the text
/// written here, so `zip_entry_text` maps the result to the inputs. Writing
/// to an in-memory buffer, the only error paths are the writer's 32-bit
/// entry-size limits and the 16-bit name-length field of the local header;
/// the name bound (at most four UTF-8 bytes per character) keeps the names
/// inside that field, so inside `fits_zip_limits` the build succeeds.
#[verifier::external_body]
fn zip_write_two(
    first_name: &str,
    first_text: &str,
    second_name: &str,
    second_text: &str,
) -> (r: Result<Vec<u8>, ArchiveBuildError>)
    requires
        first_name@ != second_name@,
        first_name@.len() <= 16000,
        second_name@.len() <= 16000,
    ensures
        r matches Ok(archive) ==> zip_entry_text(archive@, first_name@) == Some(first_text@)
            && zip_entry_text(archive@, second_name@) == Some(second_text@),
        r matches Ok(archive) ==> forall|n: Seq<char>|
            n != first_name@ && n != second_name@ ==> zip_entry_text(archive@, n) is None,
        fits_zip_limits(first_text@, second_text@) ==> r is Ok,
{
    let fail = |entry: &str, cause: String| ArchiveBuildError::new(entry, cause);
    let opts = SimpleFileOptions::default().compression_method(CompressionMethod::Deflated);
    let mut zw = ZipWriter::new(Cursor::new(Vec::new()));
    zw.start_file(first_name, opts).map_err(|e| fail(first_name, e.to_string()))?;
    zw.write_all(first_text.as_bytes()).map_err(|e| fail(first_name, e.to_string()))?;
    zw.start_file(second_name, opts).map_err(|e| fail(second_name, e.to_string()))?;
    zw.write_all(second_text.as_bytes()).map_err(|e| fail(second_name, e.to_string()))?;
    Ok(zw.finish().map_err(|e| fail("archive", e.to_string()))?.into_inner())
}

/// Relies on zip's `ZipArchive::by_name` and `Read::read_to_string`: the
/// text of the named entry of an in-memory archive, a function of the
/// archive bytes and the name alone, named `zip_entry_text`.
#[verifier::external_body]
fn zip_read_entry(archive: &Vec<u8>, name: &str) -> (r: Option<String>)
    ensures
        r matches Some(text) ==> zip_entry_text(archive@, name@) == Some(text@),
        r is None ==> zip_entry_text(archive@, name@) is None,
{
    let mut za = match zip::ZipArchive::new(std::io::Cursor::new(archive.as_slice())) {
        Ok(z) => z,
        Err(_) => return None,
    };
    let mut file = match za.by_name(name) {
        Ok(f) => f,
        Err(_) => return None,
    };
    let mut text = String::new();
    match std::io::Read::read_to_string(&mut file, &mut text) {
        Ok(_) => Some(text),
        Err(_) => None,
    }
}

/// Serializes the two log streams into one compressed archive, entirely in
/// memory: entry `runtime.log` holds the runtime lines and entry `xhr.log`
/// the XHR lines, each line written in input order, newline-terminated; the
/// container holds no entry besides those two. The build succeeds for every
/// input whose joined texts stay inside the writer's size limits.
pub fn build_archive(runtime_lines: &Vec<String>, xhr_lines: &Vec<String>) -> (r: Result<
    Vec<u8>,
    ArchiveBuildError,
>)
    ensures
        r matches Ok(archive) ==> zip_entry_text(archive@, runtime_entry_name()) == Some(
            joined_lines(string_views(runtime_lines@)),
        ) && zip_entry_text(archive@, xhr_entry_name()) == Some(
            joined_lines(string_views(xhr_lines@)),
        ),
        r matches Ok(archive) ==> forall|n: Seq<char>|
            n != runtime_entry_name() && n != xhr_entry_name() ==> zip_entry_text(
                archive@,
                n,
            ) is None,
        fits_zip_limits(
            joined_lines(string_views(runtime_lines@)),
            joined_lines(string_views(xhr_lines@)),
        ) ==> r is Ok,
{
    let runtime_text = concat_lines(runtime_lines);
    let xhr_text = concat_lines(xhr_lines);
    proof {
        reveal_strlit("runtime.log");
        reveal_strlit("xhr.log");
        assert(runtime_entry_name().len() == 11);
        assert(xhr_entry_name().len() == 7);
    }
    zip_write_two("runtime.log", runtime_text.as_str(), "xhr.log", xhr_text.as_str())
}

/// The text stored under `name` in `archive`, when the archive parses, the
/// entry exists and its content is text.
pub fn entry_text(archive: &Vec<u8>, name: &str) -> (r: Option<String>)
    ensures
        r matches Some(text) ==> zip_entry_text(archive@, name@) == Some(text@),
        r is None ==> zip_entry_text(archive@, name@) is None,
{
    zip_read_entry(archive, name)
}

/// Archive round-trip: an archive whose two entries hold the joined text of
/// line sequences without embedded newlines stores, under each name, text
/// that splits back into exactly the input lines.
pub proof fn lemma_archive_round_trip(
    runtime: Seq<Seq<char>>,
    xhr: Seq<Seq<char>>,
    archive: Seq<u8>,
)
    requires
        forall|i: int| 0 <= i < runtime.len() ==> !(#[trigger] runtime[i]).contains('\n'),
        forall|i: int| 0 <= i < xhr.len() ==> !(#[trigger] xhr[i]).contains('\n'),
        zip_entry_text(archive, runtime_entry_name()) == Some(joined_lines(runtime)),
        zip_entry_text(archive, xhr_entry_name()) == Some(joined_lines(xhr)),
    ensures
        split_lines(zip_entry_text(archive, runtime_entry_name()).unwrap()) == runtime,
        split_lines(zip_entry_text(archive, xhr_entry_name()).unwrap()) == xhr,
{
    lemma_lines_round_trip(runtime);
    lemma_lines_round_trip(xhr);
}

} // verus!
