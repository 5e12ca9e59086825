//! The archive codec: files packed into one gzip-compressed tar archive, and
//! such an archive inflated and read again. The codec works on bytes in
//! memory; the caller reads and writes the files.

use vstd::prelude::*;
use vstd::pervasive::unreached;
use vstd::string::StringExecFns;
use std::io::Read;
use crate::paths::{file_name, path_file_name};

verus! {

/// A tar archive in the making, in memory: a `tar::Builder` over a buffer.
#[verifier::external_body]
pub struct TarWriter {
    inner: tar::Builder<Vec<u8>>,
}

/// The fastest level of compression, which the codec uses.
pub const FAST_COMPRESSION: u32 = 1;

/// A file to pack: where it came from, what it holds, and the mode and the
/// time of modification to record for it.
#[derive(Debug)]
pub struct SourceFile {
    pub path: String,
    pub content: Vec<u8>,
    pub mode: u32,
    pub mtime: u64,
}

/// An entry of an archive: its path in the archive, what it holds, and
/// whether it is a regular file or a directory.
#[derive(Debug)]
pub struct ArchivedFile {
    pub path: String,
    pub content: Vec<u8>,
    pub is_file: bool,
    pub is_dir: bool,
}

/// Why packing or unpacking failed.
#[derive(Debug)]
pub enum CodecErr {
    /// A path to pack ends in no file name: the path.
    NoFileName(String),
    /// The entry's name, then the reason.
    AppendFailed(String, String),
    CompressFailed(String),
    InflateFailed(String),
    UnpackFailed(String),
}

/// The entries appended to a builder so far, in order: name, content, mode
/// and time of modification.
pub uninterp spec fn tar_entries(builder: TarWriter) -> Seq<
    (Seq<char>, Seq<u8>, u32, u64),
>;

/// The bytes of the tar archive that holds `entries`.
pub uninterp spec fn tar_image(entries: Seq<(Seq<char>, Seq<u8>, u32, u64)>) -> Seq<u8>;

/// The entries that are read from the tar archive `data`, or `None` where
/// it cannot be read: path, content, whether the entry is a regular file,
/// and whether it is a directory.
pub uninterp spec fn tar_listing(data: Seq<u8>) -> Option<Seq<(Seq<char>, Seq<u8>, bool, bool)>>;

/// Whether a builder that holds `entries` takes one more entry with this
/// name, content, mode and time of modification.
pub uninterp spec fn tar_accepts(
    entries: Seq<(Seq<char>, Seq<u8>, u32, u64)>,
    name: Seq<char>,
    content: Seq<u8>,
    mode: u32,
    mtime: u64,
) -> bool;

/// The gzip stream that `flate2` makes of `data` at `level`, or `None`
/// where it makes none.
pub uninterp spec fn gzipped(data: Seq<u8>, level: u32) -> Option<Seq<u8>>;

/// What `flate2` inflates the gzip stream `data` to, or `None` where it is
/// no such stream.
pub uninterp spec fn gunzipped(data: Seq<u8>) -> Option<Seq<u8>>;

/// The entries as the contracts speak of them.
pub open spec fn listing_view(files: Seq<ArchivedFile>) -> Seq<(Seq<char>, Seq<u8>, bool, bool)> {
    files.map_values(|f: ArchivedFile| (f.path@, f.content@, f.is_file, f.is_dir))
}

/// Calls `tar::Builder::new` on an empty buffer. Believed: the new builder
/// holds no entry.
#[verifier::external_body]
fn tar_new() -> (builder: TarWriter)
    ensures
        tar_entries(builder) == Seq::<(Seq<char>, Seq<u8>, u32, u64)>::empty(),
{
    TarWriter { inner: tar::Builder::new(Vec::new()) }
}

/// Calls `tar::Builder::append_data` with a fresh GNU header that bears the
/// content's length, the mode and the time. Believed: whether the call
/// succeeds depends on the entries already there and on the new one alone,
/// and where it succeeds, the entry stands behind those already there.
#[verifier::external_body]
fn tar_append(
    builder: &mut TarWriter,
    name: &str,
    content: &[u8],
    mode: u32,
    mtime: u64,
) -> (r: Result<(), String>)
    ensures
        r is Ok <==> tar_accepts(tar_entries(*old(builder)), name@, content@, mode, mtime),
        r is Ok ==> tar_entries(*final(builder)) == tar_entries(*old(builder)).push(
            (name@, content@, mode, mtime),
        ),
{
    let mut header = tar::Header::new_gnu();
    header.set_size(content.len() as u64);
    header.set_mode(mode);
    header.set_mtime(mtime);
    builder.inner.append_data(&mut header, name, content).map_err(|err| err.to_string())
}

/// Calls `tar::Builder::into_inner`, which ends the archive. Believed: the
/// call succeeds, since ending the archive only appends to the buffer in
/// memory, and the bytes depend on the entries alone.
#[verifier::external_body]
fn tar_finish(builder: TarWriter) -> (r: Result<Vec<u8>, String>)
    ensures
        r is Ok,
        r->Ok_0@ == tar_image(tar_entries(builder)),
{
    builder.inner.into_inner().map_err(|err| err.to_string())
}

/// Calls `tar::Archive::entries` on the bytes and reads each entry: its
/// path, its content and its type. Believed: whether the archive can be
/// read, and what is read, depend on the bytes alone.
#[verifier::external_body]
fn tar_list(data: &[u8]) -> (r: Result<Vec<ArchivedFile>, String>)
    ensures
        r is Ok <==> tar_listing(data@) is Some,
        r is Ok ==> listing_view(r->Ok_0@) == tar_listing(data@)->0,
{
    let mut archive = tar::Archive::new(data);
    let mut files = Vec::new();
    for entry in archive.entries().map_err(|err| err.to_string())? {
        let mut entry = entry.map_err(|err| err.to_string())?;
        let path = entry.path().map_err(|err| err.to_string())?.to_string_lossy().into_owned();
        let kind = entry.header().entry_type();
        let mut content = Vec::new();
        entry.read_to_end(&mut content).map_err(|err| err.to_string())?;
        files.push(ArchivedFile { path, content, is_file: kind.is_file(), is_dir: kind.is_dir() });
    }
    Ok(files)
}

/// Reads a `flate2::bufread::GzEncoder` over the bytes to its end.
/// Believed: whether that succeeds, and the stream that is read, depend on
/// the bytes and the level alone. Left out by `requires`: a level above 9,
/// of which `flate2` says nothing.
#[verifier::external_body]
fn gzip(data: &[u8], level: u32) -> (r: Result<Vec<u8>, String>)
    requires
        level <= 9,
    ensures
        r is Ok <==> gzipped(data@, level) is Some,
        r is Ok ==> r->Ok_0@ == gzipped(data@, level)->0,
{
    let mut out = Vec::new();
    let mut encoder = flate2::bufread::GzEncoder::new(data, flate2::Compression::new(level));
    encoder.read_to_end(&mut out).map(|_| out).map_err(|err| err.to_string())
}

/// Reads a `flate2::bufread::GzDecoder` over the bytes to its end.
/// Believed: whether that succeeds, and what is read, depend on the bytes
/// alone.
#[verifier::external_body]
fn gunzip(data: &[u8]) -> (r: Result<Vec<u8>, String>)
    ensures
        r is Ok <==> gunzipped(data@) is Some,
        r is Ok ==> r->Ok_0@ == gunzipped(data@)->0,
{
    let mut out = Vec::new();
    let mut decoder = flate2::bufread::GzDecoder::new(data);
    decoder.read_to_end(&mut out).map(|_| out).map_err(|err| err.to_string())
}

/// The entry that stands for a source: under the last component of its
/// path, whatever directory it came from.
pub open spec fn entry_of(source: SourceFile) -> (Seq<char>, Seq<u8>, u32, u64) {
    (path_file_name(source.path@)->0, source.content@, source.mode, source.mtime)
}

/// The entries that stand for the sources, in order.
pub open spec fn entries_of(sources: Seq<SourceFile>) -> Seq<(Seq<char>, Seq<u8>, u32, u64)> {
    sources.map_values(|s: SourceFile| entry_of(s))
}

/// Whether the source `sources[i]` can be packed behind those before it: its
/// path ends in a file name, and the archive takes its entry.
pub open spec fn packs(sources: Seq<SourceFile>, i: int) -> bool {
    &&& path_file_name(sources[i].path@) is Some
    &&& tar_accepts(
        entries_of(sources.take(i)),
        entry_of(sources[i]).0,
        sources[i].content@,
        sources[i].mode,
        sources[i].mtime,
    )
}

/// Whether the first `n` sources can be packed, one behind the other.
pub open spec fn packable(sources: Seq<SourceFile>, n: int) -> bool {
    forall|i: int| 0 <= i < n ==> #[trigger] packs(sources, i)
}

/// The gzip stream of the tar archive that holds the sources, where there
/// is one.
pub open spec fn packed(sources: Seq<SourceFile>) -> Option<Seq<u8>> {
    gzipped(tar_image(entries_of(sources)), FAST_COMPRESSION)
}

/// The failure in words.
pub open spec fn codec_err_text(err: CodecErr) -> Seq<char> {
    match err {
        CodecErr::NoFileName(path) => "provided file name "@ + path@ + " can't be archived"@,
        CodecErr::AppendFailed(name, reason) => "could not put "@ + name@ + " into archive: "@
            + reason@,
        CodecErr::CompressFailed(reason) => "could not create compressed archive: "@ + reason@,
        CodecErr::InflateFailed(reason) => "could not inflate archive: "@ + reason@,
        CodecErr::UnpackFailed(reason) => "could not unpack tar archive: "@ + reason@,
    }
}

impl CodecErr {
    /// The failure in words.
    pub fn message(&self) -> (out: String)
        ensures
            out@ == codec_err_text(*self),
    {
        match self {
            CodecErr::NoFileName(path) => {
                let mut out = String::from_str("provided file name ");
                out.append(path.as_str());
                out.append(" can't be archived");
                out
            },
            CodecErr::AppendFailed(name, reason) => {
                let mut out = String::from_str("could not put ");
                out.append(name.as_str());
                out.append(" into archive: ");
                out.append(reason.as_str());
                out
            },
            CodecErr::CompressFailed(reason) => String::from_str(
                "could not create compressed archive: ",
            ).concat(reason.as_str()),
            CodecErr::InflateFailed(reason) => String::from_str(
                "could not inflate archive: ",
            ).concat(reason.as_str()),
            CodecErr::UnpackFailed(reason) => String::from_str(
                "could not unpack tar archive: ",
            ).concat(reason.as_str()),
        }
    }
}

/// Packs the sources into one gzip-compressed tar archive. The archive is
/// flat: each source is stored under its file name alone.
///
/// The sources are taken in order. The first that cannot be packed ends
/// the work with its failure: `NoFileName` where its path ends in no file
/// name, `AppendFailed` where the archive does not take its entry. Where
/// all are packed and the stream is made, the result is that stream.
pub fn compress_files(sources: &Vec<SourceFile>) -> (r: Result<Vec<u8>, CodecErr>)
    ensures
        r is Ok <==> packable(sources@, sources@.len() as int) && packed(sources@) is Some,
        match r {
            Ok(bytes) => packed(sources@) == Some(bytes@),
            Err(CodecErr::NoFileName(path)) => exists|i: int|
                0 <= i < sources@.len() && packable(sources@, i) && path_file_name(
                    #[trigger] sources@[i].path@,
                ) is None && path@ == sources@[i].path@,
            Err(CodecErr::AppendFailed(name, _)) => exists|i: int|
                0 <= i < sources@.len() && packable(sources@, i) && path_file_name(
                    #[trigger] sources@[i].path@,
                ) == Some(name@) && !packs(sources@, i),
            Err(CodecErr::CompressFailed(_)) => packable(sources@, sources@.len() as int)
                && packed(sources@) is None,
            Err(_) => false,
        },
{
    let mut builder = tar_new();
    let mut i: usize = 0;
    while i < sources.len()
        invariant
            i <= sources@.len(),
            packable(sources@, i as int),
            tar_entries(builder) == entries_of(sources@.take(i as int)),
        decreases sources@.len() - i,
    {
        let source = &sources[i];
        let name = match file_name(source.path.as_str()) {
            Some(name) => name,
            None => {
                assert(!packs(sources@, i as int));
                return Err(CodecErr::NoFileName(source.path.clone()));
            },
        };
        match tar_append(
            &mut builder,
            name.as_str(),
            source.content.as_slice(),
            source.mode,
            source.mtime,
        ) {
            Ok(()) => {},
            Err(reason) => {
                assert(!packs(sources@, i as int));
                return Err(CodecErr::AppendFailed(name, reason));
            },
        }
        proof {
            assert(packs(sources@, i as int));
            assert(sources@.take(i + 1).drop_last() =~= sources@.take(i as int));
            assert(entries_of(sources@.take(i + 1)) =~= entries_of(sources@.take(i as int)).push(
                entry_of(sources@[i as int]),
            ));
        }
        i += 1;
    }
    assert(sources@.take(sources@.len() as int) =~= sources@);
    let tar = match tar_finish(builder) {
        Ok(tar) => tar,
        Err(_) => unreached(),
    };
    match gzip(tar.as_slice(), FAST_COMPRESSION) {
        Ok(bytes) => Ok(bytes),
        Err(reason) => Err(CodecErr::CompressFailed(reason)),
    }
}

/// Inflates a gzip stream to the bytes it was made of. Bytes that are no
/// gzip stream are refused.
pub fn inflate_archive(archive: &[u8]) -> (r: Result<Vec<u8>, CodecErr>)
    ensures
        match gunzipped(archive@) {
            None => r matches Err(CodecErr::InflateFailed(_)),
            Some(tar) => r is Ok && r->Ok_0@ == tar,
        },
{
    match gunzip(archive) {
        Ok(tar) => Ok(tar),
        Err(reason) => Err(CodecErr::InflateFailed(reason)),
    }
}

/// Reads a gzip-compressed tar archive: inflates it and reads its entries,
/// in order. Bytes that are no gzip stream, or inflate to no tar archive,
/// are refused.
pub fn extract_archive(archive: &[u8]) -> (r: Result<Vec<ArchivedFile>, CodecErr>)
    ensures
        match gunzipped(archive@) {
            None => r matches Err(CodecErr::InflateFailed(_)),
            Some(tar) => match tar_listing(tar) {
                None => r matches Err(CodecErr::UnpackFailed(_)),
                Some(listing) => r is Ok && listing_view(r->Ok_0@) == listing,
            },
        },
{
    let tar = match inflate_archive(archive) {
        Ok(tar) => tar,
        Err(err) => return Err(err),
    };
    match tar_list(tar.as_slice()) {
        Ok(files) => Ok(files),
        Err(reason) => Err(CodecErr::UnpackFailed(reason)),
    }
}

} // verus!
