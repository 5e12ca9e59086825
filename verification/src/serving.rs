//! Which file of the installed package answers a request for a frontend
//! path, and how it is labelled.

use vstd::prelude::*;
use vstd::string::StringExecFns;
use crate::paths::{extension, file_stem, path_extension, path_file_stem};
use crate::text::same_text;

verus! {

pub const DEFAULT_ENTRYPOINT_FILE_NAME: &'static str = "index.html";

pub const GZIP_EXT: &'static str = "gz";

pub const GZIP_ENCODING: &'static str = "gzip";

pub const ANY_ENCODING: &'static str = "*";

pub const OCTET_STREAM: &'static str = "application/octet-stream";

/// A file that may answer a request: its name in the package, its media
/// type, and the content encoding under which it is sent.
#[derive(Debug)]
pub struct ServedFileMeta {
    pub mime: String,
    pub file_name: String,
    pub encoding: Option<&'static str>,
}

/// A candidate file as the contracts speak of it.
pub struct ServedFileView {
    pub mime: Seq<char>,
    pub file_name: Seq<char>,
    pub encoding: Option<Seq<char>>,
}

impl View for ServedFileMeta {
    type V = ServedFileView;

    open spec fn view(&self) -> ServedFileView {
        ServedFileView {
            mime: self.mime@,
            file_name: self.file_name@,
            encoding: match self.encoding {
                Some(e) => Some(e@),
                None => None,
            },
        }
    }
}

/// The first media type that `mime_guess` knows for the extension of `path`.
pub uninterp spec fn guessed_mime(path: Seq<char>) -> Option<Seq<char>>;

/// Calls `mime_guess::from_path` and takes the guess's `first_raw`.
/// Believed: the result depends on the text alone.
#[verifier::external_body]
fn guess_mime(path: &str) -> (out: Option<String>)
    ensures
        out is Some <==> guessed_mime(path@) is Some,
        out is Some ==> out->0@ == guessed_mime(path@)->0,
{
    mime_guess::from_path(path).first_raw().map(|mime| mime.to_owned())
}

/// The media types that are worth sending compressed.
pub open spec fn encodable(mime: Seq<char>) -> bool {
    ||| mime == "application/javascript"@
    ||| mime == "application/javascript; charset=utf-8"@
    ||| mime == "application/octet-stream"@
    ||| mime == "text/javascript"@
    ||| mime == "text/html"@
    ||| mime == "text/html; charset=utf-8"@
}

/// The encoding that a file's name declares: gzip for the extension `gz`.
pub open spec fn name_encoding(name: Seq<char>) -> Option<Seq<char>> {
    if path_extension(name) == Some(GZIP_EXT@) {
        Some(GZIP_ENCODING@)
    } else {
        None
    }
}

/// The media type of a file by its name. The name of a compressed file is
/// judged without its last extension.
pub open spec fn name_mime(name: Seq<char>) -> Seq<char> {
    let judged = if name_encoding(name) is Some && path_file_stem(name) is Some {
        path_file_stem(name)->0
    } else {
        name
    };
    match guessed_mime(judged) {
        Some(mime) => mime,
        None => OCTET_STREAM@,
    }
}

/// Whether the client takes gzip: it names `gzip` or `*`.
pub open spec fn accepts_gzip(encodings: Seq<String>) -> bool {
    exists|i: int|
        0 <= i < encodings.len() && (#[trigger] encodings[i]@ == GZIP_ENCODING@ || encodings[i]@
            == ANY_ENCODING@)
}

/// The file `name` itself as a candidate.
pub open spec fn plain_candidate(name: Seq<char>) -> ServedFileView {
    ServedFileView { mime: name_mime(name), file_name: name, encoding: name_encoding(name) }
}

/// The compressed twin of the file `name` as a candidate.
pub open spec fn gzip_candidate(name: Seq<char>) -> ServedFileView {
    ServedFileView {
        mime: name_mime(name),
        file_name: name + seq!['.'] + GZIP_EXT@,
        encoding: Some(GZIP_ENCODING@),
    }
}

/// The files that may stand for `name`, best first: its compressed twin when
/// the client takes gzip and the file is of a kind worth compressing and not
/// compressed already, then the file itself.
pub open spec fn candidates_for(name: Seq<char>, encodings: Seq<String>) -> Seq<ServedFileView> {
    if name_encoding(name) is None && encodable(name_mime(name)) && accepts_gzip(encodings) {
        seq![gzip_candidate(name), plain_candidate(name)]
    } else {
        seq![plain_candidate(name)]
    }
}

/// The files to try for a request, in order: those for the requested name,
/// if there is one, then those for the entrypoint, to which every unmatched
/// path falls back.
pub open spec fn file_candidates(
    name: Option<Seq<char>>,
    encodings: Seq<String>,
    entrypoint: Seq<char>,
) -> Seq<ServedFileView> {
    match name {
        Some(n) => candidates_for(n, encodings) + candidates_for(entrypoint, encodings),
        None => candidates_for(entrypoint, encodings),
    }
}

/// The candidates as the contracts speak of them.
pub open spec fn meta_views(files: Seq<ServedFileMeta>) -> Seq<ServedFileView> {
    files.map_values(|f: ServedFileMeta| f@)
}

/// Whether files of this media type are worth sending compressed.
pub fn should_file_be_encoded(mime_type: &str) -> (b: bool)
    ensures
        b == encodable(mime_type@),
{
    same_text(mime_type, "application/javascript") || same_text(
        mime_type,
        "application/javascript; charset=utf-8",
    ) || same_text(mime_type, "application/octet-stream") || same_text(
        mime_type,
        "text/javascript",
    ) || same_text(mime_type, "text/html") || same_text(mime_type, "text/html; charset=utf-8")
}

/// The extension and the encoding of the compressed twin to serve, if the
/// client takes one.
pub fn decide_encoding_extension(encodings: &[String]) -> (r: Option<(&'static str, &'static str)>)
    ensures
        accepts_gzip(encodings@) ==> r == Some((GZIP_EXT, GZIP_ENCODING)),
        !accepts_gzip(encodings@) ==> r is None,
{
    let mut i: usize = 0;
    while i < encodings.len()
        invariant
            i <= encodings@.len(),
            forall|j: int|
                0 <= j < i ==> !(#[trigger] encodings@[j]@ == GZIP_ENCODING@ || encodings@[j]@
                    == ANY_ENCODING@),
        decreases encodings@.len() - i,
    {
        if same_text(encodings[i].as_str(), GZIP_ENCODING) || same_text(
            encodings[i].as_str(),
            ANY_ENCODING,
        ) {
            return Some((GZIP_EXT, GZIP_ENCODING));
        }
        i += 1;
    }
    None
}

/// The encoding that a file's name declares.
pub fn encoding_for_name(name: &str) -> (r: Option<&'static str>)
    ensures
        match name_encoding(name@) {
            Some(e) => r is Some && r->0@ == e,
            None => r is None,
        },
{
    match extension(name) {
        Some(ext) => if same_text(ext.as_str(), GZIP_EXT) {
            Some(GZIP_ENCODING)
        } else {
            None
        },
        None => None,
    }
}

/// The media type and the encoding of a file, by its name.
pub fn file_mime_and_encoding(name: &str) -> (r: (String, Option<&'static str>))
    ensures
        r.0@ == name_mime(name@),
        match name_encoding(name@) {
            Some(e) => r.1 is Some && r.1->0@ == e,
            None => r.1 is None,
        },
{
    let encoding = encoding_for_name(name);
    let guess = match encoding {
        Some(_) => match file_stem(name) {
            Some(stem) => guess_mime(stem.as_str()),
            None => guess_mime(name),
        },
        None => guess_mime(name),
    };
    let mime = match guess {
        Some(mime) => mime,
        None => String::from_str(OCTET_STREAM),
    };
    (mime, encoding)
}

/// Appends the files that may stand for `name` to `out`, best first.
fn push_candidates(out: &mut Vec<ServedFileMeta>, name: &str, encodings: &[String])
    ensures
        meta_views(final(out)@) == meta_views(old(out)@) + candidates_for(name@, encodings@),
{
    let ghost before = out@;
    let (mime, encoding) = file_mime_and_encoding(name);
    if encoding.is_none() && should_file_be_encoded(mime.as_str()) {
        if let Some((ext, twin_encoding)) = decide_encoding_extension(encodings) {
            let mut twin_name = String::from_str(name);
            twin_name.append(".");
            twin_name.append(ext);
            proof {
                reveal_strlit(".");
                assert("."@ =~= seq!['.']);
                assert(twin_name@ =~= name@ + seq!['.'] + GZIP_EXT@);
            }
            out.push(
                ServedFileMeta {
                    mime: mime.clone(),
                    file_name: twin_name,
                    encoding: Some(twin_encoding),
                },
            );
        }
    }
    out.push(ServedFileMeta { mime, file_name: String::from_str(name), encoding });
    assert(meta_views(out@) =~= meta_views(before) + candidates_for(name@, encodings@));
}

/// The files to try for a request for `name`, in order; the first that
/// exists in the installed package is served. `entrypoint` is the package's
/// entrypoint file.
pub fn decide_file_to_serve(name: Option<&str>, encodings: &[String], entrypoint: &str) -> (out: Vec<
    ServedFileMeta,
>)
    ensures
        meta_views(out@) == file_candidates(
            match name {
                Some(n) => Some(n@),
                None => None,
            },
            encodings@,
            entrypoint@,
        ),
{
    let mut out: Vec<ServedFileMeta> = Vec::new();
    assert(meta_views(out@) =~= Seq::<ServedFileView>::empty());
    if let Some(n) = name {
        push_candidates(&mut out, n, encodings);
    }
    push_candidates(&mut out, entrypoint, encodings);
    assert(meta_views(out@) =~= file_candidates(
        match name {
            Some(n) => Some(n@),
            None => None,
        },
        encodings@,
        entrypoint@,
    ));
    out
}

/// The entrypoint in force: the one that the installed manifest names, else
/// `index.html`.
pub fn entrypoint_file_name(declared: Option<&String>) -> (name: String)
    ensures
        name@ == match declared {
            Some(d) => d@,
            None => DEFAULT_ENTRYPOINT_FILE_NAME@,
        },
{
    match declared {
        Some(d) => d.clone(),
        None => String::from_str(DEFAULT_ENTRYPOINT_FILE_NAME),
    }
}

} // verus!
