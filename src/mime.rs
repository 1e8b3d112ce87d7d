//! Content types of served files, chosen by file extension.
use vstd::prelude::*;
use vstd::string::*;

verus! {

/// The extension of a path as `std::path::Path::extension` finds it.
pub uninterp spec fn extension_of(path: Seq<char>) -> Option<Seq<char>>;

/// An optional extension, as characters.
pub open spec fn ext_view(ext: Option<String>) -> Option<Seq<char>> {
    match ext {
        None => None,
        Some(e) => Some(e@),
    }
}

/// The content type for a path whose extension is `ext`.
///
/// A path without an extension is plain text with no charset; an
/// extension outside the table is plain text in utf8.
pub open spec fn mime_of(ext: Option<Seq<char>>) -> Seq<char> {
    match ext {
        None => "text/plain"@,
        Some(e) => if e == "gif"@ {
            "image/gif"@
        } else if e == "jpg"@ || e == "jpeg"@ {
            "image/jpeg"@
        } else if e == "png"@ {
            "image/png"@
        } else if e == "pdf"@ {
            "application/pdf"@
        } else if e == "htm"@ || e == "html"@ {
            "text/html; charset=utf8"@
        } else {
            "text/plain; charset=utf8"@
        },
    }
}

/// Relies on `std::path::Path::extension`: the part of the file name after
/// its last dot, if any; a `&str` path gives a UTF-8 extension.
#[verifier::external_body]
fn path_extension(path: &str) -> (r: Option<String>)
    ensures
        ext_view(r) == extension_of(path@),
{
    std::path::Path::new(path).extension().and_then(|e| e.to_str()).map(|e| e.to_string())
}

fn ext_is(e: &String, lit: &str) -> (r: bool)
    ensures
        r == (e@ == lit@),
{
    let l = String::from_str(lit);
    *e == l
}

/// The content type for a path with extension `ext`.
pub fn content_type_for_extension(ext: &Option<String>) -> (r: &'static str)
    ensures
        r@ == mime_of(ext_view(*ext)),
{
    match ext {
        None => "text/plain",
        Some(e) => {
            if ext_is(e, "gif") {
                "image/gif"
            } else if ext_is(e, "jpg") || ext_is(e, "jpeg") {
                "image/jpeg"
            } else if ext_is(e, "png") {
                "image/png"
            } else if ext_is(e, "pdf") {
                "application/pdf"
            } else if ext_is(e, "htm") || ext_is(e, "html") {
                "text/html; charset=utf8"
            } else {
                "text/plain; charset=utf8"
            }
        },
    }
}

/// The content type sent with the file at `path`.
pub fn content_type(path: &str) -> (r: &'static str)
    ensures
        r@ == mime_of(extension_of(path@)),
{
    let ext = path_extension(path);
    content_type_for_extension(&ext)
}

} // verus!
