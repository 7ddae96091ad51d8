//! Which file answers a request for the user interface, and as what.

use vstd::prelude::*;
use vstd::string::StringExecFns;
use crate::measurement::same_text;

verus! {

/// Whether `text` ends with `suffix`.
pub open spec fn has_suffix(text: Seq<char>, suffix: Seq<char>) -> bool {
    suffix.len() <= text.len() && text.subrange(text.len() - suffix.len(), text.len() as int)
        == suffix
}

/// `str::ends_with` for a string pattern: true exactly when the pattern is a
/// suffix of the slice.
#[verifier::external_body]
fn ends_with(text: &str, suffix: &str) -> (r: bool)
    ensures
        r == has_suffix(text@, suffix@),
{
    text.ends_with(suffix)
}

/// The file that answers a request path: the index page for the root, else
/// the file of that path under the built interface.
pub open spec fn asset_path_of(path: Seq<char>) -> Seq<char> {
    if path == "/"@ {
        "ui/dist/index.html"@
    } else {
        "ui/dist"@ + path
    }
}

/// The file that answers a request path.
pub fn asset_path(path: &str) -> (file: String)
    ensures
        file@ == asset_path_of(path@),
{
    if same_text(path, "/") {
        "ui/dist/index.html".to_owned()
    } else {
        let mut file = "ui/dist".to_owned();
        file.append(path);
        file
    }
}

/// The media type of a file, by the ending of its name; the first ending
/// that fits decides, and a file with none of them is plain bytes.
pub open spec fn content_type_of(file: Seq<char>) -> Seq<char> {
    if has_suffix(file, ".html"@) {
        "text/html; charset=utf-8"@
    } else if has_suffix(file, ".js"@) {
        "application/javascript; charset=utf-8"@
    } else if has_suffix(file, ".css"@) {
        "text/css; charset=utf-8"@
    } else if has_suffix(file, ".json"@) {
        "application/json; charset=utf-8"@
    } else if has_suffix(file, ".wasm"@) {
        "application/wasm"@
    } else {
        "application/octet-stream"@
    }
}

/// The media type of a file.
pub fn content_type(file: &str) -> (media: &'static str)
    ensures
        media@ == content_type_of(file@),
{
    if ends_with(file, ".html") {
        "text/html; charset=utf-8"
    } else if ends_with(file, ".js") {
        "application/javascript; charset=utf-8"
    } else if ends_with(file, ".css") {
        "text/css; charset=utf-8"
    } else if ends_with(file, ".json") {
        "application/json; charset=utf-8"
    } else if ends_with(file, ".wasm") {
        "application/wasm"
    } else {
        "application/octet-stream"
    }
}

} // verus!
