use vstd::prelude::*;

verus! {

/// The extension that `std::path::Path::extension` finds in a path.
pub uninterp spec fn extension_of(path: Seq<char>) -> Option<Seq<char>>;

pub open spec fn option_text(s: Option<String>) -> Option<Seq<char>> {
    match s {
        Some(s) => Some(s@),
        None => None,
    }
}

pub open spec fn option_str(s: Option<&str>) -> Option<Seq<char>> {
    match s {
        Some(s) => Some(s@),
        None => None,
    }
}

/// Relies on `std::path::Path::extension`: the extension of a path depends
/// on its characters alone.
#[verifier::external_body]
fn path_extension(path: &str) -> (r: Option<String>)
    ensures
        option_text(r) == extension_of(path@),
{
    std::path::Path::new(path).extension().and_then(|e| e.to_str()).map(|e| e.to_owned())
}

/// The content type served for a file extension.
pub open spec fn mime_of(extension: Seq<char>) -> Option<Seq<char>> {
    if extension == "js"@ {
        Some("text/javascript"@)
    } else if extension == "css"@ {
        Some("text/css"@)
    } else if extension == "html"@ {
        Some("text/html"@)
    } else {
        None
    }
}

/// The content type for a file extension: scripts, style sheets and pages.
pub fn mime_for_extension(extension: &str) -> (r: Option<&'static str>)
    ensures
        option_str(r) == mime_of(extension@),
{
    let extension = extension.to_owned();
    if extension == "js".to_owned() {
        Some("text/javascript")
    } else if extension == "css".to_owned() {
        Some("text/css")
    } else if extension == "html".to_owned() {
        Some("text/html")
    } else {
        None
    }
}

/// The content type of a file, from the extension of its path.
pub fn get_mime(path: &str) -> (r: Option<&'static str>)
    ensures
        match extension_of(path@) {
            Some(extension) => option_str(r) == mime_of(extension),
            None => r is None,
        },
{
    match path_extension(path) {
        Some(extension) => mime_for_extension(extension.as_str()),
        None => None,
    }
}

} // verus!
