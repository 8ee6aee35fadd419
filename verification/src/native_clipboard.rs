//! What goes onto the system clipboard besides plain text: images, and text
//! offered as a file.

use vstd::prelude::*;
use vstd::string::StringExecFns;
use crate::strings::str_equals;

verus! {

/// An image to be written to the clipboard.
#[derive(Debug, Clone)]
pub struct ClipboardImage {
    /// The image data in base64, without a data-URL prefix.
    pub data: String,
    /// The MIME type of the image, such as `image/png`.
    pub mime_type: String,
    /// The original file name.
    pub name: String,
}

/// The file extension that goes with a MIME type; `bin` for one that is not known.
pub open spec fn mime_extension(mime_type: Seq<char>) -> Seq<char> {
    if mime_type == "image/png"@ {
        "png"@
    } else if mime_type == "image/jpeg"@ || mime_type == "image/jpg"@ {
        "jpg"@
    } else if mime_type == "image/gif"@ {
        "gif"@
    } else if mime_type == "image/tiff"@ {
        "tiff"@
    } else if mime_type == "image/bmp"@ {
        "bmp"@
    } else if mime_type == "image/webp"@ {
        "webp"@
    } else if mime_type == "text/plain"@ {
        "txt"@
    } else if mime_type == "text/html"@ {
        "html"@
    } else if mime_type == "text/css"@ {
        "css"@
    } else if mime_type == "text/javascript"@ || mime_type == "application/javascript"@ {
        "js"@
    } else if mime_type == "application/json"@ {
        "json"@
    } else if mime_type == "application/xml"@ || mime_type == "text/xml"@ {
        "xml"@
    } else if mime_type == "application/pdf"@ {
        "pdf"@
    } else {
        "bin"@
    }
}

/// The file extension that goes with a MIME type.
pub fn extension_from_mime(mime_type: &str) -> (extension: &'static str)
    ensures
        extension@ == mime_extension(mime_type@),
{
    if str_equals(mime_type, "image/png") {
        "png"
    } else if str_equals(mime_type, "image/jpeg") || str_equals(mime_type, "image/jpg") {
        "jpg"
    } else if str_equals(mime_type, "image/gif") {
        "gif"
    } else if str_equals(mime_type, "image/tiff") {
        "tiff"
    } else if str_equals(mime_type, "image/bmp") {
        "bmp"
    } else if str_equals(mime_type, "image/webp") {
        "webp"
    } else if str_equals(mime_type, "text/plain") {
        "txt"
    } else if str_equals(mime_type, "text/html") {
        "html"
    } else if str_equals(mime_type, "text/css") {
        "css"
    } else if str_equals(mime_type, "text/javascript") || str_equals(mime_type, "application/javascript") {
        "js"
    } else if str_equals(mime_type, "application/json") {
        "json"
    } else if str_equals(mime_type, "application/xml") || str_equals(mime_type, "text/xml") {
        "xml"
    } else if str_equals(mime_type, "application/pdf") {
        "pdf"
    } else {
        "bin"
    }
}

/// The file extension that goes with a language identifier; `txt` for one that is not known.
pub open spec fn language_extension(language: Seq<char>) -> Seq<char> {
    if language == "javascript"@ {
        "js"@
    } else if language == "typescript"@ {
        "ts"@
    } else if language == "jsx"@ || language == "react"@ {
        "jsx"@
    } else if language == "tsx"@ {
        "tsx"@
    } else if language == "python"@ {
        "py"@
    } else if language == "rust"@ {
        "rs"@
    } else if language == "go"@ {
        "go"@
    } else if language == "java"@ {
        "java"@
    } else if language == "kotlin"@ {
        "kt"@
    } else if language == "swift"@ {
        "swift"@
    } else if language == "csharp"@ {
        "cs"@
    } else if language == "cpp"@ {
        "cpp"@
    } else if language == "c"@ {
        "c"@
    } else if language == "ruby"@ {
        "rb"@
    } else if language == "php"@ {
        "php"@
    } else if language == "html"@ {
        "html"@
    } else if language == "css"@ {
        "css"@
    } else if language == "json"@ {
        "json"@
    } else if language == "xml"@ {
        "xml"@
    } else if language == "yaml"@ {
        "yaml"@
    } else if language == "sql"@ {
        "sql"@
    } else if language == "bash"@ {
        "sh"@
    } else if language == "markdown"@ {
        "md"@
    } else {
        "txt"@
    }
}

/// The file extension that goes with a language identifier.
pub fn extension_from_language(language: &str) -> (extension: &'static str)
    ensures
        extension@ == language_extension(language@),
{
    if str_equals(language, "javascript") {
        "js"
    } else if str_equals(language, "typescript") {
        "ts"
    } else if str_equals(language, "jsx") || str_equals(language, "react") {
        "jsx"
    } else if str_equals(language, "tsx") {
        "tsx"
    } else if str_equals(language, "python") {
        "py"
    } else if str_equals(language, "rust") {
        "rs"
    } else if str_equals(language, "go") {
        "go"
    } else if str_equals(language, "java") {
        "java"
    } else if str_equals(language, "kotlin") {
        "kt"
    } else if str_equals(language, "swift") {
        "swift"
    } else if str_equals(language, "csharp") {
        "cs"
    } else if str_equals(language, "cpp") {
        "cpp"
    } else if str_equals(language, "c") {
        "c"
    } else if str_equals(language, "ruby") {
        "rb"
    } else if str_equals(language, "php") {
        "php"
    } else if str_equals(language, "html") {
        "html"
    } else if str_equals(language, "css") {
        "css"
    } else if str_equals(language, "json") {
        "json"
    } else if str_equals(language, "xml") {
        "xml"
    } else if str_equals(language, "yaml") {
        "yaml"
    } else if str_equals(language, "sql") {
        "sql"
    } else if str_equals(language, "bash") {
        "sh"
    } else if str_equals(language, "markdown") {
        "md"
    } else {
        "txt"
    }
}

/// The name of the temporary file under which text is offered as a file:
/// `wingman_`, the time in milliseconds, a dot and the language's extension.
pub open spec fn clipboard_file_name(millis: Seq<char>, language: Seq<char>) -> Seq<char> {
    "wingman_"@ + millis + "."@ + language_extension(language)
}

/// The name of the temporary file under which text of the given language is
/// offered as a file, given the time in milliseconds as text.
pub fn clipboard_file_name_for(millis: &str, language: &str) -> (name: String)
    ensures
        name@ == clipboard_file_name(millis@, language@),
{
    String::from_str("wingman_").concat(millis).concat(".").concat(extension_from_language(language))
}

/// Writes text, optional HTML and images to the native clipboard. Only the
/// macOS pasteboard takes several representations at once; this portable
/// library reports that to its caller on every platform.
pub fn write_to_clipboard(text: &str, html: Option<&str>, images: &Vec<ClipboardImage>) -> (done:
    Result<(), String>)
    ensures
        done matches Err(reason) && reason@ == "Native clipboard only supported on macOS"@,
{
    Err(String::from_str("Native clipboard only supported on macOS"))
}

} // verus!
