//! Files that the user hands to the assistant: what kind a file is by its
//! name, and how its content is passed on.
//!
//! Images, PDF and EPUB files are passed on as data URLs with their content in
//! base64; every other file is passed on as the text it holds.

use crate::strings::{
    after_last, ends_with_text, has_end, last_segment, lowercase_of, replace_text, replaced,
};
use crate::utils::{join_path, joined_path};
use vstd::prelude::*;
use vstd::utf8::{decode_utf8, valid_utf8};

verus! {

/// The extension of a file name, in lower case: what stands behind the last
/// dot, or the whole name where it has no dot.
pub open spec fn extension_of(file_name: Seq<char>) -> Seq<char> {
    lowercase_of(after_last(file_name, '.'))
}

/// Whether `extension` is one of an image format.
pub open spec fn is_image_extension(extension: Seq<char>) -> bool {
    extension == "jpg"@ || extension == "jpeg"@ || extension == "png"@ || extension == "gif"@
        || extension == "webp"@ || extension == "svg"@ || extension == "bmp"@
}

/// Whether a file of this name is passed on as a data URL.
pub open spec fn is_binary_name(file_name: Seq<char>) -> bool {
    is_image_extension(extension_of(file_name)) || has_end(lowercase_of(file_name), ".pdf"@)
        || has_end(lowercase_of(file_name), ".epub"@)
}

/// The extension of a file name, in lower case.
fn extension(file_name: &str) -> (extension: String)
    ensures
        extension@ == extension_of(file_name@),
{
    last_segment(file_name, '.').to_lowercase()
}

/// Whether the file is an image, going by its extension.
pub fn is_image_file(file_name: &str) -> (image: bool)
    ensures
        image == is_image_extension(extension_of(file_name@)),
{
    let ext: String = extension(file_name);
    let ext: &str = ext.as_str();
    ext.eq("jpg") || ext.eq("jpeg") || ext.eq("png") || ext.eq("gif") || ext.eq("webp") || ext.eq(
        "svg",
    ) || ext.eq("bmp")
}

/// Whether the file is a PDF, going by the end of its name.
pub fn is_pdf_file(file_name: &str) -> (pdf: bool)
    ensures
        pdf == has_end(lowercase_of(file_name@), ".pdf"@),
{
    ends_with_text(file_name.to_lowercase().as_str(), ".pdf")
}

/// Whether the file is an EPUB, going by the end of its name.
pub fn is_epub_file(file_name: &str) -> (epub: bool)
    ensures
        epub == has_end(lowercase_of(file_name@), ".epub"@),
{
    ends_with_text(file_name.to_lowercase().as_str(), ".epub")
}

/// Whether the file is passed on as a data URL rather than as text.
pub fn is_binary_file(file_name: &str) -> (binary: bool)
    ensures
        binary == is_binary_name(file_name@),
{
    is_image_file(file_name) || is_pdf_file(file_name) || is_epub_file(file_name)
}

/// What `mime_guess` takes to be the first media type of a file of this
/// name, as its essence; `None` where it knows none.
pub uninterp spec fn guessed_mime(file_name: Seq<char>) -> Option<Seq<char>>;

/// `mime_guess::from_path` and the first guess of it: the media type that
/// the crate's table gives for the extension of the name, without its
/// parameters, or nothing where the table has no entry.
#[verifier::external_body]
fn guess_mime(file_name: &str) -> (guess: Option<String>)
    ensures
        match guess {
            Some(mime) => guessed_mime(file_name@) == Some(mime@),
            None => guessed_mime(file_name@) is None,
        },
{
    match mime_guess::from_path(file_name).first() {
        Some(mime) => Some(mime.essence_str().to_string()),
        None => None,
    }
}

/// The media type for an extension where the table of `mime_guess` has none.
pub open spec fn fallback_mime(extension: Seq<char>) -> Seq<char> {
    if extension == "pdf"@ {
        "application/pdf"@
    } else if extension == "epub"@ {
        "application/epub+zip"@
    } else if extension == "jpg"@ || extension == "jpeg"@ {
        "image/jpeg"@
    } else if extension == "png"@ {
        "image/png"@
    } else if extension == "gif"@ {
        "image/gif"@
    } else if extension == "webp"@ {
        "image/webp"@
    } else if extension == "svg"@ {
        "image/svg+xml"@
    } else if extension == "bmp"@ {
        "image/bmp"@
    } else {
        "application/octet-stream"@
    }
}

/// The media type of a file: what `mime_guess` says, else what the extension
/// suggests.
pub open spec fn mime_type_of(file_name: Seq<char>) -> Seq<char> {
    match guessed_mime(file_name) {
        Some(mime) => mime,
        None => fallback_mime(extension_of(file_name)),
    }
}

/// The media type for an extension where the table of `mime_guess` has none.
pub fn fallback_mime_type(extension: &str) -> (mime: String)
    ensures
        mime@ == fallback_mime(extension@),
{
    if extension.eq("pdf") {
        "application/pdf".to_owned()
    } else if extension.eq("epub") {
        "application/epub+zip".to_owned()
    } else if extension.eq("jpg") || extension.eq("jpeg") {
        "image/jpeg".to_owned()
    } else if extension.eq("png") {
        "image/png".to_owned()
    } else if extension.eq("gif") {
        "image/gif".to_owned()
    } else if extension.eq("webp") {
        "image/webp".to_owned()
    } else if extension.eq("svg") {
        "image/svg+xml".to_owned()
    } else if extension.eq("bmp") {
        "image/bmp".to_owned()
    } else {
        "application/octet-stream".to_owned()
    }
}

/// The media type of a file, going by its name.
pub fn get_mime_type(file_name: &str) -> (mime: String)
    ensures
        mime@ == mime_type_of(file_name@),
{
    match guess_mime(file_name) {
        Some(mime) => mime,
        None => {
            let ext: String = extension(file_name);
            fallback_mime_type(ext.as_str())
        },
    }
}

/// What the standard base64 alphabet with padding makes of `bytes`.
pub uninterp spec fn base64_of(bytes: Seq<u8>) -> Seq<char>;

/// Whether the base64 form of so many bytes has a length that the machine can
/// count: four characters for every three bytes, begun or complete.
pub open spec fn fits_base64(len: nat) -> bool {
    len / 3 * 4 + 4 <= usize::MAX
}

/// `Engine::encode` of the `base64` crate's `STANDARD` engine: the bytes in
/// base64, with the standard alphabet and padding. The crate gives up where
/// the length of the result cannot be counted.
#[verifier::external_body]
fn encode_base64(bytes: &Vec<u8>) -> (encoded: String)
    requires
        fits_base64(bytes@.len()),
    ensures
        encoded@ == base64_of(bytes@),
{
    base64::Engine::encode(&base64::engine::general_purpose::STANDARD, bytes)
}

/// Whether the base64 form of `bytes` has a length that the machine can
/// count. This holds of every vector that fits in memory.
pub fn can_encode(bytes: &Vec<u8>) -> (fits: bool)
    ensures
        fits == fits_base64(bytes@.len()),
{
    bytes.len() / 3 <= (usize::MAX - 4) / 4
}

/// The bytes as text in base64, with the standard alphabet and padding.
pub fn base64_text(bytes: &Vec<u8>) -> (encoded: String)
    requires
        fits_base64(bytes@.len()),
    ensures
        encoded@ == base64_of(bytes@),
{
    encode_base64(bytes)
}

/// How `String::from_utf8` describes why `bytes` are no UTF-8.
pub uninterp spec fn utf8_failure(bytes: Seq<u8>) -> Seq<char>;

/// `String::from_utf8`: the text that the bytes encode, where they are valid
/// UTF-8, and else the description of what is wrong with them.
#[verifier::external_body]
fn text_from_utf8(bytes: Vec<u8>) -> (text: Result<String, String>)
    ensures
        text is Ok <==> valid_utf8(bytes@),
        text matches Ok(decoded) ==> decoded@ == decode_utf8(bytes@),
        text matches Err(failure) ==> failure@ == utf8_failure(bytes@),
{
    match String::from_utf8(bytes) {
        Ok(decoded) => Ok(decoded),
        Err(failure) => Err(failure.to_string()),
    }
}

/// A data URL of the given media type and base64 content.
pub open spec fn data_url(mime: Seq<char>, encoded: Seq<char>) -> Seq<char> {
    "data:"@ + mime + ";base64,"@ + encoded
}

/// The content of a file as it is passed on, or why it cannot be.
pub open spec fn encoded_content(file_name: Seq<char>, bytes: Seq<u8>) -> Result<
    Seq<char>,
    Seq<char>,
> {
    if is_binary_name(file_name) {
        Ok(data_url(mime_type_of(file_name), base64_of(bytes)))
    } else if valid_utf8(bytes) {
        Ok(decode_utf8(bytes))
    } else {
        Err("Failed to decode file content: "@ + utf8_failure(bytes))
    }
}

/// A result of texts as a value.
pub open spec fn texts_of(result: Result<String, String>) -> Result<Seq<char>, Seq<char>> {
    match result {
        Ok(text) => Ok(text@),
        Err(text) => Err(text@),
    }
}

/// Makes a data URL of a media type and bytes.
pub fn data_url_of(mime: &str, bytes: &Vec<u8>) -> (url: String)
    requires
        fits_base64(bytes@.len()),
    ensures
        url@ == data_url(mime@, base64_of(bytes@)),
{
    let encoded: String = encode_base64(bytes);
    let mut url: String = "data:".to_owned();
    url.append(mime);
    url.append(";base64,");
    url.append(encoded.as_str());
    url
}

/// Turns the bytes of a file into what is passed on: a data URL for an image,
/// a PDF or an EPUB, and the text itself for any other file. A file of text
/// that is no valid UTF-8 is refused.
pub fn encode_file_content(file_name: &str, bytes: Vec<u8>) -> (content: Result<String, String>)
    requires
        fits_base64(bytes@.len()),
    ensures
        texts_of(content) == encoded_content(file_name@, bytes@),
{
    if is_binary_file(file_name) {
        let mime: String = get_mime_type(file_name);
        Ok(data_url_of(mime.as_str(), &bytes))
    } else {
        match text_from_utf8(bytes) {
            Ok(text) => Ok(text),
            Err(failure) => {
                let mut message: String = "Failed to decode file content: ".to_owned();
                message.append(failure.as_str());
                Err(message)
            },
        }
    }
}

/// A path as the user typed it, with each escaped blank made a plain blank.
pub fn unescape_path(path: &str) -> (plain: String)
    ensures
        plain@ == replaced(path@, "\\ "@, " "@),
{
    proof {
        reveal_strlit("\\ ");
    }
    replace_text(path, "\\ ", " ")
}

/// The text of the error for a file that could not be read.
pub fn read_failure_message(reason: &str, path: &str) -> (message: String)
    ensures
        message@ == "Failed to read file: "@ + reason@ + " (path: "@ + path@ + ")"@,
{
    let mut message: String = "Failed to read file: ".to_owned();
    message.append(reason);
    message.append(" (path: ");
    message.append(path);
    message.append(")");
    message
}

/// The lines that list the places where a file was looked for.
pub open spec fn listed(tried: Seq<Seq<char>>) -> Seq<char>
    decreases tried.len(),
{
    if tried.len() == 0 {
        Seq::empty()
    } else if tried.len() == 1 {
        "- "@ + tried.last()
    } else {
        listed(tried.drop_last()) + "\n"@ + "- "@ + tried.last()
    }
}

/// The places that the error names where the file is in none of them: all
/// but the last, which is the path as it was given.
pub open spec fn named_places(places: Seq<Seq<char>>) -> Seq<Seq<char>> {
    if places.len() == 0 {
        places
    } else {
        places.drop_last()
    }
}

/// The text of the error for a file that was found in none of the places
/// where it was looked for: a heading and one line for each place but the
/// last.
pub fn not_found_message(places: &Vec<String>) -> (message: String)
    ensures
        message@ == "File not found. Tried the following paths:\n"@ + listed(
            named_places(places.deep_view()),
        ),
{
    let ghost named = named_places(places.deep_view());
    let count: usize = if places.len() == 0 {
        0
    } else {
        places.len() - 1
    };
    let mut message: String = "File not found. Tried the following paths:\n".to_owned();
    let mut i: usize = 0;
    while i < count
        invariant
            i <= count,
            count == named.len(),
            count <= places@.len(),
            named == named_places(places.deep_view()),
            forall|j: int| 0 <= j < count ==> named[j] == (#[trigger] places@[j])@,
            message@ == "File not found. Tried the following paths:\n"@ + listed(
                named.take(i as int),
            ),
        decreases count - i,
    {
        proof {
            assert(named.take(i + 1).drop_last() =~= named.take(i as int));
        }
        if i > 0 {
            message.append("\n");
        }
        message.append("- ");
        message.append(places[i].as_str());
        i = i + 1;
    }
    proof {
        assert(named.take(count as int) =~= named);
    }
    message
}

/// The places where a file is looked for, in order: below the working
/// directory, below its parent where it has one, and at the path as it is.
pub open spec fn candidates(
    working_dir: Seq<char>,
    parent_dir: Option<Seq<char>>,
    path: Seq<char>,
) -> Seq<Seq<char>> {
    match parent_dir {
        Some(parent) => seq![joined_path(working_dir, path), joined_path(parent, path), path],
        None => seq![joined_path(working_dir, path), path],
    }
}

/// The places where a file is looked for, in the order in which they are
/// tried.
pub fn candidate_paths(working_dir: &str, parent_dir: Option<&str>, path: &str) -> (places: Vec<
    String,
>)
    ensures
        places.deep_view() == candidates(
            working_dir@,
            match parent_dir {
                Some(parent) => Some(parent@),
                None => None,
            },
            path@,
        ),
{
    let mut places: Vec<String> = Vec::new();
    places.push(join_path(working_dir, path));
    match parent_dir {
        Some(parent) => {
            places.push(join_path(parent, path));
        },
        None => {},
    }
    places.push(path.to_owned());
    places
}

} // verus!
