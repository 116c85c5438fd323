//! What the library decides about Markdown files: which paths it accepts, how the bytes of
//! a file become text, and the base URL that relative links of a document resolve against.
//! Reading and writing the files themselves is left to the application.
use vstd::prelude::*;
use vstd::utf8::{decode_utf8, valid_utf8};

use chardetng::EncodingDetector;

use crate::paths::{
    directory_url, extension, extension_of, file_name, parent, path_join, std_file_name, std_join,
    std_parent,
};
use crate::text::{
    ascii_lower_seq, concat, concat3, decimal, str_eq, to_ascii_lowercase, u128_to_string,
};

verus! {

// ---------------------------------------------------------------------------
// Accepted paths

/// Whether the extension of `path`, ASCII-lower-cased, is `md` or `markdown`.
pub open spec fn is_markdown_extension(path: Seq<char>) -> bool {
    match extension_of(path) {
        Some(e) => ascii_lower_seq(e) == "md"@ || ascii_lower_seq(e) == "markdown"@,
        None => false,
    }
}

/// The message with which unsupported files are refused.
pub open spec fn unsupported_message() -> Seq<char> {
    "Only .md and .markdown files are supported in v0.6.0."@
}

/// Whether the library opens and saves files at `path`, judged by the extension alone.
pub fn is_supported_markdown_path(path: &str) -> (r: bool)
    ensures
        r == is_markdown_extension(path@),
{
    match extension(path) {
        Some(e) => {
            let lower = to_ascii_lowercase(e.as_str());
            str_eq(lower.as_str(), "md") || str_eq(lower.as_str(), "markdown")
        },
        None => false,
    }
}

/// Refuses a path whose extension is neither `md` nor `markdown`.
pub fn ensure_supported_markdown_extension(path: &str) -> (r: Result<(), String>)
    ensures
        r is Ok <==> is_markdown_extension(path@),
        r matches Err(e) ==> e@ == unsupported_message(),
{
    if is_supported_markdown_path(path) {
        Ok(())
    } else {
        Err(String::from_str("Only .md and .markdown files are supported in v0.6.0."))
    }
}

/// Refuses a path that does not exist (`exists` is what the file system said of it) before
/// refusing one with an unsupported extension.
pub fn ensure_supported_markdown_path(path: &str, exists: bool) -> (r: Result<(), String>)
    ensures
        r is Ok <==> exists && is_markdown_extension(path@),
        !exists ==> (r matches Err(e) && e@ == "File not found: "@ + path@),
        exists && !is_markdown_extension(path@) ==> (r matches Err(e) && e@ == unsupported_message()),
{
    if !exists {
        return Err(concat("File not found: ", path));
    }
    ensure_supported_markdown_extension(path)
}

// ---------------------------------------------------------------------------
// Saving through a temporary file

/// The temporary file beside `path` that a save written at `stamp` (nanoseconds since the
/// Unix epoch) goes through before it replaces `path`: `.<name>.markhola-<stamp>.tmp`.
pub open spec fn temporary_save_file(path: Seq<char>, stamp: u128) -> Result<Seq<char>, Seq<char>> {
    if !is_markdown_extension(path) {
        Err(unsupported_message())
    } else {
        match std_parent(path) {
            None => Err("File does not have a parent directory: "@ + path),
            Some(dir) => match std_file_name(path) {
                None => Err("File name is not valid UTF-8: "@ + path),
                Some(name) => Ok(
                    std_join(dir, "."@ + name + ".markhola-"@ + decimal(stamp as nat) + ".tmp"@),
                ),
            },
        }
    }
}

/// Where a save of `path` at `stamp` first writes, or why `path` cannot be saved. Writing
/// that file and moving it over `path` is left to the application.
pub fn temporary_save_path(path: &str, stamp: u128) -> (r: Result<String, String>)
    ensures
        r matches Ok(t) ==> temporary_save_file(path@, stamp) == Ok::<Seq<char>, Seq<char>>(t@),
        r matches Err(e) ==> temporary_save_file(path@, stamp) == Err::<Seq<char>, Seq<char>>(e@),
{
    match ensure_supported_markdown_extension(path) {
        Ok(()) => {},
        Err(e) => {
            return Err(e);
        },
    }
    let dir = match parent(path) {
        Some(d) => d,
        None => {
            return Err(concat("File does not have a parent directory: ", path));
        },
    };
    let name = match file_name(path) {
        Some(n) => n,
        None => {
            return Err(concat("File name is not valid UTF-8: ", path));
        },
    };
    let digits = u128_to_string(stamp);
    let mut temp = concat3(".", name.as_str(), ".markhola-");
    temp.append(digits.as_str());
    temp.append(".tmp");
    Ok(path_join(dir.as_str(), temp.as_str()))
}

// ---------------------------------------------------------------------------
// Base URLs

/// The base URL of the document at `path`: the `file:` URL of its directory.
pub open spec fn base_url_of(path: Seq<char>) -> Option<Seq<char>> {
    match std_parent(path) {
        Some(dir) => directory_url(dir),
        None => None,
    }
}

/// Why the document at `path` has no base URL, where it has none.
pub open spec fn base_url_error(path: Seq<char>) -> Seq<char> {
    if std_parent(path) is None {
        "Document path does not have a parent directory."@
    } else {
        "Document directory cannot be converted to a file URL."@
    }
}

/// The base URL of the document at `path`, or why there is none.
pub fn directory_base_url(path: &str) -> (r: Result<String, String>)
    ensures
        std_parent(path@) is None ==> (r matches Err(e)
            && e@ == "Document path does not have a parent directory."@),
        std_parent(path@) is Some && base_url_of(path@) is None ==> (r matches Err(e)
            && e@ == "Document directory cannot be converted to a file URL."@),
        r matches Ok(u) ==> base_url_of(path@) == Some(u@),
        r matches Err(e) ==> base_url_of(path@) is None && e@ == base_url_error(path@),
        base_url_of(path@) is Some ==> r is Ok,
{
    let directory = match parent(path) {
        Some(d) => d,
        None => {
            return Err(String::from_str("Document path does not have a parent directory."));
        },
    };
    match crate::paths::directory_url_of(directory.as_str()) {
        Some(u) => Ok(u),
        None => Err(String::from_str("Document directory cannot be converted to a file URL.")),
    }
}

/// The base URL of the document at `path`, or the empty string where there is none.
pub fn file_io_base_url(path: &str) -> (r: String)
    ensures
        base_url_of(path@) matches Some(u) ==> r@ == u,
        base_url_of(path@) is None ==> r@ == Seq::<char>::empty(),
{
    match directory_base_url(path) {
        Ok(u) => u,
        Err(_) => String::new(),
    }
}

// ---------------------------------------------------------------------------
// Turning the bytes of a file into text

/// The UTF-16 code unit at position `i` (two bytes) in the given byte order.
pub open spec fn unit_at(bytes: Seq<u8>, i: int, little_endian: bool) -> u16 {
    if little_endian {
        (bytes[2 * i] as int + 256 * (bytes[2 * i + 1] as int)) as u16
    } else {
        (bytes[2 * i + 1] as int + 256 * (bytes[2 * i] as int)) as u16
    }
}

/// The code units of an even-length byte sequence.
pub open spec fn units_of(bytes: Seq<u8>, little_endian: bool) -> Seq<u16> {
    Seq::new(bytes.len() / 2, |i: int| unit_at(bytes, i, little_endian))
}

/// Decoding of UTF-16: `None` where a surrogate is unpaired.
pub open spec fn utf16_decoded(units: Seq<u16>) -> Option<Seq<char>>
    decreases units.len(),
{
    if units.len() == 0 {
        Some(seq![])
    } else {
        let u = units[0];
        if u < 0xD800 || u > 0xDFFF {
            match utf16_decoded(units.skip(1)) {
                Some(rest) => Some(seq![(u as u32) as char] + rest),
                None => None,
            }
        } else if u <= 0xDBFF && units.len() >= 2 && 0xDC00 <= units[1] && units[1] <= 0xDFFF {
            let c = (0x10000 + (u - 0xD800) * 0x400 + (units[1] - 0xDC00)) as u32;
            match utf16_decoded(units.skip(2)) {
                Some(rest) => Some(seq![c as char] + rest),
                None => None,
            }
        } else {
            None
        }
    }
}

/// What std's `String::from_utf16` reports, as text, when `units` are not valid UTF-16.
pub uninterp spec fn utf16_error_text(units: Seq<u16>) -> Seq<char>;

/// What std's `Utf8Error` reports, as text, when `bytes` are not valid UTF-8.
pub uninterp spec fn utf8_error_text(bytes: Seq<u8>) -> Seq<char>;

/// `String::from_utf16` of std: decodes UTF-16, refusing unpaired surrogates.
#[verifier::external_body]
fn string_from_utf16(units: &[u16]) -> (r: Result<String, String>)
    ensures
        r matches Ok(s) ==> utf16_decoded(units@) == Some(s@),
        r matches Err(e) ==> utf16_decoded(units@) is None && e@ == utf16_error_text(units@),
{
    String::from_utf16(units).map_err(|error| error.to_string())
}

/// `std::str::from_utf8`: the text that `bytes` encode, if they are valid UTF-8.
#[verifier::external_body]
fn str_from_utf8(bytes: &[u8]) -> (r: Result<String, String>)
    ensures
        r matches Ok(s) ==> valid_utf8(bytes@) && s@ == decode_utf8(bytes@),
        r matches Err(e) ==> !valid_utf8(bytes@) && e@ == utf8_error_text(bytes@),
{
    std::str::from_utf8(bytes).map(|text| text.to_string()).map_err(|error| error.to_string())
}

/// What an `EncodingDetector` has been fed so far.
pub uninterp spec fn detector_input(d: EncodingDetector) -> Seq<u8>;

/// Whether the detector has been told that its input has ended.
pub uninterp spec fn detector_closed(d: EncodingDetector) -> bool;

/// The name of the encoding that chardetng guesses for a complete or partial input.
pub uninterp spec fn guessed_encoding(input: Seq<u8>, closed: bool, allow_utf8: bool) -> Seq<char>;

/// What `encoding_rs` decodes `bytes` to, with the encoding of the given name, and whether
/// malformed sequences were replaced on the way; `None` where no encoding has that name.
pub uninterp spec fn decoded_with(name: Seq<char>, bytes: Seq<u8>) -> Option<(Seq<char>, bool)>;

#[verifier::external_type_specification]
#[verifier::external_body]
pub struct ExEncodingDetector(chardetng::EncodingDetector);

/// `chardetng::EncodingDetector::new`: a detector that has seen no input.
#[verifier::external_body]
fn detector_new() -> (d: EncodingDetector)
    ensures
        detector_input(d) == Seq::<u8>::empty(),
        !detector_closed(d),
{
    EncodingDetector::new()
}

/// `chardetng::EncodingDetector::feed`: appends `buffer` to the input; `last` ends it.
/// The source panics when the input has already been ended.
#[verifier::external_body]
fn detector_feed(d: &mut EncodingDetector, buffer: &[u8], last: bool) -> (non_ascii: bool)
    requires
        !detector_closed(*old(d)),
    ensures
        detector_input(*final(d)) == detector_input(*old(d)) + buffer@,
        detector_closed(*final(d)) == last,
        non_ascii == exists|i: int|
            0 <= i < detector_input(*final(d)).len() && detector_input(*final(d))[i] >= 0x80,
{
    d.feed(buffer, last)
}

/// `chardetng::EncodingDetector::guess` with no top-level domain, giving the name of the
/// guessed `encoding_rs` encoding.
#[verifier::external_body]
fn detector_guess(d: &EncodingDetector, allow_utf8: bool) -> (name: String)
    ensures
        name@ == guessed_encoding(detector_input(*d), detector_closed(*d), allow_utf8),
{
    d.guess(None, allow_utf8).name().to_string()
}

/// `encoding_rs::Encoding::decode` with the encoding that `name` labels: the decoded text and
/// whether malformed sequences were replaced.
#[verifier::external_body]
fn decode_with_encoding(name: &str, bytes: &[u8]) -> (r: Option<(String, bool)>)
    ensures
        r matches Some(p) ==> decoded_with(name@, bytes@) == Some((p.0@, p.1)),
        r is None ==> decoded_with(name@, bytes@) is None,
{
    match encoding_rs::Encoding::for_label(name.as_bytes()) {
        Some(encoding) => {
            let (text, _, had_errors) = encoding.decode(bytes);
            Some((text.into_owned(), had_errors))
        },
        None => None,
    }
}

/// Byte-order marks that announce the encoding of a file.
pub open spec fn has_utf8_bom(b: Seq<u8>) -> bool {
    b.len() >= 3 && b[0] == 0xEF && b[1] == 0xBB && b[2] == 0xBF
}

pub open spec fn has_utf16le_bom(b: Seq<u8>) -> bool {
    b.len() >= 2 && b[0] == 0xFF && b[1] == 0xFE
}

pub open spec fn has_utf16be_bom(b: Seq<u8>) -> bool {
    b.len() >= 2 && b[0] == 0xFE && b[1] == 0xFF
}

/// The outcome of decoding UTF-16 bytes in the given byte order.
pub open spec fn utf16_outcome(bytes: Seq<u8>, little_endian: bool) -> Result<Seq<char>, Seq<char>> {
    if bytes.len() % 2 != 0 {
        Err("Failed to decode UTF-16 file with an incomplete code unit."@)
    } else {
        match utf16_decoded(units_of(bytes, little_endian)) {
            Some(t) => Ok(t),
            None => Err("Failed to decode UTF-16 file: "@ + utf16_error_text(
                units_of(bytes, little_endian),
            )),
        }
    }
}

/// The outcome of decoding a file's bytes: by its byte-order mark, else as UTF-8, else in the
/// encoding that chardetng guesses for the whole input.
pub open spec fn decode_outcome(b: Seq<u8>) -> Result<Seq<char>, Seq<char>> {
    if has_utf8_bom(b) {
        let rest = b.skip(3);
        if valid_utf8(rest) {
            Ok(decode_utf8(rest))
        } else {
            Err("Failed to decode UTF-8 file: "@ + utf8_error_text(rest))
        }
    } else if has_utf16le_bom(b) {
        utf16_outcome(b.skip(2), true)
    } else if has_utf16be_bom(b) {
        utf16_outcome(b.skip(2), false)
    } else if valid_utf8(b) {
        Ok(decode_utf8(b))
    } else {
        let name = guessed_encoding(b, true, true);
        match decoded_with(name, b) {
            Some((text, false)) => Ok(text),
            _ => Err("Failed to decode file using the detected "@ + name + " encoding."@),
        }
    }
}

/// Decodes UTF-16 bytes (without their byte-order mark) in the given byte order.
pub fn decode_utf16(bytes: &[u8], little_endian: bool) -> (r: Result<String, String>)
    ensures
        r matches Ok(t) ==> utf16_outcome(bytes@, little_endian) == Ok::<Seq<char>, Seq<char>>(t@),
        r matches Err(e) ==> utf16_outcome(bytes@, little_endian) == Err::<Seq<char>, Seq<char>>(e@),
{
    if bytes.len() % 2 != 0 {
        return Err(String::from_str("Failed to decode UTF-16 file with an incomplete code unit."));
    }
    let len = bytes.len();
    let n = len / 2;
    let mut units: Vec<u16> = Vec::new();
    let mut i: usize = 0;
    while i < n
        invariant
            n == bytes@.len() / 2,
            2 * n == bytes@.len(),
            len == bytes@.len(),
            i <= n,
            units@ == units_of(bytes@, little_endian).take(i as int),
        decreases n - i,
    {
        assert(2 * i + 1 < bytes@.len());
        let lo: u16;
        let hi: u16;
        if little_endian {
            lo = bytes[2 * i] as u16;
            hi = bytes[2 * i + 1] as u16;
        } else {
            lo = bytes[2 * i + 1] as u16;
            hi = bytes[2 * i] as u16;
        }
        let unit: u16 = lo + hi * 256;
        units.push(unit);
        assert(units_of(bytes@, little_endian).take(i + 1) =~= units_of(bytes@, little_endian).take(
            i as int,
        ).push(unit_at(bytes@, i as int, little_endian)));
        i += 1;
    }
    assert(units_of(bytes@, little_endian).take(n as int) =~= units_of(bytes@, little_endian));
    match string_from_utf16(units.as_slice()) {
        Ok(text) => Ok(text),
        Err(error) => Err(concat("Failed to decode UTF-16 file: ", error.as_str())),
    }
}

/// Turns the bytes of a Markdown file into its text.
pub fn decode_markdown(bytes: &[u8]) -> (r: Result<String, String>)
    ensures
        r matches Ok(t) ==> decode_outcome(bytes@) == Ok::<Seq<char>, Seq<char>>(t@),
        r matches Err(e) ==> decode_outcome(bytes@) == Err::<Seq<char>, Seq<char>>(e@),
{
    let len = bytes.len();
    if len >= 3 && bytes[0] == 0xEF && bytes[1] == 0xBB && bytes[2] == 0xBF {
        let rest = &bytes[3..len];
        assert(rest@ =~= bytes@.skip(3));
        return match str_from_utf8(rest) {
            Ok(text) => Ok(text),
            Err(error) => Err(concat("Failed to decode UTF-8 file: ", error.as_str())),
        };
    }
    if len >= 2 && bytes[0] == 0xFF && bytes[1] == 0xFE {
        let rest = &bytes[2..len];
        assert(rest@ =~= bytes@.skip(2));
        return decode_utf16(rest, true);
    }
    if len >= 2 && bytes[0] == 0xFE && bytes[1] == 0xFF {
        let rest = &bytes[2..len];
        assert(rest@ =~= bytes@.skip(2));
        return decode_utf16(rest, false);
    }
    if let Ok(text) = str_from_utf8(bytes) {
        return Ok(text);
    }
    let mut detector = detector_new();
    detector_feed(&mut detector, bytes, true);
    assert(detector_input(detector) =~= bytes@);
    let name = detector_guess(&detector, true);
    match decode_with_encoding(name.as_str(), bytes) {
        Some((text, false)) => Ok(text),
        _ => Err(concat3("Failed to decode file using the detected ", name.as_str(), " encoding.")),
    }
}

} // verus!
