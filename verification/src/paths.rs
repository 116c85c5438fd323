//! File paths as the documents see them: names, stems, extensions and derived paths.
//!
//! Paths are carried as UTF-8 strings. Splitting a path into components is left to
//! `std::path` (through the trusted items below); what the library decides from the
//! pieces is verified here.
use vstd::prelude::*;

use crate::text::{
    ascii_lower_seq, chars_of, concat, has_prefix, has_suffix, string_of, to_ascii_lowercase,
};

verus! {

/// What `std::path::Path::file_name` returns for the path `p`.
pub uninterp spec fn std_file_name(p: Seq<char>) -> Option<Seq<char>>;

/// What `std::path::Path::parent` returns for the path `p`.
pub uninterp spec fn std_parent(p: Seq<char>) -> Option<Seq<char>>;

/// What `std::path::Path::with_file_name(name)` returns for the path `p`.
pub uninterp spec fn std_with_file_name(p: Seq<char>, name: Seq<char>) -> Seq<char>;

/// What `std::path::Path::join(child)` returns for the path `p`.
pub uninterp spec fn std_join(p: Seq<char>, child: Seq<char>) -> Seq<char>;

/// Whether `std::path::Path` considers `a` and `b` the same path (component-wise equality).
pub uninterp spec fn std_same_path(a: Seq<char>, b: Seq<char>) -> bool;

/// What `url::Url::from_directory_path` gives for the directory `dir`, serialised.
pub uninterp spec fn directory_url(dir: Seq<char>) -> Option<Seq<char>>;

/// `std::path::Path::file_name`: the final component of `path`, unless it is `..` or absent.
#[verifier::external_body]
fn path_file_name(path: &str) -> (r: Option<String>)
    ensures
        r matches Some(n) ==> std_file_name(path@) == Some(n@),
        r is None ==> std_file_name(path@) is None,
{
    std::path::Path::new(path).file_name().and_then(|value| value.to_str()).map(|value| value.to_string())
}

/// `std::path::Path::parent`: `path` without its final component, if it has one.
#[verifier::external_body]
fn path_parent(path: &str) -> (r: Option<String>)
    ensures
        r matches Some(n) ==> std_parent(path@) == Some(n@),
        r is None ==> std_parent(path@) is None,
{
    std::path::Path::new(path).parent().and_then(|value| value.to_str()).map(|value| value.to_string())
}

/// `std::path::Path::with_file_name`: `path` with its final component replaced by `name`.
#[verifier::external_body]
fn path_with_file_name(path: &str, name: &str) -> (r: String)
    ensures
        r@ == std_with_file_name(path@, name@),
{
    std::path::Path::new(path).with_file_name(name).to_string_lossy().into_owned()
}

/// `PartialEq` of `std::path::Path`: equal when the components are equal, so in particular
/// when the two strings are.
#[verifier::external_body]
pub(crate) fn same_path(a: &str, b: &str) -> (r: bool)
    ensures
        r == std_same_path(a@, b@),
        a@ == b@ ==> r,
{
    std::path::Path::new(a) == std::path::Path::new(b)
}

/// `std::path::Path::join`: `child` appended to `path` as a further component.
#[verifier::external_body]
pub(crate) fn path_join(path: &str, child: &str) -> (r: String)
    ensures
        r@ == std_join(path@, child@),
{
    std::path::Path::new(path).join(child).to_string_lossy().into_owned()
}

/// `url::Url::from_directory_path`: the `file:` URL of a directory, with a trailing slash.
/// The outside source refuses relative paths; which paths those are depends on the platform
/// and is not stated here, nor how the URL percent-encodes the components.
#[verifier::external_body]
fn url_from_directory_path(dir: &str) -> (r: Option<String>)
    ensures
        r matches Some(u) ==> directory_url(dir@) == Some(u@) && has_suffix(u@, seq!['/']),
        r is None ==> directory_url(dir@) is None,
{
    url::Url::from_directory_path(std::path::Path::new(dir)).ok().map(|url| url.to_string())
}

/// The `file:` URL of the directory `dir`.
pub fn directory_url_of(dir: &str) -> (r: Option<String>)
    ensures
        r matches Some(u) ==> directory_url(dir@) == Some(u@),
        r is None ==> directory_url(dir@) is None,
{
    url_from_directory_path(dir)
}

/// The final component of `path`.
pub fn file_name(path: &str) -> (r: Option<String>)
    ensures
        r matches Some(n) ==> std_file_name(path@) == Some(n@),
        r is None ==> std_file_name(path@) is None,
{
    path_file_name(path)
}

/// The directory that holds `path`.
pub fn parent(path: &str) -> (r: Option<String>)
    ensures
        r matches Some(n) ==> std_parent(path@) == Some(n@),
        r is None ==> std_parent(path@) is None,
{
    path_parent(path)
}

// ---------------------------------------------------------------------------
// Stem and extension of a file name

/// The position of the last `.` in `s`, if any.
pub open spec fn last_dot(s: Seq<char>) -> Option<int> {
    if exists|i: int| 0 <= i < s.len() && s[i] == '.' {
        Some(choose|i: int| 0 <= i < s.len() && s[i] == '.' && forall|j: int| i < j < s.len() ==> s[j] != '.')
    } else {
        None
    }
}

/// Splits a file name at its last dot into the part before and the part after, the way
/// `std::path` does: a name without a dot, a name whose only dot leads it, and `..`, have no
/// extension.
pub open spec fn split_at_dot(name: Seq<char>) -> (Option<Seq<char>>, Option<Seq<char>>) {
    if name == seq!['.', '.'] {
        (Some(name), None)
    } else {
        match last_dot(name) {
            None => (None, Some(name)),
            Some(i) => if i == 0 {
                (Some(name), None)
            } else {
                (Some(name.take(i)), Some(name.skip(i + 1)))
            },
        }
    }
}

/// `Path::file_stem`: the file name without its extension.
pub open spec fn stem_of(path: Seq<char>) -> Option<Seq<char>> {
    match std_file_name(path) {
        None => None,
        Some(n) => {
            let (before, after) = split_at_dot(n);
            if before is Some {
                before
            } else {
                after
            }
        },
    }
}

/// `Path::extension`: the part of the file name after its last dot.
pub open spec fn extension_of(path: Seq<char>) -> Option<Seq<char>> {
    match std_file_name(path) {
        None => None,
        Some(n) => {
            let (before, after) = split_at_dot(n);
            if before is Some {
                after
            } else {
                None
            }
        },
    }
}

fn find_last_dot(v: &Vec<char>) -> (r: Option<usize>)
    ensures
        r matches Some(i) ==> last_dot(v@) == Some(i as int) && i < v@.len(),
        r is None ==> last_dot(v@) is None,
{
    let mut i: usize = v.len();
    while i > 0
        invariant
            i <= v.len(),
            forall|j: int| i <= j < v.len() ==> v@[j] != '.',
        decreases i,
    {
        if v[i - 1] == '.' {
            let k = i - 1;
            assert(exists|i: int| 0 <= i < v@.len() && v@[i] == '.');
            let ghost c = choose|i: int| 0 <= i < v@.len() && v@[i] == '.' && forall|j: int| i < j < v@.len() ==> v@[j] != '.';
            assert(0 <= k < v@.len() && v@[k as int] == '.' && forall|j: int| k < j < v@.len() ==> v@[j] != '.');
            assert(c == k as int) by {
                if c < k {
                    assert(v@[k as int] != '.');
                }
                if c > k {
                    assert(v@[c] != '.');
                }
            }
            return Some(k);
        }
        i -= 1;
    }
    None
}

fn split_name(name: &str) -> (r: (Option<String>, Option<String>))
    ensures
        r.0 matches Some(b) ==> split_at_dot(name@).0 == Some(b@),
        r.0 is None ==> split_at_dot(name@).0 is None,
        r.1 matches Some(a) ==> split_at_dot(name@).1 == Some(a@),
        r.1 is None ==> split_at_dot(name@).1 is None,
{
    let v = chars_of(name);
    if v.len() == 2 && v[0] == '.' && v[1] == '.' {
        assert(name@ =~= seq!['.', '.']);
        return (Some(name.to_owned()), None);
    }
    assert(name@ != seq!['.', '.']) by {
        if name@ == seq!['.', '.'] {
            assert(v@.len() == 2 && v@[0] == '.' && v@[1] == '.');
        }
    }
    match find_last_dot(&v) {
        None => (None, Some(name.to_owned())),
        Some(i) => {
            if i == 0 {
                (Some(name.to_owned()), None)
            } else {
                let before = string_of(&v.as_slice()[0..i]);
                let after = string_of(&v.as_slice()[i + 1..v.len()]);
                assert(v@.subrange(0, i as int) =~= name@.take(i as int));
                assert(v@.subrange(i + 1, v@.len() as int) =~= name@.skip(i + 1));
                (Some(before), Some(after))
            }
        },
    }
}

/// `Path::file_stem`.
pub fn file_stem(path: &str) -> (r: Option<String>)
    ensures
        r matches Some(s) ==> stem_of(path@) == Some(s@),
        r is None ==> stem_of(path@) is None,
{
    match file_name(path) {
        None => None,
        Some(n) => {
            let (before, after) = split_name(n.as_str());
            match before {
                Some(b) => Some(b),
                None => after,
            }
        },
    }
}

/// `Path::extension`.
pub fn extension(path: &str) -> (r: Option<String>)
    ensures
        r matches Some(s) ==> extension_of(path@) == Some(s@),
        r is None ==> extension_of(path@) is None,
{
    match file_name(path) {
        None => None,
        Some(n) => {
            let (before, after) = split_name(n.as_str());
            match before {
                Some(_) => after,
                None => None,
            }
        },
    }
}

// ---------------------------------------------------------------------------
// Suggested export paths

/// The stem under which an export of the document at `path` is named: the file stem, else the
/// file name, else `document`.
pub open spec fn export_stem(path: Seq<char>) -> Seq<char> {
    match stem_of(path) {
        Some(s) if s.len() > 0 => s,
        _ => match std_file_name(path) {
            Some(n) if n.len() > 0 => n,
            _ => "document"@,
        },
    }
}

/// Where a PDF export of the document at `path` is suggested to go.
pub open spec fn pdf_export_path_of(path: Seq<char>) -> Seq<char> {
    std_with_file_name(path, export_stem(path) + ".pdf"@)
}

/// Where an HTML export of the document at `path` is suggested to go.
pub open spec fn html_export_path_of(path: Seq<char>) -> Seq<char> {
    std_with_file_name(path, export_stem(path) + ".html"@)
}

fn export_stem_of(path: &str) -> (r: String)
    ensures
        r@ == export_stem(path@),
{
    if let Some(stem) = file_stem(path) {
        if stem.as_str().unicode_len() > 0 {
            return stem;
        }
    }
    if let Some(name) = file_name(path) {
        if name.as_str().unicode_len() > 0 {
            return name;
        }
    }
    String::from_str("document")
}

/// Where a PDF export of the document at `path` is suggested to go: beside it, under its
/// stem with the extension `pdf`.
pub fn suggested_pdf_export_path(path: &str) -> (r: String)
    ensures
        r@ == pdf_export_path_of(path@),
{
    let stem = export_stem_of(path);
    let name = concat(stem.as_str(), ".pdf");
    path_with_file_name(path, name.as_str())
}

/// Where an HTML export of the document at `path` is suggested to go: beside it, under its
/// stem with the extension `html`.
pub fn suggested_html_export_path(path: &str) -> (r: String)
    ensures
        r@ == html_export_path_of(path@),
{
    let stem = export_stem_of(path);
    let name = concat(stem.as_str(), ".html");
    path_with_file_name(path, name.as_str())
}

} // verus!
