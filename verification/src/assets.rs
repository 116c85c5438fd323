//! Which local files a document's page may load: the files below the directory of the
//! document, named by a relative path, served with a content type chosen by extension.
use vstd::prelude::*;
use vstd::utf8::{decode_utf8, encode_utf8, valid_utf8};
use std::collections::HashMap;

use crate::paths::{extension, extension_of, parent, path_join, std_join, std_parent};
use crate::text::{ascii_lower_seq, chars_of, string_of, has_suffix, str_eq, to_ascii_lowercase, ends_with, concat3, u64_to_string, decimal, has_prefix, starts_with};

verus! {

broadcast use vstd::std_specs::hash::group_hash_axioms;

/// How a read of a local asset failed.
#[derive(Clone, Copy, Debug, PartialEq, Eq, Structural)]
pub enum AssetIoError {
    NotFound,
    Other,
}

/// Why a local asset is not served.
#[derive(Clone, Copy, Debug, PartialEq, Eq, Structural)]
pub enum AssetAccessError {
    /// The path leaves the directory of the document.
    Forbidden,
    /// No directory is registered for the document.
    UnknownDocument,
    /// The registry could not be consulted.
    Unavailable,
    /// The file system refused.
    Io(AssetIoError),
}

/// The HTTP status with which a refusal is answered.
pub open spec fn status_of(e: AssetAccessError) -> u16 {
    match e {
        AssetAccessError::Forbidden => 403,
        AssetAccessError::UnknownDocument => 403,
        AssetAccessError::Unavailable => 503,
        AssetAccessError::Io(AssetIoError::NotFound) => 404,
        AssetAccessError::Io(AssetIoError::Other) => 500,
    }
}

impl AssetAccessError {
    /// The HTTP status with which the refusal is answered.
    pub fn status_code(&self) -> (r: u16)
        ensures
            r == status_of(*self),
    {
        match self {
            AssetAccessError::Forbidden | AssetAccessError::UnknownDocument => 403,
            AssetAccessError::Unavailable => 503,
            AssetAccessError::Io(AssetIoError::NotFound) => 404,
            AssetAccessError::Io(AssetIoError::Other) => 500,
        }
    }
}

/// The kind of a component of a path, as `std::path::Component` tells them apart.
#[derive(Clone, Copy, Debug, PartialEq, Eq, Structural)]
pub enum PathComponentKind {
    /// A Windows prefix such as `C:`.
    Prefix,
    /// The root, `/` (or `\\` on Windows).
    RootDir,
    /// `.`
    CurDir,
    /// `..`
    ParentDir,
    /// A name.
    Normal,
}

/// The kinds of the components of the path `p`, as `std::path::Path::components` gives them
/// on the platform the library runs on.
pub uninterp spec fn std_component_kinds(p: Seq<char>) -> Seq<PathComponentKind>;

/// `std::path::Path::components`, each component told by its kind: the kinds of the
/// components of `p`, in order. Which they are, is named, not stated.
#[verifier::external_body]
fn path_component_kinds(p: &str) -> (r: Vec<PathComponentKind>)
    ensures
        r@ == std_component_kinds(p@),
{
    std::path::Path::new(p).components().map(|component| match component {
        std::path::Component::Prefix(_) => PathComponentKind::Prefix,
        std::path::Component::RootDir => PathComponentKind::RootDir,
        std::path::Component::CurDir => PathComponentKind::CurDir,
        std::path::Component::ParentDir => PathComponentKind::ParentDir,
        std::path::Component::Normal(_) => PathComponentKind::Normal,
    }).collect()
}

/// Whether a component of this kind leaves the directory it is read in: a root, a prefix or
/// `..`.
pub open spec fn leaves_directory(k: PathComponentKind) -> bool {
    k is ParentDir || k is RootDir || k is Prefix
}

/// A relative asset path that the registry refuses: empty, or with a component that leaves the
/// directory (a root or prefix, which an absolute path has, or `..`).
pub open spec fn escapes_directory(p: Seq<char>) -> bool {
    p.len() == 0 || exists|i: int|
        0 <= i < std_component_kinds(p).len() && leaves_directory(
            #[trigger] std_component_kinds(p)[i],
        )
}

/// Whether the relative asset path `p` is refused.
pub fn is_escaping_path(p: &str) -> (r: bool)
    ensures
        r == escapes_directory(p@),
{
    if p.is_empty() {
        return true;
    }
    let kinds = path_component_kinds(p);
    let mut i: usize = 0;
    while i < kinds.len()
        invariant
            kinds@ == std_component_kinds(p@),
            i <= kinds.len(),
            forall|j: int| 0 <= j < i ==> !leaves_directory(#[trigger] kinds@[j]),
        decreases kinds.len() - i,
    {
        let leaves = match kinds[i] {
            PathComponentKind::ParentDir | PathComponentKind::RootDir | PathComponentKind::Prefix => true,
            _ => false,
        };
        if leaves {
            assert(leaves_directory(kinds@[i as int]));
            return true;
        }
        i += 1;
    }
    false
}

/// Whether `std::path::Path::starts_with` holds: the components of `base` begin those of `p`.
pub uninterp spec fn std_starts_with(p: Seq<char>, base: Seq<char>) -> bool;

/// `std::path::Path::starts_with`: whether the components of `base` begin those of `path`.
#[verifier::external_body]
fn path_starts_with(path: &str, base: &str) -> (r: bool)
    ensures
        r == std_starts_with(path@, base@),
{
    std::path::Path::new(path).starts_with(base)
}

/// The directories below which each document may load assets.
pub struct AssetRegistry {
    roots: HashMap<u64, String>,
}

impl View for AssetRegistry {
    type V = Map<u64, Seq<char>>;

    closed spec fn view(&self) -> Map<u64, Seq<char>> {
        self.roots@.map_values(|s: String| s@)
    }
}

/// The directory of the document at `path`, from which its assets are served once the file
/// system has resolved it.
pub fn asset_root_directory(path: &str) -> (r: Result<String, String>)
    ensures
        std_parent(path@) matches Some(d) ==> (r matches Ok(s) && s@ == d),
        std_parent(path@) is None ==> (r matches Err(e)
            && e@ == "Document path does not have a parent directory."@),
{
    match parent(path) {
        Some(d) => Ok(d),
        None => Err(String::from_str("Document path does not have a parent directory.")),
    }
}

/// What `resolve_asset` asks the file system to resolve, under which registered directory.
pub open spec fn asset_target(
    registry: Map<u64, Seq<char>>,
    document_id: u64,
    relative: Seq<char>,
) -> Result<(Seq<char>, Seq<char>), AssetAccessError> {
    if !registry.contains_key(document_id) {
        Err(AssetAccessError::UnknownDocument)
    } else if escapes_directory(relative) {
        Err(AssetAccessError::Forbidden)
    } else {
        Ok((registry[document_id], std_join(registry[document_id], relative)))
    }
}

/// A registry with no document.
pub fn new_registry() -> (r: AssetRegistry)
    ensures
        r@ == Map::<u64, Seq<char>>::empty(),
{
    let r = AssetRegistry { roots: HashMap::new() };
    assert(r@ =~= Map::<u64, Seq<char>>::empty());
    r
}

/// Lets the document `document_id` load assets below `root`, the resolved directory of its
/// file (see `asset_root_directory`).
pub fn register_document(registry: &mut AssetRegistry, document_id: u64, root: String)
    ensures
        final(registry)@ == old(registry)@.insert(document_id, root@),
{
    registry.roots.insert(document_id, root);
    assert(registry@ =~= old(registry)@.insert(document_id, root@));
}

/// Forgets the directory of the document `document_id`.
pub fn unregister_document(registry: &mut AssetRegistry, document_id: u64)
    ensures
        final(registry)@ == old(registry)@.remove(document_id),
{
    registry.roots.remove(&document_id);
    assert(registry@ =~= old(registry)@.remove(document_id));
}

impl AssetRegistry {
    /// The directory registered for the document `document_id`.
    pub fn root_of(&self, document_id: u64) -> (r: Option<String>)
        ensures
            self@.contains_key(document_id) ==> (r matches Some(s) && s@ == self@[document_id]),
            !self@.contains_key(document_id) ==> r is None,
    {
        match self.roots.get(&document_id) {
            Some(s) => Some(s.clone()),
            None => None,
        }
    }

    /// The first step of serving `relative` for the document `document_id`: the registered
    /// directory and the path below it that the file system is to resolve.
    pub fn asset_request_target(&self, document_id: u64, relative: &str) -> (r: Result<
        (String, String),
        AssetAccessError,
    >)
        ensures
            r matches Ok(p) ==> asset_target(self@, document_id, relative@) == Ok::<
                (Seq<char>, Seq<char>),
                AssetAccessError,
            >((p.0@, p.1@)),
            r matches Err(e) ==> asset_target(self@, document_id, relative@) == Err::<
                (Seq<char>, Seq<char>),
                AssetAccessError,
            >(e),
    {
        let root = match self.root_of(document_id) {
            Some(r) => r,
            None => {
                return Err(AssetAccessError::UnknownDocument);
            },
        };
        if is_escaping_path(relative) {
            return Err(AssetAccessError::Forbidden);
        }
        let joined = path_join(root.as_str(), relative);
        Ok((root, joined))
    }
}

/// A document whose directory was forgotten is refused every asset.
pub proof fn law_forgotten_document_is_refused(
    registry: Map<u64, Seq<char>>,
    document_id: u64,
    relative: Seq<char>,
)
    ensures
        asset_target(registry.remove(document_id), document_id, relative) == Err::<
            (Seq<char>, Seq<char>),
            AssetAccessError,
        >(AssetAccessError::UnknownDocument),
{
}

/// Once a document's directory `root` is registered, a relative path that stays below it is
/// looked up under `root`, and any other path is forbidden.
pub proof fn law_registered_document_target(
    registry: Map<u64, Seq<char>>,
    document_id: u64,
    root: Seq<char>,
    relative: Seq<char>,
)
    ensures
        asset_target(registry.insert(document_id, root), document_id, relative) == (if escapes_directory(
            relative,
        ) {
            Err::<(Seq<char>, Seq<char>), AssetAccessError>(AssetAccessError::Forbidden)
        } else {
            Ok::<(Seq<char>, Seq<char>), AssetAccessError>((root, std_join(root, relative)))
        }),
{
}

/// The second step of serving an asset: the file system resolved the requested path to
/// `resolved`, which must still lie below `root`.
pub fn confine_to_root(resolved: String, root: &str) -> (r: Result<String, AssetAccessError>)
    ensures
        std_starts_with(resolved@, root@) ==> (r matches Ok(p) && p@ == resolved@),
        !std_starts_with(resolved@, root@) ==> r == Err::<String, AssetAccessError>(
            AssetAccessError::Forbidden,
        ),
{
    if path_starts_with(resolved.as_str(), root) {
        Ok(resolved)
    } else {
        Err(AssetAccessError::Forbidden)
    }
}

// ---------------------------------------------------------------------------
// Content types and Markdown links

/// The content type under which an asset is served, by its lower-cased extension.
pub open spec fn content_type_of(path: Seq<char>) -> Seq<char> {
    match extension_of(path) {
        Some(e) => {
            let x = ascii_lower_seq(e);
            if x == "png"@ {
                "image/png"@
            } else if x == "jpg"@ || x == "jpeg"@ {
                "image/jpeg"@
            } else if x == "gif"@ {
                "image/gif"@
            } else if x == "webp"@ {
                "image/webp"@
            } else if x == "svg"@ {
                "image/svg+xml"@
            } else if x == "css"@ {
                "text/css; charset=utf-8"@
            } else if x == "js"@ {
                "application/javascript; charset=utf-8"@
            } else {
                "application/octet-stream"@
            }
        },
        None => "application/octet-stream"@,
    }
}

/// The content type under which the asset at `path` is served.
pub fn local_asset_content_type(path: &str) -> (r: &'static str)
    ensures
        r@ == content_type_of(path@),
{
    match extension(path) {
        Some(e) => {
            let lower = to_ascii_lowercase(e.as_str());
            let x = lower.as_str();
            if str_eq(x, "png") {
                "image/png"
            } else if str_eq(x, "jpg") || str_eq(x, "jpeg") {
                "image/jpeg"
            } else if str_eq(x, "gif") {
                "image/gif"
            } else if str_eq(x, "webp") {
                "image/webp"
            } else if str_eq(x, "svg") {
                "image/svg+xml"
            } else if str_eq(x, "css") {
                "text/css; charset=utf-8"
            } else if str_eq(x, "js") {
                "application/javascript; charset=utf-8"
            } else {
                "application/octet-stream"
            }
        },
        None => "application/octet-stream",
    }
}

/// Whether a link target names a Markdown file: it ends in `.md` or `.markdown`, in any case.
pub open spec fn names_markdown(value: Seq<char>) -> bool {
    has_suffix(ascii_lower_seq(value), ".md"@) || has_suffix(ascii_lower_seq(value), ".markdown"@)
}

/// Whether a link target names a Markdown file.
pub fn is_markdown_path(value: &str) -> (r: bool)
    ensures
        r == names_markdown(value@),
{
    let lower = to_ascii_lowercase(value);
    ends_with(lower.as_str(), ".md") || ends_with(lower.as_str(), ".markdown")
}

// ---------------------------------------------------------------------------
// Asset URLs of the form markhola-file://asset/<document>/<relative path>

/// The value of a hexadecimal digit.
pub open spec fn hex_value(b: u8) -> Option<u8> {
    if 0x30 <= b && b <= 0x39 {
        Some((b - 0x30) as u8)
    } else if 0x61 <= b && b <= 0x66 {
        Some((b - 0x61 + 10) as u8)
    } else if 0x41 <= b && b <= 0x46 {
        Some((b - 0x41 + 10) as u8)
    } else {
        None
    }
}

/// Percent-decoding: `%` and two hexadecimal digits stand for one byte; everything else
/// stands for itself.
pub open spec fn percent_decoded(b: Seq<u8>) -> Seq<u8>
    decreases b.len(),
{
    if b.len() == 0 {
        b
    } else if b[0] == 0x25 && b.len() >= 3 && hex_value(b[1]) is Some && hex_value(b[2]) is Some {
        seq![(hex_value(b[1])->0 * 16 + hex_value(b[2])->0) as u8] + percent_decoded(b.skip(3))
    } else {
        seq![b[0]] + percent_decoded(b.skip(1))
    }
}

/// `percent_encoding::percent_decode_str(..).decode_utf8()`: the percent-decoded bytes of `s`
/// as text, where they are valid UTF-8.
#[verifier::external_body]
fn percent_decode_utf8(s: &str) -> (r: Option<String>)
    ensures
        r is Some <==> valid_utf8(percent_decoded(encode_utf8(s@))),
        r matches Some(t) ==> t@ == decode_utf8(percent_decoded(encode_utf8(s@))),
{
    percent_encoding::percent_decode_str(s).decode_utf8().ok().map(|text| text.into_owned())
}

/// The value of a decimal digit character.
pub open spec fn digit_value(c: char) -> int {
    c as int - '0' as int
}

/// The number that the decimal digits `s` denote.
pub open spec fn digits_value(s: Seq<char>) -> int
    decreases s.len(),
{
    if s.len() == 0 {
        0
    } else {
        10 * digits_value(s.drop_last()) + digit_value(s.last())
    }
}

/// Whether `s` is a non-empty run of decimal digits.
pub open spec fn all_digits(s: Seq<char>) -> bool {
    s.len() > 0 && forall|i: int| 0 <= i < s.len() ==> '0' <= #[trigger] s[i] && s[i] <= '9'
}

/// `u64::from_str`: an optional `+`, then decimal digits whose value fits in 64 bits.
pub open spec fn parsed_u64(s: Seq<char>) -> Option<u64> {
    let digits = if s.len() > 0 && s[0] == '+' {
        s.skip(1)
    } else {
        s
    };
    if all_digits(digits) && digits_value(digits) <= u64::MAX {
        Some(digits_value(digits) as u64)
    } else {
        None
    }
}

proof fn lemma_digits_value_nonneg(s: Seq<char>)
    requires
        forall|i: int| 0 <= i < s.len() ==> '0' <= #[trigger] s[i] && s[i] <= '9',
    ensures
        digits_value(s) >= 0,
    decreases s.len(),
{
    if s.len() > 0 {
        lemma_digits_value_nonneg(s.drop_last());
    }
}

/// Parses a document number the way `u64::from_str` does.
pub fn parse_u64(s: &str) -> (r: Option<u64>)
    ensures
        r == parsed_u64(s@),
{
    let v = chars_of(s);
    let start: usize = if v.len() > 0 && v[0] == '+' {
        1
    } else {
        0
    };
    let ghost digits = if s@.len() > 0 && s@[0] == '+' {
        s@.skip(1)
    } else {
        s@
    };
    assert(digits =~= s@.skip(start as int));
    if start >= v.len() {
        return None;
    }
    let mut value: u64 = 0;
    let mut i: usize = start;
    while i < v.len()
        invariant
            v@ == s@,
            start <= i <= v.len(),
            start < v.len(),
            digits =~= s@.skip(start as int),
            digits == (if s@.len() > 0 && s@[0] == '+' {
                s@.skip(1)
            } else {
                s@
            }),
            forall|j: int| start <= j < i ==> '0' <= #[trigger] s@[j] && s@[j] <= '9',
            value as int == digits_value(s@.subrange(start as int, i as int)),
        decreases v.len() - i,
    {
        let c = v[i];
        if !('0' <= c && c <= '9') {
            assert(digits[i - start] == c);
            assert(!all_digits(digits));
            return None;
        }
        let d: u64 = (c as u32 - '0' as u32) as u64;
        assert(s@.subrange(start as int, i + 1).drop_last() =~= s@.subrange(start as int, i as int));
        if value > (u64::MAX - d) / 10 {
            proof {
                assert forall|j: int| 0 <= j < s@.subrange(start as int, i + 1).len() implies '0'
                    <= #[trigger] s@.subrange(start as int, i + 1)[j] && s@.subrange(
                    start as int,
                    i + 1,
                )[j] <= '9' by {
                    assert(s@.subrange(start as int, i + 1)[j] == s@[start + j]);
                }
                // the value of the digits read so far already exceeds the largest number
                assert(digits_value(s@.subrange(start as int, i + 1)) > u64::MAX) by (nonlinear_arith)
                    requires
                        digits_value(s@.subrange(start as int, i + 1)) == 10 * (value as int) + d,
                        value > (u64::MAX - d) / 10,
                        d <= 9,
                ;
                assert(s@.subrange(start as int, i + 1) =~= digits.take(i + 1 - start));
                if all_digits(digits) {
                    lemma_prefix_value_le(digits, (i + 1 - start) as int);
                }
            }
            return None;
        }
        value = value * 10 + d;
        i += 1;
    }
    assert(s@.subrange(start as int, v.len() as int) =~= digits);
    Some(value)
}

/// A run of digits is worth at least as much as any of its prefixes.
proof fn lemma_prefix_value_le(s: Seq<char>, k: int)
    requires
        0 <= k <= s.len(),
        forall|i: int| 0 <= i < s.len() ==> '0' <= #[trigger] s[i] && s[i] <= '9',
    ensures
        digits_value(s.take(k)) <= digits_value(s),
    decreases s.len(),
{
    if k == s.len() {
        assert(s.take(k) =~= s);
    } else {
        let d = s.drop_last();
        assert(d.take(k) =~= s.take(k));
        lemma_prefix_value_le(d, k);
        lemma_digits_value_nonneg(d);
    }
}

/// The characters of `s` before its first `/`.
pub open spec fn first_segment(s: Seq<char>) -> Seq<char>
    decreases s.len(),
{
    if s.len() == 0 || s[0] == '/' {
        Seq::empty()
    } else {
        seq![s[0]] + first_segment(s.skip(1))
    }
}

/// Where an asset request is answered: the document number and the relative path it asks
/// for, or the HTTP status of its refusal.
pub open spec fn asset_route_of(host: Option<Seq<char>>, path: Seq<char>) -> Result<(u64, Seq<char>), u16> {
    if host != Some("asset"@) || !(path.len() > 0 && path[0] == '/') {
        Err(403)
    } else {
        let rest = path.skip(1);
        let segment = first_segment(rest);
        match parsed_u64(segment) {
            None => Err(403),
            Some(id) => {
                let prefix = "/"@ + decimal(id as nat) + "/"@;
                let raw = if has_prefix(path, prefix) {
                    path.skip(prefix.len() as int)
                } else {
                    Seq::empty()
                };
                let bytes = percent_decoded(encode_utf8(raw));
                if valid_utf8(bytes) {
                    Ok((id, decode_utf8(bytes)))
                } else {
                    Err(400)
                }
            },
        }
    }
}

/// The host of a URL as text, where it has one.
pub open spec fn host_view(host: Option<&str>) -> Option<Seq<char>> {
    match host {
        Some(h) => Some(h@),
        None => None,
    }
}

proof fn lemma_first_segment(s: Seq<char>, k: int)
    requires
        0 <= k <= s.len(),
        forall|j: int| 0 <= j < k ==> s[j] != '/',
        k == s.len() || s[k] == '/',
    ensures
        first_segment(s) =~= s.take(k),
    decreases k,
{
    if k > 0 {
        let t = s.skip(1);
        assert forall|j: int| 0 <= j < k - 1 implies t[j] != '/' by {
            assert(t[j] == s[j + 1]);
        }
        lemma_first_segment(t, k - 1);
        assert(seq![s[0]] + t.take(k - 1) =~= s.take(k));
    }
}

/// Where a request for `markhola-file://asset/<document>/<relative path>` is answered, from
/// the host and the path of its URL: the document number and the percent-decoded relative
/// path, or the HTTP status of the refusal.
pub fn asset_route(host: Option<&str>, path: &str) -> (r: Result<(u64, String), u16>)
    ensures
        r matches Ok(p) ==> asset_route_of(host_view(host), path@) == Ok::<(u64, Seq<char>), u16>(
            (p.0, p.1@),
        ),
        r matches Err(c) ==> asset_route_of(host_view(host), path@) == Err::<
            (u64, Seq<char>),
            u16,
        >(c),
{
    let is_asset = match host {
        Some(h) => str_eq(h, "asset"),
        None => false,
    };
    let v = chars_of(path);
    if !is_asset || !(v.len() > 0 && v[0] == '/') {
        return Err(403);
    }
    let mut k: usize = 1;
    while k < v.len() && v[k] != '/'
        invariant
            1 <= k <= v.len(),
            v@ == path@,
            forall|j: int| 1 <= j < k ==> v@[j] != '/',
        decreases v.len() - k,
    {
        k += 1;
    }
    let segment = string_of(&v.as_slice()[1..k]);
    proof {
        let rest = path@.skip(1);
        assert forall|j: int| 0 <= j < k - 1 implies rest[j] != '/' by {
            assert(rest[j] == v@[j + 1]);
        }
        lemma_first_segment(rest, k - 1);
        assert(segment@ =~= rest.take(k - 1));
    }
    let id = match parse_u64(segment.as_str()) {
        Some(id) => id,
        None => {
            return Err(403);
        },
    };
    let digits = u64_to_string(id);
    let prefix = concat3("/", digits.as_str(), "/");
    let pv = chars_of(prefix.as_str());
    let raw: String = if starts_with(path, prefix.as_str()) {
        string_of(&v.as_slice()[pv.len()..v.len()])
    } else {
        String::new()
    };
    proof {
        if has_prefix(path@, prefix@) {
            assert(raw@ =~= path@.skip(prefix@.len() as int));
        } else {
            assert(raw@ =~= Seq::<char>::empty());
        }
    }
    match percent_decode_utf8(raw.as_str()) {
        Some(t) => Ok((id, t)),
        None => Err(400),
    }
}


/// The host of a URL as owned text, where it has one.
pub open spec fn owned_host_view(host: Option<String>) -> Option<Seq<char>> {
    match host {
        Some(h) => Some(h@),
        None => None,
    }
}

/// What `url::Url::parse(uri)` gives, where `uri` parses as a URL: its host as
/// `url::Url::host_str` gives it, and its path as `url::Url::path` gives it.
pub uninterp spec fn url_host_and_path_of(uri: Seq<char>) -> Option<(Option<Seq<char>>, Seq<char>)>;

/// `url::Url::parse` and then `url::Url::host_str` and `url::Url::path`: the host and the path
/// of the URL `uri`, or `None` where `uri` is no URL. Which host and path, is named, not stated.
#[verifier::external_body]
fn url_host_and_path(uri: &str) -> (r: Option<(Option<String>, String)>)
    ensures
        r is None <==> url_host_and_path_of(uri@) is None,
        r matches Some(parts) ==> url_host_and_path_of(uri@) == Some(
            (owned_host_view(parts.0), parts.1@),
        ),
{
    url::Url::parse(uri).ok().map(|url| (url.host_str().map(|h| h.to_string()), url.path().to_string()))
}

/// Where the request for the URL `uri` is answered: `None` where `uri` is no URL; otherwise
/// what `asset_route` answers for the host and the path of the URL.
pub fn asset_request_route(uri: &str) -> (r: Option<Result<(u64, String), u16>>)
    ensures
        r is None <==> url_host_and_path_of(uri@) is None,
        r matches Some(Ok(p)) ==> url_host_and_path_of(uri@) matches Some(parts) && asset_route_of(
            parts.0,
            parts.1,
        ) == Ok::<(u64, Seq<char>), u16>((p.0, p.1@)),
        r matches Some(Err(c)) ==> url_host_and_path_of(uri@) matches Some(parts) && asset_route_of(
            parts.0,
            parts.1,
        ) == Err::<(u64, Seq<char>), u16>(c),
{
    match url_host_and_path(uri) {
        None => None,
        Some((host, path)) => match &host {
            Some(h) => Some(asset_route(Some(h.as_str()), path.as_str())),
            None => Some(asset_route(None, path.as_str())),
        },
    }
}

} // verus!
