//! Which navigations the page may make, and which files the system asks the application
//! to open by URL.
use vstd::prelude::*;

use crate::assets::{is_markdown_path, names_markdown};
use crate::text::{ascii_lower, ascii_lower_seq, chars_of, has_prefix, has_suffix, starts_with, str_eq, string_of};

verus! {

/// What `url::Url::parse(text)` gives as the scheme, where `text` parses as a URL.
pub uninterp spec fn url_scheme(text: Seq<char>) -> Option<Seq<char>>;

/// What `url::Url::to_file_path` gives for the URL `text`, as text, where `text` parses as a
/// URL that names a local file by a path that is text.
pub uninterp spec fn url_file_path(text: Seq<char>) -> Option<Seq<char>>;

/// `url::Url::parse` and then `url::Url::scheme`: the scheme of the URL `text`, or `None`
/// where `text` is no URL. What the scheme is, is named, not stated.
#[verifier::external_body]
fn scheme_of(text: &str) -> (r: Option<String>)
    ensures
        r matches Some(s) ==> url_scheme(text@) == Some(s@),
        r is None ==> url_scheme(text@) is None,
{
    url::Url::parse(text).ok().map(|url| url.scheme().to_string())
}

/// `url::Url::parse` and then `url::Url::to_file_path`: the local path that the URL `text`
/// names, or `None` where `text` is no URL, names no local file, or names one by a path that
/// is not text. Which path, is named, not stated.
#[verifier::external_body]
fn file_path_of(text: &str) -> (r: Option<String>)
    ensures
        r matches Some(p) ==> url_file_path(text@) == Some(p@),
        r is None ==> url_file_path(text@) is None,
{
    url::Url::parse(text).ok().and_then(|url| url.to_file_path().ok()).and_then(
        |path| path.to_str().map(|value| value.to_string()),
    )
}

/// Whether the page is let to navigate, and if not, which file it asked to open instead.
pub enum NavigationDecision {
    Allow,
    Block { open: Option<String> },
}

/// The characters of `s` before its first `?`.
pub open spec fn before_query(s: Seq<char>) -> Seq<char>
    decreases s.len(),
{
    if s.len() == 0 || s[0] == '?' {
        Seq::empty()
    } else {
        seq![s[0]] + before_query(s.skip(1))
    }
}

/// The path that a `file://` URL names when read literally: what follows `file://` up to the
/// first `?`, unless that is empty.
pub open spec fn literal_file_path(url: Seq<char>) -> Option<Seq<char>> {
    let p = before_query(url.skip(7));
    if p.len() == 0 {
        None
    } else {
        Some(p)
    }
}

/// Whether a navigation to `url` leads away to a local Markdown file, which the application
/// opens as a document in place of letting the page navigate.
pub open spec fn leads_to_markdown_file(url: Seq<char>) -> bool {
    has_prefix(url, "file://"@) && names_markdown(url)
}

/// The file a blocked navigation to `url` asks to open: the path of the URL, or else the
/// URL read literally.
pub open spec fn navigation_target(url: Seq<char>) -> Option<Seq<char>> {
    match url_file_path(url) {
        Some(p) => Some(p),
        None => literal_file_path(url),
    }
}

proof fn lemma_before_query(s: Seq<char>, k: int)
    requires
        0 <= k <= s.len(),
        forall|j: int| 0 <= j < k ==> s[j] != '?',
        k == s.len() || s[k] == '?',
    ensures
        before_query(s) =~= s.take(k),
    decreases k,
{
    if k > 0 {
        let t = s.skip(1);
        assert forall|j: int| 0 <= j < k - 1 implies t[j] != '?' by {
            assert(t[j] == s[j + 1]);
        }
        lemma_before_query(t, k - 1);
        assert(seq![s[0]] + t.take(k - 1) =~= s.take(k));
    }
}

/// What becomes of a navigation of the page to `url`.
pub fn navigation_decision(url: &str) -> (r: NavigationDecision)
    ensures
        !leads_to_markdown_file(url@) ==> r is Allow,
        leads_to_markdown_file(url@) ==> (r matches NavigationDecision::Block { open } && match
            navigation_target(url@) {
            Some(p) => open matches Some(o) && o@ == p,
            None => open is None,
        }),
{
    if !(starts_with(url, "file://") && is_markdown_path(url)) {
        return NavigationDecision::Allow;
    }
    if let Some(path) = file_path_of(url) {
        return NavigationDecision::Block { open: Some(path) };
    }
    let v = chars_of(url);
    proof {
        reveal_strlit("file://");
    }
    let mut k: usize = 7;
    while k < v.len() && v[k] != '?'
        invariant
            7 <= k <= v.len(),
            v@ == url@,
            forall|j: int| 7 <= j < k ==> v@[j] != '?',
        decreases v.len() - k,
    {
        k += 1;
    }
    proof {
        let rest = url@.skip(7);
        assert forall|j: int| 0 <= j < k - 7 implies rest[j] != '?' by {
            assert(rest[j] == v@[j + 7]);
        }
        lemma_before_query(rest, k - 7);
    }
    if k == 7 {
        return NavigationDecision::Block { open: None };
    }
    let path = string_of(&v.as_slice()[7..k]);
    assert(path@ =~= url@.skip(7).take(k - 7));
    NavigationDecision::Block { open: Some(path) }
}

/// The views of a list of URLs.
pub open spec fn url_views(urls: Seq<String>) -> Seq<Seq<char>> {
    urls.map_values(|u: String| u@)
}

/// The position of the first URL with the scheme `file`.
pub open spec fn first_file_url(urls: Seq<Seq<char>>) -> Option<int> {
    if exists|i: int| 0 <= i < urls.len() && url_scheme(urls[i]) == Some("file"@) {
        Some(
            choose|i: int|
                0 <= i < urls.len() && url_scheme(urls[i]) == Some("file"@) && forall|j: int|
                    0 <= j < i ==> url_scheme(urls[j]) != Some("file"@),
        )
    } else {
        None
    }
}

/// Of the URLs that the system asks the application to open, the first `file` URL: the path
/// it names, or an error where it names no local file; `None` where there is no `file` URL.
pub fn opened_file_path(urls: &Vec<String>) -> (r: Option<Result<String, String>>)
    ensures
        match first_file_url(url_views(urls@)) {
            None => r is None,
            Some(i) => match url_file_path(urls@[i]@) {
                Some(p) => r matches Some(Ok(q)) && q@ == p,
                None => r matches Some(Err(e)) && e@ == "The requested file path is not valid."@,
            },
        },
{
    let ghost views = url_views(urls@);
    let mut i: usize = 0;
    while i < urls.len()
        invariant
            i <= urls.len(),
            views == url_views(urls@),
            forall|j: int| 0 <= j < i ==> url_scheme(#[trigger] views[j]) != Some("file"@),
        decreases urls.len() - i,
    {
        let is_file = match scheme_of(urls[i].as_str()) {
            Some(s) => str_eq(s.as_str(), "file"),
            None => false,
        };
        assert(views[i as int] == urls@[i as int]@);
        if is_file {
            proof {
                let w = choose|w: int|
                    0 <= w < views.len() && url_scheme(views[w]) == Some("file"@) && forall|j: int|
                        0 <= j < w ==> url_scheme(views[j]) != Some("file"@);
                assert(0 <= i < views.len() && url_scheme(views[i as int]) == Some("file"@)
                    && forall|j: int| 0 <= j < i ==> url_scheme(views[j]) != Some("file"@));
                if w < i {
                    assert(url_scheme(views[w]) != Some("file"@));
                } else if w > i {
                    assert(url_scheme(views[i as int]) != Some("file"@));
                }
                assert(first_file_url(views) == Some(i as int));
            }
            return match file_path_of(urls[i].as_str()) {
                Some(p) => Some(Ok(p)),
                None => Some(Err(String::from_str("The requested file path is not valid."))),
            };
        }
        i += 1;
    }
    None
}

/// Whether `c` is the lower-case character `lower`, or its ASCII upper-case form where `lower`
/// is a letter.
pub open spec fn same_ignoring_ascii_case(c: char, lower: char) -> bool {
    c == lower || (97 <= lower as int <= 122 && c as int == lower as int - 32)
}

/// Whether `s` ends with `suffix`, a text of lower-case letters and dots, ignoring ASCII case.
pub open spec fn ends_ignoring_ascii_case(s: Seq<char>, suffix: Seq<char>) -> bool {
    &&& suffix.len() <= s.len()
    &&& forall|j: int|
        0 <= j < suffix.len() ==> same_ignoring_ascii_case(
            #[trigger] s[s.len() - suffix.len() + j],
            suffix[j],
        )
}

proof fn lemma_lower_char(c: char, lower: char)
    requires
        lower == '.' || ('a' <= lower && lower <= 'z'),
    ensures
        (ascii_lower(c) == lower) <==> same_ignoring_ascii_case(c, lower),
{
}

proof fn lemma_lower_suffix(s: Seq<char>, suffix: Seq<char>)
    requires
        forall|j: int| 0 <= j < suffix.len() ==> #[trigger] suffix[j] == '.' || ('a' <= suffix[j]
            && suffix[j] <= 'z'),
    ensures
        has_suffix(ascii_lower_seq(s), suffix) <==> ends_ignoring_ascii_case(s, suffix),
{
    let lower = ascii_lower_seq(s);
    let n = s.len() - suffix.len();
    assert forall|j: int| 0 <= j < suffix.len() && suffix.len() <= s.len() implies (#[trigger] lower[n
        + j] == suffix[j]) == same_ignoring_ascii_case(s[n + j], suffix[j]) by {
        lemma_lower_char(s[n + j], suffix[j]);
    }
    if has_suffix(lower, suffix) {
        assert forall|j: int| 0 <= j < suffix.len() implies same_ignoring_ascii_case(
            #[trigger] s[s.len() - suffix.len() + j],
            suffix[j],
        ) by {
            assert(lower.skip(n)[j] == lower[n + j]);
        }
    }
    if ends_ignoring_ascii_case(s, suffix) {
        assert(lower.skip(n) =~= suffix) by {
            assert forall|j: int| 0 <= j < suffix.len() implies lower.skip(n)[j] == suffix[j] by {
                assert(same_ignoring_ascii_case(s[s.len() - suffix.len() + j], suffix[j]));
                assert(lower.skip(n)[j] == lower[n + j]);
            }
        }
    }
}

/// A navigation is blocked, and the file opened as a document, exactly when it goes to a
/// `file://` URL whose text ends in `.md` or `.markdown`, in any ASCII case.
pub proof fn law_links_to_markdown_files_are_opened(url: Seq<char>)
    ensures
        leads_to_markdown_file(url) <==> has_prefix(url, "file://"@) && (ends_ignoring_ascii_case(
            url,
            ".md"@,
        ) || ends_ignoring_ascii_case(url, ".markdown"@)),
{
    reveal_strlit(".md");
    reveal_strlit(".markdown");
    lemma_lower_suffix(url, ".md"@);
    lemma_lower_suffix(url, ".markdown"@);
}

} // verus!
