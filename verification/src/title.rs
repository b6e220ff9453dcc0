//! Title extraction: scan raw markup for the first `<title>` element and
//! return its decoded, trimmed text, falling back to the URL's host or to the
//! URL string itself. This operation never fails.

use vstd::prelude::*;
use crate::entities::decode_entities_seq;
use crate::entities::decode_entities_vec;
use crate::text::chars_of;
use crate::text::lower_seq;
use crate::text::lower_starts_with_at;
use crate::text::seq_starts_with;
use crate::text::string_of;
use crate::text::trim_seq;
use crate::text::trim_vec;
use crate::text::vec_range;

verus! {

pub open spec fn title_open_pat() -> Seq<char> {
    seq!['<', 't', 'i', 't', 'l', 'e']
}

pub open spec fn title_close_pat() -> Seq<char> {
    seq!['<', '/', 't', 'i', 't', 'l', 'e', '>']
}

/// Position of the first occurrence of `pat` in the lower-cased text of `s`
/// at or after `i`.
pub open spec fn find_lower_from(s: Seq<char>, pat: Seq<char>, i: int) -> Option<int>
    decreases s.len() - i + 1,
    when 0 <= i
{
    if i + pat.len() > s.len() {
        None
    } else if seq_starts_with(lower_seq(s.skip(i)), pat) {
        Some(i)
    } else {
        find_lower_from(s, pat, i + 1)
    }
}

/// Position of the first occurrence of the character `c` in `s` at or after
/// `i`.
pub open spec fn find_char_from(s: Seq<char>, c: char, i: int) -> Option<int>
    decreases s.len() - i,
    when 0 <= i
{
    if i >= s.len() {
        None
    } else if s[i] == c {
        Some(i)
    } else {
        find_char_from(s, c, i + 1)
    }
}

/// The decoded, trimmed text of the first complete `<title ...>` element:
/// the text between the `>` that closes the opening tag and the first
/// `</title>` after it. `None` when the element is absent, unclosed, or its
/// trimmed text is empty.
pub open spec fn title_from_markup(s: Seq<char>) -> Option<Seq<char>> {
    match find_lower_from(s, title_open_pat(), 0) {
        None => None,
        Some(start) => match find_char_from(s, '>', start) {
            None => None,
            Some(g) => match find_lower_from(s, title_close_pat(), g + 1) {
                None => None,
                Some(e) => {
                    let t = trim_seq(decode_entities_seq(s.subrange(g + 1, e)));
                    if t.len() > 0 {
                        Some(t)
                    } else {
                        None
                    }
                },
            },
        },
    }
}

/// The host component that the `url` crate's parser assigns to this URL
/// string, when the string parses as a URL that has one.
pub uninterp spec fn url_host(s: Seq<char>) -> Option<Seq<char>>;

/// Relies on `url::Url::parse` and `url::Url::host_str`: parsing a URL string
/// is a pure function of that string, and `host_str` returns the parsed
/// URL's host component exactly when it has one.
#[verifier::external_body]
fn parse_host(url: &str) -> (r: Option<String>)
    ensures
        match r {
            Some(h) => url_host(url@) == Some(h@),
            None => url_host(url@) is None,
        },
{
    url::Url::parse(url).ok().and_then(|u| u.host_str().map(|h| h.to_string()))
}

/// The fallback when the markup yields no title: the URL's host component
/// when present and non-empty, else the URL string unchanged.
pub open spec fn fallback_title_seq(url: Seq<char>, host: Option<Seq<char>>) -> Seq<char> {
    match host {
        Some(h) => if h.len() > 0 {
            h
        } else {
            url
        },
        None => url,
    }
}

/// Chooses the fallback title from the URL string and a host component, if
/// one was parsed out of it.
pub fn fallback_title(url: &str, host: Option<String>) -> (r: String)
    ensures
        r@ == fallback_title_seq(
            url@,
            match host {
                Some(h) => Some(h@),
                None => None,
            },
        ),
{
    match host {
        Some(h) => if h.as_str().is_empty() {
            url.to_owned()
        } else {
            h
        },
        None => url.to_owned(),
    }
}

/// First occurrence of the (lower-case) `pat` in the lower-cased text of
/// `s`, at or after `from`.
fn find_lower(s: &Vec<char>, pat: &Vec<char>, from: usize) -> (r: Option<usize>)
    requires
        from <= s@.len(),
        pat@.len() > 0,
    ensures
        match r {
            Some(j) => find_lower_from(s@, pat@, from as int) == Some(j as int) && from <= j
                && j + pat@.len() <= s@.len(),
            None => find_lower_from(s@, pat@, from as int) is None,
        },
{
    if pat.len() > s.len() || from > s.len() - pat.len() {
        return None;
    }
    let mut i: usize = from;
    while i <= s.len() - pat.len()
        invariant
            from <= i <= s@.len(),
            0 < pat@.len() <= s@.len(),
            find_lower_from(s@, pat@, from as int) == find_lower_from(s@, pat@, i as int),
        decreases s@.len() - i,
    {
        if lower_starts_with_at(s, i, pat) {
            return Some(i);
        }
        i = i + 1;
    }
    None
}

/// First occurrence of the character `c` in `s` at or after `from`.
fn find_char(s: &Vec<char>, c: char, from: usize) -> (r: Option<usize>)
    requires
        from <= s@.len(),
    ensures
        match r {
            Some(j) => find_char_from(s@, c, from as int) == Some(j as int) && from <= j
                && j < s@.len(),
            None => find_char_from(s@, c, from as int) is None,
        },
{
    let mut i: usize = from;
    while i < s.len()
        invariant
            from <= i <= s@.len(),
            find_char_from(s@, c, from as int) == find_char_from(s@, c, i as int),
        decreases s@.len() - i,
    {
        if s[i] == c {
            return Some(i);
        }
        i = i + 1;
    }
    None
}

/// The title that the markup and URL determine, given the URL's parsed host.
pub open spec fn extracted_title(html: Seq<char>, url: Seq<char>, host: Option<Seq<char>>) -> Seq<
    char,
> {
    match title_from_markup(html) {
        Some(t) => t,
        None => fallback_title_seq(url, host),
    }
}

/// Extracts a display title from raw page markup: the first complete
/// `<title>` element's decoded, trimmed text when it is non-empty, else the
/// URL's host component, else the URL string verbatim. Never empty for a
/// non-empty URL string.
pub fn extract_title(html: &str, url: &str) -> (r: String)
    ensures
        r@ == extracted_title(html@, url@, url_host(url@)),
        url@.len() > 0 ==> r@.len() > 0,
{
    let v = chars_of(html);
    let open_pat = chars_of("<title");
    let close_pat = chars_of("</title>");
    proof {
        reveal_strlit("<title");
        reveal_strlit("</title>");
        assert(open_pat@ =~= title_open_pat());
        assert(close_pat@ =~= title_close_pat());
    }
    if let Some(start) = find_lower(&v, &open_pat, 0) {
        if let Some(g) = find_char(&v, '>', start) {
            if g < v.len() {
                if let Some(e) = find_lower(&v, &close_pat, g + 1) {
                    let content = vec_range(&v, g + 1, e);
                    let decoded = decode_entities_vec(&content);
                    let t = trim_vec(&decoded);
                    if t.len() > 0 {
                        return string_of(&t);
                    }
                }
            }
        }
    }
    let host = parse_host(url);
    fallback_title(url, host)
}

/// Title extraction is a pure function of the markup and URL strings: equal
/// inputs always determine equal titles, so repeating it cannot change the
/// result.
pub proof fn lemma_title_extraction_deterministic(
    html1: Seq<char>,
    url1: Seq<char>,
    html2: Seq<char>,
    url2: Seq<char>,
)
    requires
        html1 == html2,
        url1 == url2,
    ensures
        extracted_title(html1, url1, url_host(url1)) == extracted_title(
            html2,
            url2,
            url_host(url2),
        ),
{
}

} // verus!
