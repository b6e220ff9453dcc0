//! Markup sanitization: a single left-to-right scan that drops tags,
//! excludes script/style content, collapses whitespace runs to single
//! spaces, and bounds the result to a safe size.

use vstd::prelude::*;
use crate::text::chars_of;
use crate::text::is_space;
use crate::text::is_space_char;
use crate::text::lower_seq;
use crate::text::lower_starts_with_at;
use crate::text::seq_starts_with;
use crate::text::string_of;
use crate::text::vec_range;

verus! {

/// Upper bound, in characters, on sanitized text.
pub const SANITIZED_MAX: usize = 10000;

/// The scanner's state: whether the scan stands inside a tag, whether it
/// stands inside an excluded script/style block, the characters of the tag
/// being scanned (for classification only), and the text emitted so far.
pub struct ScanState {
    pub in_tag: bool,
    pub in_excluded: bool,
    pub tag: Seq<char>,
    pub out: Seq<char>,
}

pub open spec fn script_pat() -> Seq<char> {
    seq!['s', 'c', 'r', 'i', 'p', 't']
}

pub open spec fn style_pat() -> Seq<char> {
    seq!['s', 't', 'y', 'l', 'e']
}

pub open spec fn end_script_pat() -> Seq<char> {
    seq!['/', 's', 'c', 'r', 'i', 'p', 't']
}

pub open spec fn end_style_pat() -> Seq<char> {
    seq!['/', 's', 't', 'y', 'l', 'e']
}

/// A tag whose name opens an excluded block: it begins with `script` or
/// `style`, case-insensitively.
pub open spec fn opens_excluded(tag: Seq<char>) -> bool {
    seq_starts_with(lower_seq(tag), script_pat()) || seq_starts_with(lower_seq(tag), style_pat())
}

/// A tag whose name closes an excluded block: it begins with `/script` or
/// `/style`, case-insensitively.
pub open spec fn closes_excluded(tag: Seq<char>) -> bool {
    seq_starts_with(lower_seq(tag), end_script_pat()) || seq_starts_with(
        lower_seq(tag),
        end_style_pat(),
    )
}

/// Tag classification is case-insensitive: two tags equal up to ASCII case
/// open and close excluded blocks alike.
pub proof fn lemma_classification_case_insensitive(t1: Seq<char>, t2: Seq<char>)
    requires
        lower_seq(t1) == lower_seq(t2),
    ensures
        opens_excluded(t1) == opens_excluded(t2),
        closes_excluded(t1) == closes_excluded(t2),
{
}

/// The excluded-block flag after a `>` is seen with the given state.
pub open spec fn excluded_after(st: ScanState) -> bool {
    if opens_excluded(st.tag) {
        true
    } else if closes_excluded(st.tag) {
        false
    } else {
        st.in_excluded
    }
}

pub open spec fn scan_init() -> ScanState {
    ScanState { in_tag: false, in_excluded: false, tag: Seq::empty(), out: Seq::empty() }
}

/// One step of the scan. `<` enters a tag and resets the tag buffer; `>`
/// classifies the buffered tag, leaves the tag, and emits one space; inside
/// a tag characters go to the buffer; outside an excluded block they go to
/// the output verbatim.
pub open spec fn scan_step(st: ScanState, c: char) -> ScanState {
    if c == '<' {
        ScanState { in_tag: true, in_excluded: st.in_excluded, tag: Seq::empty(), out: st.out }
    } else if c == '>' {
        ScanState {
            in_tag: false,
            in_excluded: excluded_after(st),
            tag: st.tag,
            out: st.out.push(' '),
        }
    } else if st.in_tag {
        ScanState {
            in_tag: st.in_tag,
            in_excluded: st.in_excluded,
            tag: st.tag.push(c),
            out: st.out,
        }
    } else if !st.in_excluded {
        ScanState {
            in_tag: st.in_tag,
            in_excluded: st.in_excluded,
            tag: st.tag,
            out: st.out.push(c),
        }
    } else {
        st
    }
}

/// The scanner's state after reading all of `s`, starting from `st`.
pub open spec fn scan_fold(st: ScanState, s: Seq<char>) -> ScanState
    decreases s.len(),
{
    if s.len() == 0 {
        st
    } else {
        scan_step(scan_fold(st, s.drop_last()), s.last())
    }
}

/// The scanner's state after reading all of `s`.
pub open spec fn scan_markup(s: Seq<char>) -> ScanState {
    scan_fold(scan_init(), s)
}

/// Scanning a concatenation is scanning the parts in turn.
pub proof fn lemma_scan_fold_concat(st: ScanState, a: Seq<char>, b: Seq<char>)
    ensures
        scan_fold(st, a + b) == scan_fold(scan_fold(st, a), b),
    decreases b.len(),
{
    if b.len() == 0 {
        assert(a + b =~= a);
    } else {
        assert((a + b).drop_last() =~= a + b.drop_last());
        assert((a + b).last() == b.last());
        lemma_scan_fold_concat(st, a, b.drop_last());
    }
}

/// Content standing inside an excluded script/style block is dropped
/// entirely: from a state outside a tag and inside an excluded block, a
/// span of characters holding no `<` and no `>` — line breaks included —
/// leaves the scanner's state, and so its output, unchanged.
pub proof fn lemma_excluded_content_dropped(st: ScanState, body: Seq<char>)
    requires
        !st.in_tag,
        st.in_excluded,
        forall|i: int| 0 <= i < body.len() ==> body[i] != '<' && body[i] != '>',
    ensures
        scan_fold(st, body) == st,
    decreases body.len(),
{
    if body.len() > 0 {
        lemma_excluded_content_dropped(st, body.drop_last());
    }
}

/// Splitting on whitespace runs and rejoining with single spaces, expressed
/// as a scan: `sep` records that whitespace was seen since the last emitted
/// character.
pub open spec fn collapse_from(s: Seq<char>, sep: bool, out: Seq<char>) -> Seq<char>
    decreases s.len(),
{
    if s.len() == 0 {
        out
    } else if is_space(s[0]) {
        collapse_from(s.skip(1), true, out)
    } else if sep && out.len() > 0 {
        collapse_from(s.skip(1), false, out.push(' ').push(s[0]))
    } else {
        collapse_from(s.skip(1), false, out.push(s[0]))
    }
}

/// The words of `s` joined by single spaces, with no leading or trailing
/// whitespace.
pub open spec fn collapse_ws(s: Seq<char>) -> Seq<char> {
    collapse_from(s, false, Seq::empty())
}

/// `s` cut to at most `SANITIZED_MAX` characters.
pub open spec fn truncated(s: Seq<char>) -> Seq<char> {
    if s.len() <= SANITIZED_MAX {
        s
    } else {
        s.take(SANITIZED_MAX as int)
    }
}

/// What sanitization returns: the scan's output, whitespace-collapsed, then
/// length-bounded.
pub open spec fn sanitized_seq(s: Seq<char>) -> Seq<char> {
    truncated(collapse_ws(scan_markup(s).out))
}

/// The tag-stripping scan over all of `s`.
fn scan_markup_vec(s: &Vec<char>) -> (r: Vec<char>)
    ensures
        r@ == scan_markup(s@).out,
{
    let script_p = chars_of("script");
    let style_p = chars_of("style");
    let end_script_p = chars_of("/script");
    let end_style_p = chars_of("/style");
    proof {
        reveal_strlit("script");
        reveal_strlit("style");
        reveal_strlit("/script");
        reveal_strlit("/style");
        assert(script_p@ =~= script_pat());
        assert(style_p@ =~= style_pat());
        assert(end_script_p@ =~= end_script_pat());
        assert(end_style_p@ =~= end_style_pat());
    }
    let mut in_tag = false;
    let mut in_excluded = false;
    let mut tag: Vec<char> = Vec::new();
    let mut out: Vec<char> = Vec::new();
    let mut i: usize = 0;
    proof {
        assert(s@.take(0) =~= Seq::<char>::empty());
    }
    while i < s.len()
        invariant
            i <= s@.len(),
            script_p@ == script_pat(),
            style_p@ == style_pat(),
            end_script_p@ == end_script_pat(),
            end_style_p@ == end_style_pat(),
            scan_markup(s@.take(i as int)) == (ScanState {
                in_tag,
                in_excluded,
                tag: tag@,
                out: out@,
            }),
        decreases s@.len() - i,
    {
        let ghost st = scan_markup(s@.take(i as int));
        let c = s[i];
        if c == '<' {
            in_tag = true;
            tag = Vec::new();
        } else if c == '>' {
            proof {
                assert(tag@.skip(0) =~= tag@);
            }
            let opens = lower_starts_with_at(&tag, 0, &script_p) || lower_starts_with_at(
                &tag,
                0,
                &style_p,
            );
            if opens {
                in_excluded = true;
            } else {
                let closes = lower_starts_with_at(&tag, 0, &end_script_p) || lower_starts_with_at(
                    &tag,
                    0,
                    &end_style_p,
                );
                if closes {
                    in_excluded = false;
                }
            }
            in_tag = false;
            out.push(' ');
        } else if in_tag {
            tag.push(c);
        } else if !in_excluded {
            out.push(c);
        }
        proof {
            assert(s@.take(i + 1).drop_last() =~= s@.take(i as int));
            assert(s@.take(i + 1).last() == s@[i as int]);
            assert(scan_markup(s@.take(i + 1)) == scan_step(st, s@[i as int]));
            assert(scan_markup(s@.take(i + 1)) == (ScanState {
                in_tag,
                in_excluded,
                tag: tag@,
                out: out@,
            }));
        }
        i = i + 1;
    }
    proof {
        assert(s@.take(s@.len() as int) =~= s@);
    }
    out
}

/// Collapses every whitespace run of `s` to a single space, trimming the
/// ends.
fn collapse_ws_vec(s: &Vec<char>) -> (r: Vec<char>)
    ensures
        r@ == collapse_ws(s@),
{
    let mut out: Vec<char> = Vec::new();
    let mut sep = false;
    let mut i: usize = 0;
    proof {
        assert(s@.skip(0) =~= s@);
    }
    while i < s.len()
        invariant
            i <= s@.len(),
            collapse_from(s@.skip(i as int), sep, out@) == collapse_ws(s@),
        decreases s@.len() - i,
    {
        let ghost pre = s@.skip(i as int);
        let c = s[i];
        if is_space_char(c) {
            sep = true;
        } else {
            if sep && out.len() > 0 {
                out.push(' ');
            }
            out.push(c);
            sep = false;
        }
        proof {
            assert(pre.skip(1) =~= s@.skip(i + 1));
        }
        i = i + 1;
    }
    out
}

/// Produces normalized plain text from raw markup: tags collapse to single
/// spaces, script/style content is excluded, whitespace runs collapse, and
/// the result is cut to at most `SANITIZED_MAX` characters.
pub fn sanitize_markup(html: &str) -> (r: String)
    ensures
        r@ == sanitized_seq(html@),
        r@.len() <= SANITIZED_MAX,
{
    let v = chars_of(html);
    let stripped = scan_markup_vec(&v);
    let collapsed = collapse_ws_vec(&stripped);
    if collapsed.len() > SANITIZED_MAX {
        let cut = vec_range(&collapsed, 0, SANITIZED_MAX);
        proof {
            assert(cut@ =~= truncated(collapsed@));
        }
        string_of(&cut)
    } else {
        string_of(&collapsed)
    }
}

} // verus!
