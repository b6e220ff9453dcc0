//! Decoding of the small set of named character references that title
//! extraction produces. Each reference is matched literally in one
//! left-to-right pass; decoded output is never re-scanned.

use vstd::prelude::*;
use crate::text::chars_of;
use crate::text::seq_starts_with;
use crate::text::starts_with_at;
use crate::text::string_of;

verus! {

/// Decodes the named character references of `s`.
pub fn decode_entities(s: &str) -> (r: String)
    ensures
        r@ == decode_entities_seq(s@),
{
    let v = chars_of(s);
    let d = decode_entities_vec(&v);
    string_of(&d)
}

pub open spec fn amp_ref() -> Seq<char> {
    seq!['&', 'a', 'm', 'p', ';']
}

pub open spec fn lt_ref() -> Seq<char> {
    seq!['&', 'l', 't', ';']
}

pub open spec fn gt_ref() -> Seq<char> {
    seq!['&', 'g', 't', ';']
}

pub open spec fn quot_ref() -> Seq<char> {
    seq!['&', 'q', 'u', 'o', 't', ';']
}

pub open spec fn apos_ref() -> Seq<char> {
    seq!['&', '#', '3', '9', ';']
}

pub open spec fn nbsp_ref() -> Seq<char> {
    seq!['&', 'n', 'b', 's', 'p', ';']
}

/// One left-to-right pass over `s`: at each position the first matching
/// reference is replaced by its literal character and the scan resumes after
/// it, so substituted output is never decoded again. Unrecognized references
/// are copied untouched.
pub open spec fn decode_entities_seq(s: Seq<char>) -> Seq<char>
    decreases s.len(),
{
    if s.len() == 0 {
        Seq::empty()
    } else if seq_starts_with(s, amp_ref()) {
        seq!['&'] + decode_entities_seq(s.skip(5))
    } else if seq_starts_with(s, lt_ref()) {
        seq!['<'] + decode_entities_seq(s.skip(4))
    } else if seq_starts_with(s, gt_ref()) {
        seq!['>'] + decode_entities_seq(s.skip(4))
    } else if seq_starts_with(s, quot_ref()) {
        seq!['"'] + decode_entities_seq(s.skip(6))
    } else if seq_starts_with(s, apos_ref()) {
        seq!['\''] + decode_entities_seq(s.skip(5))
    } else if seq_starts_with(s, nbsp_ref()) {
        seq![' '] + decode_entities_seq(s.skip(6))
    } else {
        seq![s[0]] + decode_entities_seq(s.skip(1))
    }
}

/// Decodes the named character references of `s` in one pass.
pub fn decode_entities_vec(s: &Vec<char>) -> (r: Vec<char>)
    ensures
        r@ == decode_entities_seq(s@),
{
    let amp = chars_of("&amp;");
    let lt = chars_of("&lt;");
    let gt = chars_of("&gt;");
    let quot = chars_of("&quot;");
    let apos = chars_of("&#39;");
    let nbsp = chars_of("&nbsp;");
    proof {
        reveal_strlit("&amp;");
        reveal_strlit("&lt;");
        reveal_strlit("&gt;");
        reveal_strlit("&quot;");
        reveal_strlit("&#39;");
        reveal_strlit("&nbsp;");
        assert(amp@ =~= amp_ref());
        assert(lt@ =~= lt_ref());
        assert(gt@ =~= gt_ref());
        assert(quot@ =~= quot_ref());
        assert(apos@ =~= apos_ref());
        assert(nbsp@ =~= nbsp_ref());
    }
    let mut out: Vec<char> = Vec::new();
    let mut i: usize = 0;
    proof {
        assert(s@.skip(0) =~= s@);
        assert(out@ + decode_entities_seq(s@) =~= decode_entities_seq(s@));
    }
    while i < s.len()
        invariant
            i <= s@.len(),
            amp@ == amp_ref(),
            lt@ == lt_ref(),
            gt@ == gt_ref(),
            quot@ == quot_ref(),
            apos@ == apos_ref(),
            nbsp@ == nbsp_ref(),
            decode_entities_seq(s@) == out@ + decode_entities_seq(s@.skip(i as int)),
        decreases s@.len() - i,
    {
        let ghost pre = s@.skip(i as int);
        let ghost out0 = out@;
        if starts_with_at(s, i, &amp) {
            out.push('&');
            i = i + 5;
            proof {
                assert(pre.skip(5) =~= s@.skip(i as int));
                assert(out0 + (seq!['&'] + decode_entities_seq(pre.skip(5))) =~= out@
                    + decode_entities_seq(s@.skip(i as int)));
            }
        } else if starts_with_at(s, i, &lt) {
            out.push('<');
            i = i + 4;
            proof {
                assert(pre.skip(4) =~= s@.skip(i as int));
                assert(out0 + (seq!['<'] + decode_entities_seq(pre.skip(4))) =~= out@
                    + decode_entities_seq(s@.skip(i as int)));
            }
        } else if starts_with_at(s, i, &gt) {
            out.push('>');
            i = i + 4;
            proof {
                assert(pre.skip(4) =~= s@.skip(i as int));
                assert(out0 + (seq!['>'] + decode_entities_seq(pre.skip(4))) =~= out@
                    + decode_entities_seq(s@.skip(i as int)));
            }
        } else if starts_with_at(s, i, &quot) {
            out.push('"');
            i = i + 6;
            proof {
                assert(pre.skip(6) =~= s@.skip(i as int));
                assert(out0 + (seq!['"'] + decode_entities_seq(pre.skip(6))) =~= out@
                    + decode_entities_seq(s@.skip(i as int)));
            }
        } else if starts_with_at(s, i, &apos) {
            out.push('\'');
            i = i + 5;
            proof {
                assert(pre.skip(5) =~= s@.skip(i as int));
                assert(out0 + (seq!['\''] + decode_entities_seq(pre.skip(5))) =~= out@
                    + decode_entities_seq(s@.skip(i as int)));
            }
        } else if starts_with_at(s, i, &nbsp) {
            out.push(' ');
            i = i + 6;
            proof {
                assert(pre.skip(6) =~= s@.skip(i as int));
                assert(out0 + (seq![' '] + decode_entities_seq(pre.skip(6))) =~= out@
                    + decode_entities_seq(s@.skip(i as int)));
            }
        } else {
            out.push(s[i]);
            i = i + 1;
            proof {
                assert(pre.skip(1) =~= s@.skip(i as int));
                assert(out0 + (seq![pre[0]] + decode_entities_seq(pre.skip(1))) =~= out@
                    + decode_entities_seq(s@.skip(i as int)));
            }
        }
    }
    proof {
        assert(s@.skip(s@.len() as int) =~= Seq::<char>::empty());
        assert(decode_entities_seq(s@) =~= out@);
    }
    out
}

} // verus!
