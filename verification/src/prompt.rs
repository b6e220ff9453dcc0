//! Prompt composition: substituting sanitized text for the placeholder
//! token in a user-supplied template.

use vstd::prelude::*;
use crate::text::chars_of;
use crate::text::push_all;
use crate::text::seq_starts_with;
use crate::text::starts_with_at;
use crate::text::string_of;

verus! {

/// The one recognized placeholder token, `{content}`.
pub open spec fn content_token() -> Seq<char> {
    seq!['{', 'c', 'o', 'n', 't', 'e', 'n', 't', '}']
}

/// The template with every literal occurrence of the placeholder token
/// replaced by `content`, scanning left to right; substituted text is not
/// re-scanned.
pub open spec fn composed(template: Seq<char>, content: Seq<char>) -> Seq<char>
    decreases template.len(),
{
    if template.len() == 0 {
        Seq::empty()
    } else if seq_starts_with(template, content_token()) {
        content + composed(template.skip(9), content)
    } else {
        seq![template[0]] + composed(template.skip(1), content)
    }
}

/// The template holds the placeholder token somewhere.
pub open spec fn has_token(template: Seq<char>) -> bool {
    exists|i: int| 0 <= i <= template.len() && seq_starts_with(
        #[trigger] template.skip(i),
        content_token(),
    )
}

/// Returns the template with every occurrence of the literal token
/// `{content}` replaced by `content`. A template without the token comes
/// back unchanged.
pub fn compose_prompt(template: &str, content: &str) -> (r: String)
    ensures
        r@ == composed(template@, content@),
{
    let t = chars_of(template);
    let c = chars_of(content);
    let token = chars_of("{content}");
    proof {
        reveal_strlit("{content}");
        assert(token@ =~= content_token());
    }
    let mut out: Vec<char> = Vec::new();
    let mut i: usize = 0;
    proof {
        assert(t@.skip(0) =~= t@);
        assert(out@ + composed(t@, c@) =~= composed(t@, c@));
    }
    while i < t.len()
        invariant
            i <= t@.len(),
            token@ == content_token(),
            c@ == content@,
            composed(template@, content@) == out@ + composed(t@.skip(i as int), c@),
            t@ == template@,
        decreases t@.len() - i,
    {
        let ghost pre = t@.skip(i as int);
        let ghost out0 = out@;
        if starts_with_at(&t, i, &token) {
            push_all(&mut out, &c);
            i = i + 9;
            proof {
                assert(pre.skip(9) =~= t@.skip(i as int));
                assert(out0 + (c@ + composed(pre.skip(9), c@)) =~= out@ + composed(
                    t@.skip(i as int),
                    c@,
                ));
            }
        } else {
            out.push(t[i]);
            i = i + 1;
            proof {
                assert(pre.skip(1) =~= t@.skip(i as int));
                assert(out0 + (seq![pre[0]] + composed(pre.skip(1), c@)) =~= out@ + composed(
                    t@.skip(i as int),
                    c@,
                ));
            }
        }
    }
    proof {
        assert(t@.skip(t@.len() as int) =~= Seq::<char>::empty());
        assert(composed(template@, content@) =~= out@);
    }
    string_of(&out)
}

/// A template that holds no placeholder token is returned unchanged by
/// composition: the content is dropped.
pub proof fn lemma_compose_without_token(template: Seq<char>, content: Seq<char>)
    requires
        !has_token(template),
    ensures
        composed(template, content) == template,
    decreases template.len(),
{
    assert(template.skip(0) =~= template);
    if template.len() == 0 {
        assert(composed(template, content) =~= template);
    } else {
        assert(!seq_starts_with(template.skip(0), content_token()));
        assert forall|i: int|
            0 <= i <= template.skip(1).len() implies !seq_starts_with(
            #[trigger] template.skip(1).skip(i),
            content_token(),
        ) by {
            assert(template.skip(1).skip(i) =~= template.skip(1 + i));
        }
        lemma_compose_without_token(template.skip(1), content);
        assert(seq![template[0]] + template.skip(1) =~= template);
    }
}

} // verus!
