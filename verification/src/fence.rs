//! Code fences around a response.
//!
//! A response may come wrapped in a code fence. Before its content is read,
//! one leading fence marker, bare or tagged with `json`, and one trailing fence
//! marker are taken away.

use vstd::prelude::*;
use crate::text::{begins_with, chars_of, matches_at, text_between};

verus! {

/// The bare fence marker.
pub open spec fn fence() -> Seq<char> {
    "```"@
}

/// The fence marker tagged with the language.
pub open spec fn tagged_fence() -> Seq<char> {
    "```json"@
}

/// `s` without one leading fence marker, if it begins with one. The tagged
/// marker is tried first.
pub open spec fn without_leading_fence(s: Seq<char>) -> Seq<char> {
    if tagged_fence().is_prefix_of(s) {
        s.skip(tagged_fence().len() as int)
    } else if fence().is_prefix_of(s) {
        s.skip(fence().len() as int)
    } else {
        s
    }
}

/// `s` without one trailing fence marker, if it ends with one.
pub open spec fn without_trailing_fence(s: Seq<char>) -> Seq<char> {
    if fence().is_suffix_of(s) {
        s.take(s.len() - fence().len())
    } else {
        s
    }
}

/// `s` without its fence: first the leading marker goes, then the trailing one.
pub open spec fn without_fences(s: Seq<char>) -> Seq<char> {
    without_trailing_fence(without_leading_fence(s))
}

/// `inner` wrapped in a fence tagged with the language.
pub open spec fn tagged_fenced(inner: Seq<char>) -> Seq<char> {
    tagged_fence() + inner + fence()
}

/// `inner` wrapped in a bare fence.
pub open spec fn bare_fenced(inner: Seq<char>) -> Seq<char> {
    fence() + inner + fence()
}

/// Whether `s` neither begins nor ends with a fence marker.
pub open spec fn unfenced(s: Seq<char>) -> bool {
    !fence().is_prefix_of(s) && !fence().is_suffix_of(s)
}

/// What the two markers hold.
pub proof fn lemma_fence_markers()
    ensures
        fence() == seq!['`', '`', '`'],
        tagged_fence() == seq!['`', '`', '`', 'j', 's', 'o', 'n'],
        fence().is_prefix_of(tagged_fence()),
{
    reveal_strlit("```");
    reveal_strlit("```json");
    assert(fence() =~= seq!['`', '`', '`']);
    assert(tagged_fence() =~= seq!['`', '`', '`', 'j', 's', 'o', 'n']);
}

/// Removes the fence around a response.
pub fn strip_fences(text: &str) -> (r: String)
    ensures
        r@ == without_fences(text@),
{
    let cs = chars_of(text);
    let tagged = chars_of("```json");
    let bare = chars_of("```");
    proof {
        lemma_fence_markers();
    }
    let from: usize = if begins_with(&cs, &tagged) {
        tagged.len()
    } else if begins_with(&cs, &bare) {
        bare.len()
    } else {
        0
    };
    let ghost rest = cs@.skip(from as int);
    assert(rest == without_leading_fence(text@)) by {
        assert(cs@.skip(0) == cs@);
    }
    let to: usize = if cs.len() - from >= bare.len() && matches_at(
        &cs,
        &bare,
        cs.len() - bare.len(),
    ) {
        proof {
            assert(rest.subrange(rest.len() - 3, rest.len() as int) == cs@.subrange(
                cs.len() - 3,
                cs.len() as int,
            ));
            assert(rest.take(rest.len() - 3) == cs@.subrange(from as int, cs.len() - 3));
        }
        cs.len() - bare.len()
    } else {
        proof {
            if rest.len() >= 3 {
                assert(rest.subrange(rest.len() - 3, rest.len() as int) == cs@.subrange(
                    cs.len() - 3,
                    cs.len() as int,
                ));
            }
            assert(rest == cs@.subrange(from as int, cs.len() as int));
        }
        cs.len()
    };
    text_between(&cs, from, to)
}

/// A text wrapped in a tagged fence strips to that text, whatever it holds.
pub proof fn lemma_tagged_fence_strips(inner: Seq<char>)
    ensures
        without_fences(tagged_fenced(inner)) == inner,
{
    lemma_fence_markers();
    let whole = tagged_fenced(inner);
    assert(whole.subrange(0, 7) =~= tagged_fence());
    let rest = whole.skip(7);
    assert(rest =~= inner + fence());
    assert(rest.subrange(rest.len() - 3, rest.len() as int) =~= fence());
    assert(rest.take(rest.len() - 3) =~= inner);
}

/// A text wrapped in a bare fence strips to that text, unless the text itself
/// begins with the language tag.
pub proof fn lemma_bare_fence_strips(inner: Seq<char>)
    requires
        !"json"@.is_prefix_of(inner),
    ensures
        without_fences(bare_fenced(inner)) == inner,
{
    lemma_fence_markers();
    reveal_strlit("json");
    let whole = bare_fenced(inner);
    assert(whole.subrange(0, 3) =~= fence());
    if tagged_fence().is_prefix_of(whole) {
        assert(whole.subrange(0, 7) == tagged_fence());
        assert forall|i: int| 0 <= i < 4 implies inner[i] == "json"@[i] by {
            assert(whole.subrange(0, 7)[i + 3] == whole[i + 3]);
        }
        assert(inner.subrange(0, 4) =~= "json"@);
        assert(false);
    }
    let rest = whole.skip(3);
    assert(rest =~= inner + fence());
    assert(rest.subrange(rest.len() - 3, rest.len() as int) =~= fence());
    assert(rest.take(rest.len() - 3) =~= inner);
}

/// A text that neither begins nor ends with a fence marker strips to itself.
pub proof fn lemma_unfenced_strips_to_itself(inner: Seq<char>)
    requires
        unfenced(inner),
    ensures
        without_fences(inner) == inner,
{
    lemma_fence_markers();
    if tagged_fence().is_prefix_of(inner) {
        assert(inner.subrange(0, 7).subrange(0, 3) =~= inner.subrange(0, 3));
        assert(tagged_fence().subrange(0, 3) =~= fence());
        assert(false);
    }
}

} // verus!
