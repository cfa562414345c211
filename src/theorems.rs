use vstd::prelude::*;

use crate::error::SetError;
use crate::getter::{model_of, read_target, text_of};
use crate::node::{Node, NodeKind, SamplerKind};
use crate::prompt::{
    anchor_index, conditioning_target, count_kind, first_with_id, id_index, ids_unique,
    kind_target, lemma_unique_index_valid, lemma_unique_resolves, unique_index,
};
use crate::setter::{
    applied, fallback, text_written, ModelSetter, NegativePromptSetter,
    NodeSetter, PromptSetter, SeedSetterT, Setter, SizeSetter,
};

verus! {

/// `t` has the ids, kinds and conditioning links of `s`, position by position.
pub open spec fn same_shape(s: Seq<(String, Node)>, t: Seq<(String, Node)>) -> bool {
    s.len() == t.len() && forall|j: int|
        #![trigger s[j]]
        #![trigger t[j]]
        0 <= j < s.len() ==> {
            &&& t[j].0@ == s[j].0@
            &&& t[j].1.spec_kind() == s[j].1.spec_kind()
            &&& t[j].1.spec_conditioning(true) == s[j].1.spec_conditioning(true)
            &&& t[j].1.spec_conditioning(false) == s[j].1.spec_conditioning(false)
        }
}

proof fn lemma_same_shape_count(s: Seq<(String, Node)>, t: Seq<(String, Node)>, k: NodeKind)
    requires
        same_shape(s, t),
    ensures
        count_kind(t, k) == count_kind(s, k),
    decreases s.len(),
{
    if s.len() > 0 {
        assert(same_shape(s.drop_last(), t.drop_last()));
        lemma_same_shape_count(s.drop_last(), t.drop_last(), k);
        assert(t.last().1.spec_kind() == s.last().1.spec_kind());
    }
}

proof fn lemma_same_shape_id(s: Seq<(String, Node)>, t: Seq<(String, Node)>, id: Seq<char>)
    requires
        same_shape(s, t),
    ensures
        id_index(t, id) == id_index(s, id),
{
    assert forall|i: int| first_with_id(t, id, i) <==> first_with_id(s, id, i) by {
        if 0 <= i < s.len() {
            assert(t[i].0@ == s[i].0@);
            assert forall|j: int| 0 <= j < i implies (t[j].0@ == s[j].0@) by {}
        }
    }
    if exists|i: int| first_with_id(s, id, i) {
        let a = choose|i: int| first_with_id(s, id, i);
        let b = choose|i: int| first_with_id(t, id, i);
        assert(first_with_id(t, id, a));
        assert(first_with_id(s, id, b));
        assert(a == b);
    }
}

proof fn lemma_same_shape_unique(s: Seq<(String, Node)>, t: Seq<(String, Node)>, k: NodeKind)
    requires
        same_shape(s, t),
    ensures
        unique_index(t, k) == unique_index(s, k),
{
    lemma_same_shape_count(s, t, k);
    if count_kind(s, k) == 1 {
        crate::prompt::lemma_unresolved(s, k);
        let a = choose|i: int| 0 <= i < s.len() && s[i].1.spec_kind() == k;
        assert(t[a].1.spec_kind() == s[a].1.spec_kind());
        lemma_unique_resolves(s, k, a);
        lemma_unique_resolves(t, k, a);
    }
}

/// Graphs that agree position by position on ids, node kinds and
/// conditioning links resolve every target alike: both text targets, and the
/// node of each kind, anchored or not. A graph that a serialisation round trip
/// brings back with its shape resolves as the graph did before.
pub proof fn lemma_same_shape_targets(
    s: Seq<(String, Node)>,
    t: Seq<(String, Node)>,
    anchor: Option<Seq<char>>,
)
    requires
        same_shape(s, t),
    ensures
        conditioning_target(t, anchor, true) == conditioning_target(s, anchor, true),
        conditioning_target(t, anchor, false) == conditioning_target(s, anchor, false),
        forall|k: NodeKind| kind_target(t, anchor, k) == kind_target(s, anchor, k),
{
    lemma_same_shape_unique(s, t, NodeKind::KSampler);
    lemma_same_shape_unique(s, t, NodeKind::SamplerCustom);
    lemma_unique_index_valid(s, NodeKind::KSampler);
    lemma_unique_index_valid(s, NodeKind::SamplerCustom);
    if let Ok(i) = anchor_index(s, anchor) {
        if let Some(l) = s[i].1.spec_conditioning(true) {
            lemma_same_shape_id(s, t, l.node_id@);
        }
        if let Some(l) = s[i].1.spec_conditioning(false) {
            lemma_same_shape_id(s, t, l.node_id@);
        }
    }
    assert forall|k: NodeKind| kind_target(t, anchor, k) == kind_target(s, anchor, k) by {
        lemma_same_shape_unique(s, t, k);
        lemma_unique_index_valid(s, k);
        if let Some(a) = anchor {
            lemma_same_shape_id(s, t, a);
        }
        if let Ok(i) = unique_index(s, k) {
            assert(t[i].0@ == s[i].0@);
        }
    }
    if let Some(a) = anchor {
        lemma_same_shape_id(s, t, a);
    }
    assert(anchor_index(t, anchor) == anchor_index(s, anchor));
}

/// With distinct ids, an id names the one position that holds it.
proof fn lemma_id_at(s: Seq<(String, Node)>, i: int)
    requires
        ids_unique(s),
        0 <= i < s.len(),
    ensures
        id_index(s, s[i].0@) == Some(i),
{
    assert(first_with_id(s, s[i].0@, i));
    let c = choose|c: int| first_with_id(s, s[i].0@, c);
    if c != i {
        if c < i {
            assert(s[c].0@ != s[i].0@);
        }
    }
}

/// Re-applying a setter whose write is stable and whose target survives its
/// own write leaves the graph as the first application left it.
proof fn lemma_reapply<S: NodeSetter>(
    st: &S,
    s: Seq<(String, Node)>,
    t: Seq<(String, Node)>,
    anchor: Option<Seq<char>>,
)
    requires
        applied(st, s, anchor) == Ok::<Seq<(String, Node)>, SetError>(t),
        same_shape(s, t),
        st.target(t, anchor) == st.target(s, anchor),
        forall|n: Node| #[trigger] st.write(n) is Ok ==> st.write(st.write(n)->Ok_0) == st.write(n),
    ensures
        applied(st, t, anchor) == Ok::<Seq<(String, Node)>, SetError>(t),
{
    let id = st.target(s, anchor)->Ok_0;
    lemma_same_shape_id(s, t, id);
    let i = id_index(s, id)->Some_0;
    let m = st.write(s[i].1)->Ok_0;
    assert(t[i].1 == m);
    assert(st.write(m) == Ok::<Node, SetError>(m));
    assert(t.update(i, (t[i].0, m)) =~= t);
}

/// Writing the positive text twice with the same value gives the graph that
/// writing it once gave.
pub proof fn lemma_prompt_idempotent(st: PromptSetter, s: Seq<(String, Node)>, anchor: Option<Seq<char>>)
    requires
        applied(&st, s, anchor) is Ok,
    ensures
        applied(&st, applied(&st, s, anchor)->Ok_0, anchor) == applied(&st, s, anchor),
{
    let t = applied(&st, s, anchor)->Ok_0;
    assert(same_shape(s, t));
    lemma_same_shape_targets(s, t, anchor);
    lemma_reapply(&st, s, t, anchor);
}

/// Writing the negative text twice with the same value gives the graph that
/// writing it once gave.
pub proof fn lemma_negative_idempotent(
    st: NegativePromptSetter,
    s: Seq<(String, Node)>,
    anchor: Option<Seq<char>>,
)
    requires
        applied(&st, s, anchor) is Ok,
    ensures
        applied(&st, applied(&st, s, anchor)->Ok_0, anchor) == applied(&st, s, anchor),
{
    let t = applied(&st, s, anchor)->Ok_0;
    assert(same_shape(s, t));
    lemma_same_shape_targets(s, t, anchor);
    lemma_reapply(&st, s, t, anchor);
}

/// Writing the model twice with the same value gives the graph that writing
/// it once gave.
pub proof fn lemma_model_idempotent(st: ModelSetter, s: Seq<(String, Node)>, anchor: Option<Seq<char>>)
    requires
        applied(&st, s, anchor) is Ok,
    ensures
        applied(&st, applied(&st, s, anchor)->Ok_0, anchor) == applied(&st, s, anchor),
{
    let t = applied(&st, s, anchor)->Ok_0;
    assert(same_shape(s, t));
    lemma_same_shape_targets(s, t, anchor);
    lemma_reapply(&st, s, t, anchor);
}

/// Writing the size twice with the same values gives the graph that writing
/// it once gave.
pub proof fn lemma_size_idempotent(st: SizeSetter, s: Seq<(String, Node)>, anchor: Option<Seq<char>>)
    requires
        applied(&st, s, anchor) is Ok,
    ensures
        applied(&st, applied(&st, s, anchor)->Ok_0, anchor) == applied(&st, s, anchor),
{
    let t = applied(&st, s, anchor)->Ok_0;
    assert(same_shape(s, t));
    lemma_same_shape_targets(s, t, anchor);
    lemma_reapply(&st, s, t, anchor);
}

/// Writing a sampler's seed twice with the same value gives the graph that
/// writing it once gave.
pub proof fn lemma_seed_idempotent(st: SeedSetterT, s: Seq<(String, Node)>, anchor: Option<Seq<char>>)
    requires
        applied(&st, s, anchor) is Ok,
    ensures
        applied(&st, applied(&st, s, anchor)->Ok_0, anchor) == applied(&st, s, anchor),
{
    let t = applied(&st, s, anchor)->Ok_0;
    assert(same_shape(s, t));
    lemma_same_shape_targets(s, t, anchor);
    lemma_reapply(&st, s, t, anchor);
}

/// Anchored at a sampler whose positive conditioning link names a text
/// encoder, the positive-text setter writes that encoder and nothing else,
/// whatever other encoders the graph holds.
pub proof fn lemma_anchored_positive(st: PromptSetter, s: Seq<(String, Node)>, i: int, t: int)
    requires
        ids_unique(s),
        0 <= i < s.len(),
        0 <= t < s.len(),
        s[i].1.spec_conditioning(true) is Some,
        s[i].1.spec_conditioning(true)->Some_0.node_id@ == s[t].0@,
        text_written(s[t].1, st.prompt) is Ok,
    ensures
        applied(&st, s, Some(s[i].0@)) == Ok::<Seq<(String, Node)>, SetError>(
            s.update(t, (s[t].0, text_written(s[t].1, st.prompt)->Ok_0)),
        ),
{
    lemma_id_at(s, i);
    lemma_id_at(s, t);
}

/// Writing the negative text leaves the encoder of the positive text as it
/// was, and still resolves the positive text to it, whenever the two links
/// name different nodes.
pub proof fn lemma_negative_keeps_positive(
    st: NegativePromptSetter,
    s: Seq<(String, Node)>,
    anchor: Option<Seq<char>>,
)
    requires
        applied(&st, s, anchor) is Ok,
        conditioning_target(s, anchor, true) is Ok,
        conditioning_target(s, anchor, false) != conditioning_target(s, anchor, true),
    ensures
        conditioning_target(applied(&st, s, anchor)->Ok_0, anchor, true) == conditioning_target(
            s,
            anchor,
            true,
        ),
        id_index(s, conditioning_target(s, anchor, true)->Ok_0) matches Some(j)
            ==> applied(&st, s, anchor)->Ok_0[j] == s[j],
{
    let t = applied(&st, s, anchor)->Ok_0;
    assert(same_shape(s, t));
    lemma_same_shape_targets(s, t, anchor);
    let p = conditioning_target(s, anchor, true)->Ok_0;
    let n = conditioning_target(s, anchor, false)->Ok_0;
    if let Some(j) = id_index(s, p) {
        let i = id_index(s, n)->Some_0;
        assert(first_with_id(s, p, j));
        assert(first_with_id(s, n, i));
        assert(i != j);
    }
}

/// A zero dimension leaves the stored one exactly as it was; a nonzero one is
/// written; the other fields of the node stay.
pub proof fn lemma_zero_means_unspecified(st: SizeSetter, n: Node)
    requires
        st.write(n) is Ok,
    ensures
        n is EmptyLatentImage,
        st.write(n)->Ok_0 is EmptyLatentImage,
        st.width == 0 ==> (st.write(n)->Ok_0)->EmptyLatentImage_0.width == n->EmptyLatentImage_0.width,
        st.width != 0 ==> (st.write(n)->Ok_0)->EmptyLatentImage_0.width == Some(st.width),
        st.height == 0 ==> (st.write(n)->Ok_0)->EmptyLatentImage_0.height == n->EmptyLatentImage_0.height,
        st.height != 0 ==> (st.write(n)->Ok_0)->EmptyLatentImage_0.height == Some(st.height),
        (st.write(n)->Ok_0)->EmptyLatentImage_0.batch_size == n->EmptyLatentImage_0.batch_size,
{
}

/// In a graph whose only sampler is a custom one with its seed populated,
/// the seed setter for both sampler kinds writes that sampler's `noise_seed`.
pub proof fn lemma_seed_falls_back(seed: i64, s: Seq<(String, Node)>, i: int)
    requires
        ids_unique(s),
        0 <= i < s.len(),
        s[i].1 is SamplerCustom,
        s[i].1->SamplerCustom_0.noise_seed is Some,
        count_kind(s, NodeKind::KSampler) == 0,
        count_kind(s, NodeKind::SamplerCustom) == 1,
    ensures
        fallback(
            applied(&SeedSetterT { seed, sampler: SamplerKind::KSampler }, s, None),
            applied(&SeedSetterT { seed, sampler: SamplerKind::SamplerCustom }, s, None),
        ) == Ok::<Seq<(String, Node)>, SetError>(
            s.update(
                i,
                (
                    s[i].0,
                    Node::SamplerCustom(
                        crate::node::SamplerCustom {
                            noise_seed: Some(seed),
                            ..s[i].1->SamplerCustom_0
                        },
                    ),
                ),
            ),
        ),
{
    lemma_unique_resolves(s, NodeKind::SamplerCustom, i);
    lemma_id_at(s, i);
}

/// In a graph with no sampler of either kind, the seed setter for both
/// sampler kinds fails with the combined failure.
pub proof fn lemma_seed_without_sampler(seed: i64, s: Seq<(String, Node)>)
    requires
        count_kind(s, NodeKind::KSampler) == 0,
        count_kind(s, NodeKind::SamplerCustom) == 0,
    ensures
        fallback(
            applied(&SeedSetterT { seed, sampler: SamplerKind::KSampler }, s, None),
            applied(&SeedSetterT { seed, sampler: SamplerKind::SamplerCustom }, s, None),
        ) == Err::<Seq<(String, Node)>, SetError>(SetError::BothFailed),
{
}

/// The node that a successful kind target names holds that kind.
proof fn lemma_kind_target_kind(s: Seq<(String, Node)>, anchor: Option<Seq<char>>, k: NodeKind)
    requires
        ids_unique(s),
        kind_target(s, anchor, k) is Ok,
    ensures
        id_index(s, kind_target(s, anchor, k)->Ok_0) matches Some(i) ==> s[i].1.spec_kind() == k,
{
    lemma_unique_index_valid(s, k);
    if anchor is None {
        lemma_id_at(s, unique_index(s, k)->Ok_0);
    }
}

/// Setting the seed twice through the setter for both sampler kinds gives
/// the graph that setting it once gave.
pub proof fn lemma_seed_setter_idempotent(
    seed: i64,
    s: Seq<(String, Node)>,
    anchor: Option<Seq<char>>,
)
    requires
        ids_unique(s),
        fallback(
            applied(&SeedSetterT { seed, sampler: SamplerKind::KSampler }, s, anchor),
            applied(&SeedSetterT { seed, sampler: SamplerKind::SamplerCustom }, s, anchor),
        ) is Ok,
    ensures
        ({
            let first = SeedSetterT { seed, sampler: SamplerKind::KSampler };
            let second = SeedSetterT { seed, sampler: SamplerKind::SamplerCustom };
            let t = fallback(applied(&first, s, anchor), applied(&second, s, anchor))->Ok_0;
            fallback(applied(&first, t, anchor), applied(&second, t, anchor)) == Ok::<
                Seq<(String, Node)>,
                SetError,
            >(t)
        }),
{
    let first = SeedSetterT { seed, sampler: SamplerKind::KSampler };
    let second = SeedSetterT { seed, sampler: SamplerKind::SamplerCustom };
    if applied(&first, s, anchor) is Ok {
        lemma_seed_idempotent(first, s, anchor);
    } else {
        lemma_seed_idempotent(second, s, anchor);
        let t = applied(&second, s, anchor)->Ok_0;
        assert(same_shape(s, t));
        lemma_same_shape_targets(s, t, anchor);
        if let Ok(id1) = first.target(s, anchor) {
            lemma_same_shape_id(s, t, id1);
            if let Some(i1) = id_index(s, id1) {
                lemma_kind_target_kind(s, anchor, NodeKind::KSampler);
                let id2 = second.target(s, anchor)->Ok_0;
                lemma_kind_target_kind(s, anchor, NodeKind::SamplerCustom);
                let i2 = id_index(s, id2)->Some_0;
                assert(s[i2].1.spec_kind() == NodeKind::SamplerCustom);
                assert(i1 != i2);
                assert(t[i1] == s[i1]);
            }
        }
    }
}

/// After the positive text was written, reading the positive text through the
/// same anchor gives the value written.
pub proof fn lemma_prompt_read_back(st: PromptSetter, s: Seq<(String, Node)>, anchor: Option<Seq<char>>)
    requires
        applied(&st, s, anchor) is Ok,
    ensures
        read_target(
            applied(&st, s, anchor)->Ok_0,
            conditioning_target(applied(&st, s, anchor)->Ok_0, anchor, true),
            |n: Node| text_of(n),
        ) == Ok::<String, SetError>(st.prompt),
{
    let t = applied(&st, s, anchor)->Ok_0;
    assert(same_shape(s, t));
    lemma_same_shape_targets(s, t, anchor);
    lemma_same_shape_id(s, t, conditioning_target(s, anchor, true)->Ok_0);
}

/// After the model was written, reading the model through the same anchor
/// gives the value written.
pub proof fn lemma_model_read_back(st: ModelSetter, s: Seq<(String, Node)>, anchor: Option<Seq<char>>)
    requires
        applied(&st, s, anchor) is Ok,
    ensures
        read_target(
            applied(&st, s, anchor)->Ok_0,
            kind_target(applied(&st, s, anchor)->Ok_0, anchor, NodeKind::CheckpointLoaderSimple),
            |n: Node| model_of(n),
        ) == Ok::<String, SetError>(st.model),
{
    let t = applied(&st, s, anchor)->Ok_0;
    assert(same_shape(s, t));
    lemma_same_shape_targets(s, t, anchor);
    lemma_same_shape_id(s, t, kind_target(s, anchor, NodeKind::CheckpointLoaderSimple)->Ok_0);
}

/// For every kind `k`: when exactly one node of kind `k` exists, the
/// unanchored kind query, the one the model, size and seed setters resolve
/// through, names that node.
pub proof fn lemma_kind_query_unique(s: Seq<(String, Node)>, k: NodeKind, i: int)
    requires
        0 <= i < s.len(),
        s[i].1.spec_kind() == k,
        count_kind(s, k) == 1,
    ensures
        kind_target(s, None, k) == Ok::<Seq<char>, SetError>(s[i].0@),
{
    lemma_unique_resolves(s, k, i);
}

/// For every kind `k`: with no node of kind `k` the unanchored kind query
/// fails with `NotFound`, and with two or more with `Ambiguous`; no id is
/// guessed.
pub proof fn lemma_kind_query_unresolved(s: Seq<(String, Node)>, k: NodeKind)
    ensures
        (forall|i: int| 0 <= i < s.len() ==> s[i].1.spec_kind() != k) ==> kind_target(s, None, k)
            == Err::<Seq<char>, SetError>(SetError::NotFound),
        (exists|i: int, j: int|
            0 <= i < j < s.len() && s[i].1.spec_kind() == k && s[j].1.spec_kind() == k)
            ==> kind_target(s, None, k) == Err::<Seq<char>, SetError>(SetError::Ambiguous),
{
    crate::prompt::lemma_unresolved(s, k);
}

} // verus!
