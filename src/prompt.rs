use vstd::prelude::*;

use crate::error::SetError;
use crate::node::{Node, NodeKind};

verus! {

/// A workflow graph: nodes keyed by id, in insertion order.
///
/// Insertion order decides the scan order of resolution; ids are unique in a
/// graph built through [`Prompt::insert`].
#[derive(Clone, Debug, PartialEq, Eq)]
pub struct Prompt {
    pub nodes: Vec<(String, Node)>,
}

/// How many entries of `s` hold a node of kind `k`.
pub open spec fn count_kind(s: Seq<(String, Node)>, k: NodeKind) -> nat
    decreases s.len(),
{
    if s.len() == 0 {
        0
    } else {
        count_kind(s.drop_last(), k) + if s.last().1.spec_kind() == k {
            1nat
        } else {
            0nat
        }
    }
}

/// `i` is the first position of `s` whose id is `id`.
pub open spec fn first_with_id(s: Seq<(String, Node)>, id: Seq<char>, i: int) -> bool {
    0 <= i < s.len() && s[i].0@ == id && forall|j: int| 0 <= j < i ==> s[j].0@ != id
}

/// The position of the node named `id`, if there is one.
pub open spec fn id_index(s: Seq<(String, Node)>, id: Seq<char>) -> Option<int> {
    if exists|i: int| first_with_id(s, id, i) {
        Some(choose|i: int| first_with_id(s, id, i))
    } else {
        None
    }
}

/// The unanchored query: the position of the single node of kind `k`.
pub open spec fn unique_index(s: Seq<(String, Node)>, k: NodeKind) -> Result<int, SetError> {
    if count_kind(s, k) == 0 {
        Err(SetError::NotFound)
    } else if count_kind(s, k) >= 2 {
        Err(SetError::Ambiguous)
    } else {
        Ok(choose|i: int| 0 <= i < s.len() && s[i].1.spec_kind() == k)
    }
}

/// The implicit anchor: the single standard sampler, else the single custom
/// sampler. Failing both, `Ambiguous` if either kind occurs more than once.
pub open spec fn implicit_sampler(s: Seq<(String, Node)>) -> Result<int, SetError> {
    match unique_index(s, NodeKind::KSampler) {
        Ok(i) => Ok(i),
        Err(e1) => match unique_index(s, NodeKind::SamplerCustom) {
            Ok(i) => Ok(i),
            Err(e2) => Err(
                if e1 == SetError::Ambiguous || e2 == SetError::Ambiguous {
                    SetError::Ambiguous
                } else {
                    SetError::NotFound
                },
            ),
        },
    }
}

/// The sampler that anchors a conditioning query: the named node, or the
/// implicit anchor when no name is given.
pub open spec fn anchor_index(s: Seq<(String, Node)>, anchor: Option<Seq<char>>) -> Result<
    int,
    SetError,
> {
    match anchor {
        Some(a) => match id_index(s, a) {
            Some(i) => Ok(i),
            None => Err(SetError::NotFound),
        },
        None => implicit_sampler(s),
    }
}

/// The id named by the positive (or negative) conditioning link of the
/// anchoring sampler, when that id names a text encoder.
pub open spec fn conditioning_target(
    s: Seq<(String, Node)>,
    anchor: Option<Seq<char>>,
    positive: bool,
) -> Result<Seq<char>, SetError> {
    match anchor_index(s, anchor) {
        Ok(i) => match s[i].1.spec_conditioning(positive) {
            Some(l) => match id_index(s, l.node_id@) {
                Some(j) => if s[j].1.spec_kind() == NodeKind::CLIPTextEncode {
                    Ok(l.node_id@)
                } else {
                    Err(SetError::NotFound)
                },
                None => Err(SetError::NotFound),
            },
            None => Err(SetError::NotFound),
        },
        Err(e) => Err(e),
    }
}

/// The id of the node of kind `k`: the single one when no anchor is given,
/// else the anchor itself when it is of kind `k`.
pub open spec fn kind_target(s: Seq<(String, Node)>, anchor: Option<Seq<char>>, k: NodeKind) -> Result<
    Seq<char>,
    SetError,
> {
    match anchor {
        Some(a) => match id_index(s, a) {
            Some(i) => if s[i].1.spec_kind() == k {
                Ok(a)
            } else {
                Err(SetError::NotFound)
            },
            None => Err(SetError::NotFound),
        },
        None => match unique_index(s, k) {
            Ok(i) => Ok(s[i].0@),
            Err(e) => Err(e),
        },
    }
}

/// Ids in `s` are pairwise distinct.
pub open spec fn ids_unique(s: Seq<(String, Node)>) -> bool {
    forall|i: int, j: int| 0 <= i < j < s.len() ==> s[i].0@ != s[j].0@
}

/// The view of an optional id.
pub open spec fn opt_id(a: Option<&String>) -> Option<Seq<char>> {
    match a {
        Some(s) => Some(s@),
        None => None,
    }
}

/// Counting over a prefix never exceeds counting over the whole.
proof fn lemma_count_prefix(s: Seq<(String, Node)>, k: NodeKind, n: int)
    requires
        0 <= n <= s.len(),
    ensures
        count_kind(s.subrange(0, n), k) <= count_kind(s, k),
    decreases s.len() - n,
{
    if n < s.len() {
        lemma_count_prefix(s, k, n + 1);
        assert(s.subrange(0, n + 1).drop_last() =~= s.subrange(0, n));
    } else {
        assert(s.subrange(0, n) =~= s);
    }
}

/// A node of kind `k` at position `i` adds one to the count of the prefix
/// that ends with it.
proof fn lemma_count_step(s: Seq<(String, Node)>, k: NodeKind, i: int)
    requires
        0 <= i < s.len(),
    ensures
        count_kind(s.subrange(0, i + 1), k) == count_kind(s.subrange(0, i), k) + if s[i].1.spec_kind()
            == k {
            1nat
        } else {
            0nat
        },
{
    assert(s.subrange(0, i + 1).drop_last() =~= s.subrange(0, i));
}

/// Two distinct positions holding kind `k` make the count at least two.
proof fn lemma_two_make_ambiguous(s: Seq<(String, Node)>, k: NodeKind, i: int, j: int)
    requires
        0 <= i < j < s.len(),
        s[i].1.spec_kind() == k,
        s[j].1.spec_kind() == k,
    ensures
        count_kind(s, k) >= 2,
{
    lemma_count_step(s, k, i);
    lemma_count_step(s, k, j);
    assert(s.subrange(0, j).subrange(0, i + 1) =~= s.subrange(0, i + 1));
    lemma_count_prefix(s.subrange(0, j), k, i + 1);
    lemma_count_prefix(s, k, j + 1);
}

/// A positive count means some position holds kind `k`.
proof fn lemma_count_witness(s: Seq<(String, Node)>, k: NodeKind)
    requires
        count_kind(s, k) > 0,
    ensures
        exists|i: int| 0 <= i < s.len() && s[i].1.spec_kind() == k,
    decreases s.len(),
{
    if s.last().1.spec_kind() != k {
        lemma_count_witness(s.drop_last(), k);
        let i = choose|i: int| 0 <= i < s.drop_last().len() && s.drop_last()[i].1.spec_kind() == k;
        assert(s[i] == s.drop_last()[i]);
    } else {
        assert(s[s.len() - 1].1.spec_kind() == k);
    }
}

/// A successful unanchored query names a position that holds kind `k`.
pub proof fn lemma_unique_index_valid(s: Seq<(String, Node)>, k: NodeKind)
    ensures
        unique_index(s, k) is Ok ==> 0 <= unique_index(s, k)->Ok_0 < s.len() && s[unique_index(
            s,
            k,
        )->Ok_0].1.spec_kind() == k,
{
    if count_kind(s, k) == 1 {
        lemma_count_witness(s, k);
    }
}

/// When exactly one node of kind `k` exists, the unanchored query returns its
/// position, wherever it stands.
pub proof fn lemma_unique_resolves(s: Seq<(String, Node)>, k: NodeKind, i: int)
    requires
        0 <= i < s.len(),
        s[i].1.spec_kind() == k,
        count_kind(s, k) == 1,
    ensures
        unique_index(s, k) == Ok::<int, SetError>(i),
{
    let c = choose|c: int| 0 <= c < s.len() && s[c].1.spec_kind() == k;
    if c != i {
        if c < i {
            lemma_two_make_ambiguous(s, k, c, i);
        } else {
            lemma_two_make_ambiguous(s, k, i, c);
        }
    }
}

/// When no node, or more than one node, of kind `k` exists, the unanchored
/// query fails with `NotFound` or `Ambiguous` respectively.
pub proof fn lemma_unresolved(s: Seq<(String, Node)>, k: NodeKind)
    ensures
        (forall|i: int| 0 <= i < s.len() ==> s[i].1.spec_kind() != k) ==> unique_index(s, k)
            == Err::<int, SetError>(SetError::NotFound),
        (exists|i: int, j: int|
            0 <= i < j < s.len() && s[i].1.spec_kind() == k && s[j].1.spec_kind() == k)
            ==> unique_index(s, k) == Err::<int, SetError>(SetError::Ambiguous),
{
    if count_kind(s, k) > 0 {
        lemma_count_witness(s, k);
    }
    if exists|i: int, j: int|
        0 <= i < j < s.len() && s[i].1.spec_kind() == k && s[j].1.spec_kind() == k {
        let (i, j) = choose|i: int, j: int|
            0 <= i < j < s.len() && s[i].1.spec_kind() == k && s[j].1.spec_kind() == k;
        lemma_two_make_ambiguous(s, k, i, j);
    }
}

impl Prompt {
    /// Well-formed: ids are pairwise distinct.
    pub open spec fn wf(&self) -> bool {
        ids_unique(self.nodes@)
    }

    /// Whether the ids of the graph are pairwise distinct.
    pub fn ids_are_unique(&self) -> (r: bool)
        ensures
            r == self.wf(),
    {
        let mut i: usize = 0;
        while i < self.nodes.len()
            invariant
                0 <= i <= self.nodes@.len(),
                forall|a: int, b: int| 0 <= a < b < self.nodes@.len() && a < i ==> self.nodes@[a].0@ != self.nodes@[b].0@,
            decreases self.nodes@.len() - i,
        {
            let mut j: usize = i + 1;
            while j < self.nodes.len()
                invariant
                    0 <= i < self.nodes@.len(),
                    i + 1 <= j <= self.nodes@.len(),
                    forall|a: int, b: int| 0 <= a < b < self.nodes@.len() && a < i ==> self.nodes@[a].0@ != self.nodes@[b].0@,
                    forall|b: int| i < b < j ==> self.nodes@[i as int].0@ != self.nodes@[b].0@,
                decreases self.nodes@.len() - j,
            {
                if self.nodes[i].0 == self.nodes[j].0 {
                    return false;
                }
                j = j + 1;
            }
            i = i + 1;
        }
        true
    }

    /// An empty graph.
    pub fn new() -> (r: Prompt)
        ensures
            r.nodes@ == Seq::<(String, Node)>::empty(),
            r.wf(),
    {
        Prompt { nodes: Vec::new() }
    }

    /// Appends `node` under `id`, unless a node of that id is already present.
    pub fn insert(&mut self, id: String, node: Node) -> (added: bool)
        ensures
            added == (id_index(old(self).nodes@, id@) is None),
            added ==> final(self).nodes@ == old(self).nodes@.push((id, node)),
            !added ==> final(self).nodes@ == old(self).nodes@,
            ids_unique(old(self).nodes@) ==> ids_unique(final(self).nodes@),
    {
        match self.index_of(&id) {
            Some(_) => false,
            None => {
                self.nodes.push((id, node));
                true
            },
        }
    }

    /// The position of the first node named `id`.
    pub fn index_of(&self, id: &String) -> (r: Option<usize>)
        ensures
            match r {
                Some(i) => id_index(self.nodes@, id@) == Some(i as int),
                None => id_index(self.nodes@, id@) is None,
            },
            r is None ==> forall|j: int| 0 <= j < self.nodes@.len() ==> self.nodes@[j].0@ != id@,
            r is Some ==> first_with_id(self.nodes@, id@, r->Some_0 as int),
    {
        let mut i: usize = 0;
        while i < self.nodes.len()
            invariant
                0 <= i <= self.nodes@.len(),
                forall|j: int| 0 <= j < i ==> self.nodes@[j].0@ != id@,
            decreases self.nodes@.len() - i,
        {
            if self.nodes[i].0 == *id {
                proof {
                    assert(first_with_id(self.nodes@, id@, i as int));
                    let c = choose|c: int| first_with_id(self.nodes@, id@, c);
                    assert(c == i as int);
                }
                return Some(i);
            }
            i = i + 1;
        }
        None
    }

    /// The node named `id`.
    pub fn get(&self, id: &String) -> (r: Result<&Node, SetError>)
        ensures
            match id_index(self.nodes@, id@) {
                Some(i) => r == Ok::<&Node, SetError>(&self.nodes@[i].1),
                None => r == Err::<&Node, SetError>(SetError::NotFound),
            },
    {
        match self.index_of(id) {
            Some(i) => Ok(&self.nodes[i].1),
            None => Err(SetError::NotFound),
        }
    }

    /// The unanchored query: the position of the single node of kind `k`.
    pub fn find_unique(&self, k: NodeKind) -> (r: Result<usize, SetError>)
        ensures
            match r {
                Ok(i) => unique_index(self.nodes@, k) == Ok::<int, SetError>(i as int),
                Err(e) => unique_index(self.nodes@, k) == Err::<int, SetError>(e),
            },
            r is Ok ==> r->Ok_0 < self.nodes@.len() && self.nodes@[r->Ok_0 as int].1.spec_kind() == k,
    {
        let s = Ghost(self.nodes@);
        let mut found: Option<usize> = None;
        let mut i: usize = 0;
        while i < self.nodes.len()
            invariant
                0 <= i <= s@.len(),
                s@ == self.nodes@,
                match found {
                    None => count_kind(s@.subrange(0, i as int), k) == 0,
                    Some(f) => count_kind(s@.subrange(0, i as int), k) == 1 && f < i
                        && s@[f as int].1.spec_kind() == k,
                },
            decreases s@.len() - i,
        {
            proof {
                lemma_count_step(s@, k, i as int);
            }
            if self.nodes[i].1.kind() == k {
                if let Some(f) = found {
                    proof {
                        lemma_two_make_ambiguous(s@, k, f as int, i as int);
                    }
                    return Err(SetError::Ambiguous);
                }
                found = Some(i);
            }
            i = i + 1;
        }
        assert(s@.subrange(0, s@.len() as int) =~= s@);
        match found {
            None => Err(SetError::NotFound),
            Some(f) => {
                proof {
                    lemma_unique_resolves(s@, k, f as int);
                }
                Ok(f)
            },
        }
    }

    /// The sampler that anchors a conditioning query: the node named `anchor`,
    /// or the implicit anchor when none is given.
    pub fn find_sampler(&self, anchor: Option<&String>) -> (r: Result<usize, SetError>)
        ensures
            match r {
                Ok(i) => anchor_index(self.nodes@, opt_id(anchor)) == Ok::<int, SetError>(i as int),
                Err(e) => anchor_index(self.nodes@, opt_id(anchor)) == Err::<int, SetError>(e),
            },
            r is Ok ==> r->Ok_0 < self.nodes@.len(),
    {
        match anchor {
            Some(a) => match self.index_of(a) {
                Some(i) => Ok(i),
                None => Err(SetError::NotFound),
            },
            None => match self.find_unique(NodeKind::KSampler) {
                Ok(i) => Ok(i),
                Err(e1) => match self.find_unique(NodeKind::SamplerCustom) {
                    Ok(i) => Ok(i),
                    Err(e2) => if e1 == SetError::Ambiguous || e2 == SetError::Ambiguous {
                        Err(SetError::Ambiguous)
                    } else {
                        Err(SetError::NotFound)
                    },
                },
            },
        }
    }

    /// The anchored query: the id named by the positive (or negative)
    /// conditioning link of the anchoring sampler.
    pub fn conditioning_target(&self, anchor: Option<&String>, positive: bool) -> (r: Result<
        String,
        SetError,
    >)
        ensures
            match conditioning_target(self.nodes@, opt_id(anchor), positive) {
                Ok(id) => r is Ok && r->Ok_0@ == id,
                Err(e) => r == Err::<String, SetError>(e),
            },
    {
        match self.find_sampler(anchor) {
            Ok(i) => match self.nodes[i].1.conditioning_id(positive) {
                Some(id) => match self.index_of(&id) {
                    Some(j) => if self.nodes[j].1.kind() == NodeKind::CLIPTextEncode {
                        Ok(id)
                    } else {
                        Err(SetError::NotFound)
                    },
                    None => Err(SetError::NotFound),
                },
                None => Err(SetError::NotFound),
            },
            Err(e) => Err(e),
        }
    }

    /// The id of the node of kind `k`: the single one when no anchor is
    /// given, else the anchor itself when it is of kind `k`.
    pub fn kind_target(&self, anchor: Option<&String>, k: NodeKind) -> (r: Result<String, SetError>)
        ensures
            match kind_target(self.nodes@, opt_id(anchor), k) {
                Ok(id) => r is Ok && r->Ok_0@ == id,
                Err(e) => r == Err::<String, SetError>(e),
            },
    {
        match anchor {
            Some(a) => match self.index_of(a) {
                Some(i) => if self.nodes[i].1.kind() == k {
                    Ok(a.clone())
                } else {
                    Err(SetError::NotFound)
                },
                None => Err(SetError::NotFound),
            },
            None => match self.find_unique(k) {
                Ok(i) => Ok(self.nodes[i].0.clone()),
                Err(e) => Err(e),
            },
        }
    }
}

} // verus!
