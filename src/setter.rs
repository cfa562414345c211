use vstd::prelude::*;

use crate::error::SetError;
use crate::node::{
    CLIPTextEncode, CheckpointLoaderSimple, EmptyLatentImage, KSampler, Node, NodeKind,
    SamplerCustom, SamplerKind,
};
use crate::prompt::{
    conditioning_target, id_index, ids_unique, kind_target, opt_id, unique_index, Prompt,
};

verus! {

/// A value bound for one field of one node kind, with the rule that finds the
/// node it goes to.
pub trait NodeSetter {
    /// The node that writing this setter's value into `n` gives, or why it
    /// cannot be written.
    spec fn write(&self, n: Node) -> Result<Node, SetError>;

    /// The id of the node this setter writes to in the graph `s`, resolved
    /// through `anchor` when one is given.
    spec fn target(&self, s: Seq<(String, Node)>, anchor: Option<Seq<char>>) -> Result<
        Seq<char>,
        SetError,
    >;

    /// Writes the value into `node`; leaves it unchanged on failure.
    fn set_value(&self, node: &mut Node) -> (r: Result<(), SetError>)
        ensures
            match self.write(*old(node)) {
                Ok(n) => r is Ok && *final(node) == n,
                Err(e) => r == Err::<(), SetError>(e) && *final(node) == *old(node),
            },
    ;

    /// Resolves the id of the node to write to.
    fn find_node(&self, prompt: &Prompt, anchor: Option<&String>) -> (r: Result<String, SetError>)
        ensures
            match self.target(prompt.nodes@, opt_id(anchor)) {
                Ok(id) => r is Ok && r->Ok_0@ == id,
                Err(e) => r == Err::<String, SetError>(e),
            },
    ;
}

/// A setter applied to a whole graph: resolution and write together.
pub trait Setter {
    /// The graph after this setter resolved its node in `s`, through `anchor`
    /// when one is given, and wrote its value there.
    spec fn applied_by(&self, s: Seq<(String, Node)>, anchor: Option<Seq<char>>) -> Result<
        Seq<(String, Node)>,
        SetError,
    >;

    /// The graph after this setter wrote its value into the node named `id`.
    spec fn written_by(&self, s: Seq<(String, Node)>, id: Seq<char>) -> Result<
        Seq<(String, Node)>,
        SetError,
    >;

    /// Resolves the node without an anchor and writes the value there.
    fn set(&self, prompt: &mut Prompt) -> (r: Result<(), SetError>)
        requires
            old(prompt).wf(),
        ensures
            outcome(r, old(prompt).nodes@, final(prompt).nodes@, self.applied_by(old(prompt).nodes@, None)),
            final(prompt).wf(),
    ;

    /// Resolves the node through the node named `anchor` and writes the
    /// value there.
    fn set_from(&self, prompt: &mut Prompt, anchor: &String) -> (r: Result<(), SetError>)
        requires
            old(prompt).wf(),
        ensures
            outcome(
                r,
                old(prompt).nodes@,
                final(prompt).nodes@,
                self.applied_by(old(prompt).nodes@, Some(anchor@)),
            ),
            final(prompt).wf(),
    ;

    /// Writes the value into the node named `node`, without resolution.
    fn set_node(&self, prompt: &mut Prompt, node: &String) -> (r: Result<(), SetError>)
        requires
            old(prompt).wf(),
        ensures
            outcome(r, old(prompt).nodes@, final(prompt).nodes@, self.written_by(old(prompt).nodes@, node@)),
            final(prompt).wf(),
    ;
}

/// The graph after writing `st`'s value into the node at position `i`.
pub open spec fn written_at<S: NodeSetter>(st: &S, s: Seq<(String, Node)>, i: int) -> Result<
    Seq<(String, Node)>,
    SetError,
> {
    match st.write(s[i].1) {
        Ok(n) => Ok(s.update(i, (s[i].0, n))),
        Err(e) => Err(e),
    }
}

/// The graph after writing `st`'s value into the node named `id`.
pub open spec fn written_to<S: NodeSetter>(st: &S, s: Seq<(String, Node)>, id: Seq<char>) -> Result<
    Seq<(String, Node)>,
    SetError,
> {
    match id_index(s, id) {
        Some(i) => written_at(st, s, i),
        None => Err(SetError::NotFound),
    }
}

/// The graph after resolving `st`'s target through `anchor` and writing there.
pub open spec fn applied<S: NodeSetter>(st: &S, s: Seq<(String, Node)>, anchor: Option<Seq<char>>) -> Result<
    Seq<(String, Node)>,
    SetError,
> {
    match st.target(s, anchor) {
        Ok(id) => written_to(st, s, id),
        Err(e) => Err(e),
    }
}

/// `r` reports `expected`: on success the graph became the expected one, on
/// failure it stayed as it was.
pub open spec fn outcome(
    r: Result<(), SetError>,
    before: Seq<(String, Node)>,
    after: Seq<(String, Node)>,
    expected: Result<Seq<(String, Node)>, SetError>,
) -> bool {
    match expected {
        Ok(s) => r is Ok && after == s,
        Err(e) => r == Err::<(), SetError>(e) && after == before,
    }
}

/// The first of two attempts that succeeded; `BothFailed` if neither did.
pub open spec fn fallback<T>(a: Result<T, SetError>, b: Result<T, SetError>) -> Result<T, SetError> {
    match a {
        Ok(x) => Ok(x),
        Err(_) => match b {
            Ok(y) => Ok(y),
            Err(_) => Err(SetError::BothFailed),
        },
    }
}

/// Writes `st`'s value into the node named `node` with `set_value`: the
/// write of a setter that targets a single node.
fn write_named<S: NodeSetter>(st: &S, prompt: &mut Prompt, node: &String) -> (r: Result<(), SetError>)
    requires
        old(prompt).wf(),
    ensures
        outcome(r, old(prompt).nodes@, final(prompt).nodes@, written_to(st, old(prompt).nodes@, node@)),
        final(prompt).wf(),
{
    match prompt.index_of(node) {
        None => Err(SetError::NotFound),
        Some(i) => {
            let ghost before = prompt.nodes@;
            let (id, mut n) = prompt.nodes.remove(i);
            let r = st.set_value(&mut n);
            prompt.nodes.insert(i, (id, n));
            proof {
                assert(before.remove(i as int).insert(i as int, (before[i as int].0, n)) =~= before.update(
                    i as int,
                    (before[i as int].0, n),
                ));
                if r is Err {
                    assert(before.update(i as int, before[i as int]) =~= before);
                }
            }
            r
        },
    }
}

/// Resolves `st`'s node with `find_node` and writes there: the resolution of
/// a setter that targets a single node.
fn write_resolved<S: NodeSetter>(st: &S, prompt: &mut Prompt, anchor: Option<&String>) -> (r: Result<
    (),
    SetError,
>)
    requires
        old(prompt).wf(),
    ensures
        outcome(r, old(prompt).nodes@, final(prompt).nodes@, applied(st, old(prompt).nodes@, opt_id(anchor))),
        final(prompt).wf(),
{
    match st.find_node(prompt, anchor) {
        Ok(id) => write_named(st, prompt, &id),
        Err(e) => Err(e),
    }
}

/// Writes `st`'s value into the node named `node`, without resolution.
pub fn apply_to<S: Setter>(st: &S, prompt: &mut Prompt, node: &String) -> (r: Result<(), SetError>)
    requires
        old(prompt).wf(),
    ensures
        outcome(r, old(prompt).nodes@, final(prompt).nodes@, st.written_by(old(prompt).nodes@, node@)),
        final(prompt).wf(),
{
    st.set_node(prompt, node)
}

/// Resolves `st`'s node through the node named `anchor` and writes there.
pub fn apply_from<S: Setter>(st: &S, prompt: &mut Prompt, anchor: &String) -> (r: Result<(), SetError>)
    requires
        old(prompt).wf(),
    ensures
        outcome(r, old(prompt).nodes@, final(prompt).nodes@, st.applied_by(old(prompt).nodes@, Some(anchor@))),
        final(prompt).wf(),
{
    st.set_from(prompt, anchor)
}

/// Resolves `st`'s node without an anchor and writes there.
pub fn apply<S: Setter>(st: &S, prompt: &mut Prompt) -> (r: Result<(), SetError>)
    requires
        old(prompt).wf(),
    ensures
        outcome(r, old(prompt).nodes@, final(prompt).nodes@, st.applied_by(old(prompt).nodes@, None)),
        final(prompt).wf(),
{
    st.set(prompt)
}

/// Setters applied as methods of the graph.
pub trait SetterExt {
    /// The nodes of the graph, in order.
    spec fn entries(&self) -> Seq<(String, Node)>;

    /// Resolves `st`'s node without an anchor and writes there.
    fn set<S: Setter>(&mut self, st: &S) -> (r: Result<(), SetError>)
        requires
            ids_unique(old(self).entries()),
        ensures
            outcome(r, old(self).entries(), final(self).entries(), st.applied_by(old(self).entries(), None)),
            ids_unique(final(self).entries()),
    ;

    /// Resolves `st`'s node through the node named `output_node` and writes
    /// there.
    fn set_from<S: Setter>(&mut self, output_node: &String, st: &S) -> (r: Result<(), SetError>)
        requires
            ids_unique(old(self).entries()),
        ensures
            outcome(
                r,
                old(self).entries(),
                final(self).entries(),
                st.applied_by(old(self).entries(), Some(output_node@)),
            ),
            ids_unique(final(self).entries()),
    ;

    /// Writes `st`'s value into the node named `node`.
    fn set_node<S: Setter>(&mut self, node: &String, st: &S) -> (r: Result<(), SetError>)
        requires
            ids_unique(old(self).entries()),
        ensures
            outcome(r, old(self).entries(), final(self).entries(), st.written_by(old(self).entries(), node@)),
            ids_unique(final(self).entries()),
    ;
}

impl SetterExt for Prompt {
    open spec fn entries(&self) -> Seq<(String, Node)> {
        self.nodes@
    }

    fn set<S: Setter>(&mut self, st: &S) -> (r: Result<(), SetError>) {
        st.set(self)
    }

    fn set_from<S: Setter>(&mut self, output_node: &String, st: &S) -> (r: Result<(), SetError>) {
        st.set_from(self, output_node)
    }

    fn set_node<S: Setter>(&mut self, node: &String, st: &S) -> (r: Result<(), SetError>) {
        st.set_node(self, node)
    }
}

/// `r` and the graph `after` report running `f` on the node at position `i`
/// of `before`: on success that node is replaced by what `f` returned.
pub open spec fn closure_outcome<F: FnOnce(&Node) -> Result<Node, SetError>>(
    f: F,
    r: Result<(), SetError>,
    before: Seq<(String, Node)>,
    after: Seq<(String, Node)>,
    i: int,
) -> bool {
    match r {
        Ok(()) => after.len() == before.len() && f.ensures((&before[i].1,), Ok::<Node, SetError>(after[i].1))
            && after == before.update(i, (before[i].0, after[i].1)),
        Err(e) => f.ensures((&before[i].1,), Err::<Node, SetError>(e)) && after == before,
    }
}

/// Node edits given as closures, applied as methods of the graph.
pub trait SetExt {
    /// The nodes of the graph, in order.
    spec fn nodes_in(&self) -> Seq<(String, Node)>;

    /// Runs `f` on the single node of kind `k` and stores the node it returns.
    fn set_with<F: FnOnce(&Node) -> Result<Node, SetError>>(&mut self, k: NodeKind, f: F) -> (r: Result<
        (),
        SetError,
    >)
        requires
            forall|n: &Node| f.requires((n,)),
        ensures
            match unique_index(old(self).nodes_in(), k) {
                Ok(i) => closure_outcome(f, r, old(self).nodes_in(), final(self).nodes_in(), i),
                Err(e) => r == Err::<(), SetError>(e) && final(self).nodes_in() == old(self).nodes_in(),
            },
    ;

    /// Runs `f` on the node named `node` and stores the node it returns.
    fn set_node_with<F: FnOnce(&Node) -> Result<Node, SetError>>(&mut self, node: &String, f: F) -> (r:
        Result<(), SetError>)
        requires
            forall|n: &Node| f.requires((n,)),
        ensures
            match id_index(old(self).nodes_in(), node@) {
                Some(i) => closure_outcome(f, r, old(self).nodes_in(), final(self).nodes_in(), i),
                None => r == Err::<(), SetError>(SetError::NotFound) && final(self).nodes_in() == old(
                    self,
                ).nodes_in(),
            },
    ;
}

/// Runs `f` on the node at position `i` and stores the node it returns.
fn replace_with<F: FnOnce(&Node) -> Result<Node, SetError>>(prompt: &mut Prompt, i: usize, f: F) -> (r:
    Result<(), SetError>)
    requires
        i < old(prompt).nodes@.len(),
        forall|n: &Node| f.requires((n,)),
    ensures
        closure_outcome(f, r, old(prompt).nodes@, final(prompt).nodes@, i as int),
{
    match f(&prompt.nodes[i].1) {
        Ok(m) => {
            let ghost before = prompt.nodes@;
            let (id, _) = prompt.nodes.remove(i);
            prompt.nodes.insert(i, (id, m));
            proof {
                assert(before.remove(i as int).insert(i as int, (before[i as int].0, m)) =~= before.update(
                    i as int,
                    (before[i as int].0, m),
                ));
            }
            Ok(())
        },
        Err(e) => Err(e),
    }
}

impl SetExt for Prompt {
    open spec fn nodes_in(&self) -> Seq<(String, Node)> {
        self.nodes@
    }

    fn set_with<F: FnOnce(&Node) -> Result<Node, SetError>>(&mut self, k: NodeKind, f: F) -> (r: Result<
        (),
        SetError,
    >) {
        match self.find_unique(k) {
            Ok(i) => replace_with(self, i, f),
            Err(e) => Err(e),
        }
    }

    fn set_node_with<F: FnOnce(&Node) -> Result<Node, SetError>>(&mut self, node: &String, f: F) -> (r:
        Result<(), SetError>) {
        match self.index_of(node) {
            Some(i) => replace_with(self, i, f),
            None => Err(SetError::NotFound),
        }
    }
}

/// The text encoder `n` with its text replaced by `text`.
pub open spec fn text_written(n: Node, text: String) -> Result<Node, SetError> {
    match n {
        Node::CLIPTextEncode(t) => if t.text is Some {
            Ok(Node::CLIPTextEncode(CLIPTextEncode { text: Some(text), ..t }))
        } else {
            Err(SetError::FieldUnset)
        },
        _ => Err(SetError::KindMismatch),
    }
}

/// Writes the text of the encoder that the positive conditioning link of a
/// sampler names.
pub struct PromptSetter {
    pub prompt: String,
}

impl PromptSetter {
    pub fn new(prompt: String) -> (r: PromptSetter)
        ensures
            r.prompt == prompt,
    {
        PromptSetter { prompt }
    }
}

impl NodeSetter for PromptSetter {
    open spec fn write(&self, n: Node) -> Result<Node, SetError> {
        text_written(n, self.prompt)
    }

    open spec fn target(&self, s: Seq<(String, Node)>, anchor: Option<Seq<char>>) -> Result<
        Seq<char>,
        SetError,
    > {
        conditioning_target(s, anchor, true)
    }

    fn set_value(&self, node: &mut Node) -> (r: Result<(), SetError>) {
        match node {
            Node::CLIPTextEncode(t) => if t.text.is_some() {
                t.text = Some(self.prompt.clone());
                Ok(())
            } else {
                Err(SetError::FieldUnset)
            },
            _ => Err(SetError::KindMismatch),
        }
    }

    fn find_node(&self, prompt: &Prompt, anchor: Option<&String>) -> (r: Result<String, SetError>) {
        prompt.conditioning_target(anchor, true)
    }
}

impl Setter for PromptSetter {
    open spec fn applied_by(&self, s: Seq<(String, Node)>, anchor: Option<Seq<char>>) -> Result<
        Seq<(String, Node)>,
        SetError,
    > {
        applied(self, s, anchor)
    }

    open spec fn written_by(&self, s: Seq<(String, Node)>, id: Seq<char>) -> Result<
        Seq<(String, Node)>,
        SetError,
    > {
        written_to(self, s, id)
    }

    fn set(&self, prompt: &mut Prompt) -> (r: Result<(), SetError>) {
        write_resolved(self, prompt, None)
    }

    fn set_from(&self, prompt: &mut Prompt, anchor: &String) -> (r: Result<(), SetError>) {
        write_resolved(self, prompt, Some(anchor))
    }

    fn set_node(&self, prompt: &mut Prompt, node: &String) -> (r: Result<(), SetError>) {
        write_named(self, prompt, node)
    }
}

/// Writes the text of the encoder that the negative conditioning link of a
/// sampler names.
pub struct NegativePromptSetter {
    pub prompt: String,
}

impl NegativePromptSetter {
    pub fn new(prompt: String) -> (r: NegativePromptSetter)
        ensures
            r.prompt == prompt,
    {
        NegativePromptSetter { prompt }
    }
}

impl NodeSetter for NegativePromptSetter {
    open spec fn write(&self, n: Node) -> Result<Node, SetError> {
        text_written(n, self.prompt)
    }

    open spec fn target(&self, s: Seq<(String, Node)>, anchor: Option<Seq<char>>) -> Result<
        Seq<char>,
        SetError,
    > {
        conditioning_target(s, anchor, false)
    }

    /// The field is the same as the positive text's: the write is shared.
    fn set_value(&self, node: &mut Node) -> (r: Result<(), SetError>) {
        PromptSetter::new(self.prompt.clone()).set_value(node)
    }

    fn find_node(&self, prompt: &Prompt, anchor: Option<&String>) -> (r: Result<String, SetError>) {
        prompt.conditioning_target(anchor, false)
    }
}

impl Setter for NegativePromptSetter {
    open spec fn applied_by(&self, s: Seq<(String, Node)>, anchor: Option<Seq<char>>) -> Result<
        Seq<(String, Node)>,
        SetError,
    > {
        applied(self, s, anchor)
    }

    open spec fn written_by(&self, s: Seq<(String, Node)>, id: Seq<char>) -> Result<
        Seq<(String, Node)>,
        SetError,
    > {
        written_to(self, s, id)
    }

    fn set(&self, prompt: &mut Prompt) -> (r: Result<(), SetError>) {
        write_resolved(self, prompt, None)
    }

    fn set_from(&self, prompt: &mut Prompt, anchor: &String) -> (r: Result<(), SetError>) {
        write_resolved(self, prompt, Some(anchor))
    }

    fn set_node(&self, prompt: &mut Prompt, node: &String) -> (r: Result<(), SetError>) {
        write_named(self, prompt, node)
    }
}

/// Writes the checkpoint name of the single checkpoint loader.
pub struct ModelSetter {
    pub model: String,
}

impl ModelSetter {
    pub fn new(model: String) -> (r: ModelSetter)
        ensures
            r.model == model,
    {
        ModelSetter { model }
    }
}

impl NodeSetter for ModelSetter {
    open spec fn write(&self, n: Node) -> Result<Node, SetError> {
        match n {
            Node::CheckpointLoaderSimple(c) => if c.ckpt_name is Some {
                Ok(Node::CheckpointLoaderSimple(CheckpointLoaderSimple { ckpt_name: Some(self.model) }))
            } else {
                Err(SetError::FieldUnset)
            },
            _ => Err(SetError::KindMismatch),
        }
    }

    open spec fn target(&self, s: Seq<(String, Node)>, anchor: Option<Seq<char>>) -> Result<
        Seq<char>,
        SetError,
    > {
        kind_target(s, anchor, NodeKind::CheckpointLoaderSimple)
    }

    fn set_value(&self, node: &mut Node) -> (r: Result<(), SetError>) {
        match node {
            Node::CheckpointLoaderSimple(c) => if c.ckpt_name.is_some() {
                c.ckpt_name = Some(self.model.clone());
                Ok(())
            } else {
                Err(SetError::FieldUnset)
            },
            _ => Err(SetError::KindMismatch),
        }
    }

    fn find_node(&self, prompt: &Prompt, anchor: Option<&String>) -> (r: Result<String, SetError>) {
        prompt.kind_target(anchor, NodeKind::CheckpointLoaderSimple)
    }
}

impl Setter for ModelSetter {
    open spec fn applied_by(&self, s: Seq<(String, Node)>, anchor: Option<Seq<char>>) -> Result<
        Seq<(String, Node)>,
        SetError,
    > {
        applied(self, s, anchor)
    }

    open spec fn written_by(&self, s: Seq<(String, Node)>, id: Seq<char>) -> Result<
        Seq<(String, Node)>,
        SetError,
    > {
        written_to(self, s, id)
    }

    fn set(&self, prompt: &mut Prompt) -> (r: Result<(), SetError>) {
        write_resolved(self, prompt, None)
    }

    fn set_from(&self, prompt: &mut Prompt, anchor: &String) -> (r: Result<(), SetError>) {
        write_resolved(self, prompt, Some(anchor))
    }

    fn set_node(&self, prompt: &mut Prompt, node: &String) -> (r: Result<(), SetError>) {
        write_named(self, prompt, node)
    }
}

/// A dimension after a size write: zero leaves the stored value as it was.
pub open spec fn dimension_written(stored: Option<u32>, given: u32) -> Option<u32> {
    if given == 0 {
        stored
    } else {
        Some(given)
    }
}

/// Writes the width and height of the single empty latent image. A zero
/// dimension means "unspecified" and is not written.
pub struct SizeSetter {
    pub width: u32,
    pub height: u32,
}

impl SizeSetter {
    pub fn new(width: u32, height: u32) -> (r: SizeSetter)
        ensures
            r.width == width,
            r.height == height,
    {
        SizeSetter { width, height }
    }
}

impl NodeSetter for SizeSetter {
    /// Both dimensions to write must be populated; otherwise neither is written.
    open spec fn write(&self, n: Node) -> Result<Node, SetError> {
        match n {
            Node::EmptyLatentImage(e) => if (self.width != 0 && e.width is None) || (self.height
                != 0 && e.height is None) {
                Err(SetError::FieldUnset)
            } else {
                Ok(
                    Node::EmptyLatentImage(
                        EmptyLatentImage {
                            width: dimension_written(e.width, self.width),
                            height: dimension_written(e.height, self.height),
                            ..e
                        },
                    ),
                )
            },
            _ => Err(SetError::KindMismatch),
        }
    }

    open spec fn target(&self, s: Seq<(String, Node)>, anchor: Option<Seq<char>>) -> Result<
        Seq<char>,
        SetError,
    > {
        kind_target(s, anchor, NodeKind::EmptyLatentImage)
    }

    fn set_value(&self, node: &mut Node) -> (r: Result<(), SetError>) {
        match node {
            Node::EmptyLatentImage(e) => {
                if (self.width != 0 && e.width.is_none()) || (self.height != 0
                    && e.height.is_none()) {
                    return Err(SetError::FieldUnset);
                }
                if self.width != 0 {
                    e.width = Some(self.width);
                }
                if self.height != 0 {
                    e.height = Some(self.height);
                }
                Ok(())
            },
            _ => Err(SetError::KindMismatch),
        }
    }

    fn find_node(&self, prompt: &Prompt, anchor: Option<&String>) -> (r: Result<String, SetError>) {
        prompt.kind_target(anchor, NodeKind::EmptyLatentImage)
    }
}

impl Setter for SizeSetter {
    open spec fn applied_by(&self, s: Seq<(String, Node)>, anchor: Option<Seq<char>>) -> Result<
        Seq<(String, Node)>,
        SetError,
    > {
        applied(self, s, anchor)
    }

    open spec fn written_by(&self, s: Seq<(String, Node)>, id: Seq<char>) -> Result<
        Seq<(String, Node)>,
        SetError,
    > {
        written_to(self, s, id)
    }

    fn set(&self, prompt: &mut Prompt) -> (r: Result<(), SetError>) {
        write_resolved(self, prompt, None)
    }

    fn set_from(&self, prompt: &mut Prompt, anchor: &String) -> (r: Result<(), SetError>) {
        write_resolved(self, prompt, Some(anchor))
    }

    fn set_node(&self, prompt: &mut Prompt, node: &String) -> (r: Result<(), SetError>) {
        write_named(self, prompt, node)
    }
}

/// Writes the seed of the single sampler of one kind: `seed` on a standard
/// sampler, `noise_seed` on a custom one.
pub struct SeedSetterT {
    pub seed: i64,
    pub sampler: SamplerKind,
}

impl SeedSetterT {
    pub fn new(seed: i64, sampler: SamplerKind) -> (r: SeedSetterT)
        ensures
            r.seed == seed,
            r.sampler == sampler,
    {
        SeedSetterT { seed, sampler }
    }
}

impl NodeSetter for SeedSetterT {
    open spec fn write(&self, n: Node) -> Result<Node, SetError> {
        match (self.sampler, n) {
            (SamplerKind::KSampler, Node::KSampler(k)) => if k.seed is Some {
                Ok(Node::KSampler(KSampler { seed: Some(self.seed), ..k }))
            } else {
                Err(SetError::FieldUnset)
            },
            (SamplerKind::SamplerCustom, Node::SamplerCustom(c)) => if c.noise_seed is Some {
                Ok(Node::SamplerCustom(SamplerCustom { noise_seed: Some(self.seed), ..c }))
            } else {
                Err(SetError::FieldUnset)
            },
            _ => Err(SetError::KindMismatch),
        }
    }

    open spec fn target(&self, s: Seq<(String, Node)>, anchor: Option<Seq<char>>) -> Result<
        Seq<char>,
        SetError,
    > {
        kind_target(s, anchor, self.sampler.spec_node_kind())
    }

    fn set_value(&self, node: &mut Node) -> (r: Result<(), SetError>) {
        match (self.sampler, node) {
            (SamplerKind::KSampler, Node::KSampler(k)) => if k.seed.is_some() {
                k.seed = Some(self.seed);
                Ok(())
            } else {
                Err(SetError::FieldUnset)
            },
            (SamplerKind::SamplerCustom, Node::SamplerCustom(c)) => if c.noise_seed.is_some() {
                c.noise_seed = Some(self.seed);
                Ok(())
            } else {
                Err(SetError::FieldUnset)
            },
            _ => Err(SetError::KindMismatch),
        }
    }

    fn find_node(&self, prompt: &Prompt, anchor: Option<&String>) -> (r: Result<String, SetError>) {
        prompt.kind_target(anchor, self.sampler.node_kind())
    }
}

impl Setter for SeedSetterT {
    open spec fn applied_by(&self, s: Seq<(String, Node)>, anchor: Option<Seq<char>>) -> Result<
        Seq<(String, Node)>,
        SetError,
    > {
        applied(self, s, anchor)
    }

    open spec fn written_by(&self, s: Seq<(String, Node)>, id: Seq<char>) -> Result<
        Seq<(String, Node)>,
        SetError,
    > {
        written_to(self, s, id)
    }

    fn set(&self, prompt: &mut Prompt) -> (r: Result<(), SetError>) {
        write_resolved(self, prompt, None)
    }

    fn set_from(&self, prompt: &mut Prompt, anchor: &String) -> (r: Result<(), SetError>) {
        write_resolved(self, prompt, Some(anchor))
    }

    fn set_node(&self, prompt: &mut Prompt, node: &String) -> (r: Result<(), SetError>) {
        write_named(self, prompt, node)
    }
}

/// Two setters for one logical parameter on different node kinds: the first
/// is tried, and the second only when the first fails.
pub struct DelegatingSetter<S1, S2> {
    pub first: S1,
    pub second: S2,
}

/// The seed on whichever sampler the workflow uses: standard first, custom
/// second.
pub type SeedSetter = DelegatingSetter<SeedSetterT, SeedSetterT>;

impl DelegatingSetter<SeedSetterT, SeedSetterT> {
    /// The seed setter for `seed`.
    pub fn seed(seed: i64) -> (r: SeedSetter)
        ensures
            r.first == (SeedSetterT { seed, sampler: SamplerKind::KSampler }),
            r.second == (SeedSetterT { seed, sampler: SamplerKind::SamplerCustom }),
    {
        DelegatingSetter {
            first: SeedSetterT::new(seed, SamplerKind::KSampler),
            second: SeedSetterT::new(seed, SamplerKind::SamplerCustom),
        }
    }
}

impl<S1, S2> DelegatingSetter<S1, S2> {
    pub fn new(first: S1, second: S2) -> (r: Self)
        ensures
            r.first == first,
            r.second == second,
    {
        DelegatingSetter { first, second }
    }

}

impl<S1: NodeSetter, S2: NodeSetter> NodeSetter for DelegatingSetter<S1, S2> {
    open spec fn write(&self, n: Node) -> Result<Node, SetError> {
        fallback(self.first.write(n), self.second.write(n))
    }

    /// The first setter's target, else the second's.
    open spec fn target(&self, s: Seq<(String, Node)>, anchor: Option<Seq<char>>) -> Result<
        Seq<char>,
        SetError,
    > {
        match self.first.target(s, anchor) {
            Ok(id) => Ok(id),
            Err(_) => self.second.target(s, anchor),
        }
    }

    fn set_value(&self, node: &mut Node) -> (r: Result<(), SetError>) {
        match self.first.set_value(node) {
            Ok(()) => Ok(()),
            Err(_) => match self.second.set_value(node) {
                Ok(()) => Ok(()),
                Err(_) => Err(SetError::BothFailed),
            },
        }
    }

    fn find_node(&self, prompt: &Prompt, anchor: Option<&String>) -> (r: Result<String, SetError>) {
        match self.first.find_node(prompt, anchor) {
            Ok(id) => Ok(id),
            Err(_) => self.second.find_node(prompt, anchor),
        }
    }
}

impl<S1: Setter, S2: Setter> Setter for DelegatingSetter<S1, S2> {
    /// The first setter's resulting graph, else the second's.
    open spec fn applied_by(&self, s: Seq<(String, Node)>, anchor: Option<Seq<char>>) -> Result<
        Seq<(String, Node)>,
        SetError,
    > {
        fallback(self.first.applied_by(s, anchor), self.second.applied_by(s, anchor))
    }

    /// The first setter's resulting graph, else the second's.
    open spec fn written_by(&self, s: Seq<(String, Node)>, id: Seq<char>) -> Result<
        Seq<(String, Node)>,
        SetError,
    > {
        fallback(self.first.written_by(s, id), self.second.written_by(s, id))
    }

    /// Applies the first setter without an anchor, else the second.
    fn set(&self, prompt: &mut Prompt) -> (r: Result<(), SetError>) {
        match self.first.set(prompt) {
            Ok(()) => Ok(()),
            Err(_) => match self.second.set(prompt) {
                Ok(()) => Ok(()),
                Err(_) => Err(SetError::BothFailed),
            },
        }
    }

    /// Applies the first setter through `anchor`, else the second.
    fn set_from(&self, prompt: &mut Prompt, anchor: &String) -> (r: Result<(), SetError>) {
        match self.first.set_from(prompt, anchor) {
            Ok(()) => Ok(()),
            Err(_) => match self.second.set_from(prompt, anchor) {
                Ok(()) => Ok(()),
                Err(_) => Err(SetError::BothFailed),
            },
        }
    }

    /// Writes the first setter's value into the node named `node`, else the
    /// second's.
    fn set_node(&self, prompt: &mut Prompt, node: &String) -> (r: Result<(), SetError>) {
        match self.first.set_node(prompt, node) {
            Ok(()) => Ok(()),
            Err(_) => match self.second.set_node(prompt, node) {
                Ok(()) => Ok(()),
                Err(_) => Err(SetError::BothFailed),
            },
        }
    }
}

} // verus!
