use vstd::prelude::*;

verus! {

/// A link field: the output `slot` of the node named `node_id`.
#[derive(Clone, Debug, PartialEq, Eq)]
pub struct NodeRef {
    pub node_id: String,
    pub slot: u32,
}

/// A text encoder: turns `text` into conditioning for a sampler.
#[derive(Clone, Debug, PartialEq, Eq)]
pub struct CLIPTextEncode {
    pub text: Option<String>,
    pub clip: Option<NodeRef>,
}

/// The standard sampler. Its seed field is `seed`.
#[derive(Clone, Debug, PartialEq, Eq)]
pub struct KSampler {
    pub seed: Option<i64>,
    pub steps: Option<u32>,
    pub sampler_name: Option<String>,
    pub scheduler: Option<String>,
    pub model: Option<NodeRef>,
    pub positive: Option<NodeRef>,
    pub negative: Option<NodeRef>,
    pub latent_image: Option<NodeRef>,
}

/// The custom sampler. Its seed field is `noise_seed`.
#[derive(Clone, Debug, PartialEq, Eq)]
pub struct SamplerCustom {
    pub add_noise: Option<bool>,
    pub noise_seed: Option<i64>,
    pub model: Option<NodeRef>,
    pub positive: Option<NodeRef>,
    pub negative: Option<NodeRef>,
    pub sampler: Option<NodeRef>,
    pub sigmas: Option<NodeRef>,
    pub latent_image: Option<NodeRef>,
}

/// Loads a model checkpoint by file name.
#[derive(Clone, Debug, PartialEq, Eq)]
pub struct CheckpointLoaderSimple {
    pub ckpt_name: Option<String>,
}

/// Produces an empty latent image of the given size.
#[derive(Clone, Debug, PartialEq, Eq)]
pub struct EmptyLatentImage {
    pub width: Option<u32>,
    pub height: Option<u32>,
    pub batch_size: Option<u32>,
}

/// A node of the graph: one of the known kinds, or another kind that is
/// carried along by its class name and never written.
#[derive(Clone, Debug, PartialEq, Eq)]
pub enum Node {
    CLIPTextEncode(CLIPTextEncode),
    KSampler(KSampler),
    SamplerCustom(SamplerCustom),
    CheckpointLoaderSimple(CheckpointLoaderSimple),
    EmptyLatentImage(EmptyLatentImage),
    Other { class_type: String },
}

/// The tag of a [`Node`].
#[derive(Clone, Copy, Debug, PartialEq, Eq, Structural)]
pub enum NodeKind {
    CLIPTextEncode,
    KSampler,
    SamplerCustom,
    CheckpointLoaderSimple,
    EmptyLatentImage,
    Other,
}

/// The two sampler kinds that carry conditioning links and a seed.
#[derive(Clone, Copy, Debug, PartialEq, Eq, Structural)]
pub enum SamplerKind {
    KSampler,
    SamplerCustom,
}

impl SamplerKind {
    pub open spec fn spec_node_kind(self) -> NodeKind {
        match self {
            SamplerKind::KSampler => NodeKind::KSampler,
            SamplerKind::SamplerCustom => NodeKind::SamplerCustom,
        }
    }

    /// The node kind this sampler kind stands for.
    pub fn node_kind(self) -> (r: NodeKind)
        ensures
            r == self.spec_node_kind(),
    {
        match self {
            SamplerKind::KSampler => NodeKind::KSampler,
            SamplerKind::SamplerCustom => NodeKind::SamplerCustom,
        }
    }
}

impl Node {
    pub open spec fn spec_kind(self) -> NodeKind {
        match self {
            Node::CLIPTextEncode(_) => NodeKind::CLIPTextEncode,
            Node::KSampler(_) => NodeKind::KSampler,
            Node::SamplerCustom(_) => NodeKind::SamplerCustom,
            Node::CheckpointLoaderSimple(_) => NodeKind::CheckpointLoaderSimple,
            Node::EmptyLatentImage(_) => NodeKind::EmptyLatentImage,
            Node::Other { .. } => NodeKind::Other,
        }
    }

    /// The kind of this node.
    pub fn kind(&self) -> (r: NodeKind)
        ensures
            r == self.spec_kind(),
    {
        match self {
            Node::CLIPTextEncode(_) => NodeKind::CLIPTextEncode,
            Node::KSampler(_) => NodeKind::KSampler,
            Node::SamplerCustom(_) => NodeKind::SamplerCustom,
            Node::CheckpointLoaderSimple(_) => NodeKind::CheckpointLoaderSimple,
            Node::EmptyLatentImage(_) => NodeKind::EmptyLatentImage,
            Node::Other { .. } => NodeKind::Other,
        }
    }

    /// The conditioning link of a sampler node: `positive` or `negative`.
    /// Nodes of other kinds have none.
    pub open spec fn spec_conditioning(self, positive: bool) -> Option<NodeRef> {
        match self {
            Node::KSampler(s) => if positive { s.positive } else { s.negative },
            Node::SamplerCustom(s) => if positive { s.positive } else { s.negative },
            _ => None,
        }
    }

    /// The id of the node that the `positive` (or negative) conditioning link
    /// of this sampler names.
    pub fn conditioning_id(&self, positive: bool) -> (r: Option<String>)
        ensures
            match self.spec_conditioning(positive) {
                Some(l) => r == Some(l.node_id),
                None => r is None,
            },
    {
        let link = match self {
            Node::KSampler(s) => if positive { &s.positive } else { &s.negative },
            Node::SamplerCustom(s) => if positive { &s.positive } else { &s.negative },
            _ => return None,
        };
        match link {
            Some(l) => Some(l.node_id.clone()),
            None => None,
        }
    }
}

} // verus!
