use vstd::prelude::*;

use crate::error::SetError;
use crate::node::{Node, NodeKind};
use crate::prompt::{conditioning_target, id_index, kind_target, opt_id, Prompt};

verus! {

/// The value read from the node named by `target` with `read`.
pub open spec fn read_target<T>(
    s: Seq<(String, Node)>,
    target: Result<Seq<char>, SetError>,
    read: spec_fn(Node) -> Result<T, SetError>,
) -> Result<T, SetError> {
    match target {
        Ok(id) => match id_index(s, id) {
            Some(i) => read(s[i].1),
            None => Err(SetError::NotFound),
        },
        Err(e) => Err(e),
    }
}

/// The text of a text encoder.
pub open spec fn text_of(n: Node) -> Result<String, SetError> {
    match n {
        Node::CLIPTextEncode(t) => match t.text {
            Some(x) => Ok(x),
            None => Err(SetError::FieldUnset),
        },
        _ => Err(SetError::KindMismatch),
    }
}

/// The checkpoint name of a checkpoint loader.
pub open spec fn model_of(n: Node) -> Result<String, SetError> {
    match n {
        Node::CheckpointLoaderSimple(c) => match c.ckpt_name {
            Some(x) => Ok(x),
            None => Err(SetError::FieldUnset),
        },
        _ => Err(SetError::KindMismatch),
    }
}

/// The width and height of an empty latent image, each as stored.
pub open spec fn size_of(n: Node) -> Result<(Option<u32>, Option<u32>), SetError> {
    match n {
        Node::EmptyLatentImage(e) => Ok((e.width, e.height)),
        _ => Err(SetError::KindMismatch),
    }
}

/// The seed of either sampler kind.
pub open spec fn seed_of(n: Node) -> Result<i64, SetError> {
    match n {
        Node::KSampler(k) => match k.seed {
            Some(x) => Ok(x),
            None => Err(SetError::FieldUnset),
        },
        Node::SamplerCustom(c) => match c.noise_seed {
            Some(x) => Ok(x),
            None => Err(SetError::FieldUnset),
        },
        _ => Err(SetError::KindMismatch),
    }
}

/// The node named by a resolved target.
fn node_at<'a>(prompt: &'a Prompt, target: Result<String, SetError>) -> (r: Result<&'a Node, SetError>)
    ensures
        match target {
            Ok(id) => match id_index(prompt.nodes@, id@) {
                Some(i) => r == Ok::<&Node, SetError>(&prompt.nodes@[i].1),
                None => r == Err::<&Node, SetError>(SetError::NotFound),
            },
            Err(e) => r == Err::<&Node, SetError>(e),
        },
{
    match target {
        Ok(id) => prompt.get(&id),
        Err(e) => Err(e),
    }
}
/// The seed stored in a sampler node.
fn seed_value(n: &Node) -> (r: Result<i64, SetError>)
    ensures
        r == seed_of(*n),
{
    match n {
        Node::KSampler(k) => match k.seed {
            Some(x) => Ok(x),
            None => Err(SetError::FieldUnset),
        },
        Node::SamplerCustom(c) => match c.noise_seed {
            Some(x) => Ok(x),
            None => Err(SetError::FieldUnset),
        },
        _ => Err(SetError::KindMismatch),
    }
}

impl Prompt {
    /// The positive (or negative) text, resolved as the text setters resolve it.
    pub fn get_text(&self, anchor: Option<&String>, positive: bool) -> (r: Result<String, SetError>)
        ensures
            r == read_target(
                self.nodes@,
                conditioning_target(self.nodes@, opt_id(anchor), positive),
                |n: Node| text_of(n),
            ),
    {
        match node_at(self, self.conditioning_target(anchor, positive)) {
            Ok(Node::CLIPTextEncode(t)) => match &t.text {
                Some(x) => Ok(x.clone()),
                None => Err(SetError::FieldUnset),
            },
            Ok(_) => Err(SetError::KindMismatch),
            Err(e) => Err(e),
        }
    }

    /// The checkpoint name, resolved as the model setter resolves it.
    pub fn get_model(&self, anchor: Option<&String>) -> (r: Result<String, SetError>)
        ensures
            r == read_target(
                self.nodes@,
                kind_target(self.nodes@, opt_id(anchor), NodeKind::CheckpointLoaderSimple),
                |n: Node| model_of(n),
            ),
    {
        match node_at(self, self.kind_target(anchor, NodeKind::CheckpointLoaderSimple)) {
            Ok(Node::CheckpointLoaderSimple(c)) => match &c.ckpt_name {
                Some(x) => Ok(x.clone()),
                None => Err(SetError::FieldUnset),
            },
            Ok(_) => Err(SetError::KindMismatch),
            Err(e) => Err(e),
        }
    }

    /// The stored width and height, resolved as the size setter resolves them.
    pub fn get_size(&self, anchor: Option<&String>) -> (r: Result<(Option<u32>, Option<u32>), SetError>)
        ensures
            r == read_target(
                self.nodes@,
                kind_target(self.nodes@, opt_id(anchor), NodeKind::EmptyLatentImage),
                |n: Node| size_of(n),
            ),
    {
        match node_at(self, self.kind_target(anchor, NodeKind::EmptyLatentImage)) {
            Ok(Node::EmptyLatentImage(e)) => Ok((e.width, e.height)),
            Ok(_) => Err(SetError::KindMismatch),
            Err(e) => Err(e),
        }
    }

    /// The seed of the standard sampler, or failing that of the custom one,
    /// resolved as the seed setters resolve them.
    pub fn get_seed(&self, anchor: Option<&String>) -> (r: Result<i64, SetError>)
        ensures
            r == match read_target(
                self.nodes@,
                kind_target(self.nodes@, opt_id(anchor), NodeKind::KSampler),
                |n: Node| seed_of(n),
            ) {
                Ok(x) => Ok(x),
                Err(_) => match read_target(
                    self.nodes@,
                    kind_target(self.nodes@, opt_id(anchor), NodeKind::SamplerCustom),
                    |n: Node| seed_of(n),
                ) {
                    Ok(x) => Ok(x),
                    Err(_) => Err(SetError::BothFailed),
                },
            },
    {
        let first = match node_at(self, self.kind_target(anchor, NodeKind::KSampler)) {
            Ok(n) => seed_value(n),
            Err(e) => Err(e),
        };
        match first {
            Ok(x) => Ok(x),
            Err(_) => match node_at(self, self.kind_target(anchor, NodeKind::SamplerCustom)) {
                Ok(n) => match seed_value(n) {
                    Ok(x) => Ok(x),
                    Err(_) => Err(SetError::BothFailed),
                },
                Err(_) => Err(SetError::BothFailed),
            },
        }
    }

}

} // verus!
