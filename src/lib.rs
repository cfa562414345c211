//! Node resolution and typed field mutation for workflow graphs.
//!
//! A [`Prompt`] is an ordered list of identified nodes of a closed set of
//! kinds. Setters locate a node of the kind they target, either by a global
//! scan that must find exactly one candidate or by following a named link of
//! a sampler node, and write one field of it.
pub mod error;
pub mod getter;
pub mod node;
pub mod prompt;
pub mod setter;
pub mod theorems;

pub use error::SetError;
pub use prompt::Prompt;
pub use setter::{
    apply, apply_from, apply_to, DelegatingSetter, ModelSetter, NegativePromptSetter, PromptSetter,
    NodeSetter, SeedSetter, SeedSetterT, SetExt, Setter, SetterExt, SizeSetter,
};
pub use node::{
    CLIPTextEncode, CheckpointLoaderSimple, EmptyLatentImage, KSampler, Node, NodeKind, NodeRef,
    SamplerCustom, SamplerKind,
};
