use comfyui_api::{
    apply, apply_from, apply_to, CLIPTextEncode, CheckpointLoaderSimple, DelegatingSetter,
    EmptyLatentImage, KSampler, ModelSetter, NegativePromptSetter, Node, NodeKind, NodeRef,
    Prompt, PromptSetter, SamplerCustom, SamplerKind, SeedSetter, SeedSetterT, SetError,
    SetExt, Setter, SetterExt, SizeSetter,
};

fn id(s: &str) -> String {
    s.to_string()
}

fn link(node: &str, slot: u32) -> Option<NodeRef> {
    Some(NodeRef { node_id: id(node), slot })
}

fn text(t: &str) -> Node {
    Node::CLIPTextEncode(CLIPTextEncode { text: Some(id(t)), clip: link("4", 1) })
}

fn ksampler(seed: i64, positive: &str, negative: &str) -> Node {
    Node::KSampler(KSampler {
        seed: Some(seed),
        steps: Some(20),
        sampler_name: Some(id("euler")),
        scheduler: Some(id("normal")),
        model: link("4", 0),
        positive: link(positive, 0),
        negative: link(negative, 0),
        latent_image: link("5", 0),
    })
}

fn custom_sampler(seed: i64, positive: &str, negative: &str) -> Node {
    Node::SamplerCustom(SamplerCustom {
        add_noise: Some(true),
        noise_seed: Some(seed),
        model: link("4", 0),
        positive: link(positive, 0),
        negative: link(negative, 0),
        sampler: None,
        sigmas: None,
        latent_image: link("5", 0),
    })
}

fn checkpoint(name: &str) -> Node {
    Node::CheckpointLoaderSimple(CheckpointLoaderSimple { ckpt_name: Some(id(name)) })
}

fn latent(width: u32, height: u32) -> Node {
    Node::EmptyLatentImage(EmptyLatentImage {
        width: Some(width),
        height: Some(height),
        batch_size: Some(1),
    })
}

fn graph(nodes: Vec<(&str, Node)>) -> Prompt {
    let mut p = Prompt::new();
    for (i, n) in nodes {
        assert!(p.insert(id(i), n));
    }
    p
}

/// The default text-to-image workflow with a standard sampler.
fn default_graph() -> Prompt {
    graph(vec![
        ("3", ksampler(8, "6", "7")),
        ("4", checkpoint("v1-5.safetensors")),
        ("5", latent(512, 512)),
        ("6", text("a cat")),
        ("7", text("blurry")),
        ("9", Node::Other { class_type: id("SaveImage") }),
    ])
}

fn text_of(p: &Prompt, node: &str) -> Option<String> {
    match p.get(&id(node)) {
        Ok(Node::CLIPTextEncode(t)) => t.text.clone(),
        _ => None,
    }
}

fn size_of(p: &Prompt) -> (Option<u32>, Option<u32>, Option<u32>) {
    match p.get(&id("5")) {
        Ok(Node::EmptyLatentImage(e)) => (e.width, e.height, e.batch_size),
        _ => panic!("no latent image"),
    }
}

#[test]
fn unique_kind_resolves_to_its_id() {
    let p = default_graph();
    assert_eq!(p.kind_target(None, NodeKind::CheckpointLoaderSimple), Ok(id("4")));
    assert_eq!(p.kind_target(None, NodeKind::EmptyLatentImage), Ok(id("5")));
    assert_eq!(p.find_unique(NodeKind::KSampler), Ok(0));
    assert_eq!(p.find_unique(NodeKind::Other), Ok(5));
}

#[test]
fn missing_kind_is_not_found() {
    let p = default_graph();
    assert_eq!(p.find_unique(NodeKind::SamplerCustom), Err(SetError::NotFound));
    assert_eq!(p.kind_target(None, NodeKind::SamplerCustom), Err(SetError::NotFound));
    assert_eq!(Prompt::new().find_unique(NodeKind::KSampler), Err(SetError::NotFound));
}

#[test]
fn repeated_kind_is_ambiguous() {
    let p = default_graph();
    assert_eq!(p.find_unique(NodeKind::CLIPTextEncode), Err(SetError::Ambiguous));
    let mut q = default_graph();
    let mut s = default_graph();
    assert!(q.insert(id("10"), checkpoint("other.safetensors")));
    assert_eq!(apply(&ModelSetter::new(id("x")), &mut q), Err(SetError::Ambiguous));
    assert!(s.insert(id("10"), checkpoint("other.safetensors")));
    assert_eq!(q, s);
}

#[test]
fn insert_refuses_a_duplicate_id() {
    let mut p = default_graph();
    let before = p.clone();
    assert!(!p.insert(id("6"), text("again")));
    assert_eq!(p, before);
    assert_eq!(p.index_of(&id("7")), Some(4));
    assert_eq!(p.index_of(&id("8")), None);
}

#[test]
fn positive_text_is_written_through_the_sampler() {
    let mut p = default_graph();
    assert_eq!(apply(&PromptSetter::new(id("a dog")), &mut p), Ok(()));
    assert_eq!(text_of(&p, "6"), Some(id("a dog")));
    assert_eq!(text_of(&p, "7"), Some(id("blurry")));
}

#[test]
fn anchored_positive_ignores_other_text_nodes() {
    let mut p = graph(vec![
        ("10", text("unrelated")),
        ("3", ksampler(8, "6", "7")),
        ("4", checkpoint("v1-5.safetensors")),
        ("6", text("a cat")),
        ("7", text("blurry")),
        ("11", text("also unrelated")),
        ("12", ksampler(9, "10", "11")),
    ]);
    assert_eq!(apply(&PromptSetter::new(id("a dog")), &mut p), Err(SetError::Ambiguous));
    assert_eq!(apply_from(&PromptSetter::new(id("a dog")), &mut p, &id("3")), Ok(()));
    assert_eq!(text_of(&p, "6"), Some(id("a dog")));
    assert_eq!(text_of(&p, "7"), Some(id("blurry")));
    assert_eq!(text_of(&p, "10"), Some(id("unrelated")));
    assert_eq!(text_of(&p, "11"), Some(id("also unrelated")));
    assert_eq!(p.conditioning_target(Some(&id("12")), true), Ok(id("10")));
}

#[test]
fn negative_text_leaves_positive_text() {
    let mut p = default_graph();
    assert_eq!(apply(&NegativePromptSetter::new(id("low quality")), &mut p), Ok(()));
    assert_eq!(text_of(&p, "6"), Some(id("a cat")));
    assert_eq!(text_of(&p, "7"), Some(id("low quality")));
    assert_eq!(p.conditioning_target(None, true), Ok(id("6")));
}

#[test]
fn text_setters_work_on_a_custom_sampler() {
    let mut p = graph(vec![
        ("1", custom_sampler(3, "2", "3")),
        ("2", text("p")),
        ("3", text("n")),
    ]);
    assert_eq!(apply(&PromptSetter::new(id("pp")), &mut p), Ok(()));
    assert_eq!(apply(&NegativePromptSetter::new(id("nn")), &mut p), Ok(()));
    assert_eq!(text_of(&p, "2"), Some(id("pp")));
    assert_eq!(text_of(&p, "3"), Some(id("nn")));
}

#[test]
fn size_zero_width_keeps_width() {
    let mut p = default_graph();
    assert_eq!(apply(&SizeSetter::new(0, 768), &mut p), Ok(()));
    assert_eq!(size_of(&p), (Some(512), Some(768), Some(1)));
    assert_eq!(apply(&SizeSetter::new(640, 0), &mut p), Ok(()));
    assert_eq!(size_of(&p), (Some(640), Some(768), Some(1)));
    assert_eq!(apply(&SizeSetter::new(0, 0), &mut p), Ok(()));
    assert_eq!(size_of(&p), (Some(640), Some(768), Some(1)));
}

#[test]
fn size_with_an_unset_dimension_writes_nothing() {
    let mut p = graph(vec![(
        "5",
        Node::EmptyLatentImage(EmptyLatentImage { width: Some(512), height: None, batch_size: None }),
    )]);
    let before = p.clone();
    assert_eq!(apply(&SizeSetter::new(1024, 1024), &mut p), Err(SetError::FieldUnset));
    assert_eq!(p, before);
    assert_eq!(apply(&SizeSetter::new(1024, 0), &mut p), Ok(()));
    assert_eq!(size_of(&p), (Some(1024), None, None));
}

#[test]
fn model_is_written_on_the_checkpoint_loader() {
    let mut p = default_graph();
    assert_eq!(apply(&ModelSetter::new(id("sdxl.safetensors")), &mut p), Ok(()));
    assert_eq!(
        p.get(&id("4")),
        Ok(&checkpoint("sdxl.safetensors"))
    );
    assert_eq!(
        apply_from(&ModelSetter::new(id("a")), &mut p, &id("3")),
        Err(SetError::NotFound)
    );
    assert_eq!(apply_from(&ModelSetter::new(id("a")), &mut p, &id("4")), Ok(()));
    assert_eq!(p.get(&id("4")), Ok(&checkpoint("a")));
}

#[test]
fn seed_is_written_on_the_standard_sampler() {
    let mut p = default_graph();
    let st: SeedSetter = DelegatingSetter::seed(42);
    assert_eq!(st.set(&mut p), Ok(()));
    assert_eq!(p.get(&id("3")), Ok(&ksampler(42, "6", "7")));
}

#[test]
fn seed_falls_back_to_the_custom_sampler() {
    let mut p = graph(vec![
        ("1", custom_sampler(3, "2", "3")),
        ("2", text("p")),
        ("3", text("n")),
    ]);
    let st: SeedSetter = DelegatingSetter::seed(-7);
    assert_eq!(st.set(&mut p), Ok(()));
    assert_eq!(p.get(&id("1")), Ok(&custom_sampler(-7, "2", "3")));
    assert_eq!(st.set_from(&mut p, &id("1")), Ok(()));
    assert_eq!(st.set_node(&mut p, &id("1")), Ok(()));
    assert_eq!(p.get(&id("1")), Ok(&custom_sampler(-7, "2", "3")));
}

#[test]
fn seed_without_a_sampler_fails_on_both() {
    let mut p = graph(vec![("4", checkpoint("m")), ("6", text("t"))]);
    let before = p.clone();
    let st: SeedSetter = DelegatingSetter::seed(1);
    assert_eq!(st.set(&mut p), Err(SetError::BothFailed));
    assert_eq!(st.set_node(&mut p, &id("6")), Err(SetError::BothFailed));
    assert_eq!(p, before);
}

#[test]
fn delegating_setter_as_a_setter() {
    let mut p = graph(vec![("1", custom_sampler(3, "2", "3"))]);
    let st = DelegatingSetter::new(
        SeedSetterT::new(5, SamplerKind::KSampler),
        SeedSetterT::new(5, SamplerKind::SamplerCustom),
    );
    assert_eq!(apply(&st, &mut p), Ok(()));
    assert_eq!(p.get(&id("1")), Ok(&custom_sampler(5, "2", "3")));
}

#[test]
fn setting_twice_equals_setting_once() {
    let mut once = default_graph();
    let mut twice = default_graph();
    let setters_once = (PromptSetter::new(id("x")), SizeSetter::new(0, 320));
    assert_eq!(apply(&setters_once.0, &mut once), Ok(()));
    assert_eq!(apply(&setters_once.1, &mut once), Ok(()));
    for _ in 0..2 {
        assert_eq!(apply(&PromptSetter::new(id("x")), &mut twice), Ok(()));
        assert_eq!(apply(&SizeSetter::new(0, 320), &mut twice), Ok(()));
    }
    assert_eq!(once, twice);
    let seed: SeedSetter = DelegatingSetter::seed(11);
    assert_eq!(seed.set(&mut once), Ok(()));
    let after_once = once.clone();
    assert_eq!(seed.set(&mut once), Ok(()));
    assert_eq!(once, after_once);
}

#[test]
fn direct_write_checks_kind_and_id() {
    let mut p = default_graph();
    let before = p.clone();
    let st = PromptSetter::new(id("x"));
    assert_eq!(apply_to(&st, &mut p, &id("4")), Err(SetError::KindMismatch));
    assert_eq!(apply_to(&st, &mut p, &id("99")), Err(SetError::NotFound));
    assert_eq!(p, before);
    assert_eq!(apply_to(&st, &mut p, &id("7")), Ok(()));
    assert_eq!(text_of(&p, "7"), Some(id("x")));
}

#[test]
fn unset_text_is_not_invented() {
    let mut p = graph(vec![
        ("3", ksampler(1, "6", "7")),
        ("6", Node::CLIPTextEncode(CLIPTextEncode { text: None, clip: None })),
        ("7", text("n")),
    ]);
    let before = p.clone();
    assert_eq!(apply(&PromptSetter::new(id("x")), &mut p), Err(SetError::FieldUnset));
    assert_eq!(p, before);
}

#[test]
fn missing_link_or_anchor_is_not_found() {
    let mut p = graph(vec![(
        "3",
        Node::KSampler(KSampler {
            seed: Some(1),
            steps: None,
            sampler_name: None,
            scheduler: None,
            model: None,
            positive: None,
            negative: None,
            latent_image: None,
        }),
    )]);
    assert_eq!(apply(&PromptSetter::new(id("x")), &mut p), Err(SetError::NotFound));
    assert_eq!(
        apply_from(&PromptSetter::new(id("x")), &mut p, &id("nope")),
        Err(SetError::NotFound)
    );
    assert_eq!(p.conditioning_target(None, false), Err(SetError::NotFound));
}

#[test]
fn error_messages_are_distinct() {
    let all = [
        SetError::NotFound,
        SetError::Ambiguous,
        SetError::KindMismatch,
        SetError::FieldUnset,
        SetError::BothFailed,
    ];
    for (i, a) in all.iter().enumerate() {
        for b in all.iter().skip(i + 1) {
            assert_ne!(a.message(), b.message());
        }
    }
    assert_eq!(SetError::NotFound.message(), "node not found");
}

#[test]
fn setter_methods_on_the_graph() {
    let mut p = default_graph();
    assert_eq!(p.set(&PromptSetter::new(id("m"))), Ok(()));
    assert_eq!(p.set_from(&id("3"), &NegativePromptSetter::new(id("k"))), Ok(()));
    assert_eq!(p.set_node(&id("5"), &SizeSetter::new(64, 32)), Ok(()));
    assert_eq!(text_of(&p, "6"), Some(id("m")));
    assert_eq!(text_of(&p, "7"), Some(id("k")));
    assert_eq!(size_of(&p), (Some(64), Some(32), Some(1)));
    assert_eq!(p.set_node(&id("3"), &ModelSetter::new(id("z"))), Err(SetError::KindMismatch));
}

#[test]
fn getters_resolve_like_setters() {
    let mut p = default_graph();
    assert_eq!(p.get_text(None, true), Ok(id("a cat")));
    assert_eq!(p.get_text(Some(&id("3")), false), Ok(id("blurry")));
    assert_eq!(p.get_model(None), Ok(id("v1-5.safetensors")));
    assert_eq!(p.get_size(None), Ok((Some(512), Some(512))));
    assert_eq!(p.get_seed(None), Ok(8));
    assert_eq!(apply(&PromptSetter::new(id("a dog")), &mut p), Ok(()));
    assert_eq!(apply(&ModelSetter::new(id("m2")), &mut p), Ok(()));
    assert_eq!(apply(&SizeSetter::new(0, 256), &mut p), Ok(()));
    assert_eq!(p.get_text(None, true), Ok(id("a dog")));
    assert_eq!(p.get_model(None), Ok(id("m2")));
    assert_eq!(p.get_size(None), Ok((Some(512), Some(256))));
}

#[test]
fn getters_report_failures() {
    let p = graph(vec![("1", custom_sampler(77, "2", "9")), ("2", checkpoint("c"))]);
    assert_eq!(p.get_seed(None), Ok(77));
    assert_eq!(p.get_text(None, true), Err(SetError::NotFound));
    assert_eq!(p.get_text(None, false), Err(SetError::NotFound));
    assert_eq!(p.get_size(None), Err(SetError::NotFound));
    assert_eq!(Prompt::new().get_seed(None), Err(SetError::BothFailed));
}

#[test]
fn seed_through_the_graph_falls_back_like_the_setter() {
    let unset_seed = Node::KSampler(KSampler {
        seed: None,
        steps: Some(20),
        sampler_name: None,
        scheduler: None,
        model: None,
        positive: link("6", 0),
        negative: link("7", 0),
        latent_image: None,
    });
    let start = graph(vec![("3", unset_seed.clone()), ("8", custom_sampler(1, "6", "7"))]);
    let mut by_graph = start.clone();
    let mut by_setter = start.clone();
    let mut by_apply = start.clone();
    let st: SeedSetter = DelegatingSetter::seed(5);
    assert_eq!(by_graph.set(&st), Ok(()));
    assert_eq!(st.set(&mut by_setter), Ok(()));
    assert_eq!(apply(&st, &mut by_apply), Ok(()));
    assert_eq!(by_graph, by_setter);
    assert_eq!(by_apply, by_setter);
    assert_eq!(by_graph.get(&id("8")), Ok(&custom_sampler(5, "6", "7")));
    assert_eq!(by_graph.get(&id("3")), Ok(&unset_seed));
}

#[test]
fn link_to_a_non_text_node_is_not_found() {
    let mut p = graph(vec![("3", ksampler(1, "4", "7")), ("4", checkpoint("c")), ("7", text("n"))]);
    let before = p.clone();
    assert_eq!(apply(&PromptSetter::new(id("x")), &mut p), Err(SetError::NotFound));
    assert_eq!(p, before);
    assert_eq!(apply(&NegativePromptSetter::new(id("y")), &mut p), Ok(()));
    assert_eq!(text_of(&p, "7"), Some(id("y")));
}

#[test]
fn unique_ids_are_checked() {
    let mut p = default_graph();
    assert!(p.ids_are_unique());
    p.nodes.push((id("6"), text("dup")));
    assert!(!p.ids_are_unique());
    assert!(Prompt::new().ids_are_unique());
}

#[test]
fn closures_edit_the_resolved_node() {
    let mut p = default_graph();
    let r = p.set_with(NodeKind::EmptyLatentImage, |n: &Node| match n {
        Node::EmptyLatentImage(e) => Ok(Node::EmptyLatentImage(EmptyLatentImage {
            batch_size: Some(4),
            ..e.clone()
        })),
        _ => Err(SetError::KindMismatch),
    });
    assert_eq!(r, Ok(()));
    assert_eq!(size_of(&p), (Some(512), Some(512), Some(4)));
    let before = p.clone();
    assert_eq!(
        p.set_with(NodeKind::CLIPTextEncode, |n: &Node| Ok(n.clone())),
        Err(SetError::Ambiguous)
    );
    assert_eq!(
        p.set_node_with(&id("6"), |_: &Node| Err(SetError::FieldUnset)),
        Err(SetError::FieldUnset)
    );
    assert_eq!(p.set_node_with(&id("99"), |n: &Node| Ok(n.clone())), Err(SetError::NotFound));
    assert_eq!(p, before);
    assert_eq!(p.set_node_with(&id("7"), |_: &Node| Ok(text("z"))), Ok(()));
    assert_eq!(text_of(&p, "7"), Some(id("z")));
}
