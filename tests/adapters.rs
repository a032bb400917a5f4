use xlora_core::adapters::{verify_sanity_adapters, Ordering};

fn ordering(paths: &[&str]) -> Ordering {
    let mut o = Ordering::new();
    for (i, p) in paths.iter().enumerate() {
        o.insert(p.to_string(), i);
    }
    o
}

#[test]
fn supported_layer_is_accepted() {
    let o = ordering(&["model.layers.0.self_attn.q_proj"]);
    assert!(verify_sanity_adapters(&o, &["q_proj", "k_proj"]).is_ok());
}

#[test]
fn unsupported_layer_is_named() {
    let o = ordering(&["model.layers.0.foo"]);
    let e = verify_sanity_adapters(&o, &["q_proj", "k_proj"]).unwrap_err();
    assert_eq!(e.path, "model.layers.0.foo");
    assert_eq!(e.supported, vec!["q_proj".to_string(), "k_proj".to_string()]);
}

#[test]
fn every_path_with_a_suffix_is_accepted() {
    let o = ordering(&[
        "model.layers.0.self_attn.q_proj",
        "model.layers.0.self_attn.k_proj",
        "model.layers.1.self_attn.k_proj",
    ]);
    assert!(verify_sanity_adapters(&o, &["q_proj", "k_proj"]).is_ok());
}

#[test]
fn first_unsupported_path_is_named() {
    let o = ordering(&[
        "model.layers.0.self_attn.q_proj",
        "model.layers.0.mlp.up_proj",
        "model.layers.1.mlp.down_proj",
    ]);
    let e = verify_sanity_adapters(&o, &["q_proj", "k_proj"]).unwrap_err();
    assert_eq!(e.path, "model.layers.0.mlp.up_proj");
}

#[test]
fn empty_ordering_is_accepted() {
    let o = ordering(&[]);
    assert!(verify_sanity_adapters(&o, &[]).is_ok());
}

#[test]
fn no_supported_suffixes_rejects_any_path() {
    let o = ordering(&["q_proj"]);
    let e = verify_sanity_adapters(&o, &[]).unwrap_err();
    assert_eq!(e.path, "q_proj");
    assert!(e.supported.is_empty());
}

#[test]
fn suffix_longer_than_path_does_not_match() {
    let o = ordering(&["proj"]);
    assert!(verify_sanity_adapters(&o, &["q_proj"]).is_err());
    let o = ordering(&["q_proj"]);
    assert!(verify_sanity_adapters(&o, &["q_proj"]).is_ok());
}

#[test]
fn infix_does_not_count_as_suffix() {
    let o = ordering(&["model.q_proj.extra"]);
    assert!(verify_sanity_adapters(&o, &["q_proj"]).is_err());
}

#[test]
fn insert_replaces_an_existing_path() {
    let mut o = Ordering::new();
    o.insert("a.q_proj".to_string(), 0);
    o.insert("b.k_proj".to_string(), 1);
    o.insert("a.q_proj".to_string(), 2);
    assert_eq!(
        o.layers,
        vec![("a.q_proj".to_string(), 2), ("b.k_proj".to_string(), 1)]
    );
}
