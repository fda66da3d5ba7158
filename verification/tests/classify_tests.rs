use code_context::classify::{implements_trait_named, is_derived, is_documentation, is_test_only};
use code_context::tree::{Declaration, Marker};

fn decl_with(markers: Vec<Marker>) -> Declaration {
    Declaration::Constant { markers, text: "const K: u32 = 1;".to_string() }
}

#[test]
fn test_is_documentation() {
    assert!(is_documentation(&Marker::Doc { inner: false, text: " docs".to_string() }));
    assert!(is_documentation(&Marker::Doc { inner: true, text: " docs".to_string() }));
    assert!(!is_documentation(&Marker::Test));
    assert!(!is_documentation(&Marker::Cfg { predicate: "doc".to_string() }));
}

#[test]
fn test_is_test_only() {
    assert!(is_test_only(&decl_with(vec![Marker::Test])));
    assert!(is_test_only(&decl_with(vec![Marker::Cfg { predicate: "test".to_string() }])));
    assert!(is_test_only(&decl_with(vec![Marker::Cfg { predicate: "not(test)".to_string() }])));
    assert!(!is_test_only(&decl_with(vec![Marker::Cfg { predicate: "unix".to_string() }])));
    assert!(!is_test_only(&decl_with(vec![])));
}

#[test]
fn test_is_derived() {
    assert!(is_derived(&decl_with(vec![Marker::Derive { traits: vec!["Debug".to_string()] }])));
    assert!(!is_derived(&decl_with(vec![Marker::Test])));
}

#[test]
fn test_implements_trait_named() {
    assert!(implements_trait_named(&Some("serde::Serialize".to_string()), "Serialize"));
    assert!(!implements_trait_named(&Some("Display".to_string()), "Serialize"));
    assert!(!implements_trait_named(&None, "Serialize"));
}
