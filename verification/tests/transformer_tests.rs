use code_context::transformer::CodeTransformer;
use code_context::tree::{Declaration, FieldDecl, ImplMethod, Marker, SourceFile, TraitMethod, TypeExpr};

fn s(x: &str) -> String {
    x.to_string()
}

fn doc(text: &str) -> Marker {
    Marker::Doc { inner: false, text: s(text) }
}

fn doc_inner(text: &str) -> Marker {
    Marker::Doc { inner: true, text: s(text) }
}

fn named(text: &str) -> TypeExpr {
    TypeExpr::Named { text: s(text), args: vec![] }
}

fn named_with(text: &str, args: Vec<TypeExpr>) -> TypeExpr {
    TypeExpr::Named { text: s(text), args }
}

fn func(name: &str, signature: &str, ret: Option<TypeExpr>, body: &str) -> Declaration {
    Declaration::Function {
        markers: vec![],
        name: s(name),
        signature: s(signature),
        ret,
        body: s(body),
    }
}

fn impl_method(name: &str, signature: &str, ret: Option<TypeExpr>, body: &str) -> ImplMethod {
    ImplMethod { markers: vec![], name: s(name), signature: s(signature), ret, body: s(body) }
}

fn trait_method(
    markers: Vec<Marker>,
    name: &str,
    ret: Option<TypeExpr>,
    body: Option<&str>,
) -> TraitMethod {
    TraitMethod {
        markers,
        name: s(name),
        signature: format!("fn {}(&self) -> i32", name),
        ret,
        body: body.map(s),
    }
}

fn file(decls: Vec<Declaration>) -> SourceFile {
    SourceFile { markers: vec![], decls }
}

#[test]
fn test_regular_function() {
    let input = file(vec![func(
        "add",
        "fn add(a: i32, b: i32) -> i32",
        Some(named("i32")),
        "a + b",
    )]);
    let expected = file(vec![func(
        "add",
        "fn add(a: i32, b: i32) -> i32",
        Some(named("i32")),
        "",
    )]);
    let out = CodeTransformer::new(false, true).transform(&input);
    assert_eq!(out, expected);
}

#[test]
fn test_string_returning_function() {
    let input = file(vec![Declaration::ImplBlock {
        markers: vec![],
        header: s("impl MyStruct"),
        target: s("MyStruct"),
        trait_name: None,
        other_members: vec![],
        methods: vec![impl_method(
            "to_string",
            "fn to_string(&self) -> String",
            Some(named("String")),
            "\"test\".to_string()",
        )],
    }]);
    let out = CodeTransformer::new(false, true).transform(&input);
    assert_eq!(out, input);
}

#[test]
fn test_derived_serialize() {
    let input = file(vec![
        Declaration::Structure {
            markers: vec![Marker::Derive { traits: vec![s("Serialize")] }],
            name: s("MyStruct"),
            header: s("struct MyStruct"),
            fields: vec![FieldDecl { markers: vec![], name: s("field"), text: s("field: String") }],
        },
        Declaration::ImplBlock {
            markers: vec![],
            header: s("impl MyStruct"),
            target: s("MyStruct"),
            trait_name: None,
            other_members: vec![],
            methods: vec![impl_method(
                "serialize",
                "fn serialize(&self) -> String",
                Some(named("String")),
                "serde_json::to_string(self).unwrap()",
            )],
        },
    ]);
    let out = CodeTransformer::new(false, true).transform(&input);
    assert_eq!(out, input);
}

#[test]
fn test_option_string_function() {
    let methods = |number_body: &str| {
        vec![
            impl_method(
                "get_optional_string",
                "fn get_optional_string(&self) -> Option<String>",
                Some(named_with("Option<String>", vec![named("String")])),
                "Some(\"test\".to_string())",
            ),
            impl_method(
                "get_optional_str",
                "fn get_optional_str(&self) -> Option<&str>",
                Some(named_with(
                    "Option<&str>",
                    vec![TypeExpr::Reference { referent: Box::new(named("str")) }],
                )),
                "Some(\"test\")",
            ),
            impl_method(
                "get_number",
                "fn get_number(&self) -> Option<i32>",
                Some(named_with("Option<i32>", vec![named("i32")])),
                number_body,
            ),
        ]
    };
    let block = |methods: Vec<ImplMethod>| {
        file(vec![Declaration::ImplBlock {
            markers: vec![],
            header: s("impl MyStruct"),
            target: s("MyStruct"),
            trait_name: None,
            other_members: vec![],
            methods,
        }])
    };
    let input = block(methods("Some(42)"));
    let expected = block(methods(""));
    let out = CodeTransformer::new(false, true).transform(&input);
    assert_eq!(out, expected);
}

#[test]
fn test_custom_serialize() {
    let input = file(vec![Declaration::ImplBlock {
        markers: vec![],
        header: s("impl Serialize for MyStruct"),
        target: s("MyStruct"),
        trait_name: Some(s("Serialize")),
        other_members: vec![],
        methods: vec![impl_method(
            "serialize",
            "fn serialize<S>(&self, serializer: S) -> Result<S::Ok, S::Error>",
            Some(named_with("Result<S::Ok, S::Error>", vec![named("S::Ok"), named("S::Error")])),
            "let mut state = serializer.serialize_struct(\"MyStruct\", 1)?;\nstate.end()",
        )],
    }]);
    let out = CodeTransformer::new(false, true).transform(&input);
    assert_eq!(out, input);
}

#[test]
fn test_trait_methods() {
    // A required method with an existing documentation line gains the
    // required-method marker ahead of it, separated by a blank line.
    let input = file(vec![Declaration::TraitDecl {
        markers: vec![],
        name: s("MyTrait"),
        header: s("trait MyTrait"),
        other_members: vec![],
        methods: vec![
            trait_method(
                vec![doc(" Existing doc comment")],
                "required_method",
                Some(named("i32")),
                None,
            ),
            trait_method(
                vec![doc(" Existing doc comment")],
                "default_method",
                Some(named("i32")),
                Some("42"),
            ),
            trait_method(vec![], "required2", Some(named("i32")), None),
            trait_method(vec![], "default2", Some(named("i32")), Some("43")),
        ],
    }]);
    let expected = file(vec![Declaration::TraitDecl {
        markers: vec![],
        name: s("MyTrait"),
        header: s("trait MyTrait"),
        other_members: vec![],
        methods: vec![
            trait_method(
                vec![doc(" This is a required method"), doc(""), doc(" Existing doc comment")],
                "required_method",
                Some(named("i32")),
                None,
            ),
            trait_method(
                vec![
                    doc(" There is a default implementation"),
                    doc(""),
                    doc(" Existing doc comment"),
                ],
                "default_method",
                Some(named("i32")),
                Some(""),
            ),
            trait_method(
                vec![doc(" This is a required method")],
                "required2",
                Some(named("i32")),
                None,
            ),
            trait_method(
                vec![doc(" There is a default implementation")],
                "default2",
                Some(named("i32")),
                Some(""),
            ),
        ],
    }]);
    let out = CodeTransformer::new(false, false).transform(&input);
    assert_eq!(out, expected, "Failed with comments enabled");

    // With documentation stripped there is no synthetic marker at all.
    let no_comments_input = file(vec![Declaration::TraitDecl {
        markers: vec![],
        name: s("MyTrait"),
        header: s("trait MyTrait"),
        other_members: vec![],
        methods: vec![
            trait_method(vec![doc(" Should be removed")], "required_method", Some(named("i32")), None),
            trait_method(
                vec![doc(" Should also be removed")],
                "default_method",
                Some(named("i32")),
                Some("42"),
            ),
        ],
    }]);
    let no_comments_expected = file(vec![Declaration::TraitDecl {
        markers: vec![],
        name: s("MyTrait"),
        header: s("trait MyTrait"),
        other_members: vec![],
        methods: vec![
            trait_method(vec![], "required_method", Some(named("i32")), None),
            trait_method(vec![], "default_method", Some(named("i32")), Some("")),
        ],
    }]);
    let out = CodeTransformer::new(true, false).transform(&no_comments_input);
    assert_eq!(out, no_comments_expected, "Failed with comments disabled");
}

#[test]
fn test_result_string_function() {
    let methods = |number_body: &str| {
        vec![
            impl_method(
                "get_result_string",
                "fn get_result_string(&self) -> Result<String, Error>",
                Some(named_with("Result<String, Error>", vec![named("String"), named("Error")])),
                "Ok(\"test\".to_string())",
            ),
            impl_method(
                "get_result_number",
                "fn get_result_number(&self) -> Result<i32, Error>",
                Some(named_with("Result<i32, Error>", vec![named("i32"), named("Error")])),
                number_body,
            ),
        ]
    };
    let block = |methods: Vec<ImplMethod>| {
        file(vec![Declaration::ImplBlock {
            markers: vec![],
            header: s("impl MyStruct"),
            target: s("MyStruct"),
            trait_name: None,
            other_members: vec![],
            methods,
        }])
    };
    let input = block(methods("Ok(42)"));
    let expected = block(methods(""));
    let out = CodeTransformer::new(false, true).transform(&input);
    assert_eq!(out, expected);
}

#[test]
fn test_cow_str_function() {
    let input = file(vec![
        Declaration::UseImport { markers: vec![], text: s("use std::borrow::Cow;") },
        Declaration::ImplBlock {
            markers: vec![],
            header: s("impl MyStruct"),
            target: s("MyStruct"),
            trait_name: None,
            other_members: vec![],
            methods: vec![impl_method(
                "get_cow_str",
                "fn get_cow_str(&self) -> Cow<'static, str>",
                Some(named_with("Cow<'static, str>", vec![named("str")])),
                "Cow::Borrowed(\"test\")",
            )],
        },
    ]);
    let out = CodeTransformer::new(false, true).transform(&input);
    assert_eq!(out, input);
}

#[test]
fn test_derived_impl() {
    let input = file(vec![Declaration::ImplBlock {
        markers: vec![Marker::Derive { traits: vec![s("Debug")] }],
        header: s("impl MyStruct"),
        target: s("MyStruct"),
        trait_name: None,
        other_members: vec![],
        methods: vec![impl_method(
            "derived_method",
            "fn derived_method(&self) -> String",
            Some(named("String")),
            "\"test\".to_string()",
        )],
    }]);
    let out = CodeTransformer::new(false, true).transform(&input);
    match &out.decls[0] {
        Declaration::ImplBlock { methods, .. } => {
            assert_eq!(methods[0].body, s(""));
        },
        _ => panic!("expected an implementation block"),
    }
}

#[test]
fn test_line_doc_comments() {
    let input = SourceFile {
        markers: vec![
            doc_inner(" A doc comment that applies to the module"),
            doc_inner("! Still a module doc comment"),
        ],
        decls: vec![Declaration::Structure {
            markers: vec![doc(" Outer line doc")],
            name: s("MyStruct"),
            header: s("struct MyStruct"),
            fields: vec![FieldDecl {
                markers: vec![doc(" Field documentation")],
                name: s("field"),
                text: s("field: String"),
            }],
        }],
    };
    let kept = CodeTransformer::new(false, false).transform(&input);
    assert_eq!(kept, input);

    let stripped = CodeTransformer::new(true, false).transform(&input);
    let expected = SourceFile {
        markers: vec![],
        decls: vec![Declaration::Structure {
            markers: vec![],
            name: s("MyStruct"),
            header: s("struct MyStruct"),
            fields: vec![FieldDecl { markers: vec![], name: s("field"), text: s("field: String") }],
        }],
    };
    assert_eq!(stripped, expected);
}

#[test]
fn test_block_doc_comments() {
    let input = SourceFile {
        markers: vec![doc_inner(" Inner block doc "), doc_inner("! Still an inner block doc ")],
        decls: vec![Declaration::Structure {
            markers: vec![doc(" Outer block doc ")],
            name: s("MyStruct"),
            header: s("struct MyStruct"),
            fields: vec![FieldDecl {
                markers: vec![doc(" Field block documentation ")],
                name: s("field"),
                text: s("field: String"),
            }],
        }],
    };
    let kept = CodeTransformer::new(false, false).transform(&input);
    assert_eq!(kept, input);

    let stripped = CodeTransformer::new(true, false).transform(&input);
    assert!(stripped.markers.is_empty());
    match &stripped.decls[0] {
        Declaration::Structure { markers, fields, .. } => {
            assert!(markers.is_empty());
            assert!(fields[0].markers.is_empty());
        },
        _ => panic!("expected a structure"),
    }
}

#[test]
fn test_nested_comments() {
    let input = file(vec![Declaration::Structure {
        markers: vec![doc(" Outer block containing /* nested */ comments ")],
        name: s("MyStruct"),
        header: s("struct MyStruct"),
        fields: vec![FieldDecl { markers: vec![], name: s("field"), text: s("field: String") }],
    }]);
    let kept = CodeTransformer::new(false, false).transform(&input);
    assert_eq!(kept, input);
    let stripped = CodeTransformer::new(true, false).transform(&input);
    match &stripped.decls[0] {
        Declaration::Structure { markers, .. } => assert!(markers.is_empty()),
        _ => panic!("expected a structure"),
    }
}

#[test]
fn test_degenerate_comment_cases() {
    let input = file(vec![Declaration::Structure {
        markers: vec![
            doc("Empty module doc"),
            doc("Empty block doc"),
            doc("Empty outer doc"),
            doc("Empty outer block"),
        ],
        name: s("MyStruct"),
        header: s("struct MyStruct"),
        fields: vec![FieldDecl {
            markers: vec![doc("Empty inner doc"), doc("Empty inner block")],
            name: s("field"),
            text: s("field: String"),
        }],
    }]);
    let kept = CodeTransformer::new(false, false).transform(&input);
    assert_eq!(kept, input);
    let stripped = CodeTransformer::new(true, false).transform(&input);
    match &stripped.decls[0] {
        Declaration::Structure { markers, fields, .. } => {
            assert!(markers.is_empty());
            assert!(fields[0].markers.is_empty());
        },
        _ => panic!("expected a structure"),
    }
}

#[test]
fn test_mixed_comments_in_module() {
    let my_struct = |markers: Vec<Marker>, field_markers: Vec<Marker>| Declaration::Structure {
        markers,
        name: s("MyStruct"),
        header: s("pub struct MyStruct"),
        fields: vec![FieldDecl { markers: field_markers, name: s("field"), text: s("field: String") }],
    };
    let my_func = |markers: Vec<Marker>, body: &str| Declaration::Function {
        markers,
        name: s("my_func"),
        signature: s("fn my_func() -> i32"),
        ret: Some(named("i32")),
        body: s(body),
    };
    let input = SourceFile {
        markers: vec![doc_inner(" Module documentation")],
        decls: vec![Declaration::Module {
            markers: vec![doc_inner(" Inner line doc"), doc_inner(" Inner block doc ")],
            name: s("outer_module"),
            header: s("pub mod outer_module"),
            items: Some(vec![
                my_struct(
                    vec![doc(" Outer line doc"), doc(" Outer block doc ")],
                    vec![doc(" Field doc"), doc(" Block field doc ")],
                ),
                my_func(vec![doc(" Function doc"), doc(" Block function doc ")], "42"),
            ]),
        }],
    };
    let expected_with_comments = SourceFile {
        markers: vec![doc_inner(" Module documentation")],
        decls: vec![Declaration::Module {
            markers: vec![doc_inner(" Inner line doc"), doc_inner(" Inner block doc ")],
            name: s("outer_module"),
            header: s("pub mod outer_module"),
            items: Some(vec![
                my_struct(
                    vec![doc(" Outer line doc"), doc(" Outer block doc ")],
                    vec![doc(" Field doc"), doc(" Block field doc ")],
                ),
                my_func(vec![doc(" Function doc"), doc(" Block function doc ")], ""),
            ]),
        }],
    };
    let out = CodeTransformer::new(false, true).transform(&input);
    assert_eq!(out, expected_with_comments);

    let expected_no_comments = SourceFile {
        markers: vec![],
        decls: vec![Declaration::Module {
            markers: vec![],
            name: s("outer_module"),
            header: s("pub mod outer_module"),
            items: Some(vec![my_struct(vec![], vec![]), my_func(vec![], "")]),
        }],
    };
    let out = CodeTransformer::new(true, true).transform(&input);
    assert_eq!(out, expected_no_comments);
}

#[test]
fn test_module_with_test_function() {
    let input = file(vec![Declaration::Module {
        markers: vec![],
        name: s("helpers"),
        header: s("mod helpers"),
        items: Some(vec![
            func("ordinary", "fn ordinary() -> i32", Some(named("i32")), "1"),
            Declaration::Function {
                markers: vec![Marker::Test],
                name: s("test_ordinary"),
                signature: s("fn test_ordinary()"),
                ret: None,
                body: s("assert!(true)"),
            },
        ]),
    }]);
    let expected = file(vec![Declaration::Module {
        markers: vec![],
        name: s("helpers"),
        header: s("mod helpers"),
        items: Some(vec![func("ordinary", "fn ordinary() -> i32", Some(named("i32")), "")]),
    }]);
    let out = CodeTransformer::new(false, true).transform(&input);
    assert_eq!(out, expected);
}

#[test]
fn test_cfg_test_module_removed() {
    let input = file(vec![
        func("add", "fn add(a: i32, b: i32) -> i32", Some(named("i32")), "a + b"),
        Declaration::Module {
            markers: vec![Marker::Cfg { predicate: s("test") }],
            name: s("tests"),
            header: s("mod tests"),
            items: Some(vec![func("test_add", "fn test_add()", None, "assert_eq!(add(2, 2), 4)")]),
        },
    ]);
    let expected = file(vec![func(
        "add",
        "fn add(a: i32, b: i32) -> i32",
        Some(named("i32")),
        "a + b",
    )]);
    let out = CodeTransformer::new(false, false).transform(&input);
    assert_eq!(out, expected);
}

#[test]
fn test_cfg_predicate_containment() {
    // The test detection is a coarse textual containment check: a predicate
    // such as `not(test)` is treated as test-only too, while an unrelated
    // predicate is kept.
    let keeper = || Declaration::Constant {
        markers: vec![Marker::Cfg { predicate: s("feature = \"extra\"") }],
        text: s("const K: u32 = 1;"),
    };
    let goner = Declaration::Constant {
        markers: vec![Marker::Cfg { predicate: s("not(test)") }],
        text: s("const G: u32 = 2;"),
    };
    let input = file(vec![keeper(), goner]);
    let expected = file(vec![keeper()]);
    let out = CodeTransformer::new(false, false).transform(&input);
    assert_eq!(out, expected);
}

#[test]
fn test_struct_docs_stripped() {
    let input = file(vec![Declaration::Structure {
        markers: vec![],
        name: s("Config"),
        header: s("struct Config"),
        fields: vec![
            FieldDecl {
                markers: vec![doc(" first")],
                name: s("a"),
                text: s("a: u32"),
            },
            FieldDecl {
                markers: vec![doc(" second")],
                name: s("b"),
                text: s("b: u32"),
            },
            FieldDecl {
                markers: vec![doc(" third")],
                name: s("c"),
                text: s("c: u32"),
            },
        ],
    }]);
    let expected = file(vec![Declaration::Structure {
        markers: vec![],
        name: s("Config"),
        header: s("struct Config"),
        fields: vec![
            FieldDecl { markers: vec![], name: s("a"), text: s("a: u32") },
            FieldDecl { markers: vec![], name: s("b"), text: s("b: u32") },
            FieldDecl { markers: vec![], name: s("c"), text: s("c: u32") },
        ],
    }]);
    let out = CodeTransformer::new(true, false).transform(&input);
    assert_eq!(out, expected);
}

#[test]
fn test_multiline_doc_split() {
    let input = file(vec![Declaration::Structure {
        markers: vec![doc(" first line\n second line")],
        name: s("MyStruct"),
        header: s("struct MyStruct"),
        fields: vec![],
    }]);
    let expected = file(vec![Declaration::Structure {
        markers: vec![doc(" first line"), doc(" second line")],
        name: s("MyStruct"),
        header: s("struct MyStruct"),
        fields: vec![],
    }]);
    let out = CodeTransformer::new(false, false).transform(&input);
    assert_eq!(out, expected);
}

#[test]
fn test_other_members_pass_through() {
    // Associated types and constants of traits and implementation blocks
    // ride along as opaque text, untouched by either policy.
    let input = file(vec![
        Declaration::TraitDecl {
            markers: vec![],
            name: s("Store"),
            header: s("trait Store"),
            other_members: vec![s("type Key;"), s("const LIMIT: usize;")],
            methods: vec![trait_method(vec![], "get", Some(named("i32")), Some("0"))],
        },
        Declaration::ImplBlock {
            markers: vec![],
            header: s("impl Store for MapStore"),
            target: s("MapStore"),
            trait_name: Some(s("Store")),
            other_members: vec![s("type Key = u64;"), s("const LIMIT: usize = 16;")],
            methods: vec![],
        },
    ]);
    let out = CodeTransformer::new(true, true).transform(&input);
    match &out.decls[0] {
        Declaration::TraitDecl { other_members, .. } => {
            assert_eq!(other_members, &vec![s("type Key;"), s("const LIMIT: usize;")]);
        },
        _ => panic!("expected a trait declaration"),
    }
    match &out.decls[1] {
        Declaration::ImplBlock { other_members, .. } => {
            assert_eq!(other_members, &vec![s("type Key = u64;"), s("const LIMIT: usize = 16;")]);
        },
        _ => panic!("expected an implementation block"),
    }
}

#[test]
fn test_transform_idempotent_strip_docs() {
    let input = file(vec![
        Declaration::TraitDecl {
            markers: vec![doc(" trait docs")],
            name: s("MyTrait"),
            header: s("trait MyTrait"),
            other_members: vec![],
            methods: vec![
                trait_method(vec![doc(" docs")], "required", Some(named("i32")), None),
                trait_method(vec![], "default", Some(named("i32")), Some("42")),
            ],
        },
        func("add", "fn add(a: i32, b: i32) -> i32", Some(named("i32")), "a + b"),
    ]);
    let t = CodeTransformer::new(true, true);
    let once = t.transform(&input);
    let twice = t.transform(&once);
    assert_eq!(twice, once);
}

#[test]
fn test_transform_idempotent_without_traits() {
    let input = SourceFile {
        markers: vec![doc_inner(" module docs\n over two lines")],
        decls: vec![
            func("add", "fn add(a: i32, b: i32) -> i32", Some(named("i32")), "a + b"),
            Declaration::ImplBlock {
                markers: vec![doc(" impl docs")],
                header: s("impl MyStruct"),
                target: s("MyStruct"),
                trait_name: None,
                other_members: vec![],
                methods: vec![impl_method(
                    "get",
                    "fn get(&self) -> u32",
                    Some(named("u32")),
                    "self.0",
                )],
            },
        ],
    };
    let t = CodeTransformer::new(false, false);
    let once = t.transform(&input);
    let twice = t.transform(&once);
    assert_eq!(twice, once);
}
