//! The laws of the transformation pass, stated over the ghost model and
//! proved once and for all: what happens to free function bodies, to
//! implementation-block methods, to trait methods, to test-only
//! declarations, and that the pass is idempotent.

use vstd::prelude::*;

use crate::classify::{spec_is_derived, spec_is_documentation, spec_implements_trait_named, spec_is_test_only};
use crate::normalize::{doc_line, spec_normalize_markers, lemma_normalize_markers_classification};
use crate::significance::spec_ret_significant;
use crate::text::has_newline;
use crate::transformer::{
    default_status_text, required_status_text, select_markers, spec_transform_decl,
    spec_transform_decls, spec_transform_file, spec_transform_field, spec_transform_impl_method,
    spec_transform_trait_method,
};
use crate::tree::{DeclView, FieldView, FileView, ImplMethodView, MarkerView, TraitMethodView};

verus! {

// ---------------------------------------------------------------------------
// Tree-wide predicates
// ---------------------------------------------------------------------------

/// Every free function in this declaration, however deeply nested in
/// modules, has the empty block as its body.
pub open spec fn decl_free_fn_bodies_empty(d: DeclView) -> bool
    decreases d,
{
    match d {
        DeclView::Function { body, .. } => body.len() == 0,
        DeclView::Module { items, .. } => match items {
            Option::Some(l) => decls_free_fn_bodies_empty(l),
            Option::None => true,
        },
        _ => true,
    }
}

pub open spec fn decls_free_fn_bodies_empty(l: Seq<DeclView>) -> bool
    decreases l,
{
    if l.len() == 0 {
        true
    } else {
        decl_free_fn_bodies_empty(l.first()) && decls_free_fn_bodies_empty(l.drop_first())
    }
}

pub open spec fn file_free_fn_bodies_empty(f: FileView) -> bool {
    decls_free_fn_bodies_empty(f.decls)
}

/// No declaration in this subtree, and no member of any nested module, is
/// test-only.
pub open spec fn decl_no_test_only(d: DeclView) -> bool
    decreases d,
{
    match d {
        DeclView::Module { items, .. } => match items {
            Option::Some(l) => decls_no_test_only(l),
            Option::None => true,
        },
        _ => true,
    }
}

pub open spec fn decls_no_test_only(l: Seq<DeclView>) -> bool
    decreases l,
{
    if l.len() == 0 {
        true
    } else {
        &&& !spec_is_test_only(l.first().markers())
        &&& decl_no_test_only(l.first())
        &&& decls_no_test_only(l.drop_first())
    }
}

pub open spec fn file_no_test_only(f: FileView) -> bool {
    decls_no_test_only(f.decls)
}

// ---------------------------------------------------------------------------
// Helper: the markers of a rewritten declaration
// ---------------------------------------------------------------------------

/// A rewritten declaration's markers are exactly its old markers,
/// normalized; so normalization's classification guarantees carry over to
/// whole declarations.
pub proof fn lemma_transform_decl_markers(d: DeclView, strip_docs: bool, strip_bodies: bool)
    ensures
        spec_transform_decl(d, strip_docs, strip_bodies).markers() == spec_normalize_markers(
            d.markers(),
            strip_docs,
        ),
{
    match d {
        DeclView::Function { .. } => {},
        DeclView::Module { .. } => {},
        DeclView::Structure { .. } => {},
        DeclView::Enumeration { .. } => {},
        DeclView::TraitDecl { .. } => {},
        DeclView::ImplBlock { .. } => {},
        DeclView::TypeAlias { .. } => {},
        DeclView::Constant { .. } => {},
        DeclView::StaticItem { .. } => {},
        DeclView::UseImport { .. } => {},
        DeclView::ForeignBlock { .. } => {},
        DeclView::MacroCall { .. } => {},
        DeclView::TraitAlias { .. } => {},
        DeclView::UnionDecl { .. } => {},
        DeclView::Other { .. } => {},
    }
}

// ---------------------------------------------------------------------------
// Free function bodies (strip-bodies policy)
// ---------------------------------------------------------------------------

proof fn lemma_decl_strip_bodies(d: DeclView, strip_docs: bool)
    ensures
        decl_free_fn_bodies_empty(spec_transform_decl(d, strip_docs, true)),
    decreases d,
{
    match d {
        DeclView::Module { items, .. } => {
            match items {
                Option::Some(l) => {
                    lemma_decls_strip_bodies(l, strip_docs);
                },
                Option::None => {},
            }
        },
        _ => {},
    }
}

proof fn lemma_decls_strip_bodies(l: Seq<DeclView>, strip_docs: bool)
    ensures
        decls_free_fn_bodies_empty(spec_transform_decls(l, strip_docs, true)),
    decreases l,
{
    if l.len() == 0 {
    } else {
        let rest = spec_transform_decls(l.drop_first(), strip_docs, true);
        lemma_decls_strip_bodies(l.drop_first(), strip_docs);
        if !spec_is_test_only(l.first().markers()) {
            let t = spec_transform_decl(l.first(), strip_docs, true);
            lemma_decl_strip_bodies(l.first(), strip_docs);
            let out = seq![t] + rest;
            assert(out.first() == t);
            assert(out.drop_first() =~= rest);
        }
    }
}

/// After a pass with the strip-bodies policy active, every free function in
/// the output tree — at the top level or nested in modules — has the empty
/// block as its body, regardless of its return type.
pub proof fn lemma_strip_bodies_empties_free_functions(f: FileView, strip_docs: bool)
    ensures
        file_free_fn_bodies_empty(spec_transform_file(f, strip_docs, true)),
{
    lemma_decls_strip_bodies(f.decls, strip_docs);
}

// ---------------------------------------------------------------------------
// Test-only declarations are absent from the output
// ---------------------------------------------------------------------------

proof fn lemma_decl_no_test_only(d: DeclView, strip_docs: bool, strip_bodies: bool)
    requires
        !spec_is_test_only(d.markers()),
    ensures
        !spec_is_test_only(spec_transform_decl(d, strip_docs, strip_bodies).markers()),
        decl_no_test_only(spec_transform_decl(d, strip_docs, strip_bodies)),
    decreases d,
{
    lemma_transform_decl_markers(d, strip_docs, strip_bodies);
    lemma_normalize_markers_classification(d.markers(), strip_docs);
    match d {
        DeclView::Module { items, .. } => {
            match items {
                Option::Some(l) => {
                    lemma_decls_no_test_only(l, strip_docs, strip_bodies);
                },
                Option::None => {},
            }
        },
        _ => {},
    }
}

proof fn lemma_decls_no_test_only(l: Seq<DeclView>, strip_docs: bool, strip_bodies: bool)
    ensures
        decls_no_test_only(spec_transform_decls(l, strip_docs, strip_bodies)),
    decreases l,
{
    if l.len() == 0 {
    } else {
        let rest = spec_transform_decls(l.drop_first(), strip_docs, strip_bodies);
        lemma_decls_no_test_only(l.drop_first(), strip_docs, strip_bodies);
        if !spec_is_test_only(l.first().markers()) {
            let t = spec_transform_decl(l.first(), strip_docs, strip_bodies);
            lemma_decl_no_test_only(l.first(), strip_docs, strip_bodies);
            let out = seq![t] + rest;
            assert(out.first() == t);
            assert(out.drop_first() =~= rest);
        }
    }
}

/// Every declaration marked test-only — by a test marker, or by a
/// conditional-compilation predicate containing `test` — is absent from the
/// output tree, at every nesting depth.
pub proof fn lemma_test_only_declarations_removed(f: FileView, strip_docs: bool, strip_bodies: bool)
    ensures
        file_no_test_only(spec_transform_file(f, strip_docs, strip_bodies)),
{
    lemma_decls_no_test_only(f.decls, strip_docs, strip_bodies);
}

// ---------------------------------------------------------------------------
// Method bodies follow the rules at every nesting depth
// ---------------------------------------------------------------------------

/// In this subtree, every implementation-block method whose block is
/// derived, or neither serialization-related nor string-like in return
/// type, has the empty block as its body; and every trait method default
/// body that is not string-like in return type is empty.
pub open spec fn decl_method_bodies_cleared(d: DeclView) -> bool
    decreases d,
{
    match d {
        DeclView::ImplBlock { markers, trait_name, methods, .. } => forall|i: int|
            0 <= i < methods.len() && (spec_is_derived(markers) || !(spec_implements_trait_named(
                trait_name,
                "Serialize"@,
            ) || spec_ret_significant((#[trigger] methods[i]).ret))) ==> methods[i].body.len()
                == 0,
        DeclView::TraitDecl { methods, .. } => forall|i: int|
            0 <= i < methods.len() && (#[trigger] methods[i]).body is Some
                && !spec_ret_significant(methods[i].ret) ==> methods[i].body->0.len() == 0,
        DeclView::Module { items, .. } => match items {
            Option::Some(l) => decls_method_bodies_cleared(l),
            Option::None => true,
        },
        _ => true,
    }
}

pub open spec fn decls_method_bodies_cleared(l: Seq<DeclView>) -> bool
    decreases l,
{
    if l.len() == 0 {
        true
    } else {
        decl_method_bodies_cleared(l.first()) && decls_method_bodies_cleared(l.drop_first())
    }
}

pub open spec fn file_method_bodies_cleared(f: FileView) -> bool {
    decls_method_bodies_cleared(f.decls)
}

proof fn lemma_decl_method_bodies(d: DeclView, strip_docs: bool, strip_bodies: bool)
    ensures
        decl_method_bodies_cleared(spec_transform_decl(d, strip_docs, strip_bodies)),
    decreases d,
{
    match d {
        DeclView::Module { items, .. } => {
            match items {
                Option::Some(l) => {
                    lemma_decls_method_bodies(l, strip_docs, strip_bodies);
                },
                Option::None => {},
            }
        },
        DeclView::ImplBlock { markers, trait_name, methods, .. } => {
            let derived = spec_is_derived(markers);
            let serialize = spec_implements_trait_named(trait_name, "Serialize"@);
            lemma_normalize_markers_classification(markers, strip_docs);
            let tm = |m: ImplMethodView| spec_transform_impl_method(
                m,
                derived,
                serialize,
                strip_docs,
            );
            assert(forall|i: int|
                0 <= i < methods.len() ==> #[trigger] methods.map_values(tm)[i] == tm(
                    methods[i],
                ));
        },
        DeclView::TraitDecl { methods, .. } => {
            let tm = |m: TraitMethodView| spec_transform_trait_method(m, strip_docs);
            assert(forall|i: int|
                0 <= i < methods.len() ==> #[trigger] methods.map_values(tm)[i] == tm(
                    methods[i],
                ));
        },
        _ => {},
    }
}

proof fn lemma_decls_method_bodies(l: Seq<DeclView>, strip_docs: bool, strip_bodies: bool)
    ensures
        decls_method_bodies_cleared(spec_transform_decls(l, strip_docs, strip_bodies)),
    decreases l,
{
    if l.len() == 0 {
    } else {
        let rest = spec_transform_decls(l.drop_first(), strip_docs, strip_bodies);
        lemma_decls_method_bodies(l.drop_first(), strip_docs, strip_bodies);
        if !spec_is_test_only(l.first().markers()) {
            let t = spec_transform_decl(l.first(), strip_docs, strip_bodies);
            lemma_decl_method_bodies(l.first(), strip_docs, strip_bodies);
            let out = seq![t] + rest;
            assert(out.first() == t);
            assert(out.drop_first() =~= rest);
        }
    }
}

/// After a pass, at every nesting depth, method bodies that the rules call
/// boilerplate are the empty block: a derived block's methods, a
/// non-serialization block's methods without string-like return types, and
/// trait method defaults without string-like return types.  Which bodies
/// are preserved exactly is stated per block by
/// `lemma_impl_block_method_rule` and per method by
/// `lemma_trait_method_rule`.
pub proof fn lemma_method_bodies_cleared_everywhere(
    f: FileView,
    strip_docs: bool,
    strip_bodies: bool,
)
    ensures
        file_method_bodies_cleared(spec_transform_file(f, strip_docs, strip_bodies)),
{
    lemma_decls_method_bodies(f.decls, strip_docs, strip_bodies);
}

// ---------------------------------------------------------------------------
// The implementation-block method rule
// ---------------------------------------------------------------------------

/// After a pass, an implementation block's methods keep their bodies iff the
/// block carries no derive marker and either implements a trait whose name
/// contains `Serialize` or the method's return type is string-like; every
/// other method body is the empty block.  This holds whatever the policy
/// flags say.
pub proof fn lemma_impl_block_method_rule(
    markers: Seq<MarkerView>,
    header: Seq<char>,
    target: Seq<char>,
    trait_name: Option<Seq<char>>,
    methods: Seq<ImplMethodView>,
    other_members: Seq<Seq<char>>,
    strip_docs: bool,
    strip_bodies: bool,
)
    ensures
        ({
            let out = spec_transform_decl(
                DeclView::ImplBlock { markers, header, target, trait_name, methods, other_members },
                strip_docs,
                strip_bodies,
            );
            &&& out matches DeclView::ImplBlock { methods: out_methods, .. }
            &&& out->ImplBlock_methods.len() == methods.len()
            &&& forall|i: int|
                0 <= i < methods.len() ==> (#[trigger] out->ImplBlock_methods[i]).body == (
                if spec_is_derived(markers) || !(spec_implements_trait_named(
                    trait_name,
                    "Serialize"@,
                ) || spec_ret_significant(methods[i].ret)) {
                    Seq::<char>::empty()
                } else {
                    methods[i].body
                })
        }),
{
    let derived = spec_is_derived(markers);
    let serialize = spec_implements_trait_named(trait_name, "Serialize"@);
    let out = spec_transform_decl(
        DeclView::ImplBlock { markers, header, target, trait_name, methods, other_members },
        strip_docs,
        strip_bodies,
    );
    let tm = |m: ImplMethodView| spec_transform_impl_method(m, derived, serialize, strip_docs);
    assert(out->ImplBlock_methods == methods.map_values(tm));
    assert forall|i: int| 0 <= i < methods.len() implies (#[trigger] out->ImplBlock_methods[i]).body
        == (if derived || !(serialize || spec_ret_significant(methods[i].ret)) {
        Seq::<char>::empty()
    } else {
        methods[i].body
    }) by {
        assert(methods.map_values(tm)[i] == tm(methods[i]));
    }
}

// ---------------------------------------------------------------------------
// The trait method rule
// ---------------------------------------------------------------------------

/// After a documentation-preserving pass, a trait method's default body is
/// cleared to empty iff its return type is not string-like; a required
/// method (one without a default) keeps having none.  A synthetic status
/// marker stands after the method's non-documentation markers and before
/// all of its retained documentation, separated from it by one blank
/// documentation line when documentation is present; the marker's text is
/// exactly one of the two canonical forms — the required-method form iff
/// the method has no default, the has-a-default form otherwise, never both.
/// When the method's documentation is already line-oriented, the retained
/// documentation is exactly the original documentation markers in their
/// original order — replaced, never duplicated.
pub proof fn lemma_trait_method_rule(m: TraitMethodView)
    ensures
        ({
            let out = spec_transform_trait_method(m, false);
            let others = select_markers(m.markers, |mk: MarkerView| !spec_is_documentation(mk));
            let docs = spec_normalize_markers(
                select_markers(m.markers, |mk: MarkerView| spec_is_documentation(mk)),
                false,
            );
            let status_text = if m.body is None {
                required_status_text()
            } else {
                default_status_text()
            };
            &&& out.body == (if m.body is Some && !spec_ret_significant(m.ret) {
                Option::Some(Seq::<char>::empty())
            } else {
                m.body
            })
            &&& (m.body is Some && spec_ret_significant(m.ret)) ==> out.body == m.body
            &&& m.body is None <==> out.body is None
            &&& out.markers == others + seq![doc_line(false, status_text)] + (if docs.len() > 0 {
                seq![doc_line(false, Seq::<char>::empty())]
            } else {
                Seq::<MarkerView>::empty()
            }) + docs
            &&& (status_text == required_status_text()) <==> m.body is None
            &&& (status_text == default_status_text()) <==> m.body is Some
            &&& (forall|i: int|
                0 <= i < m.markers.len() ==> ((#[trigger] m.markers[i]) matches MarkerView::Doc {
                    text,
                    ..
                } ==> !has_newline(text))) ==> docs == select_markers(
                m.markers,
                |mk: MarkerView| spec_is_documentation(mk),
            )
        }),
{
    proof_strlit_status_texts();
    if forall|i: int|
        0 <= i < m.markers.len() ==> ((#[trigger] m.markers[i]) matches MarkerView::Doc {
            text,
            ..
        } ==> !has_newline(text)) {
        lemma_select_docs_single_line(m.markers, |mk: MarkerView| spec_is_documentation(mk));
        crate::normalize::lemma_normalize_markers_single_line(
            select_markers(m.markers, |mk: MarkerView| spec_is_documentation(mk)),
        );
    }
}

/// Selecting from a list whose documentation is line-oriented yields only
/// line-oriented documentation, whatever the selection predicate.
proof fn lemma_select_docs_single_line(ms: Seq<MarkerView>, pred: spec_fn(MarkerView) -> bool)
    requires
        forall|i: int|
            0 <= i < ms.len() ==> ((#[trigger] ms[i]) matches MarkerView::Doc { text, .. }
                ==> !has_newline(text)),
    ensures
        forall|j: int|
            0 <= j < select_markers(ms, pred).len() ==> ((#[trigger] select_markers(ms, pred)[j])
                matches MarkerView::Doc { text, .. } ==> !has_newline(text)),
    decreases ms.len(),
{
    if ms.len() > 0 {
        assert(forall|i: int|
            0 <= i < ms.drop_first().len() ==> ((#[trigger] ms.drop_first()[i]) matches
                MarkerView::Doc { text, .. } ==> !has_newline(text)));
        lemma_select_docs_single_line(ms.drop_first(), pred);
        let head = if pred(ms.first()) {
            seq![ms.first()]
        } else {
            Seq::<MarkerView>::empty()
        };
        assert forall|j: int| 0 <= j < select_markers(ms, pred).len() implies ((
        #[trigger] select_markers(ms, pred)[j]) matches MarkerView::Doc { text, .. }
            ==> !has_newline(text)) by {
            if j < head.len() {
                assert(select_markers(ms, pred)[j] == ms.first());
            } else {
                assert(select_markers(ms, pred)[j] == select_markers(ms.drop_first(), pred)[j
                    - head.len()]);
            }
        }
    }
}

/// The two canonical status texts differ, so a status marker never carries
/// both forms.
proof fn proof_strlit_status_texts()
    ensures
        required_status_text() != default_status_text(),
{
    reveal_strlit(" This is a required method");
    reveal_strlit(" There is a default implementation");
    assert(required_status_text().len() != default_status_text().len());
}

// ---------------------------------------------------------------------------
// Idempotence
// ---------------------------------------------------------------------------

/// No trait declaration in this subtree has a method.  Trait methods are
/// the one place where a documentation-preserving pass is not idempotent:
/// each pass prepends a fresh synthetic status marker to every trait
/// method.
pub open spec fn decl_no_trait_methods(d: DeclView) -> bool
    decreases d,
{
    match d {
        DeclView::TraitDecl { methods, .. } => methods.len() == 0,
        DeclView::Module { items, .. } => match items {
            Option::Some(l) => decls_no_trait_methods(l),
            Option::None => true,
        },
        _ => true,
    }
}

pub open spec fn decls_no_trait_methods(l: Seq<DeclView>) -> bool
    decreases l,
{
    if l.len() == 0 {
        true
    } else {
        decl_no_trait_methods(l.first()) && decls_no_trait_methods(l.drop_first())
    }
}

pub open spec fn file_no_trait_methods(f: FileView) -> bool {
    decls_no_trait_methods(f.decls)
}

proof fn lemma_field_idem(f: FieldView, strip_docs: bool)
    ensures
        spec_transform_field(spec_transform_field(f, strip_docs), strip_docs)
            == spec_transform_field(f, strip_docs),
{
    crate::normalize::lemma_normalize_markers_idempotent(f.markers, strip_docs);
}

proof fn lemma_impl_method_idem(m: ImplMethodView, derived: bool, serialize: bool, strip_docs: bool)
    ensures
        spec_transform_impl_method(
            spec_transform_impl_method(m, derived, serialize, strip_docs),
            derived,
            serialize,
            strip_docs,
        ) == spec_transform_impl_method(m, derived, serialize, strip_docs),
{
    crate::normalize::lemma_normalize_markers_idempotent(m.markers, strip_docs);
}

proof fn lemma_trait_method_idem_strip(m: TraitMethodView)
    ensures
        spec_transform_trait_method(spec_transform_trait_method(m, true), true)
            == spec_transform_trait_method(m, true),
{
    let not_doc = |mk: MarkerView| !spec_is_documentation(mk);
    let out1 = spec_transform_trait_method(m, true);
    assert(out1.markers == select_markers(m.markers, not_doc));
    crate::transformer::lemma_select_markers_elements(m.markers, not_doc);
    crate::transformer::lemma_select_markers_identity(out1.markers, not_doc);
}

proof fn lemma_decl_idem(d: DeclView, strip_docs: bool, strip_bodies: bool)
    requires
        strip_docs || decl_no_trait_methods(d),
    ensures
        spec_transform_decl(
            spec_transform_decl(d, strip_docs, strip_bodies),
            strip_docs,
            strip_bodies,
        ) == spec_transform_decl(d, strip_docs, strip_bodies),
    decreases d,
{
    lemma_transform_decl_markers(d, strip_docs, strip_bodies);
    let t1 = spec_transform_decl(d, strip_docs, strip_bodies);
    lemma_transform_decl_markers(t1, strip_docs, strip_bodies);
    crate::normalize::lemma_normalize_markers_idempotent(d.markers(), strip_docs);
    match d {
        DeclView::Function { .. } => {},
        DeclView::Module { items, .. } => {
            match items {
                Option::Some(l) => {
                    lemma_decls_idem(l, strip_docs, strip_bodies);
                },
                Option::None => {},
            }
        },
        DeclView::Structure { fields, .. } => {
            let tf = |f: FieldView| spec_transform_field(f, strip_docs);
            assert forall|i: int| 0 <= i < fields.len() implies #[trigger] fields.map_values(
                tf,
            ).map_values(tf)[i] == fields.map_values(tf)[i] by {
                lemma_field_idem(fields[i], strip_docs);
            }
            assert(fields.map_values(tf).map_values(tf) =~= fields.map_values(tf));
        },
        DeclView::Enumeration { variants, .. } => {
            let tf = |f: FieldView| spec_transform_field(f, strip_docs);
            assert forall|i: int| 0 <= i < variants.len() implies #[trigger] variants.map_values(
                tf,
            ).map_values(tf)[i] == variants.map_values(tf)[i] by {
                lemma_field_idem(variants[i], strip_docs);
            }
            assert(variants.map_values(tf).map_values(tf) =~= variants.map_values(tf));
        },
        DeclView::TraitDecl { methods, .. } => {
            let tm = |m: TraitMethodView| spec_transform_trait_method(m, strip_docs);
            if strip_docs {
                assert forall|i: int| 0 <= i < methods.len() implies #[trigger] methods.map_values(
                    tm,
                ).map_values(tm)[i] == methods.map_values(tm)[i] by {
                    lemma_trait_method_idem_strip(methods[i]);
                }
                assert(methods.map_values(tm).map_values(tm) =~= methods.map_values(tm));
            } else {
                assert(methods.len() == 0);
                assert(methods.map_values(tm).map_values(tm) =~= methods.map_values(tm));
            }
        },
        DeclView::ImplBlock { markers, trait_name, methods, .. } => {
            let derived = spec_is_derived(markers);
            let serialize = spec_implements_trait_named(trait_name, "Serialize"@);
            lemma_normalize_markers_classification(markers, strip_docs);
            assert(spec_is_derived(spec_normalize_markers(markers, strip_docs)) == derived);
            let tm = |m: ImplMethodView| spec_transform_impl_method(
                m,
                derived,
                serialize,
                strip_docs,
            );
            assert forall|i: int| 0 <= i < methods.len() implies #[trigger] methods.map_values(
                tm,
            ).map_values(tm)[i] == methods.map_values(tm)[i] by {
                lemma_impl_method_idem(methods[i], derived, serialize, strip_docs);
            }
            assert(methods.map_values(tm).map_values(tm) =~= methods.map_values(tm));
        },
        DeclView::TypeAlias { .. } => {},
        DeclView::Constant { .. } => {},
        DeclView::StaticItem { .. } => {},
        DeclView::UseImport { .. } => {},
        DeclView::ForeignBlock { .. } => {},
        DeclView::MacroCall { .. } => {},
        DeclView::TraitAlias { .. } => {},
        DeclView::UnionDecl { .. } => {},
        DeclView::Other { .. } => {},
    }
}

proof fn lemma_decls_idem(l: Seq<DeclView>, strip_docs: bool, strip_bodies: bool)
    requires
        strip_docs || decls_no_trait_methods(l),
    ensures
        spec_transform_decls(
            spec_transform_decls(l, strip_docs, strip_bodies),
            strip_docs,
            strip_bodies,
        ) == spec_transform_decls(l, strip_docs, strip_bodies),
    decreases l,
{
    if l.len() == 0 {
    } else {
        let rest = spec_transform_decls(l.drop_first(), strip_docs, strip_bodies);
        lemma_decls_idem(l.drop_first(), strip_docs, strip_bodies);
        if spec_is_test_only(l.first().markers()) {
        } else {
            let t = spec_transform_decl(l.first(), strip_docs, strip_bodies);
            lemma_transform_decl_markers(l.first(), strip_docs, strip_bodies);
            lemma_normalize_markers_classification(l.first().markers(), strip_docs);
            assert(!spec_is_test_only(t.markers()));
            lemma_decl_idem(l.first(), strip_docs, strip_bodies);
            let out = seq![t] + rest;
            assert(out.first() == t);
            assert(out.drop_first() =~= rest);
            assert(spec_transform_decls(out, strip_docs, strip_bodies) == seq![
                spec_transform_decl(t, strip_docs, strip_bodies),
            ] + spec_transform_decls(rest, strip_docs, strip_bodies));
            assert(seq![spec_transform_decl(t, strip_docs, strip_bodies)]
                + spec_transform_decls(rest, strip_docs, strip_bodies) =~= out);
        }
    }
}

/// Applying the pass twice in succession with the same policy flags yields
/// the same tree as applying it once.  When documentation is kept, this
/// holds of trees whose trait declarations have no methods: each
/// documentation-preserving pass prepends a fresh synthetic status marker
/// to every trait method, so a tree containing a trait with a method is the
/// one exception.
pub proof fn lemma_transform_idempotent(f: FileView, strip_docs: bool, strip_bodies: bool)
    requires
        strip_docs || file_no_trait_methods(f),
    ensures
        spec_transform_file(
            spec_transform_file(f, strip_docs, strip_bodies),
            strip_docs,
            strip_bodies,
        ) == spec_transform_file(f, strip_docs, strip_bodies),
{
    crate::normalize::lemma_normalize_markers_idempotent(f.markers, strip_docs);
    lemma_decls_idem(f.decls, strip_docs, strip_bodies);
}

} // verus!
