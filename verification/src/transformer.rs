//! The traversal engine: one depth-first pass over a source file's tree,
//! deciding for every declaration whether to retain, strip or rewrite it.
//!
//! The rules, applied at each node:
//! - test-only declarations are removed from every declaration list;
//! - documentation is normalized, or removed when the strip-documentation
//!   policy is active;
//! - free function bodies are emptied when the strip-bodies policy is
//!   active, regardless of return type;
//! - trait methods with a default body lose it unless the return type is
//!   string-like, and gain a synthetic status marker ahead of any retained
//!   documentation;
//! - implementation-block methods lose their bodies unless the block is not
//!   derived and either implements a serialization trait or the method's
//!   return type is string-like.

use vstd::prelude::*;

use crate::classify::{
    spec_is_documentation, spec_is_test_only, spec_is_derived, spec_implements_trait_named,
    is_documentation, is_test_only,
};
use crate::normalize::{
    clone_marker, doc_line, normalize_markers, spec_normalize_markers,
};
use crate::significance::{analyze_return_type, spec_ret_significant};
use crate::text::str_contains;
use crate::tree::{
    clone_strings, decl_view, decls_view, field_view, fields_view, file_view, impl_method_view,
    impl_methods_view, lemma_decls_view, lemma_types_view, marker_view, markers_view,
    opt_string_view, opt_type_view, trait_method_view, trait_methods_view, type_view, types_view,
    Declaration, DeclView, FieldDecl, FieldView, FileView, ImplMethod, ImplMethodView, Marker,
    MarkerView, SourceFile, TraitMethod, TraitMethodView, TypeExpr,
};

verus! {

// ---------------------------------------------------------------------------
// Ghost model of the pass
// ---------------------------------------------------------------------------

/// The synthetic status line for a trait method without a default body.
pub open spec fn required_status_text() -> Seq<char> {
    " This is a required method"@
}

/// The synthetic status line for a trait method with a default body.
pub open spec fn default_status_text() -> Seq<char> {
    " There is a default implementation"@
}

/// The markers of `ms` that satisfy `pred`, in order.
pub open spec fn select_markers(
    ms: Seq<MarkerView>,
    pred: spec_fn(MarkerView) -> bool,
) -> Seq<MarkerView>
    decreases ms.len(),
{
    if ms.len() == 0 {
        Seq::empty()
    } else {
        (if pred(ms.first()) {
            seq![ms.first()]
        } else {
            Seq::empty()
        }) + select_markers(ms.drop_first(), pred)
    }
}

pub proof fn lemma_select_markers_append(
    a: Seq<MarkerView>,
    b: Seq<MarkerView>,
    pred: spec_fn(MarkerView) -> bool,
)
    ensures
        select_markers(a + b, pred) == select_markers(a, pred) + select_markers(b, pred),
    decreases a.len(),
{
    if a.len() == 0 {
        assert(a + b =~= b);
        assert(select_markers(a, pred) + select_markers(b, pred) =~= select_markers(b, pred));
    } else {
        assert((a + b).first() == a.first());
        assert((a + b).drop_first() =~= a.drop_first() + b);
        lemma_select_markers_append(a.drop_first(), b, pred);
        let head = if pred(a.first()) {
            seq![a.first()]
        } else {
            Seq::<MarkerView>::empty()
        };
        assert(head + (select_markers(a.drop_first(), pred) + select_markers(b, pred)) =~= (head
            + select_markers(a.drop_first(), pred)) + select_markers(b, pred));
    }
}

pub proof fn lemma_select_markers_push(
    ms: Seq<MarkerView>,
    m: MarkerView,
    pred: spec_fn(MarkerView) -> bool,
)
    ensures
        select_markers(ms.push(m), pred) == select_markers(ms, pred) + (if pred(m) {
            seq![m]
        } else {
            Seq::<MarkerView>::empty()
        }),
{
    assert(ms.push(m) =~= ms + seq![m]);
    lemma_select_markers_append(ms, seq![m], pred);
    let head = if pred(m) {
        seq![m]
    } else {
        Seq::<MarkerView>::empty()
    };
    let s = seq![m];
    assert(s.len() == 1);
    assert(s.first() == m);
    assert(s.drop_first() =~= Seq::<MarkerView>::empty());
    assert(select_markers(s, pred) == head + select_markers(Seq::<MarkerView>::empty(), pred));
    assert(head + Seq::<MarkerView>::empty() =~= head);
}

pub proof fn lemma_select_markers_elements(ms: Seq<MarkerView>, pred: spec_fn(MarkerView) -> bool)
    ensures
        forall|i: int|
            0 <= i < select_markers(ms, pred).len() ==> pred(#[trigger] select_markers(ms, pred)[i]),
    decreases ms.len(),
{
    if ms.len() > 0 {
        lemma_select_markers_elements(ms.drop_first(), pred);
        let head = if pred(ms.first()) {
            seq![ms.first()]
        } else {
            Seq::<MarkerView>::empty()
        };
        assert forall|i: int| 0 <= i < select_markers(ms, pred).len() implies pred(
            #[trigger] select_markers(ms, pred)[i],
        ) by {
            if i < head.len() {
                assert(select_markers(ms, pred)[i] == ms.first());
            } else {
                assert(select_markers(ms, pred)[i] == select_markers(ms.drop_first(), pred)[i
                    - head.len()]);
            }
        }
    }
}

pub proof fn lemma_select_markers_identity(ms: Seq<MarkerView>, pred: spec_fn(MarkerView) -> bool)
    requires
        forall|i: int| 0 <= i < ms.len() ==> pred(#[trigger] ms[i]),
    ensures
        select_markers(ms, pred) == ms,
    decreases ms.len(),
{
    if ms.len() == 0 {
        assert(select_markers(ms, pred) =~= ms);
    } else {
        assert(pred(ms.first()));
        assert(forall|i: int|
            0 <= i < ms.drop_first().len() ==> pred(#[trigger] ms.drop_first()[i]));
        lemma_select_markers_identity(ms.drop_first(), pred);
        assert(select_markers(ms, pred) =~= ms);
    }
}

/// What a trait method becomes: the default body is cleared unless the
/// return type is string-like; under the keep-documentation policy a
/// synthetic status marker is placed after the non-documentation markers and
/// before the retained documentation, separated from it by one blank
/// documentation line when documentation is present.
pub open spec fn spec_transform_trait_method(m: TraitMethodView, strip_docs: bool) -> TraitMethodView {
    let body = if m.body is Some && !spec_ret_significant(m.ret) {
        Option::Some(Seq::<char>::empty())
    } else {
        m.body
    };
    let others = select_markers(m.markers, |mk: MarkerView| !spec_is_documentation(mk));
    let docs = spec_normalize_markers(
        select_markers(m.markers, |mk: MarkerView| spec_is_documentation(mk)),
        false,
    );
    let status = doc_line(
        false,
        if m.body is None {
            required_status_text()
        } else {
            default_status_text()
        },
    );
    let markers = if strip_docs {
        others
    } else {
        others + seq![status] + (if docs.len() > 0 {
            seq![doc_line(false, Seq::<char>::empty())]
        } else {
            Seq::<MarkerView>::empty()
        }) + docs
    };
    TraitMethodView { markers, name: m.name, signature: m.signature, ret: m.ret, body }
}

/// What an implementation-block method becomes: its body is cleared unless
/// the block is not derived and either implements a serialization trait or
/// the method's return type is string-like.
pub open spec fn spec_transform_impl_method(
    m: ImplMethodView,
    derived: bool,
    serialize: bool,
    strip_docs: bool,
) -> ImplMethodView {
    ImplMethodView {
        markers: spec_normalize_markers(m.markers, strip_docs),
        name: m.name,
        signature: m.signature,
        ret: m.ret,
        body: if derived || (!serialize && !spec_ret_significant(m.ret)) {
            Seq::empty()
        } else {
            m.body
        },
    }
}

/// What a structure field or enumeration variant becomes: only its
/// documentation is touched.
pub open spec fn spec_transform_field(f: FieldView, strip_docs: bool) -> FieldView {
    FieldView { markers: spec_normalize_markers(f.markers, strip_docs), name: f.name, text: f.text }
}

/// What one retained declaration becomes.  Test-only removal is the
/// enclosing list's decision; this function rewrites a declaration that
/// stays.
pub open spec fn spec_transform_decl(d: DeclView, strip_docs: bool, strip_bodies: bool) -> DeclView
    decreases d,
{
    match d {
        DeclView::Function { markers, name, signature, ret, body } => DeclView::Function {
            markers: spec_normalize_markers(markers, strip_docs),
            name,
            signature,
            ret,
            body: if strip_bodies {
                Seq::empty()
            } else {
                body
            },
        },
        DeclView::Module { markers, name, header, items } => DeclView::Module {
            markers: spec_normalize_markers(markers, strip_docs),
            name,
            header,
            items: match items {
                Option::Some(l) => Option::Some(spec_transform_decls(l, strip_docs, strip_bodies)),
                Option::None => Option::None,
            },
        },
        DeclView::Structure { markers, name, header, fields } => DeclView::Structure {
            markers: spec_normalize_markers(markers, strip_docs),
            name,
            header,
            fields: fields.map_values(|f: FieldView| spec_transform_field(f, strip_docs)),
        },
        DeclView::Enumeration { markers, name, header, variants } => DeclView::Enumeration {
            markers: spec_normalize_markers(markers, strip_docs),
            name,
            header,
            variants: variants.map_values(|f: FieldView| spec_transform_field(f, strip_docs)),
        },
        DeclView::TraitDecl { markers, name, header, methods, other_members } => DeclView::TraitDecl {
            markers: spec_normalize_markers(markers, strip_docs),
            name,
            header,
            methods: methods.map_values(
                |m: TraitMethodView| spec_transform_trait_method(m, strip_docs),
            ),
            other_members,
        },
        DeclView::ImplBlock { markers, header, target, trait_name, methods, other_members } => {
            let derived = spec_is_derived(markers);
            let serialize = spec_implements_trait_named(trait_name, "Serialize"@);
            DeclView::ImplBlock {
                markers: spec_normalize_markers(markers, strip_docs),
                header,
                target,
                trait_name,
                methods: methods.map_values(
                    |m: ImplMethodView| spec_transform_impl_method(
                        m,
                        derived,
                        serialize,
                        strip_docs,
                    ),
                ),
                other_members,
            }
        },
        DeclView::TypeAlias { markers, text } => DeclView::TypeAlias {
            markers: spec_normalize_markers(markers, strip_docs),
            text,
        },
        DeclView::Constant { markers, text } => DeclView::Constant {
            markers: spec_normalize_markers(markers, strip_docs),
            text,
        },
        DeclView::StaticItem { markers, text } => DeclView::StaticItem {
            markers: spec_normalize_markers(markers, strip_docs),
            text,
        },
        DeclView::UseImport { markers, text } => DeclView::UseImport {
            markers: spec_normalize_markers(markers, strip_docs),
            text,
        },
        DeclView::ForeignBlock { markers, text } => DeclView::ForeignBlock {
            markers: spec_normalize_markers(markers, strip_docs),
            text,
        },
        DeclView::MacroCall { markers, text } => DeclView::MacroCall {
            markers: spec_normalize_markers(markers, strip_docs),
            text,
        },
        DeclView::TraitAlias { markers, text } => DeclView::TraitAlias {
            markers: spec_normalize_markers(markers, strip_docs),
            text,
        },
        DeclView::UnionDecl { markers, text } => DeclView::UnionDecl {
            markers: spec_normalize_markers(markers, strip_docs),
            text,
        },
        DeclView::Other { markers, text } => DeclView::Other {
            markers: spec_normalize_markers(markers, strip_docs),
            text,
        },
    }
}

/// What a declaration list becomes: test-only members are removed, the rest
/// are rewritten in order.
pub open spec fn spec_transform_decls(
    l: Seq<DeclView>,
    strip_docs: bool,
    strip_bodies: bool,
) -> Seq<DeclView>
    decreases l,
{
    if l.len() == 0 {
        Seq::empty()
    } else {
        let rest = spec_transform_decls(l.drop_first(), strip_docs, strip_bodies);
        if spec_is_test_only(l.first().markers()) {
            rest
        } else {
            seq![spec_transform_decl(l.first(), strip_docs, strip_bodies)] + rest
        }
    }
}

/// What a whole source file becomes.
pub open spec fn spec_transform_file(f: FileView, strip_docs: bool, strip_bodies: bool) -> FileView {
    FileView {
        markers: spec_normalize_markers(f.markers, strip_docs),
        decls: spec_transform_decls(f.decls, strip_docs, strip_bodies),
    }
}

pub proof fn lemma_transform_decls_append(
    a: Seq<DeclView>,
    b: Seq<DeclView>,
    strip_docs: bool,
    strip_bodies: bool,
)
    ensures
        spec_transform_decls(a + b, strip_docs, strip_bodies) == spec_transform_decls(
            a,
            strip_docs,
            strip_bodies,
        ) + spec_transform_decls(b, strip_docs, strip_bodies),
    decreases a.len(),
{
    if a.len() == 0 {
        assert(a + b =~= b);
        assert(spec_transform_decls(a, strip_docs, strip_bodies) + spec_transform_decls(
            b,
            strip_docs,
            strip_bodies,
        ) =~= spec_transform_decls(b, strip_docs, strip_bodies));
    } else {
        assert((a + b).first() == a.first());
        assert((a + b).drop_first() =~= a.drop_first() + b);
        lemma_transform_decls_append(a.drop_first(), b, strip_docs, strip_bodies);
        let ra = spec_transform_decls(a.drop_first(), strip_docs, strip_bodies);
        let rb = spec_transform_decls(b, strip_docs, strip_bodies);
        if !spec_is_test_only(a.first().markers()) {
            let h = seq![spec_transform_decl(a.first(), strip_docs, strip_bodies)];
            assert(h + (ra + rb) =~= (h + ra) + rb);
        }
    }
}

pub proof fn lemma_transform_decls_push(
    l: Seq<DeclView>,
    d: DeclView,
    strip_docs: bool,
    strip_bodies: bool,
)
    ensures
        spec_transform_decls(l.push(d), strip_docs, strip_bodies) == spec_transform_decls(
            l,
            strip_docs,
            strip_bodies,
        ) + (if spec_is_test_only(d.markers()) {
            Seq::<DeclView>::empty()
        } else {
            seq![spec_transform_decl(d, strip_docs, strip_bodies)]
        }),
{
    reveal_with_fuel(spec_transform_decls, 2);
    assert(l.push(d) =~= l + seq![d]);
    lemma_transform_decls_append(l, seq![d], strip_docs, strip_bodies);
    let s = seq![d];
    assert(s.len() == 1);
    assert(s.first() == d);
    assert(s.drop_first() =~= Seq::<DeclView>::empty());
    let tail = if spec_is_test_only(d.markers()) {
        Seq::<DeclView>::empty()
    } else {
        seq![spec_transform_decl(d, strip_docs, strip_bodies)]
    };
    if spec_is_test_only(d.markers()) {
        assert(spec_transform_decls(s, strip_docs, strip_bodies) == tail);
    } else {
        assert(spec_transform_decls(s, strip_docs, strip_bodies) == seq![
            spec_transform_decl(d, strip_docs, strip_bodies),
        ] + Seq::<DeclView>::empty());
        assert(seq![spec_transform_decl(d, strip_docs, strip_bodies)]
            + Seq::<DeclView>::empty() =~= tail);
    }
}

// ---------------------------------------------------------------------------
// View bookkeeping helpers
// ---------------------------------------------------------------------------

proof fn lemma_markers_view_push(s: Seq<Marker>, m: Marker)
    ensures
        markers_view(s.push(m)) == markers_view(s).push(marker_view(m)),
{
    assert(markers_view(s.push(m)) =~= markers_view(s).push(marker_view(m)));
}

proof fn lemma_markers_view_append(a: Seq<Marker>, b: Seq<Marker>)
    ensures
        markers_view(a + b) == markers_view(a) + markers_view(b),
{
    assert(markers_view(a + b) =~= markers_view(a) + markers_view(b));
}

proof fn lemma_decls_view_push(s: Seq<Declaration>, d: Declaration)
    ensures
        decls_view(s.push(d)) == decls_view(s).push(decl_view(d)),
{
    lemma_decls_view(s.push(d));
    lemma_decls_view(s);
    assert(decls_view(s.push(d)) =~= decls_view(s).push(decl_view(d)));
}

// ---------------------------------------------------------------------------
// Executable helpers
// ---------------------------------------------------------------------------

/// Copies a type expression; the copy has the same view.
#[verifier::loop_isolation(false)]
fn clone_type(t: &TypeExpr) -> (r: TypeExpr)
    ensures
        type_view(r) == type_view(*t),
    decreases *t,
{
    match t {
        TypeExpr::Named { text, args } => {
            let mut copied: Vec<TypeExpr> = Vec::new();
            let n = args.len();
            let mut i: usize = 0;
            while i < n
                invariant
                    n == args@.len(),
                    i <= n,
                    copied@.len() == i,
                    forall|k: int|
                        0 <= k < i ==> type_view(#[trigger] copied@[k]) == type_view(args@[k]),
                decreases n - i,
            {
                proof {
                    assert(decreases_to!(*t => (*t)->Named_args));
                    assert(decreases_to!((*t)->Named_args => (*t)->Named_args@[i as int]));
                }
                let c = clone_type(&args[i]);
                copied.push(c);
                i += 1;
            }
            proof {
                lemma_types_view(copied@);
                lemma_types_view(args@);
                assert(types_view(copied@) =~= types_view(args@));
            }
            TypeExpr::Named { text: text.clone(), args: copied }
        },
        TypeExpr::Reference { referent } => TypeExpr::Reference {
            referent: Box::new(clone_type(referent)),
        },
        TypeExpr::Opaque => TypeExpr::Opaque,
    }
}

fn clone_opt_type(t: &Option<TypeExpr>) -> (r: Option<TypeExpr>)
    ensures
        opt_type_view(r) == opt_type_view(*t),
{
    match t {
        Option::Some(ty) => Option::Some(clone_type(ty)),
        Option::None => Option::None,
    }
}

/// Splits a marker list into its non-documentation markers and its
/// documentation markers, both in order.
fn partition_markers(markers: &Vec<Marker>) -> (r: (Vec<Marker>, Vec<Marker>))
    ensures
        markers_view(r.0@) == select_markers(
            markers_view(markers@),
            |mk: MarkerView| !spec_is_documentation(mk),
        ),
        markers_view(r.1@) == select_markers(
            markers_view(markers@),
            |mk: MarkerView| spec_is_documentation(mk),
        ),
{
    let ghost not_doc = |mk: MarkerView| !spec_is_documentation(mk);
    let ghost is_doc = |mk: MarkerView| spec_is_documentation(mk);
    let mut others: Vec<Marker> = Vec::new();
    let mut docs: Vec<Marker> = Vec::new();
    let n = markers.len();
    let mut i: usize = 0;
    proof {
        assert(markers_view(markers@).take(0) =~= Seq::<MarkerView>::empty());
        assert(markers_view(others@) =~= Seq::<MarkerView>::empty());
        assert(markers_view(docs@) =~= Seq::<MarkerView>::empty());
    }
    while i < n
        invariant
            n == markers@.len(),
            i <= n,
            markers_view(others@) == select_markers(markers_view(markers@).take(i as int), not_doc),
            markers_view(docs@) == select_markers(markers_view(markers@).take(i as int), is_doc),
            not_doc == (|mk: MarkerView| !spec_is_documentation(mk)),
            is_doc == (|mk: MarkerView| spec_is_documentation(mk)),
        decreases n - i,
    {
        let ghost processed = markers_view(markers@).take(i as int);
        let ghost current = marker_view(markers@[i as int]);
        proof {
            assert(markers_view(markers@).take(i + 1) =~= processed.push(current));
            lemma_select_markers_push(processed, current, not_doc);
            lemma_select_markers_push(processed, current, is_doc);
        }
        let c = clone_marker(&markers[i]);
        if is_documentation(&markers[i]) {
            let ghost before = markers_view(docs@);
            docs.push(c);
            proof {
                lemma_markers_view_push(docs@.drop_last(), docs@.last());
                assert(docs@.drop_last() =~= docs@.subrange(0, docs@.len() - 1));
                assert(markers_view(docs@) =~= before.push(current));
                assert(before + seq![current] =~= before.push(current));
                assert(markers_view(others@) + Seq::<MarkerView>::empty() =~= markers_view(
                    others@,
                ));
            }
        } else {
            let ghost before = markers_view(others@);
            others.push(c);
            proof {
                assert(markers_view(others@) =~= before.push(current));
                assert(before + seq![current] =~= before.push(current));
                assert(markers_view(docs@) + Seq::<MarkerView>::empty() =~= markers_view(docs@));
            }
        }
        i += 1;
    }
    proof {
        assert(markers_view(markers@).take(n as int) =~= markers_view(markers@));
    }
    (others, docs)
}

// ---------------------------------------------------------------------------
// The engine
// ---------------------------------------------------------------------------

/// The engine with its two policy flags: strip documentation and strip
/// function bodies.
pub struct CodeTransformer {
    pub no_comments: bool,
    pub no_function_bodies: bool,
}

impl CodeTransformer {
    /// Creates a new transformer for the given policy.
    pub fn new(no_comments: bool, no_function_bodies: bool) -> (r: Self)
        ensures
            r.no_comments == no_comments,
            r.no_function_bodies == no_function_bodies,
    {
        Self { no_comments, no_function_bodies }
    }

    /// One pass over a whole source file.
    pub fn transform(&self, file: &SourceFile) -> (r: SourceFile)
        ensures
            file_view(r) == spec_transform_file(
                file_view(*file),
                self.no_comments,
                self.no_function_bodies,
            ),
    {
        SourceFile {
            markers: normalize_markers(&file.markers, self.no_comments),
            decls: self.transform_decls(&file.decls),
        }
    }

    /// Rewrites a declaration list: test-only members are removed, the rest
    /// are rewritten in order.
    fn transform_decls(&self, decls: &Vec<Declaration>) -> (r: Vec<Declaration>)
        ensures
            decls_view(r@) == spec_transform_decls(
                decls_view(decls@),
                self.no_comments,
                self.no_function_bodies,
            ),
        decreases decls@,
    {
        let sd = self.no_comments;
        let sb = self.no_function_bodies;
        let mut r: Vec<Declaration> = Vec::new();
        let n = decls.len();
        let mut i: usize = 0;
        proof {
            lemma_decls_view(decls@);
            assert(decls_view(decls@.take(0)) =~= Seq::<DeclView>::empty());
            assert(decls_view(r@) =~= Seq::<DeclView>::empty());
        }
        while i < n
            invariant
                n == decls@.len(),
                i <= n,
                sd == self.no_comments,
                sb == self.no_function_bodies,
                decls_view(r@) == spec_transform_decls(decls_view(decls@.take(i as int)), sd, sb),
            decreases n - i,
        {
            let ghost processed = decls_view(decls@.take(i as int));
            let ghost current = decl_view(decls@[i as int]);
            proof {
                lemma_decls_view(decls@.take(i as int));
                lemma_decls_view(decls@.take(i + 1));
                assert(decls_view(decls@.take(i + 1)) =~= processed.push(current)) by {
                    assert(decls@.take(i + 1) =~= decls@.take(i as int).push(decls@[i as int]));
                    lemma_decls_view_push(decls@.take(i as int), decls@[i as int]);
                }
                lemma_transform_decls_push(processed, current, sd, sb);
            }
            if !is_test_only(&decls[i]) {
                let ghost before = decls_view(r@);
                let ghost rold = r@;
                let t = self.transform_decl(&decls[i]);
                let ghost tv = decl_view(t);
                r.push(t);
                proof {
                    lemma_decls_view_push(rold, r@.last());
                    assert(decl_view(r@.last()) == tv);
                    assert(decls_view(r@) == before.push(tv));
                    assert(before + seq![tv] =~= before.push(tv));
                }
            } else {
                proof {
                    assert(decls_view(r@) + Seq::<DeclView>::empty() =~= decls_view(r@));
                }
            }
            i += 1;
        }
        proof {
            assert(decls@.take(n as int) =~= decls@);
        }
        r
    }

    /// Rewrites one retained declaration.
    fn transform_decl(&self, d: &Declaration) -> (r: Declaration)
        ensures
            decl_view(r) == spec_transform_decl(
                decl_view(*d),
                self.no_comments,
                self.no_function_bodies,
            ),
        decreases *d,
    {
        let sd = self.no_comments;
        match d {
            Declaration::Function { markers, name, signature, ret, body } => {
                Declaration::Function {
                    markers: normalize_markers(markers, sd),
                    name: name.clone(),
                    signature: signature.clone(),
                    ret: clone_opt_type(ret),
                    body: if self.no_function_bodies {
                        String::new()
                    } else {
                        body.clone()
                    },
                }
            },
            Declaration::Module { markers, name, header, items } => {
                Declaration::Module {
                    markers: normalize_markers(markers, sd),
                    name: name.clone(),
                    header: header.clone(),
                    items: match items {
                        Option::Some(list) => Option::Some(self.transform_decls(list)),
                        Option::None => Option::None,
                    },
                }
            },
            Declaration::Structure { markers, name, header, fields } => {
                Declaration::Structure {
                    markers: normalize_markers(markers, sd),
                    name: name.clone(),
                    header: header.clone(),
                    fields: self.transform_fields(fields),
                }
            },
            Declaration::Enumeration { markers, name, header, variants } => {
                Declaration::Enumeration {
                    markers: normalize_markers(markers, sd),
                    name: name.clone(),
                    header: header.clone(),
                    variants: self.transform_fields(variants),
                }
            },
            Declaration::TraitDecl { markers, name, header, methods, other_members } => {
                Declaration::TraitDecl {
                    markers: normalize_markers(markers, sd),
                    name: name.clone(),
                    header: header.clone(),
                    methods: self.transform_trait_methods(methods),
                    other_members: clone_strings(other_members),
                }
            },
            Declaration::ImplBlock { markers, header, target, trait_name, methods, other_members } => {
                let derived = crate::classify::markers_derived(markers);
                let serialize = match trait_name {
                    Option::Some(t) => str_contains(t.as_str(), "Serialize"),
                    Option::None => false,
                };
                Declaration::ImplBlock {
                    markers: normalize_markers(markers, sd),
                    header: header.clone(),
                    target: target.clone(),
                    trait_name: match trait_name {
                        Option::Some(t) => Option::Some(t.clone()),
                        Option::None => Option::None,
                    },
                    methods: self.transform_impl_methods(methods, derived, serialize),
                    other_members: clone_strings(other_members),
                }
            },
            Declaration::TypeAlias { markers, text } => Declaration::TypeAlias {
                markers: normalize_markers(markers, sd),
                text: text.clone(),
            },
            Declaration::Constant { markers, text } => Declaration::Constant {
                markers: normalize_markers(markers, sd),
                text: text.clone(),
            },
            Declaration::StaticItem { markers, text } => Declaration::StaticItem {
                markers: normalize_markers(markers, sd),
                text: text.clone(),
            },
            Declaration::UseImport { markers, text } => Declaration::UseImport {
                markers: normalize_markers(markers, sd),
                text: text.clone(),
            },
            Declaration::ForeignBlock { markers, text } => Declaration::ForeignBlock {
                markers: normalize_markers(markers, sd),
                text: text.clone(),
            },
            Declaration::MacroCall { markers, text } => Declaration::MacroCall {
                markers: normalize_markers(markers, sd),
                text: text.clone(),
            },
            Declaration::TraitAlias { markers, text } => Declaration::TraitAlias {
                markers: normalize_markers(markers, sd),
                text: text.clone(),
            },
            Declaration::UnionDecl { markers, text } => Declaration::UnionDecl {
                markers: normalize_markers(markers, sd),
                text: text.clone(),
            },
            Declaration::Other { markers, text } => Declaration::Other {
                markers: normalize_markers(markers, sd),
                text: text.clone(),
            },
        }
    }

    /// Rewrites the fields of a structure or the variants of an enumeration.
    fn transform_fields(&self, fields: &Vec<FieldDecl>) -> (r: Vec<FieldDecl>)
        ensures
            fields_view(r@) == fields_view(fields@).map_values(
                |f: FieldView| spec_transform_field(f, self.no_comments),
            ),
    {
        let sd = self.no_comments;
        let ghost tf = |f: FieldView| spec_transform_field(f, sd);
        let mut r: Vec<FieldDecl> = Vec::new();
        let n = fields.len();
        let mut i: usize = 0;
        while i < n
            invariant
                n == fields@.len(),
                i <= n,
                sd == self.no_comments,
                r@.len() == i,
                tf == (|f: FieldView| spec_transform_field(f, sd)),
                forall|k: int|
                    0 <= k < i ==> field_view(#[trigger] r@[k]) == spec_transform_field(
                        field_view(fields@[k]),
                        sd,
                    ),
            decreases n - i,
        {
            let f = &fields[i];
            let t = FieldDecl {
                markers: normalize_markers(&f.markers, sd),
                name: f.name.clone(),
                text: f.text.clone(),
            };
            r.push(t);
            i += 1;
        }
        proof {
            assert(fields_view(r@) =~= fields_view(fields@).map_values(tf));
        }
        r
    }

    /// Rewrites the methods of a trait declaration.
    fn transform_trait_methods(&self, methods: &Vec<TraitMethod>) -> (r: Vec<TraitMethod>)
        ensures
            trait_methods_view(r@) == trait_methods_view(methods@).map_values(
                |m: TraitMethodView| spec_transform_trait_method(m, self.no_comments),
            ),
    {
        let sd = self.no_comments;
        let ghost tm = |m: TraitMethodView| spec_transform_trait_method(m, sd);
        let mut r: Vec<TraitMethod> = Vec::new();
        let n = methods.len();
        let mut i: usize = 0;
        while i < n
            invariant
                n == methods@.len(),
                i <= n,
                sd == self.no_comments,
                r@.len() == i,
                tm == (|m: TraitMethodView| spec_transform_trait_method(m, sd)),
                forall|k: int|
                    0 <= k < i ==> trait_method_view(#[trigger] r@[k]) == spec_transform_trait_method(
                        trait_method_view(methods@[k]),
                        sd,
                    ),
            decreases n - i,
        {
            let t = self.transform_trait_method(&methods[i]);
            r.push(t);
            i += 1;
        }
        proof {
            assert(trait_methods_view(r@) =~= trait_methods_view(methods@).map_values(tm));
        }
        r
    }

    /// Rewrites one trait method: clears a non-string-like default body and
    /// places the synthetic status marker.
    fn transform_trait_method(&self, m: &TraitMethod) -> (r: TraitMethod)
        ensures
            trait_method_view(r) == spec_transform_trait_method(
                trait_method_view(*m),
                self.no_comments,
            ),
    {
        let sd = self.no_comments;
        let body: Option<String> = match &m.body {
            Option::Some(b) => {
                if !analyze_return_type(&m.ret) {
                    Option::Some(String::new())
                } else {
                    Option::Some(b.clone())
                }
            },
            Option::None => Option::None,
        };
        let (mut others, docs) = partition_markers(&m.markers);
        let markers: Vec<Marker> = if sd {
            others
        } else {
            let status_text: &str = if m.body.is_none() {
                " This is a required method"
            } else {
                " There is a default implementation"
            };
            let mut ndocs = normalize_markers(&docs, false);
            let ghost others0 = markers_view(others@);
            let ghost ndocs0 = markers_view(ndocs@);
            let status_marker = Marker::Doc { inner: false, text: String::from_str(status_text) };
            let ghost status_view = marker_view(status_marker);
            others.push(status_marker);
            proof {
                assert(markers_view(others@) =~= others0.push(status_view));
                assert(status_view == doc_line(false, status_text@));
            }
            if ndocs.len() > 0 {
                let blank_marker = Marker::Doc { inner: false, text: String::new() };
                let ghost blank_view = marker_view(blank_marker);
                others.push(blank_marker);
                proof {
                    assert(markers_view(others@) =~= others0.push(status_view).push(blank_view));
                    assert(blank_view == doc_line(false, Seq::<char>::empty()));
                }
            }
            let ghost parts = (others@, ndocs@);
            let ghost before_append = markers_view(others@);
            others.append(&mut ndocs);
            proof {
                assert(others@ == parts.0 + parts.1);
                lemma_markers_view_append(parts.0, parts.1);
                assert(markers_view(others@) == before_append + ndocs0);
            }
            others
        };
        let r = TraitMethod {
            markers,
            name: m.name.clone(),
            signature: m.signature.clone(),
            ret: clone_opt_type(&m.ret),
            body,
        };
        proof {
            let mv = trait_method_view(*m);
            let spec_r = spec_transform_trait_method(mv, sd);
            assert(trait_method_view(r).markers =~= spec_r.markers);
            assert(trait_method_view(r) == spec_r);
        }
        r
    }

    /// Rewrites the methods of an implementation block.
    fn transform_impl_methods(
        &self,
        methods: &Vec<ImplMethod>,
        derived: bool,
        serialize: bool,
    ) -> (r: Vec<ImplMethod>)
        ensures
            impl_methods_view(r@) == impl_methods_view(methods@).map_values(
                |m: ImplMethodView| spec_transform_impl_method(
                    m,
                    derived,
                    serialize,
                    self.no_comments,
                ),
            ),
    {
        let sd = self.no_comments;
        let ghost tm = |m: ImplMethodView| spec_transform_impl_method(m, derived, serialize, sd);
        let mut r: Vec<ImplMethod> = Vec::new();
        let n = methods.len();
        let mut i: usize = 0;
        while i < n
            invariant
                n == methods@.len(),
                i <= n,
                sd == self.no_comments,
                r@.len() == i,
                tm == (|m: ImplMethodView| spec_transform_impl_method(
                    m,
                    derived,
                    serialize,
                    sd,
                )),
                forall|k: int|
                    0 <= k < i ==> impl_method_view(#[trigger] r@[k]) == spec_transform_impl_method(
                        impl_method_view(methods@[k]),
                        derived,
                        serialize,
                        sd,
                    ),
            decreases n - i,
        {
            let m = &methods[i];
            let keep = !derived && (serialize || analyze_return_type(&m.ret));
            let t = ImplMethod {
                markers: normalize_markers(&m.markers, sd),
                name: m.name.clone(),
                signature: m.signature.clone(),
                ret: clone_opt_type(&m.ret),
                body: if keep {
                    m.body.clone()
                } else {
                    String::new()
                },
            };
            r.push(t);
            i += 1;
        }
        proof {
            assert(impl_methods_view(r@) =~= impl_methods_view(methods@).map_values(tm));
        }
        r
    }
}

} // verus!
