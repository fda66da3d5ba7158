//! The syntax-tree model: an ordered forest of declarations rooted at a
//! source file.  Each declaration carries its metadata markers, a name where
//! one exists, and variant-specific payload.  Rendered-source payloads
//! (signatures, bodies, header text) are opaque character strings; parsing
//! source text into this tree and rendering it back are the callers' side of
//! the boundary.
//!
//! Every executable type has a ghost counterpart (`...View`) over `Seq`, and
//! a view function mapping one to the other; all contracts in this crate are
//! stated over the ghost counterparts.

use vstd::prelude::*;

verus! {

/// A metadata marker attached to a declaration, field or method.
#[derive(Debug, PartialEq, Eq)]
pub enum Marker {
    /// Documentation; `inner` distinguishes module/crate-level documentation
    /// from item-level documentation.
    Doc { inner: bool, text: String },
    /// A derive marker listing trait names.
    Derive { traits: Vec<String> },
    /// A conditional-compilation marker with its predicate's textual form.
    Cfg { predicate: String },
    /// A test marker.
    Test,
    /// Any other marker, carried through unchanged as raw text.
    Other { text: String },
}

/// A declared type, as far as the significance analysis needs to see it:
/// named types keep their textual form and their generic arguments, and
/// references keep their referent.
#[derive(Debug, PartialEq, Eq)]
pub enum TypeExpr {
    Named { text: String, args: Vec<TypeExpr> },
    Reference { referent: Box<TypeExpr> },
    Opaque,
}

/// A structure field or an enumeration variant: markers, a name, and its
/// rendered form.
#[derive(Debug, PartialEq, Eq)]
pub struct FieldDecl {
    pub markers: Vec<Marker>,
    pub name: String,
    pub text: String,
}

/// A trait method: the body is optional; its absence means an implementer
/// must supply one.
#[derive(Debug, PartialEq, Eq)]
pub struct TraitMethod {
    pub markers: Vec<Marker>,
    pub name: String,
    pub signature: String,
    pub ret: Option<TypeExpr>,
    pub body: Option<String>,
}

/// A member function of an implementation block.
#[derive(Debug, PartialEq, Eq)]
pub struct ImplMethod {
    pub markers: Vec<Marker>,
    pub name: String,
    pub signature: String,
    pub ret: Option<TypeExpr>,
    pub body: String,
}

/// One declaration in the tree.  Bodies are the contents of their block: the
/// empty block has empty contents.  Trait declarations and implementation
/// blocks carry their member functions structurally; any other member
/// (associated types, associated constants) rides along as opaque rendered
/// text that the pass never touches.
#[derive(Debug, PartialEq, Eq)]
#[allow(inconsistent_fields)]
pub enum Declaration {
    Function {
        markers: Vec<Marker>,
        name: String,
        signature: String,
        ret: Option<TypeExpr>,
        body: String,
    },
    Module {
        markers: Vec<Marker>,
        name: String,
        header: String,
        items: Option<Vec<Declaration>>,
    },
    Structure { markers: Vec<Marker>, name: String, header: String, fields: Vec<FieldDecl> },
    Enumeration { markers: Vec<Marker>, name: String, header: String, variants: Vec<FieldDecl> },
    TraitDecl {
        markers: Vec<Marker>,
        name: String,
        header: String,
        methods: Vec<TraitMethod>,
        other_members: Vec<String>,
    },
    ImplBlock {
        markers: Vec<Marker>,
        header: String,
        target: String,
        trait_name: Option<String>,
        methods: Vec<ImplMethod>,
        other_members: Vec<String>,
    },
    TypeAlias { markers: Vec<Marker>, text: String },
    Constant { markers: Vec<Marker>, text: String },
    StaticItem { markers: Vec<Marker>, text: String },
    UseImport { markers: Vec<Marker>, text: String },
    ForeignBlock { markers: Vec<Marker>, text: String },
    MacroCall { markers: Vec<Marker>, text: String },
    TraitAlias { markers: Vec<Marker>, text: String },
    UnionDecl { markers: Vec<Marker>, text: String },
    Other { markers: Vec<Marker>, text: String },
}

/// A parsed source file: file-level markers and top-level declarations.
#[derive(Debug, PartialEq, Eq)]
pub struct SourceFile {
    pub markers: Vec<Marker>,
    pub decls: Vec<Declaration>,
}

// ---------------------------------------------------------------------------
// Ghost counterparts
// ---------------------------------------------------------------------------

pub enum MarkerView {
    Doc { inner: bool, text: Seq<char> },
    Derive { traits: Seq<Seq<char>> },
    Cfg { predicate: Seq<char> },
    Test,
    Other { text: Seq<char> },
}

pub enum TypeView {
    Named { text: Seq<char>, args: Seq<TypeView> },
    Reference { referent: Box<TypeView> },
    Opaque,
}

pub struct FieldView {
    pub markers: Seq<MarkerView>,
    pub name: Seq<char>,
    pub text: Seq<char>,
}

pub struct TraitMethodView {
    pub markers: Seq<MarkerView>,
    pub name: Seq<char>,
    pub signature: Seq<char>,
    pub ret: Option<TypeView>,
    pub body: Option<Seq<char>>,
}

pub struct ImplMethodView {
    pub markers: Seq<MarkerView>,
    pub name: Seq<char>,
    pub signature: Seq<char>,
    pub ret: Option<TypeView>,
    pub body: Seq<char>,
}

#[allow(inconsistent_fields)]
pub enum DeclView {
    Function {
        markers: Seq<MarkerView>,
        name: Seq<char>,
        signature: Seq<char>,
        ret: Option<TypeView>,
        body: Seq<char>,
    },
    Module {
        markers: Seq<MarkerView>,
        name: Seq<char>,
        header: Seq<char>,
        items: Option<Seq<DeclView>>,
    },
    Structure { markers: Seq<MarkerView>, name: Seq<char>, header: Seq<char>, fields: Seq<FieldView> },
    Enumeration {
        markers: Seq<MarkerView>,
        name: Seq<char>,
        header: Seq<char>,
        variants: Seq<FieldView>,
    },
    TraitDecl {
        markers: Seq<MarkerView>,
        name: Seq<char>,
        header: Seq<char>,
        methods: Seq<TraitMethodView>,
        other_members: Seq<Seq<char>>,
    },
    ImplBlock {
        markers: Seq<MarkerView>,
        header: Seq<char>,
        target: Seq<char>,
        trait_name: Option<Seq<char>>,
        methods: Seq<ImplMethodView>,
        other_members: Seq<Seq<char>>,
    },
    TypeAlias { markers: Seq<MarkerView>, text: Seq<char> },
    Constant { markers: Seq<MarkerView>, text: Seq<char> },
    StaticItem { markers: Seq<MarkerView>, text: Seq<char> },
    UseImport { markers: Seq<MarkerView>, text: Seq<char> },
    ForeignBlock { markers: Seq<MarkerView>, text: Seq<char> },
    MacroCall { markers: Seq<MarkerView>, text: Seq<char> },
    TraitAlias { markers: Seq<MarkerView>, text: Seq<char> },
    UnionDecl { markers: Seq<MarkerView>, text: Seq<char> },
    Other { markers: Seq<MarkerView>, text: Seq<char> },
}

pub struct FileView {
    pub markers: Seq<MarkerView>,
    pub decls: Seq<DeclView>,
}

// ---------------------------------------------------------------------------
// View functions
// ---------------------------------------------------------------------------

pub open spec fn strings_view(s: Seq<String>) -> Seq<Seq<char>> {
    Seq::new(s.len(), |i: int| s[i]@)
}

pub open spec fn marker_view(m: Marker) -> MarkerView {
    match m {
        Marker::Doc { inner, text } => MarkerView::Doc { inner, text: text@ },
        Marker::Derive { traits } => MarkerView::Derive { traits: strings_view(traits@) },
        Marker::Cfg { predicate } => MarkerView::Cfg { predicate: predicate@ },
        Marker::Test => MarkerView::Test,
        Marker::Other { text } => MarkerView::Other { text: text@ },
    }
}

pub open spec fn markers_view(s: Seq<Marker>) -> Seq<MarkerView> {
    Seq::new(s.len(), |i: int| marker_view(s[i]))
}

pub open spec fn type_view(t: TypeExpr) -> TypeView
    decreases t,
{
    match t {
        TypeExpr::Named { text, args } => TypeView::Named {
            text: text@,
            args: types_view(args@),
        },
        TypeExpr::Reference { referent } => TypeView::Reference {
            referent: Box::new(type_view(*referent)),
        },
        TypeExpr::Opaque => TypeView::Opaque,
    }
}

pub open spec fn types_view(s: Seq<TypeExpr>) -> Seq<TypeView>
    decreases s,
{
    if s.len() == 0 {
        Seq::empty()
    } else {
        seq![type_view(s.first())] + types_view(s.drop_first())
    }
}

pub open spec fn opt_type_view(o: Option<TypeExpr>) -> Option<TypeView> {
    match o {
        Option::Some(t) => Option::Some(type_view(t)),
        Option::None => Option::None,
    }
}

pub open spec fn opt_string_view(o: Option<String>) -> Option<Seq<char>> {
    match o {
        Option::Some(s) => Option::Some(s@),
        Option::None => Option::None,
    }
}

pub open spec fn field_view(f: FieldDecl) -> FieldView {
    FieldView { markers: markers_view(f.markers@), name: f.name@, text: f.text@ }
}

pub open spec fn fields_view(s: Seq<FieldDecl>) -> Seq<FieldView> {
    Seq::new(s.len(), |i: int| field_view(s[i]))
}

pub open spec fn trait_method_view(m: TraitMethod) -> TraitMethodView {
    TraitMethodView {
        markers: markers_view(m.markers@),
        name: m.name@,
        signature: m.signature@,
        ret: opt_type_view(m.ret),
        body: opt_string_view(m.body),
    }
}

pub open spec fn trait_methods_view(s: Seq<TraitMethod>) -> Seq<TraitMethodView> {
    Seq::new(s.len(), |i: int| trait_method_view(s[i]))
}

pub open spec fn impl_method_view(m: ImplMethod) -> ImplMethodView {
    ImplMethodView {
        markers: markers_view(m.markers@),
        name: m.name@,
        signature: m.signature@,
        ret: opt_type_view(m.ret),
        body: m.body@,
    }
}

pub open spec fn impl_methods_view(s: Seq<ImplMethod>) -> Seq<ImplMethodView> {
    Seq::new(s.len(), |i: int| impl_method_view(s[i]))
}

pub open spec fn decl_view(d: Declaration) -> DeclView
    decreases d,
{
    match d {
        Declaration::Function { markers, name, signature, ret, body } => DeclView::Function {
            markers: markers_view(markers@),
            name: name@,
            signature: signature@,
            ret: opt_type_view(ret),
            body: body@,
        },
        Declaration::Module { markers, name, header, items } => DeclView::Module {
            markers: markers_view(markers@),
            name: name@,
            header: header@,
            items: match items {
                Option::Some(v) => Option::Some(decls_view(v@)),
                Option::None => Option::None,
            },
        },
        Declaration::Structure { markers, name, header, fields } => DeclView::Structure {
            markers: markers_view(markers@),
            name: name@,
            header: header@,
            fields: fields_view(fields@),
        },
        Declaration::Enumeration { markers, name, header, variants } => DeclView::Enumeration {
            markers: markers_view(markers@),
            name: name@,
            header: header@,
            variants: fields_view(variants@),
        },
        Declaration::TraitDecl { markers, name, header, methods, other_members } => DeclView::TraitDecl {
            markers: markers_view(markers@),
            name: name@,
            header: header@,
            methods: trait_methods_view(methods@),
            other_members: strings_view(other_members@),
        },
        Declaration::ImplBlock { markers, header, target, trait_name, methods, other_members } => DeclView::ImplBlock {
            markers: markers_view(markers@),
            header: header@,
            target: target@,
            trait_name: opt_string_view(trait_name),
            methods: impl_methods_view(methods@),
            other_members: strings_view(other_members@),
        },
        Declaration::TypeAlias { markers, text } => DeclView::TypeAlias {
            markers: markers_view(markers@),
            text: text@,
        },
        Declaration::Constant { markers, text } => DeclView::Constant {
            markers: markers_view(markers@),
            text: text@,
        },
        Declaration::StaticItem { markers, text } => DeclView::StaticItem {
            markers: markers_view(markers@),
            text: text@,
        },
        Declaration::UseImport { markers, text } => DeclView::UseImport {
            markers: markers_view(markers@),
            text: text@,
        },
        Declaration::ForeignBlock { markers, text } => DeclView::ForeignBlock {
            markers: markers_view(markers@),
            text: text@,
        },
        Declaration::MacroCall { markers, text } => DeclView::MacroCall {
            markers: markers_view(markers@),
            text: text@,
        },
        Declaration::TraitAlias { markers, text } => DeclView::TraitAlias {
            markers: markers_view(markers@),
            text: text@,
        },
        Declaration::UnionDecl { markers, text } => DeclView::UnionDecl {
            markers: markers_view(markers@),
            text: text@,
        },
        Declaration::Other { markers, text } => DeclView::Other {
            markers: markers_view(markers@),
            text: text@,
        },
    }
}

pub open spec fn decls_view(s: Seq<Declaration>) -> Seq<DeclView>
    decreases s,
{
    if s.len() == 0 {
        Seq::empty()
    } else {
        seq![decl_view(s.first())] + decls_view(s.drop_first())
    }
}

pub open spec fn file_view(f: SourceFile) -> FileView {
    FileView { markers: markers_view(f.markers@), decls: decls_view(f.decls@) }
}

/// The element-wise reading of `decls_view`.
pub proof fn lemma_decls_view(s: Seq<Declaration>)
    ensures
        decls_view(s).len() == s.len(),
        forall|i: int| 0 <= i < s.len() ==> #[trigger] decls_view(s)[i] == decl_view(s[i]),
    decreases s,
{
    if s.len() > 0 {
        lemma_decls_view(s.drop_first());
    }
}

/// The element-wise reading of `types_view`.
pub proof fn lemma_types_view(s: Seq<TypeExpr>)
    ensures
        types_view(s).len() == s.len(),
        forall|i: int| 0 <= i < s.len() ==> #[trigger] types_view(s)[i] == type_view(s[i]),
    decreases s,
{
    if s.len() > 0 {
        lemma_types_view(s.drop_first());
    }
}

/// Copies a list of strings; the copy has the same view.
pub fn clone_strings(v: &Vec<String>) -> (r: Vec<String>)
    ensures
        strings_view(r@) == strings_view(v@),
{
    let mut copied: Vec<String> = Vec::new();
    let n = v.len();
    let mut i: usize = 0;
    while i < n
        invariant
            n == v@.len(),
            i <= n,
            copied@.len() == i,
            forall|k: int| 0 <= k < i ==> #[trigger] copied@[k]@ == v@[k]@,
        decreases n - i,
    {
        copied.push(v[i].clone());
        i += 1;
    }
    proof {
        assert(strings_view(copied@) =~= strings_view(v@));
    }
    copied
}

impl Declaration {
    /// The metadata markers of any declaration variant.
    pub open spec fn spec_markers(self) -> Seq<MarkerView> {
        match decl_view(self) {
            DeclView::Function { markers, .. } => markers,
            DeclView::Module { markers, .. } => markers,
            DeclView::Structure { markers, .. } => markers,
            DeclView::Enumeration { markers, .. } => markers,
            DeclView::TraitDecl { markers, .. } => markers,
            DeclView::ImplBlock { markers, .. } => markers,
            DeclView::TypeAlias { markers, .. } => markers,
            DeclView::Constant { markers, .. } => markers,
            DeclView::StaticItem { markers, .. } => markers,
            DeclView::UseImport { markers, .. } => markers,
            DeclView::ForeignBlock { markers, .. } => markers,
            DeclView::MacroCall { markers, .. } => markers,
            DeclView::TraitAlias { markers, .. } => markers,
            DeclView::UnionDecl { markers, .. } => markers,
            DeclView::Other { markers, .. } => markers,
        }
    }

    /// Borrows the marker list of any declaration variant.
    pub fn markers(&self) -> (r: &Vec<Marker>)
        ensures
            markers_view(r@) == self.spec_markers(),
    {
        match self {
            Declaration::Function { markers, .. } => markers,
            Declaration::Module { markers, .. } => markers,
            Declaration::Structure { markers, .. } => markers,
            Declaration::Enumeration { markers, .. } => markers,
            Declaration::TraitDecl { markers, .. } => markers,
            Declaration::ImplBlock { markers, .. } => markers,
            Declaration::TypeAlias { markers, .. } => markers,
            Declaration::Constant { markers, .. } => markers,
            Declaration::StaticItem { markers, .. } => markers,
            Declaration::UseImport { markers, .. } => markers,
            Declaration::ForeignBlock { markers, .. } => markers,
            Declaration::MacroCall { markers, .. } => markers,
            Declaration::TraitAlias { markers, .. } => markers,
            Declaration::UnionDecl { markers, .. } => markers,
            Declaration::Other { markers, .. } => markers,
        }
    }
}

impl DeclView {
    /// The metadata markers of any declaration variant, on the ghost side.
    pub open spec fn markers(self) -> Seq<MarkerView> {
        match self {
            DeclView::Function { markers, .. } => markers,
            DeclView::Module { markers, .. } => markers,
            DeclView::Structure { markers, .. } => markers,
            DeclView::Enumeration { markers, .. } => markers,
            DeclView::TraitDecl { markers, .. } => markers,
            DeclView::ImplBlock { markers, .. } => markers,
            DeclView::TypeAlias { markers, .. } => markers,
            DeclView::Constant { markers, .. } => markers,
            DeclView::StaticItem { markers, .. } => markers,
            DeclView::UseImport { markers, .. } => markers,
            DeclView::ForeignBlock { markers, .. } => markers,
            DeclView::MacroCall { markers, .. } => markers,
            DeclView::TraitAlias { markers, .. } => markers,
            DeclView::UnionDecl { markers, .. } => markers,
            DeclView::Other { markers, .. } => markers,
        }
    }
}

} // verus!
