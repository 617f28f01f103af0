//! Declarations: the unit of documentation.

use vstd::prelude::*;
use crate::class::{ClassDef, ClassView};
use crate::enums::{EnumDef, EnumView};
use crate::function::{FunctionDef, FunctionView};
use crate::interface::{InterfaceDef, InterfaceView};
use crate::js_doc::{JsDoc, JsDocView};
use crate::namespace::{NamespaceDef, NamespaceView};
use crate::type_alias::{TypeAliasDef, TypeAliasView};
use crate::variable::{VariableDef, VariableView};

verus! {

/// Where a declaration's syntax stands: the file that physically holds it, a
/// line counted from 1 and a column counted from 0.
#[derive(Debug, PartialEq, Eq)]
pub struct Location {
    pub filename: String,
    pub line: usize,
    pub col: usize,
}

/// The mathematical value of a [`Location`].
pub ghost struct LocationView {
    pub filename: Seq<char>,
    pub line: usize,
    pub col: usize,
}

impl DeepView for Location {
    type V = LocationView;

    open spec fn deep_view(&self) -> LocationView {
        LocationView { filename: self.filename@, line: self.line, col: self.col }
    }
}

impl Clone for Location {
    fn clone(&self) -> (r: Self)
        ensures
            r.deep_view() == self.deep_view(),
    {
        Location { filename: self.filename.clone(), line: self.line, col: self.col }
    }
}

/// How a declaration is visible from outside its module.
#[derive(Debug, Clone, Copy, PartialEq, Eq, Structural)]
pub enum DeclarationKind {
    /// Not exported.
    Private,
    /// Exported.
    Export,
    /// Declared ambient (`declare ...`).
    Declare,
}

/// The family a declaration belongs to.
#[derive(Debug, Clone, Copy, PartialEq, Eq, Structural)]
pub enum DocNodeKind {
    Function,
    Variable,
    Class,
    Enum,
    Interface,
    TypeAlias,
    Namespace,
    Import,
}

/// An import: the module it names, the symbol taken from it, and the local
/// name where that differs.
#[derive(Debug, PartialEq, Eq)]
pub struct ImportDef {
    pub src: String,
    pub imported: String,
    pub alias: Option<String>,
}

/// The mathematical value of an [`ImportDef`].
pub ghost struct ImportView {
    pub src: Seq<char>,
    pub imported: Seq<char>,
    pub alias: Option<Seq<char>>,
}

impl DeepView for ImportDef {
    type V = ImportView;

    open spec fn deep_view(&self) -> ImportView {
        ImportView { src: self.src@, imported: self.imported@, alias: self.alias.deep_view() }
    }
}

impl Clone for ImportDef {
    fn clone(&self) -> (r: Self)
        ensures
            r.deep_view() == self.deep_view(),
    {
        ImportDef {
            src: self.src.clone(),
            imported: self.imported.clone(),
            alias: self.alias.clone(),
        }
    }
}

/// The form of a re-export.
#[derive(Debug, PartialEq, Eq)]
pub enum ReexportKind {
    /// `export * from "src"`
    All,
    /// `export * as name from "src"`
    Namespace(String),
    /// `export { name } from "src"` or `export { name as alias } from "src"`
    Named(String, Option<String>),
}

/// The mathematical value of a [`ReexportKind`].
pub ghost enum ReexportKindView {
    All,
    Namespace(Seq<char>),
    Named(Seq<char>, Option<Seq<char>>),
}

impl DeepView for ReexportKind {
    type V = ReexportKindView;

    open spec fn deep_view(&self) -> ReexportKindView {
        match self {
            ReexportKind::All => ReexportKindView::All,
            ReexportKind::Namespace(name) => ReexportKindView::Namespace(name@),
            ReexportKind::Named(name, alias) => ReexportKindView::Named(name@, alias.deep_view()),
        }
    }
}

/// A re-export: a statement that forwards names of the module `src`.
#[derive(Debug, PartialEq, Eq)]
pub struct Reexport {
    pub kind: ReexportKind,
    pub src: String,
}

/// The mathematical value of a [`Reexport`].
pub ghost struct ReexportView {
    pub kind: ReexportKindView,
    pub src: Seq<char>,
}

impl DeepView for Reexport {
    type V = ReexportView;

    open spec fn deep_view(&self) -> ReexportView {
        ReexportView { kind: self.kind.deep_view(), src: self.src@ }
    }
}

/// What a declaration defines: exactly one payload, which fixes its kind.
#[derive(Debug, PartialEq, Eq)]
pub enum DocNodeDef {
    Function(FunctionDef),
    Variable(VariableDef),
    Class(ClassDef),
    Enum(EnumDef),
    Interface(InterfaceDef),
    TypeAlias(TypeAliasDef),
    Namespace(NamespaceDef),
    Import(ImportDef),
}

/// The mathematical value of a [`DocNodeDef`].
pub ghost enum DocNodeDefView {
    Function(FunctionView),
    Variable(VariableView),
    Class(ClassView),
    Enum(EnumView),
    Interface(InterfaceView),
    TypeAlias(TypeAliasView),
    Namespace(NamespaceView),
    Import(ImportView),
}

impl DocNodeDefView {
    /// The kind that the payload fixes.
    pub open spec fn kind(self) -> DocNodeKind {
        match self {
            DocNodeDefView::Function(_) => DocNodeKind::Function,
            DocNodeDefView::Variable(_) => DocNodeKind::Variable,
            DocNodeDefView::Class(_) => DocNodeKind::Class,
            DocNodeDefView::Enum(_) => DocNodeKind::Enum,
            DocNodeDefView::Interface(_) => DocNodeKind::Interface,
            DocNodeDefView::TypeAlias(_) => DocNodeKind::TypeAlias,
            DocNodeDefView::Namespace(_) => DocNodeKind::Namespace,
            DocNodeDefView::Import(_) => DocNodeKind::Import,
        }
    }
}

/// One documented declaration.
#[derive(Debug, PartialEq, Eq)]
pub struct DocNode {
    /// The declared name; may be empty for an anonymous export.
    pub name: String,
    pub location: Location,
    pub declaration_kind: DeclarationKind,
    pub js_doc: Option<JsDoc>,
    pub def: DocNodeDef,
}

/// The mathematical value of a [`DocNode`].
pub ghost struct DocNodeView {
    pub name: Seq<char>,
    pub location: LocationView,
    pub declaration_kind: DeclarationKind,
    pub js_doc: Option<JsDocView>,
    pub def: DocNodeDefView,
}

impl DocNodeView {
    /// The declaration's kind.
    pub open spec fn kind(self) -> DocNodeKind {
        self.def.kind()
    }

    /// Whether the declaration is an import.
    pub open spec fn is_import(self) -> bool {
        self.def is Import
    }
}

/// The value of one declaration.
pub open spec fn doc_node_view(n: DocNode) -> DocNodeView
    decreases n,
{
    DocNodeView {
        name: n.name@,
        location: n.location.deep_view(),
        declaration_kind: n.declaration_kind,
        js_doc: n.js_doc.deep_view(),
        def: doc_node_def_view(n.def),
    }
}

/// The value of one payload.
pub open spec fn doc_node_def_view(d: DocNodeDef) -> DocNodeDefView
    decreases d,
{
    match d {
        DocNodeDef::Function(f) => DocNodeDefView::Function(f.deep_view()),
        DocNodeDef::Variable(v) => DocNodeDefView::Variable(v.deep_view()),
        DocNodeDef::Class(c) => DocNodeDefView::Class(c.deep_view()),
        DocNodeDef::Enum(e) => DocNodeDefView::Enum(e.deep_view()),
        DocNodeDef::Interface(i) => DocNodeDefView::Interface(i.deep_view()),
        DocNodeDef::TypeAlias(t) => DocNodeDefView::TypeAlias(t.deep_view()),
        DocNodeDef::Namespace(ns) => DocNodeDefView::Namespace(
            NamespaceView { elements: doc_node_list_view(ns.elements) },
        ),
        DocNodeDef::Import(i) => DocNodeDefView::Import(i.deep_view()),
    }
}

/// The values of a list of declarations, in order.
pub open spec fn doc_node_list_view(v: Vec<DocNode>) -> Seq<DocNodeView>
    decreases v,
{
    Seq::new(
        v@.len(),
        |i: int|
            if 0 <= i < v@.len() {
                doc_node_view(v@[i])
            } else {
                arbitrary()
            },
    )
}

impl DeepView for DocNode {
    type V = DocNodeView;

    open spec fn deep_view(&self) -> DocNodeView {
        doc_node_view(*self)
    }
}

impl DeepView for DocNodeDef {
    type V = DocNodeDefView;

    open spec fn deep_view(&self) -> DocNodeDefView {
        doc_node_def_view(*self)
    }
}

/// The list view used inside [`doc_node_view`] is the deep view of the vector.
pub proof fn lemma_doc_node_list_view(v: Vec<DocNode>)
    ensures
        doc_node_list_view(v) == v.deep_view(),
{
    assert(doc_node_list_view(v) =~= v.deep_view());
}

/// The value of a namespace payload is the value of the namespace it holds.
pub proof fn lemma_namespace_def_view(ns: NamespaceDef)
    ensures
        DocNodeDef::Namespace(ns).deep_view() == DocNodeDefView::Namespace(ns.deep_view()),
{
    lemma_doc_node_list_view(ns.elements);
}

/// Copies a list of declarations.
pub fn clone_doc_nodes(v: &Vec<DocNode>) -> (r: Vec<DocNode>)
    ensures
        r.deep_view() == v.deep_view(),
    decreases v,
{
    let mut r: Vec<DocNode> = Vec::new();
    let mut i: usize = 0;
    while i < v.len()
        invariant
            i <= v.len(),
            r@.len() == i,
            forall|j: int| 0 <= j < i ==> r@[j].deep_view() == v@[j].deep_view(),
        decreases v.len() - i,
    {
        r.push(v[i].clone());
        i += 1;
    }
    assert(r.deep_view() =~= v.deep_view());
    r
}

impl Clone for DocNodeDef {
    fn clone(&self) -> (r: Self)
        ensures
            r.deep_view() == self.deep_view(),
        decreases self,
    {
        match self {
            DocNodeDef::Function(f) => DocNodeDef::Function(f.clone()),
            DocNodeDef::Variable(v) => DocNodeDef::Variable(v.clone()),
            DocNodeDef::Class(c) => DocNodeDef::Class(c.clone()),
            DocNodeDef::Enum(e) => DocNodeDef::Enum(e.clone()),
            DocNodeDef::Interface(i) => DocNodeDef::Interface(i.clone()),
            DocNodeDef::TypeAlias(t) => DocNodeDef::TypeAlias(t.clone()),
            DocNodeDef::Namespace(ns) => {
                let copied = NamespaceDef { elements: clone_doc_nodes(&ns.elements) };
                proof {
                    lemma_namespace_def_view(copied);
                    lemma_namespace_def_view(*ns);
                }
                DocNodeDef::Namespace(copied)
            },
            DocNodeDef::Import(i) => DocNodeDef::Import(i.clone()),
        }
    }
}

impl Clone for DocNode {
    fn clone(&self) -> (r: Self)
        ensures
            r.deep_view() == self.deep_view(),
        decreases self,
    {
        DocNode {
            name: self.name.clone(),
            location: self.location.clone(),
            declaration_kind: self.declaration_kind,
            js_doc: self.js_doc.clone(),
            def: self.def.clone(),
        }
    }
}

impl Clone for NamespaceDef {
    fn clone(&self) -> (r: Self)
        ensures
            r.deep_view() == self.deep_view(),
    {
        NamespaceDef { elements: clone_doc_nodes(&self.elements) }
    }
}

/// The declaration made of the given parts.
pub open spec fn doc_node_of(
    name: Seq<char>,
    location: LocationView,
    declaration_kind: DeclarationKind,
    js_doc: Option<JsDocView>,
    def: DocNodeDefView,
) -> DocNodeView {
    DocNodeView { name, location, declaration_kind, js_doc, def }
}

impl DocNode {
    /// A function declaration.
    pub fn function(
        name: String,
        location: Location,
        declaration_kind: DeclarationKind,
        js_doc: Option<JsDoc>,
        fn_def: FunctionDef,
    ) -> (node: DocNode)
        ensures
            node.deep_view() == doc_node_of(
                name@,
                location.deep_view(),
                declaration_kind,
                js_doc.deep_view(),
                DocNodeDefView::Function(fn_def.deep_view()),
            ),
    {
        DocNode { name, location, declaration_kind, js_doc, def: DocNodeDef::Function(fn_def) }
    }

    /// A variable declaration.
    pub fn variable(
        name: String,
        location: Location,
        declaration_kind: DeclarationKind,
        js_doc: Option<JsDoc>,
        variable_def: VariableDef,
    ) -> (node: DocNode)
        ensures
            node.deep_view() == doc_node_of(
                name@,
                location.deep_view(),
                declaration_kind,
                js_doc.deep_view(),
                DocNodeDefView::Variable(variable_def.deep_view()),
            ),
    {
        DocNode {
            name,
            location,
            declaration_kind,
            js_doc,
            def: DocNodeDef::Variable(variable_def),
        }
    }

    /// A class declaration.
    pub fn class(
        name: String,
        location: Location,
        declaration_kind: DeclarationKind,
        js_doc: Option<JsDoc>,
        class_def: ClassDef,
    ) -> (node: DocNode)
        ensures
            node.deep_view() == doc_node_of(
                name@,
                location.deep_view(),
                declaration_kind,
                js_doc.deep_view(),
                DocNodeDefView::Class(class_def.deep_view()),
            ),
    {
        DocNode { name, location, declaration_kind, js_doc, def: DocNodeDef::Class(class_def) }
    }

    /// An enum declaration.
    pub fn enumeration(
        name: String,
        location: Location,
        declaration_kind: DeclarationKind,
        js_doc: Option<JsDoc>,
        enum_def: EnumDef,
    ) -> (node: DocNode)
        ensures
            node.deep_view() == doc_node_of(
                name@,
                location.deep_view(),
                declaration_kind,
                js_doc.deep_view(),
                DocNodeDefView::Enum(enum_def.deep_view()),
            ),
    {
        DocNode { name, location, declaration_kind, js_doc, def: DocNodeDef::Enum(enum_def) }
    }

    /// An interface declaration.
    pub fn interface(
        name: String,
        location: Location,
        declaration_kind: DeclarationKind,
        js_doc: Option<JsDoc>,
        interface_def: InterfaceDef,
    ) -> (node: DocNode)
        ensures
            node.deep_view() == doc_node_of(
                name@,
                location.deep_view(),
                declaration_kind,
                js_doc.deep_view(),
                DocNodeDefView::Interface(interface_def.deep_view()),
            ),
    {
        DocNode {
            name,
            location,
            declaration_kind,
            js_doc,
            def: DocNodeDef::Interface(interface_def),
        }
    }

    /// A type alias declaration.
    pub fn type_alias(
        name: String,
        location: Location,
        declaration_kind: DeclarationKind,
        js_doc: Option<JsDoc>,
        type_alias_def: TypeAliasDef,
    ) -> (node: DocNode)
        ensures
            node.deep_view() == doc_node_of(
                name@,
                location.deep_view(),
                declaration_kind,
                js_doc.deep_view(),
                DocNodeDefView::TypeAlias(type_alias_def.deep_view()),
            ),
    {
        DocNode {
            name,
            location,
            declaration_kind,
            js_doc,
            def: DocNodeDef::TypeAlias(type_alias_def),
        }
    }

    /// A namespace declaration.
    pub fn namespace(
        name: String,
        location: Location,
        declaration_kind: DeclarationKind,
        js_doc: Option<JsDoc>,
        namespace_def: NamespaceDef,
    ) -> (node: DocNode)
        ensures
            node.deep_view() == doc_node_of(
                name@,
                location.deep_view(),
                declaration_kind,
                js_doc.deep_view(),
                DocNodeDefView::Namespace(namespace_def.deep_view()),
            ),
    {
        proof {
            lemma_namespace_def_view(namespace_def);
        }
        DocNode {
            name,
            location,
            declaration_kind,
            js_doc,
            def: DocNodeDef::Namespace(namespace_def),
        }
    }

    /// An import.
    pub fn import(
        name: String,
        location: Location,
        declaration_kind: DeclarationKind,
        js_doc: Option<JsDoc>,
        import_def: ImportDef,
    ) -> (node: DocNode)
        ensures
            node.deep_view() == doc_node_of(
                name@,
                location.deep_view(),
                declaration_kind,
                js_doc.deep_view(),
                DocNodeDefView::Import(import_def.deep_view()),
            ),
    {
        DocNode { name, location, declaration_kind, js_doc, def: DocNodeDef::Import(import_def) }
    }

    /// The declaration's kind, as its payload fixes it.
    pub fn kind(&self) -> (k: DocNodeKind)
        ensures
            k == self.deep_view().kind(),
    {
        match &self.def {
            DocNodeDef::Function(_) => DocNodeKind::Function,
            DocNodeDef::Variable(_) => DocNodeKind::Variable,
            DocNodeDef::Class(_) => DocNodeKind::Class,
            DocNodeDef::Enum(_) => DocNodeKind::Enum,
            DocNodeDef::Interface(_) => DocNodeKind::Interface,
            DocNodeDef::TypeAlias(_) => DocNodeKind::TypeAlias,
            DocNodeDef::Namespace(_) => DocNodeKind::Namespace,
            DocNodeDef::Import(_) => DocNodeKind::Import,
        }
    }
}

} // verus!
