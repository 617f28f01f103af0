//! Namespaces: declarations that hold further declarations.

use vstd::prelude::*;
use crate::ast::{
    lemma_module_item_list_view, ParsedSource, ParsedSourceView, TsModuleDecl, TsModuleDeclView,
    TsModuleName, TsModuleNameView, TsNamespaceBody, TsNamespaceBodyView, TsNamespaceDecl,
    TsNamespaceDeclView,
};
use crate::js_doc::{js_doc_for, js_doc_for_range};
use crate::node::{DeclarationKind, DocNode, DocNodeDefView, DocNodeView};
use crate::parser::{body_nodes, get_doc_nodes_for_module_body};
use crate::source::{get_location, location_at};

verus! {

/// A namespace: its child declarations in source order. Namespaces nest.
#[derive(Debug, PartialEq, Eq)]
pub struct NamespaceDef {
    pub elements: Vec<DocNode>,
}

/// The mathematical value of a [`NamespaceDef`].
pub ghost struct NamespaceView {
    pub elements: Seq<DocNodeView>,
}

impl DeepView for NamespaceDef {
    type V = NamespaceView;

    open spec fn deep_view(&self) -> NamespaceView {
        NamespaceView { elements: self.elements.deep_view() }
    }
}

/// The declaration that the nested part of a dotted namespace declaration
/// stands for: an ambient namespace named as written, located at its own
/// start, holding what its body declares.
pub open spec fn namespace_decl_node(
    src: ParsedSourceView,
    decl: TsNamespaceDeclView,
) -> DocNodeView
    decreases decl,
{
    DocNodeView {
        name: decl.id,
        location: location_at(src.specifier, src.text, decl.span.start as int),
        declaration_kind: DeclarationKind::Declare,
        js_doc: js_doc_for_range(src.text, decl.span.start as int),
        def: DocNodeDefView::Namespace(
            NamespaceView { elements: namespace_body_elements(src, *decl.body) },
        ),
    }
}

/// What a namespace body declares: the declarations of its statements, in
/// source order, or the one namespace nested in it.
pub open spec fn namespace_body_elements(src: ParsedSourceView, body: TsNamespaceBodyView) -> Seq<
    DocNodeView,
>
    decreases body,
{
    match body {
        TsNamespaceBodyView::TsModuleBlock(items) => body_nodes(src, items),
        TsNamespaceBodyView::TsNamespaceDecl(inner) => seq![namespace_decl_node(src, inner)],
    }
}

/// The name of a `module` or `namespace` declaration, as written.
pub open spec fn module_name(decl: TsModuleDeclView) -> Seq<char> {
    match decl.id {
        TsModuleNameView::Ident(name) => name,
        TsModuleNameView::Str(name) => name,
    }
}

/// What a `module` or `namespace` declaration declares; nothing where it has
/// no body.
pub open spec fn module_elements(src: ParsedSourceView, decl: TsModuleDeclView) -> Seq<DocNodeView>
    decreases decl,
{
    match decl.body {
        Some(body) => namespace_body_elements(src, body),
        None => Seq::empty(),
    }
}

/// Reads what a namespace body declares.
pub fn get_doc_for_ts_namespace_body(parsed_source: &ParsedSource, body: &TsNamespaceBody) -> (r:
    Vec<DocNode>)
    ensures
        r.deep_view() == namespace_body_elements(parsed_source.deep_view(), body.deep_view()),
    decreases body,
{
    match body {
        TsNamespaceBody::TsModuleBlock(items) => {
            proof {
                lemma_module_item_list_view(*items);
            }
            get_doc_nodes_for_module_body(parsed_source, items)
        },
        TsNamespaceBody::TsNamespaceDecl(inner) => {
            let node = get_doc_for_ts_namespace_decl(parsed_source, inner);
            let mut elements: Vec<DocNode> = Vec::new();
            elements.push(node);
            assert(elements.deep_view() =~= seq![node.deep_view()]);
            elements
        },
    }
}

/// Reads the nested part of a dotted namespace declaration as a declaration.
pub fn get_doc_for_ts_namespace_decl(
    parsed_source: &ParsedSource,
    ts_namespace_decl: &TsNamespaceDecl,
) -> (node: DocNode)
    ensures
        node.deep_view() == namespace_decl_node(
            parsed_source.deep_view(),
            ts_namespace_decl.deep_view(),
        ),
    decreases ts_namespace_decl,
{
    let js_doc = js_doc_for(parsed_source, ts_namespace_decl.span.start);
    let location = get_location(parsed_source, ts_namespace_decl.span.start);
    let namespace_name = ts_namespace_decl.id.clone();
    let elements = get_doc_for_ts_namespace_body(parsed_source, &*ts_namespace_decl.body);
    let ns_def = NamespaceDef { elements };
    DocNode::namespace(namespace_name, location, DeclarationKind::Declare, js_doc, ns_def)
}

/// Reads a `module` or `namespace` declaration: its name and what it declares.
pub fn get_doc_for_ts_module(parsed_source: &ParsedSource, ts_module_decl: &TsModuleDecl) -> (r: (
    String,
    NamespaceDef,
))
    ensures
        r.0@ == module_name(ts_module_decl.deep_view()),
        r.1.deep_view().elements == module_elements(
            parsed_source.deep_view(),
            ts_module_decl.deep_view(),
        ),
    decreases ts_module_decl,
{
    let namespace_name = match &ts_module_decl.id {
        TsModuleName::Ident(ident) => ident.clone(),
        TsModuleName::Str(str_) => str_.clone(),
    };
    let elements = match &ts_module_decl.body {
        Some(body) => get_doc_for_ts_namespace_body(parsed_source, body),
        None => {
            let none: Vec<DocNode> = Vec::new();
            assert(none.deep_view() =~= Seq::empty());
            none
        },
    };
    let ns_def = NamespaceDef { elements };
    (namespace_name, ns_def)
}

} // verus!
