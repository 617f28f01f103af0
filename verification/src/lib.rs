//! Documentation model for typed source modules: the declarations a module
//! exports, the resolution of re-exports across a module graph, lookup by
//! dotted name, and rendering as text.
//!
//! Every executable function states its result over the deep views of the
//! data model, and Verus proves the bodies against those statements.

pub mod ast;
pub mod binary_extract;
pub mod class;
pub mod colors;
pub mod enums;
pub mod function;
pub mod interface;
pub mod js_doc;
pub mod json;
pub mod namespace;
pub mod node;
pub mod params;
pub mod parser;
pub mod printer;
pub mod source;
pub mod text;
pub mod ts_type;
pub mod ts_type_param;
pub mod type_alias;
pub mod variable;

pub use binary_extract::Extract;
pub use colors::{disable_color, enable_color, use_color};
pub use node::{
    DeclarationKind, DocNode, DocNodeDef, DocNodeKind, ImportDef, Location, Reexport, ReexportKind,
};
pub use params::ParamDef;
pub use parser::DocParser;
pub use printer::DocPrinter;

use vstd::prelude::*;
use vstd::string::StrSliceExecFns;
use crate::class::{class_method_node, class_property_node, ClassMethodView, ClassPropertyView};
use crate::interface::{
    interface_method_node, interface_property_node, InterfaceMethodView, InterfacePropertyView,
};
use crate::node::{lemma_namespace_def_view, DocNodeDefView, DocNodeView};

verus! {

/// The test "is named exactly `name`".
pub open spec fn has_name(name: Seq<char>) -> spec_fn(DocNodeView) -> bool {
    |n: DocNodeView| n.name == name
}

/// The declarations of `nodes` whose name is exactly `name`, in order.
pub open spec fn named(nodes: Seq<DocNodeView>, name: Seq<char>) -> Seq<DocNodeView> {
    nodes.filter(has_name(name))
}

/// Keeps the declarations whose name is exactly `name`, in order.
pub fn find_nodes_by_name(doc_nodes: Vec<DocNode>, name: String) -> (found: Vec<DocNode>)
    ensures
        found.deep_view() == named(doc_nodes.deep_view(), name@),
{
    let mut found: Vec<DocNode> = Vec::new();
    let ghost all = doc_nodes.deep_view();
    assert(all.take(0) =~= Seq::empty());
    for node in it: doc_nodes
        invariant
            it.seq().len() == all.len(),
            forall|j: int| 0 <= j < all.len() ==> it.seq()[j].deep_view() == all[j],
            found.deep_view() == named(all.take(it.index() as int), name@),
    {
        proof {
            let k = it.index() as int;
            assert(all.take(k + 1) =~= all.take(k).push(all[k]));
            all.take(k).lemma_filter_push(all[k], has_name(name@));
        }
        if node.name == name {
            let ghost before = found.deep_view();
            found.push(node);
            assert(found.deep_view() =~= before.push(node.deep_view()));
        }
    }
    assert(all.take(all.len() as int) =~= all);
    found
}

/// The declarations that stand directly inside `n`: the elements of a
/// namespace; the methods of a class or an interface, each as a declaration of
/// its own, followed by the properties; nothing for any other kind.
pub open spec fn children_of(n: DocNodeView) -> Seq<DocNodeView> {
    match n.def {
        DocNodeDefView::Namespace(ns) => ns.elements,
        DocNodeDefView::Interface(i) => i.methods.map_values(
            |m: InterfaceMethodView| interface_method_node(m),
        ) + i.properties.map_values(|p: InterfacePropertyView| interface_property_node(p)),
        DocNodeDefView::Class(c) => c.methods.map_values(
            |m: ClassMethodView| class_method_node(m),
        ) + c.properties.map_values(|p: ClassPropertyView| class_property_node(p)),
        _ => Seq::empty(),
    }
}

/// Hands out the declarations that stand directly inside `node`.
pub fn get_children_of_node(node: DocNode) -> (children: Vec<DocNode>)
    ensures
        children.deep_view() == children_of(node.deep_view()),
{
    match node.def {
        DocNodeDef::Namespace(namespace_def) => {
            proof {
                lemma_namespace_def_view(namespace_def);
            }
            namespace_def.elements
        },
        DocNodeDef::Interface(interface_def) => {
            let ghost methods = interface_def.methods.deep_view();
            let ghost properties = interface_def.properties.deep_view();
            let ghost method_nodes = methods.map_values(
                |m: InterfaceMethodView| interface_method_node(m),
            );
            let ghost property_nodes = properties.map_values(
                |p: InterfacePropertyView| interface_property_node(p),
            );
            let mut doc_nodes: Vec<DocNode> = Vec::new();
            for method in it: interface_def.methods
                invariant
                    it.seq().len() == methods.len(),
                    forall|j: int| 0 <= j < methods.len() ==> it.seq()[j].deep_view() == methods[j],
                    method_nodes == methods.map_values(
                        |m: InterfaceMethodView| interface_method_node(m),
                    ),
                    doc_nodes.deep_view() =~= method_nodes.take(it.index() as int),
            {
                let ghost before = doc_nodes.deep_view();
                let child = method.into_doc_node();
                doc_nodes.push(child);
                assert(doc_nodes.deep_view() =~= before.push(child.deep_view()));
            }
            for property in it: interface_def.properties
                invariant
                    it.seq().len() == properties.len(),
                    forall|j: int|
                        0 <= j < properties.len() ==> it.seq()[j].deep_view() == properties[j],
                    property_nodes == properties.map_values(
                        |p: InterfacePropertyView| interface_property_node(p),
                    ),
                    doc_nodes.deep_view() =~= method_nodes + property_nodes.take(
                        it.index() as int,
                    ),
            {
                let ghost before = doc_nodes.deep_view();
                let child = property.into_doc_node();
                doc_nodes.push(child);
                assert(doc_nodes.deep_view() =~= before.push(child.deep_view()));
            }
            assert(doc_nodes.deep_view() =~= method_nodes + property_nodes);
            doc_nodes
        },
        DocNodeDef::Class(class_def) => {
            let ghost methods = class_def.methods.deep_view();
            let ghost properties = class_def.properties.deep_view();
            let ghost method_nodes = methods.map_values(|m: ClassMethodView| class_method_node(m));
            let ghost property_nodes = properties.map_values(
                |p: ClassPropertyView| class_property_node(p),
            );
            let mut doc_nodes: Vec<DocNode> = Vec::new();
            for method in it: class_def.methods
                invariant
                    it.seq().len() == methods.len(),
                    forall|j: int| 0 <= j < methods.len() ==> it.seq()[j].deep_view() == methods[j],
                    method_nodes == methods.map_values(|m: ClassMethodView| class_method_node(m)),
                    doc_nodes.deep_view() =~= method_nodes.take(it.index() as int),
            {
                let ghost before = doc_nodes.deep_view();
                let child = method.into_doc_node();
                doc_nodes.push(child);
                assert(doc_nodes.deep_view() =~= before.push(child.deep_view()));
            }
            for property in it: class_def.properties
                invariant
                    it.seq().len() == properties.len(),
                    forall|j: int|
                        0 <= j < properties.len() ==> it.seq()[j].deep_view() == properties[j],
                    property_nodes == properties.map_values(
                        |p: ClassPropertyView| class_property_node(p),
                    ),
                    doc_nodes.deep_view() =~= method_nodes + property_nodes.take(
                        it.index() as int,
                    ),
            {
                let ghost before = doc_nodes.deep_view();
                let child = property.into_doc_node();
                doc_nodes.push(child);
                assert(doc_nodes.deep_view() =~= before.push(child.deep_view()));
            }
            assert(doc_nodes.deep_view() =~= method_nodes + property_nodes);
            doc_nodes
        },
        _ => Vec::new(),
    }
}

/// The index of the first `.` in `path`, or the length of `path` where it
/// holds none.
pub open spec fn first_dot(path: Seq<char>) -> int
    decreases path.len(),
{
    if path.len() == 0 || path[0] == '.' {
        0
    } else {
        1 + first_dot(path.skip(1))
    }
}

/// `first_dot` is the one index before which no `.` stands and at which one
/// does, or the path ends.
pub proof fn lemma_first_dot(path: Seq<char>, i: int)
    requires
        0 <= i <= path.len(),
        forall|j: int| 0 <= j < i ==> path[j] != '.',
        i == path.len() || path[i] == '.',
    ensures
        first_dot(path) == i,
    decreases i,
{
    if i > 0 {
        lemma_first_dot(path.skip(1), i - 1);
    }
}

/// `first_dot` is an index into the path, or its length.
pub proof fn lemma_first_dot_bounds(path: Seq<char>)
    ensures
        0 <= first_dot(path) <= path.len(),
    decreases path.len(),
{
    if !(path.len() == 0 || path[0] == '.') {
        lemma_first_dot_bounds(path.skip(1));
    }
}

/// The first segment of a dotted path: what stands before the first `.`.
pub open spec fn path_head(path: Seq<char>) -> Seq<char> {
    path.take(first_dot(path))
}

/// What follows the first `.` of a dotted path, if the path holds one.
pub open spec fn path_rest(path: Seq<char>) -> Option<Seq<char>> {
    if first_dot(path) < path.len() {
        Some(path.skip(first_dot(path) + 1))
    } else {
        None
    }
}

/// The declarations that the dotted path `path` names among `nodes`.
///
/// The declarations named by the first segment are the result where the path
/// has one segment. Otherwise the rest of the path is looked up among the
/// children of each of them, in the order of encounter.
pub open spec fn find(nodes: Seq<DocNodeView>, path: Seq<char>) -> Seq<DocNodeView>
    decreases path.len(), 0nat,
    via find_decreases
{
    let matches = named(nodes, path_head(path));
    match path_rest(path) {
        None => matches,
        Some(rest) => find_in_children(matches, rest),
    }
}

#[via_fn]
proof fn find_decreases(nodes: Seq<DocNodeView>, path: Seq<char>) {
    lemma_first_dot_bounds(path);
}

/// The declarations that `path` names among the children of each of
/// `parents`, parent by parent.
pub open spec fn find_in_children(parents: Seq<DocNodeView>, path: Seq<char>) -> Seq<DocNodeView>
    decreases path.len(), parents.len() + 1,
{
    if parents.len() == 0 {
        Seq::empty()
    } else {
        find_in_children(parents.drop_last(), path) + find(children_of(parents.last()), path)
    }
}

/// Splits a dotted path at its first `.`.
pub fn split_path(path: &str) -> (r: (String, Option<String>))
    ensures
        r.0@ == path_head(path@),
        r.1.deep_view() == path_rest(path@),
        r.1 matches Some(rest) ==> rest@.len() < path@.len(),
{
    let n = path.unicode_len();
    let mut dot: usize = n;
    let mut index: usize = 0;
    for c in it: path.chars()
        invariant
            it.seq() == path@,
            n == path@.len(),
            index == it.index(),
            dot <= index || dot == n,
            forall|j: int| 0 <= j < dot && j < index ==> path@[j] != '.',
            dot < n ==> path@[dot as int] == '.',
    {
        if dot == n && c == '.' {
            dot = index;
        }
        index += 1;
    }
    proof {
        lemma_first_dot(path@, dot as int);
    }
    let head = String::from_str(path.substring_char(0, dot));
    if dot < n {
        let rest = String::from_str(path.substring_char(dot + 1, n));
        (head, Some(rest))
    } else {
        (head, None)
    }
}

/// Finds the declarations that a dotted path names: `Foo` names the
/// declarations called `Foo`; `Foo.bar` names the children called `bar` of
/// each of them; and so on, in the order of encounter.
pub fn find_nodes_by_name_recursively(doc_nodes: Vec<DocNode>, name: String) -> (found: Vec<
    DocNode,
>)
    ensures
        found.deep_view() == find(doc_nodes.deep_view(), name@),
    decreases name@.len(),
{
    let (head, leftover) = split_path(name.as_str());
    let doc_nodes = find_nodes_by_name(doc_nodes, head);
    match leftover {
        Some(leftover) => {
            let ghost parents = doc_nodes.deep_view();
            let mut found: Vec<DocNode> = Vec::new();
            assert(parents.take(0) =~= Seq::empty());
            for node in it: doc_nodes
                invariant
                    it.seq().len() == parents.len(),
                    forall|j: int| 0 <= j < parents.len() ==> it.seq()[j].deep_view() == parents[j],
                    leftover@.len() < name@.len(),
                    found.deep_view() == find_in_children(
                        parents.take(it.index() as int),
                        leftover@,
                    ),
            {
                let children = get_children_of_node(node);
                let ghost before = found.deep_view();
                let mut below = find_nodes_by_name_recursively(children, leftover.clone());
                let ghost added = below.deep_view();
                found.append(&mut below);
                proof {
                    let k = it.index() as int;
                    assert(parents.take(k + 1).drop_last() =~= parents.take(k));
                    assert(found.deep_view() =~= before + added);
                }
            }
            assert(parents.take(parents.len() as int) =~= parents);
            found
        },
        None => doc_nodes,
    }
}

/// A path that begins with a segment `head`, a `.` and then `rest` splits
/// into exactly these.
pub proof fn lemma_split_dotted(head: Seq<char>, rest: Seq<char>)
    requires
        !head.contains('.'),
    ensures
        path_head(head + seq!['.'] + rest) == head,
        path_rest(head + seq!['.'] + rest) == Some(rest),
{
    let path = head + seq!['.'] + rest;
    assert forall|j: int| 0 <= j < head.len() implies path[j] != '.' by {
        assert(head.contains(path[j]));
    }
    lemma_first_dot(path, head.len() as int);
    assert(path.take(head.len() as int) =~= head);
    assert(path.skip(head.len() as int + 1) =~= rest);
}

/// A path of one segment names the declarations of that name.
pub proof fn lemma_find_one_segment(nodes: Seq<DocNodeView>, name: Seq<char>)
    requires
        !name.contains('.'),
    ensures
        find(nodes, name) == named(nodes, name),
{
    assert forall|j: int| 0 <= j < name.len() implies name[j] != '.' by {
        assert(name.contains(name[j]));
    }
    lemma_first_dot(name, name.len() as int);
    assert(name.take(name.len() as int) =~= name);
}

/// Among no declarations, a path names none.
pub proof fn lemma_find_among_none(path: Seq<char>)
    ensures
        find(Seq::<DocNodeView>::empty(), path) == Seq::<DocNodeView>::empty(),
{
    lemma_first_dot_bounds(path);
    let none = Seq::<DocNodeView>::empty();
    assert(named(none, path_head(path)) =~= none) by {
        reveal(Seq::filter);
    }
    match path_rest(path) {
        Some(rest) => {
            assert(find_in_children(none, rest) =~= none);
        },
        None => {},
    }
}

/// Below declarations that have no children, a path names none.
pub proof fn lemma_find_below_childless(parents: Seq<DocNodeView>, path: Seq<char>)
    requires
        forall|i: int| 0 <= i < parents.len() ==> children_of(#[trigger] parents[i]).len() == 0,
    ensures
        find_in_children(parents, path) == Seq::<DocNodeView>::empty(),
    decreases parents.len(),
{
    if parents.len() > 0 {
        lemma_find_below_childless(parents.drop_last(), path);
        assert(children_of(parents.last()) =~= Seq::<DocNodeView>::empty());
        lemma_find_among_none(path);
    }
}

/// Looked up from a namespace named `outer`, the path `outer.inner` names
/// exactly the children of the namespace that are called `inner`; and a longer
/// path `outer.inner.deeper` names nothing where none of these has children.
pub proof fn lemma_find_in_namespace(
    namespace: DocNodeView,
    outer: Seq<char>,
    inner: Seq<char>,
    deeper: Seq<char>,
)
    requires
        namespace.name == outer,
        namespace.def is Namespace,
        !outer.contains('.'),
        !inner.contains('.'),
    ensures
        find(seq![namespace], outer + seq!['.'] + inner) == named(
            children_of(namespace),
            inner,
        ),
        (forall|i: int|
            0 <= i < named(children_of(namespace), inner).len() ==> children_of(
                #[trigger] named(children_of(namespace), inner)[i],
            ).len() == 0) ==> find(
            seq![namespace],
            outer + seq!['.'] + (inner + seq!['.'] + deeper),
        ) == Seq::<DocNodeView>::empty(),
{
    let parents = seq![namespace];
    let children = children_of(namespace);
    assert(named(parents, outer) =~= parents) by {
        reveal_with_fuel(Seq::filter, 2);
        assert(parents.drop_last() =~= Seq::<DocNodeView>::empty());
    }
    assert forall|rest: Seq<char>| find_in_children(parents, rest) == find(children, rest) by {
        assert(parents.drop_last() =~= Seq::<DocNodeView>::empty());
        assert(find_in_children(parents.drop_last(), rest) =~= Seq::<DocNodeView>::empty());
        assert(Seq::<DocNodeView>::empty() + find(children, rest) =~= find(children, rest));
    }
    lemma_split_dotted(outer, inner);
    lemma_find_one_segment(children, inner);
    assert(find(parents, outer + seq!['.'] + inner) == find(children, inner));

    let longer = inner + seq!['.'] + deeper;
    lemma_split_dotted(outer, longer);
    lemma_split_dotted(inner, deeper);
    assert(find(parents, outer + seq!['.'] + longer) == find(children, longer));
    if forall|i: int|
        0 <= i < named(children, inner).len() ==> children_of(
            #[trigger] named(children, inner)[i],
        ).len() == 0 {
        lemma_find_below_childless(named(children, inner), deeper);
    }
}

} // verus!
