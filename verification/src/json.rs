//! Documentation as JSON: an outline of the declarations.
//!
//! Each declaration is an object with its kind, name, location, visibility
//! and description, and with the declarations that stand directly inside it
//! under `children`.

use vstd::prelude::*;
use vstd::string::{StrSliceExecFns, StringExecFns};
use crate::children_of;
use crate::class::{class_method_node, class_property_node, ClassMethodView, ClassPropertyView};
use crate::interface::{
    interface_method_node, interface_property_node, InterfaceMethodView, InterfacePropertyView,
};
use crate::js_doc::{JsDoc, JsDocView};
use crate::node::{
    lemma_doc_node_list_view, DeclarationKind, DocNode, DocNodeDef, DocNodeDefView, DocNodeKind,
    DocNodeView, Location, LocationView,
};
use crate::text::{decimal, decimal_text, digit_char, join, join_text};

verus! {

/// The character of a hexadecimal digit.
pub open spec fn hex_char(d: nat) -> char {
    if d < 10 {
        digit_char(d)
    } else if d == 10 {
        'a'
    } else if d == 11 {
        'b'
    } else if d == 12 {
        'c'
    } else if d == 13 {
        'd'
    } else if d == 14 {
        'e'
    } else {
        'f'
    }
}

/// Whether a character cannot stand for itself in a JSON string: the quote,
/// the backslash and the control characters.
pub open spec fn needs_escape(c: char) -> bool {
    c == '"' || c == '\\' || (c as u32) < 32
}

/// A character as it stands in a JSON string: `\"` for a quote, `\\` for a
/// backslash, `\u00XX` for a control character, else the character itself.
pub open spec fn escape_char(c: char) -> Seq<char> {
    if c == '"' {
        seq!['\\', '"']
    } else if c == '\\' {
        seq!['\\', '\\']
    } else if (c as u32) < 32 {
        seq![
            '\\',
            'u',
            '0',
            '0',
            hex_char((c as u32 / 16) as nat),
            hex_char((c as u32 % 16) as nat),
        ]
    } else {
        seq![c]
    }
}

/// A text as it stands in a JSON string, character by character.
pub open spec fn escaped(text: Seq<char>) -> Seq<char>
    decreases text.len(),
{
    if text.len() == 0 {
        Seq::empty()
    } else {
        escaped(text.drop_last()) + escape_char(text.last())
    }
}

/// A text as a JSON string.
pub open spec fn json_string(text: Seq<char>) -> Seq<char> {
    seq!['"'] + escaped(text) + seq!['"']
}

/// Text that needs no escape stays as it is.
pub proof fn lemma_escaped_plain(text: Seq<char>)
    requires
        forall|i: int| 0 <= i < text.len() ==> !needs_escape(text[i]),
    ensures
        escaped(text) == text,
    decreases text.len(),
{
    if text.len() > 0 {
        lemma_escaped_plain(text.drop_last());
        assert(text.drop_last() + seq![text.last()] =~= text);
    }
}

/// Escaping goes through a text piece by piece.
pub proof fn lemma_escaped_add(a: Seq<char>, b: Seq<char>)
    ensures
        escaped(a + b) == escaped(a) + escaped(b),
    decreases b.len(),
{
    if b.len() == 0 {
        assert(a + b =~= a);
        assert(escaped(a) + escaped(b) =~= escaped(a));
    } else {
        lemma_escaped_add(a, b.drop_last());
        assert((a + b).drop_last() =~= a + b.drop_last());
        assert((a + b).last() == b.last());
        assert(escaped(a) + (escaped(b.drop_last()) + escape_char(b.last())) =~= (escaped(a)
            + escaped(b.drop_last())) + escape_char(b.last()));
    }
}

/// The text of one hexadecimal digit.
fn hex_text(d: u32) -> (text: &'static str)
    requires
        d < 16,
    ensures
        text@ == seq![hex_char(d as nat)],
{
    proof {
        reveal_strlit("0");
        reveal_strlit("1");
        reveal_strlit("2");
        reveal_strlit("3");
        reveal_strlit("4");
        reveal_strlit("5");
        reveal_strlit("6");
        reveal_strlit("7");
        reveal_strlit("8");
        reveal_strlit("9");
        reveal_strlit("a");
        reveal_strlit("b");
        reveal_strlit("c");
        reveal_strlit("d");
        reveal_strlit("e");
        reveal_strlit("f");
    }
    let text = if d == 0 {
        "0"
    } else if d == 1 {
        "1"
    } else if d == 2 {
        "2"
    } else if d == 3 {
        "3"
    } else if d == 4 {
        "4"
    } else if d == 5 {
        "5"
    } else if d == 6 {
        "6"
    } else if d == 7 {
        "7"
    } else if d == 8 {
        "8"
    } else if d == 9 {
        "9"
    } else if d == 10 {
        "a"
    } else if d == 11 {
        "b"
    } else if d == 12 {
        "c"
    } else if d == 13 {
        "d"
    } else if d == 14 {
        "e"
    } else {
        "f"
    };
    assert(text@ =~= seq![hex_char(d as nat)]);
    text
}

/// Writes the escape of a character that needs one.
fn escape_text(c: char) -> (out: String)
    requires
        needs_escape(c),
    ensures
        out@ == escape_char(c),
{
    proof {
        reveal_strlit("\\\"");
        reveal_strlit("\\\\");
        reveal_strlit("\\u00");
    }
    if c == '"' {
        let out = String::from_str("\\\"");
        assert(out@ =~= escape_char(c));
        out
    } else if c == '\\' {
        let out = String::from_str("\\\\");
        assert(out@ =~= escape_char(c));
        out
    } else {
        let code: u32 = c as u32;
        let mut out = String::from_str("\\u00");
        out.append(hex_text(code / 16));
        out.append(hex_text(code % 16));
        assert(out@ =~= escape_char(c));
        out
    }
}

/// Writes a text as a JSON string.
pub fn json_string_text(text: &str) -> (out: String)
    ensures
        out@ == json_string(text@),
{
    proof {
        reveal_strlit("\"");
    }
    let n = text.unicode_len();
    let mut out = String::from_str("\"");
    let mut from: usize = 0;
    let mut index: usize = 0;
    assert(text@.take(0) =~= Seq::empty());
    assert(out@ =~= seq!['"'] + escaped(text@.take(0)));
    for c in it: text.chars()
        invariant
            it.seq() == text@,
            n == text@.len(),
            index == it.index(),
            from <= index,
            forall|j: int| from <= j < index ==> !needs_escape(text@[j]),
            out@ == seq!['"'] + escaped(text@.take(from as int)),
    {
        if c == '"' || c == '\\' || (c as u32) < 32 {
            let plain = text.substring_char(from, index);
            let escape = escape_text(c);
            proof {
                let done = text@.take(from as int);
                let piece = text@.subrange(from as int, index as int);
                lemma_escaped_plain(piece);
                lemma_escaped_add(done, piece);
                assert(done + piece =~= text@.take(index as int));
                assert(text@.take(index + 1).drop_last() =~= text@.take(index as int));
                assert(seq!['"'] + escaped(done) + piece + escape@ =~= seq!['"'] + (escaped(done)
                    + piece + escape@));
            }
            out.append(plain);
            out.append(escape.as_str());
            from = index + 1;
        }
        index += 1;
    }
    let rest = text.substring_char(from, n);
    proof {
        let done = text@.take(from as int);
        let piece = text@.subrange(from as int, n as int);
        lemma_escaped_plain(piece);
        lemma_escaped_add(done, piece);
        assert(done + piece =~= text@);
        assert(seq!['"'] + escaped(done) + piece =~= seq!['"'] + (escaped(done) + piece));
    }
    out.append(rest);
    out.append("\"");
    out
}

/// The word for a kind of declaration.
pub open spec fn kind_word(kind: DocNodeKind) -> Seq<char> {
    match kind {
        DocNodeKind::Function => "function"@,
        DocNodeKind::Variable => "variable"@,
        DocNodeKind::Class => "class"@,
        DocNodeKind::Enum => "enum"@,
        DocNodeKind::Interface => "interface"@,
        DocNodeKind::TypeAlias => "typeAlias"@,
        DocNodeKind::Namespace => "namespace"@,
        DocNodeKind::Import => "import"@,
    }
}

/// The word for a kind of declaration.
pub fn kind_text(kind: DocNodeKind) -> (word: &'static str)
    ensures
        word@ == kind_word(kind),
{
    match kind {
        DocNodeKind::Function => "function",
        DocNodeKind::Variable => "variable",
        DocNodeKind::Class => "class",
        DocNodeKind::Enum => "enum",
        DocNodeKind::Interface => "interface",
        DocNodeKind::TypeAlias => "typeAlias",
        DocNodeKind::Namespace => "namespace",
        DocNodeKind::Import => "import",
    }
}

/// The word for a visibility.
pub open spec fn visibility_word(kind: DeclarationKind) -> Seq<char> {
    match kind {
        DeclarationKind::Private => "private"@,
        DeclarationKind::Export => "export"@,
        DeclarationKind::Declare => "declare"@,
    }
}

/// The word for a visibility.
pub fn visibility_text(kind: DeclarationKind) -> (word: &'static str)
    ensures
        word@ == visibility_word(kind),
{
    match kind {
        DeclarationKind::Private => "private",
        DeclarationKind::Export => "export",
        DeclarationKind::Declare => "declare",
    }
}

/// A location as a JSON object.
pub open spec fn json_location(location: LocationView) -> Seq<char> {
    "{\"filename\":"@ + json_string(location.filename) + ",\"line\":"@ + decimal(
        location.line as nat,
    ) + ",\"col\":"@ + decimal(location.col as nat) + "}"@
}

/// Writes a location as a JSON object.
pub fn json_location_text(location: &Location) -> (out: String)
    ensures
        out@ == json_location(location.deep_view()),
{
    let mut out = String::from_str("{\"filename\":");
    out.append(json_string_text(location.filename.as_str()).as_str());
    out.append(",\"line\":");
    out.append(decimal_text(location.line).as_str());
    out.append(",\"col\":");
    out.append(decimal_text(location.col).as_str());
    out.append("}");
    out
}

/// The description of a documentation comment as a JSON value: a string, or
/// `null` where there is none.
pub open spec fn json_description(js_doc: Option<JsDocView>) -> Seq<char> {
    match js_doc {
        Some(js_doc) => match js_doc.doc {
            Some(text) => json_string(text),
            None => "null"@,
        },
        None => "null"@,
    }
}

/// Writes the description of a documentation comment as a JSON value.
pub fn json_description_text(js_doc: &Option<JsDoc>) -> (out: String)
    ensures
        out@ == json_description(js_doc.deep_view()),
{
    match js_doc {
        Some(js_doc) => match &js_doc.doc {
            Some(text) => json_string_text(text.as_str()),
            None => String::from_str("null"),
        },
        None => String::from_str("null"),
    }
}

/// The given values as a JSON array.
pub open spec fn json_array(items: Seq<Seq<char>>) -> Seq<char> {
    "["@ + join(items, ","@) + "]"@
}

/// Writes the given values as a JSON array.
pub fn json_array_text(items: &Vec<String>) -> (out: String)
    ensures
        out@ == json_array(items.deep_view()),
{
    let mut out = String::from_str("[");
    out.append(join_text(items, ",").as_str());
    out.append("]");
    out
}

/// A declaration as a JSON object, with the given JSON value for its
/// children.
pub open spec fn json_object(
    kind: DocNodeKind,
    name: Seq<char>,
    location: LocationView,
    declaration_kind: DeclarationKind,
    js_doc: Option<JsDocView>,
    children: Seq<char>,
) -> Seq<char> {
    "{\"kind\":"@ + json_string(kind_word(kind)) + ",\"name\":"@ + json_string(name)
        + ",\"location\":"@ + json_location(location) + ",\"declarationKind\":"@ + json_string(
        visibility_word(declaration_kind),
    ) + ",\"jsDoc\":"@ + json_description(js_doc) + ",\"children\":"@ + children + "}"@
}

/// Writes a declaration as a JSON object.
pub fn json_object_text(
    kind: DocNodeKind,
    name: &str,
    location: &Location,
    declaration_kind: DeclarationKind,
    js_doc: &Option<JsDoc>,
    children: &str,
) -> (out: String)
    ensures
        out@ == json_object(
            kind,
            name@,
            location.deep_view(),
            declaration_kind,
            js_doc.deep_view(),
            children@,
        ),
{
    let mut out = String::from_str("{\"kind\":");
    out.append(json_string_text(kind_text(kind)).as_str());
    out.append(",\"name\":");
    out.append(json_string_text(name).as_str());
    out.append(",\"location\":");
    out.append(json_location_text(location).as_str());
    out.append(",\"declarationKind\":");
    out.append(json_string_text(visibility_text(declaration_kind)).as_str());
    out.append(",\"jsDoc\":");
    out.append(json_description_text(js_doc).as_str());
    out.append(",\"children\":");
    out.append(children);
    out.append("}");
    out
}

/// A declaration without children as a JSON object.
pub open spec fn json_leaf(n: DocNodeView) -> Seq<char> {
    json_object(
        n.kind(),
        n.name,
        n.location,
        n.declaration_kind,
        n.js_doc,
        json_array(Seq::empty()),
    )
}

/// A declaration as a JSON object. Its children are the elements of a
/// namespace, each with its own children, or the members of a class or an
/// interface, methods first.
pub open spec fn json_node(n: DocNodeView) -> Seq<char>
    decreases n,
{
    json_object(
        n.kind(),
        n.name,
        n.location,
        n.declaration_kind,
        n.js_doc,
        match n.def {
            DocNodeDefView::Namespace(ns) => json_array(json_node_texts(ns.elements)),
            _ => json_array(children_of(n).map_values(|m: DocNodeView| json_leaf(m))),
        },
    )
}

/// The JSON objects of a list of declarations, in order.
pub open spec fn json_node_texts(nodes: Seq<DocNodeView>) -> Seq<Seq<char>>
    decreases nodes,
{
    Seq::new(
        nodes.len(),
        |i: int|
            if 0 <= i < nodes.len() {
                json_node(nodes[i])
            } else {
                Seq::empty()
            },
    )
}

/// A list of declarations as a JSON array.
pub open spec fn json_nodes(nodes: Seq<DocNodeView>) -> Seq<char> {
    json_array(json_node_texts(nodes))
}

/// Writes a member of a class or an interface as a JSON object.
fn json_member_text(
    kind: DocNodeKind,
    name: &str,
    location: &Location,
    declaration_kind: DeclarationKind,
    js_doc: &Option<JsDoc>,
) -> (out: String)
    ensures
        out@ == json_object(
            kind,
            name@,
            location.deep_view(),
            declaration_kind,
            js_doc.deep_view(),
            json_array(Seq::empty()),
        ),
{
    let none: Vec<String> = Vec::new();
    assert(none.deep_view() =~= Seq::<Seq<char>>::empty());
    let children = json_array_text(&none);
    json_object_text(kind, name, location, declaration_kind, js_doc, children.as_str())
}

/// Writes the children of a declaration that is no namespace as a JSON array.
fn json_members_text(node: &DocNode) -> (out: String)
    requires
        !(node.def is Namespace),
    ensures
        out@ == json_array(
            children_of(node.deep_view()).map_values(|m: DocNodeView| json_leaf(m)),
        ),
{
    let ghost leaf = |m: DocNodeView| json_leaf(m);
    let mut items: Vec<String> = Vec::new();
    match &node.def {
        DocNodeDef::Class(class_def) => {
            let ghost methods = class_def.methods.deep_view().map_values(
                |m: ClassMethodView| class_method_node(m),
            );
            let ghost properties = class_def.properties.deep_view().map_values(
                |p: ClassPropertyView| class_property_node(p),
            );
            let mut i: usize = 0;
            while i < class_def.methods.len()
                invariant
                    i <= class_def.methods@.len(),
                    methods == class_def.methods.deep_view().map_values(
                        |m: ClassMethodView| class_method_node(m),
                    ),
                    items.deep_view() =~= methods.take(i as int).map_values(
                        |m: DocNodeView| json_leaf(m),
                    ),
                decreases class_def.methods@.len() - i,
            {
                let method = &class_def.methods[i];
                let ghost before = items.deep_view();
                let item = json_member_text(
                    DocNodeKind::Function,
                    method.name.as_str(),
                    &method.location,
                    method.declaration_kind,
                    &method.js_doc,
                );
                items.push(item);
                assert(items.deep_view() =~= before.push(item@));
                i += 1;
            }
            assert(methods.take(i as int) =~= methods);
            let mut j: usize = 0;
            while j < class_def.properties.len()
                invariant
                    j <= class_def.properties@.len(),
                    properties == class_def.properties.deep_view().map_values(
                        |p: ClassPropertyView| class_property_node(p),
                    ),
                    items.deep_view() =~= (methods + properties.take(j as int)).map_values(
                        |m: DocNodeView| json_leaf(m),
                    ),
                decreases class_def.properties@.len() - j,
            {
                let property = &class_def.properties[j];
                let ghost before = items.deep_view();
                let item = json_member_text(
                    DocNodeKind::Variable,
                    property.name.as_str(),
                    &property.location,
                    property.declaration_kind,
                    &property.js_doc,
                );
                items.push(item);
                assert(items.deep_view() =~= before.push(item@));
                j += 1;
            }
            assert(properties.take(j as int) =~= properties);
        },
        DocNodeDef::Interface(interface_def) => {
            let ghost methods = interface_def.methods.deep_view().map_values(
                |m: InterfaceMethodView| interface_method_node(m),
            );
            let ghost properties = interface_def.properties.deep_view().map_values(
                |p: InterfacePropertyView| interface_property_node(p),
            );
            let mut i: usize = 0;
            while i < interface_def.methods.len()
                invariant
                    i <= interface_def.methods@.len(),
                    methods == interface_def.methods.deep_view().map_values(
                        |m: InterfaceMethodView| interface_method_node(m),
                    ),
                    items.deep_view() =~= methods.take(i as int).map_values(
                        |m: DocNodeView| json_leaf(m),
                    ),
                decreases interface_def.methods@.len() - i,
            {
                let method = &interface_def.methods[i];
                let ghost before = items.deep_view();
                let item = json_member_text(
                    DocNodeKind::Function,
                    method.name.as_str(),
                    &method.location,
                    DeclarationKind::Export,
                    &method.js_doc,
                );
                items.push(item);
                assert(items.deep_view() =~= before.push(item@));
                i += 1;
            }
            assert(methods.take(i as int) =~= methods);
            let mut j: usize = 0;
            while j < interface_def.properties.len()
                invariant
                    j <= interface_def.properties@.len(),
                    properties == interface_def.properties.deep_view().map_values(
                        |p: InterfacePropertyView| interface_property_node(p),
                    ),
                    items.deep_view() =~= (methods + properties.take(j as int)).map_values(
                        |m: DocNodeView| json_leaf(m),
                    ),
                decreases interface_def.properties@.len() - j,
            {
                let property = &interface_def.properties[j];
                let ghost before = items.deep_view();
                let item = json_member_text(
                    DocNodeKind::Variable,
                    property.name.as_str(),
                    &property.location,
                    DeclarationKind::Export,
                    &property.js_doc,
                );
                items.push(item);
                assert(items.deep_view() =~= before.push(item@));
                j += 1;
            }
            assert(properties.take(j as int) =~= properties);
        },
        _ => {
            assert(items.deep_view() =~= children_of(node.deep_view()).map_values(
                |m: DocNodeView| json_leaf(m),
            ));
        },
    }
    json_array_text(&items)
}

/// Writes a declaration as a JSON object.
pub fn json_node_text(node: &DocNode) -> (out: String)
    ensures
        out@ == json_node(node.deep_view()),
    decreases node,
{
    let children = match &node.def {
        DocNodeDef::Namespace(namespace_def) => {
            proof {
                lemma_doc_node_list_view(namespace_def.elements);
            }
            json_nodes_text(&namespace_def.elements)
        },
        _ => json_members_text(node),
    };
    json_object_text(
        node.kind(),
        node.name.as_str(),
        &node.location,
        node.declaration_kind,
        &node.js_doc,
        children.as_str(),
    )
}

/// Writes a list of declarations as a JSON array.
pub fn json_nodes_text(doc_nodes: &Vec<DocNode>) -> (out: String)
    ensures
        out@ == json_nodes(doc_nodes.deep_view()),
    decreases doc_nodes,
{
    let mut items: Vec<String> = Vec::new();
    let mut i: usize = 0;
    while i < doc_nodes.len()
        invariant
            i <= doc_nodes@.len(),
            items@.len() == i,
            forall|j: int| 0 <= j < i ==> items@[j]@ == json_node(doc_nodes@[j].deep_view()),
        decreases doc_nodes@.len() - i,
    {
        items.push(json_node_text(&doc_nodes[i]));
        i += 1;
    }
    assert(items.deep_view() =~= json_node_texts(doc_nodes.deep_view()));
    json_array_text(&items)
}

} // verus!
