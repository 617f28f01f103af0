//! Rendering documentation as text.

use vstd::prelude::*;
use vstd::string::StringExecFns;
use crate::colors::{
    bold, bold_style, gray, gray_style, italic_gray, italic_gray_style, magenta, magenta_style,
    styled, ColorToggle,
};
use crate::class::{
    ClassConstructorView, ClassDef, ClassMethodDef, ClassMethodView, ClassPropertyDef,
    ClassPropertyView, ClassView,
};
use crate::namespace::{NamespaceDef, NamespaceView};
use crate::enums::{EnumDef, EnumMemberView, EnumView};
use crate::function::{FunctionDef, FunctionView};
use crate::interface::{
    InterfaceCallSignatureView, InterfaceDef, InterfaceIndexSignatureView, InterfaceMethodView,
    InterfacePropertyView, InterfaceView,
};
use crate::js_doc::{JsDoc, JsDocTag, JsDocTagView, JsDocView};
use crate::json::{json_nodes, json_nodes_text};
use crate::node::{
    lemma_doc_node_list_view, lemma_namespace_def_view, DeclarationKind, DocNode, DocNodeDef,
    DocNodeDefView, DocNodeView, Location, LocationView,
};
use crate::params::{ParamDef, ParamShape, ParamView};
use crate::text::{
    decimal, decimal_text, indented, indented_text, join, join_text, padding, padding_text,
};
use crate::ts_type::{lemma_ts_type_list_view, TsTypeDef, TsTypeView};
use crate::ts_type_param::{TsTypeParamDef, TsTypeParamView};

verus! {

/// Whether a type expression is put in parentheses as the element of an array
/// type.
pub open spec fn is_compound(t: TsTypeView) -> bool {
    t is Union || t is Intersection || t is Conditional
}

/// A type expression as source text.
pub open spec fn type_text(t: TsTypeView) -> Seq<char>
    decreases t,
{
    match t {
        TsTypeView::Keyword(name) => name,
        TsTypeView::Literal(text) => text,
        TsTypeView::Reference(name) => name,
        TsTypeView::Generic { name, args } => name + "<"@ + join(type_texts(args), ", "@) + ">"@,
        TsTypeView::Array(elem) => if is_compound(*elem) {
            "("@ + type_text(*elem) + ")[]"@
        } else {
            type_text(*elem) + "[]"@
        },
        TsTypeView::Union(members) => join(type_texts(members), " | "@),
        TsTypeView::Intersection(members) => join(type_texts(members), " & "@),
        TsTypeView::Conditional { check, extends_type, true_type, false_type } => type_text(*check)
            + " extends "@ + type_text(*extends_type) + " ? "@ + type_text(*true_type) + " : "@
            + type_text(*false_type),
        TsTypeView::Mapped { param, constraint, value } => "{ ["@ + param + " in "@ + type_text(
            *constraint,
        ) + "]: "@ + type_text(*value) + " }"@,
    }
}

/// The texts of a list of type expressions, in order.
pub open spec fn type_texts(types: Seq<TsTypeView>) -> Seq<Seq<char>>
    decreases types,
{
    Seq::new(
        types.len(),
        |i: int|
            if 0 <= i < types.len() {
                type_text(types[i])
            } else {
                Seq::empty()
            },
    )
}

/// Writes a list of type expressions, each as source text.
pub fn render_types(types: &Vec<TsTypeDef>) -> (texts: Vec<String>)
    ensures
        texts.deep_view() == type_texts(types.deep_view()),
    decreases types,
{
    let mut texts: Vec<String> = Vec::new();
    let mut i: usize = 0;
    while i < types.len()
        invariant
            i <= types@.len(),
            texts@.len() == i,
            forall|j: int| 0 <= j < i ==> texts@[j]@ == type_text(types@[j].deep_view()),
        decreases types@.len() - i,
    {
        texts.push(render_type(&types[i]));
        i += 1;
    }
    assert(texts.deep_view() =~= type_texts(types.deep_view()));
    texts
}

/// Writes a type expression as source text.
pub fn render_type(ts_type: &TsTypeDef) -> (text: String)
    ensures
        text@ == type_text(ts_type.deep_view()),
    decreases ts_type,
{
    match ts_type {
        TsTypeDef::Keyword(name) => name.clone(),
        TsTypeDef::Literal(text) => text.clone(),
        TsTypeDef::Reference(name) => name.clone(),
        TsTypeDef::Generic { name, args } => {
            proof {
                lemma_ts_type_list_view(*args);
            }
            let texts = render_types(args);
            let mut out = name.clone();
            out.append("<");
            out.append(join_text(&texts, ", ").as_str());
            out.append(">");
            out
        },
        TsTypeDef::Array(elem) => {
            let inner = render_type(&**elem);
            let compound = match &**elem {
                TsTypeDef::Union(_) => true,
                TsTypeDef::Intersection(_) => true,
                TsTypeDef::Conditional { .. } => true,
                _ => false,
            };
            if compound {
                let mut out = String::from_str("(");
                out.append(inner.as_str());
                out.append(")[]");
                out
            } else {
                let mut out = inner;
                out.append("[]");
                out
            }
        },
        TsTypeDef::Union(members) => {
            proof {
                lemma_ts_type_list_view(*members);
            }
            let texts = render_types(members);
            join_text(&texts, " | ")
        },
        TsTypeDef::Intersection(members) => {
            proof {
                lemma_ts_type_list_view(*members);
            }
            let texts = render_types(members);
            join_text(&texts, " & ")
        },
        TsTypeDef::Conditional { check, extends_type, true_type, false_type } => {
            let mut out = render_type(&**check);
            out.append(" extends ");
            out.append(render_type(&**extends_type).as_str());
            out.append(" ? ");
            out.append(render_type(&**true_type).as_str());
            out.append(" : ");
            out.append(render_type(&**false_type).as_str());
            out
        },
        TsTypeDef::Mapped { param, constraint, value } => {
            let mut out = String::from_str("{ [");
            out.append(param.as_str());
            out.append(" in ");
            out.append(render_type(&**constraint).as_str());
            out.append("]: ");
            out.append(render_type(&**value).as_str());
            out.append(" }");
            out
        },
    }
}

/// `before` and the type, where a type is given; nothing where none is.
pub open spec fn optional_type_text(before: Seq<char>, t: Option<TsTypeView>) -> Seq<char> {
    match t {
        Some(t) => before + type_text(t),
        None => Seq::empty(),
    }
}

/// Writes `before` and the type, where a type is given.
pub fn render_optional_type(before: &str, ts_type: &Option<TsTypeDef>) -> (text: String)
    ensures
        text@ == optional_type_text(before@, ts_type.deep_view()),
{
    match ts_type {
        Some(ts_type) => {
            let mut out = String::from_str(before);
            out.append(render_type(ts_type).as_str());
            out
        },
        None => String::new(),
    }
}

/// `before` and the text, where one is given; nothing where none is.
pub open spec fn optional_text(before: Seq<char>, text: Option<Seq<char>>) -> Seq<char> {
    match text {
        Some(text) => before + text,
        None => Seq::empty(),
    }
}

/// Writes `before` and the text, where one is given.
pub fn render_optional(before: &str, text: &Option<String>) -> (out: String)
    ensures
        out@ == optional_text(before@, text.deep_view()),
{
    match text {
        Some(text) => {
            let mut out = String::from_str(before);
            out.append(text.as_str());
            out
        },
        None => String::new(),
    }
}

/// `text` where `flag` holds; nothing where it does not.
pub open spec fn flag_text(flag: bool, text: Seq<char>) -> Seq<char> {
    if flag {
        text
    } else {
        Seq::empty()
    }
}

/// Writes `text` where `flag` holds.
pub fn render_flag(flag: bool, text: &str) -> (out: String)
    ensures
        out@ == flag_text(flag, text@),
{
    if flag {
        String::from_str(text)
    } else {
        String::new()
    }
}

/// One type parameter as source text: `name extends constraint = default`.
pub open spec fn type_param_text(p: TsTypeParamView) -> Seq<char> {
    p.name + optional_type_text(" extends "@, p.constraint) + optional_type_text(" = "@, p.default)
}

/// A list of type parameters as source text: nothing where the list is empty,
/// else the parameters between `<` and `>`.
pub open spec fn type_params_text(params: Seq<TsTypeParamView>) -> Seq<char> {
    if params.len() == 0 {
        Seq::empty()
    } else {
        "<"@ + join(params.map_values(|p: TsTypeParamView| type_param_text(p)), ", "@) + ">"@
    }
}

/// Writes a list of type parameters as source text.
pub fn render_type_params(type_params: &Vec<TsTypeParamDef>) -> (text: String)
    ensures
        text@ == type_params_text(type_params.deep_view()),
{
    if type_params.len() == 0 {
        return String::new();
    }
    let mut texts: Vec<String> = Vec::new();
    let mut i: usize = 0;
    while i < type_params.len()
        invariant
            i <= type_params@.len(),
            texts@.len() == i,
            forall|j: int|
                0 <= j < i ==> texts@[j]@ == type_param_text(type_params@[j].deep_view()),
        decreases type_params@.len() - i,
    {
        let param = &type_params[i];
        let mut text = param.name.clone();
        text.append(render_optional_type(" extends ", &param.constraint).as_str());
        text.append(render_optional_type(" = ", &param.default).as_str());
        texts.push(text);
        i += 1;
    }
    assert(texts.deep_view() =~= type_params.deep_view().map_values(
        |p: TsTypeParamView| type_param_text(p),
    ));
    let mut out = String::from_str("<");
    out.append(join_text(&texts, ", ").as_str());
    out.append(">");
    out
}

/// How a parameter is named: by its name, or by the shape in which it takes
/// its argument apart.
pub open spec fn param_name_text(p: ParamView) -> Seq<char> {
    match p.shape {
        Some(ParamShape::Array) => "[...]"@,
        Some(ParamShape::Object) => "{...}"@,
        None => p.name,
    }
}

/// One parameter as source text: `name: type = default`.
pub open spec fn param_text(p: ParamView) -> Seq<char> {
    param_name_text(p) + optional_type_text(": "@, p.ts_type) + optional_text(" = "@, p.default)
}

/// A list of parameters as source text, separated by commas.
pub open spec fn param_list_text(params: Seq<ParamView>) -> Seq<char> {
    join(params.map_values(|p: ParamView| param_text(p)), ", "@)
}

/// A list of parameters as source text, between `(` and `)`.
pub open spec fn params_text(params: Seq<ParamView>) -> Seq<char> {
    "("@ + param_list_text(params) + ")"@
}

/// Writes a list of parameters as source text, separated by commas.
pub fn render_param_list(params: &Vec<ParamDef>) -> (text: String)
    ensures
        text@ == param_list_text(params.deep_view()),
{
    let mut texts: Vec<String> = Vec::new();
    let mut i: usize = 0;
    while i < params.len()
        invariant
            i <= params@.len(),
            texts@.len() == i,
            forall|j: int| 0 <= j < i ==> texts@[j]@ == param_text(params@[j].deep_view()),
        decreases params@.len() - i,
    {
        let param = &params[i];
        let mut text = match param.shape {
            Some(ParamShape::Array) => String::from_str("[...]"),
            Some(ParamShape::Object) => String::from_str("{...}"),
            None => param.name.clone(),
        };
        text.append(render_optional_type(": ", &param.ts_type).as_str());
        text.append(render_optional(" = ", &param.default).as_str());
        texts.push(text);
        i += 1;
    }
    assert(texts.deep_view() =~= params.deep_view().map_values(|p: ParamView| param_text(p)));
    join_text(&texts, ", ")
}

/// Writes a list of parameters as source text, between `(` and `)`.
pub fn render_params(params: &Vec<ParamDef>) -> (text: String)
    ensures
        text@ == params_text(params.deep_view()),
{
    let mut out = String::from_str("(");
    out.append(render_param_list(params).as_str());
    out.append(")");
    out
}

/// What follows the name in a signature: type parameters, parameters and the
/// return type.
pub open spec fn signature_text(f: FunctionView) -> Seq<char> {
    type_params_text(f.type_params) + params_text(f.params) + optional_type_text(
        ": "@,
        f.return_type,
    )
}

/// Writes what follows the name in a signature.
pub fn render_signature(function_def: &FunctionDef) -> (text: String)
    ensures
        text@ == signature_text(function_def.deep_view()),
{
    let mut out = render_type_params(&function_def.type_params);
    out.append(render_params(&function_def.params).as_str());
    out.append(render_optional_type(": ", &function_def.return_type).as_str());
    out
}

/// A keyword of the language, coloured where colour is on.
pub open spec fn keyword_text(word: Seq<char>, color: bool) -> Seq<char> {
    styled(word, magenta_style(), color)
}

/// A declared name, in bold where colour is on.
pub open spec fn name_text(name: Seq<char>, color: bool) -> Seq<char> {
    styled(name, bold_style(), color)
}

/// The header of a function: `async function* name<T>(params): type`.
pub open spec fn function_text(name: Seq<char>, f: FunctionView, color: bool) -> Seq<char> {
    flag_text(f.is_async, keyword_text("async"@, color) + " "@) + keyword_text("function"@, color)
        + flag_text(f.is_generator, "*"@) + " "@ + name_text(name, color) + signature_text(f)
}

/// Writes the header of a function.
pub fn render_function(name: &str, function_def: &FunctionDef, toggle: &ColorToggle) -> (text:
    String)
    ensures
        text@ == function_text(name@, function_def.deep_view(), toggle.enabled),
{
    let mut out = String::new();
    if function_def.is_async {
        out = magenta("async", toggle);
        out.append(" ");
    }
    let ghost first = out@;
    out.append(magenta("function", toggle).as_str());
    assert(out@ =~= flag_text(
        function_def.is_async,
        keyword_text("async"@, toggle.enabled) + " "@,
    ) + keyword_text("function"@, toggle.enabled));
    out.append(render_flag(function_def.is_generator, "*").as_str());
    out.append(" ");
    out.append(bold(name, toggle).as_str());
    out.append(render_signature(function_def).as_str());
    out
}

/// The texts that `f` gives for the items, one after the other.
pub open spec fn concat_map<T>(items: Seq<T>, f: spec_fn(T) -> Seq<char>) -> Seq<char>
    decreases items.len(),
{
    if items.len() == 0 {
        Seq::empty()
    } else {
        concat_map(items.drop_last(), f) + f(items.last())
    }
}

/// Going one item further adds that item's text.
pub proof fn lemma_concat_map_step<T>(items: Seq<T>, f: spec_fn(T) -> Seq<char>, i: int)
    requires
        0 <= i < items.len(),
    ensures
        concat_map(items.take(i + 1), f) == concat_map(items.take(i), f) + f(items[i]),
{
    assert(items.take(i + 1).drop_last() =~= items.take(i));
}

/// One line of output: the padding, the text and a line break.
pub open spec fn line(indent: usize, text: Seq<char>) -> Seq<char> {
    padding(indent as nat) + text + "\n"@
}

/// Writes one line of output.
pub fn render_line(indent: usize, text: &str) -> (out: String)
    ensures
        out@ == line(indent, text@),
{
    let mut out = padding_text(indent);
    out.append(text);
    out.append("\n");
    out
}

/// The indentation one level deeper: two columns further, as far as the
/// machine's numbers reach.
pub open spec fn deeper(indent: usize) -> usize {
    if indent <= usize::MAX - 2 {
        (indent + 2) as usize
    } else {
        indent
    }
}

/// The indentation one level deeper.
pub fn indent_deeper(indent: usize) -> (out: usize)
    ensures
        out == deeper(indent),
{
    if indent <= usize::MAX - 2 {
        indent + 2
    } else {
        indent
    }
}

/// A location as text: `file:line:column`.
pub open spec fn location_text(location: LocationView) -> Seq<char> {
    location.filename + ":"@ + decimal(location.line as nat) + ":"@ + decimal(
        location.col as nat,
    )
}

/// The line that says where a declaration stands.
pub open spec fn defined_in_line(location: LocationView, indent: usize, color: bool) -> Seq<
    char,
> {
    line(indent, styled("Defined in "@ + location_text(location), italic_gray_style(), color))
}

/// Writes the line that says where a declaration stands.
pub fn render_defined_in(location: &Location, indent: usize, toggle: &ColorToggle) -> (out: String)
    ensures
        out@ == defined_in_line(location.deep_view(), indent, toggle.enabled),
{
    let mut place = location.filename.clone();
    place.append(":");
    place.append(decimal_text(location.line).as_str());
    place.append(":");
    place.append(decimal_text(location.col).as_str());
    let mut text = String::from_str("Defined in ");
    text.append(place.as_str());
    render_line(indent, italic_gray(text.as_str(), toggle).as_str())
}

/// ` ` and the text, where the text is not empty.
pub open spec fn spaced_text(text: Seq<char>) -> Seq<char> {
    if text.len() > 0 {
        " "@ + text
    } else {
        Seq::empty()
    }
}

/// One tag as source text.
pub open spec fn tag_text(tag: JsDocTagView) -> Seq<char> {
    match tag {
        JsDocTagView::Param { name, doc } => "@param "@ + name + optional_text(" "@, doc),
        JsDocTagView::Return { doc } => "@return"@ + optional_text(" "@, doc),
        JsDocTagView::Deprecated { doc } => "@deprecated"@ + optional_text(" "@, doc),
        JsDocTagView::Example { doc } => "@example"@ + optional_text(" "@, doc),
        JsDocTagView::Unsupported { name, value } => "@"@ + name + spaced_text(value),
    }
}

/// Writes one tag as source text.
pub fn render_tag(tag: &JsDocTag) -> (out: String)
    ensures
        out@ == tag_text(tag.deep_view()),
{
    match tag {
        JsDocTag::Param { name, doc } => {
            let mut out = String::from_str("@param ");
            out.append(name.as_str());
            out.append(render_optional(" ", doc).as_str());
            out
        },
        JsDocTag::Return { doc } => {
            let mut out = String::from_str("@return");
            out.append(render_optional(" ", doc).as_str());
            out
        },
        JsDocTag::Deprecated { doc } => {
            let mut out = String::from_str("@deprecated");
            out.append(render_optional(" ", doc).as_str());
            out
        },
        JsDocTag::Example { doc } => {
            let mut out = String::from_str("@example");
            out.append(render_optional(" ", doc).as_str());
            out
        },
        JsDocTag::Unsupported { name, value } => {
            let mut out = String::from_str("@");
            out.append(name.as_str());
            if value.as_str().unicode_len() > 0 {
                out.append(" ");
                out.append(value.as_str());
            } else {
                assert(out@ + Seq::<char>::empty() =~= out@);
            }
            out
        },
    }
}

/// A piece of documentation as lines of output: each of its lines padded, and
/// the whole in gray where colour is on.
pub open spec fn doc_line(text: Seq<char>, indent: usize, color: bool) -> Seq<char> {
    line(indent, styled(indented(text, padding(indent as nat)), gray_style(), color))
}

/// Writes a piece of documentation as lines of output.
pub fn render_doc_line(text: &str, indent: usize, toggle: &ColorToggle) -> (out: String)
    ensures
        out@ == doc_line(text@, indent, toggle.enabled),
{
    let pad = padding_text(indent);
    let inner = indented_text(text, pad.as_str());
    render_line(indent, gray(inner.as_str(), toggle).as_str())
}

/// The lines of one tag.
pub open spec fn tag_line(indent: usize, color: bool) -> spec_fn(JsDocTagView) -> Seq<char> {
    |tag: JsDocTagView| doc_line(tag_text(tag), indent, color)
}

/// The description of a documentation comment as lines of output.
pub open spec fn description_text(doc: Option<Seq<char>>, indent: usize, color: bool) -> Seq<
    char,
> {
    match doc {
        Some(text) => doc_line(text, indent, color),
        None => Seq::empty(),
    }
}

/// A documentation comment as lines of output: the description, then each
/// tag; nothing where there is no comment.
pub open spec fn js_doc_text(js_doc: Option<JsDocView>, indent: usize, color: bool) -> Seq<char> {
    match js_doc {
        Some(js_doc) => description_text(js_doc.doc, indent, color) + concat_map(
            js_doc.tags,
            tag_line(indent, color),
        ),
        None => Seq::empty(),
    }
}

/// Writes a documentation comment as lines of output.
pub fn render_js_doc(js_doc: &Option<JsDoc>, indent: usize, toggle: &ColorToggle) -> (out: String)
    ensures
        out@ == js_doc_text(js_doc.deep_view(), indent, toggle.enabled),
{
    match js_doc {
        Some(js_doc) => {
            let mut out = match &js_doc.doc {
                Some(text) => render_doc_line(text.as_str(), indent, toggle),
                None => String::new(),
            };
            let ghost first = out@;
            let ghost tags = js_doc.tags.deep_view();
            let ghost each = tag_line(indent, toggle.enabled);
            let mut i: usize = 0;
            assert(tags.take(0) =~= Seq::empty());
            assert(first + Seq::<char>::empty() =~= first);
            while i < js_doc.tags.len()
                invariant
                    i <= js_doc.tags@.len(),
                    tags == js_doc.tags.deep_view(),
                    each == tag_line(indent, toggle.enabled),
                    out@ == first + concat_map(tags.take(i as int), each),
                decreases js_doc.tags@.len() - i,
            {
                let tag = render_tag(&js_doc.tags[i]);
                let added = render_doc_line(tag.as_str(), indent, toggle);
                proof {
                    lemma_concat_map_step(tags, each, i as int);
                    assert(first + (concat_map(tags.take(i as int), each) + added@) =~= (first
                        + concat_map(tags.take(i as int), each)) + added@);
                }
                out.append(added.as_str());
                i += 1;
            }
            assert(tags.take(i as int) =~= tags);
            out
        },
        None => String::new(),
    }
}

/// A member of a class or an interface as lines of output: its own line, then
/// its documentation one level deeper.
pub open spec fn member_text(
    text: Seq<char>,
    js_doc: Option<JsDocView>,
    indent: usize,
    color: bool,
) -> Seq<char> {
    line(indent, text) + js_doc_text(js_doc, deeper(indent), color)
}

/// Writes a member of a class or an interface as lines of output.
pub fn render_member(
    text: &str,
    js_doc: &Option<JsDoc>,
    indent: usize,
    toggle: &ColorToggle,
) -> (out: String)
    ensures
        out@ == member_text(text@, js_doc.deep_view(), indent, toggle.enabled),
{
    let mut out = render_line(indent, text);
    out.append(render_js_doc(js_doc, indent_deeper(indent), toggle).as_str());
    out
}

/// The line of a constructor: `constructor(params)`.
pub open spec fn constructor_text(c: ClassConstructorView) -> Seq<char> {
    "constructor"@ + params_text(c.params)
}

/// The line of a class property: `static readonly name: type`.
pub open spec fn class_property_text(p: ClassPropertyView) -> Seq<char> {
    flag_text(p.is_static, "static "@) + flag_text(p.readonly, "readonly "@) + p.name
        + optional_type_text(": "@, p.ts_type)
}

/// The line of a class method: `static name<T>(params): type`.
pub open spec fn class_method_text(m: ClassMethodView) -> Seq<char> {
    flag_text(m.is_static, "static "@) + m.name + signature_text(m.function_def)
}

/// The lines of a class's constructor, if it has one.
pub open spec fn constructor_lines(
    constructor: Option<ClassConstructorView>,
    indent: usize,
    color: bool,
) -> Seq<char> {
    match constructor {
        Some(c) => member_text(constructor_text(c), c.js_doc, indent, color),
        None => Seq::empty(),
    }
}

/// The lines of one class property.
pub open spec fn class_property_lines(indent: usize, color: bool) -> spec_fn(
    ClassPropertyView,
) -> Seq<char> {
    |p: ClassPropertyView| member_text(class_property_text(p), p.js_doc, indent, color)
}

/// The lines of one class method.
pub open spec fn class_method_lines(indent: usize, color: bool) -> spec_fn(ClassMethodView) -> Seq<
    char,
> {
    |m: ClassMethodView| member_text(class_method_text(m), m.js_doc, indent, color)
}

/// The members of a class as lines of output: the constructor, the
/// properties, the methods.
pub open spec fn class_details(c: ClassView, indent: usize, color: bool) -> Seq<char> {
    constructor_lines(c.constructor, indent, color) + concat_map(
        c.properties,
        class_property_lines(indent, color),
    ) + concat_map(c.methods, class_method_lines(indent, color))
}

/// Writes the members of a class as lines of output.
pub fn render_class_details(class_def: &ClassDef, indent: usize, toggle: &ColorToggle) -> (out:
    String)
    ensures
        out@ == class_details(class_def.deep_view(), indent, toggle.enabled),
{
    let mut out = match &class_def.constructor {
        Some(constructor) => {
            let mut text = String::from_str("constructor");
            text.append(render_params(&constructor.params).as_str());
            render_member(text.as_str(), &constructor.js_doc, indent, toggle)
        },
        None => String::new(),
    };
    let ghost first = out@;
    let ghost properties = class_def.properties.deep_view();
    let ghost each_property = class_property_lines(indent, toggle.enabled);
    let mut i: usize = 0;
    assert(properties.take(0) =~= Seq::empty());
    assert(first + Seq::<char>::empty() =~= first);
    while i < class_def.properties.len()
        invariant
            i <= class_def.properties@.len(),
            properties == class_def.properties.deep_view(),
            each_property == class_property_lines(indent, toggle.enabled),
            out@ == first + concat_map(properties.take(i as int), each_property),
        decreases class_def.properties@.len() - i,
    {
        let property = &class_def.properties[i];
        let mut text = render_flag(property.is_static, "static ");
        text.append(render_flag(property.readonly, "readonly ").as_str());
        text.append(property.name.as_str());
        text.append(render_optional_type(": ", &property.ts_type).as_str());
        let added = render_member(text.as_str(), &property.js_doc, indent, toggle);
        proof {
            lemma_concat_map_step(properties, each_property, i as int);
            assert(first + (concat_map(properties.take(i as int), each_property) + added@) =~= (
            first + concat_map(properties.take(i as int), each_property)) + added@);
        }
        out.append(added.as_str());
        i += 1;
    }
    assert(properties.take(i as int) =~= properties);
    let ghost second = out@;
    let ghost methods = class_def.methods.deep_view();
    let ghost each_method = class_method_lines(indent, toggle.enabled);
    let mut j: usize = 0;
    assert(methods.take(0) =~= Seq::empty());
    assert(second + Seq::<char>::empty() =~= second);
    while j < class_def.methods.len()
        invariant
            j <= class_def.methods@.len(),
            methods == class_def.methods.deep_view(),
            each_method == class_method_lines(indent, toggle.enabled),
            out@ == second + concat_map(methods.take(j as int), each_method),
        decreases class_def.methods@.len() - j,
    {
        let method = &class_def.methods[j];
        let mut text = render_flag(method.is_static, "static ");
        text.append(method.name.as_str());
        text.append(render_signature(&method.function_def).as_str());
        let added = render_member(text.as_str(), &method.js_doc, indent, toggle);
        proof {
            lemma_concat_map_step(methods, each_method, j as int);
            assert(second + (concat_map(methods.take(j as int), each_method) + added@) =~= (second
                + concat_map(methods.take(j as int), each_method)) + added@);
        }
        out.append(added.as_str());
        j += 1;
    }
    assert(methods.take(j as int) =~= methods);
    out
}

/// The line of a call signature: `(params): type`.
pub open spec fn call_signature_line(indent: usize) -> spec_fn(InterfaceCallSignatureView) -> Seq<
    char,
> {
    |c: InterfaceCallSignatureView|
        line(indent, params_text(c.params) + optional_type_text(": "@, c.return_type))
}

/// The line of an index signature: `readonly [params]: type`.
pub open spec fn index_signature_line(indent: usize) -> spec_fn(
    InterfaceIndexSignatureView,
) -> Seq<char> {
    |s: InterfaceIndexSignatureView|
        line(
            indent,
            flag_text(s.readonly, "readonly "@) + "["@ + param_list_text(s.params) + "]"@
                + optional_type_text(": "@, s.value_type),
        )
}

/// The lines of one interface property: `name?: type` and its documentation.
pub open spec fn interface_property_lines(indent: usize, color: bool) -> spec_fn(
    InterfacePropertyView,
) -> Seq<char> {
    |p: InterfacePropertyView|
        member_text(
            p.name + flag_text(p.optional, "?"@) + optional_type_text(": "@, p.ts_type),
            p.js_doc,
            indent,
            color,
        )
}

/// The lines of one interface method: `name<T>(params): type` and its
/// documentation.
pub open spec fn interface_method_lines(indent: usize, color: bool) -> spec_fn(
    InterfaceMethodView,
) -> Seq<char> {
    |m: InterfaceMethodView|
        member_text(m.name + signature_text(m.function_def), m.js_doc, indent, color)
}

/// The members of an interface as lines of output: the call signatures, the
/// index signatures, the properties, the methods.
pub open spec fn interface_details(i: InterfaceView, indent: usize, color: bool) -> Seq<char> {
    concat_map(i.call_signatures, call_signature_line(indent)) + concat_map(
        i.index_signatures,
        index_signature_line(indent),
    ) + concat_map(i.properties, interface_property_lines(indent, color)) + concat_map(
        i.methods,
        interface_method_lines(indent, color),
    )
}

/// Writes the members of an interface as lines of output.
pub fn render_interface_details(
    interface_def: &InterfaceDef,
    indent: usize,
    toggle: &ColorToggle,
) -> (out: String)
    ensures
        out@ == interface_details(interface_def.deep_view(), indent, toggle.enabled),
{
    let mut out = String::new();
    let ghost calls = interface_def.call_signatures.deep_view();
    let ghost each_call = call_signature_line(indent);
    let mut i: usize = 0;
    assert(calls.take(0) =~= Seq::empty());
    while i < interface_def.call_signatures.len()
        invariant
            i <= interface_def.call_signatures@.len(),
            calls == interface_def.call_signatures.deep_view(),
            each_call == call_signature_line(indent),
            out@ == concat_map(calls.take(i as int), each_call),
        decreases interface_def.call_signatures@.len() - i,
    {
        let signature = &interface_def.call_signatures[i];
        let mut text = render_params(&signature.params);
        text.append(render_optional_type(": ", &signature.return_type).as_str());
        let added = render_line(indent, text.as_str());
        proof {
            lemma_concat_map_step(calls, each_call, i as int);
        }
        out.append(added.as_str());
        i += 1;
    }
    assert(calls.take(i as int) =~= calls);

    let ghost first = out@;
    let ghost indexes = interface_def.index_signatures.deep_view();
    let ghost each_index = index_signature_line(indent);
    let mut i: usize = 0;
    assert(indexes.take(0) =~= Seq::empty());
    assert(first + Seq::<char>::empty() =~= first);
    while i < interface_def.index_signatures.len()
        invariant
            i <= interface_def.index_signatures@.len(),
            indexes == interface_def.index_signatures.deep_view(),
            each_index == index_signature_line(indent),
            out@ == first + concat_map(indexes.take(i as int), each_index),
        decreases interface_def.index_signatures@.len() - i,
    {
        let signature = &interface_def.index_signatures[i];
        let mut text = render_flag(signature.readonly, "readonly ");
        text.append("[");
        text.append(render_param_list(&signature.params).as_str());
        text.append("]");
        text.append(render_optional_type(": ", &signature.value_type).as_str());
        let added = render_line(indent, text.as_str());
        proof {
            lemma_concat_map_step(indexes, each_index, i as int);
            assert(first + (concat_map(indexes.take(i as int), each_index) + added@) =~= (first
                + concat_map(indexes.take(i as int), each_index)) + added@);
        }
        out.append(added.as_str());
        i += 1;
    }
    assert(indexes.take(i as int) =~= indexes);

    let ghost second = out@;
    let ghost properties = interface_def.properties.deep_view();
    let ghost each_property = interface_property_lines(indent, toggle.enabled);
    let mut i: usize = 0;
    assert(properties.take(0) =~= Seq::empty());
    assert(second + Seq::<char>::empty() =~= second);
    while i < interface_def.properties.len()
        invariant
            i <= interface_def.properties@.len(),
            properties == interface_def.properties.deep_view(),
            each_property == interface_property_lines(indent, toggle.enabled),
            out@ == second + concat_map(properties.take(i as int), each_property),
        decreases interface_def.properties@.len() - i,
    {
        let property = &interface_def.properties[i];
        let mut text = property.name.clone();
        text.append(render_flag(property.optional, "?").as_str());
        text.append(render_optional_type(": ", &property.ts_type).as_str());
        let added = render_member(text.as_str(), &property.js_doc, indent, toggle);
        proof {
            lemma_concat_map_step(properties, each_property, i as int);
            assert(second + (concat_map(properties.take(i as int), each_property) + added@) =~= (
            second + concat_map(properties.take(i as int), each_property)) + added@);
        }
        out.append(added.as_str());
        i += 1;
    }
    assert(properties.take(i as int) =~= properties);

    let ghost third = out@;
    let ghost methods = interface_def.methods.deep_view();
    let ghost each_method = interface_method_lines(indent, toggle.enabled);
    let mut i: usize = 0;
    assert(methods.take(0) =~= Seq::empty());
    assert(third + Seq::<char>::empty() =~= third);
    while i < interface_def.methods.len()
        invariant
            i <= interface_def.methods@.len(),
            methods == interface_def.methods.deep_view(),
            each_method == interface_method_lines(indent, toggle.enabled),
            out@ == third + concat_map(methods.take(i as int), each_method),
        decreases interface_def.methods@.len() - i,
    {
        let method = &interface_def.methods[i];
        let mut text = method.name.clone();
        text.append(render_signature(&method.function_def).as_str());
        let added = render_member(text.as_str(), &method.js_doc, indent, toggle);
        proof {
            lemma_concat_map_step(methods, each_method, i as int);
            assert(third + (concat_map(methods.take(i as int), each_method) + added@) =~= (third
                + concat_map(methods.take(i as int), each_method)) + added@);
        }
        out.append(added.as_str());
        i += 1;
    }
    assert(methods.take(i as int) =~= methods);
    out
}

/// The line of one enum member: `name = value`.
pub open spec fn enum_member_line(indent: usize) -> spec_fn(EnumMemberView) -> Seq<char> {
    |m: EnumMemberView| line(indent, m.name + optional_text(" = "@, m.value))
}

/// The members of an enum as lines of output.
pub open spec fn enum_details(e: EnumView, indent: usize) -> Seq<char> {
    concat_map(e.members, enum_member_line(indent))
}

/// Writes the members of an enum as lines of output.
pub fn render_enum_details(enum_def: &EnumDef, indent: usize) -> (out: String)
    ensures
        out@ == enum_details(enum_def.deep_view(), indent),
{
    let mut out = String::new();
    let ghost members = enum_def.members.deep_view();
    let ghost each = enum_member_line(indent);
    let mut i: usize = 0;
    assert(members.take(0) =~= Seq::empty());
    while i < enum_def.members.len()
        invariant
            i <= enum_def.members@.len(),
            members == enum_def.members.deep_view(),
            each == enum_member_line(indent),
            out@ == concat_map(members.take(i as int), each),
        decreases enum_def.members@.len() - i,
    {
        let member = &enum_def.members[i];
        let mut text = member.name.clone();
        text.append(render_optional(" = ", &member.value).as_str());
        let added = render_line(indent, text.as_str());
        proof {
            lemma_concat_map_step(members, each, i as int);
        }
        out.append(added.as_str());
        i += 1;
    }
    assert(members.take(i as int) =~= members);
    out
}

/// `before` and the names, separated by commas, where there are names;
/// nothing where there are none.
pub open spec fn names_text(before: Seq<char>, names: Seq<Seq<char>>) -> Seq<char> {
    if names.len() == 0 {
        Seq::empty()
    } else {
        before + join(names, ", "@)
    }
}

/// Writes `before` and the names, separated by commas, where there are names.
pub fn render_names(before: &str, names: &Vec<String>) -> (out: String)
    ensures
        out@ == names_text(before@, names.deep_view()),
{
    if names.len() == 0 {
        return String::new();
    }
    let mut out = String::from_str(before);
    out.append(join_text(names, ", ").as_str());
    out
}

/// A keyword and a name: the beginning of most headers.
pub open spec fn titled(word: Seq<char>, name: Seq<char>, color: bool) -> Seq<char> {
    keyword_text(word, color) + " "@ + name_text(name, color)
}

/// Writes a keyword and a name.
pub fn render_titled(word: &str, name: &str, toggle: &ColorToggle) -> (out: String)
    ensures
        out@ == titled(word@, name@, toggle.enabled),
{
    let mut out = magenta(word, toggle);
    out.append(" ");
    out.append(bold(name, toggle).as_str());
    out
}

/// The header of a declaration: a line that begins with the word for its
/// kind and holds its name and what is declared of it.
pub open spec fn header_text(n: DocNodeView, color: bool) -> Seq<char> {
    match n.def {
        DocNodeDefView::Function(f) => function_text(n.name, f, color),
        DocNodeDefView::Variable(v) => titled("var"@, n.name, color) + optional_type_text(
            ": "@,
            v.ts_type,
        ),
        DocNodeDefView::Class(c) => titled("class"@, n.name, color) + type_params_text(
            c.type_params,
        ) + optional_text(" extends "@, c.extends) + names_text(" implements "@, c.implements),
        DocNodeDefView::Enum(_) => titled("enum"@, n.name, color),
        DocNodeDefView::Interface(i) => titled("interface"@, n.name, color) + type_params_text(
            i.type_params,
        ) + names_text(" extends "@, i.extends),
        DocNodeDefView::TypeAlias(t) => titled("type"@, n.name, color) + type_params_text(
            t.type_params,
        ) + " = "@ + type_text(t.ts_type),
        DocNodeDefView::Namespace(_) => titled("namespace"@, n.name, color),
        DocNodeDefView::Import(i) => titled("import"@, n.name, color) + " from "@ + i.src,
    }
}

/// Writes the header of a declaration.
pub fn render_header(node: &DocNode, toggle: &ColorToggle) -> (out: String)
    ensures
        out@ == header_text(node.deep_view(), toggle.enabled),
{
    let name = node.name.as_str();
    match &node.def {
        DocNodeDef::Function(function_def) => render_function(name, function_def, toggle),
        DocNodeDef::Variable(variable_def) => {
            let mut out = render_titled("var", name, toggle);
            out.append(render_optional_type(": ", &variable_def.ts_type).as_str());
            out
        },
        DocNodeDef::Class(class_def) => {
            let mut out = render_titled("class", name, toggle);
            out.append(render_type_params(&class_def.type_params).as_str());
            out.append(render_optional(" extends ", &class_def.extends).as_str());
            out.append(render_names(" implements ", &class_def.implements).as_str());
            out
        },
        DocNodeDef::Enum(_) => render_titled("enum", name, toggle),
        DocNodeDef::Interface(interface_def) => {
            let mut out = render_titled("interface", name, toggle);
            out.append(render_type_params(&interface_def.type_params).as_str());
            out.append(render_names(" extends ", &interface_def.extends).as_str());
            out
        },
        DocNodeDef::TypeAlias(type_alias_def) => {
            let mut out = render_titled("type", name, toggle);
            out.append(render_type_params(&type_alias_def.type_params).as_str());
            out.append(" = ");
            out.append(render_type(&type_alias_def.ts_type).as_str());
            out
        },
        DocNodeDef::Namespace(_) => render_titled("namespace", name, toggle),
        DocNodeDef::Import(import_def) => {
            let mut out = render_titled("import", name, toggle);
            out.append(" from ");
            out.append(import_def.src.as_str());
            out
        },
    }
}

/// A declaration as lines of output: its header; one level deeper, where it
/// stands, its documentation and its members or children; and an empty line.
pub open spec fn node_text(n: DocNodeView, indent: usize, color: bool) -> Seq<char>
    decreases n,
{
    line(indent, header_text(n, color)) + defined_in_line(n.location, deeper(indent), color)
        + js_doc_text(n.js_doc, deeper(indent), color) + (match n.def {
        DocNodeDefView::Class(c) => class_details(c, deeper(indent), color),
        DocNodeDefView::Interface(i) => interface_details(i, deeper(indent), color),
        DocNodeDefView::Enum(e) => enum_details(e, deeper(indent)),
        DocNodeDefView::Namespace(ns) => nodes_text(ns.elements, deeper(indent), color),
        _ => Seq::empty(),
    }) + "\n"@
}

/// A list of declarations as lines of output, declaration by declaration.
pub open spec fn nodes_text(nodes: Seq<DocNodeView>, indent: usize, color: bool) -> Seq<char>
    decreases nodes,
{
    if nodes.len() == 0 {
        Seq::empty()
    } else {
        nodes_text(nodes.drop_last(), indent, color) + node_text(nodes.last(), indent, color)
    }
}

/// Writes a declaration as lines of output.
pub fn render_node(node: &DocNode, indent: usize, toggle: &ColorToggle) -> (out: String)
    ensures
        out@ == node_text(node.deep_view(), indent, toggle.enabled),
    decreases node,
{
    let inner = indent_deeper(indent);
    let mut out = render_line(indent, render_header(node, toggle).as_str());
    out.append(render_defined_in(&node.location, inner, toggle).as_str());
    out.append(render_js_doc(&node.js_doc, inner, toggle).as_str());
    let details = match &node.def {
        DocNodeDef::Class(class_def) => render_class_details(class_def, inner, toggle),
        DocNodeDef::Interface(interface_def) => render_interface_details(
            interface_def,
            inner,
            toggle,
        ),
        DocNodeDef::Enum(enum_def) => render_enum_details(enum_def, inner),
        DocNodeDef::Namespace(namespace_def) => {
            proof {
                lemma_doc_node_list_view(namespace_def.elements);
            }
            render_nodes(&namespace_def.elements, inner, toggle)
        },
        _ => String::new(),
    };
    out.append(details.as_str());
    out.append("\n");
    out
}

/// Writes a list of declarations as lines of output.
pub fn render_nodes(doc_nodes: &Vec<DocNode>, indent: usize, toggle: &ColorToggle) -> (out: String)
    ensures
        out@ == nodes_text(doc_nodes.deep_view(), indent, toggle.enabled),
    decreases doc_nodes,
{
    let ghost all = doc_nodes.deep_view();
    let mut out = String::new();
    let mut i: usize = 0;
    assert(all.take(0) =~= Seq::empty());
    while i < doc_nodes.len()
        invariant
            i <= doc_nodes@.len(),
            all == doc_nodes.deep_view(),
            out@ == nodes_text(all.take(i as int), indent, toggle.enabled),
        decreases doc_nodes@.len() - i,
    {
        let added = render_node(&doc_nodes[i], indent, toggle);
        proof {
            let upto = all.take(i + 1);
            assert(upto.drop_last() =~= all.take(i as int));
            assert(upto.last() == doc_nodes@[i as int].deep_view());
            assert(nodes_text(upto, indent, toggle.enabled) == nodes_text(
                upto.drop_last(),
                indent,
                toggle.enabled,
            ) + node_text(upto.last(), indent, toggle.enabled));
        }
        out.append(added.as_str());
        i += 1;
    }
    assert(all.take(i as int) =~= all);
    out
}

/// Whether something of this visibility is shown where private declarations
/// are not.
pub open spec fn is_shown(kind: DeclarationKind) -> bool {
    !(kind is Private)
}

/// The test "is a property that is not private".
pub open spec fn shown_property() -> spec_fn(ClassPropertyView) -> bool {
    |p: ClassPropertyView| is_shown(p.declaration_kind)
}

/// The test "is a method that is not private".
pub open spec fn shown_method() -> spec_fn(ClassMethodView) -> bool {
    |m: ClassMethodView| is_shown(m.declaration_kind)
}

/// The constructor, unless it is private.
pub open spec fn visible_constructor(constructor: Option<ClassConstructorView>) -> Option<
    ClassConstructorView,
> {
    match constructor {
        Some(c) => if is_shown(c.declaration_kind) {
            Some(c)
        } else {
            None
        },
        None => None,
    }
}

/// A class without its private members.
pub open spec fn visible_class(c: ClassView) -> ClassView {
    ClassView {
        constructor: visible_constructor(c.constructor),
        properties: c.properties.filter(shown_property()),
        methods: c.methods.filter(shown_method()),
        extends: c.extends,
        implements: c.implements,
        type_params: c.type_params,
    }
}

/// A declaration without the private declarations inside it: the private
/// members of a class, and the private declarations at any depth of a
/// namespace.
pub open spec fn visible_node(n: DocNodeView) -> DocNodeView
    decreases n,
{
    DocNodeView {
        name: n.name,
        location: n.location,
        declaration_kind: n.declaration_kind,
        js_doc: n.js_doc,
        def: match n.def {
            DocNodeDefView::Class(c) => DocNodeDefView::Class(visible_class(c)),
            DocNodeDefView::Namespace(ns) => DocNodeDefView::Namespace(
                NamespaceView { elements: visible_nodes(ns.elements) },
            ),
            other => other,
        },
    }
}

/// The declarations that are not private, in order, each without the private
/// declarations inside it.
pub open spec fn visible_nodes(nodes: Seq<DocNodeView>) -> Seq<DocNodeView>
    decreases nodes,
{
    if nodes.len() == 0 {
        Seq::empty()
    } else if is_shown(nodes.last().declaration_kind) {
        visible_nodes(nodes.drop_last()).push(visible_node(nodes.last()))
    } else {
        visible_nodes(nodes.drop_last())
    }
}

/// Whether a class has no private member.
pub open spec fn class_is_public(c: ClassView) -> bool {
    &&& c.constructor matches Some(k) ==> is_shown(k.declaration_kind)
    &&& forall|i: int| 0 <= i < c.properties.len() ==> is_shown(c.properties[i].declaration_kind)
    &&& forall|i: int| 0 <= i < c.methods.len() ==> is_shown(c.methods[i].declaration_kind)
}

/// Whether a declaration is not private and holds no private declaration at
/// any depth.
pub open spec fn node_is_public(n: DocNodeView) -> bool
    decreases n,
{
    &&& is_shown(n.declaration_kind)
    &&& match n.def {
        DocNodeDefView::Class(c) => class_is_public(c),
        DocNodeDefView::Namespace(ns) => nodes_are_public(ns.elements),
        _ => true,
    }
}

/// Whether no declaration of the list is private or holds a private
/// declaration at any depth.
pub open spec fn nodes_are_public(nodes: Seq<DocNodeView>) -> bool
    decreases nodes,
{
    nodes.len() == 0 || (nodes_are_public(nodes.drop_last()) && node_is_public(nodes.last()))
}

/// What is left of a class without its private members has no private member.
pub proof fn lemma_visible_class_is_public(c: ClassView)
    ensures
        class_is_public(visible_class(c)),
{
    let shown = visible_class(c);
    assert forall|i: int| 0 <= i < shown.properties.len() implies is_shown(
        shown.properties[i].declaration_kind,
    ) by {
        c.properties.lemma_filter_pred(shown_property(), i);
    }
    assert forall|i: int| 0 <= i < shown.methods.len() implies is_shown(
        shown.methods[i].declaration_kind,
    ) by {
        c.methods.lemma_filter_pred(shown_method(), i);
    }
}

/// What is left of a declaration that is not private, without the private
/// declarations inside it, holds no private declaration at any depth.
pub proof fn lemma_visible_node_is_public(n: DocNodeView)
    requires
        is_shown(n.declaration_kind),
    ensures
        node_is_public(visible_node(n)),
    decreases n,
{
    match n.def {
        DocNodeDefView::Class(c) => {
            lemma_visible_class_is_public(c);
        },
        DocNodeDefView::Namespace(ns) => {
            lemma_visible_nodes_are_public(ns.elements);
        },
        _ => {},
    }
}

/// The declarations that are shown where private ones are not hold no private
/// declaration: not among them, not among the members of a class, and not at
/// any depth of a namespace.
pub proof fn lemma_visible_nodes_are_public(nodes: Seq<DocNodeView>)
    ensures
        nodes_are_public(visible_nodes(nodes)),
    decreases nodes,
{
    if nodes.len() > 0 {
        lemma_visible_nodes_are_public(nodes.drop_last());
        if is_shown(nodes.last().declaration_kind) {
            lemma_visible_node_is_public(nodes.last());
            let shown = visible_nodes(nodes);
            assert(shown.drop_last() =~= visible_nodes(nodes.drop_last()));
            assert(shown.last() == visible_node(nodes.last()));
        }
    }
}

/// Whether something of this visibility is shown where private declarations
/// are not.
pub fn shown(kind: DeclarationKind) -> (b: bool)
    ensures
        b == is_shown(kind),
{
    match kind {
        DeclarationKind::Private => false,
        _ => true,
    }
}

/// Copies a class without its private members.
pub fn visible_class_def(class_def: &ClassDef) -> (out: ClassDef)
    ensures
        out.deep_view() == visible_class(class_def.deep_view()),
{
    let constructor = match &class_def.constructor {
        Some(c) => if shown(c.declaration_kind) {
            Some(c.clone())
        } else {
            None
        },
        None => None,
    };
    let ghost all_properties = class_def.properties.deep_view();
    let mut properties: Vec<ClassPropertyDef> = Vec::new();
    let mut i: usize = 0;
    assert(all_properties.take(0) =~= Seq::empty());
    assert(properties.deep_view() =~= Seq::empty());
    assert(Seq::<ClassPropertyView>::empty().filter(shown_property()) =~= Seq::empty()) by {
        reveal(Seq::filter);
    }
    while i < class_def.properties.len()
        invariant
            i <= class_def.properties@.len(),
            all_properties == class_def.properties.deep_view(),
            properties.deep_view() == all_properties.take(i as int).filter(shown_property()),
        decreases class_def.properties@.len() - i,
    {
        proof {
            assert(all_properties.take(i + 1) =~= all_properties.take(i as int).push(
                all_properties[i as int],
            ));
            all_properties.take(i as int).lemma_filter_push(
                all_properties[i as int],
                shown_property(),
            );
        }
        if shown(class_def.properties[i].declaration_kind) {
            let ghost before = properties.deep_view();
            let property = class_def.properties[i].clone();
            properties.push(property);
            assert(properties.deep_view() =~= before.push(property.deep_view()));
        }
        i += 1;
    }
    assert(all_properties.take(i as int) =~= all_properties);
    let ghost all_methods = class_def.methods.deep_view();
    let mut methods: Vec<ClassMethodDef> = Vec::new();
    let mut j: usize = 0;
    assert(all_methods.take(0) =~= Seq::empty());
    assert(methods.deep_view() =~= Seq::empty());
    assert(Seq::<ClassMethodView>::empty().filter(shown_method()) =~= Seq::empty()) by {
        reveal(Seq::filter);
    }
    while j < class_def.methods.len()
        invariant
            j <= class_def.methods@.len(),
            all_methods == class_def.methods.deep_view(),
            methods.deep_view() == all_methods.take(j as int).filter(shown_method()),
        decreases class_def.methods@.len() - j,
    {
        proof {
            assert(all_methods.take(j + 1) =~= all_methods.take(j as int).push(
                all_methods[j as int],
            ));
            all_methods.take(j as int).lemma_filter_push(all_methods[j as int], shown_method());
        }
        if shown(class_def.methods[j].declaration_kind) {
            let ghost before = methods.deep_view();
            let method = class_def.methods[j].clone();
            methods.push(method);
            assert(methods.deep_view() =~= before.push(method.deep_view()));
        }
        j += 1;
    }
    assert(all_methods.take(j as int) =~= all_methods);
    let implements = class_def.implements.clone();
    assert(implements.deep_view() =~= class_def.implements.deep_view());
    let type_params = class_def.type_params.clone();
    assert(type_params.deep_view() =~= class_def.type_params.deep_view());
    ClassDef {
        constructor,
        properties,
        methods,
        extends: class_def.extends.clone(),
        implements,
        type_params,
    }
}

/// Copies a declaration without the private declarations inside it.
pub fn visible_doc_node(node: &DocNode) -> (out: DocNode)
    ensures
        out.deep_view() == visible_node(node.deep_view()),
    decreases node,
{
    let def = match &node.def {
        DocNodeDef::Class(class_def) => DocNodeDef::Class(visible_class_def(class_def)),
        DocNodeDef::Namespace(namespace_def) => {
            let kept = NamespaceDef { elements: visible_doc_nodes(&namespace_def.elements) };
            proof {
                lemma_namespace_def_view(kept);
                lemma_doc_node_list_view(namespace_def.elements);
            }
            DocNodeDef::Namespace(kept)
        },
        other => other.clone(),
    };
    DocNode {
        name: node.name.clone(),
        location: node.location.clone(),
        declaration_kind: node.declaration_kind,
        js_doc: node.js_doc.clone(),
        def,
    }
}

/// Copies the declarations that are not private, each without the private
/// declarations inside it.
pub fn visible_doc_nodes(doc_nodes: &Vec<DocNode>) -> (out: Vec<DocNode>)
    ensures
        out.deep_view() == visible_nodes(doc_nodes.deep_view()),
    decreases doc_nodes,
{
    let ghost all = doc_nodes.deep_view();
    let mut out: Vec<DocNode> = Vec::new();
    let mut i: usize = 0;
    assert(all.take(0) =~= Seq::empty());
    assert(out.deep_view() =~= Seq::empty());
    while i < doc_nodes.len()
        invariant
            i <= doc_nodes@.len(),
            all == doc_nodes.deep_view(),
            out.deep_view() == visible_nodes(all.take(i as int)),
        decreases doc_nodes@.len() - i,
    {
        proof {
            let upto = all.take(i + 1);
            assert(upto.drop_last() =~= all.take(i as int));
            assert(upto.last() == doc_nodes@[i as int].deep_view());
        }
        if shown(doc_nodes[i].declaration_kind) {
            let ghost before = out.deep_view();
            let node = visible_doc_node(&doc_nodes[i]);
            out.push(node);
            assert(out.deep_view() =~= before.push(node.deep_view()));
        }
        i += 1;
    }
    assert(all.take(i as int) =~= all);
    out
}

/// The declarations that a rendering shows: all of them, or those that
/// [`visible_nodes`] leaves.
pub open spec fn shown_nodes(nodes: Seq<DocNodeView>, show_private: bool) -> Seq<DocNodeView> {
    if show_private {
        nodes
    } else {
        visible_nodes(nodes)
    }
}

/// The declarations as text. Those that are shown are written in order: as a
/// JSON array where `as_json` is on, else declaration by declaration as lines
/// from the left margin.
pub open spec fn rendered(
    nodes: Seq<DocNodeView>,
    show_private: bool,
    as_json: bool,
    use_color: bool,
) -> Seq<char> {
    if as_json {
        json_nodes(shown_nodes(nodes, show_private))
    } else {
        nodes_text(shown_nodes(nodes, show_private), 0, use_color)
    }
}

/// Renders the declarations as text, in order. Where `show_private` is off,
/// private declarations are left out at every depth, members of classes
/// included. Where `as_json` is on, the text is a JSON outline of the
/// declarations, and colour plays no part. Else, where `use_color` is on,
/// keywords, names, locations and documentation are styled for a terminal.
pub fn render(doc_nodes: &Vec<DocNode>, show_private: bool, as_json: bool, use_color: bool) -> (out:
    String)
    ensures
        out@ == rendered(doc_nodes.deep_view(), show_private, as_json, use_color),
{
    let toggle = ColorToggle { enabled: use_color };
    if show_private {
        if as_json {
            json_nodes_text(doc_nodes)
        } else {
            render_nodes(doc_nodes, 0, &toggle)
        }
    } else {
        let kept = visible_doc_nodes(doc_nodes);
        if as_json {
            json_nodes_text(&kept)
        } else {
            render_nodes(&kept, 0, &toggle)
        }
    }
}

/// Rendering without private declarations shows the same as rendering, with
/// everything shown, a list that holds no private declaration at any depth:
/// no private declaration, and no private member of a class, reaches the
/// text.
pub proof fn lemma_render_hides_private(nodes: Seq<DocNodeView>, as_json: bool, use_color: bool)
    ensures
        nodes_are_public(visible_nodes(nodes)),
        rendered(nodes, false, as_json, use_color) == rendered(
            visible_nodes(nodes),
            true,
            as_json,
            use_color,
        ),
{
    lemma_visible_nodes_are_public(nodes);
}

/// A list of declarations together with how it is to be shown.
pub struct DocPrinter<'a> {
    pub doc_nodes: &'a Vec<DocNode>,
    pub use_color: bool,
    pub private: bool,
}

impl<'a> DocPrinter<'a> {
    /// A printer for the given declarations.
    pub fn new(doc_nodes: &'a Vec<DocNode>, use_color: bool, private: bool) -> (printer: Self)
        ensures
            printer.doc_nodes == doc_nodes,
            printer.use_color == use_color,
            printer.private == private,
    {
        DocPrinter { doc_nodes, use_color, private }
    }

    /// The declarations as lines of text.
    pub fn format(&self) -> (out: String)
        ensures
            out@ == rendered(self.doc_nodes.deep_view(), self.private, false, self.use_color),
    {
        render(self.doc_nodes, self.private, false, self.use_color)
    }
}

} // verus!
