//! Interface declarations and their members.

use vstd::prelude::*;
use crate::ast::{
    InterfaceDecl, InterfaceDeclView, InterfaceMember, InterfaceMemberView, ParsedSource,
    ParsedSourceView,
};
use crate::js_doc::{js_doc_for, js_doc_for_range};
use crate::source::{get_location, location_at};
use crate::function::{FunctionDef, FunctionView};
use crate::js_doc::{JsDoc, JsDocView};
use crate::node::{
    DeclarationKind, DocNode, DocNodeDef, DocNodeDefView, DocNodeView, Location, LocationView,
};
use crate::params::{ParamDef, ParamView};
use crate::ts_type::{TsTypeDef, TsTypeView};
use crate::ts_type_param::{TsTypeParamDef, TsTypeParamView};
use crate::variable::{VariableDef, VariableView};

verus! {

/// A method signature of an interface.
#[derive(Debug, PartialEq, Eq)]
pub struct InterfaceMethodDef {
    pub js_doc: Option<JsDoc>,
    pub name: String,
    pub function_def: FunctionDef,
    pub location: Location,
}

/// The mathematical value of an [`InterfaceMethodDef`].
pub ghost struct InterfaceMethodView {
    pub js_doc: Option<JsDocView>,
    pub name: Seq<char>,
    pub function_def: FunctionView,
    pub location: LocationView,
}

impl DeepView for InterfaceMethodDef {
    type V = InterfaceMethodView;

    open spec fn deep_view(&self) -> InterfaceMethodView {
        InterfaceMethodView {
            js_doc: self.js_doc.deep_view(),
            name: self.name@,
            function_def: self.function_def.deep_view(),
            location: self.location.deep_view(),
        }
    }
}

impl Clone for InterfaceMethodDef {
    fn clone(&self) -> (r: Self)
        ensures
            r.deep_view() == self.deep_view(),
    {
        InterfaceMethodDef {
            js_doc: self.js_doc.clone(),
            name: self.name.clone(),
            function_def: self.function_def.clone(),
            location: self.location.clone(),
        }
    }
}

/// The declaration that an interface method stands for when it is looked at on
/// its own. Members of an interface are always visible.
pub open spec fn interface_method_node(m: InterfaceMethodView) -> DocNodeView {
    DocNodeView {
        name: m.name,
        location: m.location,
        declaration_kind: DeclarationKind::Export,
        js_doc: m.js_doc,
        def: DocNodeDefView::Function(m.function_def),
    }
}

impl InterfaceMethodDef {
    /// Turns the method signature into a declaration of its own.
    pub fn into_doc_node(self) -> (r: DocNode)
        ensures
            r.deep_view() == interface_method_node(self.deep_view()),
    {
        DocNode {
            name: self.name,
            location: self.location,
            declaration_kind: DeclarationKind::Export,
            js_doc: self.js_doc,
            def: DocNodeDef::Function(self.function_def),
        }
    }
}

/// A property signature of an interface.
#[derive(Debug, PartialEq, Eq)]
pub struct InterfacePropertyDef {
    pub js_doc: Option<JsDoc>,
    pub name: String,
    pub ts_type: Option<TsTypeDef>,
    pub optional: bool,
    pub location: Location,
}

/// The mathematical value of an [`InterfacePropertyDef`].
pub ghost struct InterfacePropertyView {
    pub js_doc: Option<JsDocView>,
    pub name: Seq<char>,
    pub ts_type: Option<TsTypeView>,
    pub optional: bool,
    pub location: LocationView,
}

impl DeepView for InterfacePropertyDef {
    type V = InterfacePropertyView;

    open spec fn deep_view(&self) -> InterfacePropertyView {
        InterfacePropertyView {
            js_doc: self.js_doc.deep_view(),
            name: self.name@,
            ts_type: self.ts_type.deep_view(),
            optional: self.optional,
            location: self.location.deep_view(),
        }
    }
}

impl Clone for InterfacePropertyDef {
    fn clone(&self) -> (r: Self)
        ensures
            r.deep_view() == self.deep_view(),
    {
        InterfacePropertyDef {
            js_doc: self.js_doc.clone(),
            name: self.name.clone(),
            ts_type: self.ts_type.clone(),
            optional: self.optional,
            location: self.location.clone(),
        }
    }
}

/// The declaration that an interface property stands for when it is looked at
/// on its own. Members of an interface are always visible.
pub open spec fn interface_property_node(p: InterfacePropertyView) -> DocNodeView {
    DocNodeView {
        name: p.name,
        location: p.location,
        declaration_kind: DeclarationKind::Export,
        js_doc: p.js_doc,
        def: DocNodeDefView::Variable(VariableView { ts_type: p.ts_type, has_initializer: false }),
    }
}

impl InterfacePropertyDef {
    /// Turns the property signature into a declaration of its own.
    pub fn into_doc_node(self) -> (r: DocNode)
        ensures
            r.deep_view() == interface_property_node(self.deep_view()),
    {
        DocNode {
            name: self.name,
            location: self.location,
            declaration_kind: DeclarationKind::Export,
            js_doc: self.js_doc,
            def: DocNodeDef::Variable(
                VariableDef { ts_type: self.ts_type, has_initializer: false },
            ),
        }
    }
}

/// A call signature of an interface: `(params): return_type`.
#[derive(Debug, PartialEq, Eq)]
pub struct InterfaceCallSignatureDef {
    pub params: Vec<ParamDef>,
    pub return_type: Option<TsTypeDef>,
}

/// The mathematical value of an [`InterfaceCallSignatureDef`].
pub ghost struct InterfaceCallSignatureView {
    pub params: Seq<ParamView>,
    pub return_type: Option<TsTypeView>,
}

impl DeepView for InterfaceCallSignatureDef {
    type V = InterfaceCallSignatureView;

    open spec fn deep_view(&self) -> InterfaceCallSignatureView {
        InterfaceCallSignatureView {
            params: self.params.deep_view(),
            return_type: self.return_type.deep_view(),
        }
    }
}

impl Clone for InterfaceCallSignatureDef {
    fn clone(&self) -> (r: Self)
        ensures
            r.deep_view() == self.deep_view(),
    {
        let r = InterfaceCallSignatureDef {
            params: self.params.clone(),
            return_type: self.return_type.clone(),
        };
        assert(r.params.deep_view() =~= self.params.deep_view());
        r
    }
}

/// An index signature of an interface: `[params]: value_type`.
#[derive(Debug, PartialEq, Eq)]
pub struct InterfaceIndexSignatureDef {
    pub params: Vec<ParamDef>,
    pub value_type: Option<TsTypeDef>,
    pub readonly: bool,
}

/// The mathematical value of an [`InterfaceIndexSignatureDef`].
pub ghost struct InterfaceIndexSignatureView {
    pub params: Seq<ParamView>,
    pub value_type: Option<TsTypeView>,
    pub readonly: bool,
}

impl DeepView for InterfaceIndexSignatureDef {
    type V = InterfaceIndexSignatureView;

    open spec fn deep_view(&self) -> InterfaceIndexSignatureView {
        InterfaceIndexSignatureView {
            params: self.params.deep_view(),
            value_type: self.value_type.deep_view(),
            readonly: self.readonly,
        }
    }
}

impl Clone for InterfaceIndexSignatureDef {
    fn clone(&self) -> (r: Self)
        ensures
            r.deep_view() == self.deep_view(),
    {
        let r = InterfaceIndexSignatureDef {
            params: self.params.clone(),
            value_type: self.value_type.clone(),
            readonly: self.readonly,
        };
        assert(r.params.deep_view() =~= self.params.deep_view());
        r
    }
}

/// An interface: its members by family, each family in source order.
#[derive(Debug, PartialEq, Eq)]
pub struct InterfaceDef {
    /// The extended interfaces, by the names written in source.
    pub extends: Vec<String>,
    pub methods: Vec<InterfaceMethodDef>,
    pub properties: Vec<InterfacePropertyDef>,
    pub call_signatures: Vec<InterfaceCallSignatureDef>,
    pub index_signatures: Vec<InterfaceIndexSignatureDef>,
    pub type_params: Vec<TsTypeParamDef>,
}

/// The mathematical value of an [`InterfaceDef`].
pub ghost struct InterfaceView {
    pub extends: Seq<Seq<char>>,
    pub methods: Seq<InterfaceMethodView>,
    pub properties: Seq<InterfacePropertyView>,
    pub call_signatures: Seq<InterfaceCallSignatureView>,
    pub index_signatures: Seq<InterfaceIndexSignatureView>,
    pub type_params: Seq<TsTypeParamView>,
}

impl DeepView for InterfaceDef {
    type V = InterfaceView;

    open spec fn deep_view(&self) -> InterfaceView {
        InterfaceView {
            extends: self.extends.deep_view(),
            methods: self.methods.deep_view(),
            properties: self.properties.deep_view(),
            call_signatures: self.call_signatures.deep_view(),
            index_signatures: self.index_signatures.deep_view(),
            type_params: self.type_params.deep_view(),
        }
    }
}

impl Clone for InterfaceDef {
    fn clone(&self) -> (r: Self)
        ensures
            r.deep_view() == self.deep_view(),
    {
        let r = InterfaceDef {
            extends: self.extends.clone(),
            methods: self.methods.clone(),
            properties: self.properties.clone(),
            call_signatures: self.call_signatures.clone(),
            index_signatures: self.index_signatures.clone(),
            type_params: self.type_params.clone(),
        };
        assert(r.extends.deep_view() =~= self.extends.deep_view());
        assert(r.methods.deep_view() =~= self.methods.deep_view());
        assert(r.properties.deep_view() =~= self.properties.deep_view());
        assert(r.call_signatures.deep_view() =~= self.call_signatures.deep_view());
        assert(r.index_signatures.deep_view() =~= self.index_signatures.deep_view());
        assert(r.type_params.deep_view() =~= self.type_params.deep_view());
        r
    }
}

/// Reads a member as a method signature, if it is one.
pub open spec fn interface_method_of(src: ParsedSourceView) -> spec_fn(
    InterfaceMemberView,
) -> Option<InterfaceMethodView> {
    |m: InterfaceMemberView|
        match m {
            InterfaceMemberView::Method { span, name, function } => Some(
                InterfaceMethodView {
                    js_doc: js_doc_for_range(src.text, span.start as int),
                    name,
                    function_def: function,
                    location: location_at(src.specifier, src.text, span.start as int),
                },
            ),
            _ => None,
        }
}

/// Reads a member as a property signature, if it is one.
pub open spec fn interface_property_of(src: ParsedSourceView) -> spec_fn(
    InterfaceMemberView,
) -> Option<InterfacePropertyView> {
    |m: InterfaceMemberView|
        match m {
            InterfaceMemberView::Property { span, name, optional, ts_type } => Some(
                InterfacePropertyView {
                    js_doc: js_doc_for_range(src.text, span.start as int),
                    name,
                    ts_type,
                    optional,
                    location: location_at(src.specifier, src.text, span.start as int),
                },
            ),
            _ => None,
        }
}

/// Reads a member as a call signature, if it is one.
pub open spec fn interface_call_of() -> spec_fn(InterfaceMemberView) -> Option<
    InterfaceCallSignatureView,
> {
    |m: InterfaceMemberView|
        match m {
            InterfaceMemberView::Call(signature) => Some(signature),
            _ => None,
        }
}

/// Reads a member as an index signature, if it is one.
pub open spec fn interface_index_of() -> spec_fn(InterfaceMemberView) -> Option<
    InterfaceIndexSignatureView,
> {
    |m: InterfaceMemberView|
        match m {
            InterfaceMemberView::Index(signature) => Some(signature),
            _ => None,
        }
}

/// What an interface declaration defines: its members by family, each family
/// in source order, and the names it extends, as written.
pub open spec fn interface_def_of(src: ParsedSourceView, decl: InterfaceDeclView) -> InterfaceView {
    InterfaceView {
        extends: decl.extends,
        methods: decl.members.filter_map(interface_method_of(src)),
        properties: decl.members.filter_map(interface_property_of(src)),
        call_signatures: decl.members.filter_map(interface_call_of()),
        index_signatures: decl.members.filter_map(interface_index_of()),
        type_params: decl.type_params,
    }
}

/// Reads an interface declaration: its name and what it defines.
pub fn get_doc_for_ts_interface_decl(
    parsed_source: &ParsedSource,
    interface_decl: &InterfaceDecl,
) -> (r: (String, InterfaceDef))
    ensures
        r.0@ == interface_decl.name@,
        r.1.deep_view() == interface_def_of(
            parsed_source.deep_view(),
            interface_decl.deep_view(),
        ),
{
    let ghost src = parsed_source.deep_view();
    let ghost members = interface_decl.members.deep_view();
    let mut methods: Vec<InterfaceMethodDef> = Vec::new();
    let mut properties: Vec<InterfacePropertyDef> = Vec::new();
    let mut call_signatures: Vec<InterfaceCallSignatureDef> = Vec::new();
    let mut index_signatures: Vec<InterfaceIndexSignatureDef> = Vec::new();
    let mut i: usize = 0;
    assert(members.take(0) =~= Seq::empty());
    while i < interface_decl.members.len()
        invariant
            i <= members.len(),
            members == interface_decl.members.deep_view(),
            src == parsed_source.deep_view(),
            methods.deep_view() == members.take(i as int).filter_map(interface_method_of(src)),
            properties.deep_view() == members.take(i as int).filter_map(
                interface_property_of(src),
            ),
            call_signatures.deep_view() == members.take(i as int).filter_map(interface_call_of()),
            index_signatures.deep_view() == members.take(i as int).filter_map(
                interface_index_of(),
            ),
        decreases members.len() - i,
    {
        proof {
            members.lemma_filter_map_take_succ(interface_method_of(src), i as int);
            members.lemma_filter_map_take_succ(interface_property_of(src), i as int);
            members.lemma_filter_map_take_succ(interface_call_of(), i as int);
            members.lemma_filter_map_take_succ(interface_index_of(), i as int);
        }
        match &interface_decl.members[i] {
            InterfaceMember::Method { span, name, function } => {
                let ghost before = methods.deep_view();
                let method = InterfaceMethodDef {
                    js_doc: js_doc_for(parsed_source, span.start),
                    name: name.clone(),
                    function_def: function.clone(),
                    location: get_location(parsed_source, span.start),
                };
                methods.push(method);
                assert(methods.deep_view() =~= before + seq![method.deep_view()]);
            },
            InterfaceMember::Property { span, name, optional, ts_type } => {
                let ghost before = properties.deep_view();
                let property = InterfacePropertyDef {
                    js_doc: js_doc_for(parsed_source, span.start),
                    name: name.clone(),
                    ts_type: ts_type.clone(),
                    optional: *optional,
                    location: get_location(parsed_source, span.start),
                };
                properties.push(property);
                assert(properties.deep_view() =~= before + seq![property.deep_view()]);
            },
            InterfaceMember::Call(signature) => {
                let ghost before = call_signatures.deep_view();
                let copied = signature.clone();
                call_signatures.push(copied);
                assert(call_signatures.deep_view() =~= before + seq![copied.deep_view()]);
            },
            InterfaceMember::Index(signature) => {
                let ghost before = index_signatures.deep_view();
                let copied = signature.clone();
                index_signatures.push(copied);
                assert(index_signatures.deep_view() =~= before + seq![copied.deep_view()]);
            },
            InterfaceMember::Other => {},
        }
        i += 1;
    }
    assert(members.take(members.len() as int) =~= members);
    let extends = interface_decl.extends.clone();
    assert(extends.deep_view() =~= interface_decl.extends.deep_view());
    let type_params = interface_decl.type_params.clone();
    assert(type_params.deep_view() =~= interface_decl.type_params.deep_view());
    let interface_def = InterfaceDef {
        extends,
        methods,
        properties,
        call_signatures,
        index_signatures,
        type_params,
    };
    (interface_decl.name.clone(), interface_def)
}

} // verus!
