//! Class declarations and their members.

use vstd::prelude::*;
use crate::ast::{
    ClassDecl, ClassDeclView, ClassMember, ClassMemberView, ParsedSource, ParsedSourceView,
};
use crate::js_doc::{js_doc_for, js_doc_for_range};
use crate::source::{get_location, location_at};
use crate::function::{FunctionDef, FunctionView};
use crate::js_doc::{JsDoc, JsDocView};
use crate::node::{
    DeclarationKind, DocNode, DocNodeDef, DocNodeDefView, DocNodeView, Location, LocationView,
};
use crate::params::{ParamDef, ParamView};
use crate::ts_type::{TsTypeDef, TsTypeView};
use crate::ts_type_param::{TsTypeParamDef, TsTypeParamView};
use crate::variable::{VariableDef, VariableView};

verus! {

/// A class's constructor.
#[derive(Debug, PartialEq, Eq)]
pub struct ClassConstructorDef {
    pub js_doc: Option<JsDoc>,
    pub declaration_kind: DeclarationKind,
    pub params: Vec<ParamDef>,
    pub location: Location,
}

/// The mathematical value of a [`ClassConstructorDef`].
pub ghost struct ClassConstructorView {
    pub js_doc: Option<JsDocView>,
    pub declaration_kind: DeclarationKind,
    pub params: Seq<ParamView>,
    pub location: LocationView,
}

impl DeepView for ClassConstructorDef {
    type V = ClassConstructorView;

    open spec fn deep_view(&self) -> ClassConstructorView {
        ClassConstructorView {
            js_doc: self.js_doc.deep_view(),
            declaration_kind: self.declaration_kind,
            params: self.params.deep_view(),
            location: self.location.deep_view(),
        }
    }
}

impl Clone for ClassConstructorDef {
    fn clone(&self) -> (r: Self)
        ensures
            r.deep_view() == self.deep_view(),
    {
        let r = ClassConstructorDef {
            js_doc: self.js_doc.clone(),
            declaration_kind: self.declaration_kind,
            params: self.params.clone(),
            location: self.location.clone(),
        };
        assert(r.params.deep_view() =~= self.params.deep_view());
        r
    }
}

/// A property of a class.
#[derive(Debug, PartialEq, Eq)]
pub struct ClassPropertyDef {
    pub js_doc: Option<JsDoc>,
    pub name: String,
    pub declaration_kind: DeclarationKind,
    pub ts_type: Option<TsTypeDef>,
    pub is_static: bool,
    pub readonly: bool,
    pub location: Location,
}

/// The mathematical value of a [`ClassPropertyDef`].
pub ghost struct ClassPropertyView {
    pub js_doc: Option<JsDocView>,
    pub name: Seq<char>,
    pub declaration_kind: DeclarationKind,
    pub ts_type: Option<TsTypeView>,
    pub is_static: bool,
    pub readonly: bool,
    pub location: LocationView,
}

impl DeepView for ClassPropertyDef {
    type V = ClassPropertyView;

    open spec fn deep_view(&self) -> ClassPropertyView {
        ClassPropertyView {
            js_doc: self.js_doc.deep_view(),
            name: self.name@,
            declaration_kind: self.declaration_kind,
            ts_type: self.ts_type.deep_view(),
            is_static: self.is_static,
            readonly: self.readonly,
            location: self.location.deep_view(),
        }
    }
}

impl Clone for ClassPropertyDef {
    fn clone(&self) -> (r: Self)
        ensures
            r.deep_view() == self.deep_view(),
    {
        ClassPropertyDef {
            js_doc: self.js_doc.clone(),
            name: self.name.clone(),
            declaration_kind: self.declaration_kind,
            ts_type: self.ts_type.clone(),
            is_static: self.is_static,
            readonly: self.readonly,
            location: self.location.clone(),
        }
    }
}

/// The declaration that a class property stands for when it is looked at on
/// its own: a variable of the property's name and type.
pub open spec fn class_property_node(p: ClassPropertyView) -> DocNodeView {
    DocNodeView {
        name: p.name,
        location: p.location,
        declaration_kind: p.declaration_kind,
        js_doc: p.js_doc,
        def: DocNodeDefView::Variable(VariableView { ts_type: p.ts_type, has_initializer: false }),
    }
}

impl ClassPropertyDef {
    /// Turns the property into a declaration of its own.
    pub fn into_doc_node(self) -> (r: DocNode)
        ensures
            r.deep_view() == class_property_node(self.deep_view()),
    {
        DocNode {
            name: self.name,
            location: self.location,
            declaration_kind: self.declaration_kind,
            js_doc: self.js_doc,
            def: DocNodeDef::Variable(
                VariableDef { ts_type: self.ts_type, has_initializer: false },
            ),
        }
    }
}

/// A method of a class.
#[derive(Debug, PartialEq, Eq)]
pub struct ClassMethodDef {
    pub js_doc: Option<JsDoc>,
    pub name: String,
    pub declaration_kind: DeclarationKind,
    pub function_def: FunctionDef,
    pub is_static: bool,
    pub location: Location,
}

/// The mathematical value of a [`ClassMethodDef`].
pub ghost struct ClassMethodView {
    pub js_doc: Option<JsDocView>,
    pub name: Seq<char>,
    pub declaration_kind: DeclarationKind,
    pub function_def: FunctionView,
    pub is_static: bool,
    pub location: LocationView,
}

impl DeepView for ClassMethodDef {
    type V = ClassMethodView;

    open spec fn deep_view(&self) -> ClassMethodView {
        ClassMethodView {
            js_doc: self.js_doc.deep_view(),
            name: self.name@,
            declaration_kind: self.declaration_kind,
            function_def: self.function_def.deep_view(),
            is_static: self.is_static,
            location: self.location.deep_view(),
        }
    }
}

impl Clone for ClassMethodDef {
    fn clone(&self) -> (r: Self)
        ensures
            r.deep_view() == self.deep_view(),
    {
        ClassMethodDef {
            js_doc: self.js_doc.clone(),
            name: self.name.clone(),
            declaration_kind: self.declaration_kind,
            function_def: self.function_def.clone(),
            is_static: self.is_static,
            location: self.location.clone(),
        }
    }
}

/// The declaration that a class method stands for when it is looked at on its
/// own: a function of the method's name and signature.
pub open spec fn class_method_node(m: ClassMethodView) -> DocNodeView {
    DocNodeView {
        name: m.name,
        location: m.location,
        declaration_kind: m.declaration_kind,
        js_doc: m.js_doc,
        def: DocNodeDefView::Function(m.function_def),
    }
}

impl ClassMethodDef {
    /// Turns the method into a declaration of its own.
    pub fn into_doc_node(self) -> (r: DocNode)
        ensures
            r.deep_view() == class_method_node(self.deep_view()),
    {
        DocNode {
            name: self.name,
            location: self.location,
            declaration_kind: self.declaration_kind,
            js_doc: self.js_doc,
            def: DocNodeDef::Function(self.function_def),
        }
    }
}

/// A class: its members by family, each family in source order.
#[derive(Debug, PartialEq, Eq)]
pub struct ClassDef {
    pub constructor: Option<ClassConstructorDef>,
    pub properties: Vec<ClassPropertyDef>,
    pub methods: Vec<ClassMethodDef>,
    /// The superclass, by the name written in source.
    pub extends: Option<String>,
    /// The implemented interfaces, by the names written in source.
    pub implements: Vec<String>,
    pub type_params: Vec<TsTypeParamDef>,
}

/// The mathematical value of a [`ClassDef`].
pub ghost struct ClassView {
    pub constructor: Option<ClassConstructorView>,
    pub properties: Seq<ClassPropertyView>,
    pub methods: Seq<ClassMethodView>,
    pub extends: Option<Seq<char>>,
    pub implements: Seq<Seq<char>>,
    pub type_params: Seq<TsTypeParamView>,
}

impl DeepView for ClassDef {
    type V = ClassView;

    open spec fn deep_view(&self) -> ClassView {
        ClassView {
            constructor: self.constructor.deep_view(),
            properties: self.properties.deep_view(),
            methods: self.methods.deep_view(),
            extends: self.extends.deep_view(),
            implements: self.implements.deep_view(),
            type_params: self.type_params.deep_view(),
        }
    }
}

impl Clone for ClassDef {
    fn clone(&self) -> (r: Self)
        ensures
            r.deep_view() == self.deep_view(),
    {
        let r = ClassDef {
            constructor: self.constructor.clone(),
            properties: self.properties.clone(),
            methods: self.methods.clone(),
            extends: self.extends.clone(),
            implements: self.implements.clone(),
            type_params: self.type_params.clone(),
        };
        assert(r.properties.deep_view() =~= self.properties.deep_view());
        assert(r.methods.deep_view() =~= self.methods.deep_view());
        assert(r.implements.deep_view() =~= self.implements.deep_view());
        assert(r.type_params.deep_view() =~= self.type_params.deep_view());
        r
    }
}

/// The visibility of a class member: private members are private, all others
/// are visible wherever the class is.
pub open spec fn member_visibility(is_private: bool) -> DeclarationKind {
    if is_private {
        DeclarationKind::Private
    } else {
        DeclarationKind::Export
    }
}

/// Reads a member as a constructor, if it is one.
pub open spec fn class_constructor_of(src: ParsedSourceView) -> spec_fn(ClassMemberView) -> Option<
    ClassConstructorView,
> {
    |m: ClassMemberView|
        match m {
            ClassMemberView::Constructor { span, is_private, params } => Some(
                ClassConstructorView {
                    js_doc: js_doc_for_range(src.text, span.start as int),
                    declaration_kind: member_visibility(is_private),
                    params,
                    location: location_at(src.specifier, src.text, span.start as int),
                },
            ),
            _ => None,
        }
}

/// Reads a member as a method, if it is one.
pub open spec fn class_method_of(src: ParsedSourceView) -> spec_fn(ClassMemberView) -> Option<
    ClassMethodView,
> {
    |m: ClassMemberView|
        match m {
            ClassMemberView::Method { span, name, is_private, is_static, function } => Some(
                ClassMethodView {
                    js_doc: js_doc_for_range(src.text, span.start as int),
                    name,
                    declaration_kind: member_visibility(is_private),
                    function_def: function,
                    is_static,
                    location: location_at(src.specifier, src.text, span.start as int),
                },
            ),
            _ => None,
        }
}

/// Reads a member as a property, if it is one.
pub open spec fn class_property_of(src: ParsedSourceView) -> spec_fn(ClassMemberView) -> Option<
    ClassPropertyView,
> {
    |m: ClassMemberView|
        match m {
            ClassMemberView::Property { span, name, is_private, is_static, readonly, ts_type } => {
                Some(
                    ClassPropertyView {
                        js_doc: js_doc_for_range(src.text, span.start as int),
                        name,
                        declaration_kind: member_visibility(is_private),
                        ts_type,
                        is_static,
                        readonly,
                        location: location_at(src.specifier, src.text, span.start as int),
                    },
                )
            },
            _ => None,
        }
}

/// The first element of a sequence, if it has one.
pub open spec fn first_of<T>(s: Seq<T>) -> Option<T> {
    if s.len() > 0 {
        Some(s[0])
    } else {
        None
    }
}

/// What a class declaration defines: its methods and its properties, each
/// family in source order; the first constructor, if there is one; and the
/// names it extends and implements, as written.
pub open spec fn class_def_of(src: ParsedSourceView, decl: ClassDeclView) -> ClassView {
    ClassView {
        constructor: first_of(decl.members.filter_map(class_constructor_of(src))),
        properties: decl.members.filter_map(class_property_of(src)),
        methods: decl.members.filter_map(class_method_of(src)),
        extends: decl.extends,
        implements: decl.implements,
        type_params: decl.type_params,
    }
}

/// Reads a class declaration: its name and what it defines.
pub fn get_doc_for_class_decl(parsed_source: &ParsedSource, class_decl: &ClassDecl) -> (r: (
    String,
    ClassDef,
))
    ensures
        r.0@ == class_decl.name@,
        r.1.deep_view() == class_def_of(parsed_source.deep_view(), class_decl.deep_view()),
{
    let ghost src = parsed_source.deep_view();
    let ghost members = class_decl.members.deep_view();
    let mut constructor: Option<ClassConstructorDef> = None;
    let mut properties: Vec<ClassPropertyDef> = Vec::new();
    let mut methods: Vec<ClassMethodDef> = Vec::new();
    let mut i: usize = 0;
    assert(members.take(0) =~= Seq::empty());
    while i < class_decl.members.len()
        invariant
            i <= members.len(),
            members == class_decl.members.deep_view(),
            src == parsed_source.deep_view(),
            constructor.deep_view() == first_of(
                members.take(i as int).filter_map(class_constructor_of(src)),
            ),
            properties.deep_view() == members.take(i as int).filter_map(class_property_of(src)),
            methods.deep_view() == members.take(i as int).filter_map(class_method_of(src)),
        decreases members.len() - i,
    {
        proof {
            members.lemma_filter_map_take_succ(class_constructor_of(src), i as int);
            members.lemma_filter_map_take_succ(class_property_of(src), i as int);
            members.lemma_filter_map_take_succ(class_method_of(src), i as int);
        }
        match &class_decl.members[i] {
            ClassMember::Constructor { span, is_private, params } => {
                if constructor.is_none() {
                    let copied = params.clone();
                    assert(copied.deep_view() =~= params.deep_view());
                    constructor = Some(
                        ClassConstructorDef {
                            js_doc: js_doc_for(parsed_source, span.start),
                            declaration_kind: visibility_of_member(*is_private),
                            params: copied,
                            location: get_location(parsed_source, span.start),
                        },
                    );
                }
            },
            ClassMember::Method { span, name, is_private, is_static, function } => {
                let ghost before = methods.deep_view();
                let method = ClassMethodDef {
                    js_doc: js_doc_for(parsed_source, span.start),
                    name: name.clone(),
                    declaration_kind: visibility_of_member(*is_private),
                    function_def: function.clone(),
                    is_static: *is_static,
                    location: get_location(parsed_source, span.start),
                };
                methods.push(method);
                assert(methods.deep_view() =~= before + seq![method.deep_view()]);
            },
            ClassMember::Property { span, name, is_private, is_static, readonly, ts_type } => {
                let ghost before = properties.deep_view();
                let property = ClassPropertyDef {
                    js_doc: js_doc_for(parsed_source, span.start),
                    name: name.clone(),
                    declaration_kind: visibility_of_member(*is_private),
                    ts_type: ts_type.clone(),
                    is_static: *is_static,
                    readonly: *readonly,
                    location: get_location(parsed_source, span.start),
                };
                properties.push(property);
                assert(properties.deep_view() =~= before + seq![property.deep_view()]);
            },
            ClassMember::Other => {},
        }
        i += 1;
    }
    assert(members.take(members.len() as int) =~= members);
    let implements = class_decl.implements.clone();
    assert(implements.deep_view() =~= class_decl.implements.deep_view());
    let type_params = class_decl.type_params.clone();
    assert(type_params.deep_view() =~= class_decl.type_params.deep_view());
    let class_def = ClassDef {
        constructor,
        properties,
        methods,
        extends: class_decl.extends.clone(),
        implements,
        type_params,
    };
    (class_decl.name.clone(), class_def)
}

/// The visibility of a class member, from whether it is private.
pub fn visibility_of_member(is_private: bool) -> (kind: DeclarationKind)
    ensures
        kind == member_visibility(is_private),
{
    if is_private {
        DeclarationKind::Private
    } else {
        DeclarationKind::Export
    }
}

} // verus!
