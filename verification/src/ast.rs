//! The syntax of a parsed module, as far as documentation reads it.
//!
//! A parser outside this library produces these values. Positions count
//! characters from the start of the module's text.

use vstd::prelude::*;
use crate::enums::{EnumMemberDef, EnumMemberView};
use crate::function::{FunctionDef, FunctionView};
use crate::interface::{
    InterfaceCallSignatureDef, InterfaceCallSignatureView, InterfaceIndexSignatureDef,
    InterfaceIndexSignatureView,
};
use crate::params::{ParamDef, ParamView};
use crate::ts_type::{TsTypeDef, TsTypeView};
use crate::ts_type_param::{TsTypeParamDef, TsTypeParamView};

verus! {

/// The part of a module's text that a piece of syntax covers.
#[derive(Debug, Clone, Copy, PartialEq, Eq)]
pub struct Span {
    pub start: usize,
    pub end: usize,
}

/// The text of one module and the name it was loaded under.
#[derive(Debug, PartialEq, Eq)]
pub struct ParsedSource {
    pub specifier: String,
    pub text: Vec<char>,
}

/// The mathematical value of a [`ParsedSource`].
pub ghost struct ParsedSourceView {
    pub specifier: Seq<char>,
    pub text: Seq<char>,
}

impl DeepView for ParsedSource {
    type V = ParsedSourceView;

    open spec fn deep_view(&self) -> ParsedSourceView {
        ParsedSourceView { specifier: self.specifier@, text: self.text@ }
    }
}

/// `function name(...) { ... }`
#[derive(Debug, PartialEq, Eq)]
pub struct FnDecl {
    pub name: String,
    pub function: FunctionDef,
}

/// The mathematical value of a [`FnDecl`].
pub ghost struct FnDeclView {
    pub name: Seq<char>,
    pub function: FunctionView,
}

impl DeepView for FnDecl {
    type V = FnDeclView;

    open spec fn deep_view(&self) -> FnDeclView {
        FnDeclView { name: self.name@, function: self.function.deep_view() }
    }
}

/// One variable of a `var`, `let` or `const` statement.
#[derive(Debug, PartialEq, Eq)]
pub struct VarDeclarator {
    pub name: String,
    pub ts_type: Option<TsTypeDef>,
    pub has_initializer: bool,
}

/// The mathematical value of a [`VarDeclarator`].
pub ghost struct VarDeclaratorView {
    pub name: Seq<char>,
    pub ts_type: Option<TsTypeView>,
    pub has_initializer: bool,
}

impl DeepView for VarDeclarator {
    type V = VarDeclaratorView;

    open spec fn deep_view(&self) -> VarDeclaratorView {
        VarDeclaratorView {
            name: self.name@,
            ts_type: self.ts_type.deep_view(),
            has_initializer: self.has_initializer,
        }
    }
}

/// A `var`, `let` or `const` statement: its variables in source order.
#[derive(Debug, PartialEq, Eq)]
pub struct VarDecl {
    pub declarators: Vec<VarDeclarator>,
}

/// The mathematical value of a [`VarDecl`].
pub ghost struct VarDeclView {
    pub declarators: Seq<VarDeclaratorView>,
}

impl DeepView for VarDecl {
    type V = VarDeclView;

    open spec fn deep_view(&self) -> VarDeclView {
        VarDeclView { declarators: self.declarators.deep_view() }
    }
}

/// One member of a class body.
#[derive(Debug, PartialEq, Eq)]
pub enum ClassMember {
    Constructor { span: Span, is_private: bool, params: Vec<ParamDef> },
    Method { span: Span, name: String, is_private: bool, is_static: bool, function: FunctionDef },
    Property {
        span: Span,
        name: String,
        is_private: bool,
        is_static: bool,
        readonly: bool,
        ts_type: Option<TsTypeDef>,
    },
    /// A member that documentation does not cover, such as a static block.
    Other,
}

/// The mathematical value of a [`ClassMember`].
pub ghost enum ClassMemberView {
    Constructor { span: Span, is_private: bool, params: Seq<ParamView> },
    Method {
        span: Span,
        name: Seq<char>,
        is_private: bool,
        is_static: bool,
        function: FunctionView,
    },
    Property {
        span: Span,
        name: Seq<char>,
        is_private: bool,
        is_static: bool,
        readonly: bool,
        ts_type: Option<TsTypeView>,
    },
    Other,
}

impl DeepView for ClassMember {
    type V = ClassMemberView;

    open spec fn deep_view(&self) -> ClassMemberView {
        match self {
            ClassMember::Constructor { span, is_private, params } => ClassMemberView::Constructor {
                span: *span,
                is_private: *is_private,
                params: params.deep_view(),
            },
            ClassMember::Method { span, name, is_private, is_static, function } => {
                ClassMemberView::Method {
                    span: *span,
                    name: name@,
                    is_private: *is_private,
                    is_static: *is_static,
                    function: function.deep_view(),
                }
            },
            ClassMember::Property { span, name, is_private, is_static, readonly, ts_type } => {
                ClassMemberView::Property {
                    span: *span,
                    name: name@,
                    is_private: *is_private,
                    is_static: *is_static,
                    readonly: *readonly,
                    ts_type: ts_type.deep_view(),
                }
            },
            ClassMember::Other => ClassMemberView::Other,
        }
    }
}

/// `class name<type_params> extends ... implements ... { members }`
#[derive(Debug, PartialEq, Eq)]
pub struct ClassDecl {
    pub name: String,
    pub extends: Option<String>,
    pub implements: Vec<String>,
    pub type_params: Vec<TsTypeParamDef>,
    pub members: Vec<ClassMember>,
}

/// The mathematical value of a [`ClassDecl`].
pub ghost struct ClassDeclView {
    pub name: Seq<char>,
    pub extends: Option<Seq<char>>,
    pub implements: Seq<Seq<char>>,
    pub type_params: Seq<TsTypeParamView>,
    pub members: Seq<ClassMemberView>,
}

impl DeepView for ClassDecl {
    type V = ClassDeclView;

    open spec fn deep_view(&self) -> ClassDeclView {
        ClassDeclView {
            name: self.name@,
            extends: self.extends.deep_view(),
            implements: self.implements.deep_view(),
            type_params: self.type_params.deep_view(),
            members: self.members.deep_view(),
        }
    }
}

/// One member of an interface body.
#[derive(Debug, PartialEq, Eq)]
pub enum InterfaceMember {
    Method { span: Span, name: String, function: FunctionDef },
    Property { span: Span, name: String, optional: bool, ts_type: Option<TsTypeDef> },
    Call(InterfaceCallSignatureDef),
    Index(InterfaceIndexSignatureDef),
    /// A member that documentation does not cover.
    Other,
}

/// The mathematical value of an [`InterfaceMember`].
pub ghost enum InterfaceMemberView {
    Method { span: Span, name: Seq<char>, function: FunctionView },
    Property { span: Span, name: Seq<char>, optional: bool, ts_type: Option<TsTypeView> },
    Call(InterfaceCallSignatureView),
    Index(InterfaceIndexSignatureView),
    Other,
}

impl DeepView for InterfaceMember {
    type V = InterfaceMemberView;

    open spec fn deep_view(&self) -> InterfaceMemberView {
        match self {
            InterfaceMember::Method { span, name, function } => InterfaceMemberView::Method {
                span: *span,
                name: name@,
                function: function.deep_view(),
            },
            InterfaceMember::Property { span, name, optional, ts_type } => {
                InterfaceMemberView::Property {
                    span: *span,
                    name: name@,
                    optional: *optional,
                    ts_type: ts_type.deep_view(),
                }
            },
            InterfaceMember::Call(signature) => InterfaceMemberView::Call(signature.deep_view()),
            InterfaceMember::Index(signature) => InterfaceMemberView::Index(signature.deep_view()),
            InterfaceMember::Other => InterfaceMemberView::Other,
        }
    }
}

/// `interface name<type_params> extends ... { members }`
#[derive(Debug, PartialEq, Eq)]
pub struct InterfaceDecl {
    pub name: String,
    pub extends: Vec<String>,
    pub type_params: Vec<TsTypeParamDef>,
    pub members: Vec<InterfaceMember>,
}

/// The mathematical value of an [`InterfaceDecl`].
pub ghost struct InterfaceDeclView {
    pub name: Seq<char>,
    pub extends: Seq<Seq<char>>,
    pub type_params: Seq<TsTypeParamView>,
    pub members: Seq<InterfaceMemberView>,
}

impl DeepView for InterfaceDecl {
    type V = InterfaceDeclView;

    open spec fn deep_view(&self) -> InterfaceDeclView {
        InterfaceDeclView {
            name: self.name@,
            extends: self.extends.deep_view(),
            type_params: self.type_params.deep_view(),
            members: self.members.deep_view(),
        }
    }
}

/// `enum name { members }`
#[derive(Debug, PartialEq, Eq)]
pub struct EnumDecl {
    pub name: String,
    pub members: Vec<EnumMemberDef>,
}

/// The mathematical value of an [`EnumDecl`].
pub ghost struct EnumDeclView {
    pub name: Seq<char>,
    pub members: Seq<EnumMemberView>,
}

impl DeepView for EnumDecl {
    type V = EnumDeclView;

    open spec fn deep_view(&self) -> EnumDeclView {
        EnumDeclView { name: self.name@, members: self.members.deep_view() }
    }
}

/// `type id<type_params> = type_ann`
#[derive(Debug, PartialEq, Eq)]
pub struct TsTypeAliasDecl {
    pub id: String,
    pub type_ann: TsTypeDef,
    pub type_params: Vec<TsTypeParamDef>,
}

/// The mathematical value of a [`TsTypeAliasDecl`].
pub ghost struct TsTypeAliasDeclView {
    pub id: Seq<char>,
    pub type_ann: TsTypeView,
    pub type_params: Seq<TsTypeParamView>,
}

impl DeepView for TsTypeAliasDecl {
    type V = TsTypeAliasDeclView;

    open spec fn deep_view(&self) -> TsTypeAliasDeclView {
        TsTypeAliasDeclView {
            id: self.id@,
            type_ann: self.type_ann.deep_view(),
            type_params: self.type_params.deep_view(),
        }
    }
}

/// The name of a `module` or `namespace` declaration.
#[derive(Debug, PartialEq, Eq)]
pub enum TsModuleName {
    /// `namespace name`
    Ident(String),
    /// `module "name"`
    Str(String),
}

/// The mathematical value of a [`TsModuleName`].
pub ghost enum TsModuleNameView {
    Ident(Seq<char>),
    Str(Seq<char>),
}

impl DeepView for TsModuleName {
    type V = TsModuleNameView;

    open spec fn deep_view(&self) -> TsModuleNameView {
        match self {
            TsModuleName::Ident(name) => TsModuleNameView::Ident(name@),
            TsModuleName::Str(name) => TsModuleNameView::Str(name@),
        }
    }
}

/// The body of a namespace.
#[derive(Debug, PartialEq, Eq)]
pub enum TsNamespaceBody {
    /// `{ statements }`
    TsModuleBlock(Vec<ModuleItem>),
    /// The `.B { ... }` of `namespace A.B { ... }`: one nested namespace.
    TsNamespaceDecl(TsNamespaceDecl),
}

/// The mathematical value of a [`TsNamespaceBody`].
pub ghost enum TsNamespaceBodyView {
    TsModuleBlock(Seq<ModuleItemView>),
    TsNamespaceDecl(TsNamespaceDeclView),
}

/// The nested part of a dotted namespace declaration.
#[derive(Debug, PartialEq, Eq)]
pub struct TsNamespaceDecl {
    pub span: Span,
    pub id: String,
    pub body: Box<TsNamespaceBody>,
}

/// The mathematical value of a [`TsNamespaceDecl`].
pub ghost struct TsNamespaceDeclView {
    pub span: Span,
    pub id: Seq<char>,
    pub body: Box<TsNamespaceBodyView>,
}

/// `namespace id { ... }` or `module "id" { ... }`; the body may be missing.
#[derive(Debug, PartialEq, Eq)]
pub struct TsModuleDecl {
    pub id: TsModuleName,
    pub body: Option<TsNamespaceBody>,
}

/// The mathematical value of a [`TsModuleDecl`].
pub ghost struct TsModuleDeclView {
    pub id: TsModuleNameView,
    pub body: Option<TsNamespaceBodyView>,
}

/// A declaration, by family.
#[derive(Debug, PartialEq, Eq)]
pub enum Decl {
    Function(FnDecl),
    Variable(VarDecl),
    Class(ClassDecl),
    Interface(InterfaceDecl),
    Enum(EnumDecl),
    TypeAlias(TsTypeAliasDecl),
    Module(TsModuleDecl),
}

/// The mathematical value of a [`Decl`].
pub ghost enum DeclView {
    Function(FnDeclView),
    Variable(VarDeclView),
    Class(ClassDeclView),
    Interface(InterfaceDeclView),
    Enum(EnumDeclView),
    TypeAlias(TsTypeAliasDeclView),
    Module(TsModuleDeclView),
}

/// A declaration statement with its modifiers.
#[derive(Debug, PartialEq, Eq)]
pub struct DeclStatement {
    pub span: Span,
    /// Whether the statement begins with `export`.
    pub exported: bool,
    /// Whether the declaration is ambient (`declare ...`).
    pub declare: bool,
    pub decl: Decl,
}

/// The mathematical value of a [`DeclStatement`].
pub ghost struct DeclStatementView {
    pub span: Span,
    pub exported: bool,
    pub declare: bool,
    pub decl: DeclView,
}

/// One name of an `import` statement.
#[derive(Debug, PartialEq, Eq)]
pub struct ImportSpecifier {
    /// The name in the module imported from.
    pub imported: String,
    /// The local name, where it differs.
    pub local: Option<String>,
}

/// The mathematical value of an [`ImportSpecifier`].
pub ghost struct ImportSpecifierView {
    pub imported: Seq<char>,
    pub local: Option<Seq<char>>,
}

impl DeepView for ImportSpecifier {
    type V = ImportSpecifierView;

    open spec fn deep_view(&self) -> ImportSpecifierView {
        ImportSpecifierView { imported: self.imported@, local: self.local.deep_view() }
    }
}

/// `import { specifiers } from "src"`
#[derive(Debug, PartialEq, Eq)]
pub struct ImportDecl {
    pub span: Span,
    pub src: String,
    pub specifiers: Vec<ImportSpecifier>,
}

/// The mathematical value of an [`ImportDecl`].
pub ghost struct ImportDeclView {
    pub span: Span,
    pub src: Seq<char>,
    pub specifiers: Seq<ImportSpecifierView>,
}

impl DeepView for ImportDecl {
    type V = ImportDeclView;

    open spec fn deep_view(&self) -> ImportDeclView {
        ImportDeclView {
            span: self.span,
            src: self.src@,
            specifiers: self.specifiers.deep_view(),
        }
    }
}

/// One name of an `export ... from` statement.
#[derive(Debug, PartialEq, Eq)]
pub enum ExportSpecifier {
    /// `orig` or `orig as exported`
    Named { orig: String, exported: Option<String> },
    /// `* as name`
    Namespace { name: String },
}

/// The mathematical value of an [`ExportSpecifier`].
pub ghost enum ExportSpecifierView {
    Named { orig: Seq<char>, exported: Option<Seq<char>> },
    Namespace { name: Seq<char> },
}

impl DeepView for ExportSpecifier {
    type V = ExportSpecifierView;

    open spec fn deep_view(&self) -> ExportSpecifierView {
        match self {
            ExportSpecifier::Named { orig, exported } => ExportSpecifierView::Named {
                orig: orig@,
                exported: exported.deep_view(),
            },
            ExportSpecifier::Namespace { name } => ExportSpecifierView::Namespace { name: name@ },
        }
    }
}

/// One top-level statement of a module or of a namespace body.
#[derive(Debug, PartialEq, Eq)]
pub enum ModuleItem {
    Decl(DeclStatement),
    Import(ImportDecl),
    /// `export { specifiers } from "src"`
    ExportNamed { src: String, specifiers: Vec<ExportSpecifier> },
    /// `export * from "src"`
    ExportAll { src: String },
    /// Any other statement.
    Other,
}

/// The mathematical value of a [`ModuleItem`].
pub ghost enum ModuleItemView {
    Decl(DeclStatementView),
    Import(ImportDeclView),
    ExportNamed { src: Seq<char>, specifiers: Seq<ExportSpecifierView> },
    ExportAll { src: Seq<char> },
    Other,
}

/// The value of one statement.
pub open spec fn module_item_view(item: ModuleItem) -> ModuleItemView
    decreases item,
{
    match item {
        ModuleItem::Decl(stmt) => ModuleItemView::Decl(
            DeclStatementView {
                span: stmt.span,
                exported: stmt.exported,
                declare: stmt.declare,
                decl: decl_view(stmt.decl),
            },
        ),
        ModuleItem::Import(decl) => ModuleItemView::Import(decl.deep_view()),
        ModuleItem::ExportNamed { src, specifiers } => ModuleItemView::ExportNamed {
            src: src@,
            specifiers: specifiers.deep_view(),
        },
        ModuleItem::ExportAll { src } => ModuleItemView::ExportAll { src: src@ },
        ModuleItem::Other => ModuleItemView::Other,
    }
}

/// The value of one declaration.
pub open spec fn decl_view(decl: Decl) -> DeclView
    decreases decl,
{
    match decl {
        Decl::Function(d) => DeclView::Function(d.deep_view()),
        Decl::Variable(d) => DeclView::Variable(d.deep_view()),
        Decl::Class(d) => DeclView::Class(d.deep_view()),
        Decl::Interface(d) => DeclView::Interface(d.deep_view()),
        Decl::Enum(d) => DeclView::Enum(d.deep_view()),
        Decl::TypeAlias(d) => DeclView::TypeAlias(d.deep_view()),
        Decl::Module(d) => DeclView::Module(
            TsModuleDeclView {
                id: d.id.deep_view(),
                body: match d.body {
                    Some(body) => Some(ts_namespace_body_view(body)),
                    None => None,
                },
            },
        ),
    }
}

/// The value of one namespace body.
pub open spec fn ts_namespace_body_view(body: TsNamespaceBody) -> TsNamespaceBodyView
    decreases body,
{
    match body {
        TsNamespaceBody::TsModuleBlock(items) => TsNamespaceBodyView::TsModuleBlock(
            module_item_list_view(items),
        ),
        TsNamespaceBody::TsNamespaceDecl(decl) => TsNamespaceBodyView::TsNamespaceDecl(
            TsNamespaceDeclView {
                span: decl.span,
                id: decl.id@,
                body: Box::new(ts_namespace_body_view(*decl.body)),
            },
        ),
    }
}

/// The values of a list of statements, in order.
pub open spec fn module_item_list_view(items: Vec<ModuleItem>) -> Seq<ModuleItemView>
    decreases items,
{
    Seq::new(
        items@.len(),
        |i: int|
            if 0 <= i < items@.len() {
                module_item_view(items@[i])
            } else {
                ModuleItemView::Other
            },
    )
}

impl DeepView for ModuleItem {
    type V = ModuleItemView;

    open spec fn deep_view(&self) -> ModuleItemView {
        module_item_view(*self)
    }
}

impl DeepView for Decl {
    type V = DeclView;

    open spec fn deep_view(&self) -> DeclView {
        decl_view(*self)
    }
}

impl DeepView for DeclStatement {
    type V = DeclStatementView;

    open spec fn deep_view(&self) -> DeclStatementView {
        DeclStatementView {
            span: self.span,
            exported: self.exported,
            declare: self.declare,
            decl: self.decl.deep_view(),
        }
    }
}

impl DeepView for TsNamespaceBody {
    type V = TsNamespaceBodyView;

    open spec fn deep_view(&self) -> TsNamespaceBodyView {
        ts_namespace_body_view(*self)
    }
}

impl DeepView for TsNamespaceDecl {
    type V = TsNamespaceDeclView;

    open spec fn deep_view(&self) -> TsNamespaceDeclView {
        TsNamespaceDeclView {
            span: self.span,
            id: self.id@,
            body: Box::new(ts_namespace_body_view(*self.body)),
        }
    }
}

impl DeepView for TsModuleDecl {
    type V = TsModuleDeclView;

    open spec fn deep_view(&self) -> TsModuleDeclView {
        TsModuleDeclView { id: self.id.deep_view(), body: self.body.deep_view() }
    }
}

/// The list view used inside [`module_item_view`] is the deep view of the
/// vector.
pub proof fn lemma_module_item_list_view(items: Vec<ModuleItem>)
    ensures
        module_item_list_view(items) == items.deep_view(),
{
    assert(module_item_list_view(items) =~= items.deep_view());
}

/// One module: its source and its top-level statements in source order.
#[derive(Debug, PartialEq, Eq)]
pub struct ParsedModule {
    pub source: ParsedSource,
    pub body: Vec<ModuleItem>,
}

/// The mathematical value of a [`ParsedModule`].
pub ghost struct ParsedModuleView {
    pub source: ParsedSourceView,
    pub body: Seq<ModuleItemView>,
}

impl DeepView for ParsedModule {
    type V = ParsedModuleView;

    open spec fn deep_view(&self) -> ParsedModuleView {
        ParsedModuleView { source: self.source.deep_view(), body: self.body.deep_view() }
    }
}

/// The modules that were loaded, each under its specifier. The source string
/// of an `import` or `export ... from` statement names a module of the graph
/// by that specifier.
#[derive(Debug, PartialEq, Eq)]
pub struct ModuleGraph {
    pub modules: Vec<ParsedModule>,
}

/// The mathematical value of a [`ModuleGraph`].
pub ghost struct ModuleGraphView {
    pub modules: Seq<ParsedModuleView>,
}

impl DeepView for ModuleGraph {
    type V = ModuleGraphView;

    open spec fn deep_view(&self) -> ModuleGraphView {
        ModuleGraphView { modules: self.modules.deep_view() }
    }
}

} // verus!
