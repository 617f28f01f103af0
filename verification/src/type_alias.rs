//! Type aliases.

use vstd::prelude::*;
use crate::ast::{ParsedSource, TsTypeAliasDecl, TsTypeAliasDeclView};
use crate::ts_type::{TsTypeDef, TsTypeView};
use crate::ts_type_param::{TsTypeParamDef, TsTypeParamView};

verus! {

/// A type alias: the aliased type expression and the alias's type parameters.
#[derive(Debug, PartialEq, Eq)]
pub struct TypeAliasDef {
    pub ts_type: TsTypeDef,
    pub type_params: Vec<TsTypeParamDef>,
}

/// The mathematical value of a [`TypeAliasDef`].
pub ghost struct TypeAliasView {
    pub ts_type: TsTypeView,
    pub type_params: Seq<TsTypeParamView>,
}

impl DeepView for TypeAliasDef {
    type V = TypeAliasView;

    open spec fn deep_view(&self) -> TypeAliasView {
        TypeAliasView {
            ts_type: self.ts_type.deep_view(),
            type_params: self.type_params.deep_view(),
        }
    }
}

impl Clone for TypeAliasDef {
    fn clone(&self) -> (r: Self)
        ensures
            r.deep_view() == self.deep_view(),
    {
        let r = TypeAliasDef {
            ts_type: self.ts_type.clone(),
            type_params: self.type_params.clone(),
        };
        assert(r.type_params.deep_view() =~= self.type_params.deep_view());
        r
    }
}

/// What a type alias declaration defines: the aliased type and the alias's
/// type parameters, both as written.
pub open spec fn type_alias_def_of(decl: TsTypeAliasDeclView) -> TypeAliasView {
    TypeAliasView { ts_type: decl.type_ann, type_params: decl.type_params }
}

/// Reads a type alias declaration: its name and what it defines.
pub fn get_doc_for_ts_type_alias_decl(
    _parsed_source: &ParsedSource,
    type_alias_decl: &TsTypeAliasDecl,
) -> (r: (String, TypeAliasDef))
    ensures
        r.0@ == type_alias_decl.id@,
        r.1.deep_view() == type_alias_def_of(type_alias_decl.deep_view()),
{
    let alias_name = type_alias_decl.id.clone();
    let ts_type = type_alias_decl.type_ann.clone();
    let type_params = type_alias_decl.type_params.clone();
    assert(type_params.deep_view() =~= type_alias_decl.type_params.deep_view());
    let type_alias_def = TypeAliasDef { ts_type, type_params };
    (alias_name, type_alias_def)
}

} // verus!
