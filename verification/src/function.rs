//! Function signatures.

use vstd::prelude::*;
use crate::ast::FnDecl;
use crate::params::{ParamDef, ParamView};
use crate::ts_type::{TsTypeDef, TsTypeView};
use crate::ts_type_param::{TsTypeParamDef, TsTypeParamView};

verus! {

/// The signature of a function or method.
#[derive(Debug, PartialEq, Eq)]
pub struct FunctionDef {
    /// The parameters, in source order.
    pub params: Vec<ParamDef>,
    /// The declared return type, if one is given.
    pub return_type: Option<TsTypeDef>,
    /// The type parameters, in source order.
    pub type_params: Vec<TsTypeParamDef>,
    pub is_async: bool,
    pub is_generator: bool,
}

/// The mathematical value of a [`FunctionDef`].
pub ghost struct FunctionView {
    pub params: Seq<ParamView>,
    pub return_type: Option<TsTypeView>,
    pub type_params: Seq<TsTypeParamView>,
    pub is_async: bool,
    pub is_generator: bool,
}

impl DeepView for FunctionDef {
    type V = FunctionView;

    open spec fn deep_view(&self) -> FunctionView {
        FunctionView {
            params: self.params.deep_view(),
            return_type: self.return_type.deep_view(),
            type_params: self.type_params.deep_view(),
            is_async: self.is_async,
            is_generator: self.is_generator,
        }
    }
}

impl Clone for FunctionDef {
    fn clone(&self) -> (r: Self)
        ensures
            r.deep_view() == self.deep_view(),
    {
        let r = FunctionDef {
            params: self.params.clone(),
            return_type: self.return_type.clone(),
            type_params: self.type_params.clone(),
            is_async: self.is_async,
            is_generator: self.is_generator,
        };
        assert(r.params.deep_view() =~= self.params.deep_view());
        assert(r.type_params.deep_view() =~= self.type_params.deep_view());
        r
    }
}

/// Reads a function declaration: its name and its signature.
pub fn get_doc_for_fn_decl(fn_decl: &FnDecl) -> (r: (String, FunctionDef))
    ensures
        r.0@ == fn_decl.name@,
        r.1.deep_view() == fn_decl.function.deep_view(),
{
    (fn_decl.name.clone(), fn_decl.function.clone())
}

} // verus!
