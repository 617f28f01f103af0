//! Type parameters of generic declarations.

use vstd::prelude::*;
use crate::ts_type::{TsTypeDef, TsTypeView};

verus! {

/// One type parameter: `name extends constraint = default`.
#[derive(Debug, PartialEq, Eq)]
pub struct TsTypeParamDef {
    pub name: String,
    pub constraint: Option<TsTypeDef>,
    pub default: Option<TsTypeDef>,
}

/// The mathematical value of a [`TsTypeParamDef`].
pub ghost struct TsTypeParamView {
    pub name: Seq<char>,
    pub constraint: Option<TsTypeView>,
    pub default: Option<TsTypeView>,
}

impl DeepView for TsTypeParamDef {
    type V = TsTypeParamView;

    open spec fn deep_view(&self) -> TsTypeParamView {
        TsTypeParamView {
            name: self.name@,
            constraint: self.constraint.deep_view(),
            default: self.default.deep_view(),
        }
    }
}

impl Clone for TsTypeParamDef {
    fn clone(&self) -> (r: Self)
        ensures
            r.deep_view() == self.deep_view(),
    {
        TsTypeParamDef {
            name: self.name.clone(),
            constraint: self.constraint.clone(),
            default: self.default.clone(),
        }
    }
}

} // verus!
