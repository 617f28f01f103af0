//! Parameters of functions, methods and constructors.

use vstd::prelude::*;
use crate::ts_type::{TsTypeDef, TsTypeView};

verus! {

/// The shape of a parameter that destructures its argument.
#[derive(Debug, Clone, Copy, PartialEq, Eq, Structural)]
pub enum ParamShape {
    /// `[a, b]`
    Array,
    /// `{ a, b }`
    Object,
}

/// One parameter, as declared.
#[derive(Debug, PartialEq, Eq)]
pub struct ParamDef {
    /// The parameter's name; empty where the parameter only destructures.
    pub name: String,
    /// The source text of the default value, if one is given.
    pub default: Option<String>,
    /// The declared type, if one is given.
    pub ts_type: Option<TsTypeDef>,
    /// The destructuring shape, if the parameter destructures.
    pub shape: Option<ParamShape>,
}

/// The mathematical value of a [`ParamDef`].
pub ghost struct ParamView {
    pub name: Seq<char>,
    pub default: Option<Seq<char>>,
    pub ts_type: Option<TsTypeView>,
    pub shape: Option<ParamShape>,
}

impl DeepView for ParamDef {
    type V = ParamView;

    open spec fn deep_view(&self) -> ParamView {
        ParamView {
            name: self.name@,
            default: self.default.deep_view(),
            ts_type: self.ts_type.deep_view(),
            shape: self.shape,
        }
    }
}

impl Clone for ParamDef {
    fn clone(&self) -> (r: Self)
        ensures
            r.deep_view() == self.deep_view(),
    {
        ParamDef {
            name: self.name.clone(),
            default: self.default.clone(),
            ts_type: self.ts_type.clone(),
            shape: self.shape,
        }
    }
}

} // verus!
