//! Variable declarations.

use vstd::prelude::*;
use crate::ast::{VarDeclarator, VarDeclaratorView};
use crate::ts_type::{TsTypeDef, TsTypeView};

verus! {

/// What is recorded of a declared variable.
#[derive(Debug, PartialEq, Eq)]
pub struct VariableDef {
    /// The declared type; absent where the type is inferred.
    pub ts_type: Option<TsTypeDef>,
    /// Whether the declaration has an initializer.
    pub has_initializer: bool,
}

/// The mathematical value of a [`VariableDef`].
pub ghost struct VariableView {
    pub ts_type: Option<TsTypeView>,
    pub has_initializer: bool,
}

impl DeepView for VariableDef {
    type V = VariableView;

    open spec fn deep_view(&self) -> VariableView {
        VariableView { ts_type: self.ts_type.deep_view(), has_initializer: self.has_initializer }
    }
}

impl Clone for VariableDef {
    fn clone(&self) -> (r: Self)
        ensures
            r.deep_view() == self.deep_view(),
    {
        VariableDef { ts_type: self.ts_type.clone(), has_initializer: self.has_initializer }
    }
}

/// What one variable of a declaration statement defines.
pub open spec fn variable_def_of(declarator: VarDeclaratorView) -> VariableView {
    VariableView { ts_type: declarator.ts_type, has_initializer: declarator.has_initializer }
}

/// Reads one variable of a declaration statement: its name and what it defines.
pub fn get_doc_for_var_declarator(declarator: &VarDeclarator) -> (r: (String, VariableDef))
    ensures
        r.0@ == declarator.name@,
        r.1.deep_view() == variable_def_of(declarator.deep_view()),
{
    (
        declarator.name.clone(),
        VariableDef {
            ts_type: declarator.ts_type.clone(),
            has_initializer: declarator.has_initializer,
        },
    )
}

} // verus!
