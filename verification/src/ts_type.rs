//! Type expressions, as written in source.

use vstd::prelude::*;

verus! {

/// A type expression: one case per form of the source language.
#[derive(Debug, PartialEq, Eq)]
pub enum TsTypeDef {
    /// A built-in type name such as `string` or `unknown`.
    Keyword(String),
    /// A literal type, by its source text (`"a"`, `42`, `true`).
    Literal(String),
    /// A reference to a named type without type arguments.
    Reference(String),
    /// A named type applied to type arguments.
    Generic { name: String, args: Vec<TsTypeDef> },
    /// `T[]`.
    Array(Box<TsTypeDef>),
    /// `A | B | ...`, members in source order.
    Union(Vec<TsTypeDef>),
    /// `A & B & ...`, members in source order.
    Intersection(Vec<TsTypeDef>),
    /// `check extends extends_type ? true_type : false_type`.
    Conditional {
        check: Box<TsTypeDef>,
        extends_type: Box<TsTypeDef>,
        true_type: Box<TsTypeDef>,
        false_type: Box<TsTypeDef>,
    },
    /// `{ [param in constraint]: value }`.
    Mapped { param: String, constraint: Box<TsTypeDef>, value: Box<TsTypeDef> },
}

/// The mathematical value of a [`TsTypeDef`].
pub ghost enum TsTypeView {
    Keyword(Seq<char>),
    Literal(Seq<char>),
    Reference(Seq<char>),
    Generic { name: Seq<char>, args: Seq<TsTypeView> },
    Array(Box<TsTypeView>),
    Union(Seq<TsTypeView>),
    Intersection(Seq<TsTypeView>),
    Conditional {
        check: Box<TsTypeView>,
        extends_type: Box<TsTypeView>,
        true_type: Box<TsTypeView>,
        false_type: Box<TsTypeView>,
    },
    Mapped { param: Seq<char>, constraint: Box<TsTypeView>, value: Box<TsTypeView> },
}

/// The value of one type expression.
pub open spec fn ts_type_view(t: TsTypeDef) -> TsTypeView
    decreases t,
{
    match t {
        TsTypeDef::Keyword(s) => TsTypeView::Keyword(s@),
        TsTypeDef::Literal(s) => TsTypeView::Literal(s@),
        TsTypeDef::Reference(s) => TsTypeView::Reference(s@),
        TsTypeDef::Generic { name, args } => TsTypeView::Generic {
            name: name@,
            args: ts_type_list_view(args),
        },
        TsTypeDef::Array(elem) => TsTypeView::Array(Box::new(ts_type_view(*elem))),
        TsTypeDef::Union(members) => TsTypeView::Union(ts_type_list_view(members)),
        TsTypeDef::Intersection(members) => TsTypeView::Intersection(ts_type_list_view(members)),
        TsTypeDef::Conditional { check, extends_type, true_type, false_type } => {
            TsTypeView::Conditional {
                check: Box::new(ts_type_view(*check)),
                extends_type: Box::new(ts_type_view(*extends_type)),
                true_type: Box::new(ts_type_view(*true_type)),
                false_type: Box::new(ts_type_view(*false_type)),
            }
        },
        TsTypeDef::Mapped { param, constraint, value } => TsTypeView::Mapped {
            param: param@,
            constraint: Box::new(ts_type_view(*constraint)),
            value: Box::new(ts_type_view(*value)),
        },
    }
}

/// The values of a list of type expressions, in order.
pub open spec fn ts_type_list_view(v: Vec<TsTypeDef>) -> Seq<TsTypeView>
    decreases v,
{
    Seq::new(
        v@.len(),
        |i: int|
            if 0 <= i < v@.len() {
                ts_type_view(v@[i])
            } else {
                arbitrary()
            },
    )
}

impl DeepView for TsTypeDef {
    type V = TsTypeView;

    open spec fn deep_view(&self) -> TsTypeView {
        ts_type_view(*self)
    }
}

/// The list view used inside [`ts_type_view`] is the deep view of the vector.
pub proof fn lemma_ts_type_list_view(v: Vec<TsTypeDef>)
    ensures
        ts_type_list_view(v) == v.deep_view(),
{
    assert(ts_type_list_view(v) =~= v.deep_view());
}

/// Copies a list of type expressions.
pub fn clone_ts_types(v: &Vec<TsTypeDef>) -> (r: Vec<TsTypeDef>)
    ensures
        r.deep_view() == v.deep_view(),
    decreases v,
{
    let mut r: Vec<TsTypeDef> = Vec::new();
    let mut i: usize = 0;
    while i < v.len()
        invariant
            i <= v.len(),
            r@.len() == i,
            forall|j: int| 0 <= j < i ==> r@[j].deep_view() == v@[j].deep_view(),
        decreases v.len() - i,
    {
        r.push(v[i].clone());
        i += 1;
    }
    assert(r.deep_view() =~= v.deep_view());
    r
}

impl Clone for TsTypeDef {
    fn clone(&self) -> (r: Self)
        ensures
            r.deep_view() == self.deep_view(),
        decreases self,
    {
        match self {
            TsTypeDef::Keyword(s) => TsTypeDef::Keyword(s.clone()),
            TsTypeDef::Literal(s) => TsTypeDef::Literal(s.clone()),
            TsTypeDef::Reference(s) => TsTypeDef::Reference(s.clone()),
            TsTypeDef::Generic { name, args } => {
                let copied = clone_ts_types(args);
                proof {
                    lemma_ts_type_list_view(copied);
                    lemma_ts_type_list_view(*args);
                }
                TsTypeDef::Generic { name: name.clone(), args: copied }
            },
            TsTypeDef::Array(elem) => TsTypeDef::Array(Box::new((**elem).clone())),
            TsTypeDef::Union(members) => {
                let copied = clone_ts_types(members);
                proof {
                    lemma_ts_type_list_view(copied);
                    lemma_ts_type_list_view(*members);
                }
                TsTypeDef::Union(copied)
            },
            TsTypeDef::Intersection(members) => {
                let copied = clone_ts_types(members);
                proof {
                    lemma_ts_type_list_view(copied);
                    lemma_ts_type_list_view(*members);
                }
                TsTypeDef::Intersection(copied)
            },
            TsTypeDef::Conditional { check, extends_type, true_type, false_type } => {
                TsTypeDef::Conditional {
                    check: Box::new((**check).clone()),
                    extends_type: Box::new((**extends_type).clone()),
                    true_type: Box::new((**true_type).clone()),
                    false_type: Box::new((**false_type).clone()),
                }
            },
            TsTypeDef::Mapped { param, constraint, value } => TsTypeDef::Mapped {
                param: param.clone(),
                constraint: Box::new((**constraint).clone()),
                value: Box::new((**value).clone()),
            },
        }
    }
}

} // verus!
