//! Enum declarations.

use vstd::prelude::*;
use crate::ast::{EnumDecl, EnumDeclView};

verus! {

/// One member of an enum.
#[derive(Debug, PartialEq, Eq)]
pub struct EnumMemberDef {
    pub name: String,
    /// The source text of the member's literal value, if one is given.
    pub value: Option<String>,
}

/// The mathematical value of an [`EnumMemberDef`].
pub ghost struct EnumMemberView {
    pub name: Seq<char>,
    pub value: Option<Seq<char>>,
}

impl DeepView for EnumMemberDef {
    type V = EnumMemberView;

    open spec fn deep_view(&self) -> EnumMemberView {
        EnumMemberView { name: self.name@, value: self.value.deep_view() }
    }
}

impl Clone for EnumMemberDef {
    fn clone(&self) -> (r: Self)
        ensures
            r.deep_view() == self.deep_view(),
    {
        EnumMemberDef { name: self.name.clone(), value: self.value.clone() }
    }
}

/// An enum: its members in source order.
#[derive(Debug, PartialEq, Eq)]
pub struct EnumDef {
    pub members: Vec<EnumMemberDef>,
}

/// The mathematical value of an [`EnumDef`].
pub ghost struct EnumView {
    pub members: Seq<EnumMemberView>,
}

impl DeepView for EnumDef {
    type V = EnumView;

    open spec fn deep_view(&self) -> EnumView {
        EnumView { members: self.members.deep_view() }
    }
}

impl Clone for EnumDef {
    fn clone(&self) -> (r: Self)
        ensures
            r.deep_view() == self.deep_view(),
    {
        let r = EnumDef { members: self.members.clone() };
        assert(r.members.deep_view() =~= self.members.deep_view());
        r
    }
}

/// What an enum declaration defines: its members in source order.
pub open spec fn enum_def_of(decl: EnumDeclView) -> EnumView {
    EnumView { members: decl.members }
}

/// Reads an enum declaration: its name and what it defines.
pub fn get_doc_for_ts_enum_decl(enum_decl: &EnumDecl) -> (r: (String, EnumDef))
    ensures
        r.0@ == enum_decl.name@,
        r.1.deep_view() == enum_def_of(enum_decl.deep_view()),
{
    let members = enum_decl.members.clone();
    assert(members.deep_view() =~= enum_decl.members.deep_view());
    (enum_decl.name.clone(), EnumDef { members })
}

} // verus!
