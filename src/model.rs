//! The declaration model consumed by the assembler and the structures it
//! produces.

use vstd::prelude::*;

verus! {

/// A type expression as written in the source; only renderers interpret it.
#[derive(Clone, Debug)]
pub struct TypeExpr {
    pub repr: String,
}

/// A generic type parameter of a declaration.
#[derive(Clone, Debug)]
pub struct TypeParamDef {
    pub name: String,
    pub constraint: Option<TypeExpr>,
    pub default: Option<TypeExpr>,
}

/// Where a declaration stands in its source; carried through, never read.
#[derive(Clone, Debug)]
pub struct Location {
    pub filename: String,
    pub line: usize,
    pub col: usize,
}

/// How a parameter binds its argument.
#[derive(Debug)]
pub enum ParamPattern {
    Identifier { name: String, optional: bool },
    Array { elements: Vec<Option<String>>, optional: bool },
    Object { properties: Vec<String>, optional: bool },
    /// A pattern with a default expression, `left = right`.
    Assign { left: Box<Param>, right: String },
}

/// One positional parameter. Its declared type sits on the bound pattern:
/// for an `Assign` pattern, on `left`.
#[derive(Debug)]
pub struct Param {
    pub pattern: ParamPattern,
    pub ts_type: Option<TypeExpr>,
}

/// A structured tag of a doc comment.
#[derive(Clone, Debug)]
pub enum DocTag {
    Param { name: String, doc: Option<String>, optional: bool, default: Option<String> },
    Return { doc: Option<String> },
    Deprecated { doc: Option<String> },
    /// Any other kind of tag; the assembler ignores it.
    Other { kind: String, value: Option<String> },
}

#[derive(Clone, Debug)]
pub struct DocComment {
    pub doc: Option<String>,
    pub tags: Vec<DocTag>,
}

#[derive(Debug)]
pub struct FunctionDef {
    pub params: Vec<Param>,
    pub type_params: Vec<TypeParamDef>,
    pub return_type: Option<TypeExpr>,
    /// Whether the declaration carries an executable body.
    pub has_body: bool,
}

/// One declaration of a group that shares a name.
#[derive(Debug)]
pub struct FunctionNode {
    pub name: String,
    pub location: Location,
    pub js_doc: DocComment,
    pub function_def: FunctionDef,
}

/// A descriptive tag of a documented entry.
#[derive(Clone, Copy, Debug, PartialEq, Eq, Structural)]
pub enum EntryTag {
    Optional,
}

/// One row of a parameter table, or the return-type entry.
#[derive(Clone, Debug)]
pub struct DocEntryCtx {
    pub id: String,
    pub name: String,
    pub ts_type: String,
    pub tags: Vec<EntryTag>,
    pub doc: Option<String>,
}

#[derive(Clone, Copy, Debug, PartialEq, Eq, Structural)]
pub enum SectionKind {
    Examples,
    TypeParameters,
    Parameters,
    ReturnType,
}

#[derive(Clone, Debug)]
pub enum SectionContentCtx {
    /// Markup produced by a renderer.
    Markup(String),
    DocEntry(Vec<DocEntryCtx>),
}

#[derive(Clone, Debug)]
pub struct SectionCtx {
    pub kind: SectionKind,
    pub title: String,
    pub content: SectionContentCtx,
}

/// The detail panel of one overload.
#[derive(Clone, Debug)]
pub struct SymbolContentCtx {
    pub id: String,
    pub sections: Vec<SectionCtx>,
    pub docs: Option<String>,
}

/// The selection entry of one overload.
#[derive(Clone, Debug)]
pub struct OverloadRenderCtx {
    pub function_id: String,
    pub overload_id: String,
    pub additional_css: String,
    pub html_attrs: String,
    pub name: String,
    pub deprecated: Option<String>,
    pub summary: String,
    pub summary_doc: Option<String>,
    /// Position of the declaration in its group.
    pub index: usize,
    pub default_selected: bool,
}

/// The view of an optional string.
pub open spec fn opt_view(o: Option<String>) -> Option<Seq<char>> {
    match o {
        Some(s) => Some(s@),
        None => None,
    }
}

} // verus!
