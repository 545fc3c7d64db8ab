//! Assembly of overload-aware documentation for groups of same-named
//! function declarations: which declarations are documented, their
//! identifiers, selection rules, parameter tables and return-type entries.

pub mod function;
pub mod ident;
pub mod laws;
pub mod model;
pub mod params;
pub mod plain;
pub mod render;

pub use function::{
    render_css_for_fn, render_function_return_type, render_function_summary, render_single_function,
    FunctionCtx,
};
pub use ident::name_to_id;
pub use model::{
    DocComment, DocEntryCtx, DocTag, EntryTag, FunctionDef, FunctionNode, Location,
    OverloadRenderCtx, Param, ParamPattern, SectionContentCtx, SectionCtx, SectionKind,
    SymbolContentCtx, TypeExpr, TypeParamDef,
};
pub use plain::PlainRenderer;
pub use render::{DocRenderer, TypeParamScope};
