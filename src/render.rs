//! The rendering collaborators that the assembler consumes, and the scope of
//! generic type parameters they render in.

use vstd::prelude::*;
use crate::model::{opt_view, DocComment, Location, Param, TypeExpr, TypeParamDef};

verus! {

/// The names of a list of type parameters, in order.
pub open spec fn type_param_names(tps: Seq<TypeParamDef>) -> Seq<Seq<char>> {
    tps.map_values(|t: TypeParamDef| t.name@)
}

pub open spec fn string_views(v: Seq<String>) -> Seq<Seq<char>> {
    v.map_values(|s: String| s@)
}

/// The generic type-parameter names in scope while one overload is rendered.
/// A value is built for one overload and never changed afterwards.
pub struct TypeParamScope {
    names: Vec<String>,
}

impl View for TypeParamScope {
    type V = Set<Seq<char>>;

    closed spec fn view(&self) -> Set<Seq<char>> {
        string_views(self.names@).to_set()
    }
}

impl TypeParamScope {
    /// The scope that holds exactly the names of `type_params`.
    pub fn for_type_params(type_params: &Vec<TypeParamDef>) -> (r: Self)
        ensures
            r@ == type_param_names(type_params@).to_set(),
    {
        let mut names: Vec<String> = Vec::new();
        let mut i: usize = 0;
        while i < type_params.len()
            invariant
                i <= type_params@.len(),
                string_views(names@) =~= type_param_names(type_params@.subrange(0, i as int)),
            decreases type_params@.len() - i,
        {
            let ghost prev = names@;
            let name = type_params[i].name.clone();
            names.push(name);
            assert(string_views(names@) =~= string_views(prev).push(type_params@[i as int].name@));
            assert(type_params@.subrange(0, i + 1) =~= type_params@.subrange(0, i as int).push(type_params@[i as int]));
            i = i + 1;
        }
        assert(type_params@.subrange(0, i as int) =~= type_params@);
        TypeParamScope { names }
    }

    /// Whether `name` is a type parameter in scope.
    pub fn contains(&self, name: &String) -> (r: bool)
        ensures
            r == self@.contains(name@),
    {
        let mut i: usize = 0;
        while i < self.names.len()
            invariant
                i <= self.names@.len(),
                forall|k: int| 0 <= k < i ==> self.names@[k]@ != name@,
            decreases self.names@.len() - i,
        {
            if self.names[i] == *name {
                assert(string_views(self.names@)[i as int] == name@);
                return true;
            }
            i = i + 1;
        }
        assert forall|x: Seq<char>| #[trigger] string_views(self.names@).contains(x) implies x != name@ by {
            let k = choose|k: int| 0 <= k < self.names@.len() && #[trigger] string_views(self.names@)[k] == x;
        }
        false
    }
}

/// What the assembler needs rendered: type expressions, markdown and the
/// blocks it does not build itself. Each result is a function of the
/// renderer and the arguments alone.
pub trait DocRenderer {
    spec fn type_markup(&self, scope: Set<Seq<char>>, ty: Seq<char>) -> Seq<char>;

    /// A type as it follows a name, colon included.
    spec fn colon_type_markup(&self, scope: Set<Seq<char>>, ty: Seq<char>) -> Seq<char>;

    spec fn type_params_summary_markup(&self, scope: Set<Seq<char>>, type_params: Seq<TypeParamDef>) -> Seq<char>;

    spec fn params_summary_markup(&self, scope: Set<Seq<char>>, params: Seq<Param>) -> Seq<char>;

    spec fn markdown_summary_markup(&self, text: Seq<char>) -> Seq<char>;

    spec fn doc_body_markup(&self, doc: DocComment, summary: bool) -> Option<Seq<char>>;

    spec fn examples_markup(&self, doc: DocComment) -> Option<Seq<char>>;

    spec fn type_params_block_markup(
        &self,
        scope: Set<Seq<char>>,
        doc: DocComment,
        type_params: Seq<TypeParamDef>,
        location: Location,
    ) -> Option<Seq<char>>;

    fn render_type(&self, scope: &TypeParamScope, ty: &TypeExpr) -> (r: String)
        ensures
            r@ == self.type_markup(scope@, ty.repr@),
    ;

    fn render_type_colon(&self, scope: &TypeParamScope, ty: &TypeExpr) -> (r: String)
        ensures
            r@ == self.colon_type_markup(scope@, ty.repr@),
    ;

    /// The angle-bracketed list of type parameters of a signature summary.
    fn type_params_summary(&self, scope: &TypeParamScope, type_params: &Vec<TypeParamDef>) -> (r: String)
        ensures
            r@ == self.type_params_summary_markup(scope@, type_params@),
    ;

    /// The parameter list of a signature summary, without parentheses.
    fn params_summary(&self, scope: &TypeParamScope, params: &Vec<Param>) -> (r: String)
        ensures
            r@ == self.params_summary_markup(scope@, params@),
    ;

    /// Markdown rendered as a short summary.
    fn markdown_summary(&self, text: &String) -> (r: String)
        ensures
            r@ == self.markdown_summary_markup(text@),
    ;

    /// The free-text body of a doc comment, or only its summary.
    fn doc_body(&self, doc: &DocComment, summary: bool) -> (r: Option<String>)
        ensures
            opt_view(r) == self.doc_body_markup(*doc, summary),
    ;

    /// The example blocks of a doc comment, if it has any.
    fn examples(&self, doc: &DocComment) -> (r: Option<String>)
        ensures
            opt_view(r) == self.examples_markup(*doc),
    ;

    /// The block that documents the type parameters, if there is one.
    fn type_params_block(
        &self,
        scope: &TypeParamScope,
        doc: &DocComment,
        type_params: &Vec<TypeParamDef>,
        location: &Location,
    ) -> (r: Option<String>)
        ensures
            opt_view(r) == self.type_params_block_markup(scope@, *doc, type_params@, *location),
    ;
}

} // verus!
