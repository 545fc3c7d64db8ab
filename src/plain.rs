//! A plain-text renderer: type expressions as written, doc text as written,
//! no example or type-parameter blocks.

use vstd::prelude::*;
use crate::model::{opt_view, DocComment, Location, Param, TypeExpr, TypeParamDef};
use crate::params::{binding, bound_param, param_display, param_name};
use crate::render::{string_views, type_param_names, DocRenderer, TypeParamScope};

verus! {

/// `parts` separated by `", "`.
pub open spec fn join(parts: Seq<Seq<char>>) -> Seq<char>
    decreases parts.len(),
{
    if parts.len() == 0 {
        Seq::empty()
    } else if parts.len() == 1 {
        parts[0]
    } else {
        join(parts.drop_last()) + ", "@ + parts.last()
    }
}

/// A parameter as the plain summary shows it: its name, then its type.
pub open spec fn plain_param(p: Param, i: nat) -> Seq<char> {
    param_display(p, i) + match bound_param(p).ts_type {
        Some(t) => ": "@ + t.repr@,
        None => Seq::empty(),
    }
}

pub open spec fn plain_params(params: Seq<Param>) -> Seq<Seq<char>> {
    Seq::new(params.len(), |k: int| plain_param(params[k], k as nat))
}

/// Joins `parts` with `", "`.
fn join_parts(parts: &Vec<String>) -> (r: String)
    ensures
        r@ == join(string_views(parts@)),
{
    let mut s = String::new();
    let mut i: usize = 0;
    while i < parts.len()
        invariant
            i <= parts@.len(),
            s@ == join(string_views(parts@.subrange(0, i as int))),
        decreases parts@.len() - i,
    {
        let ghost before = string_views(parts@.subrange(0, i as int));
        let ghost after = string_views(parts@.subrange(0, i + 1));
        assert(after =~= before.push(parts@[i as int]@));
        assert(after.drop_last() =~= before);
        if i > 0 {
            s.append(", ");
        }
        s.append(parts[i].as_str());
        assert(s@ =~= join(after));
        i = i + 1;
    }
    assert(parts@.subrange(0, i as int) =~= parts@);
    s
}

/// Renders everything as plain text; the scope changes nothing, since no
/// name is resolved to a link.
pub struct PlainRenderer;

impl DocRenderer for PlainRenderer {
    open spec fn type_markup(&self, scope: Set<Seq<char>>, ty: Seq<char>) -> Seq<char> {
        ty
    }

    open spec fn colon_type_markup(&self, scope: Set<Seq<char>>, ty: Seq<char>) -> Seq<char> {
        ": "@ + ty
    }

    open spec fn type_params_summary_markup(
        &self,
        scope: Set<Seq<char>>,
        type_params: Seq<TypeParamDef>,
    ) -> Seq<char> {
        if type_params.len() == 0 {
            Seq::empty()
        } else {
            "<"@ + join(type_param_names(type_params)) + ">"@
        }
    }

    open spec fn params_summary_markup(&self, scope: Set<Seq<char>>, params: Seq<Param>) -> Seq<char> {
        join(plain_params(params))
    }

    open spec fn markdown_summary_markup(&self, text: Seq<char>) -> Seq<char> {
        text
    }

    open spec fn doc_body_markup(&self, doc: DocComment, summary: bool) -> Option<Seq<char>> {
        opt_view(doc.doc)
    }

    open spec fn examples_markup(&self, doc: DocComment) -> Option<Seq<char>> {
        None
    }

    open spec fn type_params_block_markup(
        &self,
        scope: Set<Seq<char>>,
        doc: DocComment,
        type_params: Seq<TypeParamDef>,
        location: Location,
    ) -> Option<Seq<char>> {
        None
    }

    fn render_type(&self, scope: &TypeParamScope, ty: &TypeExpr) -> (r: String) {
        ty.repr.clone()
    }

    fn render_type_colon(&self, scope: &TypeParamScope, ty: &TypeExpr) -> (r: String) {
        let mut s = String::from_str(": ");
        s.append(ty.repr.as_str());
        s
    }

    fn type_params_summary(&self, scope: &TypeParamScope, type_params: &Vec<TypeParamDef>) -> (r: String) {
        if type_params.len() == 0 {
            return String::new();
        }
        let mut names: Vec<String> = Vec::new();
        let mut i: usize = 0;
        while i < type_params.len()
            invariant
                i <= type_params@.len(),
                string_views(names@) =~= type_param_names(type_params@.subrange(0, i as int)),
            decreases type_params@.len() - i,
        {
            let ghost prev = names@;
            names.push(type_params[i].name.clone());
            assert(string_views(names@) =~= string_views(prev).push(type_params@[i as int].name@));
            assert(type_params@.subrange(0, i + 1) =~= type_params@.subrange(0, i as int).push(
                type_params@[i as int],
            ));
            i = i + 1;
        }
        assert(type_params@.subrange(0, i as int) =~= type_params@);
        let mut s = String::from_str("<");
        let joined = join_parts(&names);
        s.append(joined.as_str());
        s.append(">");
        s
    }

    fn params_summary(&self, scope: &TypeParamScope, params: &Vec<Param>) -> (r: String) {
        let mut parts: Vec<String> = Vec::new();
        let mut i: usize = 0;
        while i < params.len()
            invariant
                i <= params@.len(),
                string_views(parts@) =~= plain_params(params@).subrange(0, i as int),
            decreases params@.len() - i,
        {
            let (mut part, _) = param_name(&params[i], i);
            let b = binding(&params[i]);
            if let Some(t) = &b.ts_type {
                part.append(": ");
                part.append(t.repr.as_str());
            }
            assert(part@ =~= plain_param(params@[i as int], i as nat));
            let ghost prev = parts@;
            parts.push(part);
            assert(string_views(parts@) =~= string_views(prev).push(plain_param(params@[i as int], i as nat)));
            i = i + 1;
        }
        assert(plain_params(params@).subrange(0, i as int) =~= plain_params(params@));
        join_parts(&parts)
    }

    fn markdown_summary(&self, text: &String) -> (r: String) {
        text.clone()
    }

    fn doc_body(&self, doc: &DocComment, summary: bool) -> (r: Option<String>) {
        doc.doc.clone()
    }

    fn examples(&self, doc: &DocComment) -> (r: Option<String>) {
        None
    }

    fn type_params_block(
        &self,
        scope: &TypeParamScope,
        doc: &DocComment,
        type_params: &Vec<TypeParamDef>,
        location: &Location,
    ) -> (r: Option<String>) {
        None
    }
}

} // verus!
