//! Matching of a declaration's positional parameters with the `Param` tags of
//! its doc comment.

use vstd::prelude::*;
use crate::ident::{decimal, name_to_id, push_decimal, slug};
use crate::model::{opt_view, DocEntryCtx, DocTag, EntryTag, Param, ParamPattern};
use crate::render::{DocRenderer, TypeParamScope};

verus! {

/// The parameter that binds the argument: an `Assign` pattern is unwrapped
/// down to its left-hand side.
pub open spec fn bound_param(p: Param) -> Param
    decreases p,
{
    match p.pattern {
        ParamPattern::Assign { left, .. } => bound_param(*left),
        _ => p,
    }
}

/// The default written in the signature, if any.
pub open spec fn literal_default(p: Param) -> Option<Seq<char>> {
    match p.pattern {
        ParamPattern::Assign { right, .. } => Some(right@),
        _ => None,
    }
}

/// The optional flag of the pattern itself.
pub open spec fn pattern_optional(p: Param) -> bool {
    match p.pattern {
        ParamPattern::Identifier { optional, .. } => optional,
        ParamPattern::Array { optional, .. } => optional,
        ParamPattern::Object { optional, .. } => optional,
        ParamPattern::Assign { .. } => false,
    }
}

/// The name shown for the `i`-th parameter.
pub open spec fn param_display(p: Param, i: nat) -> Seq<char> {
    match bound_param(p).pattern {
        ParamPattern::Identifier { name, .. } => name@,
        _ => "unnamed "@ + decimal(i),
    }
}

/// The label of the `i`-th parameter within identifiers.
pub open spec fn param_label(p: Param, i: nat) -> Seq<char> {
    match bound_param(p).pattern {
        ParamPattern::Identifier { name, .. } => name@,
        _ => "("@ + decimal(i) + ")"@,
    }
}

pub open spec fn is_param_tag_named(t: DocTag, name: Seq<char>) -> bool {
    match t {
        DocTag::Param { name: n, .. } => n@ == name,
        _ => false,
    }
}

/// The `Param` tag documenting `name`; of several, the last one.
pub open spec fn param_tag(tags: Seq<DocTag>, name: Seq<char>) -> Option<DocTag>
    decreases tags.len(),
{
    if tags.len() == 0 {
        None
    } else if is_param_tag_named(tags.last(), name) {
        Some(tags.last())
    } else {
        param_tag(tags.drop_last(), name)
    }
}

pub open spec fn tag_default(tag: Option<DocTag>) -> Option<Seq<char>> {
    match tag {
        Some(DocTag::Param { default, .. }) => opt_view(default),
        _ => None,
    }
}

pub open spec fn tag_optional(tag: Option<DocTag>) -> bool {
    match tag {
        Some(DocTag::Param { optional, .. }) => optional,
        _ => false,
    }
}

pub open spec fn tag_doc(tag: Option<DocTag>) -> Option<Seq<char>> {
    match tag {
        Some(DocTag::Param { doc, .. }) => opt_view(doc),
        _ => None,
    }
}

/// The default of a parameter: the one written in the signature, else the
/// one its doc tag declares.
pub open spec fn resolved_default(p: Param, tag: Option<DocTag>) -> Option<Seq<char>> {
    match literal_default(p) {
        Some(d) => Some(d),
        None => tag_default(tag),
    }
}

pub open spec fn entry_tags(p: Param, tag: Option<DocTag>) -> Seq<EntryTag> {
    if pattern_optional(p) || resolved_default(p, tag).is_some() || tag_optional(tag) {
        seq![EntryTag::Optional]
    } else {
        seq![]
    }
}

/// The markup that follows a parameter's type when it has a default.
pub open spec fn default_suffix(d: Seq<char>) -> Seq<char> {
    "<span><span class=\"font-normal\"> = </span>"@ + d + "</span>"@
}

/// The declared type of a parameter, colon included; empty where it has none.
pub open spec fn param_type_markup<R: DocRenderer>(r: R, scope: Set<Seq<char>>, p: Param) -> Seq<char> {
    match bound_param(p).ts_type {
        Some(t) => r.colon_type_markup(scope, t.repr@),
        None => seq![],
    }
}

/// The type text of a parameter entry: its declared type, then its default.
pub open spec fn param_type_text<R: DocRenderer>(
    r: R,
    scope: Set<Seq<char>>,
    p: Param,
    tag: Option<DocTag>,
) -> Seq<char> {
    let ty = param_type_markup(r, scope, p);
    match resolved_default(p, tag) {
        Some(d) => ty + default_suffix(d),
        None => ty,
    }
}

/// `e` documents the `i`-th parameter `p` of the overload `overload_id`.
pub open spec fn is_param_entry<R: DocRenderer>(
    e: DocEntryCtx,
    r: R,
    scope: Set<Seq<char>>,
    overload_id: Seq<char>,
    p: Param,
    i: nat,
    tags: Seq<DocTag>,
) -> bool {
    let name = param_display(p, i);
    let tag = param_tag(tags, name);
    &&& e.id@ == slug(overload_id, "parameters_"@ + param_label(p, i))
    &&& e.name@ == name
    &&& e.ts_type@ == param_type_text(r, scope, p, tag)
    &&& e.tags@ == entry_tags(p, tag)
    &&& opt_view(e.doc) == tag_doc(tag)
}

/// `entries` document `params`, one entry each, in order.
pub open spec fn are_param_entries<R: DocRenderer>(
    entries: Seq<DocEntryCtx>,
    r: R,
    scope: Set<Seq<char>>,
    overload_id: Seq<char>,
    params: Seq<Param>,
    tags: Seq<DocTag>,
) -> bool {
    &&& entries.len() == params.len()
    &&& forall|k: int|
        0 <= k < params.len() ==> #[trigger] is_param_entry(
            entries[k],
            r,
            scope,
            overload_id,
            params[k],
            k as nat,
            tags,
        )
}

/// Unwraps `Assign` patterns down to the parameter that binds the argument.
pub fn binding(p: &Param) -> (r: &Param)
    ensures
        *r == bound_param(*p),
    decreases p,
{
    match &p.pattern {
        ParamPattern::Assign { left, .. } => binding(left),
        _ => p,
    }
}

/// The display name and the identifier label of the `i`-th parameter.
pub fn param_name(p: &Param, i: usize) -> (r: (String, String))
    ensures
        r.0@ == param_display(*p, i as nat),
        r.1@ == param_label(*p, i as nat),
{
    let b = binding(p);
    match &b.pattern {
        ParamPattern::Identifier { name, .. } => (name.clone(), name.clone()),
        _ => {
            let mut display = String::from_str("unnamed ");
            push_decimal(&mut display, i);
            let mut label = String::from_str("(");
            push_decimal(&mut label, i);
            label.append(")");
            (display, label)
        },
    }
}

/// The position of the `Param` tag documenting `name`.
pub fn find_param_tag(tags: &Vec<DocTag>, name: &String) -> (r: Option<usize>)
    ensures
        match r {
            Some(k) => k < tags@.len() && param_tag(tags@, name@) == Some(tags@[k as int]),
            None => param_tag(tags@, name@) is None,
        },
{
    let mut i: usize = tags.len();
    assert(tags@.subrange(0, i as int) =~= tags@);
    while i > 0
        invariant
            i <= tags@.len(),
            param_tag(tags@, name@) == param_tag(tags@.subrange(0, i as int), name@),
        decreases i,
    {
        let ghost prefix = tags@.subrange(0, i as int);
        assert(prefix.last() == tags@[i - 1]);
        assert(prefix.drop_last() =~= tags@.subrange(0, i - 1));
        if let DocTag::Param { name: n, .. } = &tags[i - 1] {
            if *n == *name {
                return Some(i - 1);
            }
        }
        i = i - 1;
    }
    None
}

/// The entry of the `i`-th parameter `p` of the overload `overload_id`.
pub fn param_entry<R: DocRenderer>(
    r: &R,
    scope: &TypeParamScope,
    overload_id: &String,
    p: &Param,
    i: usize,
    tags: &Vec<DocTag>,
) -> (e: DocEntryCtx)
    ensures
        is_param_entry(e, *r, scope@, overload_id@, *p, i as nat, tags@),
{
    let (name, label) = param_name(p, i);
    let mut id_label = String::from_str("parameters_");
    id_label.append(label.as_str());
    let id = name_to_id(overload_id.as_str(), id_label.as_str());
    let found = find_param_tag(tags, &name);
    let ghost tag = param_tag(tags@, name@);
    let mut default: Option<String> = None;
    let mut tag_opt = false;
    let mut doc: Option<String> = None;
    if let Some(k) = found {
        if let DocTag::Param { doc: d, optional, default: dflt, .. } = &tags[k] {
            default = dflt.clone();
            tag_opt = *optional;
            doc = d.clone();
        }
    }
    assert(opt_view(default) == tag_default(tag));
    assert(tag_opt == tag_optional(tag));
    assert(opt_view(doc) == tag_doc(tag));
    let mut pat_opt = false;
    match &p.pattern {
        ParamPattern::Assign { right, .. } => {
            default = Some(right.clone());
        },
        ParamPattern::Identifier { optional, .. } => {
            pat_opt = *optional;
        },
        ParamPattern::Array { optional, .. } => {
            pat_opt = *optional;
        },
        ParamPattern::Object { optional, .. } => {
            pat_opt = *optional;
        },
    }
    assert(opt_view(default) == resolved_default(*p, tag));
    let b = binding(p);
    let mut ts_type = match &b.ts_type {
        Some(t) => r.render_type_colon(scope, t),
        None => String::new(),
    };
    proof {
        assert(ts_type@ =~= match bound_param(*p).ts_type {
            Some(t) => r.colon_type_markup(scope@, t.repr@),
            None => seq![],
        });
    }
    let has_default = default.is_some();
    if let Some(d) = &default {
        let ghost ty = ts_type@;
        ts_type.append("<span><span class=\"font-normal\"> = </span>");
        ts_type.append(d.as_str());
        ts_type.append("</span>");
        assert(ts_type@ =~= ty + default_suffix(d@));
    }
    assert(ts_type@ == param_type_text(*r, scope@, *p, tag));
    assert(id_label@ =~= "parameters_"@ + param_label(*p, i as nat));
    let mut tag_list: Vec<EntryTag> = Vec::new();
    if pat_opt || has_default || tag_opt {
        tag_list.push(EntryTag::Optional);
    }
    assert(tag_list@ =~= entry_tags(*p, tag));
    DocEntryCtx { id, name, ts_type, tags: tag_list, doc }
}

/// The entries of all parameters of the overload `overload_id`, in order.
pub fn render_params<R: DocRenderer>(
    r: &R,
    scope: &TypeParamScope,
    overload_id: &String,
    params: &Vec<Param>,
    tags: &Vec<DocTag>,
) -> (entries: Vec<DocEntryCtx>)
    ensures
        are_param_entries(entries@, *r, scope@, overload_id@, params@, tags@),
{
    let mut entries: Vec<DocEntryCtx> = Vec::new();
    let mut i: usize = 0;
    while i < params.len()
        invariant
            i <= params@.len(),
            entries@.len() == i,
            forall|k: int|
                0 <= k < i ==> #[trigger] is_param_entry(
                    entries@[k],
                    *r,
                    scope@,
                    overload_id@,
                    params@[k],
                    k as nat,
                    tags@,
                ),
        decreases params@.len() - i,
    {
        let e = param_entry(r, scope, overload_id, &params[i], i, tags);
        entries.push(e);
        i = i + 1;
    }
    entries
}

} // verus!
