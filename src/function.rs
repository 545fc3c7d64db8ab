//! The overload-set assembler: which declarations of a same-named group are
//! documented, with what identifiers, selection rules and detail panels.

use vstd::prelude::*;
use crate::ident::{decimal, name_to_id, push_decimal, slug};
use crate::model::{
    opt_view, DocEntryCtx, DocTag, FunctionDef, FunctionNode, OverloadRenderCtx, SectionContentCtx,
    SectionCtx, SectionKind, SymbolContentCtx, TypeExpr,
};
use crate::params::{are_param_entries, render_params};
use crate::render::{type_param_names, DocRenderer, TypeParamScope};

verus! {

/// The text of the first `Return` tag that has any.
pub open spec fn return_doc(tags: Seq<DocTag>) -> Option<Seq<char>>
    decreases tags.len(),
{
    if tags.len() == 0 {
        None
    } else {
        match tags[0] {
            DocTag::Return { doc: Some(d) } => Some(d@),
            _ => return_doc(tags.drop_first()),
        }
    }
}

/// `e` is the return-type entry of a declaration returning `ty`.
pub open spec fn is_return_entry<R: DocRenderer>(
    e: DocEntryCtx,
    r: R,
    scope: Set<Seq<char>>,
    overload_id: Seq<char>,
    ty: TypeExpr,
    tags: Seq<DocTag>,
) -> bool {
    &&& e.id@ == slug(overload_id, "return"@)
    &&& e.name@ == Seq::<char>::empty()
    &&& e.ts_type@ == r.type_markup(scope, ty.repr@)
    &&& e.tags@ == Seq::<crate::model::EntryTag>::empty()
    &&& opt_view(e.doc) == return_doc(tags)
}

/// The first `Deprecated` tag's text, `Some(None)` where that tag has none.
pub open spec fn deprecated_tag(tags: Seq<DocTag>) -> Option<Option<String>>
    decreases tags.len(),
{
    if tags.len() == 0 {
        None
    } else {
        match tags[0] {
            DocTag::Deprecated { doc } => Some(doc),
            _ => deprecated_tag(tags.drop_first()),
        }
    }
}

/// The deprecation notice of a declaration: absent without a `Deprecated`
/// tag, empty for a tag without text.
pub open spec fn deprecation_markup<R: DocRenderer>(r: R, tags: Seq<DocTag>) -> Option<Seq<char>> {
    match deprecated_tag(tags) {
        None => None,
        Some(None) => Some(Seq::empty()),
        Some(Some(d)) => Some(r.markdown_summary_markup(d@)),
    }
}

/// The style rule that shows the panel of `id` when its input is checked.
pub open spec fn selection_css(id: Seq<char>, deprecated: bool) -> Seq<char> {
    let bg = if deprecated {
        "#D256460C"@
    } else {
        "var(--ddoc-selection-selected-bg)"@
    };
    let border = if deprecated {
        "#DC2626"@
    } else {
        "var(--ddoc-selection-selected-border-color)"@
    };
    "\n#"@ + id + " {\n  display: none;\n}\n#"@ + id + ":checked ~ *:last-child > :not(#"@ + id
        + "_div) {\n  display: none;\n}\n#"@ + id
        + ":checked ~ div:first-of-type > label[for='"@ + id + "'] {\n  background-color: "@ + bg
        + ";\n  border: solid var(--ddoc-selection-border-width) "@ + border
        + ";\n  cursor: unset;\n  padding: var(--ddoc-selection-padding); /* 1px less to counter the increased border */\n}\n"@
}

/// The one-line signature of a declaration.
pub open spec fn summary_text<R: DocRenderer>(r: R, scope: Set<Seq<char>>, def: FunctionDef) -> Seq<char> {
    let ret = match def.return_type {
        Some(t) => r.colon_type_markup(scope, t.repr@),
        None => Seq::empty(),
    };
    r.type_params_summary_markup(scope, def.type_params@) + "("@ + r.params_summary_markup(
        scope,
        def.params@,
    ) + ")"@ + ret
}

/// The text of the first `Return` tag that has any.
fn find_return_doc(tags: &Vec<DocTag>) -> (r: Option<String>)
    ensures
        opt_view(r) == return_doc(tags@),
{
    let mut i: usize = 0;
    assert(tags@.subrange(0, tags@.len() as int) =~= tags@);
    while i < tags.len()
        invariant
            i <= tags@.len(),
            return_doc(tags@) == return_doc(tags@.subrange(i as int, tags@.len() as int)),
        decreases tags@.len() - i,
    {
        let ghost rest = tags@.subrange(i as int, tags@.len() as int);
        assert(rest[0] == tags@[i as int]);
        assert(rest.drop_first() =~= tags@.subrange(i + 1, tags@.len() as int));
        if let DocTag::Return { doc: Some(d) } = &tags[i] {
            return Some(d.clone());
        }
        i = i + 1;
    }
    None
}

/// The deprecation notice of a declaration, rendered as a short summary.
fn render_deprecation<R: DocRenderer>(r: &R, tags: &Vec<DocTag>) -> (o: Option<String>)
    ensures
        opt_view(o) == deprecation_markup(*r, tags@),
{
    let mut i: usize = 0;
    assert(tags@.subrange(0, tags@.len() as int) =~= tags@);
    while i < tags.len()
        invariant
            i <= tags@.len(),
            deprecated_tag(tags@) == deprecated_tag(tags@.subrange(i as int, tags@.len() as int)),
        decreases tags@.len() - i,
    {
        let ghost rest = tags@.subrange(i as int, tags@.len() as int);
        assert(rest[0] == tags@[i as int]);
        assert(rest.drop_first() =~= tags@.subrange(i + 1, tags@.len() as int));
        if let DocTag::Deprecated { doc } = &tags[i] {
            return match doc {
                Some(d) => Some(r.markdown_summary(d)),
                None => Some(String::new()),
            };
        }
        i = i + 1;
    }
    None
}

/// The style rule of the overload `overload_id`, highlighted in the colours
/// of a deprecated entry where `deprecated` holds.
pub fn render_css_for_fn(overload_id: &str, deprecated: bool) -> (css: String)
    ensures
        css@ == selection_css(overload_id@, deprecated),
{
    let (bg_color, border_color) = if deprecated {
        ("#D256460C", "#DC2626")
    } else {
        ("var(--ddoc-selection-selected-bg)", "var(--ddoc-selection-selected-border-color)")
    };
    let mut s = String::from_str("\n#");
    s.append(overload_id);
    s.append(" {\n  display: none;\n}\n#");
    s.append(overload_id);
    s.append(":checked ~ *:last-child > :not(#");
    s.append(overload_id);
    s.append("_div) {\n  display: none;\n}\n#");
    s.append(overload_id);
    s.append(":checked ~ div:first-of-type > label[for='");
    s.append(overload_id);
    s.append("'] {\n  background-color: ");
    s.append(bg_color);
    s.append(";\n  border: solid var(--ddoc-selection-border-width) ");
    s.append(border_color);
    s.append(
        ";\n  cursor: unset;\n  padding: var(--ddoc-selection-padding); /* 1px less to counter the increased border */\n}\n",
    );
    s
}

/// The one-line signature of `function_def`: its type parameters, its
/// parameters in parentheses and its return type, when it declares one.
pub fn render_function_summary<R: DocRenderer>(
    function_def: &FunctionDef,
    render_ctx: &R,
    scope: &TypeParamScope,
) -> (s: String)
    ensures
        s@ == summary_text(*render_ctx, scope@, *function_def),
{
    let mut s = render_ctx.type_params_summary(scope, &function_def.type_params);
    s.append("(");
    let params = render_ctx.params_summary(scope, &function_def.params);
    s.append(params.as_str());
    s.append(")");
    if let Some(t) = &function_def.return_type {
        let ret = render_ctx.render_type_colon(scope, t);
        s.append(ret.as_str());
    }
    proof {
        assert(s@ =~= summary_text(*render_ctx, scope@, *function_def));
    }
    s
}

/// The return-type entry of `node`, absent where it declares no return type.
pub fn render_function_return_type<R: DocRenderer>(
    render_ctx: &R,
    scope: &TypeParamScope,
    node: &FunctionNode,
    overload_id: &String,
) -> (e: Option<DocEntryCtx>)
    ensures
        match node.function_def.return_type {
            None => e is None,
            Some(t) => e is Some && is_return_entry(
                e.unwrap(),
                *render_ctx,
                scope@,
                overload_id@,
                t,
                node.js_doc.tags@,
            ),
        },
{
    match &node.function_def.return_type {
        None => None,
        Some(t) => {
            let id = name_to_id(overload_id.as_str(), "return");
            let doc = find_return_doc(&node.js_doc.tags);
            let ts_type = render_ctx.render_type(scope, t);
            Some(DocEntryCtx { id, name: String::new(), ts_type, tags: Vec::new(), doc })
        },
    }
}

/// The type parameters in scope while the overload of `def` is rendered.
pub open spec fn overload_scope(def: FunctionDef) -> Set<Seq<char>> {
    type_param_names(def.type_params@).to_set()
}

pub open spec fn is_markup_section(s: SectionCtx, kind: SectionKind, title: Seq<char>, m: Seq<char>) -> bool {
    &&& s.kind == kind
    &&& s.title@ == title
    &&& match s.content {
        SectionContentCtx::Markup(x) => x@ == m,
        SectionContentCtx::DocEntry(_) => false,
    }
}

pub open spec fn is_entry_section(s: SectionCtx, kind: SectionKind, title: Seq<char>) -> bool {
    &&& s.kind == kind
    &&& s.title@ == title
    &&& s.content is DocEntry
}

/// The entries of a section; none for a markup section.
pub open spec fn section_entries(s: SectionCtx) -> Seq<DocEntryCtx> {
    match s.content {
        SectionContentCtx::DocEntry(v) => v@,
        SectionContentCtx::Markup(_) => Seq::empty(),
    }
}

/// `entries` hold the return-type entry of `def`: one where it declares a
/// return type, none otherwise.
pub open spec fn are_return_entries<R: DocRenderer>(
    entries: Seq<DocEntryCtx>,
    r: R,
    scope: Set<Seq<char>>,
    overload_id: Seq<char>,
    def: FunctionDef,
    tags: Seq<DocTag>,
) -> bool {
    match def.return_type {
        None => entries.len() == 0,
        Some(t) => entries.len() == 1 && is_return_entry(entries[0], r, scope, overload_id, t, tags),
    }
}

/// `b` is the detail panel of `node` under the identifier `overload_id`: its
/// sections are the examples, the type parameters, the parameters (each
/// only where there is something to show) and the return type, in order.
pub open spec fn is_overload_body<R: DocRenderer>(
    b: SymbolContentCtx,
    r: R,
    node: FunctionNode,
    overload_id: Seq<char>,
) -> bool {
    let def = node.function_def;
    let doc = node.js_doc;
    let scope = overload_scope(def);
    let ex = r.examples_markup(doc);
    let tp = r.type_params_block_markup(scope, doc, def.type_params@, node.location);
    let e: int = if ex is Some { 1 } else { 0 };
    let t: int = if tp is Some { 1 } else { 0 };
    let p: int = if def.params@.len() > 0 { 1 } else { 0 };
    let s = b.sections@;
    &&& b.id@ == overload_id + "_div"@
    &&& opt_view(b.docs) == r.doc_body_markup(doc, false)
    &&& s.len() == e + t + p + 1
    &&& (ex is Some ==> is_markup_section(s[0], SectionKind::Examples, "Examples"@, ex.unwrap()))
    &&& (tp is Some ==> is_markup_section(
        s[e],
        SectionKind::TypeParameters,
        "Type Parameters"@,
        tp.unwrap(),
    ))
    &&& (p == 1 ==> is_entry_section(s[e + t], SectionKind::Parameters, "Parameters"@)
        && are_param_entries(section_entries(s[e + t]), r, scope, overload_id, def.params@, doc.tags@))
    &&& is_entry_section(s[e + t + p], SectionKind::ReturnType, "Return Type"@)
    &&& are_return_entries(section_entries(s[e + t + p]), r, scope, overload_id, def, doc.tags@)
}

/// The detail panel of `doc_node`, rendered in a scope that holds exactly
/// its own type parameters.
pub fn render_single_function<R: DocRenderer>(
    ctx: &R,
    doc_node: &FunctionNode,
    overload_id: &String,
) -> (b: SymbolContentCtx)
    ensures
        is_overload_body(b, *ctx, *doc_node, overload_id@),
{
    let function_def = &doc_node.function_def;
    let scope = TypeParamScope::for_type_params(&function_def.type_params);
    let params = render_params(ctx, &scope, overload_id, &function_def.params, &doc_node.js_doc.tags);
    let docs = ctx.doc_body(&doc_node.js_doc, false);
    let examples = ctx.examples(&doc_node.js_doc);
    let type_params = ctx.type_params_block(
        &scope,
        &doc_node.js_doc,
        &function_def.type_params,
        &doc_node.location,
    );
    let ghost e: int = if examples is Some { 1 } else { 0 };
    let ghost t: int = if type_params is Some { 1 } else { 0 };
    let ghost p: int = if params@.len() > 0 { 1 } else { 0 };
    let mut sections: Vec<SectionCtx> = Vec::new();
    if let Some(m) = examples {
        sections.push(
            SectionCtx {
                kind: SectionKind::Examples,
                title: String::from_str("Examples"),
                content: SectionContentCtx::Markup(m),
            },
        );
    }
    if let Some(m) = type_params {
        sections.push(
            SectionCtx {
                kind: SectionKind::TypeParameters,
                title: String::from_str("Type Parameters"),
                content: SectionContentCtx::Markup(m),
            },
        );
    }
    let has_params = params.len() > 0;
    let ghost param_entries = params@;
    if has_params {
        sections.push(
            SectionCtx {
                kind: SectionKind::Parameters,
                title: String::from_str("Parameters"),
                content: SectionContentCtx::DocEntry(params),
            },
        );
    }
    let ret = render_function_return_type(ctx, &scope, doc_node, overload_id);
    let mut ret_entries: Vec<DocEntryCtx> = Vec::new();
    if let Some(entry) = ret {
        ret_entries.push(entry);
    }
    sections.push(
        SectionCtx {
            kind: SectionKind::ReturnType,
            title: String::from_str("Return Type"),
            content: SectionContentCtx::DocEntry(ret_entries),
        },
    );
    let mut id = overload_id.clone();
    id.append("_div");
    assert(p == 1 ==> section_entries(sections@[e + t]) == param_entries);
    SymbolContentCtx { id, sections, docs }
}

/// Whether the `i`-th declaration of a group is documented: the first one
/// always, any other one only where it carries no body.
pub open spec fn keeps(nodes: Seq<FunctionNode>, i: int) -> bool {
    i == 0 || !nodes[i].function_def.has_body
}

/// The positions below `n` of the declarations that are documented, in order.
pub open spec fn kept(nodes: Seq<FunctionNode>, n: int) -> Seq<int>
    decreases n,
{
    if n <= 0 {
        Seq::empty()
    } else if keeps(nodes, n - 1) {
        kept(nodes, n - 1).push(n - 1)
    } else {
        kept(nodes, n - 1)
    }
}

/// The positions of the documented declarations of a group.
pub open spec fn emitted(nodes: Seq<FunctionNode>) -> Seq<int> {
    kept(nodes, nodes.len() as int)
}

/// The identifier of the overload at position `i` of the group `name`.
pub open spec fn overload_id_of(name: Seq<char>, i: nat) -> Seq<char> {
    slug("function"@, name + "_"@ + decimal(i))
}

/// The identifier shared by all overloads of `name`.
pub open spec fn function_id_of(name: Seq<char>) -> Seq<char> {
    slug("function"@, name)
}

/// `o` is the selection entry of the `i`-th declaration of `nodes`.
pub open spec fn is_overload_summary<R: DocRenderer>(
    o: OverloadRenderCtx,
    r: R,
    nodes: Seq<FunctionNode>,
    i: nat,
) -> bool {
    let node = nodes[i as int];
    let def = node.function_def;
    let oid = overload_id_of(node.name@, i);
    let dep = deprecation_markup(r, node.js_doc.tags@);
    &&& o.overload_id@ == oid
    &&& o.function_id@ == function_id_of(node.name@)
    &&& o.additional_css@ == selection_css(oid, dep is Some)
    &&& o.html_attrs@ == (if i == 0 { "checked"@ } else { Seq::empty() })
    &&& o.name@ == node.name@
    &&& opt_view(o.deprecated) == dep
    &&& o.summary@ == summary_text(r, overload_scope(def), def)
    &&& opt_view(o.summary_doc) == (if def.has_body && nodes.len() == 1 {
        None
    } else {
        r.doc_body_markup(node.js_doc, true)
    })
    &&& o.index == i
    &&& o.default_selected == (i == 0)
}

/// The documentation of one group of same-named declarations: a selection
/// entry and a detail panel for each documented declaration, index-aligned.
#[derive(Clone, Debug)]
pub struct FunctionCtx {
    pub overloads_ctx: Vec<OverloadRenderCtx>,
    pub functions: Vec<SymbolContentCtx>,
}

/// `c` documents the group `nodes`: one entry and one panel for each
/// documented declaration, in the order of the group.
pub open spec fn is_assembled<R: DocRenderer>(c: FunctionCtx, r: R, nodes: Seq<FunctionNode>) -> bool {
    let idx = emitted(nodes);
    &&& c.overloads_ctx@.len() == idx.len()
    &&& c.functions@.len() == idx.len()
    &&& forall|k: int|
        0 <= k < idx.len() ==> is_overload_summary(
            #[trigger] c.overloads_ctx@[k],
            r,
            nodes,
            idx[k] as nat,
        )
    &&& forall|k: int|
        0 <= k < idx.len() ==> is_overload_body(
            #[trigger] c.functions@[k],
            r,
            nodes[idx[k]],
            overload_id_of(nodes[idx[k]].name@, idx[k] as nat),
        )
}

impl FunctionCtx {
    /// The name of the template that renders this context.
    pub const TEMPLATE: &'static str = "function";

    /// Documents the group `doc_nodes` of declarations that share one name.
    pub fn new<R: DocRenderer>(ctx: &R, doc_nodes: &Vec<FunctionNode>) -> (c: Self)
        ensures
            is_assembled(c, *ctx, doc_nodes@),
    {
        let mut overloads_ctx: Vec<OverloadRenderCtx> = Vec::new();
        let mut functions: Vec<SymbolContentCtx> = Vec::new();
        let n = doc_nodes.len();
        let mut i: usize = 0;
        while i < n
            invariant
                n == doc_nodes@.len(),
                i <= n,
                overloads_ctx@.len() == kept(doc_nodes@, i as int).len(),
                functions@.len() == kept(doc_nodes@, i as int).len(),
                forall|k: int|
                    0 <= k < kept(doc_nodes@, i as int).len() ==> is_overload_summary(
                        #[trigger] overloads_ctx@[k],
                        *ctx,
                        doc_nodes@,
                        kept(doc_nodes@, i as int)[k] as nat,
                    ),
                forall|k: int|
                    0 <= k < kept(doc_nodes@, i as int).len() ==> is_overload_body(
                        #[trigger] functions@[k],
                        *ctx,
                        doc_nodes@[kept(doc_nodes@, i as int)[k]],
                        overload_id_of(
                            doc_nodes@[kept(doc_nodes@, i as int)[k]].name@,
                            kept(doc_nodes@, i as int)[k] as nat,
                        ),
                    ),
            decreases n - i,
        {
            let doc_node = &doc_nodes[i];
            let function_def = &doc_node.function_def;
            if function_def.has_body && i != 0 {
                i = i + 1;
            } else {
                let deprecated = render_deprecation(ctx, &doc_node.js_doc.tags);
                let mut label = doc_node.name.clone();
                label.append("_");
                push_decimal(&mut label, i);
                let overload_id = name_to_id("function", label.as_str());
                let id = name_to_id("function", doc_node.name.as_str());
                let css = render_css_for_fn(overload_id.as_str(), deprecated.is_some());
                let summary_doc = if function_def.has_body && n == 1 {
                    None
                } else {
                    ctx.doc_body(&doc_node.js_doc, true)
                };
                let html_attrs = if i == 0 {
                    String::from_str("checked")
                } else {
                    String::new()
                };
                let scope = TypeParamScope::for_type_params(&function_def.type_params);
                let summary = render_function_summary(function_def, ctx, &scope);
                let body = render_single_function(ctx, doc_node, &overload_id);
                let o = OverloadRenderCtx {
                    function_id: id,
                    overload_id,
                    additional_css: css,
                    html_attrs,
                    name: doc_node.name.clone(),
                    deprecated,
                    summary,
                    summary_doc,
                    index: i,
                    default_selected: i == 0,
                };
                proof {
                    assert(label@ =~= doc_node.name@ + "_"@ + decimal(i as nat));
                }
                let ghost prev = kept(doc_nodes@, i as int);
                overloads_ctx.push(o);
                functions.push(body);
                i = i + 1;
                assert(kept(doc_nodes@, i as int) == prev.push(i - 1));
            }
        }
        FunctionCtx { overloads_ctx, functions }
    }
}

} // verus!
