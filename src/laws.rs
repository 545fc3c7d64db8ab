//! Properties that relate the assembler's results across declarations,
//! calls and groups.

use vstd::prelude::*;
use crate::function::{
    emitted, is_assembled, is_overload_body, kept, keeps, section_entries, FunctionCtx,
};
use crate::model::{DocEntryCtx, DocTag, EntryTag, FunctionNode, Param, SectionKind};
use crate::params::{
    default_suffix, is_param_entry, literal_default, param_display, param_tag, param_type_markup,
    tag_default,
};
use crate::render::DocRenderer;

verus! {

/// The kept positions below `n` rise strictly, stay below `n`, and start
/// with the first position.
pub proof fn lemma_kept_ordered(nodes: Seq<FunctionNode>, n: int)
    requires
        0 <= n <= nodes.len(),
    ensures
        forall|k: int| 0 <= k < kept(nodes, n).len() ==> 0 <= #[trigger] kept(nodes, n)[k] < n,
        forall|j: int, k: int|
            0 <= j < k < kept(nodes, n).len() ==> kept(nodes, n)[j] < kept(nodes, n)[k],
        n >= 1 ==> kept(nodes, n).len() >= 1 && kept(nodes, n)[0] == 0,
    decreases n,
{
    if n > 0 {
        lemma_kept_ordered(nodes, n - 1);
        if n == 1 {
            assert(keeps(nodes, 0));
            assert(kept(nodes, 0) =~= Seq::<int>::empty());
        }
    }
}

/// Of every group that is not empty, exactly one entry is selected by
/// default: the first, which documents the first declaration.
pub proof fn lemma_single_default_selection<R: DocRenderer>(
    c: FunctionCtx,
    r: R,
    nodes: Seq<FunctionNode>,
)
    requires
        is_assembled(c, r, nodes),
        nodes.len() >= 1,
    ensures
        c.overloads_ctx@.len() >= 1,
        c.overloads_ctx@[0].default_selected,
        c.overloads_ctx@[0].index == 0,
        forall|k: int|
            0 < k < c.overloads_ctx@.len() ==> !(#[trigger] c.overloads_ctx@[k]).default_selected
                && c.overloads_ctx@[k].index != 0,
{
    lemma_kept_ordered(nodes, nodes.len() as int);
    let idx = emitted(nodes);
    assert(c.overloads_ctx@[0] == c.overloads_ctx@[0]);
    assert forall|k: int| 0 < k < c.overloads_ctx@.len() implies !(
    #[trigger] c.overloads_ctx@[k]).default_selected && c.overloads_ctx@[k].index != 0 by {
        assert(idx[0] < idx[k]);
    }
}

proof fn lemma_kept_without_one(nodes: Seq<FunctionNode>, m: int, j: int)
    requires
        0 <= m <= nodes.len(),
        0 < j < nodes.len(),
        nodes[j].function_def.has_body,
        forall|i: int| 0 < i < nodes.len() && i != j ==> !(#[trigger] nodes[i]).function_def.has_body,
    ensures
        kept(nodes, m).len() == if m > j { m - 1 } else { m },
        !kept(nodes, m).contains(j),
    decreases m,
{
    if m > 0 {
        lemma_kept_without_one(nodes, m - 1, j);
        if m - 1 != j && m - 1 != 0 {
            assert(!nodes[m - 1].function_def.has_body);
        }
        if keeps(nodes, m - 1) {
            assert(kept(nodes, m) == kept(nodes, m - 1).push(m - 1));
            assert forall|x: int| #[trigger] kept(nodes, m).contains(x) implies x != j by {
                let k = choose|k: int| 0 <= k < kept(nodes, m).len() && kept(nodes, m)[k] == x;
                if k < kept(nodes, m - 1).len() {
                    assert(kept(nodes, m - 1)[k] == x);
                }
            }
        }
    }
}

/// In a group of several declarations where exactly one past the first
/// carries a body, that one is left out and every other is documented.
pub proof fn lemma_implementation_dropped<R: DocRenderer>(
    c: FunctionCtx,
    r: R,
    nodes: Seq<FunctionNode>,
    j: int,
)
    requires
        is_assembled(c, r, nodes),
        nodes.len() > 1,
        0 < j < nodes.len(),
        nodes[j].function_def.has_body,
        forall|i: int| 0 < i < nodes.len() && i != j ==> !(#[trigger] nodes[i]).function_def.has_body,
    ensures
        c.overloads_ctx@.len() == nodes.len() - 1,
        c.functions@.len() == nodes.len() - 1,
        forall|k: int| 0 <= k < c.overloads_ctx@.len() ==> (#[trigger] c.overloads_ctx@[k]).index != j,
{
    lemma_kept_without_one(nodes, nodes.len() as int, j);
    lemma_kept_ordered(nodes, nodes.len() as int);
    let idx = emitted(nodes);
    assert forall|k: int| 0 <= k < c.overloads_ctx@.len() implies (
    #[trigger] c.overloads_ctx@[k]).index != j by {
        assert(idx.contains(idx[k]));
    }
}

/// A group of one declaration documents it, with or without a body.
pub proof fn lemma_sole_declaration_kept<R: DocRenderer>(c: FunctionCtx, r: R, nodes: Seq<FunctionNode>)
    requires
        is_assembled(c, r, nodes),
        nodes.len() == 1,
    ensures
        c.overloads_ctx@.len() == 1,
        c.functions@.len() == 1,
        c.overloads_ctx@[0].index == 0,
{
    assert(keeps(nodes, 0));
    assert(kept(nodes, 0) =~= Seq::<int>::empty());
    assert(emitted(nodes) =~= seq![0int]);
    assert(c.overloads_ctx@[0] == c.overloads_ctx@[0]);
}

/// Assembling the same group twice gives the same identifiers.
pub proof fn lemma_ids_deterministic<R: DocRenderer>(
    c1: FunctionCtx,
    c2: FunctionCtx,
    r: R,
    nodes: Seq<FunctionNode>,
)
    requires
        is_assembled(c1, r, nodes),
        is_assembled(c2, r, nodes),
    ensures
        c1.overloads_ctx@.len() == c2.overloads_ctx@.len(),
        c1.functions@.len() == c2.functions@.len(),
        forall|k: int|
            0 <= k < c1.overloads_ctx@.len() ==> (#[trigger] c1.overloads_ctx@[k]).overload_id@
                == c2.overloads_ctx@[k].overload_id@ && c1.overloads_ctx@[k].function_id@
                == c2.overloads_ctx@[k].function_id@,
        forall|k: int|
            0 <= k < c1.functions@.len() ==> (#[trigger] c1.functions@[k]).id@
                == c2.functions@[k].id@,
{
    assert forall|k: int| 0 <= k < c1.overloads_ctx@.len() implies (
    #[trigger] c1.overloads_ctx@[k]).overload_id@ == c2.overloads_ctx@[k].overload_id@
        && c1.overloads_ctx@[k].function_id@ == c2.overloads_ctx@[k].function_id@ by {
        assert(c2.overloads_ctx@[k] == c2.overloads_ctx@[k]);
    }
    assert forall|k: int| 0 <= k < c1.functions@.len() implies (#[trigger] c1.functions@[k]).id@
        == c2.functions@[k].id@ by {
        assert(c2.functions@[k] == c2.functions@[k]);
    }
}

/// A default written in the signature makes a parameter optional and is
/// the default shown, whatever its doc tag says.
pub proof fn lemma_literal_default_wins<R: DocRenderer>(
    e: DocEntryCtx,
    r: R,
    scope: Set<Seq<char>>,
    overload_id: Seq<char>,
    p: Param,
    i: nat,
    tags: Seq<DocTag>,
)
    requires
        is_param_entry(e, r, scope, overload_id, p, i, tags),
        literal_default(p) is Some,
    ensures
        e.tags@ == seq![EntryTag::Optional],
        e.ts_type@ == param_type_markup(r, scope, p) + default_suffix(literal_default(p).unwrap()),
{
}

/// Without a default in the signature, a default declared by the doc tag
/// makes the parameter optional and is the default shown.
pub proof fn lemma_tag_default_applies<R: DocRenderer>(
    e: DocEntryCtx,
    r: R,
    scope: Set<Seq<char>>,
    overload_id: Seq<char>,
    p: Param,
    i: nat,
    tags: Seq<DocTag>,
)
    requires
        is_param_entry(e, r, scope, overload_id, p, i, tags),
        literal_default(p) is None,
        tag_default(param_tag(tags, param_display(p, i))) is Some,
    ensures
        e.tags@ == seq![EntryTag::Optional],
        e.ts_type@ == param_type_markup(r, scope, p) + default_suffix(
            tag_default(param_tag(tags, param_display(p, i))).unwrap(),
        ),
{
}

/// A declaration without parameters has no Parameters section.
pub proof fn lemma_no_params_no_section<R: DocRenderer>(
    b: crate::model::SymbolContentCtx,
    r: R,
    node: FunctionNode,
    overload_id: Seq<char>,
)
    requires
        is_overload_body(b, r, node, overload_id),
        node.function_def.params@.len() == 0,
    ensures
        forall|k: int| 0 <= k < b.sections@.len() ==> (#[trigger] b.sections@[k]).kind != SectionKind::Parameters,
{
}

/// A declaration without a return type ends with a Return Type section that
/// holds no entry.
pub proof fn lemma_no_return_type_empty_section<R: DocRenderer>(
    b: crate::model::SymbolContentCtx,
    r: R,
    node: FunctionNode,
    overload_id: Seq<char>,
)
    requires
        is_overload_body(b, r, node, overload_id),
        node.function_def.return_type is None,
    ensures
        b.sections@.len() >= 1,
        b.sections@.last().kind == SectionKind::ReturnType,
        section_entries(b.sections@.last()).len() == 0,
{
}

} // verus!
