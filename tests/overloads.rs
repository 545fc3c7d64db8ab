use overload_doc::ident::push_decimal;
use overload_doc::{
    name_to_id, render_css_for_fn, render_function_return_type, render_function_summary,
    render_single_function, DocComment, DocEntryCtx, DocRenderer, DocTag, EntryTag, FunctionCtx,
    FunctionDef, FunctionNode, Location, Param, ParamPattern, PlainRenderer, SectionContentCtx,
    SectionKind, SymbolContentCtx, TypeExpr, TypeParamDef, TypeParamScope,
};

fn ty(s: &str) -> Option<TypeExpr> {
    Some(TypeExpr { repr: s.to_string() })
}

fn ident(name: &str, optional: bool, t: Option<TypeExpr>) -> Param {
    Param { pattern: ParamPattern::Identifier { name: name.to_string(), optional }, ts_type: t }
}

fn location() -> Location {
    Location { filename: "mod.ts".to_string(), line: 1, col: 0 }
}

fn node(name: &str, params: Vec<Param>, ret: Option<TypeExpr>, has_body: bool, tags: Vec<DocTag>) -> FunctionNode {
    FunctionNode {
        name: name.to_string(),
        location: location(),
        js_doc: DocComment { doc: Some(format!("docs of {name}")), tags },
        function_def: FunctionDef { params, type_params: vec![], return_type: ret, has_body },
    }
}

fn entries(content: &SectionContentCtx) -> &Vec<DocEntryCtx> {
    match content {
        SectionContentCtx::DocEntry(v) => v,
        SectionContentCtx::Markup(_) => panic!("expected entries"),
    }
}

fn param_section(body: &SymbolContentCtx) -> Option<&Vec<DocEntryCtx>> {
    body.sections.iter().find(|s| s.kind == SectionKind::Parameters).map(|s| entries(&s.content))
}

fn suffix(d: &str) -> String {
    format!("<span><span class=\"font-normal\"> = </span>{d}</span>")
}

#[test]
fn overload_with_implementation_end_to_end() {
    let nodes = vec![
        node("f", vec![ident("x", false, ty("number"))], ty("string"), false, vec![]),
        node("f", vec![ident("x", false, ty("any"))], None, true, vec![]),
    ];
    let ctx = FunctionCtx::new(&PlainRenderer, &nodes);
    assert_eq!(ctx.overloads_ctx.len(), 1);
    assert_eq!(ctx.functions.len(), 1);
    let o = &ctx.overloads_ctx[0];
    assert_eq!(o.index, 0);
    assert_eq!(o.overload_id, "function_f_0");
    assert_eq!(o.function_id, "function_f");
    assert_eq!(o.name, "f");
    assert_eq!(o.summary, "(x: number): string");
    assert_eq!(o.html_attrs, "checked");
    assert!(o.default_selected);
    assert_eq!(o.deprecated, None);
    assert_eq!(o.summary_doc, Some("docs of f".to_string()));
    let body = &ctx.functions[0];
    assert_eq!(body.id, "function_f_0_div");
    assert_eq!(body.docs, Some("docs of f".to_string()));
    assert_eq!(body.sections.len(), 2);
    assert_eq!(body.sections[0].kind, SectionKind::Parameters);
    assert_eq!(body.sections[0].title, "Parameters");
    let ps = entries(&body.sections[0].content);
    assert_eq!(ps.len(), 1);
    assert_eq!(ps[0].id, "function_f_0_parameters_x");
    assert_eq!(ps[0].name, "x");
    assert_eq!(ps[0].ts_type, ": number");
    assert!(ps[0].tags.is_empty());
    assert_eq!(ps[0].doc, None);
    assert_eq!(body.sections[1].kind, SectionKind::ReturnType);
    assert_eq!(body.sections[1].title, "Return Type");
    let rs = entries(&body.sections[1].content);
    assert_eq!(rs.len(), 1);
    assert_eq!(rs[0].id, "function_f_0_return");
    assert_eq!(rs[0].name, "");
    assert_eq!(rs[0].ts_type, "string");
}

#[test]
fn only_first_is_selected_by_default() {
    let nodes = vec![
        node("g", vec![], None, false, vec![]),
        node("g", vec![], None, false, vec![]),
        node("g", vec![], None, false, vec![]),
    ];
    let ctx = FunctionCtx::new(&PlainRenderer, &nodes);
    assert_eq!(ctx.overloads_ctx.len(), 3);
    let selected: Vec<usize> =
        ctx.overloads_ctx.iter().filter(|o| o.default_selected).map(|o| o.index).collect();
    assert_eq!(selected, vec![0]);
    assert_eq!(ctx.overloads_ctx[1].html_attrs, "");
    assert_eq!(ctx.overloads_ctx[2].overload_id, "function_g_2");
    assert_eq!(ctx.functions[2].id, "function_g_2_div");
}

#[test]
fn bodied_declaration_past_first_is_dropped() {
    let nodes = vec![
        node("h", vec![], None, false, vec![]),
        node("h", vec![], None, true, vec![]),
        node("h", vec![], None, false, vec![]),
    ];
    let ctx = FunctionCtx::new(&PlainRenderer, &nodes);
    assert_eq!(ctx.overloads_ctx.len(), 2);
    assert_eq!(ctx.overloads_ctx[0].index, 0);
    assert_eq!(ctx.overloads_ctx[1].index, 2);
    assert_eq!(ctx.overloads_ctx[1].overload_id, "function_h_2");
    assert_eq!(ctx.functions[1].id, "function_h_2_div");
}

#[test]
fn sole_declaration_is_kept_with_or_without_body() {
    for has_body in [false, true] {
        let nodes = vec![node("k", vec![], None, has_body, vec![])];
        let ctx = FunctionCtx::new(&PlainRenderer, &nodes);
        assert_eq!(ctx.overloads_ctx.len(), 1);
        assert_eq!(ctx.functions.len(), 1);
        assert!(ctx.overloads_ctx[0].default_selected);
        let expected = if has_body { None } else { Some("docs of k".to_string()) };
        assert_eq!(ctx.overloads_ctx[0].summary_doc, expected);
    }
}

#[test]
fn bodied_first_of_several_keeps_summary_doc() {
    let nodes = vec![node("m", vec![], None, true, vec![]), node("m", vec![], None, false, vec![])];
    let ctx = FunctionCtx::new(&PlainRenderer, &nodes);
    assert_eq!(ctx.overloads_ctx.len(), 2);
    assert_eq!(ctx.overloads_ctx[0].summary_doc, Some("docs of m".to_string()));
}

#[test]
fn empty_group_gives_nothing() {
    let ctx = FunctionCtx::new(&PlainRenderer, &vec![]);
    assert!(ctx.overloads_ctx.is_empty());
    assert!(ctx.functions.is_empty());
    assert_eq!(FunctionCtx::TEMPLATE, "function");
}

#[test]
fn literal_object_default_wins_over_tag() {
    let left = Param {
        pattern: ParamPattern::Object { properties: vec!["a".to_string(), "b".to_string()], optional: false },
        ts_type: ty("Opts"),
    };
    let p = Param { pattern: ParamPattern::Assign { left: Box::new(left), right: "{}".to_string() }, ts_type: None };
    let tags = vec![DocTag::Param {
        name: "unnamed 0".to_string(),
        doc: Some("the options".to_string()),
        optional: false,
        default: Some("{ a: 1 }".to_string()),
    }];
    let nodes = vec![node("o", vec![p], None, false, tags)];
    let ctx = FunctionCtx::new(&PlainRenderer, &nodes);
    let ps = param_section(&ctx.functions[0]).unwrap();
    assert_eq!(ps[0].name, "unnamed 0");
    assert_eq!(ps[0].id, "function_o_0_parameters__0_");
    assert_eq!(ps[0].tags, vec![EntryTag::Optional]);
    assert_eq!(ps[0].ts_type, format!(": Opts{}", suffix("{}")));
    assert_eq!(ps[0].doc, Some("the options".to_string()));
}

#[test]
fn tag_default_true_makes_optional() {
    let tags = vec![DocTag::Param {
        name: "flag".to_string(),
        doc: None,
        optional: false,
        default: Some("true".to_string()),
    }];
    let nodes = vec![node("t", vec![ident("flag", false, ty("boolean"))], None, false, tags)];
    let ctx = FunctionCtx::new(&PlainRenderer, &nodes);
    let ps = param_section(&ctx.functions[0]).unwrap();
    assert_eq!(ps[0].tags, vec![EntryTag::Optional]);
    assert_eq!(ps[0].ts_type, format!(": boolean{}", suffix("true")));
}

#[test]
fn optional_from_pattern_or_tag() {
    let tags = vec![DocTag::Param { name: "b".to_string(), doc: None, optional: true, default: None }];
    let nodes = vec![node(
        "q",
        vec![ident("a", true, ty("number")), ident("b", false, None), ident("c", false, None)],
        None,
        false,
        tags,
    )];
    let ctx = FunctionCtx::new(&PlainRenderer, &nodes);
    let ps = param_section(&ctx.functions[0]).unwrap();
    assert_eq!(ps[0].tags, vec![EntryTag::Optional]);
    assert_eq!(ps[1].tags, vec![EntryTag::Optional]);
    assert_eq!(ps[1].ts_type, "");
    assert!(ps[2].tags.is_empty());
}

#[test]
fn last_param_tag_of_a_name_wins() {
    let tags = vec![
        DocTag::Param { name: "x".to_string(), doc: Some("first".to_string()), optional: false, default: None },
        DocTag::Other { kind: "see".to_string(), value: None },
        DocTag::Param { name: "x".to_string(), doc: Some("second".to_string()), optional: false, default: None },
    ];
    let nodes = vec![node("d", vec![ident("x", false, None)], None, false, tags)];
    let ctx = FunctionCtx::new(&PlainRenderer, &nodes);
    let ps = param_section(&ctx.functions[0]).unwrap();
    assert_eq!(ps[0].doc, Some("second".to_string()));
}

#[test]
fn assembly_ids_repeat_exactly() {
    let make = || {
        vec![
            node("r.s", vec![ident("x", false, ty("number"))], ty("string"), false, vec![]),
            node("r.s", vec![ident("y", false, None)], None, false, vec![]),
        ]
    };
    let a = FunctionCtx::new(&PlainRenderer, &make());
    let b = FunctionCtx::new(&PlainRenderer, &make());
    assert_eq!(a.overloads_ctx.len(), b.overloads_ctx.len());
    for k in 0..a.overloads_ctx.len() {
        assert_eq!(a.overloads_ctx[k].overload_id, b.overloads_ctx[k].overload_id);
        assert_eq!(a.overloads_ctx[k].function_id, b.overloads_ctx[k].function_id);
        assert_eq!(a.functions[k].id, b.functions[k].id);
    }
    assert_eq!(a.overloads_ctx[1].overload_id, "function_r_s_1");
    assert_eq!(a.overloads_ctx[1].function_id, "function_r_s");
}

#[test]
fn no_params_no_parameters_section() {
    let nodes = vec![node("z", vec![], ty("void"), false, vec![])];
    let ctx = FunctionCtx::new(&PlainRenderer, &nodes);
    assert!(param_section(&ctx.functions[0]).is_none());
    assert_eq!(ctx.functions[0].sections.len(), 1);
    assert_eq!(ctx.functions[0].sections[0].kind, SectionKind::ReturnType);
}

#[test]
fn no_return_type_gives_empty_return_section() {
    let nodes = vec![node("n", vec![ident("a", false, None)], None, false, vec![])];
    let ctx = FunctionCtx::new(&PlainRenderer, &nodes);
    let last = ctx.functions[0].sections.last().unwrap();
    assert_eq!(last.kind, SectionKind::ReturnType);
    assert!(entries(&last.content).is_empty());
    assert_eq!(ctx.overloads_ctx[0].summary, "(a)");
}

#[test]
fn deprecation_notice() {
    let with_text = vec![node("p", vec![], None, false, vec![DocTag::Deprecated { doc: Some("use q".to_string()) }])];
    let ctx = FunctionCtx::new(&PlainRenderer, &with_text);
    assert_eq!(ctx.overloads_ctx[0].deprecated, Some("use q".to_string()));
    assert_eq!(ctx.overloads_ctx[0].additional_css, render_css_for_fn("function_p_0", true));
    let bare = vec![node("p", vec![], None, false, vec![DocTag::Deprecated { doc: None }])];
    let ctx = FunctionCtx::new(&PlainRenderer, &bare);
    assert_eq!(ctx.overloads_ctx[0].deprecated, Some(String::new()));
    let none = vec![node("p", vec![], None, false, vec![])];
    let ctx = FunctionCtx::new(&PlainRenderer, &none);
    assert_eq!(ctx.overloads_ctx[0].deprecated, None);
    assert_eq!(ctx.overloads_ctx[0].additional_css, render_css_for_fn("function_p_0", false));
}

#[test]
fn css_rule_text() {
    let css = render_css_for_fn("function_a_0", false);
    let expected = "\n#function_a_0 {\n  display: none;\n}\n#function_a_0:checked ~ *:last-child > :not(#function_a_0_div) {\n  display: none;\n}\n#function_a_0:checked ~ div:first-of-type > label[for='function_a_0'] {\n  background-color: var(--ddoc-selection-selected-bg);\n  border: solid var(--ddoc-selection-border-width) var(--ddoc-selection-selected-border-color);\n  cursor: unset;\n  padding: var(--ddoc-selection-padding); /* 1px less to counter the increased border */\n}\n";
    assert_eq!(css, expected);
    let dep = render_css_for_fn("x", true);
    assert!(dep.contains("background-color: #D256460C;"));
    assert!(dep.contains("var(--ddoc-selection-border-width) #DC2626;"));
}

#[test]
fn identifiers_are_sanitized() {
    assert_eq!(name_to_id("function", "a.b-c d"), "function_a_b_c_d");
    assert_eq!(name_to_id("ns", ""), "ns_");
    assert_eq!(name_to_id("ns", "Zz09"), "ns_Zz09");
}

#[test]
fn decimal_digits() {
    let mut s = String::from("n");
    push_decimal(&mut s, 120);
    assert_eq!(s, "n120");
    let mut z = String::new();
    push_decimal(&mut z, 0);
    assert_eq!(z, "0");
}

#[test]
fn return_entry_carries_return_doc() {
    let tags = vec![
        DocTag::Return { doc: None },
        DocTag::Return { doc: Some("the sum".to_string()) },
    ];
    let n = node("s", vec![], ty("number"), false, tags);
    let scope = TypeParamScope::for_type_params(&n.function_def.type_params);
    let e = render_function_return_type(&PlainRenderer, &scope, &n, &"function_s_0".to_string()).unwrap();
    assert_eq!(e.id, "function_s_0_return");
    assert_eq!(e.ts_type, "number");
    assert_eq!(e.doc, Some("the sum".to_string()));
    assert!(e.tags.is_empty());
    let bare = node("s", vec![], None, false, vec![]);
    assert!(render_function_return_type(&PlainRenderer, &scope, &bare, &"x".to_string()).is_none());
}

#[test]
fn generic_summary_and_scope() {
    let tps = vec![
        TypeParamDef { name: "T".to_string(), constraint: None, default: None },
        TypeParamDef { name: "U".to_string(), constraint: ty("string"), default: None },
    ];
    let def = FunctionDef {
        params: vec![ident("a", false, ty("T")), ident("b", false, None)],
        type_params: tps,
        return_type: ty("U"),
        has_body: false,
    };
    let scope = TypeParamScope::for_type_params(&def.type_params);
    assert!(scope.contains(&"T".to_string()));
    assert!(scope.contains(&"U".to_string()));
    assert!(!scope.contains(&"V".to_string()));
    assert_eq!(render_function_summary(&def, &PlainRenderer, &scope), "<T, U>(a: T, b): U");
    let empty = TypeParamScope::for_type_params(&vec![]);
    assert!(!empty.contains(&"T".to_string()));
}

#[test]
fn unnamed_array_parameter() {
    let p = Param {
        pattern: ParamPattern::Array { elements: vec![Some("x".to_string()), None], optional: true },
        ts_type: ty("[number, string]"),
    };
    let n = node("u", vec![ident("a", false, None), p], None, false, vec![]);
    let body = render_single_function(&PlainRenderer, &n, &"function_u_0".to_string());
    let ps = param_section(&body).unwrap();
    assert_eq!(ps[1].name, "unnamed 1");
    assert_eq!(ps[1].id, "function_u_0_parameters__1_");
    assert_eq!(ps[1].ts_type, ": [number, string]");
    assert_eq!(ps[1].tags, vec![EntryTag::Optional]);
    let scope = TypeParamScope::for_type_params(&vec![]);
    assert_eq!(PlainRenderer.params_summary(&scope, &n.function_def.params), "a, unnamed 1: [number, string]");
}
