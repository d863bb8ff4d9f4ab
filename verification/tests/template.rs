use hcp::Content;
use hcp::Context;
use hcp::TemplateError;

fn text(s: &str) -> Content {
    Content::Text(s.to_string())
}

fn no_flags() -> Vec<String> {
    Vec::new()
}

fn flags(names: &[&str]) -> Vec<String> {
    names.iter().map(|n| n.to_string()).collect()
}

#[test]
fn purity_same_inputs_same_output() {
    let make = || {
        Content::VLayout(vec![
            text("a"),
            Content::Ctx("k".to_string()),
            Content::If("f".to_string(), Box::new(text("yes")), Box::new(text("no"))),
        ])
    };
    let mut ctx = Context::new();
    ctx.insert("k".to_string(), text("v"));
    let fl = flags(&["f"]);
    let r1 = make().template(&ctx, &fl).unwrap();
    let r2 = make().template(&ctx, &fl).unwrap();
    assert_eq!(r1, r2);
}

#[test]
fn if_takes_true_branch_when_flag_is_active() {
    let node = Content::If("f".to_string(), Box::new(text("A")), Box::new(text("B")));
    let r = node.template(&Context::new(), &flags(&["f"])).unwrap();
    assert_eq!(r, text("A"));
}

#[test]
fn if_takes_false_branch_without_the_flag() {
    let node = Content::If("f".to_string(), Box::new(text("A")), Box::new(text("B")));
    let r = node.template(&Context::new(), &no_flags()).unwrap();
    assert_eq!(r, text("B"));
}

#[test]
fn if_matches_resolving_the_taken_branch_alone() {
    let fl = flags(&["f"]);
    let branch = Content::HLayout(vec![text("x"), Content::Ctx("k".to_string())]);
    let node = Content::If("f".to_string(), Box::new(branch), Box::new(text("dead")));
    let mut ctx = Context::new();
    ctx.insert("k".to_string(), text("v"));
    let whole = node.template(&ctx, &fl).unwrap();
    let branch_again = Content::HLayout(vec![text("x"), Content::Ctx("k".to_string())]);
    let alone = branch_again.template(&ctx, &fl).unwrap();
    assert_eq!(whole, alone);
}

#[test]
fn nested_if_leaves_no_if_in_the_output() {
    let node = Content::If(
        "outer".to_string(),
        Box::new(Content::If(
            "inner".to_string(),
            Box::new(text("both")),
            Box::new(text("outer only")),
        )),
        Box::new(text("neither")),
    );
    let r = node.template(&Context::new(), &flags(&["outer"])).unwrap();
    assert_eq!(r, text("outer only"));
}

#[test]
fn flag_matching_ignores_order_and_repetition() {
    let node = Content::If("b".to_string(), Box::new(text("on")), Box::new(text("off")));
    let r = node.template(&Context::new(), &flags(&["a", "a", "b"])).unwrap();
    assert_eq!(r, text("on"));
}

#[test]
fn ctx_substitutes_the_bound_value() {
    let mut ctx = Context::new();
    ctx.insert("name".to_string(), text("Alice"));
    let r = Content::Ctx("name".to_string()).template(&ctx, &no_flags()).unwrap();
    assert_eq!(r, text("Alice"));
}

#[test]
fn ctx_missing_key_yields_a_nonempty_text_sentinel() {
    let r = Content::Ctx("missing".to_string()).template(&Context::new(), &no_flags()).unwrap();
    match r {
        Content::Text(s) => assert!(!s.is_empty()),
        other => panic!("expected a text sentinel, got {:?}", other),
    }
}

#[test]
fn ctx_later_insert_shadows_earlier_one() {
    let mut ctx = Context::new();
    ctx.insert("k".to_string(), text("old"));
    ctx.insert("k".to_string(), text("new"));
    let r = Content::Ctx("k".to_string()).template(&ctx, &no_flags()).unwrap();
    assert_eq!(r, text("new"));
}

#[test]
fn context_get_finds_the_binding() {
    let mut ctx = Context::new();
    ctx.insert("k".to_string(), text("v"));
    assert_eq!(ctx.get(&"k".to_string()), Some(&text("v")));
    assert_eq!(ctx.get(&"other".to_string()), None);
}

#[test]
fn nested_ctx_value_is_recursively_resolved() {
    let mut ctx = Context::new();
    ctx.insert(
        "x".to_string(),
        Content::If("f".to_string(), Box::new(text("Y")), Box::new(text("N"))),
    );
    let r = Content::Ctx("x".to_string()).template(&ctx, &flags(&["f"])).unwrap();
    assert_eq!(r, text("Y"));
}

#[test]
fn ctx_chain_is_followed_to_the_end() {
    let mut ctx = Context::new();
    ctx.insert("a".to_string(), Content::Ctx("b".to_string()));
    ctx.insert("b".to_string(), text("end"));
    let r = Content::Ctx("a".to_string()).template(&ctx, &no_flags()).unwrap();
    assert_eq!(r, text("end"));
}

#[test]
fn self_cycle_terminates_with_the_cycle_error() {
    let mut ctx = Context::new();
    ctx.insert("a".to_string(), Content::Ctx("a".to_string()));
    let r = Content::Ctx("a".to_string()).template(&ctx, &no_flags());
    assert_eq!(r, Err(TemplateError::Cycle));
}

#[test]
fn two_key_cycle_terminates_with_the_cycle_error() {
    let mut ctx = Context::new();
    ctx.insert("a".to_string(), Content::Ctx("b".to_string()));
    ctx.insert("b".to_string(), Content::Ctx("a".to_string()));
    let r = Content::HLayout(vec![Content::Ctx("a".to_string())]).template(&ctx, &no_flags());
    assert_eq!(r, Err(TemplateError::Cycle));
}

#[test]
fn depth_bound_is_exact_on_a_substitution_chain() {
    let mut ctx = Context::new();
    ctx.insert("a".to_string(), Content::Ctx("b".to_string()));
    ctx.insert("b".to_string(), text("end"));
    let shallow = Content::Ctx("a".to_string()).template_with_depth(&ctx, &no_flags(), 1);
    assert_eq!(shallow, Err(TemplateError::Cycle));
    let deep = Content::Ctx("a".to_string()).template_with_depth(&ctx, &no_flags(), 2);
    assert_eq!(deep, Ok(text("end")));
}

#[test]
fn default_depth_bound_is_exact() {
    let depth = hcp::TEMPLATE_DEPTH as usize;
    // A chain of exactly `depth` substitutions resolves.
    let mut ctx = Context::new();
    for i in 0..depth - 1 {
        ctx.insert(format!("key{}", i), Content::Ctx(format!("key{}", i + 1)));
    }
    ctx.insert(format!("key{}", depth - 1), text("end"));
    let ok = Content::Ctx("key0".to_string()).template(&ctx, &no_flags());
    assert_eq!(ok, Ok(text("end")));
    // One more link exceeds the bound.
    let mut ctx2 = Context::new();
    for i in 0..depth {
        ctx2.insert(format!("key{}", i), Content::Ctx(format!("key{}", i + 1)));
    }
    ctx2.insert(format!("key{}", depth), text("end"));
    let too_deep = Content::Ctx("key0".to_string()).template(&ctx2, &no_flags());
    assert_eq!(too_deep, Err(TemplateError::Cycle));
}

#[test]
fn missing_key_needs_no_depth() {
    let r = Content::Ctx("missing".to_string()).template_with_depth(
        &Context::new(),
        &no_flags(),
        0,
    );
    match r {
        Ok(Content::Text(s)) => assert!(!s.is_empty()),
        other => panic!("expected a text sentinel, got {:?}", other),
    }
}

#[test]
fn layout_preserves_child_count_and_order() {
    let node = Content::HLayout(vec![text("a"), text("b")]);
    let r = node.template(&Context::new(), &no_flags()).unwrap();
    assert_eq!(r, Content::HLayout(vec![text("a"), text("b")]));
}

#[test]
fn every_layout_variant_resolves_its_children() {
    let ctxed = || Content::Ctx("k".to_string());
    let mut ctx = Context::new();
    ctx.insert("k".to_string(), text("v"));
    let fl = no_flags();
    assert_eq!(
        Content::VLayout(vec![ctxed(), text("t")]).template(&ctx, &fl).unwrap(),
        Content::VLayout(vec![text("v"), text("t")]),
    );
    assert_eq!(
        Content::InlineLayout(vec![ctxed()]).template(&ctx, &fl).unwrap(),
        Content::InlineLayout(vec![text("v")]),
    );
    assert_eq!(
        Content::Table(vec![Content::HLayout(vec![ctxed()])]).template(&ctx, &fl).unwrap(),
        Content::Table(vec![Content::HLayout(vec![text("v")])]),
    );
    assert_eq!(
        Content::Menu(vec![ctxed()]).template(&ctx, &fl).unwrap(),
        Content::Menu(vec![text("v")]),
    );
}

#[test]
fn form_resolves_children_and_keeps_post_url() {
    let node = Content::Form(
        vec![
            Content::Field("user".to_string(), "User".to_string(), "username".to_string()),
            Content::Ctx("k".to_string()),
        ],
        "https://example.test/post".to_string(),
    );
    let mut ctx = Context::new();
    ctx.insert("k".to_string(), text("v"));
    let r = node.template(&ctx, &no_flags()).unwrap();
    assert_eq!(
        r,
        Content::Form(
            vec![
                Content::Field("user".to_string(), "User".to_string(), "username".to_string()),
                text("v"),
            ],
            "https://example.test/post".to_string(),
        ),
    );
}

#[test]
fn leaves_pass_through_unchanged() {
    let ctx = Context::new();
    let fl = no_flags();
    let blob = Content::Blob("u".to_string(), "m".to_string(), "d".to_string());
    assert_eq!(
        blob.template(&ctx, &fl).unwrap(),
        Content::Blob("u".to_string(), "m".to_string(), "d".to_string()),
    );
    let live = Content::Live("https://example.test/live".to_string(), 0x3FF0000000000000);
    assert_eq!(
        live.template(&ctx, &fl).unwrap(),
        Content::Live("https://example.test/live".to_string(), 0x3FF0000000000000),
    );
    let r = Content::Ref("u".to_string(), "d".to_string());
    assert_eq!(r.template(&ctx, &fl).unwrap(), Content::Ref("u".to_string(), "d".to_string()));
    let field = Content::Field("n".to_string(), "l".to_string(), "text".to_string());
    assert_eq!(
        field.template(&ctx, &fl).unwrap(),
        Content::Field("n".to_string(), "l".to_string(), "text".to_string()),
    );
    assert_eq!(text("plain").template(&ctx, &fl).unwrap(), text("plain"));
}

#[test]
fn include_passes_through_unchanged() {
    let node = Content::Include("https://example.test/part".to_string());
    let r = node.template(&Context::new(), &no_flags()).unwrap();
    assert_eq!(r, Content::Include("https://example.test/part".to_string()));
}

#[test]
fn resolving_a_resolved_tree_is_a_no_op() {
    let make = || {
        Content::VLayout(vec![
            Content::HLayout(vec![text("a"), text("b")]),
            Content::Menu(vec![Content::Ref("u".to_string(), "d".to_string())]),
            Content::Form(vec![text("c")], "https://example.test".to_string()),
        ])
    };
    let mut ctx = Context::new();
    ctx.insert("k".to_string(), text("unused"));
    let fl = flags(&["f"]);
    let once = make().template(&ctx, &fl).unwrap();
    assert_eq!(once, make());
    let twice = make().template(&ctx, &fl).unwrap().template(&ctx, &fl).unwrap();
    assert_eq!(twice, make());
}

#[test]
fn a_failing_subtree_fails_the_call_as_a_whole() {
    let mut ctx = Context::new();
    ctx.insert("a".to_string(), Content::Ctx("a".to_string()));
    let node = Content::VLayout(vec![text("fine"), Content::Ctx("a".to_string())]);
    assert_eq!(node.template(&ctx, &no_flags()), Err(TemplateError::Cycle));
}
