//! Laws of the template engine: what holds of [`resolve`] for every input.

use vstd::prelude::*;
use crate::content::Node;
use crate::engine::resolve;
use crate::engine::resolve_seq;
use crate::engine::lemma_resolve_seq_pointwise;
use crate::engine::missing_key_text;

verus! {

/// Whether a node is a leaf: it has no children for resolution to visit.
/// `Include` counts: fetching is outside the engine's scope, so the engine
/// treats it as a pass-through leaf.
pub open spec fn is_leaf(n: Node) -> bool {
    match n {
        Node::Text(_) => true,
        Node::Live(_, _) => true,
        Node::Blob(_, _, _) => true,
        Node::Ref(_, _) => true,
        Node::Include(_) => true,
        Node::Field(_, _, _) => true,
        _ => false,
    }
}

/// Whether a tree is free of the directives the engine eliminates: it
/// contains no `If` and no `Ctx` node anywhere.
pub open spec fn resolved_form(n: Node) -> bool
    decreases n,
{
    match n {
        Node::If(_, _, _) => false,
        Node::Ctx(_) => false,
        Node::HLayout(cs) => resolved_seq_form(cs),
        Node::VLayout(cs) => resolved_seq_form(cs),
        Node::InlineLayout(cs) => resolved_seq_form(cs),
        Node::Table(cs) => resolved_seq_form(cs),
        Node::Menu(cs) => resolved_seq_form(cs),
        Node::Form(cs, _) => resolved_seq_form(cs),
        _ => true,
    }
}

/// Whether every tree of a list is free of `If` and `Ctx` nodes.
pub open spec fn resolved_seq_form(cs: Seq<Node>) -> bool
    decreases cs,
{
    cs.len() == 0 || (resolved_form(cs[0]) && resolved_seq_form(cs.drop_first()))
}

/// Law (purity): resolution is a function of the models of its inputs and
/// nothing else, so any two resolutions of the same node under the same
/// context, flags and fuel return structurally identical trees.
pub proof fn lemma_resolve_deterministic(
    n: Node,
    ctx: Map<Seq<char>, Node>,
    flags: Set<Seq<char>>,
    fuel: nat,
    out1: Node,
    out2: Node,
)
    requires
        resolve(n, ctx, flags, fuel) == Some(out1),
        resolve(n, ctx, flags, fuel) == Some(out2),
    ensures
        out1 == out2,
{
}

/// Law (pass-through leaves): resolving a leaf returns it unchanged, for any
/// context, flags and fuel.
pub proof fn lemma_leaf_pass_through(n: Node, ctx: Map<Seq<char>, Node>, flags: Set<Seq<char>>, fuel: nat)
    requires
        is_leaf(n),
    ensures
        resolve(n, ctx, flags, fuel) == Some(n),
{
}

/// Law (`If` elimination): resolving `If(f, a, b)` resolves exactly the
/// branch the flags select, and never the other.
pub proof fn lemma_if_elimination(
    f: Seq<char>,
    a: Node,
    b: Node,
    ctx: Map<Seq<char>, Node>,
    flags: Set<Seq<char>>,
    fuel: nat,
)
    ensures
        flags.contains(f) ==> resolve(Node::If(f, Box::new(a), Box::new(b)), ctx, flags, fuel)
            == resolve(a, ctx, flags, fuel),
        !flags.contains(f) ==> resolve(Node::If(f, Box::new(a), Box::new(b)), ctx, flags, fuel)
            == resolve(b, ctx, flags, fuel),
{
}

/// Law (missing key): a `Ctx` directive whose key is not bound resolves to
/// the sentinel text node — a non-empty text, never a failure.
pub proof fn lemma_missing_key_sentinel(
    k: Seq<char>,
    ctx: Map<Seq<char>, Node>,
    flags: Set<Seq<char>>,
    fuel: nat,
)
    requires
        !ctx.contains_key(k),
    ensures
        resolve(Node::Ctx(k), ctx, flags, fuel) == Some(Node::Text(missing_key_text())),
        missing_key_text().len() > 0,
{
    reveal_strlit("BAD CONTEXT");
}

/// Law (bound key): a `Ctx` directive whose key is bound resolves, with one
/// unit of fuel spent, to what the bound value resolves to.
pub proof fn lemma_bound_key_substitution(
    k: Seq<char>,
    ctx: Map<Seq<char>, Node>,
    flags: Set<Seq<char>>,
    fuel: nat,
)
    requires
        ctx.contains_key(k),
        fuel > 0,
    ensures
        resolve(Node::Ctx(k), ctx, flags, fuel) == resolve(ctx[k], ctx, flags, (fuel - 1) as nat),
{
}

/// Law (cycle bound): a context key bound to its own `Ctx` directive
/// exhausts any amount of fuel, so resolving it reports a failure instead of
/// running forever.
pub proof fn lemma_self_cycle(
    k: Seq<char>,
    ctx: Map<Seq<char>, Node>,
    flags: Set<Seq<char>>,
    fuel: nat,
)
    requires
        ctx.contains_key(k),
        ctx[k] == Node::Ctx(k),
    ensures
        resolve(Node::Ctx(k), ctx, flags, fuel) is None,
    decreases fuel,
{
    if fuel > 0 {
        lemma_self_cycle(k, ctx, flags, (fuel - 1) as nat);
    }
}

/// Law (structural preservation): for every layout-bearing variant, a
/// successful resolution returns the same variant, with the same child count,
/// each output child being what the input child at the same index resolves
/// to; a form also keeps its post URL unchanged.
pub proof fn lemma_structural_preservation(
    cs: Seq<Node>,
    u: Seq<char>,
    ctx: Map<Seq<char>, Node>,
    flags: Set<Seq<char>>,
    fuel: nat,
)
    ensures
        resolve(Node::HLayout(cs), ctx, flags, fuel) matches Some(out) ==> out
            == Node::HLayout(resolve_seq(cs, ctx, flags, fuel)->Some_0),
        resolve(Node::VLayout(cs), ctx, flags, fuel) matches Some(out) ==> out
            == Node::VLayout(resolve_seq(cs, ctx, flags, fuel)->Some_0),
        resolve(Node::InlineLayout(cs), ctx, flags, fuel) matches Some(out) ==> out
            == Node::InlineLayout(resolve_seq(cs, ctx, flags, fuel)->Some_0),
        resolve(Node::Table(cs), ctx, flags, fuel) matches Some(out) ==> out
            == Node::Table(resolve_seq(cs, ctx, flags, fuel)->Some_0),
        resolve(Node::Menu(cs), ctx, flags, fuel) matches Some(out) ==> out
            == Node::Menu(resolve_seq(cs, ctx, flags, fuel)->Some_0),
        resolve(Node::Form(cs, u), ctx, flags, fuel) matches Some(out) ==> out
            == Node::Form(resolve_seq(cs, ctx, flags, fuel)->Some_0, u),
        resolve_seq(cs, ctx, flags, fuel) matches Some(rs) ==> rs.len() == cs.len()
            && (forall|i: int|
            0 <= i < cs.len() ==> Some(rs[i]) == #[trigger] resolve(cs[i], ctx, flags, fuel)),
{
    lemma_resolve_seq_pointwise(cs, ctx, flags, fuel);
}

/// Law (no directive survives): a successful resolution output contains no
/// `If` and no `Ctx` node anywhere.
pub proof fn lemma_output_resolved(
    n: Node,
    ctx: Map<Seq<char>, Node>,
    flags: Set<Seq<char>>,
    fuel: nat,
)
    ensures
        resolve(n, ctx, flags, fuel) matches Some(out) ==> resolved_form(out),
    decreases fuel, n,
{
    match n {
        Node::HLayout(cs) => lemma_output_resolved_seq(cs, ctx, flags, fuel),
        Node::VLayout(cs) => lemma_output_resolved_seq(cs, ctx, flags, fuel),
        Node::InlineLayout(cs) => lemma_output_resolved_seq(cs, ctx, flags, fuel),
        Node::Table(cs) => lemma_output_resolved_seq(cs, ctx, flags, fuel),
        Node::Menu(cs) => lemma_output_resolved_seq(cs, ctx, flags, fuel),
        Node::Form(cs, _) => lemma_output_resolved_seq(cs, ctx, flags, fuel),
        Node::If(f, t, e) => {
            lemma_output_resolved(*t, ctx, flags, fuel);
            lemma_output_resolved(*e, ctx, flags, fuel);
        },
        Node::Ctx(k) => {
            if ctx.contains_key(k) && fuel > 0 {
                lemma_output_resolved(ctx[k], ctx, flags, (fuel - 1) as nat);
            } else if !ctx.contains_key(k) {
                reveal_strlit("BAD CONTEXT");
            }
        },
        _ => {},
    }
}

/// Law helper: every tree of a successfully resolved child list contains no
/// `If` and no `Ctx` node.
pub proof fn lemma_output_resolved_seq(
    cs: Seq<Node>,
    ctx: Map<Seq<char>, Node>,
    flags: Set<Seq<char>>,
    fuel: nat,
)
    ensures
        resolve_seq(cs, ctx, flags, fuel) matches Some(rs) ==> resolved_seq_form(rs),
    decreases fuel, cs,
{
    if cs.len() > 0 {
        lemma_output_resolved(cs[0], ctx, flags, fuel);
        lemma_output_resolved_seq(cs.drop_first(), ctx, flags, fuel);
        if resolve_seq(cs, ctx, flags, fuel) is Some {
            let rs = resolve_seq(cs, ctx, flags, fuel)->Some_0;
            let t = resolve_seq(cs.drop_first(), ctx, flags, fuel)->Some_0;
            assert(rs.drop_first() =~= t);
        }
    }
}

/// Law (no-op on resolved trees): resolving a tree that contains no `If` and
/// no `Ctx` node returns it unchanged, for any context, flags and fuel.
pub proof fn lemma_resolve_noop(
    n: Node,
    ctx: Map<Seq<char>, Node>,
    flags: Set<Seq<char>>,
    fuel: nat,
)
    requires
        resolved_form(n),
    ensures
        resolve(n, ctx, flags, fuel) == Some(n),
    decreases fuel, n,
{
    match n {
        Node::HLayout(cs) => lemma_resolve_noop_seq(cs, ctx, flags, fuel),
        Node::VLayout(cs) => lemma_resolve_noop_seq(cs, ctx, flags, fuel),
        Node::InlineLayout(cs) => lemma_resolve_noop_seq(cs, ctx, flags, fuel),
        Node::Table(cs) => lemma_resolve_noop_seq(cs, ctx, flags, fuel),
        Node::Menu(cs) => lemma_resolve_noop_seq(cs, ctx, flags, fuel),
        Node::Form(cs, _) => lemma_resolve_noop_seq(cs, ctx, flags, fuel),
        _ => {},
    }
}

/// Law helper: resolving a child list whose trees contain no `If` and no
/// `Ctx` node returns it unchanged.
pub proof fn lemma_resolve_noop_seq(
    cs: Seq<Node>,
    ctx: Map<Seq<char>, Node>,
    flags: Set<Seq<char>>,
    fuel: nat,
)
    requires
        resolved_seq_form(cs),
    ensures
        resolve_seq(cs, ctx, flags, fuel) == Some(cs),
    decreases fuel, cs,
{
    if cs.len() > 0 {
        lemma_resolve_noop(cs[0], ctx, flags, fuel);
        lemma_resolve_noop_seq(cs.drop_first(), ctx, flags, fuel);
        assert(seq![cs[0]] + cs.drop_first() =~= cs);
    }
}

/// Law (idempotence): what a successful resolution returns, a second
/// resolution — under any context, flags and fuel — returns unchanged.
pub proof fn lemma_resolve_idempotent(
    n: Node,
    ctx: Map<Seq<char>, Node>,
    flags: Set<Seq<char>>,
    fuel: nat,
    ctx2: Map<Seq<char>, Node>,
    flags2: Set<Seq<char>>,
    fuel2: nat,
)
    ensures
        resolve(n, ctx, flags, fuel) matches Some(out) ==> resolve(out, ctx2, flags2, fuel2)
            == Some(out),
{
    lemma_output_resolved(n, ctx, flags, fuel);
    if resolve(n, ctx, flags, fuel) is Some {
        let out = resolve(n, ctx, flags, fuel)->Some_0;
        lemma_resolve_noop(out, ctx2, flags2, fuel2);
    }
}

} // verus!
