//! The template engine: a pure, recursive transformation of a content tree
//! given a substitution context and a set of active feature flags. It
//! eliminates `If` directives by taking the branch the flags select, and
//! `Ctx` directives by substituting (and recursively resolving) the context
//! value bound to the key; every other variant is rebuilt around its resolved
//! children or passed through unchanged. Fetching is outside this engine's
//! scope, so `Include` directives pass through unchanged.
//!
//! Chains of `Ctx` substitutions are depth-bounded, so that a context whose
//! value refers back to its own key ends in [`TemplateError::Cycle`] instead
//! of running forever.

use vstd::prelude::*;
use vstd::string::StringExecFns;
use crate::content::Content;
use crate::content::Node;
use crate::content::deep_view_seq;
use crate::content::lemma_deep_view_seq;
use crate::context::Context;

verus! {

/// The one condition fatal to a resolution call. No input tree is invalid:
/// resolution degrades gracefully everywhere else (an unbound context key
/// becomes a visible sentinel text node, advisory nesting violations pass
/// through).
#[derive(Clone, Copy, Debug, PartialEq, Eq)]
pub enum TemplateError {
    /// A chain of `Ctx` substitutions exceeded the depth bound, as happens
    /// when a context value refers back to its own key.
    Cycle,
}

/// The depth bound [`Content::template`] places on chains of `Ctx`
/// substitutions.
pub const TEMPLATE_DEPTH: u32 = 64;

/// The set of feature names a flag list stands for: membership only, order
/// and repetition do not matter.
pub open spec fn flag_set(flags: Seq<String>) -> Set<Seq<char>> {
    Set::new(|f: Seq<char>| exists|i: int| 0 <= i < flags.len() && flags[i]@ == f)
}

/// The text of the sentinel node substituted for a `Ctx` directive whose key
/// is not bound in the context. It is a non-empty text clearly
/// distinguishable from legitimate content; see
/// [`crate::laws::lemma_missing_key_sentinel`].
pub open spec fn missing_key_text() -> Seq<char> {
    "BAD CONTEXT"@
}

/// What resolving a node returns: the fully-resolved tree, or `None` when a
/// chain of `Ctx` substitutions is deeper than `fuel`. Only a `Ctx`
/// substitution consumes fuel; recursion into children does not.
pub open spec fn resolve(
    n: Node,
    ctx: Map<Seq<char>, Node>,
    flags: Set<Seq<char>>,
    fuel: nat,
) -> Option<Node>
    decreases fuel, n,
{
    match n {
        Node::Text(_) => Some(n),
        Node::HLayout(cs) => match resolve_seq(cs, ctx, flags, fuel) {
            Some(rs) => Some(Node::HLayout(rs)),
            None => None,
        },
        Node::VLayout(cs) => match resolve_seq(cs, ctx, flags, fuel) {
            Some(rs) => Some(Node::VLayout(rs)),
            None => None,
        },
        Node::InlineLayout(cs) => match resolve_seq(cs, ctx, flags, fuel) {
            Some(rs) => Some(Node::InlineLayout(rs)),
            None => None,
        },
        Node::Table(cs) => match resolve_seq(cs, ctx, flags, fuel) {
            Some(rs) => Some(Node::Table(rs)),
            None => None,
        },
        Node::Live(_, _) => Some(n),
        Node::Blob(_, _, _) => Some(n),
        Node::Menu(cs) => match resolve_seq(cs, ctx, flags, fuel) {
            Some(rs) => Some(Node::Menu(rs)),
            None => None,
        },
        Node::Ref(_, _) => Some(n),
        Node::If(f, t, e) => if flags.contains(f) {
            resolve(*t, ctx, flags, fuel)
        } else {
            resolve(*e, ctx, flags, fuel)
        },
        Node::Include(_) => Some(n),
        Node::Ctx(k) => if ctx.contains_key(k) {
            if fuel == 0 {
                None
            } else {
                resolve(ctx[k], ctx, flags, (fuel - 1) as nat)
            }
        } else {
            Some(Node::Text(missing_key_text()))
        },
        Node::Form(cs, u) => match resolve_seq(cs, ctx, flags, fuel) {
            Some(rs) => Some(Node::Form(rs, u)),
            None => None,
        },
        Node::Field(_, _, _) => Some(n),
    }
}

/// What resolving every node of a child list in order returns: the resolved
/// list, or `None` as soon as any child fails.
pub open spec fn resolve_seq(
    cs: Seq<Node>,
    ctx: Map<Seq<char>, Node>,
    flags: Set<Seq<char>>,
    fuel: nat,
) -> Option<Seq<Node>>
    decreases fuel, cs,
{
    if cs.len() == 0 {
        Some(Seq::empty())
    } else {
        match (resolve(cs[0], ctx, flags, fuel), resolve_seq(
            cs.drop_first(),
            ctx,
            flags,
            fuel,
        )) {
            (Some(h), Some(t)) => Some(seq![h] + t),
            _ => None,
        }
    }
}

/// Law: resolving a child list succeeds exactly when every child resolves,
/// and then preserves child count and order: the element at each index of
/// the output is what the element at the same index of the input resolves
/// to.
pub proof fn lemma_resolve_seq_pointwise(
    cs: Seq<Node>,
    ctx: Map<Seq<char>, Node>,
    flags: Set<Seq<char>>,
    fuel: nat,
)
    ensures
        resolve_seq(cs, ctx, flags, fuel) is Some <==> (forall|i: int|
            0 <= i < cs.len() ==> (#[trigger] resolve(cs[i], ctx, flags, fuel)) is Some),
        resolve_seq(cs, ctx, flags, fuel) matches Some(rs) ==> rs.len() == cs.len()
            && (forall|i: int|
            0 <= i < cs.len() ==> Some(rs[i]) == #[trigger] resolve(cs[i], ctx, flags, fuel)),
    decreases cs,
{
    if cs.len() > 0 {
        lemma_resolve_seq_pointwise(cs.drop_first(), ctx, flags, fuel);
        assert(forall|i: int|
            0 <= i < cs.len() - 1 ==> #[trigger] cs.drop_first()[i] == cs[i + 1]);
        if forall|i: int|
            0 <= i < cs.len() ==> (#[trigger] resolve(cs[i], ctx, flags, fuel)) is Some {
            assert forall|i: int|
                0 <= i < cs.drop_first().len() implies (#[trigger] resolve(
                cs.drop_first()[i],
                ctx,
                flags,
                fuel,
            )) is Some by {
                assert(cs.drop_first()[i] == cs[i + 1]);
                assert(resolve(cs[i + 1], ctx, flags, fuel) is Some);
            }
        }
        if resolve_seq(cs, ctx, flags, fuel) is Some {
            let rs = resolve_seq(cs, ctx, flags, fuel)->Some_0;
            let h = resolve(cs[0], ctx, flags, fuel)->Some_0;
            let t = resolve_seq(cs.drop_first(), ctx, flags, fuel)->Some_0;
            assert(rs == seq![h] + t);
            assert forall|i: int|
                0 <= i < cs.len() implies Some(rs[i]) == #[trigger] resolve(
                cs[i],
                ctx,
                flags,
                fuel,
            ) by {
                if i > 0 {
                    assert(rs[i] == t[i - 1]);
                    assert(Some(t[i - 1]) == resolve(cs.drop_first()[i - 1], ctx, flags, fuel));
                    assert(cs.drop_first()[i - 1] == cs[i]);
                }
            }
        }
    }
}

/// Checks whether `name` is one of the feature flags in `flags`.
fn contains_flag(flags: &Vec<String>, name: &String) -> (r: bool)
    ensures
        r == flag_set(flags@).contains(name@),
{
    let mut i: usize = 0;
    while i < flags.len()
        invariant
            i <= flags@.len(),
            forall|j: int| 0 <= j < i ==> flags@[j]@ != name@,
        decreases flags@.len() - i,
    {
        if flags[i] == *name {
            proof {
                assert(flags@[i as int]@ == name@);
            }
            return true;
        }
        i += 1;
    }
    false
}

/// The visible sentinel node text substituted for an unbound context key.
fn sentinel_text() -> (r: String)
    ensures
        r@ == missing_key_text(),
{
    String::from_str("BAD CONTEXT")
}

/// Resolves every node of a child list in order, as [`resolve_seq`] says.
fn resolve_vec(
    v: &Vec<Content>,
    context: &Context,
    flags: &Vec<String>,
    fuel: u32,
) -> (r: Result<Vec<Content>, TemplateError>)
    ensures
        match r {
            Ok(out) => resolve_seq(deep_view_seq(v@), context@, flag_set(flags@), fuel as nat)
                == Some(deep_view_seq(out@)),
            Err(e) => resolve_seq(deep_view_seq(v@), context@, flag_set(flags@), fuel as nat)
                is None && e == TemplateError::Cycle,
        },
    decreases fuel, v,
{
    let ghost cs = deep_view_seq(v@);
    let ghost m = context@;
    let ghost fs = flag_set(flags@);
    proof {
        lemma_deep_view_seq(v@);
    }
    let mut out: Vec<Content> = Vec::new();
    let mut i: usize = 0;
    while i < v.len()
        invariant
            i <= v@.len(),
            out@.len() == i,
            cs == deep_view_seq(v@),
            m == context@,
            fs == flag_set(flags@),
            cs.len() == v@.len(),
            forall|j: int| 0 <= j < v@.len() ==> cs[j] == #[trigger] v@[j].deep_view(),
            forall|j: int|
                0 <= j < i ==> resolve(cs[j], m, fs, fuel as nat) == Some(
                    #[trigger] out@[j].deep_view(),
                ),
        decreases v@.len() - i,
    {
        match resolve_content(&v[i], context, flags, fuel) {
            Ok(c) => {
                out.push(c);
            },
            Err(e) => {
                proof {
                    lemma_resolve_seq_pointwise(cs, m, fs, fuel as nat);
                    assert(resolve(cs[i as int], m, fs, fuel as nat) is None);
                }
                return Err(e);
            },
        }
        i += 1;
    }
    proof {
        lemma_resolve_seq_pointwise(cs, m, fs, fuel as nat);
        lemma_deep_view_seq(out@);
        assert forall|j: int|
            0 <= j < cs.len() implies (#[trigger] resolve(cs[j], m, fs, fuel as nat)) is Some by {
            assert(resolve(cs[j], m, fs, fuel as nat) == Some(out@[j].deep_view()));
        }
        let rs = resolve_seq(cs, m, fs, fuel as nat)->Some_0;
        assert forall|j: int| 0 <= j < cs.len() implies rs[j] == deep_view_seq(out@)[j] by {
            assert(Some(rs[j]) == resolve(cs[j], m, fs, fuel as nat));
            assert(resolve(cs[j], m, fs, fuel as nat) == Some(out@[j].deep_view()));
            assert(deep_view_seq(out@)[j] == out@[j].deep_view());
        }
        assert(rs =~= deep_view_seq(out@));
    }
    Ok(out)
}

/// Resolves one node, as [`resolve`] says.
fn resolve_content(
    c: &Content,
    context: &Context,
    flags: &Vec<String>,
    fuel: u32,
) -> (r: Result<Content, TemplateError>)
    ensures
        match r {
            Ok(out) => resolve(c.deep_view(), context@, flag_set(flags@), fuel as nat) == Some(
                out.deep_view(),
            ),
            Err(e) => resolve(c.deep_view(), context@, flag_set(flags@), fuel as nat) is None
                && e == TemplateError::Cycle,
        },
    decreases fuel, c,
{
    match c {
        Content::Text(s) => Ok(Content::Text(s.clone())),
        Content::HLayout(v) => match resolve_vec(v, context, flags, fuel) {
            Ok(rv) => Ok(Content::HLayout(rv)),
            Err(e) => Err(e),
        },
        Content::VLayout(v) => match resolve_vec(v, context, flags, fuel) {
            Ok(rv) => Ok(Content::VLayout(rv)),
            Err(e) => Err(e),
        },
        Content::InlineLayout(v) => match resolve_vec(v, context, flags, fuel) {
            Ok(rv) => Ok(Content::InlineLayout(rv)),
            Err(e) => Err(e),
        },
        Content::Table(v) => match resolve_vec(v, context, flags, fuel) {
            Ok(rv) => Ok(Content::Table(rv)),
            Err(e) => Err(e),
        },
        Content::Live(u, iv) => Ok(Content::Live(u.clone(), *iv)),
        Content::Blob(u, m, d) => Ok(Content::Blob(u.clone(), m.clone(), d.clone())),
        Content::Menu(v) => match resolve_vec(v, context, flags, fuel) {
            Ok(rv) => Ok(Content::Menu(rv)),
            Err(e) => Err(e),
        },
        Content::Ref(u, d) => Ok(Content::Ref(u.clone(), d.clone())),
        Content::If(f, t, e) => if contains_flag(flags, f) {
            resolve_content(&**t, context, flags, fuel)
        } else {
            resolve_content(&**e, context, flags, fuel)
        },
        Content::Include(u) => Ok(Content::Include(u.clone())),
        Content::Ctx(k) => match context.get(k) {
            Some(value) => {
                if fuel == 0 {
                    Err(TemplateError::Cycle)
                } else {
                    resolve_content(value, context, flags, fuel - 1)
                }
            },
            None => Ok(Content::Text(sentinel_text())),
        },
        Content::Form(v, u) => match resolve_vec(v, context, flags, fuel) {
            Ok(rv) => Ok(Content::Form(rv, u.clone())),
            Err(e) => Err(e),
        },
        Content::Field(n, l, t) => Ok(Content::Field(n.clone(), l.clone(), t.clone())),
    }
}

/// Perform templating on every node of a content sequence independently, as
/// on the children of the implicit VLayout that wraps the `content` field of
/// a file or a response. Fails, with nothing resolved, as soon as any node
/// fails.
pub fn template_all(content: &Vec<Content>, context: &Context, flags: &Vec<String>) -> (r: Result<
    Vec<Content>,
    TemplateError,
>)
    ensures
        match r {
            Ok(out) => resolve_seq(
                deep_view_seq(content@),
                context@,
                flag_set(flags@),
                TEMPLATE_DEPTH as nat,
            ) == Some(deep_view_seq(out@)),
            Err(e) => resolve_seq(
                deep_view_seq(content@),
                context@,
                flag_set(flags@),
                TEMPLATE_DEPTH as nat,
            ) is None && e == TemplateError::Cycle,
        },
{
    resolve_vec(content, context, flags, TEMPLATE_DEPTH)
}

impl Content {
    /// Perform templating: eliminate `If` directives by the flags and `Ctx`
    /// directives by the context, rebuild every other variant around its
    /// resolved children, and pass leaves (including `Include`) through
    /// unchanged, exactly as the specification function [`resolve`] says
    /// with [`TEMPLATE_DEPTH`] fuel. Returns [`TemplateError::Cycle`] when
    /// and only when a chain of `Ctx` substitutions is deeper than
    /// [`TEMPLATE_DEPTH`].
    pub fn template(self, context: &Context, flags: &Vec<String>) -> (r: Result<
        Content,
        TemplateError,
    >)
        ensures
            match r {
                Ok(out) => resolve(
                    self.deep_view(),
                    context@,
                    flag_set(flags@),
                    TEMPLATE_DEPTH as nat,
                ) == Some(out.deep_view()),
                Err(e) => resolve(
                    self.deep_view(),
                    context@,
                    flag_set(flags@),
                    TEMPLATE_DEPTH as nat,
                ) is None && e == TemplateError::Cycle,
            },
    {
        resolve_content(&self, context, flags, TEMPLATE_DEPTH)
    }

    /// Perform templating as [`Content::template`] does, but with a
    /// caller-chosen bound on the depth of `Ctx` substitution chains.
    pub fn template_with_depth(
        self,
        context: &Context,
        flags: &Vec<String>,
        depth: u32,
    ) -> (r: Result<Content, TemplateError>)
        ensures
            match r {
                Ok(out) => resolve(self.deep_view(), context@, flag_set(flags@), depth as nat)
                    == Some(out.deep_view()),
                Err(e) => resolve(self.deep_view(), context@, flag_set(flags@), depth as nat)
                    is None && e == TemplateError::Cycle,
            },
    {
        resolve_content(&self, context, flags, depth)
    }
}

} // verus!
