//! The content tree: the recursive document structure exchanged between a
//! server and a client, together with its mathematical model.

use vstd::prelude::*;

verus! {

/// A content node in an HCF document or an HCP response.
///
/// The tree is a strict hierarchy: every node owns its children outright, so
/// there is no sharing and no back-reference. The nesting rules given on the
/// variants ("a table's children should all be horizontal layouts") are
/// advisory: nothing in this crate rejects a tree that breaks them, and the
/// template engine passes such trees through untouched.
#[derive(Debug, PartialEq)]
pub enum Content {
    /// A block of text.
    Text(String),
    /// A horizontal layout. Shouldn't have any HLayout children.
    HLayout(Vec<Content>),
    /// A vertical layout. Shouldn't have any VLayout children. The root of a
    /// document is an implicit VLayout.
    VLayout(Vec<Content>),
    /// An inline layout. Shouldn't have any layout children.
    InlineLayout(Vec<Content>),
    /// A table layout. All children should be HLayouts.
    Table(Vec<Content>),
    /// A live section that updates regularly: the URL content is fetched
    /// from, and the advisory refresh interval, carried as the raw bit
    /// pattern of a 64-bit IEEE-754 value. The engine never reads the
    /// interval; clients may disregard unreasonable values.
    Live(String, u64),
    /// A reference to non-text content: its URL, its MIME type, and a text
    /// description. May be displayed as a download link or an embed.
    Blob(String, String, String),
    /// A list of choices that may be collapsed or differently arranged
    /// depending on client settings. Should have only Text, Blob, and Ref
    /// children.
    Menu(Vec<Content>),
    /// A reference to text content (its URL and a text description);
    /// preferably HCF or an HCP response.
    Ref(String, String),
    /// A conditional for templating: a feature-flag name, the branch taken
    /// when the flag is active, and the branch taken otherwise. Clients
    /// should not render this and may display a warning if it falls through
    /// to them.
    If(String, Box<Content>, Box<Content>),
    /// An include for templating, naming the URL of the content to splice
    /// in. Fetching is outside this engine's scope, so resolution passes it
    /// through unchanged. Clients should not render this and may display a
    /// warning if it falls through to them.
    Include(String),
    /// A substitution for templating: the key of the context entry whose
    /// value replaces this node. Clients should not render this and may
    /// display a warning if it falls through to them.
    Ctx(String),
    /// A form: its children and the URL to which the form should be sent by
    /// POST in the format of an HTML form. Clients should display a warning
    /// and prevent submission if a form with a password field uses an
    /// insecure URL that does not resolve to the loopback.
    Form(Vec<Content>, String),
    /// A form field: its name, its label, and its type. Assuming no extra
    /// features, the type can be text, number, url, password, username, or a
    /// MIME type. Should appear only inside a Form subtree.
    Field(String, String, String),
}

/// The mathematical model of a [`Content`] tree: the same variants, with
/// every string read as a `Seq<char>` and every child list as a `Seq<Node>`.
/// All contracts in this crate speak of this type.
pub enum Node {
    /// Model of [`Content::Text`].
    Text(Seq<char>),
    /// Model of [`Content::HLayout`].
    HLayout(Seq<Node>),
    /// Model of [`Content::VLayout`].
    VLayout(Seq<Node>),
    /// Model of [`Content::InlineLayout`].
    InlineLayout(Seq<Node>),
    /// Model of [`Content::Table`].
    Table(Seq<Node>),
    /// Model of [`Content::Live`].
    Live(Seq<char>, u64),
    /// Model of [`Content::Blob`].
    Blob(Seq<char>, Seq<char>, Seq<char>),
    /// Model of [`Content::Menu`].
    Menu(Seq<Node>),
    /// Model of [`Content::Ref`].
    Ref(Seq<char>, Seq<char>),
    /// Model of [`Content::If`].
    If(Seq<char>, Box<Node>, Box<Node>),
    /// Model of [`Content::Include`].
    Include(Seq<char>),
    /// Model of [`Content::Ctx`].
    Ctx(Seq<char>),
    /// Model of [`Content::Form`].
    Form(Seq<Node>, Seq<char>),
    /// Model of [`Content::Field`].
    Field(Seq<char>, Seq<char>, Seq<char>),
}

impl Content {
    /// The model of this node.
    pub open spec fn deep_view(self) -> Node
        decreases self,
    {
        match self {
            Content::Text(s) => Node::Text(s@),
            Content::HLayout(v) => Node::HLayout(deep_view_seq(v@)),
            Content::VLayout(v) => Node::VLayout(deep_view_seq(v@)),
            Content::InlineLayout(v) => Node::InlineLayout(deep_view_seq(v@)),
            Content::Table(v) => Node::Table(deep_view_seq(v@)),
            Content::Live(u, iv) => Node::Live(u@, iv),
            Content::Blob(u, m, d) => Node::Blob(u@, m@, d@),
            Content::Menu(v) => Node::Menu(deep_view_seq(v@)),
            Content::Ref(u, d) => Node::Ref(u@, d@),
            Content::If(f, t, e) => Node::If(
                f@,
                Box::new(t.deep_view()),
                Box::new(e.deep_view()),
            ),
            Content::Include(u) => Node::Include(u@),
            Content::Ctx(k) => Node::Ctx(k@),
            Content::Form(v, u) => Node::Form(deep_view_seq(v@), u@),
            Content::Field(n, l, t) => Node::Field(n@, l@, t@),
        }
    }
}

/// The models of a sequence of content nodes, in order.
pub open spec fn deep_view_seq(s: Seq<Content>) -> Seq<Node>
    decreases s,
{
    if s.len() == 0 {
        Seq::empty()
    } else {
        seq![s[0].deep_view()] + deep_view_seq(s.drop_first())
    }
}

/// `deep_view_seq` is the pointwise model: it keeps length, order and count,
/// and the model of the element at each index is the element's model.
pub proof fn lemma_deep_view_seq(s: Seq<Content>)
    ensures
        deep_view_seq(s).len() == s.len(),
        forall|i: int|
            0 <= i < s.len() ==> deep_view_seq(s)[i] == #[trigger] s[i].deep_view(),
    decreases s,
{
    if s.len() > 0 {
        lemma_deep_view_seq(s.drop_first());
        assert forall|i: int|
            0 <= i < s.len() implies deep_view_seq(s)[i] == #[trigger] s[i].deep_view() by {
            if i > 0 {
                assert(s.drop_first()[i - 1] == s[i]);
                assert(deep_view_seq(s)[i] == deep_view_seq(s.drop_first())[i - 1]);
            }
        }
    }
}

} // verus!
