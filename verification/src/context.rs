//! The substitution context: a mapping from string keys to content values,
//! read by the template engine when it resolves `Ctx` directives.

use vstd::prelude::*;
use crate::content::Content;
use crate::content::Node;

verus! {

/// A mapping with unique string keys and [`Content`] values. The template
/// engine substitutes the value bound to `k` for every `Ctx(k)` directive.
/// A context is viewed as a `Map<Seq<char>, Node>` over the models of its
/// values; a later [`Context::insert`] shadows an earlier one for the same
/// key.
pub struct Context {
    entries: Vec<(String, Content)>,
}

/// The map an entry list stands for: an entry earlier in the list wins over
/// a later one with the same key.
spec fn entries_map(s: Seq<(String, Content)>) -> Map<Seq<char>, Node>
    decreases s,
{
    if s.len() == 0 {
        Map::empty()
    } else {
        entries_map(s.drop_first()).insert(s[0].0@, s[0].1.deep_view())
    }
}

/// A key that matches at `i` and at no earlier index is bound, and bound to
/// the value at `i`.
proof fn lemma_entries_map_first_match(s: Seq<(String, Content)>, k: Seq<char>, i: int)
    requires
        0 <= i < s.len(),
        s[i].0@ == k,
        forall|j: int| 0 <= j < i ==> s[j].0@ != k,
    ensures
        entries_map(s).contains_key(k),
        entries_map(s)[k] == s[i].1.deep_view(),
    decreases s,
{
    if i > 0 {
        assert(s.drop_first()[i - 1] == s[i]);
        assert(forall|j: int| 0 <= j < i - 1 ==> s.drop_first()[j] == s[j + 1]);
        lemma_entries_map_first_match(s.drop_first(), k, i - 1);
    }
}

/// A key that matches no entry is not bound.
proof fn lemma_entries_map_no_match(s: Seq<(String, Content)>, k: Seq<char>)
    requires
        forall|j: int| 0 <= j < s.len() ==> s[j].0@ != k,
    ensures
        !entries_map(s).contains_key(k),
    decreases s,
{
    if s.len() > 0 {
        assert(forall|j: int| 0 <= j < s.len() - 1 ==> s.drop_first()[j] == s[j + 1]);
        lemma_entries_map_no_match(s.drop_first(), k);
    }
}

impl View for Context {
    type V = Map<Seq<char>, Node>;

    closed spec fn view(&self) -> Map<Seq<char>, Node> {
        entries_map(self.entries@)
    }
}

impl Context {
    /// An empty context: no key is bound.
    pub fn new() -> (r: Context)
        ensures
            r@ == Map::<Seq<char>, Node>::empty(),
    {
        Context { entries: Vec::new() }
    }

    /// Bind `key` to `value`. A previous binding of the same key is
    /// shadowed, so the keys in force stay unique.
    pub fn insert(&mut self, key: String, value: Content)
        ensures
            final(self)@ == old(self)@.insert(key@, value.deep_view()),
    {
        let ghost before = self.entries@;
        let ghost k = key@;
        let ghost n = value.deep_view();
        self.entries.insert(0, (key, value));
        proof {
            assert(self.entries@.drop_first() =~= before);
        }
    }

    /// Look up the value bound to `key`, or `None` if the key is not bound.
    pub fn get(&self, key: &String) -> (r: Option<&Content>)
        ensures
            match r {
                Some(v) => self@.contains_key(key@) && v.deep_view() == self@[key@],
                None => !self@.contains_key(key@),
            },
    {
        let mut i: usize = 0;
        while i < self.entries.len()
            invariant
                i <= self.entries@.len(),
                forall|j: int| 0 <= j < i ==> self.entries@[j].0@ != key@,
            decreases self.entries@.len() - i,
        {
            if self.entries[i].0 == *key {
                proof {
                    lemma_entries_map_first_match(self.entries@, key@, i as int);
                }
                return Some(&self.entries[i].1);
            }
            i += 1;
        }
        proof {
            lemma_entries_map_no_match(self.entries@, key@);
        }
        None
    }
}

} // verus!
