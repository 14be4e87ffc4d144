//! The rendering context: the values that templates may refer to.

use vstd::prelude::*;
use vstd::string::*;

verus! {

/// What a variable holds in a rendering context.
#[derive(Clone, Debug, PartialEq, Eq)]
pub enum ContextValue {
    /// A text, possibly empty.
    Text(String),
    /// The marker for "no value": the variable is known but nothing was given
    /// for it. Templates render it as nothing.
    Missing,
}

impl ContextValue {
    /// `Some` of the characters of a text, `None` for the marker.
    pub open spec fn view(&self) -> Option<Seq<char>> {
        match self {
            ContextValue::Text(s) => Some(s@),
            ContextValue::Missing => None,
        }
    }

    /// A copy of this value.
    pub fn copy(&self) -> (r: ContextValue)
        ensures
            r@ == self@,
    {
        match self {
            ContextValue::Text(s) => ContextValue::Text(s.clone()),
            ContextValue::Missing => ContextValue::Missing,
        }
    }
}

/// One variable of a context with what it holds.
pub struct ContextEntry {
    pub key: String,
    pub value: ContextValue,
}

impl ContextEntry {
    pub open spec fn view(&self) -> (Seq<char>, Option<Seq<char>>) {
        (self.key@, self.value@)
    }
}

/// The mathematical content of a context: a map from keys to values.
pub type ContextMap = Map<Seq<char>, Option<Seq<char>>>;

/// The map that results from inserting the pairs of `s` from first to last.
pub open spec fn pairs_map(s: Seq<(Seq<char>, Option<Seq<char>>)>) -> ContextMap
    decreases s.len(),
{
    if s.len() == 0 {
        Map::empty()
    } else {
        pairs_map(s.drop_last()).insert(s.last().0, s.last().1)
    }
}

/// A key is in the map of `s` exactly if a pair of `s` has it.
pub proof fn lemma_pairs_map_dom(s: Seq<(Seq<char>, Option<Seq<char>>)>, k: Seq<char>)
    ensures
        pairs_map(s).dom().contains(k) <==> exists|i: int| 0 <= i < s.len() && (#[trigger] s[i]).0 == k,
    decreases s.len(),
{
    if s.len() > 0 {
        let front = s.drop_last();
        lemma_pairs_map_dom(front, k);
        if pairs_map(s).dom().contains(k) {
            if s.last().0 == k {
                assert(s[s.len() - 1].0 == k);
            } else {
                let i = choose|i: int| 0 <= i < front.len() && (#[trigger] front[i]).0 == k;
                assert(s[i].0 == k);
            }
        }
        if exists|i: int| 0 <= i < s.len() && (#[trigger] s[i]).0 == k {
            let i = choose|i: int| 0 <= i < s.len() && (#[trigger] s[i]).0 == k;
            if i < s.len() - 1 {
                assert(front[i].0 == k);
            }
        }
    }
}

/// The map holds for a key the value of the last pair that has the key.
pub proof fn lemma_pairs_map_last(s: Seq<(Seq<char>, Option<Seq<char>>)>, i: int)
    requires
        0 <= i < s.len(),
        forall|j: int| i < j < s.len() ==> (#[trigger] s[j]).0 != s[i].0,
    ensures
        pairs_map(s).dom().contains(s[i].0),
        pairs_map(s)[s[i].0] == s[i].1,
    decreases s.len(),
{
    let front = s.drop_last();
    if i < s.len() - 1 {
        assert forall|j: int| i < j < front.len() implies (#[trigger] front[j]).0 != front[i].0 by {
            assert(s[j].0 != s[i].0);
        }
        lemma_pairs_map_last(front, i);
        assert(s[s.len() - 1].0 != s[i].0);
    }
}

/// A rendering context: a finite map from variable keys to values.
///
/// The entries are kept in the order in which they were set. Setting a key
/// again adds an entry that takes the place of the earlier one.
pub struct RenderContext {
    pub(crate) entries: Vec<ContextEntry>,
}

impl RenderContext {
    /// The pairs of this context in the order in which they were set.
    pub closed spec fn pairs(&self) -> Seq<(Seq<char>, Option<Seq<char>>)> {
        self.entries@.map_values(|e: ContextEntry| e@)
    }

    /// The map from each key to its value.
    pub closed spec fn view(&self) -> ContextMap {
        pairs_map(self.pairs())
    }

    /// The context without any variable.
    pub fn new() -> (r: RenderContext)
        ensures
            r@ == Map::<Seq<char>, Option<Seq<char>>>::empty(),
    {
        let r = RenderContext { entries: Vec::new() };
        assert(r.pairs() =~= Seq::empty());
        r
    }

    /// The position of the entry that holds the value of `key`, if there is one.
    fn position(&self, key: &str) -> (r: Option<usize>)
        ensures
            match r {
                Some(i) => i < self.entries.len() && self@.dom().contains(key@) && self@[key@]
                    == self.entries[i as int].value@,
                None => !self@.dom().contains(key@),
            },
    {
        let mut i: usize = self.entries.len();
        while i > 0
            invariant
                i <= self.entries.len(),
                forall|k: int| i <= k < self.entries.len() ==> (#[trigger] self.entries[k]).key@ != key@,
            decreases i,
        {
            i = i - 1;
            if crate::text::same_text(self.entries[i].key.as_str(), key) {
                proof {
                    assert forall|j: int| i < j < self.pairs().len() implies (
                    #[trigger] self.pairs()[j]).0 != self.pairs()[i as int].0 by {
                        assert(self.entries[j].key@ != key@);
                    }
                    lemma_pairs_map_last(self.pairs(), i as int);
                }
                return Some(i);
            }
        }
        proof {
            lemma_pairs_map_dom(self.pairs(), key@);
            if self@.dom().contains(key@) {
                let k = choose|k: int|
                    0 <= k < self.pairs().len() && (#[trigger] self.pairs()[k]).0 == key@;
                assert(self.entries[k].key@ == key@);
            }
        }
        None
    }

    /// Sets `key` to `value`; a value that `key` had before is replaced.
    pub fn insert(&mut self, key: String, value: ContextValue)
        ensures
            final(self)@ == old(self)@.insert(key@, value@),
    {
        let ghost before = self.pairs();
        self.entries.push(ContextEntry { key, value });
        assert(self.pairs() =~= before.push((key@, value@)));
        assert(self.pairs().drop_last() =~= before);
    }

    /// What `key` holds, if the context has it.
    pub fn get(&self, key: &str) -> (r: Option<ContextValue>)
        ensures
            r is Some <==> self@.dom().contains(key@),
            r matches Some(v) ==> v@ == self@[key@],
    {
        match self.position(key) {
            Some(i) => Some(self.entries[i].value.copy()),
            None => None,
        }
    }

    /// Whether the context has `key`.
    pub fn contains_key(&self, key: &str) -> (r: bool)
        ensures
            r == self@.dom().contains(key@),
    {
        self.position(key).is_some()
    }
}

} // verus!
