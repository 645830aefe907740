//! The store's attribute representation, as far as this library reads it.
use vstd::prelude::*;

verus! {

/// One stored attribute value.
pub enum AttributeValue {
    /// A string value.
    S(String),
    /// A value of any other kind (number, binary, boolean, list, map, null).
    Other,
}

impl View for AttributeValue {
    /// The string held, or `None` for a value of another kind.
    type V = Option<Seq<char>>;

    open spec fn view(&self) -> Option<Seq<char>> {
        match self {
            AttributeValue::S(s) => Some(s@),
            AttributeValue::Other => None,
        }
    }
}

/// The view of a list of named attribute values.
pub open spec fn pairs_view(s: Seq<(String, AttributeValue)>) -> Seq<(Seq<char>, Option<Seq<char>>)> {
    s.map_values(|e: (String, AttributeValue)| (e.0@, e.1@))
}

/// The mapping that a list of named values describes: a later entry for a
/// name replaces an earlier one.
pub open spec fn map_of(s: Seq<(Seq<char>, Option<Seq<char>>)>) -> Map<Seq<char>, Option<Seq<char>>>
    decreases s.len(),
{
    if s.len() == 0 {
        Map::empty()
    } else {
        map_of(s.drop_last()).insert(s.last().0, s.last().1)
    }
}

/// Entries after position `i` that do not name `k` leave its value as the
/// first `i` entries have it.
proof fn lemma_map_of_prefix(s: Seq<(Seq<char>, Option<Seq<char>>)>, i: int, k: Seq<char>)
    requires
        0 <= i <= s.len(),
        forall|j: int| i <= j < s.len() ==> s[j].0 != k,
    ensures
        map_of(s).contains_key(k) == map_of(s.subrange(0, i)).contains_key(k),
        map_of(s).contains_key(k) ==> map_of(s)[k] == map_of(s.subrange(0, i))[k],
    decreases s.len(),
{
    if i == s.len() {
        assert(s.subrange(0, i) =~= s);
    } else {
        let t = s.drop_last();
        assert(t.subrange(0, i) =~= s.subrange(0, i));
        lemma_map_of_prefix(t, i, k);
    }
}

/// A map from attribute names to values, as the store sends and takes items.
pub struct AttributeMap {
    entries: Vec<(String, AttributeValue)>,
}

impl View for AttributeMap {
    type V = Map<Seq<char>, Option<Seq<char>>>;

    closed spec fn view(&self) -> Map<Seq<char>, Option<Seq<char>>> {
        map_of(pairs_view(self.entries@))
    }
}

impl AttributeMap {
    /// The map without attributes.
    pub fn new() -> (r: AttributeMap)
        ensures
            r@ == Map::<Seq<char>, Option<Seq<char>>>::empty(),
    {
        let r = AttributeMap { entries: Vec::new() };
        assert(pairs_view(r.entries@) =~= Seq::empty());
        r
    }

    /// Sets the attribute `name` to `value`, replacing any earlier value.
    pub fn insert(&mut self, name: String, value: AttributeValue)
        ensures
            final(self)@ == old(self)@.insert(name@, value@),
    {
        let ghost before = pairs_view(self.entries@);
        let ghost e = (name@, value@);
        self.entries.push((name, value));
        assert(pairs_view(self.entries@) =~= before.push(e));
        assert(pairs_view(self.entries@).drop_last() =~= before);
    }

    /// The value of the attribute `name`, if the map has one.
    pub fn get(&self, name: &String) -> (r: Option<&AttributeValue>)
        ensures
            match r {
                Some(v) => self@.contains_key(name@) && self@[name@] == v@,
                None => !self@.contains_key(name@),
            },
    {
        let ghost s = pairs_view(self.entries@);
        let mut i: usize = self.entries.len();
        while i > 0
            invariant
                i <= self.entries@.len(),
                s == pairs_view(self.entries@),
                forall|j: int| i <= j < s.len() ==> s[j].0 != name@,
            decreases i,
        {
            let e = &self.entries[i - 1];
            if e.0 == *name {
                proof {
                    lemma_map_of_prefix(s, i as int, name@);
                    assert(s.subrange(0, i as int).drop_last() =~= s.subrange(0, i - 1));
                }
                return Some(&e.1);
            }
            i = i - 1;
        }
        proof {
            lemma_map_of_prefix(s, 0, name@);
            assert(s.subrange(0, 0) =~= Seq::<(Seq<char>, Option<Seq<char>>)>::empty());
        }
        None
    }

    /// The entries, in the order of insertion.
    pub fn entries(&self) -> (r: &Vec<(String, AttributeValue)>)
        ensures
            map_of(pairs_view(r@)) == self@,
    {
        &self.entries
    }
}

} // verus!
