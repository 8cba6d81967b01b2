//! Header maps: names with one value each, in order of first insertion.
use vstd::prelude::*;
use crate::http_method::same_text;

verus! {

/// Headers, as (name, value) pairs with distinct names.
#[derive(Debug, Clone)]
pub struct Headers(pub Vec<(String, String)>);

/// The pairs as character sequences.
pub open spec fn pairs_view(v: Seq<(String, String)>) -> Seq<(Seq<char>, Seq<char>)> {
    v.map_values(|p: (String, String)| (p.0@, p.1@))
}

/// The map from names to values that the pairs `s` hold.
pub open spec fn pairs_map(s: Seq<(Seq<char>, Seq<char>)>) -> Map<Seq<char>, Seq<char>>
    decreases s.len(),
{
    if s.len() == 0 {
        Map::empty()
    } else {
        pairs_map(s.drop_last()).insert(s.last().0, s.last().1)
    }
}

pub open spec fn keys_distinct(s: Seq<(Seq<char>, Seq<char>)>) -> bool {
    forall|i: int, j: int| 0 <= i < j < s.len() ==> s[i].0 != s[j].0
}

/// With distinct names, a name is in the map exactly where a pair holds
/// it, with that pair's value.
proof fn lemma_pairs_map(s: Seq<(Seq<char>, Seq<char>)>)
    requires
        keys_distinct(s),
    ensures
        forall|i: int| 0 <= i < s.len() ==> #[trigger] pairs_map(s).contains_key(s[i].0)
            && pairs_map(s)[s[i].0] == s[i].1,
        forall|k: Seq<char>| #[trigger] pairs_map(s).contains_key(k) ==> exists|i: int| 0 <= i < s.len() && s[i].0 == k,
        pairs_map(s).dom().len() == s.len(),
        pairs_map(s).dom().finite(),
    decreases s.len(),
{
    if s.len() > 0 {
        let t = s.drop_last();
        assert forall|i: int, j: int| 0 <= i < j < t.len() implies t[i].0 != t[j].0 by {
            assert(t[i] == s[i] && t[j] == s[j]);
        }
        lemma_pairs_map(t);
        assert forall|i: int| 0 <= i < t.len() implies t[i].0 != s.last().0 by {
            assert(t[i] == s[i]);
        }
        assert forall|i: int| 0 <= i < s.len() implies #[trigger] pairs_map(s).contains_key(s[i].0)
            && pairs_map(s)[s[i].0] == s[i].1 by {
            if i < t.len() {
                assert(s[i] == t[i]);
            }
        }
        assert forall|k: Seq<char>| #[trigger] pairs_map(s).contains_key(k) implies exists|i: int|
            0 <= i < s.len() && s[i].0 == k by {
            if k != s.last().0 {
                let i = choose|i: int| 0 <= i < t.len() && t[i].0 == k;
                assert(s[i] == t[i]);
            } else {
                assert(s[s.len() - 1].0 == k);
            }
        }
        if pairs_map(t).contains_key(s.last().0) {
            let i = choose|i: int| 0 <= i < t.len() && t[i].0 == s.last().0;
            assert(false);
        }
    }
}

impl Headers {
    /// The pairs, in order.
    pub open spec fn pairs(&self) -> Seq<(Seq<char>, Seq<char>)> {
        pairs_view(self.0@)
    }

    /// The headers as a map from names to values.
    pub open spec fn view(&self) -> Map<Seq<char>, Seq<char>> {
        pairs_map(self.pairs())
    }

    pub open spec fn wf(&self) -> bool {
        keys_distinct(self.pairs())
    }

    pub fn new() -> (r: Headers)
        ensures
            r.wf(),
            r@ == Map::<Seq<char>, Seq<char>>::empty(),
    {
        let r = Headers(Vec::new());
        proof {
            assert(r.pairs() =~= Seq::<(Seq<char>, Seq<char>)>::empty());
        }
        r
    }

    /// An empty map with room for `capacity` headers.
    pub fn with_capacity(capacity: usize) -> (r: Headers)
        ensures
            r.wf(),
            r@ == Map::<Seq<char>, Seq<char>>::empty(),
    {
        let r = Headers(Vec::with_capacity(capacity));
        proof {
            assert(r.pairs() =~= Seq::<(Seq<char>, Seq<char>)>::empty());
        }
        r
    }

    /// Index of the pair named `key`, if any.
    fn position(&self, key: &str) -> (r: Option<usize>)
        requires
            self.wf(),
        ensures
            match r {
                Some(i) => i < self.0@.len() && self.pairs()[i as int].0 == key@,
                None => forall|i: int| 0 <= i < self.0@.len() ==> self.pairs()[i].0 != key@,
            },
    {
        let mut i: usize = 0;
        while i < self.0.len()
            invariant
                0 <= i <= self.0@.len(),
                forall|j: int| 0 <= j < i ==> self.pairs()[j].0 != key@,
            decreases self.0@.len() - i,
        {
            if same_text(self.0[i].0.as_str(), key) {
                return Some(i);
            }
            i = i + 1;
        }
        None
    }

    /// Sets `key` to `value`, replacing any earlier value.
    pub fn insert(&mut self, key: &str, value: &str)
        requires
            old(self).wf(),
        ensures
            final(self).wf(),
            final(self)@ == old(self)@.insert(key@, value@),
    {
        proof {
            lemma_pairs_map(self.pairs());
        }
        let ghost s0 = self.pairs();
        match self.position(key) {
            Some(i) => {
                let k = self.0[i].0.clone();
                self.0.set(i, (k, value.to_owned()));
                proof {
                    let s1 = self.pairs();
                    assert(s1 =~= s0.update(i as int, (key@, value@)));
                    assert forall|a: int, b: int| 0 <= a < b < s1.len() implies s1[a].0 != s1[b].0 by {
                        assert(s1[a].0 == s0[a].0 && s1[b].0 == s0[b].0);
                    }
                    lemma_pairs_map(s1);
                    assert forall|k2: Seq<char>| #[trigger] self@.contains_key(k2) == old(self)@.insert(key@, value@).contains_key(k2) by {
                        if self@.contains_key(k2) {
                            let j = choose|j: int| 0 <= j < s1.len() && s1[j].0 == k2;
                            assert(s0[j].0 == k2);
                        }
                        if old(self)@.contains_key(k2) {
                            let j = choose|j: int| 0 <= j < s0.len() && s0[j].0 == k2;
                            assert(s1[j].0 == k2);
                        }
                    }
                    assert forall|k2: Seq<char>| #[trigger] self@.contains_key(k2) implies self@[k2] == old(self)@.insert(key@, value@)[k2] by {
                        let j = choose|j: int| 0 <= j < s1.len() && s1[j].0 == k2;
                        if j != i {
                            assert(s0[j] == s1[j]);
                        }
                    }
                    assert(self@ =~= old(self)@.insert(key@, value@));
                }
            },
            None => {
                self.0.push((key.to_owned(), value.to_owned()));
                proof {
                    let s1 = self.pairs();
                    assert(s1 =~= s0.push((key@, value@)));
                    assert(s1.drop_last() =~= s0);
                    assert forall|a: int, b: int| 0 <= a < b < s1.len() implies s1[a].0 != s1[b].0 by {
                        assert(s1[a] == s0[a] || a == s0.len());
                    }
                }
            },
        }
    }

    /// The value of `key`, if set.
    pub fn get(&self, key: &str) -> (r: Option<&String>)
        requires
            self.wf(),
        ensures
            match r {
                Some(v) => self@.contains_key(key@) && self@[key@] == v@,
                None => !self@.contains_key(key@),
            },
    {
        proof {
            lemma_pairs_map(self.pairs());
        }
        match self.position(key) {
            Some(i) => {
                proof {
                    let s = self.pairs();
                    assert(s[i as int] == (self.0@[i as int].0@, self.0@[i as int].1@));
                    assert(pairs_map(s).contains_key(s[i as int].0));
                }
                Some(&self.0[i].1)
            },
            None => None,
        }
    }

    pub fn contains_key(&self, key: &str) -> (r: bool)
        requires
            self.wf(),
        ensures
            r == self@.contains_key(key@),
    {
        proof {
            lemma_pairs_map(self.pairs());
        }
        self.position(key).is_some()
    }

    /// Number of headers.
    pub fn len(&self) -> (r: usize)
        requires
            self.wf(),
        ensures
            r == self@.dom().len(),
    {
        proof {
            lemma_pairs_map(self.pairs());
        }
        self.0.len()
    }

    pub fn is_empty(&self) -> (r: bool)
        requires
            self.wf(),
        ensures
            r == (self@.dom().len() == 0),
    {
        proof {
            lemma_pairs_map(self.pairs());
        }
        self.0.len() == 0
    }

    /// The pairs, in order of first insertion.
    pub fn iter(&self) -> (r: &Vec<(String, String)>)
        ensures
            r@ == self.0@,
    {
        &self.0
    }

    /// The pairs, in order of first insertion.
    pub fn into_inner(self) -> (r: Vec<(String, String)>)
        ensures
            r@ == self.0@,
    {
        self.0
    }

    /// Headers from pairs; of two pairs with one name the later wins.
    pub fn from_pairs(pairs: &Vec<(String, String)>) -> (r: Headers)
        ensures
            r.wf(),
            r@ == pairs_map(pairs_view(pairs@)),
    {
        let mut h = Headers::new();
        let mut i: usize = 0;
        while i < pairs.len()
            invariant
                0 <= i <= pairs@.len(),
                h.wf(),
                h@ == pairs_map(pairs_view(pairs@.subrange(0, i as int))),
            decreases pairs@.len() - i,
        {
            h.insert(pairs[i].0.as_str(), pairs[i].1.as_str());
            proof {
                let s = pairs_view(pairs@.subrange(0, i + 1));
                assert(s.drop_last() =~= pairs_view(pairs@.subrange(0, i as int)));
            }
            i = i + 1;
        }
        proof {
            assert(pairs@.subrange(0, pairs@.len() as int) =~= pairs@);
        }
        h
    }
}

/// The headers sent with every request: a user agent and `Accept: */*`.
pub fn default_headers() -> (r: Headers)
    ensures
        r.wf(),
        r@ == Map::<Seq<char>, Seq<char>>::empty().insert("User-Agent"@, "Bolt/0.1"@).insert("Accept"@, "*/*"@),
{
    let mut h = Headers::new();
    h.insert("User-Agent", "Bolt/0.1");
    h.insert("Accept", "*/*");
    h
}

} // verus!
