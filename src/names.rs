//! Sets of identifiers (library names, dependency identifiers).

use vstd::prelude::*;

verus! {

/// A finite set of identifiers, each held once, in the order of insertion.
#[derive(Debug, Clone)]
pub struct NameSet {
    items: Vec<String>,
}

/// The identifiers of a sequence of strings, as a set.
pub open spec fn names_of(s: Seq<String>) -> Set<Seq<char>> {
    Set::new(|v: Seq<char>| exists|i: int| 0 <= i < s.len() && (#[trigger] s[i])@ == v)
}

/// No identifier occurs twice in the sequence.
pub open spec fn distinct_names(s: Seq<String>) -> bool {
    forall|i: int, j: int| 0 <= i < s.len() && 0 <= j < s.len() && i != j ==> (#[trigger] s[i])@ != (#[trigger] s[j])@
}

impl View for NameSet {
    type V = Set<Seq<char>>;

    closed spec fn view(&self) -> Set<Seq<char>> {
        names_of(self.items@)
    }
}

impl NameSet {
    /// The set holds each identifier once.
    pub closed spec fn wf(&self) -> bool {
        distinct_names(self.items@)
    }

    /// The identifiers in the order in which they are held.
    pub closed spec fn items(&self) -> Seq<String> {
        self.items@
    }

    /// The order of the items is a listing of the set without repetition.
    pub proof fn lemma_items(&self)
        requires
            self.wf(),
        ensures
            names_of(self.items()) == self@,
            distinct_names(self.items()),
            self.items().len() == self@.len(),
            self@.finite(),
    {
        lemma_distinct_len(self.items@);
    }

    /// The empty set.
    pub fn new() -> (r: NameSet)
        ensures
            r.wf(),
            r@ == Set::<Seq<char>>::empty(),
    {
        let r = NameSet { items: Vec::new() };
        assert(r@ =~= Set::<Seq<char>>::empty());
        r
    }

    /// Whether `name` belongs to the set.
    pub fn contains(&self, name: &String) -> (r: bool)
        ensures
            r == self@.contains(name@),
    {
        let mut i: usize = 0;
        while i < self.items.len()
            invariant
                0 <= i <= self.items@.len(),
                forall|k: int| 0 <= k < i ==> (#[trigger] self.items@[k])@ != name@,
            decreases self.items@.len() - i,
        {
            if self.items[i] == *name {
                assert(self.items@[i as int]@ == name@);
                return true;
            }
            i = i + 1;
        }
        false
    }

    /// Adds `name`; a name already held is not added again.
    pub fn insert(&mut self, name: String)
        requires
            old(self).wf(),
        ensures
            final(self).wf(),
            final(self)@ == old(self)@.insert(name@),
    {
        if !self.contains(&name) {
            let ghost before = self.items@;
            self.items.push(name);
            assert(self.items@ == before.push(name));
            assert forall|v: Seq<char>| #[trigger] self@.contains(v) == old(self)@.insert(name@).contains(v) by {
                if old(self)@.contains(v) {
                    let i = choose|i: int| 0 <= i < before.len() && (#[trigger] before[i])@ == v;
                    assert(self.items@[i] == before[i]);
                }
                if self@.contains(v) {
                    let i = choose|i: int| 0 <= i < self.items@.len() && (#[trigger] self.items@[i])@ == v;
                    if i < before.len() {
                        assert(before[i] == self.items@[i]);
                    }
                }
                if v == name@ {
                    assert(self.items@[before.len() as int]@ == v);
                }
            }
            assert(self@ =~= old(self)@.insert(name@));
        } else {
            assert(self@ =~= old(self)@.insert(name@));
        }
    }

    /// The number of identifiers held.
    pub fn len(&self) -> (r: usize)
        requires
            self.wf(),
        ensures
            r == self@.len(),
    {
        proof { self.lemma_items(); }
        self.items.len()
    }

    /// Whether the set holds nothing.
    pub fn is_empty(&self) -> (r: bool)
        requires
            self.wf(),
        ensures
            r == (self@ == Set::<Seq<char>>::empty()),
    {
        proof {
            self.lemma_items();
            if self.items@.len() > 0 {
                assert(self@.contains(self.items@[0]@));
            }
            if self.items@.len() == 0 {
                assert(self@ =~= Set::<Seq<char>>::empty());
            }
        }
        self.items.len() == 0
    }

    /// The identifiers of this set that are not in `other`.
    pub fn difference(&self, other: &NameSet) -> (r: NameSet)
        requires
            self.wf(),
        ensures
            r.wf(),
            r@ == self@.difference(other@),
    {
        let mut r = NameSet::new();
        let mut i: usize = 0;
        while i < self.items.len()
            invariant
                0 <= i <= self.items@.len(),
                r.wf(),
                r@ == names_of(self.items@.subrange(0, i as int)).difference(other@),
            decreases self.items@.len() - i,
        {
            let name = &self.items[i];
            let ghost pre = self.items@.subrange(0, i as int);
            let ghost post = self.items@.subrange(0, i + 1);
            proof { lemma_names_push(pre, self.items@[i as int]); }
            assert(post == pre.push(self.items@[i as int]));
            if !other.contains(name) {
                r.insert(name.clone());
                assert(r@ =~= names_of(post).difference(other@));
            } else {
                assert(r@ =~= names_of(post).difference(other@));
            }
            i = i + 1;
        }
        assert(self.items@.subrange(0, self.items@.len() as int) == self.items@);
        r
    }

    /// The identifiers of this set together with those of `other`.
    pub fn union(&self, other: &NameSet) -> (r: NameSet)
        requires
            self.wf(),
        ensures
            r.wf(),
            r@ == self@.union(other@),
    {
        let mut r = NameSet { items: self.items.clone() };
        let mut i: usize = 0;
        while i < other.items.len()
            invariant
                0 <= i <= other.items@.len(),
                r.wf(),
                r@ == self@.union(names_of(other.items@.subrange(0, i as int))),
            decreases other.items@.len() - i,
        {
            proof { lemma_names_push(other.items@.subrange(0, i as int), other.items@[i as int]); }
            assert(other.items@.subrange(0, i + 1) == other.items@.subrange(0, i as int).push(other.items@[i as int]));
            r.insert(other.items[i].clone());
            assert(r@ =~= self@.union(names_of(other.items@.subrange(0, i + 1))));
            i = i + 1;
        }
        assert(other.items@.subrange(0, other.items@.len() as int) == other.items@);
        r
    }

    /// A set with the same identifiers.
    pub fn duplicate(&self) -> (r: NameSet)
        requires
            self.wf(),
        ensures
            r.wf(),
            r@ == self@,
    {
        let r = self.union(&NameSet::new());
        assert(r@ =~= self@);
        r
    }

    /// Moves every identifier out, leaving the set empty.
    pub fn drain(&mut self) -> (r: NameSet)
        requires
            old(self).wf(),
        ensures
            r.wf(),
            r@ == old(self)@,
            final(self).wf(),
            final(self)@ == Set::<Seq<char>>::empty(),
            old(self)@ == Set::<Seq<char>>::empty() ==> *final(self) == *old(self),
    {
        if self.items.len() == 0 {
            return NameSet::new();
        }
        proof {
            assert(self@.contains(self.items@[0]@));
        }
        let mut items: Vec<String> = Vec::new();
        std::mem::swap(&mut items, &mut self.items);
        assert(self@ =~= Set::<Seq<char>>::empty());
        NameSet { items }
    }

    /// The identifiers, in the order in which they are held.
    pub fn to_vec(&self) -> (r: Vec<String>)
        requires
            self.wf(),
        ensures
            r@ == self.items(),
            names_of(r@) == self@,
            distinct_names(r@),
    {
        self.items.clone()
    }

    /// A set of the identifiers in `v`, each once.
    pub fn from_vec(v: Vec<String>) -> (r: NameSet)
        ensures
            r.wf(),
            r@ == names_of(v@),
    {
        let mut r = NameSet::new();
        let mut i: usize = 0;
        while i < v.len()
            invariant
                0 <= i <= v@.len(),
                r.wf(),
                r@ == names_of(v@.subrange(0, i as int)),
            decreases v@.len() - i,
        {
            proof { lemma_names_push(v@.subrange(0, i as int), v@[i as int]); }
            assert(v@.subrange(0, i + 1) == v@.subrange(0, i as int).push(v@[i as int]));
            r.insert(v[i].clone());
            i = i + 1;
        }
        assert(v@.subrange(0, v@.len() as int) == v@);
        r
    }
}

/// Appending a string adds its identifier.
pub proof fn lemma_names_push(s: Seq<String>, x: String)
    ensures
        names_of(s.push(x)) == names_of(s).insert(x@),
{
    let t = s.push(x);
    assert forall|v: Seq<char>| #[trigger] names_of(t).contains(v) == names_of(s).insert(x@).contains(v) by {
        if names_of(s).contains(v) {
            let i = choose|i: int| 0 <= i < s.len() && (#[trigger] s[i])@ == v;
            assert(t[i] == s[i]);
        }
        if names_of(t).contains(v) {
            let i = choose|i: int| 0 <= i < t.len() && (#[trigger] t[i])@ == v;
            if i < s.len() {
                assert(t[i] == s[i]);
            }
        }
        if v == x@ {
            assert(t[s.len() as int]@ == v);
        }
    }
    assert(names_of(t) =~= names_of(s).insert(x@));
}

/// A listing without repetition is as long as the set it lists, which is finite.
proof fn lemma_distinct_len(s: Seq<String>)
    requires
        distinct_names(s),
    ensures
        names_of(s).finite(),
        names_of(s).len() == s.len(),
    decreases s.len(),
{
    if s.len() == 0 {
        assert(names_of(s) =~= Set::<Seq<char>>::empty());
    } else {
        let p = s.drop_last();
        let x = s.last();
        assert(s == p.push(x));
        assert(distinct_names(p)) by {
            assert forall|i: int, j: int| 0 <= i < p.len() && 0 <= j < p.len() && i != j implies (#[trigger] p[i])@ != (#[trigger] p[j])@ by {
                assert(p[i] == s[i] && p[j] == s[j]);
            }
        }
        lemma_distinct_len(p);
        lemma_names_push(p, x);
        if names_of(p).contains(x@) {
            let i = choose|i: int| 0 <= i < p.len() && (#[trigger] p[i])@ == x@;
            assert(s[i] == p[i]);
            assert(s[s.len() - 1] == x);
        }
    }
}

} // verus!
