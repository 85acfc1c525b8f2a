//! The children of a directory, by name.

use std::vec::Vec;
use vstd::prelude::*;

verus! {

/// How two names stand to each other in a listing.
#[derive(Clone, Copy, Debug, PartialEq, Eq, Structural)]
pub enum NameOrder {
    Before,
    Same,
    After,
}

/// The bytes of a name.
pub open spec fn name_bytes(name: Seq<char>) -> Seq<u8> {
    vstd::utf8::encode_utf8(name)
}

/// `a` comes before `b`: at the first byte in which they differ `a` has the
/// smaller one, or `a` ends there.
pub open spec fn bytes_before(a: Seq<u8>, b: Seq<u8>) -> bool
    decreases a.len(),
{
    if b.len() == 0 {
        false
    } else if a.len() == 0 {
        true
    } else if a[0] != b[0] {
        a[0] < b[0]
    } else {
        bytes_before(a.drop_first(), b.drop_first())
    }
}

/// `a` comes before `b` in a listing.
pub open spec fn name_before(a: Seq<char>, b: Seq<char>) -> bool {
    bytes_before(name_bytes(a), name_bytes(b))
}

proof fn lemma_bytes_irreflexive(a: Seq<u8>)
    ensures
        !bytes_before(a, a),
    decreases a.len(),
{
    if a.len() > 0 {
        lemma_bytes_irreflexive(a.drop_first());
    }
}

proof fn lemma_bytes_transitive(a: Seq<u8>, b: Seq<u8>, c: Seq<u8>)
    requires
        bytes_before(a, b),
        bytes_before(b, c),
    ensures
        bytes_before(a, c),
    decreases a.len(),
{
    if a.len() > 0 && b.len() > 0 && c.len() > 0 && a[0] == b[0] && b[0] == c[0] {
        lemma_bytes_transitive(a.drop_first(), b.drop_first(), c.drop_first());
    }
}

proof fn lemma_same_bytes_same_name(a: Seq<char>, b: Seq<char>)
    requires
        name_bytes(a) == name_bytes(b),
    ensures
        a == b,
{
    vstd::utf8::encode_utf8_decode_utf8(a);
    vstd::utf8::encode_utf8_decode_utf8(b);
}

/// Compare two names by their bytes.
pub fn name_order(a: &str, b: &str) -> (order: NameOrder)
    ensures
        order is Before <==> name_before(a@, b@),
        order is Same <==> a@ == b@,
        order is After <==> name_before(b@, a@),
{
    let x = a.as_bytes();
    let y = b.as_bytes();
    let ghost s = x@;
    let ghost t = y@;
    let mut i: usize = 0;
    proof {
        assert(s.skip(0) =~= s);
        assert(t.skip(0) =~= t);
        lemma_bytes_irreflexive(s);
        lemma_bytes_irreflexive(t);
        if s == t {
            lemma_same_bytes_same_name(a@, b@);
        }
        if bytes_before(s, t) && bytes_before(t, s) {
            lemma_bytes_transitive(s, t, s);
        }
    }
    while i < x.len() && i < y.len() && x[i] == y[i]
        invariant
            s == x@,
            t == y@,
            i <= s.len(),
            i <= t.len(),
            forall|j: int| 0 <= j < i ==> s[j] == t[j],
            bytes_before(s, t) == bytes_before(s.skip(i as int), t.skip(i as int)),
            bytes_before(t, s) == bytes_before(t.skip(i as int), s.skip(i as int)),
        decreases s.len() - i,
    {
        proof {
            assert(s.skip(i as int).drop_first() =~= s.skip(i + 1));
            assert(t.skip(i as int).drop_first() =~= t.skip(i + 1));
        }
        i += 1;
    }
    if i < x.len() && i < y.len() {
        if x[i] < y[i] {
            NameOrder::Before
        } else {
            NameOrder::After
        }
    } else if i < y.len() {
        NameOrder::Before
    } else if i < x.len() {
        NameOrder::After
    } else {
        assert(s =~= t);
        NameOrder::Same
    }
}

/// Whether two names are the same.
pub fn same_name(a: &str, b: &str) -> (same: bool)
    ensures
        same == (a@ == b@),
{
    name_order(a, b) == NameOrder::Same
}

/// The children of a directory that exist so far, each under its own name and
/// kept in the order of their names.
pub struct ChildCache<T> {
    entries: Vec<(String, T)>,
}

impl<T> View for ChildCache<T> {
    type V = Map<Seq<char>, T>;

    closed spec fn view(&self) -> Map<Seq<char>, T> {
        Map::new(
            |name: Seq<char>| exists|i: int| self.holds(name, i),
            |name: Seq<char>| self.entries@[choose|i: int| self.holds(name, i)].1,
        )
    }
}

impl<T> ChildCache<T> {
    spec fn holds(&self, name: Seq<char>, i: int) -> bool {
        0 <= i < self.entries@.len() && self.entries@[i].0@ == name
    }

    /// The names of the children in the order of a listing.
    pub closed spec fn listing(&self) -> Seq<Seq<char>> {
        self.entries@.map_values(|entry: (String, T)| entry.0@)
    }

    /// The children are in order, so no name occurs twice.
    pub open spec fn wf(&self) -> bool {
        forall|i: int, j: int|
            0 <= i < j < self.listing().len() ==> name_before(
                #[trigger] self.listing()[i],
                #[trigger] self.listing()[j],
            )
    }

    /// A listing names exactly the children, and none of them twice.
    pub proof fn law_listing_is_exact(&self)
        requires
            self.wf(),
        ensures
            self.listing().no_duplicates(),
            forall|name: Seq<char>|
                self.listing().contains(name) <==> #[trigger] self@.contains_key(name),
    {
        assert forall|i: int, j: int|
            0 <= i < self.listing().len() && 0 <= j < self.listing().len() && i
                != j implies self.listing()[i] != self.listing()[j] by {
            lemma_bytes_irreflexive(name_bytes(self.listing()[i]));
        }
        assert forall|name: Seq<char>|
            self.listing().contains(name) <==> #[trigger] self@.contains_key(name) by {
            if self.listing().contains(name) {
                let i = choose|i: int| 0 <= i < self.listing().len() && self.listing()[i] == name;
                assert(self.holds(name, i));
            }
            if self@.contains_key(name) {
                let i = choose|i: int| self.holds(name, i);
                assert(self.listing()[i] == name);
            }
        }
    }

    proof fn lemma_at(&self, i: int)
        requires
            self.wf(),
            0 <= i < self.entries@.len(),
        ensures
            self@.contains_key(self.entries@[i].0@),
            self@[self.entries@[i].0@] == self.entries@[i].1,
    {
        let name = self.entries@[i].0@;
        assert(self.holds(name, i));
        let k = choose|k: int| self.holds(name, k);
        assert(self.holds(name, k));
        self.law_listing_is_exact();
        assert(self.listing()[i] == self.listing()[k]);
    }

    /// No children yet.
    pub fn new() -> (cache: Self)
        ensures
            cache.wf(),
            cache@ == Map::<Seq<char>, T>::empty(),
    {
        let cache = ChildCache { entries: Vec::new() };
        assert forall|name: Seq<char>| !cache@.contains_key(name) by {
            assert(forall|i: int| !cache.holds(name, i));
        }
        assert(cache@ =~= Map::<Seq<char>, T>::empty());
        cache
    }

    /// Where `name` is, or else where it belongs.
    fn find(&self, name: &str) -> (place: Result<usize, usize>)
        requires
            self.wf(),
        ensures
            match place {
                Ok(i) => i < self.entries@.len() && self.entries@[i as int].0@ == name@
                    && self@.contains_key(name@) && self@[name@] == self.entries@[i as int].1,
                Err(i) => {
                    &&& i <= self.entries@.len()
                    &&& !self@.contains_key(name@)
                    &&& forall|j: int|
                        0 <= j < i ==> name_before(#[trigger] self.entries@[j].0@, name@)
                    &&& forall|j: int|
                        i <= j < self.entries@.len() ==> name_before(
                            name@,
                            #[trigger] self.entries@[j].0@,
                        )
                },
            },
    {
        let mut i: usize = 0;
        while i < self.entries.len()
            invariant
                self.wf(),
                i <= self.entries@.len(),
                forall|j: int| 0 <= j < i ==> name_before(#[trigger] self.entries@[j].0@, name@),
            decreases self.entries@.len() - i,
        {
            match name_order(self.entries[i].0.as_str(), name) {
                NameOrder::Before => {
                    i += 1;
                },
                NameOrder::Same => {
                    proof {
                        self.lemma_at(i as int);
                    }
                    return Ok(i);
                },
                NameOrder::After => {
                    proof {
                        assert forall|j: int| i <= j < self.entries@.len() implies name_before(
                            name@,
                            #[trigger] self.entries@[j].0@,
                        ) by {
                            if i < j {
                                assert(name_before(self.listing()[i as int], self.listing()[j]));
                                lemma_bytes_transitive(
                                    name_bytes(name@),
                                    name_bytes(self.entries@[i as int].0@),
                                    name_bytes(self.entries@[j].0@),
                                );
                            }
                        }
                        self.lemma_absent(name@, i as int);
                    }
                    return Err(i);
                },
            }
        }
        proof {
            self.lemma_absent(name@, i as int);
        }
        Err(i)
    }

    proof fn lemma_absent(&self, name: Seq<char>, at: int)
        requires
            0 <= at <= self.entries@.len(),
            forall|j: int| 0 <= j < at ==> name_before(#[trigger] self.entries@[j].0@, name),
            forall|j: int|
                at <= j < self.entries@.len() ==> name_before(name, #[trigger] self.entries@[j].0@),
        ensures
            !self@.contains_key(name),
    {
        lemma_bytes_irreflexive(name_bytes(name));
        if self@.contains_key(name) {
            let i = choose|i: int| self.holds(name, i);
            assert(self.entries@[i].0@ == name);
        }
    }

    /// Whether there is a child of this name.
    pub fn contains_key(&self, name: &str) -> (contained: bool)
        requires
            self.wf(),
        ensures
            contained == self@.contains_key(name@),
    {
        self.find(name).is_ok()
    }

    /// The child of this name.
    pub fn get(&self, name: &str) -> (child: Option<&T>)
        requires
            self.wf(),
        ensures
            child is Some <==> self@.contains_key(name@),
            child matches Some(child) ==> *child == self@[name@],
    {
        match self.find(name) {
            Ok(i) => Some(&self.entries[i].1),
            Err(_) => None,
        }
    }

    /// The child of this name, to be changed.
    pub fn get_mut(&mut self, name: &str) -> (child: Option<&mut T>)
        requires
            old(self).wf(),
        ensures
            child is Some <==> old(self)@.contains_key(name@),
            child is None ==> *final(self) == *old(self),
            child matches Some(child) ==> {
                &&& *child == old(self)@[name@]
                &&& final(self)@ == old(self)@.insert(name@, *final(child))
                &&& final(self).listing() == old(self).listing()
                &&& final(self).wf()
            },
    {
        match self.find(name) {
            Ok(i) => {
                proof {
                    let before = *self;
                    assert forall|after: Self, child: T|
                        after.entries@ == before.entries@.update(
                            i as int,
                            (before.entries@[i as int].0, child),
                        ) implies after.wf() && after.listing() == before.listing()
                        && #[trigger] after@ == #[trigger] before@.insert(name@, child) by {
                        before.lemma_replaced(after, i as int, child);
                    }
                }
                Some(&mut self.entries[i].1)
            },
            Err(_) => None,
        }
    }

    /// Take in a child under a name that has none yet.
    pub fn insert(&mut self, name: &str, child: T)
        requires
            old(self).wf(),
            !old(self)@.contains_key(name@),
        ensures
            final(self).wf(),
            final(self)@ == old(self)@.insert(name@, child),
    {
        match self.find(name) {
            Ok(_) => {},
            Err(at) => {
                self.entries.insert(at, (name.to_owned(), child));
                proof {
                    old(self).lemma_inserted(*self, name@, at as int, child);
                }
            },
        }
    }

    /// The names of the children in the order of a listing.
    pub fn names(&self) -> (names: Vec<String>)
        ensures
            names@.len() == self.listing().len(),
            forall|i: int| 0 <= i < names@.len() ==> (#[trigger] names@[i])@ == self.listing()[i],
    {
        let mut names: Vec<String> = Vec::new();
        let mut i: usize = 0;
        while i < self.entries.len()
            invariant
                i <= self.entries@.len(),
                names@.len() == i,
                forall|j: int| 0 <= j < i ==> (#[trigger] names@[j])@ == self.listing()[j],
            decreases self.entries@.len() - i,
        {
            names.push(self.entries[i].0.as_str().to_owned());
            i += 1;
        }
        names
    }

    proof fn lemma_replaced(&self, after: Self, at: int, child: T)
        requires
            self.wf(),
            0 <= at < self.entries@.len(),
            after.entries@ == self.entries@.update(at, (self.entries@[at].0, child)),
        ensures
            after.wf(),
            after.listing() == self.listing(),
            after@ == self@.insert(self.entries@[at].0@, child),
    {
        let name = self.entries@[at].0@;
        assert(after.listing() =~= self.listing());
        self.law_listing_is_exact();
        after.law_listing_is_exact();
        self.lemma_at(at);
        after.lemma_at(at);
        assert forall|other: Seq<char>| after@.contains_key(other) implies after@[other]
            == self@.insert(name, child)[other] by {
            let i = choose|i: int| after.holds(other, i);
            assert(after.holds(other, i));
            self.lemma_at(i);
            after.lemma_at(i);
        }
        assert(after@ =~= self@.insert(name, child));
    }

    proof fn lemma_inserted(&self, after: Self, name: Seq<char>, at: int, child: T)
        requires
            self.wf(),
            0 <= at <= self.entries@.len(),
            after.entries@.len() == self.entries@.len() + 1,
            after.entries@[at].0@ == name,
            after.entries@[at].1 == child,
            forall|j: int| 0 <= j < at ==> after.entries@[j] == self.entries@[j],
            forall|j: int| at < j < after.entries@.len() ==> after.entries@[j] == self.entries@[j - 1],
            forall|j: int| 0 <= j < at ==> name_before(#[trigger] self.entries@[j].0@, name),
            forall|j: int|
                at <= j < self.entries@.len() ==> name_before(name, #[trigger] self.entries@[j].0@),
        ensures
            after.wf(),
            after@ == self@.insert(name, child),
    {
        assert forall|i: int, j: int| 0 <= i < j < after.listing().len() implies name_before(
            #[trigger] after.listing()[i],
            #[trigger] after.listing()[j],
        ) by {
            let k = if i < at { i } else { i - 1 };
            let l = if j < at { j } else { j - 1 };
            if i != at {
                assert(after.listing()[i] == self.listing()[k]);
            }
            if j != at {
                assert(after.listing()[j] == self.listing()[l]);
            }
        }
        after.law_listing_is_exact();
        self.law_listing_is_exact();
        self.lemma_absent(name, at);
        after.lemma_at(at);
        assert forall|other: Seq<char>|
            other != name implies #[trigger] after@.contains_key(other) == self@.contains_key(other)
            && (self@.contains_key(other) ==> after@[other] == self@[other]) by {
            if after@.contains_key(other) {
                let i = choose|i: int| after.holds(other, i);
                assert(after.holds(other, i));
                let k = if i < at { i } else { i - 1 };
                assert(self.holds(other, k));
            }
            if self@.contains_key(other) {
                let k = choose|k: int| self.holds(other, k);
                assert(self.holds(other, k));
                let i = if k < at { k } else { k + 1 };
                assert(after.entries@[i] == self.entries@[k]);
                after.lemma_at(i);
                self.lemma_at(k);
            }
        }
        assert(after@ =~= self@.insert(name, child));
    }
}

} // verus!
