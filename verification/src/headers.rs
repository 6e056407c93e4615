//! The shared header registry.
//!
//! A mutable mapping of header name to header value that is applied to every
//! outgoing remote request. It is exposed through write methods (`set`,
//! `remove`) and a read-snapshot method (`snapshot`) only: a fetch works on
//! the snapshot it took, so later mutation cannot alter a request already in
//! flight.

use vstd::prelude::*;

verus! {

/// Map value of a sequence of (name, value) pairs; a later pair for the same
/// name wins.
pub open spec fn header_map_of(s: Seq<(String, String)>) -> Map<Seq<char>, Seq<char>>
    decreases s.len(),
{
    if s.len() == 0 {
        Map::empty()
    } else {
        header_map_of(s.drop_last()).insert(s.last().0@, s.last().1@)
    }
}

/// The pair names are pairwise distinct.
pub open spec fn header_keys_unique(s: Seq<(String, String)>) -> bool {
    forall|i: int, j: int| 0 <= i < j < s.len() ==> s[i].0@ != s[j].0@
}

/// Appending a pair inserts its name into the map value.
pub proof fn lemma_header_map_push(s: Seq<(String, String)>, p: (String, String))
    ensures
        header_map_of(s.push(p)) == header_map_of(s).insert(p.0@, p.1@),
{
    assert(s.push(p).drop_last() =~= s);
    assert(s.push(p).last() == p);
}

/// Overwriting the pair that already carries a name updates that name's entry
/// in the map value, provided the names are distinct.
pub proof fn lemma_header_map_update(s: Seq<(String, String)>, i: int, p: (String, String))
    requires
        header_keys_unique(s),
        0 <= i < s.len(),
        s[i].0@ == p.0@,
    ensures
        header_map_of(s.update(i, p)) == header_map_of(s).insert(p.0@, p.1@),
    decreases s.len(),
{
    let t = s.update(i, p);
    if i == s.len() - 1 {
        assert(t.drop_last() =~= s.drop_last());
        assert(t.last() == p);
        assert(header_map_of(s.drop_last()).insert(s.last().0@, s.last().1@).insert(p.0@, p.1@)
            =~= header_map_of(s.drop_last()).insert(p.0@, p.1@));
    } else {
        assert(t.drop_last() =~= s.drop_last().update(i, p));
        assert(forall|x: int, y: int|
            0 <= x < y < s.drop_last().len() ==> s.drop_last()[x].0@ != s.drop_last()[y].0@);
        lemma_header_map_update(s.drop_last(), i, p);
        assert(t.last() == s.last());
        assert(p.0@ != s.last().0@);
        assert(header_map_of(s.drop_last()).insert(p.0@, p.1@).insert(s.last().0@, s.last().1@)
            =~= header_map_of(s.drop_last()).insert(s.last().0@, s.last().1@).insert(p.0@, p.1@));
    }
}

/// A name carried by no pair is not in the map value.
pub proof fn lemma_header_map_absent(s: Seq<(String, String)>, k: Seq<char>)
    requires
        forall|j: int| 0 <= j < s.len() ==> s[j].0@ != k,
    ensures
        !header_map_of(s).dom().contains(k),
    decreases s.len(),
{
    if s.len() > 0 {
        lemma_header_map_absent(s.drop_last(), k);
    }
}

/// Removing the pair that carries a name removes that name from the map
/// value, provided the names are distinct.
pub proof fn lemma_header_map_remove_at(s: Seq<(String, String)>, i: int)
    requires
        header_keys_unique(s),
        0 <= i < s.len(),
    ensures
        header_map_of(s.remove(i)) == header_map_of(s).remove(s[i].0@),
    decreases s.len(),
{
    let k = s[i].0@;
    if i == s.len() - 1 {
        assert(s.remove(i) =~= s.drop_last());
        assert(forall|j: int| 0 <= j < s.drop_last().len() ==> s.drop_last()[j].0@ != k);
        lemma_header_map_absent(s.drop_last(), k);
        assert(header_map_of(s.drop_last()).insert(k, s[i].1@).remove(k) =~= header_map_of(
            s.drop_last(),
        ));
    } else {
        assert(s.remove(i).drop_last() =~= s.drop_last().remove(i));
        assert(forall|x: int, y: int|
            0 <= x < y < s.drop_last().len() ==> s.drop_last()[x].0@ != s.drop_last()[y].0@);
        lemma_header_map_remove_at(s.drop_last(), i);
        assert(s.remove(i).last() == s.last());
        assert(k != s.last().0@);
        assert(header_map_of(s.drop_last()).remove(k).insert(s.last().0@, s.last().1@)
            =~= header_map_of(s.drop_last()).insert(s.last().0@, s.last().1@).remove(k));
    }
}

/// Two pair sequences equal view-for-view have the same map value.
pub proof fn lemma_header_map_congruent(a: Seq<(String, String)>, b: Seq<(String, String)>)
    requires
        a.len() == b.len(),
        forall|j: int| 0 <= j < a.len() ==> a[j].0@ == b[j].0@ && a[j].1@ == b[j].1@,
    ensures
        header_map_of(a) == header_map_of(b),
    decreases a.len(),
{
    if a.len() == 0 {
        assert(header_map_of(a) =~= header_map_of(b));
    } else {
        lemma_header_map_congruent(a.drop_last(), b.drop_last());
        assert(header_map_of(a) =~= header_map_of(b));
    }
}

/// The registry of headers sent with every remote request.
///
/// Its mathematical value is the mapping of header names to values; the
/// representation keeps one pair per name.
pub struct HttpHeader {
    entries: Vec<(String, String)>,
}

impl View for HttpHeader {
    type V = Map<Seq<char>, Seq<char>>;

    closed spec fn view(&self) -> Map<Seq<char>, Seq<char>> {
        header_map_of(self.entries@)
    }
}

impl HttpHeader {
    /// The representation holds at most one pair per name.
    pub closed spec fn wf(&self) -> bool {
        header_keys_unique(self.entries@)
    }

    /// An empty registry.
    pub fn new() -> (r: HttpHeader)
        ensures
            r.wf(),
            r@ == Map::<Seq<char>, Seq<char>>::empty(),
    {
        HttpHeader { entries: Vec::new() }
    }

    /// Inserts a header, or overwrites the value of one already present.
    pub fn set(&mut self, name: String, value: String)
        requires
            old(self).wf(),
        ensures
            final(self).wf(),
            final(self)@ == old(self)@.insert(name@, value@),
    {
        let n = self.entries.len();
        let mut i: usize = 0;
        while i < n
            invariant
                0 <= i <= n,
                n == self.entries@.len(),
                self.entries@ == old(self).entries@,
                header_keys_unique(self.entries@),
                forall|j: int| 0 <= j < i ==> self.entries@[j].0@ != name@,
            decreases n - i,
        {
            let hit = self.entries[i].0 == name;
            if hit {
                proof {
                    lemma_header_map_update(self.entries@, i as int, (name, value));
                }
                let ghost s = self.entries@;
                self.entries[i] = (name, value);
                proof {
                    assert(self.entries@ == s.update(i as int, (name, value)));
                    assert forall|x: int, y: int|
                        0 <= x < y < self.entries@.len() implies self.entries@[x].0@
                        != self.entries@[y].0@ by {
                        if x == i {
                            assert(self.entries@[y] == s[y]);
                            assert(s[i as int].0@ != s[y].0@);
                        } else if y == i {
                            assert(self.entries@[x] == s[x]);
                            assert(s[x].0@ != s[i as int].0@);
                        } else {
                            assert(self.entries@[x] == s[x]);
                            assert(self.entries@[y] == s[y]);
                        }
                    }
                }
                return;
            }
            i += 1;
        }
        proof {
            lemma_header_map_push(self.entries@, (name, value));
        }
        self.entries.push((name, value));
    }

    /// Removes a header; a name not present leaves the registry as it is.
    pub fn remove(&mut self, name: &String)
        requires
            old(self).wf(),
        ensures
            final(self).wf(),
            final(self)@ == old(self)@.remove(name@),
    {
        let n = self.entries.len();
        let mut i: usize = 0;
        while i < n
            invariant
                0 <= i <= n,
                n == self.entries@.len(),
                self.entries@ == old(self).entries@,
                header_keys_unique(self.entries@),
                forall|j: int| 0 <= j < i ==> self.entries@[j].0@ != name@,
            decreases n - i,
        {
            let hit = self.entries[i].0 == *name;
            if hit {
                proof {
                    lemma_header_map_remove_at(self.entries@, i as int);
                }
                let ghost s = self.entries@;
                self.entries.remove(i);
                proof {
                    assert(self.entries@ == s.remove(i as int));
                    assert forall|x: int, y: int|
                        0 <= x < y < self.entries@.len() implies self.entries@[x].0@
                        != self.entries@[y].0@ by {
                        let ox = if x < i { x } else { x + 1 };
                        let oy = if y < i { y } else { y + 1 };
                        assert(self.entries@[x] == s[ox]);
                        assert(self.entries@[y] == s[oy]);
                        assert(s[ox].0@ != s[oy].0@);
                    }
                }
                return;
            }
            i += 1;
        }
        proof {
            lemma_header_map_absent(self.entries@, name@);
            assert(header_map_of(self.entries@).remove(name@) =~= header_map_of(self.entries@));
        }
    }

    /// Returns a copy of the current mapping for use by one in-flight fetch;
    /// later `set` calls do not affect the copy.
    pub fn snapshot(&self) -> (r: Vec<(String, String)>)
        requires
            self.wf(),
        ensures
            header_map_of(r@) == self@,
            header_keys_unique(r@),
    {
        let n = self.entries.len();
        let mut r: Vec<(String, String)> = Vec::new();
        let mut i: usize = 0;
        while i < n
            invariant
                0 <= i <= n,
                n == self.entries@.len(),
                r@.len() == i,
                forall|j: int| #![all_triggers]
                    0 <= j < i ==> r@[j].0@ == self.entries@[j].0@ && r@[j].1@
                        == self.entries@[j].1@,
            decreases n - i,
        {
            let name = self.entries[i].0.clone();
            let value = self.entries[i].1.clone();
            r.push((name, value));
            i += 1;
        }
        proof {
            lemma_header_map_congruent(r@, self.entries@);
        }
        r
    }
}

impl Default for HttpHeader {
    /// An empty registry.
    fn default() -> (r: HttpHeader)
        ensures
            r.wf(),
            r@ == Map::<Seq<char>, Seq<char>>::empty(),
    {
        HttpHeader::new()
    }
}

} // verus!
