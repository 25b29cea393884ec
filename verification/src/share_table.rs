//! The dispersal shares of one view, one for each recipient.
//!
//! A table maps a recipient's key, an opaque byte string, to the share that
//! was last written for that recipient. No key occurs twice.

use crate::proposal::Proposal;
use vstd::prelude::*;

verus! {

/// Whether two byte strings are equal.
pub fn bytes_equal(a: &[u8], b: &[u8]) -> (r: bool)
    ensures
        r == (a@ == b@),
{
    if a.len() != b.len() {
        return false;
    }
    let n: usize = a.len();
    let mut i: usize = 0;
    while i < n
        invariant
            n == a@.len(),
            n == b@.len(),
            i <= n,
            forall|j: int| 0 <= j < i ==> a@[j] == b@[j],
        decreases n - i,
    {
        if a[i] != b[i] {
            return false;
        }
        i = i + 1;
    }
    proof {
        assert(a@ =~= b@);
    }
    true
}

/// A map from recipient keys to proposals, kept as a list of pairs.
#[derive(Clone, Debug, PartialEq, Eq)]
pub struct ShareTable<P> {
    entries: Vec<(Vec<u8>, Proposal<P>)>,
}

/// Whether `i` is the position of `key` in a list of pairs.
pub open spec fn holds_at<P>(entries: Seq<(Vec<u8>, Proposal<P>)>, key: Seq<u8>, i: int) -> bool {
    0 <= i < entries.len() && entries[i].0@ == key
}

/// The map that a list of pairs stands for.
pub open spec fn table_of<P>(entries: Seq<(Vec<u8>, Proposal<P>)>) -> Map<Seq<u8>, Proposal<P>> {
    Map::new(
        |key: Seq<u8>| exists|i: int| holds_at(entries, key, i),
        |key: Seq<u8>| entries[choose|i: int| holds_at(entries, key, i)].1,
    )
}

/// Whether no key occurs twice in a list of pairs.
pub open spec fn distinct_keys<P>(entries: Seq<(Vec<u8>, Proposal<P>)>) -> bool {
    forall|i: int, j: int|
        0 <= i < j < entries.len() ==> (#[trigger] entries[i]).0@ != (#[trigger] entries[j]).0@
}

impl<P> View for ShareTable<P> {
    type V = Map<Seq<u8>, Proposal<P>>;

    closed spec fn view(&self) -> Map<Seq<u8>, Proposal<P>> {
        table_of(self.entries@)
    }
}

impl<P> ShareTable<P> {
    /// Whether the table is well formed: no key occurs twice in its list.
    pub closed spec fn wf(&self) -> bool {
        distinct_keys(self.entries@)
    }

    /// A table without entries.
    pub fn new() -> (r: ShareTable<P>)
        ensures
            r.wf(),
            r@ == Map::<Seq<u8>, Proposal<P>>::empty(),
    {
        let r = ShareTable { entries: Vec::new() };
        r
    }

    /// The number of recipients that have a share.
    pub fn len(&self) -> (n: usize)
        requires
            self.wf(),
        ensures
            n == self@.dom().len(),
            self@.dom().finite(),
    {
        proof {
            lemma_table_size(self.entries@);
        }
        self.entries.len()
    }

    /// The position of a key in the list, if it has one.
    fn position(&self, key: &[u8]) -> (r: Option<usize>)
        ensures
            match r {
                Some(i) => holds_at(self.entries@, key@, i as int),
                None => forall|i: int| !holds_at(self.entries@, key@, i),
            },
    {
        let n: usize = self.entries.len();
        let mut i: usize = 0;
        while i < n
            invariant
                n == self.entries@.len(),
                i <= n,
                forall|j: int| 0 <= j < i ==> !holds_at(self.entries@, key@, j),
            decreases n - i,
        {
            if bytes_equal(self.entries[i].0.as_slice(), key) {
                return Some(i);
            }
            i = i + 1;
        }
        None
    }

    /// The share that was last written for a recipient.
    pub fn get(&self, key: &[u8]) -> (r: Option<&Proposal<P>>)
        requires
            self.wf(),
        ensures
            match r {
                Some(p) => self@.contains_key(key@) && *p == self@[key@],
                None => !self@.contains_key(key@),
            },
    {
        match self.position(key) {
            Some(i) => Some(&self.entries[i].1),
            None => None,
        }
    }

    /// Writes the share of a recipient. A share written earlier for the same
    /// recipient is replaced.
    pub fn insert(&mut self, key: Vec<u8>, value: Proposal<P>)
        requires
            old(self).wf(),
        ensures
            final(self).wf(),
            final(self)@ == old(self)@.insert(key@, value),
    {
        let ghost before = self.entries@;
        match self.position(key.as_slice()) {
            Some(i) => {
                self.entries[i] = (key, value);
                proof {
                    lemma_replace(before, i as int, key, value);
                }
            },
            None => {
                self.entries.push((key, value));
                proof {
                    lemma_append(before, key, value);
                }
            },
        }
    }
}

/// A list without repeated keys has as many pairs as its map has keys.
pub proof fn lemma_table_size<P>(entries: Seq<(Vec<u8>, Proposal<P>)>)
    requires
        distinct_keys(entries),
    ensures
        table_of(entries).dom().finite(),
        table_of(entries).dom().len() == entries.len(),
    decreases entries.len(),
{
    if entries.len() == 0 {
        assert(table_of(entries).dom() =~= Set::<Seq<u8>>::empty());
    } else {
        let last = entries.last();
        let front = entries.drop_last();
        assert(distinct_keys(front));
        lemma_table_size(front);
        let dom_front = table_of(front).dom();
        assert(table_of(entries).dom() =~= dom_front.insert(last.0@)) by {
            assert forall|key: Seq<u8>| table_of(entries).dom().contains(key) implies dom_front.insert(
                last.0@,
            ).contains(key) by {
                let i = choose|i: int| holds_at(entries, key, i);
                if i < front.len() {
                    assert(holds_at(front, key, i));
                }
            }
            assert forall|key: Seq<u8>| dom_front.insert(last.0@).contains(key) implies table_of(
                entries,
            ).dom().contains(key) by {
                if key == last.0@ {
                    assert(holds_at(entries, key, entries.len() - 1));
                } else {
                    let i = choose|i: int| holds_at(front, key, i);
                    assert(holds_at(entries, key, i));
                }
            }
        }
    }
}

/// Replacing the pair at the position of a key writes that key in the map.
proof fn lemma_replace<P>(
    before: Seq<(Vec<u8>, Proposal<P>)>,
    i: int,
    key: Vec<u8>,
    value: Proposal<P>,
)
    requires
        distinct_keys(before),
        holds_at(before, key@, i),
    ensures
        distinct_keys(before.update(i, (key, value))),
        table_of(before.update(i, (key, value))) == table_of(before).insert(key@, value),
{
    let after = before.update(i, (key, value));
    assert(forall|k: Seq<u8>, c: int| holds_at(after, k, c) <==> holds_at(before, k, c));
}

/// Appending a pair whose key is new writes that key in the map.
proof fn lemma_append<P>(before: Seq<(Vec<u8>, Proposal<P>)>, key: Vec<u8>, value: Proposal<P>)
    requires
        distinct_keys(before),
        forall|i: int| !holds_at(before, key@, i),
    ensures
        distinct_keys(before.push((key, value))),
        table_of(before.push((key, value))) == table_of(before).insert(key@, value),
{
    let after = before.push((key, value));
    let n = before.len() as int;
    assert forall|a: int, b: int| 0 <= a < b < after.len() implies (#[trigger] after[a]).0@ != (
    #[trigger] after[b]).0@ by {
        if b >= n {
            assert(!holds_at(before, key@, a));
        }
    }
    let want = table_of(before).insert(key@, value);
    assert forall|k: Seq<u8>| table_of(after).dom().contains(k) <==> want.dom().contains(k) by {
        if table_of(after).dom().contains(k) {
            let c = choose|c: int| holds_at(after, k, c);
            if c < n {
                assert(holds_at(before, k, c));
            }
        }
        if want.dom().contains(k) {
            if k == key@ {
                assert(holds_at(after, k, n));
            } else {
                let c = choose|c: int| holds_at(before, k, c);
                assert(holds_at(after, k, c));
            }
        }
    }
    assert forall|k: Seq<u8>| table_of(after).dom().contains(k) implies table_of(after)[k]
        == want[k] by {
        let c = choose|c: int| holds_at(after, k, c);
        if k == key@ {
            if c < n {
                assert(holds_at(before, k, c));
            }
        } else {
            assert(holds_at(before, k, c));
        }
    }
}

} // verus!
