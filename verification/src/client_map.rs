//! Per-client association table with upsert (last-write-wins) semantics,
//! used for the deferred move/resize and redraw queues and the hint cache.
//!
//! Entries stay in insertion order; a key occurs at most once, so queuing a
//! client twice before a flush leaves only the latest value.

use vstd::prelude::*;

use crate::client::Client;

verus! {

/// Some entry carries this key.
pub open spec fn map_has_key<T>(s: Seq<(Client, T)>, client: Client) -> bool {
    exists|i: int| 0 <= i < s.len() && (#[trigger] s[i]).0 == client
}

/// The index of the entry carrying this key; meaningful only when
/// `map_has_key` holds (unique then, under the table invariant).
pub open spec fn map_index_of_key<T>(s: Seq<(Client, T)>, client: Client) -> int {
    choose|i: int| 0 <= i < s.len() && (#[trigger] s[i]).0 == client
}

/// The value stored under this key; meaningful only when `map_has_key` holds.
pub open spec fn map_value_of<T>(s: Seq<(Client, T)>, client: Client) -> T {
    s[map_index_of_key(s, client)].1
}

/// The table after storing `value` under `client`: the existing entry is
/// overwritten in place, or a new entry is appended.
pub open spec fn map_upsert<T>(s: Seq<(Client, T)>, client: Client, value: T) -> Seq<(Client, T)> {
    if map_has_key(s, client) {
        s.update(map_index_of_key(s, client), (client, value))
    } else {
        s.push((client, value))
    }
}

/// The table invariant: each key occurs at most once.
pub open spec fn map_wf<T>(s: Seq<(Client, T)>) -> bool {
    forall|i: int, j: int|
        0 <= i < s.len() && 0 <= j < s.len() && i != j ==> (#[trigger] s[i]).0 != (
        #[trigger] s[j]).0
}

/// Insertion-ordered table from client to a pending value.
pub struct ClientMap<T> {
    item: Vec<(Client, T)>,
}

impl<T> View for ClientMap<T> {
    type V = Seq<(Client, T)>;

    closed spec fn view(&self) -> Seq<(Client, T)> {
        self.item@
    }
}

impl<T> ClientMap<T> {
    pub open spec fn wf(self) -> bool {
        map_wf(self@)
    }

    pub fn new() -> (r: ClientMap<T>)
        ensures
            r@ == Seq::<(Client, T)>::empty(),
            r.wf(),
    {
        let r = ClientMap { item: Vec::new() };
        proof {
            assert(r@ =~= Seq::<(Client, T)>::empty());
        }
        r
    }

    /// Store `item` under `client`, overwriting any value already queued for
    /// that client.
    pub fn insert(&mut self, client: Client, item: T)
        requires
            old(self).wf(),
        ensures
            final(self).wf(),
            final(self)@ == map_upsert(old(self)@, client, item),
    {
        let n = self.item.len();
        let mut i: usize = 0;
        while i < n
            invariant
                self@ == old(self)@,
                self.wf(),
                n == self.item.len(),
                0 <= i <= n,
                forall|k: int| 0 <= k < i ==> (#[trigger] self.item@[k]).0 != client,
            decreases n - i,
        {
            if self.item[i].0 == client {
                proof {
                    lemma_map_key_unique(self@, i as int, map_index_of_key(self@, client), client);
                }
                self.item[i] = (client, item);
                proof {
                    lemma_map_update_wf(old(self)@, i as int, (client, item));
                }
                return;
            }
            i += 1;
        }
        proof {
            if map_has_key(self@, client) {
                let k = map_index_of_key(self@, client);
                assert(self@[k].0 == client);
            }
        }
        self.item.push((client, item));
        proof {
            let s = self@;
            let olds = old(self)@;
            assert forall|a: int, b: int|
                0 <= a < s.len() && 0 <= b < s.len() && a != b implies (#[trigger] s[a]).0 != (
            #[trigger] s[b]).0 by {
                if a < olds.len() && b < olds.len() {
                    assert(s[a] == olds[a] && s[b] == olds[b]);
                } else if a == olds.len() {
                    assert(s[b] == olds[b]);
                } else {
                    assert(s[a] == olds[a]);
                }
            }
        }
    }

    /// The value queued for `client`, if any.
    pub fn query(&self, client: Client) -> (r: Option<&T>)
        requires
            self.wf(),
        ensures
            r.is_some() == map_has_key(self@, client),
            r matches Option::Some(v) ==> *v == map_value_of(self@, client),
    {
        let n = self.item.len();
        let mut i: usize = 0;
        while i < n
            invariant
                self.wf(),
                n == self.item.len(),
                0 <= i <= n,
                forall|k: int| 0 <= k < i ==> (#[trigger] self.item@[k]).0 != client,
            decreases n - i,
        {
            if self.item[i].0 == client {
                proof {
                    assert(map_has_key(self@, client));
                    lemma_map_key_unique(self@, i as int, map_index_of_key(self@, client), client);
                }
                return Some(&self.item[i].1);
            }
            i += 1;
        }
        proof {
            if map_has_key(self@, client) {
                let k = map_index_of_key(self@, client);
                assert(self@[k].0 == client);
            }
        }
        None
    }

    /// Drop the entry queued for `client`, if any; a no-op otherwise.
    pub fn remove(&mut self, client: Client)
        requires
            old(self).wf(),
        ensures
            final(self).wf(),
            map_has_key(old(self)@, client) ==> final(self)@ == old(self)@.remove(
                map_index_of_key(old(self)@, client),
            ),
            !map_has_key(old(self)@, client) ==> final(self)@ == old(self)@,
            !map_has_key(final(self)@, client),
    {
        let n = self.item.len();
        let mut i: usize = 0;
        while i < n
            invariant
                self@ == old(self)@,
                self.wf(),
                n == self.item.len(),
                0 <= i <= n,
                forall|k: int| 0 <= k < i ==> (#[trigger] self.item@[k]).0 != client,
            decreases n - i,
        {
            if self.item[i].0 == client {
                proof {
                    assert(map_has_key(self@, client));
                    lemma_map_key_unique(self@, i as int, map_index_of_key(self@, client), client);
                }
                self.item.remove(i);
                proof {
                    let olds = old(self)@;
                    let s = self@;
                    assert forall|a: int, b: int|
                        0 <= a < s.len() && 0 <= b < s.len() && a != b implies (
                    #[trigger] s[a]).0 != (#[trigger] s[b]).0 by {
                        let oa = if a < i as int { a } else { a + 1 };
                        let ob = if b < i as int { b } else { b + 1 };
                        assert(s[a] == olds[oa] && s[b] == olds[ob]);
                    }
                    assert(!map_has_key(s, client)) by {
                        if map_has_key(s, client) {
                            let k = map_index_of_key(s, client);
                            let orig = if k < i as int { k } else { k + 1 };
                            assert(olds[orig].0 == client);
                            lemma_map_key_unique(olds, i as int, orig, client);
                        }
                    }
                }
                return;
            }
            i += 1;
        }
        proof {
            if map_has_key(self@, client) {
                let k = map_index_of_key(self@, client);
                assert(self@[k].0 == client);
            }
        }
    }

    /// The entries in queue order, for a flush pass to walk.
    pub fn entries(&self) -> (r: &Vec<(Client, T)>)
        ensures
            r@ == self@,
    {
        &self.item
    }

    /// Drop every entry.
    pub fn clear(&mut self)
        ensures
            final(self)@ == Seq::<(Client, T)>::empty(),
            final(self).wf(),
    {
        self.item.clear();
        proof {
            assert(self@ =~= Seq::<(Client, T)>::empty());
        }
    }
}

/// Under the table invariant two indices carrying the same key coincide.
proof fn lemma_map_key_unique<T>(s: Seq<(Client, T)>, i: int, j: int, client: Client)
    requires
        map_wf(s),
        0 <= i < s.len(),
        0 <= j < s.len(),
        s[i].0 == client,
        s[j].0 == client,
    ensures
        i == j,
{
}

/// Overwriting an entry in place keeps the table invariant when the key is
/// unchanged.
proof fn lemma_map_update_wf<T>(s: Seq<(Client, T)>, i: int, entry: (Client, T))
    requires
        map_wf(s),
        0 <= i < s.len(),
        entry.0 == s[i].0,
    ensures
        map_wf(s.update(i, entry)),
{
    let r = s.update(i, entry);
    assert forall|a: int, b: int|
        0 <= a < r.len() && 0 <= b < r.len() && a != b implies (#[trigger] r[a]).0 != (
    #[trigger] r[b]).0 by {
        assert(r[a].0 == s[a].0 && r[b].0 == s[b].0);
    }
}

/// How many entries carry this key.
pub open spec fn count_key<T>(s: Seq<(Client, T)>, client: Client) -> int
    decreases s.len(),
{
    if s.len() == 0 {
        0
    } else {
        count_key(s.drop_last(), client) + if s.last().0 == client {
            1int
        } else {
            0int
        }
    }
}

/// A prefix of a well-formed table is well formed.
pub proof fn lemma_map_wf_drop_last<T>(s: Seq<(Client, T)>)
    requires
        map_wf(s),
        s.len() > 0,
    ensures
        map_wf(s.drop_last()),
{
    let r = s.drop_last();
    assert forall|a: int, b: int|
        0 <= a < r.len() && 0 <= b < r.len() && a != b implies (#[trigger] r[a]).0 != (
    #[trigger] r[b]).0 by {
        assert(r[a] == s[a] && r[b] == s[b]);
    }
}

/// Under the table invariant a key occupies exactly one entry when present,
/// and none otherwise.
pub proof fn lemma_key_count<T>(s: Seq<(Client, T)>, client: Client)
    requires
        map_wf(s),
    ensures
        count_key(s, client) == if map_has_key(s, client) {
            1int
        } else {
            0int
        },
    decreases s.len(),
{
    if s.len() > 0 {
        let prefix = s.drop_last();
        lemma_map_wf_drop_last(s);
        lemma_key_count(prefix, client);
        let n = s.len() - 1;
        if s.last().0 == client {
            assert(map_has_key(s, client));
            assert(!map_has_key(prefix, client)) by {
                if map_has_key(prefix, client) {
                    let k = choose|i: int| 0 <= i < prefix.len() && (#[trigger] prefix[i]).0
                        == client;
                    assert(s[k].0 == client && s[n].0 == client);
                }
            }
        } else {
            assert(map_has_key(s, client) == map_has_key(prefix, client)) by {
                if map_has_key(s, client) {
                    let k = choose|i: int| 0 <= i < s.len() && (#[trigger] s[i]).0 == client;
                    assert(k != n);
                    assert(prefix[k].0 == client);
                }
                if map_has_key(prefix, client) {
                    let k = choose|i: int| 0 <= i < prefix.len() && (#[trigger] prefix[i]).0
                        == client;
                    assert(s[k].0 == client);
                }
            }
        }
    }
}

/// Last write wins: upserting the same client twice before a flush leaves
/// exactly the table that the second upsert alone would have left.
pub proof fn lemma_upsert_last_write_wins<T>(s: Seq<(Client, T)>, client: Client, first: T, second: T)
    requires
        map_wf(s),
    ensures
        map_upsert(map_upsert(s, client, first), client, second) == map_upsert(s, client, second),
{
    let s1 = map_upsert(s, client, first);
    if map_has_key(s, client) {
        let k = map_index_of_key(s, client);
        assert(s[k].0 == client);
        assert(s1[k].0 == client);
        assert(map_has_key(s1, client));
        let k1 = map_index_of_key(s1, client);
        assert(s1[k1].0 == client);
        lemma_map_update_wf(s, k, (client, first));
        lemma_map_key_unique(s1, k, k1, client);
        assert(map_upsert(s1, client, second) =~= map_upsert(s, client, second));
    } else {
        let n = s.len() as int;
        assert(s1 == s.push((client, first)));
        assert(s1[n].0 == client);
        assert(map_has_key(s1, client));
        let k1 = map_index_of_key(s1, client);
        assert(s1[k1].0 == client);
        assert(k1 == n) by {
            if k1 < n {
                assert(s[k1].0 == client);
                assert(map_has_key(s, client));
            }
        }
        assert(map_upsert(s1, client, second) =~= map_upsert(s, client, second));
    }
}

} // verus!
