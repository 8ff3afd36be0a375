//! The client registry: a bidirectional index from window identifier to the
//! client it belongs to.
//!
//! Entries are kept in insertion order; the registry invariant is that every
//! window identifier — application or frame — appears at most once over the
//! whole table, so lookups by either identifier are unambiguous.

use vstd::prelude::*;

use crate::client::{Client, Role};

verus! {

/// Some entry's application window has this identifier.
pub open spec fn has_app(s: Seq<Client>, id: u32) -> bool {
    exists|c: Client| s.contains(c) && c.app_id == id
}

/// Some entry's frame window has this identifier.
pub open spec fn has_frame(s: Seq<Client>, id: u32) -> bool {
    exists|c: Client| s.contains(c) && c.frame_id == id
}

/// The identifier is registered, in either role.
pub open spec fn has_id(s: Seq<Client>, id: u32) -> bool {
    has_app(s, id) || has_frame(s, id)
}

/// The client whose application window has this identifier; meaningful only
/// when `has_app` holds (unique then, under the registry invariant).
pub open spec fn app_client_of(s: Seq<Client>, id: u32) -> Client {
    choose|c: Client| s.contains(c) && c.app_id == id
}

/// The client whose frame window has this identifier; meaningful only when
/// `has_frame` holds.
pub open spec fn frame_client_of(s: Seq<Client>, id: u32) -> Client {
    choose|c: Client| s.contains(c) && c.frame_id == id
}

/// The result a lookup by application window identifier owes.
pub open spec fn app_lookup(s: Seq<Client>, id: u32) -> Option<Client> {
    if has_app(s, id) {
        Option::Some(app_client_of(s, id))
    } else {
        Option::None
    }
}

/// The result a lookup by frame window identifier owes.
pub open spec fn frame_lookup(s: Seq<Client>, id: u32) -> Option<Client> {
    if has_frame(s, id) {
        Option::Some(frame_client_of(s, id))
    } else {
        Option::None
    }
}

/// The registry invariant: no identifier appears twice, neither within a
/// column, across the two columns, nor within a single entry.
pub open spec fn registry_wf(s: Seq<Client>) -> bool {
    forall|i: int, j: int|
        0 <= i < s.len() && 0 <= j < s.len() ==> {
            &&& (i != j ==> (#[trigger] s[i]).app_id != (#[trigger] s[j]).app_id)
            &&& (i != j ==> s[i].frame_id != s[j].frame_id)
            &&& s[i].app_id != s[j].frame_id
        }
}

/// Insertion-ordered registry of managed clients.
pub struct ClientContainer {
    clients: Vec<Client>,
}

impl View for ClientContainer {
    type V = Seq<Client>;

    closed spec fn view(&self) -> Seq<Client> {
        self.clients@
    }
}

impl ClientContainer {
    pub open spec fn wf(self) -> bool {
        registry_wf(self@)
    }

    pub fn new() -> (r: ClientContainer)
        ensures
            r@ == Seq::<Client>::empty(),
            r.wf(),
    {
        let r = ClientContainer { clients: Vec::new() };
        proof {
            assert(r@ =~= Seq::<Client>::empty());
        }
        r
    }

    /// Register a client under both of its identifiers. Fails — leaving the
    /// registry unchanged — exactly when one of the identifiers is already
    /// registered or the two coincide; otherwise appends the new entry and
    /// returns it.
    pub fn add_client(&mut self, app_id: u32, frame_id: u32) -> (r: Option<Client>)
        requires
            old(self).wf(),
        ensures
            final(self).wf(),
            ({
                if has_id(old(self)@, app_id) || has_id(old(self)@, frame_id) || app_id == frame_id {
                    r == Option::<Client>::None && *final(self) == *old(self)
                } else {
                    r == Option::Some(Client { app_id, frame_id })
                        && final(self)@ == old(self)@.push(Client { app_id, frame_id })
                }
            }),
    {
        if app_id == frame_id {
            return None;
        }
        let n = self.clients.len();
        let mut i: usize = 0;
        while i < n
            invariant
                self@ == old(self)@,
                self.wf(),
                app_id != frame_id,
                n == self.clients.len(),
                0 <= i <= n,
                forall|k: int| 0 <= k < i ==> {
                    &&& (#[trigger] self.clients@[k]).app_id != app_id
                    &&& self.clients@[k].frame_id != app_id
                    &&& self.clients@[k].app_id != frame_id
                    &&& self.clients@[k].frame_id != frame_id
                },
            decreases n - i,
        {
            let c = self.clients[i];
            if c.app_id == app_id || c.frame_id == app_id || c.app_id == frame_id
                || c.frame_id == frame_id {
                proof {
                    assert(self@.contains(self@[i as int]));
                    assert(has_id(self@, app_id) || has_id(self@, frame_id));
                }
                return None;
            }
            i += 1;
        }
        let client = Client { app_id, frame_id };
        proof {
            assert(!has_id(self@, app_id) && !has_id(self@, frame_id)) by {
                if has_app(self@, app_id) {
                    let c = app_client_of(self@, app_id);
                    let k = self@.index_of(c);
                    assert(self@[k].app_id == app_id);
                }
                if has_frame(self@, app_id) {
                    let c = frame_client_of(self@, app_id);
                    let k = self@.index_of(c);
                    assert(self@[k].frame_id == app_id);
                }
                if has_app(self@, frame_id) {
                    let c = app_client_of(self@, frame_id);
                    let k = self@.index_of(c);
                    assert(self@[k].app_id == frame_id);
                }
                if has_frame(self@, frame_id) {
                    let c = frame_client_of(self@, frame_id);
                    let k = self@.index_of(c);
                    assert(self@[k].frame_id == frame_id);
                }
            }
        }
        self.clients.push(client);
        proof {
            let s = self@;
            let olds = old(self)@;
            assert forall|a: int, b: int| 0 <= a < s.len() && 0 <= b < s.len() implies {
                &&& (a != b ==> (#[trigger] s[a]).app_id != (#[trigger] s[b]).app_id)
                &&& (a != b ==> s[a].frame_id != s[b].frame_id)
                &&& s[a].app_id != s[b].frame_id
            } by {
                if a < olds.len() && b < olds.len() {
                } else if a == olds.len() && b < olds.len() {
                    assert(s[b] == olds[b]);
                } else if b == olds.len() && a < olds.len() {
                    assert(s[a] == olds[a]);
                }
            }
        }
        Some(client)
    }

    /// Look a client up by the identifier of its application window.
    pub fn query_client_from_app(&self, win_id: u32) -> (r: Option<Client>)
        requires
            self.wf(),
        ensures
            r == app_lookup(self@, win_id),
    {
        let n = self.clients.len();
        let mut i: usize = 0;
        while i < n
            invariant
                self.wf(),
                n == self.clients.len(),
                0 <= i <= n,
                forall|k: int| 0 <= k < i ==> (#[trigger] self.clients@[k]).app_id != win_id,
            decreases n - i,
        {
            let c = self.clients[i];
            if c.app_id == win_id {
                proof {
                    assert(self@.contains(self@[i as int]));
                    let w = app_client_of(self@, win_id);
                    assert(self@.contains(w) && w.app_id == win_id);
                    let k = self@.index_of(w);
                    lemma_unique_app(self@, i as int, k);
                }
                return Some(c);
            }
            i += 1;
        }
        proof {
            if has_app(self@, win_id) {
                let w = app_client_of(self@, win_id);
                let k = self@.index_of(w);
                assert(self@[k].app_id == win_id);
            }
        }
        None
    }

    /// Look a client up by the identifier of its frame window.
    pub fn query_client_from_frame(&self, win_id: u32) -> (r: Option<Client>)
        requires
            self.wf(),
        ensures
            r == frame_lookup(self@, win_id),
    {
        let n = self.clients.len();
        let mut i: usize = 0;
        while i < n
            invariant
                self.wf(),
                n == self.clients.len(),
                0 <= i <= n,
                forall|k: int| 0 <= k < i ==> (#[trigger] self.clients@[k]).frame_id != win_id,
            decreases n - i,
        {
            let c = self.clients[i];
            if c.frame_id == win_id {
                proof {
                    assert(self@.contains(self@[i as int]));
                    let w = frame_client_of(self@, win_id);
                    assert(self@.contains(w) && w.frame_id == win_id);
                    let k = self@.index_of(w);
                    lemma_unique_frame(self@, i as int, k);
                }
                return Some(c);
            }
            i += 1;
        }
        proof {
            if has_frame(self@, win_id) {
                let w = frame_client_of(self@, win_id);
                let k = self@.index_of(w);
                assert(self@[k].frame_id == win_id);
            }
        }
        None
    }

    /// Look an identifier up in either role: the application role is checked
    /// first (identifiers are drawn from one namespace, and under the
    /// registry invariant only one role can match anyway).
    pub fn query_client_from_id(&self, win_id: u32) -> (r: Option<(Client, Role)>)
        requires
            self.wf(),
        ensures
            ({
                if has_app(self@, win_id) {
                    r == Option::Some((app_client_of(self@, win_id), Role::App))
                } else if has_frame(self@, win_id) {
                    r == Option::Some((frame_client_of(self@, win_id), Role::Frame))
                } else {
                    r == Option::<(Client, Role)>::None
                }
            }),
    {
        if let Some(client) = self.query_client_from_app(win_id) {
            return Some((client, Role::App));
        }
        if let Some(client) = self.query_client_from_frame(win_id) {
            return Some((client, Role::Frame));
        }
        None
    }

    /// Delete a client's entry. Removing a client that is not registered is a
    /// no-op, so removal is idempotent.
    pub fn remove_client(&mut self, client: Client)
        requires
            old(self).wf(),
        ensures
            final(self).wf(),
            old(self)@.contains(client) ==> final(self)@ == old(self)@.remove(old(self)@.index_of(client)),
            !old(self)@.contains(client) ==> final(self)@ == old(self)@,
            !final(self)@.contains(client),
            forall|c: Client| c != client ==> (final(self)@.contains(c) <==> old(self)@.contains(c)),
    {
        let n = self.clients.len();
        let mut i: usize = 0;
        while i < n
            invariant
                self@ == old(self)@,
                self.wf(),
                n == self.clients.len(),
                0 <= i <= n,
                forall|k: int| 0 <= k < i ==> self.clients@[k] != client,
            decreases n - i,
        {
            let c = self.clients[i];
            if c == client {
                proof {
                    let s = self@;
                    let k = s.index_of(client);
                    assert(s.contains(s[i as int]));
                    assert(s.contains(client) && s[k] == client);
                    lemma_unique_app(s, i as int, k);
                }
                self.clients.remove(i);
                proof {
                    let olds = old(self)@;
                    let s = self@;
                    lemma_remove_wf(olds, i as int);
                    assert forall|c: Client| c != client implies (s.contains(c) <==> olds.contains(
                        c,
                    )) by {
                        lemma_remove_contains(olds, i as int, c);
                    }
                    assert(!s.contains(client)) by {
                        if s.contains(client) {
                            let k2 = s.index_of(client);
                            let orig = if k2 < i as int {
                                k2
                            } else {
                                k2 + 1
                            };
                            assert(olds[orig] == client);
                            lemma_unique_app(olds, i as int, orig);
                        }
                    }
                }
                return;
            }
            i += 1;
        }
        proof {
            if old(self)@.contains(client) {
                let k = old(self)@.index_of(client);
                assert(old(self)@[k] == client);
            }
        }
    }
}

/// Under the registry invariant two indices holding the same application
/// identifier coincide.
proof fn lemma_unique_app(s: Seq<Client>, i: int, j: int)
    requires
        registry_wf(s),
        0 <= i < s.len(),
        0 <= j < s.len(),
        s[i].app_id == s[j].app_id,
    ensures
        i == j,
{
}

/// Under the registry invariant two indices holding the same frame
/// identifier coincide.
proof fn lemma_unique_frame(s: Seq<Client>, i: int, j: int)
    requires
        registry_wf(s),
        0 <= i < s.len(),
        0 <= j < s.len(),
        s[i].frame_id == s[j].frame_id,
    ensures
        i == j,
{
}

/// Removing an entry keeps the registry invariant.
proof fn lemma_remove_wf(s: Seq<Client>, i: int)
    requires
        registry_wf(s),
        0 <= i < s.len(),
    ensures
        registry_wf(s.remove(i)),
{
    let r = s.remove(i);
    assert forall|a: int, b: int| 0 <= a < r.len() && 0 <= b < r.len() implies {
        &&& (a != b ==> (#[trigger] r[a]).app_id != (#[trigger] r[b]).app_id)
        &&& (a != b ==> r[a].frame_id != r[b].frame_id)
        &&& r[a].app_id != r[b].frame_id
    } by {
        let oa = if a < i { a } else { a + 1 };
        let ob = if b < i { b } else { b + 1 };
        assert(r[a] == s[oa]);
        assert(r[b] == s[ob]);
    }
}

/// Membership after removal: every element other than the removed one stays.
proof fn lemma_remove_contains(s: Seq<Client>, i: int, c: Client)
    requires
        0 <= i < s.len(),
        c != s[i],
    ensures
        s.remove(i).contains(c) <==> s.contains(c),
{
    let r = s.remove(i);
    if s.contains(c) {
        let k = s.index_of(c);
        if k < i {
            assert(r[k] == c);
        } else {
            assert(r[k - 1] == c);
        }
    }
    if r.contains(c) {
        let k = r.index_of(c);
        let orig = if k < i { k } else { k + 1 };
        assert(s[orig] == c);
    }
}

} // verus!
