//! The connection registry: a table from client identity to that client's
//! subscription list. It owns the client lifecycle (insert on connect, remove
//! on disconnect) and answers, for one event subject, exactly which clients a
//! broadcast must reach. The table is modelled as a map from identity to
//! subscription list; every operation states its effect on that map.
use vstd::map::*;
use vstd::prelude::*;

use crate::router::{spec_matches, subject_matches, views_of};

verus! {

/// One registered client: its identity and its subscription list, in the
/// order the subscriptions arrived (duplicates permitted, never deduplicated).
pub struct ClientEntry {
    pub id: u64,
    pub subs: Vec<Vec<u8>>,
}

/// The table of currently registered clients.
pub struct Registry {
    pub clients: Vec<ClientEntry>,
}

impl Registry {
    /// The identities in table order.
    pub open spec fn ids(self) -> Seq<u64> {
        self.clients@.map_values(|c: ClientEntry| c.id)
    }

    /// Well-formed: at most one live entry owns any given identity.
    pub open spec fn wf(self) -> bool {
        self.ids().no_duplicates()
    }

    /// The registry as a map from identity to subscription list.
    pub open spec fn view(self) -> Map<u64, Seq<Seq<u8>>> {
        Map::new(
            |id: u64| self.ids().contains(id),
            |id: u64| views_of(self.clients@[self.ids().index_of(id)].subs@),
        )
    }

    /// In a well-formed registry, entry `i` is the one the map speaks of for
    /// its identity.
    pub proof fn lemma_entry_at(self, i: int)
        requires
            self.wf(),
            0 <= i < self.clients@.len(),
        ensures
            self@.contains_key(self.clients@[i].id),
            self@[self.clients@[i].id] == views_of(self.clients@[i].subs@),
    {
        let id = self.clients@[i].id;
        assert(self.ids()[i] == id);
        assert(self.ids().contains(id));
        let j = self.ids().index_of(id);
        assert(0 <= j < self.ids().len() && self.ids()[j] == id);
        assert(i == j);
    }

    /// An identity the map knows is carried by some entry.
    pub proof fn lemma_key_has_entry(self, id: u64)
        requires
            self@.contains_key(id),
        ensures
            0 <= self.ids().index_of(id) < self.clients@.len(),
            self.clients@[self.ids().index_of(id)].id == id,
            self@[id] == views_of(self.clients@[self.ids().index_of(id)].subs@),
    {
        assert(self.ids().contains(id));
        let j = self.ids().index_of(id);
        assert(0 <= j < self.ids().len() && self.ids()[j] == id);
    }

    /// An empty registry: no client is registered.
    pub fn new() -> (r: Registry)
        ensures
            r.wf(),
            r@ == Map::<u64, Seq<Seq<u8>>>::empty(),
    {
        let r = Registry { clients: Vec::new() };
        proof {
            assert(r@ =~= Map::<u64, Seq<Seq<u8>>>::empty());
        }
        r
    }

    /// The index of the entry owning `id`, if any.
    fn find(&self, id: u64) -> (r: Option<usize>)
        ensures
            match r {
                Some(i) => i < self.clients@.len() && self.clients@[i as int].id == id,
                None => !self.ids().contains(id),
            },
    {
        let mut i: usize = 0;
        while i < self.clients.len()
            invariant
                0 <= i <= self.clients@.len(),
                forall|j: int| 0 <= j < i ==> self.ids()[j] != id,
            decreases self.clients@.len() - i,
        {
            if self.clients[i].id == id {
                return Some(i);
            }
            assert(self.ids()[i as int] == self.clients@[i as int].id);
            i += 1;
        }
        proof {
            assert forall|j: int| 0 <= j < self.ids().len() implies self.ids()[j] != id by {
                assert(self.ids()[j] == self.clients@[j].id);
            }
        }
        None
    }

    /// Whether `id` is currently registered.
    pub fn is_registered(&self, id: u64) -> (r: bool)
        ensures
            r == self@.contains_key(id),
    {
        let r = self.find(id);
        proof {
            assert(self@.contains_key(id) == self.ids().contains(id));
            if r is Some {
                let i = r->0 as int;
                assert(self.ids()[i] == self.clients@[i].id);
            }
        }
        r.is_some()
    }

    /// How many clients are registered.
    pub fn client_count(&self) -> (r: usize)
        ensures
            r == self.clients@.len(),
            self.wf() ==> r == self@.dom().len(),
    {
        proof {
            if self.wf() {
                self.lemma_count();
            }
        }
        self.clients.len()
    }

    /// In a well-formed registry the map has exactly one key per entry.
    proof fn lemma_count(self)
        requires
            self.wf(),
        ensures
            self@.dom().len() == self.clients@.len(),
    {
        assert(self@.dom() =~= self.ids().to_set());
        self.ids().unique_seq_to_set();
    }

    /// Registers `id` with an empty subscription list. If the identity is
    /// already present (randomly generated identities may collide), the old
    /// entry is replaced, so at most one live entry ever owns the identity.
    pub fn register(&mut self, id: u64)
        requires
            old(self).wf(),
        ensures
            final(self).wf(),
            final(self)@ == old(self)@.insert(id, Seq::<Seq<u8>>::empty()),
    {
        self.unregister(id);
        let ghost mid = *self;
        self.clients.push(ClientEntry { id, subs: Vec::new() });
        proof {
            assert(self.ids() =~= mid.ids().push(id));
            assert(!mid.ids().contains(id)) by {
                assert(mid@ == old(self)@.remove(id));
                assert(!mid@.contains_key(id));
            }
            assert forall|p: int, q: int|
                0 <= p < self.ids().len() && 0 <= q < self.ids().len() && p != q implies
                self.ids()[p] != self.ids()[q] by {
                let m = mid.ids().len() as int;
                if p < m && q < m {
                    assert(mid.ids()[p] == self.ids()[p]);
                    assert(mid.ids()[q] == self.ids()[q]);
                } else if p == m {
                    assert(mid.ids()[q] == self.ids()[q]);
                    assert(mid.ids().contains(self.ids()[q]) || self.ids()[p] != self.ids()[q]);
                } else {
                    assert(mid.ids()[p] == self.ids()[p]);
                    assert(mid.ids().contains(self.ids()[p]) || self.ids()[p] != self.ids()[q]);
                }
            }
            assert(self.wf());
            let n = mid.clients@.len() as int;
            assert(self.clients@[n].id == id);
            self.lemma_entry_at(n);
            assert(views_of(self.clients@[n].subs@) =~= Seq::<Seq<u8>>::empty());
            assert forall|k: u64| #[trigger] mid@.contains_key(k) implies self@.contains_key(k)
                && (k != id ==> self@[k] == mid@[k]) by {
                let j = mid.ids().index_of(k);
                mid.lemma_key_has_entry(k);
                assert(self.clients@[j].id == k);
                self.lemma_entry_at(j);
            }
            assert forall|k: u64| #[trigger] self@.contains_key(k) && k != id implies
                mid@.contains_key(k) by {
                let j = self.ids().index_of(k);
                self.lemma_key_has_entry(k);
                assert(j != n);
                assert(mid.ids()[j] == k);
            }
            let target = old(self)@.insert(id, Seq::<Seq<u8>>::empty());
            assert_maps_equal!(self@, target, k => {
                if k == id {
                    assert(self@.contains_key(id));
                    assert(self@[id] == Seq::<Seq<u8>>::empty());
                } else {
                    if self@.contains_key(k) {
                        assert(mid@.contains_key(k));
                    }
                    if mid@.contains_key(k) {
                        assert(self@.contains_key(k) && self@[k] == mid@[k]);
                    }
                }
            });
        }
    }

    /// Removes the entry owning `id` if one is present; a no-op when the
    /// identity is absent, so cleanup may run from several exit paths.
    pub fn unregister(&mut self, id: u64)
        requires
            old(self).wf(),
        ensures
            final(self).wf(),
            final(self)@ == old(self)@.remove(id),
    {
        let found = self.find(id);
        match found {
            None => {
                proof {
                    assert(!old(self)@.contains_key(id));
                    assert(self@ =~= old(self)@.remove(id));
                }
            },
            Some(i) => {
                let ghost pre = *self;
                let _ = self.clients.remove(i);
                proof {
                    let n = pre.clients@.len() as int;
                    assert(self.ids() =~= pre.ids().subrange(0, i as int) + pre.ids().subrange(
                        i as int + 1,
                        n,
                    ));
                    assert forall|p: int, q: int|
                        0 <= p < self.ids().len() && 0 <= q < self.ids().len() && p != q implies
                        self.ids()[p] != self.ids()[q] by {
                        let p0: int = if p < i { p } else { p + 1 };
                        let q0: int = if q < i { q } else { q + 1 };
                        assert(self.ids()[p] == pre.ids()[p0]);
                        assert(self.ids()[q] == pre.ids()[q0]);
                    }
                    assert(self.wf());
                    assert forall|k: u64| #[trigger] self@.contains_key(k) implies
                        pre@.contains_key(k) && k != id && self@[k] == pre@[k] by {
                        let j = self.ids().index_of(k);
                        self.lemma_key_has_entry(k);
                        let j0: int = if j < i { j } else { j + 1 };
                        assert(self.clients@[j] == pre.clients@[j0]);
                        pre.lemma_entry_at(j0);
                        assert(pre.clients@[i as int].id == id);
                        assert(j0 != i ==> pre.ids()[j0] != pre.ids()[i as int]);
                    }
                    assert forall|k: u64| #[trigger] pre@.contains_key(k) && k != id implies
                        self@.contains_key(k) by {
                        let j0 = pre.ids().index_of(k);
                        pre.lemma_key_has_entry(k);
                        assert(j0 != i);
                        let j: int = if j0 < i { j0 } else { j0 - 1 };
                        assert(self.clients@[j] == pre.clients@[j0]);
                        assert(self.ids()[j] == k);
                    }
                    assert(self@ =~= old(self)@.remove(id));
                }
            },
        }
    }

    /// Appends `subject` to the subscription list of `id`. Returns whether
    /// the identity was present; when it is absent (the client raced to
    /// disconnect) nothing changes and the call is not an error.
    pub fn add_subscription(&mut self, id: u64, subject: Vec<u8>) -> (added: bool)
        requires
            old(self).wf(),
        ensures
            final(self).wf(),
            added == old(self)@.contains_key(id),
            added ==> final(self)@ == old(self)@.insert(id, old(self)@[id].push(subject@)),
            !added ==> final(self)@ == old(self)@,
    {
        let found = self.find(id);
        match found {
            None => {
                proof {
                    assert(!old(self)@.contains_key(id));
                }
                false
            },
            Some(i) => {
                let ghost pre = *self;
                proof {
                    pre.lemma_entry_at(i as int);
                }
                let mut entry = self.clients.remove(i);
                entry.subs.push(subject);
                let ghost mid = *self;
                self.clients.push(entry);
                proof {
                    let n = pre.clients@.len() as int;
                    assert(mid.ids() =~= pre.ids().subrange(0, i as int) + pre.ids().subrange(
                        i as int + 1,
                        n,
                    ));
                    assert(self.ids() =~= mid.ids().push(id));
                    assert forall|p: int, q: int|
                        0 <= p < self.ids().len() && 0 <= q < self.ids().len() && p != q implies
                        self.ids()[p] != self.ids()[q] by {
                        let p0: int = if p < i { p } else if p < n - 1 { p + 1 } else { i as int };
                        let q0: int = if q < i { q } else if q < n - 1 { q + 1 } else { i as int };
                        assert(self.ids()[p] == pre.ids()[p0]);
                        assert(self.ids()[q] == pre.ids()[q0]);
                    }
                    assert(self.wf());
                    assert(self.clients@[n - 1].id == id);
                    self.lemma_entry_at(n - 1);
                    assert(self.clients@[n - 1].subs@ =~= pre.clients@[i as int].subs@.push(
                        subject,
                    ));
                    assert(views_of(self.clients@[n - 1].subs@) =~= views_of(
                        pre.clients@[i as int].subs@,
                    ).push(subject@));
                    assert(self@[id] == pre@[id].push(subject@));
                    assert forall|k: u64| #[trigger] pre@.contains_key(k) implies
                        self@.contains_key(k) && (k != id ==> self@[k] == pre@[k]) by {
                        let j0 = pre.ids().index_of(k);
                        pre.lemma_key_has_entry(k);
                        if k != id {
                            assert(j0 != i);
                            let j: int = if j0 < i { j0 } else { j0 - 1 };
                            assert(self.clients@[j] == pre.clients@[j0]);
                            assert(self.ids()[j] == k);
                            self.lemma_entry_at(j);
                        }
                    }
                    assert forall|k: u64| #[trigger] self@.contains_key(k) implies
                        pre@.contains_key(k) by {
                        let j = self.ids().index_of(k);
                        self.lemma_key_has_entry(k);
                        if j == n - 1 {
                            assert(pre.ids()[i as int] == k);
                        } else {
                            let j0: int = if j < i { j } else { j + 1 };
                            assert(pre.ids()[j0] == self.ids()[j]);
                        }
                    }
                    assert(self@ =~= old(self)@.insert(id, old(self)@[id].push(subject@)));
                }
                true
            },
        }
    }

    /// The identities a broadcast of an event with this subject must reach:
    /// exactly the registered clients whose subscription list holds the
    /// subject or the wildcard, each exactly once.
    pub fn recipients(&self, subject: &Vec<u8>) -> (out: Vec<u64>)
        requires
            self.wf(),
        ensures
            forall|id: u64|
                #[trigger] out@.contains(id) <==> self@.contains_key(id) && spec_matches(
                    self@[id],
                    subject@,
                ),
            out@.no_duplicates(),
    {
        let mut out: Vec<u64> = Vec::new();
        let mut i: usize = 0;
        while i < self.clients.len()
            invariant
                self.wf(),
                0 <= i <= self.clients@.len(),
                forall|id: u64|
                    #[trigger] out@.contains(id) <==> exists|j: int|
                        0 <= j < i && self.clients@[j].id == id && spec_matches(
                            views_of(self.clients@[j].subs@),
                            subject@,
                        ),
                out@.no_duplicates(),
            decreases self.clients@.len() - i,
        {
            let entry = &self.clients[i];
            if subject_matches(&entry.subs, subject) {
                proof {
                    if out@.contains(entry.id) {
                        let j = choose|j: int|
                            0 <= j < i && self.clients@[j].id == entry.id && spec_matches(
                                views_of(self.clients@[j].subs@),
                                subject@,
                            );
                        assert(self.ids()[j] == self.ids()[i as int]);
                        assert(false);
                    }
                }
                let ghost pre = out@;
                out.push(entry.id);
                proof {
                    assert forall|id: u64| #[trigger] out@.contains(id) implies exists|j: int|
                        0 <= j < i + 1 && self.clients@[j].id == id && spec_matches(
                            views_of(self.clients@[j].subs@),
                            subject@,
                        ) by {
                        if id == entry.id {
                            assert(0 <= i < i + 1 && self.clients@[i as int].id == id
                                && spec_matches(views_of(self.clients@[i as int].subs@), subject@));
                        } else {
                            assert(pre.contains(id)) by {
                                let k = choose|k: int| 0 <= k < out@.len() && out@[k] == id;
                                assert(k < pre.len() && pre[k] == id);
                            }
                        }
                    }
                    assert forall|id: u64|
                        (exists|j: int|
                            0 <= j < i + 1 && self.clients@[j].id == id && spec_matches(
                                views_of(self.clients@[j].subs@),
                                subject@,
                            )) implies #[trigger] out@.contains(id) by {
                        if id == entry.id {
                            assert(out@[out@.len() - 1] == id);
                        } else {
                            let j = choose|j: int|
                                0 <= j < i + 1 && self.clients@[j].id == id && spec_matches(
                                    views_of(self.clients@[j].subs@),
                                    subject@,
                                );
                            assert(j < i);
                            assert(pre.contains(id));
                            let k = choose|k: int| 0 <= k < pre.len() && pre[k] == id;
                            assert(out@[k] == id);
                        }
                    }
                }
            } else {
                proof {
                    assert forall|id: u64| #[trigger] out@.contains(id) implies exists|j: int|
                        0 <= j < i + 1 && self.clients@[j].id == id && spec_matches(
                            views_of(self.clients@[j].subs@),
                            subject@,
                        ) by {}
                    assert forall|id: u64|
                        (exists|j: int|
                            0 <= j < i + 1 && self.clients@[j].id == id && spec_matches(
                                views_of(self.clients@[j].subs@),
                                subject@,
                            )) implies #[trigger] out@.contains(id) by {
                        let j = choose|j: int|
                            0 <= j < i + 1 && self.clients@[j].id == id && spec_matches(
                                views_of(self.clients@[j].subs@),
                                subject@,
                            );
                        assert(j != i);
                    }
                }
            }
            i += 1;
        }
        proof {
            assert forall|id: u64| #[trigger] out@.contains(id) implies self@.contains_key(id)
                && spec_matches(self@[id], subject@) by {
                let j = choose|j: int|
                    0 <= j < self.clients@.len() && self.clients@[j].id == id && spec_matches(
                        views_of(self.clients@[j].subs@),
                        subject@,
                    );
                self.lemma_entry_at(j);
            }
            assert forall|id: u64|
                self@.contains_key(id) && spec_matches(self@[id], subject@) implies
                #[trigger] out@.contains(id) by {
                self.lemma_key_has_entry(id);
                let j = self.ids().index_of(id);
                assert(0 <= j < self.clients@.len() && self.clients@[j].id == id && spec_matches(
                    views_of(self.clients@[j].subs@),
                    subject@,
                ));
            }
        }
        out
    }
}

} // verus!
