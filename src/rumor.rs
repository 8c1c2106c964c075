//! Rumors and the store that holds them.
//!
//! A rumor is a gossiped fact about a service group (its key) from one
//! member (its id), ordered by an incarnation. Each rumor type decides by its
//! `merge` what happens when a rumor arrives for a slot that already holds
//! one. The store keeps at most one rumor per `(key, id)` slot and counts the
//! arrivals that changed what is worth sharing.
use vstd::prelude::*;
use vstd::string::StringExecFns;
use crate::text::text_eq;

verus! {

/// The kinds of rumors that peers exchange.
#[derive(Clone, Copy, Debug, PartialEq, Eq, Structural)]
pub enum RumorType {
    Member,
    Service,
    Election,
    ServiceConfig,
    ServiceFile,
    Fake,
    Fake2,
    ElectionUpdate,
    Departure,
}

/// Names one rumor: its kind, the member it comes from and its key.
pub struct RumorKey {
    pub kind: RumorType,
    pub id: String,
    pub key: String,
}

impl RumorKey {
    pub fn new(kind: RumorType, id: &str, key: &str) -> (r: RumorKey)
        ensures
            r.kind == kind,
            r.id@ == id@,
            r.key@ == key@,
    {
        RumorKey { kind, id: id.to_owned(), key: key.to_owned() }
    }

    /// The key as one text: `{id}-{key}`, or the id alone when the key is empty.
    pub fn key(&self) -> (r: String)
        ensures
            r@ == (if self.key@.len() > 0 {
                self.id@ + "-"@ + self.key@
            } else {
                self.id@
            }),
    {
        proof {
            reveal_strlit("");
        }
        if !text_eq(self.key.as_str(), "") {
            assert(self.key@.len() > 0) by {
                if self.key@.len() == 0 {
                    assert(self.key@ =~= ""@);
                }
            }
            let s = self.id.clone().concat("-");
            s.concat(self.key.as_str())
        } else {
            self.id.clone()
        }
    }
}

/// What a merge of an incoming rumor into a stored one decides.
#[derive(Debug)]
pub enum MergeResult<T> {
    /// The stored rumor stays and should be shared again.
    ShareExisting,
    /// The incoming rumor replaces the stored one and should be shared.
    ShareNew(T),
    /// Nothing changes and nothing is shared.
    StopSharing,
}

/// What every rumor type offers to the store.
pub trait Rumor: Sized {
    /// The service group (or other key) the rumor is about.
    spec fn key_view(&self) -> Seq<char>;

    /// The member the rumor comes from.
    spec fn id_view(&self) -> Seq<char>;

    spec fn incarnation_view(&self) -> u64;

    /// Whether two rumors agree on everything but their incarnation.
    spec fn same_payload(&self, other: &Self) -> bool;

    /// What merging `other` into `self` decides.
    spec fn merge_spec(&self, other: &Self) -> MergeResult<Self>;

    fn kind(&self) -> RumorType;

    fn key(&self) -> (r: &str)
        ensures
            r@ == self.key_view(),
    ;

    fn id(&self) -> (r: &str)
        ensures
            r@ == self.id_view(),
    ;

    fn incarnation(&self) -> (r: u64)
        ensures
            r == self.incarnation_view(),
    ;

    fn merge(&self, other: Self) -> (r: MergeResult<Self>)
        ensures
            r == self.merge_spec(&other),
    ;

    fn copy_rumor(&self) -> (r: Self)
        ensures
            r == *self,
    ;

    /// The rumor's bytes on the wire.
    spec fn encoding(&self) -> Seq<u8>;

    fn write_to_bytes(&self) -> (r: Vec<u8>)
        ensures
            r@ == self.encoding(),
    ;

    /// An incoming rumor that is no newer than the stored one and says the
    /// same thing is not shared.
    proof fn lemma_stale_stops(&self, other: &Self)
        requires
            other.incarnation_view() <= self.incarnation_view(),
            self.same_payload(other),
        ensures
            self.merge_spec(other) == MergeResult::<Self>::StopSharing,
    ;

    proof fn lemma_same_payload_refl(&self)
        ensures
            self.same_payload(self),
    ;

    /// A rumor that replaces the stored one is the incoming rumor itself.
    proof fn lemma_share_new_is_incoming(&self, other: &Self)
        ensures
            self.merge_spec(other) matches MergeResult::ShareNew(n) ==> n == *other,
    ;
}

/// The slot a rumor is stored under: its key and its member id.
pub open spec fn slot<T: Rumor>(r: T) -> (Seq<char>, Seq<char>) {
    (r.key_view(), r.id_view())
}

/// Whether some entry of `s` sits in slot `k`.
pub open spec fn has_slot<T: Rumor>(s: Seq<T>, k: (Seq<char>, Seq<char>)) -> bool {
    exists|i: int| 0 <= i < s.len() && #[trigger] slot(s[i]) == k
}

/// The rumors of `s` by slot.
pub open spec fn rumor_map<T: Rumor>(s: Seq<T>) -> Map<(Seq<char>, Seq<char>), T> {
    Map::new(
        |k: (Seq<char>, Seq<char>)| has_slot(s, k),
        |k: (Seq<char>, Seq<char>)| s[choose|i: int| 0 <= i < s.len() && #[trigger] slot(s[i]) == k],
    )
}

/// Whether a rumor is about `key`.
pub open spec fn about_key<T: Rumor>(key: Seq<char>) -> spec_fn(T) -> bool {
    |e: T| e.key_view() == key
}

/// In a sequence without shared slots, each entry is what the map holds
/// for its slot.
pub proof fn lemma_rumor_map_lookup<T: Rumor>(s: Seq<T>, i: int)
    requires
        0 <= i < s.len(),
        slots_unique(s),
    ensures
        rumor_map(s).contains_key(slot(s[i])),
        rumor_map(s)[slot(s[i])] == s[i],
{
    let k = slot(s[i]);
    assert(has_slot(s, k));
    let j = choose|j: int| 0 <= j < s.len() && #[trigger] slot(s[j]) == k;
    assert(j == i);
}

/// Whether no two entries of `s` share a slot.
pub open spec fn slots_unique<T: Rumor>(s: Seq<T>) -> bool {
    forall|i: int, j: int|
        0 <= i < s.len() && 0 <= j < s.len() && i != j ==> slot(#[trigger] s[i]) != slot(
            #[trigger] s[j],
        )
}

/// Why a rumor could not be handed out.
#[derive(Debug, PartialEq, Eq)]
pub enum RumorError {
    /// No rumor sits in the slot: the member id, then the key.
    NonExistentRumor(String, String),
}

/// The counter after one more change: it wraps around at its maximum.
pub open spec fn next_count(c: u64) -> u64 {
    if c == u64::MAX {
        0
    } else {
        (c + 1) as u64
    }
}

/// A table of rumors of one type, at most one per slot, with the count of
/// the arrivals that were worth sharing.
pub struct RumorStore<T: Rumor> {
    name: String,
    entries: Vec<T>,
    update_counter: u64,
}

impl<T: Rumor> RumorStore<T> {
    /// The store's invariant: no two entries share a slot.
    pub open spec fn wf(&self) -> bool {
        slots_unique(self.entries())
    }

    /// The stored rumors, in the order in which they were first stored.
    pub closed spec fn entries(&self) -> Seq<T> {
        self.entries@
    }

    /// The stored rumors by slot.
    pub open spec fn rumors(&self) -> Map<(Seq<char>, Seq<char>), T> {
        rumor_map(self.entries())
    }

    pub closed spec fn counter(&self) -> u64 {
        self.update_counter
    }

    pub closed spec fn name_view(&self) -> Seq<char> {
        self.name@
    }

    /// What inserting `r` decides: a merge into the rumor in its slot, or a
    /// new entry when the slot is empty.
    pub open spec fn insert_outcome(&self, r: T) -> MergeResult<T> {
        if self.rumors().contains_key(slot(r)) {
            self.rumors()[slot(r)].merge_spec(&r)
        } else {
            MergeResult::ShareNew(r)
        }
    }

    /// The rumors after inserting `r`.
    pub open spec fn rumors_after_insert(&self, r: T) -> Map<(Seq<char>, Seq<char>), T> {
        match self.insert_outcome(r) {
            MergeResult::ShareNew(n) => self.rumors().insert(slot(r), n),
            _ => self.rumors(),
        }
    }

    /// The update counter after inserting `r`.
    pub open spec fn counter_after_insert(&self, r: T) -> u64 {
        match self.insert_outcome(r) {
            MergeResult::StopSharing => self.counter(),
            _ => next_count(self.counter()),
        }
    }

    /// An empty store whose counter starts at `counter`.
    pub fn new(name: String, counter: u64) -> (r: RumorStore<T>)
        ensures
            r.wf(),
            r.rumors() == Map::<(Seq<char>, Seq<char>), T>::empty(),
            r.entries() == Seq::<T>::empty(),
            r.counter() == counter,
            r.name_view() == name@,
    {
        let r = RumorStore { name, entries: Vec::new(), update_counter: counter };
        assert(r.rumors() =~= Map::<(Seq<char>, Seq<char>), T>::empty());
        r
    }

    pub fn name(&self) -> (r: &str)
        ensures
            r@ == self.name_view(),
    {
        self.name.as_str()
    }

    /// Removes every rumor and resets the counter, returning its prior value.
    pub fn clear(&mut self) -> (r: u64)
        ensures
            final(self).wf(),
            r == old(self).counter(),
            final(self).counter() == 0,
            final(self).rumors() == Map::<(Seq<char>, Seq<char>), T>::empty(),
            final(self).entries() == Seq::<T>::empty(),
            final(self).name_view() == old(self).name_view(),
    {
        self.entries = Vec::new();
        let prior = self.update_counter;
        self.update_counter = 0;
        assert(self.rumors() =~= Map::<(Seq<char>, Seq<char>), T>::empty());
        prior
    }

    pub fn get_update_counter(&self) -> (r: u64)
        ensures
            r == self.counter(),
    {
        self.update_counter
    }

    /// Counts one more change; past the maximum the counter wraps to zero.
    pub fn increment_update_counter(&mut self)
        requires
            old(self).wf(),
        ensures
            final(self).wf(),
            final(self).counter() == next_count(old(self).counter()),
            final(self).entries() == old(self).entries(),
            final(self).name_view() == old(self).name_view(),
    {
        self.update_counter = self.update_counter.wrapping_add(1);
    }

    /// The position of the rumor in slot `(key, id)`, if any.
    fn find(&self, key: &str, id: &str) -> (r: Option<usize>)
        ensures
            match r {
                Some(i) => i < self.entries@.len() && slot(self.entries@[i as int]) == (
                key@,
                id@,
                ),
                None => !has_slot(self.entries@, (key@, id@)),
            },
    {
        let mut i: usize = 0;
        while i < self.entries.len()
            invariant
                i <= self.entries@.len(),
                forall|j: int| 0 <= j < i ==> slot(#[trigger] self.entries@[j]) != (key@, id@),
            decreases self.entries@.len() - i,
        {
            let e = &self.entries[i];
            if text_eq(e.key(), key) && text_eq(e.id(), id) {
                return Some(i);
            }
            i += 1;
        }
        None
    }

    proof fn lemma_lookup(&self, i: int)
        requires
            0 <= i < self.entries@.len(),
            slots_unique(self.entries@),
        ensures
            self.rumors().contains_key(slot(self.entries@[i])),
            self.rumors()[slot(self.entries@[i])] == self.entries@[i],
    {
        lemma_rumor_map_lookup(self.entries@, i);
    }

    /// Applies the merge of `rumor` against the rumor in its slot. Returns
    /// whether the counter moved.
    pub fn insert(&mut self, rumor: T) -> (r: bool)
        requires
            old(self).wf(),
        ensures
            final(self).wf(),
            r == !(old(self).insert_outcome(rumor) matches MergeResult::StopSharing),
            final(self).rumors() == old(self).rumors_after_insert(rumor),
            final(self).counter() == old(self).counter_after_insert(rumor),
            final(self).name_view() == old(self).name_view(),
    {
        let ghost k = slot(rumor);
        let found = self.find(rumor.key(), rumor.id());
        let outcome = match found {
            Some(i) => {
                proof {
                    self.lemma_lookup(i as int);
                }
                self.entries[i].merge(rumor)
            },
            None => {
                proof {
                    assert(!self.rumors().contains_key(k));
                }
                MergeResult::ShareNew(rumor)
            },
        };
        let ghost old_map = self.rumors();
        let ghost old_entries = self.entries@;
        match outcome {
            MergeResult::StopSharing => false,
            MergeResult::ShareExisting => {
                self.update_counter = self.update_counter.wrapping_add(1);
                true
            },
            MergeResult::ShareNew(n) => {
                proof {
                    if let Some(i) = found {
                        self.lemma_lookup(i as int);
                        self.entries@[i as int].lemma_share_new_is_incoming(&rumor);
                    }
                }
                assert(slot(n) == k);
                match found {
                    Some(i) => {
                        self.entries.set(i, n);
                        proof {
                            let s = self.entries@;
                            assert(s == old_entries.update(i as int, n));
                            assert forall|x: int, y: int|
                                0 <= x < s.len() && 0 <= y < s.len() && x != y implies slot(
                                #[trigger] s[x],
                            ) != slot(#[trigger] s[y]) by {
                                if x != i && y != i {
                                    assert(s[x] == old_entries[x]);
                                    assert(s[y] == old_entries[y]);
                                }
                            }
                            assert forall|q: (Seq<char>, Seq<char>)|
                                #[trigger] rumor_map(s).contains_key(q) implies old_map.insert(
                                k,
                                n,
                            ).contains_key(q) && rumor_map(s)[q] == old_map.insert(k, n)[q] by {
                                let j = choose|j: int| 0 <= j < s.len() && #[trigger] slot(s[j]) == q;
                                if j == i {
                                } else {
                                    assert(slot(old_entries[j]) == q);
                                    assert(has_slot(old_entries, q));
                                    let j2 = choose|j2: int|
                                        0 <= j2 < old_entries.len() && #[trigger] slot(
                                            old_entries[j2],
                                        ) == q;
                                    assert(j2 == j);
                                }
                            }
                            assert forall|q: (Seq<char>, Seq<char>)|
                                #[trigger] old_map.insert(k, n).contains_key(q)
                                    implies rumor_map(s).contains_key(q) by {
                                if q == k {
                                    assert(slot(s[i as int]) == q);
                                } else {
                                    let j = choose|j: int|
                                        0 <= j < old_entries.len() && #[trigger] slot(
                                            old_entries[j],
                                        ) == q;
                                    assert(slot(s[j]) == q);
                                }
                            }
                            assert(rumor_map(s) =~= old_map.insert(k, n));
                        }
                    },
                    None => {
                        self.entries.push(n);
                        proof {
                            let s = self.entries@;
                            assert(s == old_entries.push(n));
                            let last = old_entries.len() as int;
                            assert forall|x: int, y: int|
                                0 <= x < s.len() && 0 <= y < s.len() && x != y implies slot(
                                #[trigger] s[x],
                            ) != slot(#[trigger] s[y]) by {
                                if x != last && y != last {
                                    assert(s[x] == old_entries[x]);
                                    assert(s[y] == old_entries[y]);
                                } else if x == last {
                                    assert(s[y] == old_entries[y]);
                                } else {
                                    assert(s[x] == old_entries[x]);
                                }
                            }
                            assert forall|q: (Seq<char>, Seq<char>)|
                                #[trigger] rumor_map(s).contains_key(q) implies old_map.insert(
                                k,
                                n,
                            ).contains_key(q) && rumor_map(s)[q] == old_map.insert(k, n)[q] by {
                                let j = choose|j: int| 0 <= j < s.len() && #[trigger] slot(s[j]) == q;
                                if j == last {
                                } else {
                                    assert(slot(old_entries[j]) == q);
                                    assert(has_slot(old_entries, q));
                                    let j2 = choose|j2: int|
                                        0 <= j2 < old_entries.len() && #[trigger] slot(
                                            old_entries[j2],
                                        ) == q;
                                    assert(j2 == j);
                                }
                            }
                            assert forall|q: (Seq<char>, Seq<char>)|
                                #[trigger] old_map.insert(k, n).contains_key(q)
                                    implies rumor_map(s).contains_key(q) by {
                                if q == k {
                                    assert(slot(s[last]) == q);
                                } else {
                                    let j = choose|j: int|
                                        0 <= j < old_entries.len() && #[trigger] slot(
                                            old_entries[j],
                                        ) == q;
                                    assert(slot(s[j]) == q);
                                }
                            }
                            assert(rumor_map(s) =~= old_map.insert(k, n));
                        }
                    },
                }
                self.update_counter = self.update_counter.wrapping_add(1);
                true
            },
        }
    }
    /// Deletes the rumor in slot `(key, id)`, if there is one.
    pub fn remove(&mut self, key: &str, id: &str)
        requires
            old(self).wf(),
        ensures
            final(self).wf(),
            final(self).rumors() == old(self).rumors().remove((key@, id@)),
            final(self).counter() == old(self).counter(),
            final(self).name_view() == old(self).name_view(),
    {
        let ghost k = (key@, id@);
        let ghost old_map = self.rumors();
        let ghost old_entries = self.entries@;
        match self.find(key, id) {
            Some(i) => {
                self.entries.remove(i);
                proof {
                    let s = self.entries@;
                    assert(s == old_entries.remove(i as int));
                    assert forall|x: int, y: int|
                        0 <= x < s.len() && 0 <= y < s.len() && x != y implies slot(
                        #[trigger] s[x],
                    ) != slot(#[trigger] s[y]) by {
                        let x2 = if x < i { x } else { x + 1 };
                        let y2 = if y < i { y } else { y + 1 };
                        assert(s[x] == old_entries[x2]);
                        assert(s[y] == old_entries[y2]);
                    }
                    assert forall|q: (Seq<char>, Seq<char>)|
                        #[trigger] rumor_map(s).contains_key(q) implies old_map.remove(
                        k,
                    ).contains_key(q) && rumor_map(s)[q] == old_map.remove(k)[q] by {
                        let j = choose|j: int| 0 <= j < s.len() && #[trigger] slot(s[j]) == q;
                        let j2 = if j < i { j } else { j + 1 };
                        assert(s[j] == old_entries[j2]);
                        assert(slot(old_entries[j2]) == q);
                        assert(has_slot(old_entries, q));
                        let j3 = choose|j3: int|
                            0 <= j3 < old_entries.len() && #[trigger] slot(old_entries[j3]) == q;
                        assert(j3 == j2);
                        assert(q != k);
                    }
                    assert forall|q: (Seq<char>, Seq<char>)|
                        #[trigger] old_map.remove(k).contains_key(q) implies rumor_map(
                        s,
                    ).contains_key(q) by {
                        let j = choose|j: int|
                            0 <= j < old_entries.len() && #[trigger] slot(old_entries[j]) == q;
                        assert(j != i);
                        let j2 = if j < i { j } else { j - 1 };
                        assert(s[j2] == old_entries[j]);
                        assert(slot(s[j2]) == q);
                    }
                    assert(rumor_map(s) =~= old_map.remove(k));
                }
            },
            None => {
                assert(old_map.remove(k) =~= old_map);
            },
        }
    }

    /// Whether a rumor sits in slot `(key, id)`.
    pub fn contains_rumor(&self, key: &str, id: &str) -> (r: bool)
        requires
            self.wf(),
        ensures
            r == self.rumors().contains_key((key@, id@)),
    {
        match self.find(key, id) {
            Some(i) => {
                proof {
                    self.lemma_lookup(i as int);
                }
                true
            },
            None => false,
        }
    }

    /// A copy of the rumor in slot `(key, id)`, if there is one.
    pub fn with_rumor(&self, key: &str, id: &str) -> (r: Option<T>)
        requires
            self.wf(),
        ensures
            r == (if self.rumors().contains_key((key@, id@)) {
                Some(self.rumors()[(key@, id@)])
            } else {
                None::<T>
            }),
    {
        match self.find(key, id) {
            Some(i) => {
                proof {
                    self.lemma_lookup(i as int);
                }
                Some(self.entries[i].copy_rumor())
            },
            None => None,
        }
    }

    /// The bytes of the rumor in slot `(key, id)`, for sending to a peer.
    pub fn encode(&self, key: &str, id: &str) -> (r: Result<Vec<u8>, RumorError>)
        requires
            self.wf(),
        ensures
            self.rumors().contains_key((key@, id@)) ==> (r matches Ok(b) && b@ == self.rumors()[(
                key@,
                id@,
            )].encoding()),
            !self.rumors().contains_key((key@, id@)) ==> (r matches Err(
                RumorError::NonExistentRumor(m, k),
            ) && m@ == id@ && k@ == key@),
    {
        match self.find(key, id) {
            Some(i) => {
                proof {
                    self.lemma_lookup(i as int);
                }
                Ok(self.entries[i].write_to_bytes())
            },
            None => Err(RumorError::NonExistentRumor(id.to_owned(), key.to_owned())),
        }
    }

    /// Copies of the rumors about `key`, in store order.
    pub fn with_rumors(&self, key: &str) -> (r: Vec<T>)
        ensures
            r@ == self.entries().filter(about_key(key@)),
    {
        let mut r: Vec<T> = Vec::new();
        let mut i: usize = 0;
        while i < self.entries.len()
            invariant
                i <= self.entries@.len(),
                r@ == self.entries@.take(i as int).filter(about_key::<T>(key@)),
            decreases self.entries@.len() - i,
        {
            let e = &self.entries[i];
            proof {
                assert(self.entries@.take(i as int + 1) =~= self.entries@.take(i as int).push(
                    self.entries@[i as int],
                ));
                self.entries@.take(i as int).lemma_filter_push(self.entries@[i as int], about_key::<T>(key@));
            }
            if text_eq(e.key(), key) {
                r.push(e.copy_rumor());
            }
            i += 1;
        }
        assert(self.entries@.take(i as int) =~= self.entries@);
        r
    }

    /// Copies of all rumors, in store order.
    pub fn with_all_rumors(&self) -> (r: Vec<T>)
        ensures
            r@ == self.entries(),
    {
        let mut r: Vec<T> = Vec::new();
        let mut i: usize = 0;
        while i < self.entries.len()
            invariant
                i <= self.entries@.len(),
                r@ == self.entries@.take(i as int),
            decreases self.entries@.len() - i,
        {
            r.push(self.entries[i].copy_rumor());
            i += 1;
            assert(r@ =~= self.entries@.take(i as int));
        }
        assert(self.entries@.take(i as int) =~= self.entries@);
        r
    }
}

/// A rumor that is no newer than the one stored in its slot and says the
/// same thing changes nothing: neither the rumors nor the update counter.
pub proof fn lemma_stale_insert_changes_nothing<T: Rumor>(store: RumorStore<T>, r: T)
    requires
        store.rumors().contains_key(slot(r)),
        r.incarnation_view() <= store.rumors()[slot(r)].incarnation_view(),
        store.rumors()[slot(r)].same_payload(&r),
    ensures
        store.insert_outcome(r) == MergeResult::<T>::StopSharing,
        store.counter_after_insert(r) == store.counter(),
        store.rumors_after_insert(r) == store.rumors(),
{
    store.rumors()[slot(r)].lemma_stale_stops(&r);
}

/// Inserting the same rumor twice, where the first insert stores it, moves
/// the counter once: the second insert finds the rumor itself in its slot
/// and changes nothing.
pub proof fn lemma_insert_twice<T: Rumor>(store: RumorStore<T>, second: RumorStore<T>, r: T)
    requires
        store.insert_outcome(r) matches MergeResult::ShareNew(_),
        second.rumors() == store.rumors_after_insert(r),
        second.counter() == store.counter_after_insert(r),
    ensures
        second.counter() == next_count(store.counter()),
        second.insert_outcome(r) == MergeResult::<T>::StopSharing,
        second.counter_after_insert(r) == second.counter(),
        second.rumors_after_insert(r) == second.rumors(),
{
    if store.rumors().contains_key(slot(r)) {
        store.rumors()[slot(r)].lemma_share_new_is_incoming(&r);
    }
    assert(second.rumors()[slot(r)] == r);
    r.lemma_same_payload_refl();
    r.lemma_stale_stops(&r);
}

} // verus!
