//! The census: the read-model of the ring that the supervisor consults on
//! each tick.
//!
//! The ring keeps a snapshot of each rumor store, taken whenever the store's
//! update counter has moved since the last look, and answers per service
//! group who its members are, which of them are alive, and where its
//! election stands.
use vstd::prelude::*;
use crate::rumor::{RumorStore, Rumor, rumor_map, slot, slots_unique, lemma_rumor_map_lookup};
use crate::rumor_kinds::{Election, Health, Membership, ServiceConfig, ServiceFile, ServiceRumor};
use crate::status::ElectionStatus;
use crate::text::text_eq;

verus! {

/// One member of a service group, as the census sees it.
pub struct CensusMember {
    pub member_id: String,
    pub alive: bool,
}

/// The projection of the ring onto one service group.
pub struct CensusGroup {
    pub service_group: String,
    pub members: Vec<CensusMember>,
    pub election_status: ElectionStatus,
    /// Set exactly when the group's election has finished.
    pub leader_id: Option<String>,
    /// The incarnation of the group's gossiped configuration, if any.
    pub service_config_incarnation: Option<u64>,
}

/// Whether the membership rumors report member `id` alive.
pub open spec fn alive_in(members: Seq<Membership>, id: Seq<char>) -> bool {
    exists|j: int|
        0 <= j < members.len() && (#[trigger] members[j]).member_id@ == id && members[j].health
            == Health::Alive
}

/// The members of group `sg`, as pairs of member id and liveness, in the
/// order of the service rumors.
pub open spec fn members_of(
    services: Seq<ServiceRumor>,
    members: Seq<Membership>,
    sg: Seq<char>,
) -> Seq<(Seq<char>, bool)> {
    services.filter(|s: ServiceRumor| s.service_group@ == sg).map_values(
        |s: ServiceRumor| (s.member_id@, alive_in(members, s.member_id@)),
    )
}

/// The election rumor of group `sg`, if any.
pub open spec fn election_of(elections: Seq<Election>, sg: Seq<char>) -> Option<Election> {
    if rumor_map(elections).contains_key((sg, "election"@)) {
        Some(rumor_map(elections)[(sg, "election"@)])
    } else {
        None
    }
}

/// The gossiped configuration of group `sg`, if any.
pub open spec fn config_of(configs: Seq<ServiceConfig>, sg: Seq<char>) -> Option<ServiceConfig> {
    if rumor_map(configs).contains_key((sg, "service_config"@)) {
        Some(rumor_map(configs)[(sg, "service_config"@)])
    } else {
        None
    }
}

/// The incarnation at which file `name` was last taken, if ever.
pub open spec fn seen_incarnation(seen: Seq<(String, u64)>, name: Seq<char>) -> Option<u64> {
    if exists|i: int| 0 <= i < seen.len() && (#[trigger] seen[i]).0@ == name {
        Some(seen[choose|i: int| 0 <= i < seen.len() && (#[trigger] seen[i]).0@ == name].1)
    } else {
        None
    }
}

/// Whether a gossiped file of group `sg` is newer than the copy taken.
pub open spec fn file_changed(f: ServiceFile, sg: Seq<char>, seen: Seq<(String, u64)>) -> bool {
    &&& f.service_group@ == sg
    &&& match seen_incarnation(seen, f.filename@) {
        Some(inc) => f.incarnation > inc,
        None => true,
    }
}

impl CensusGroup {
    /// The members as pairs of member id and liveness.
    pub open spec fn member_view(&self) -> Seq<(Seq<char>, bool)> {
        self.members@.map_values(|m: CensusMember| (m.member_id@, m.alive))
    }

    /// Whether some member of the group is alive.
    pub fn has_live_member(&self) -> (r: bool)
        ensures
            r == exists|j: int| 0 <= j < self.member_view().len() && #[trigger] self.member_view()[j].1,
    {
        let mut i: usize = 0;
        while i < self.members.len()
            invariant
                i <= self.members@.len(),
                forall|j: int| 0 <= j < i ==> !(#[trigger] self.members@[j]).alive,
            decreases self.members@.len() - i,
        {
            if self.members[i].alive {
                assert(self.member_view()[i as int].1);
                return true;
            }
            i += 1;
        }
        assert forall|j: int| 0 <= j < self.member_view().len() implies !#[trigger] self.member_view()[j].1 by {
            assert(!self.members@[j].alive);
        }
        false
    }
}

/// The incarnation `seen` lists for file `name`.
fn seen_lookup(seen: &Vec<(String, u64)>, name: &str) -> (r: Option<u64>)
    requires
        forall|i: int, j: int|
            0 <= i < seen@.len() && 0 <= j < seen@.len() && i != j ==> (#[trigger] seen@[i]).0@
                != (#[trigger] seen@[j]).0@,
    ensures
        r == seen_incarnation(seen@, name@),
{
    let mut i: usize = 0;
    while i < seen.len()
        invariant
            i <= seen@.len(),
            forall|x: int, y: int|
                0 <= x < seen@.len() && 0 <= y < seen@.len() && x != y ==> (#[trigger] seen@[x]).0@
                    != (#[trigger] seen@[y]).0@,
            forall|j: int| 0 <= j < i ==> (#[trigger] seen@[j]).0@ != name@,
        decreases seen@.len() - i,
    {
        if text_eq(seen[i].0.as_str(), name) {
            proof {
                let c = choose|x: int| 0 <= x < seen@.len() && (#[trigger] seen@[x]).0@ == name@;
                if c != i as int {
                    assert(seen@[c].0@ != seen@[i as int].0@);
                }
            }
            return Some(seen[i].1);
        }
        i += 1;
    }
    None
}

/// The census of the ring: snapshots of the rumor stores, the counters they
/// were taken at, and whether the last update saw anything new.
pub struct CensusRing {
    services: Vec<ServiceRumor>,
    elections: Vec<Election>,
    updates: Vec<Election>,
    members: Vec<Membership>,
    configs: Vec<ServiceConfig>,
    files: Vec<ServiceFile>,
    last_service_counter: u64,
    last_election_counter: u64,
    last_update_counter: u64,
    last_member_counter: u64,
    last_config_counter: u64,
    last_file_counter: u64,
    changed: bool,
}

/// The six counters a census has last seen, in the order: services,
/// elections, election updates, members, configurations, files.
pub type Counters = (u64, u64, u64, u64, u64, u64);

impl CensusRing {
    /// The snapshots hold no two rumors in one slot.
    pub open spec fn wf(&self) -> bool {
        &&& slots_unique(self.services_view())
        &&& slots_unique(self.elections_view())
        &&& slots_unique(self.configs_view())
    }

    pub closed spec fn services_view(&self) -> Seq<ServiceRumor> {
        self.services@
    }

    pub closed spec fn elections_view(&self) -> Seq<Election> {
        self.elections@
    }

    pub closed spec fn updates_view(&self) -> Seq<Election> {
        self.updates@
    }

    pub closed spec fn members_view(&self) -> Seq<Membership> {
        self.members@
    }

    pub closed spec fn configs_view(&self) -> Seq<ServiceConfig> {
        self.configs@
    }

    pub closed spec fn files_view(&self) -> Seq<ServiceFile> {
        self.files@
    }

    pub closed spec fn counters(&self) -> Counters {
        (
            self.last_service_counter,
            self.last_election_counter,
            self.last_update_counter,
            self.last_member_counter,
            self.last_config_counter,
            self.last_file_counter,
        )
    }

    pub closed spec fn changed_view(&self) -> bool {
        self.changed
    }

    /// An empty census that has seen every counter at zero.
    pub fn new() -> (r: CensusRing)
        ensures
            r.wf(),
            r.counters() == (0u64, 0u64, 0u64, 0u64, 0u64, 0u64),
            !r.changed_view(),
            r.services_view().len() == 0,
            r.elections_view().len() == 0,
            r.updates_view().len() == 0,
            r.members_view().len() == 0,
            r.configs_view().len() == 0,
            r.files_view().len() == 0,
    {
        CensusRing {
            services: Vec::new(),
            elections: Vec::new(),
            updates: Vec::new(),
            members: Vec::new(),
            configs: Vec::new(),
            files: Vec::new(),
            last_service_counter: 0,
            last_election_counter: 0,
            last_update_counter: 0,
            last_member_counter: 0,
            last_config_counter: 0,
            last_file_counter: 0,
            changed: false,
        }
    }

    /// Whether the last update saw any store move.
    pub fn changed(&self) -> (r: bool)
        ensures
            r == self.changed_view(),
    {
        self.changed
    }

    /// Takes a new snapshot of each store whose counter has moved since the
    /// last look, and records whether any did.
    pub fn update_from_rumors(
        &mut self,
        service_store: &RumorStore<ServiceRumor>,
        election_store: &RumorStore<Election>,
        update_store: &RumorStore<Election>,
        member_list: &RumorStore<Membership>,
        service_config_store: &RumorStore<ServiceConfig>,
        service_file_store: &RumorStore<ServiceFile>,
    )
        requires
            old(self).wf(),
            service_store.wf(),
            election_store.wf(),
            service_config_store.wf(),
        ensures
            final(self).wf(),
            final(self).changed_view() == (old(self).counters() != (
                service_store.counter(),
                election_store.counter(),
                update_store.counter(),
                member_list.counter(),
                service_config_store.counter(),
                service_file_store.counter(),
            )),
            final(self).counters() == (
                service_store.counter(),
                election_store.counter(),
                update_store.counter(),
                member_list.counter(),
                service_config_store.counter(),
                service_file_store.counter(),
            ),
            final(self).services_view() == (if old(self).counters().0 != service_store.counter() {
                service_store.entries()
            } else {
                old(self).services_view()
            }),
            final(self).elections_view() == (if old(self).counters().1 != election_store.counter() {
                election_store.entries()
            } else {
                old(self).elections_view()
            }),
            final(self).updates_view() == (if old(self).counters().2 != update_store.counter() {
                update_store.entries()
            } else {
                old(self).updates_view()
            }),
            final(self).members_view() == (if old(self).counters().3 != member_list.counter() {
                member_list.entries()
            } else {
                old(self).members_view()
            }),
            final(self).configs_view() == (if old(self).counters().4
                != service_config_store.counter() {
                service_config_store.entries()
            } else {
                old(self).configs_view()
            }),
            final(self).files_view() == (if old(self).counters().5
                != service_file_store.counter() {
                service_file_store.entries()
            } else {
                old(self).files_view()
            }),
    {
        let mut changed = false;
        let c = service_store.get_update_counter();
        if c != self.last_service_counter {
            self.services = service_store.with_all_rumors();
            self.last_service_counter = c;
            changed = true;
        }
        let c = election_store.get_update_counter();
        if c != self.last_election_counter {
            self.elections = election_store.with_all_rumors();
            self.last_election_counter = c;
            changed = true;
        }
        let c = update_store.get_update_counter();
        if c != self.last_update_counter {
            self.updates = update_store.with_all_rumors();
            self.last_update_counter = c;
            changed = true;
        }
        let c = member_list.get_update_counter();
        if c != self.last_member_counter {
            self.members = member_list.with_all_rumors();
            self.last_member_counter = c;
            changed = true;
        }
        let c = service_config_store.get_update_counter();
        if c != self.last_config_counter {
            self.configs = service_config_store.with_all_rumors();
            self.last_config_counter = c;
            changed = true;
        }
        let c = service_file_store.get_update_counter();
        if c != self.last_file_counter {
            self.files = service_file_store.with_all_rumors();
            self.last_file_counter = c;
            changed = true;
        }
        self.changed = changed;
    }

    /// Whether member `id` is reported alive.
    fn member_alive(&self, id: &str) -> (r: bool)
        ensures
            r == alive_in(self.members@, id@),
    {
        let mut i: usize = 0;
        while i < self.members.len()
            invariant
                i <= self.members@.len(),
                forall|j: int|
                    0 <= j < i ==> !((#[trigger] self.members@[j]).member_id@ == id@
                        && self.members@[j].health == Health::Alive),
            decreases self.members@.len() - i,
        {
            let m = &self.members[i];
            if text_eq(m.member_id.as_str(), id) && m.health == Health::Alive {
                return true;
            }
            i += 1;
        }
        false
    }

    /// The election of group `sg`, if any.
    fn find_election(&self, sg: &str) -> (r: Option<&Election>)
        requires
            self.wf(),
        ensures
            match r {
                Some(e) => election_of(self.elections@, sg@) == Some(*e),
                None => election_of(self.elections@, sg@).is_none(),
            },
    {
        let mut i: usize = 0;
        while i < self.elections.len()
            invariant
                i <= self.elections@.len(),
                self.wf(),
                forall|j: int|
                    0 <= j < i ==> slot(#[trigger] self.elections@[j]) != (sg@, "election"@),
            decreases self.elections@.len() - i,
        {
            let e = &self.elections[i];
            if text_eq(e.key(), sg) {
                proof {
                    lemma_rumor_map_lookup(self.elections@, i as int);
                }
                return Some(e);
            }
            i += 1;
        }
        None
    }

    /// The configuration of group `sg`, if any.
    fn find_config(&self, sg: &str) -> (r: Option<&ServiceConfig>)
        requires
            self.wf(),
        ensures
            match r {
                Some(c) => config_of(self.configs@, sg@) == Some(*c),
                None => config_of(self.configs@, sg@).is_none(),
            },
    {
        let mut i: usize = 0;
        while i < self.configs.len()
            invariant
                i <= self.configs@.len(),
                self.wf(),
                forall|j: int|
                    0 <= j < i ==> slot(#[trigger] self.configs@[j]) != (sg@, "service_config"@),
            decreases self.configs@.len() - i,
        {
            let c = &self.configs[i];
            if text_eq(c.key(), sg) {
                proof {
                    lemma_rumor_map_lookup(self.configs@, i as int);
                }
                return Some(c);
            }
            i += 1;
        }
        None
    }

    /// The gossiped files of group `sg` that are newer than the copies taken,
    /// as listed in `seen` by file name and incarnation (file names are
    /// listed once).
    pub fn changed_service_files(&self, sg: &str, seen: &Vec<(String, u64)>) -> (r: Vec<ServiceFile>)
        requires
            forall|i: int, j: int|
                0 <= i < seen@.len() && 0 <= j < seen@.len() && i != j ==> (#[trigger] seen@[i]).0@
                    != (#[trigger] seen@[j]).0@,
        ensures
            r@ == self.files_view().filter(|f: ServiceFile| file_changed(f, sg@, seen@)),
    {
        let mut r: Vec<ServiceFile> = Vec::new();
        let mut i: usize = 0;
        while i < self.files.len()
            invariant
                i <= self.files@.len(),
                forall|x: int, y: int|
                    0 <= x < seen@.len() && 0 <= y < seen@.len() && x != y ==> (#[trigger] seen@[x]).0@
                        != (#[trigger] seen@[y]).0@,
                r@ == self.files@.take(i as int).filter(|f: ServiceFile| file_changed(f, sg@, seen@)),
            decreases self.files@.len() - i,
        {
            let f = &self.files[i];
            proof {
                assert(self.files@.take(i as int + 1) =~= self.files@.take(i as int).push(
                    self.files@[i as int],
                ));
                self.files@.take(i as int).lemma_filter_push(
                    self.files@[i as int],
                    |f: ServiceFile| file_changed(f, sg@, seen@),
                );
            }
            if text_eq(f.service_group.as_str(), sg) {
                let newer = match seen_lookup(seen, f.filename.as_str()) {
                    Some(inc) => f.incarnation > inc,
                    None => true,
                };
                if newer {
                    r.push(f.copy_rumor());
                }
            }
            i += 1;
        }
        assert(self.files@.take(i as int) =~= self.files@);
        r
    }

    /// Whether some service rumor is about group `sg`.
    pub open spec fn has_group(&self, sg: Seq<char>) -> bool {
        exists|j: int|
            0 <= j < self.services_view().len() && (#[trigger] self.services_view()[j]).service_group@
                == sg
    }

    /// The census of group `sg`: absent when no service rumor is about it.
    /// Its members follow the service rumors; its leader is the elected
    /// candidate once the election has finished.
    pub fn census_group_for(&self, sg: &str) -> (r: Option<CensusGroup>)
        requires
            self.wf(),
        ensures
            match r {
                None => !self.has_group(sg@),
                Some(g) => {
                    &&& self.has_group(sg@)
                    &&& g.service_group@ == sg@
                    &&& g.member_view() == members_of(self.services_view(), self.members_view(), sg@)
                    &&& g.election_status == (match election_of(self.elections_view(), sg@) {
                        Some(e) => e.status,
                        None => ElectionStatus::NoElection,
                    })
                    &&& (match g.leader_id {
                        Some(l) => g.election_status == ElectionStatus::ElectionFinished && l@
                            == election_of(self.elections_view(), sg@).unwrap().member_id@,
                        None => g.election_status != ElectionStatus::ElectionFinished,
                    })
                    &&& g.service_config_incarnation == (match config_of(self.configs_view(), sg@) {
                        Some(c) => Some(c.incarnation),
                        None => None::<u64>,
                    })
                },
            },
    {
        let ghost pick = |s: ServiceRumor| s.service_group@ == sg@;
        let ghost to_pair = |s: ServiceRumor| (s.member_id@, alive_in(self.members@, s.member_id@));
        let mut members: Vec<CensusMember> = Vec::new();
        let mut i: usize = 0;
        let mut found = false;
        while i < self.services.len()
            invariant
                i <= self.services@.len(),
                pick == (|s: ServiceRumor| s.service_group@ == sg@),
                to_pair == (|s: ServiceRumor| (s.member_id@, alive_in(self.members@, s.member_id@))),
                members@.map_values(|m: CensusMember| (m.member_id@, m.alive))
                    == self.services@.take(i as int).filter(pick).map_values(to_pair),
                found == exists|j: int|
                    0 <= j < i && (#[trigger] self.services@[j]).service_group@ == sg@,
            decreases self.services@.len() - i,
        {
            let s = &self.services[i];
            proof {
                assert(self.services@.take(i as int + 1) =~= self.services@.take(i as int).push(
                    self.services@[i as int],
                ));
                self.services@.take(i as int).lemma_filter_push(self.services@[i as int], pick);
            }
            let ghost before = members@;
            if text_eq(s.service_group.as_str(), sg) {
                let alive = self.member_alive(s.member_id.as_str());
                members.push(CensusMember { member_id: s.member_id.clone(), alive });
                found = true;
                proof {
                    let f = |m: CensusMember| (m.member_id@, m.alive);
                    assert(members@.map_values(f) =~= before.map_values(f).push(
                        to_pair(self.services@[i as int]),
                    ));
                    let t = self.services@.take(i as int).filter(pick);
                    assert(t.push(self.services@[i as int]).map_values(to_pair) =~= t.map_values(
                        to_pair,
                    ).push(to_pair(self.services@[i as int])));
                }
            }
            i += 1;
        }
        assert(self.services@.take(i as int) =~= self.services@);
        if !found {
            return None;
        }
        let (election_status, leader_id) = match self.find_election(sg) {
            Some(e) => {
                if e.status == ElectionStatus::ElectionFinished {
                    (e.status, Some(e.member_id.clone()))
                } else {
                    (e.status, None)
                }
            },
            None => (ElectionStatus::NoElection, None),
        };
        let service_config_incarnation = match self.find_config(sg) {
            Some(c) => Some(c.incarnation),
            None => None,
        };
        Some(
            CensusGroup {
                service_group: sg.to_owned(),
                members,
                election_status,
                leader_id,
                service_config_incarnation,
            },
        )
    }
}

} // verus!
