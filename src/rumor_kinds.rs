//! The rumor types that supervisors gossip, each with its merge rule.
use vstd::prelude::*;
use crate::rumor::{MergeResult, Rumor, RumorType};
use crate::status::ElectionStatus;
use crate::rumor_wire::{flag_byte, push_flag, push_text, push_u64, text_bytes, u64_bytes};
use crate::text::{is_text_greater, lemma_text_greater_irreflexive, text_eq, text_greater};

verus! {

/// How healthy a member is believed to be, from least to most severe.
#[derive(Clone, Copy, Debug, PartialEq, Eq, Structural)]
pub enum Health {
    Alive,
    Suspect,
    Confirmed,
    Departed,
}

impl Health {
    /// The rank by which a worse report overrides a better one at equal
    /// incarnation.
    pub open spec fn rank(&self) -> u8 {
        match *self {
            Health::Alive => 0,
            Health::Suspect => 1,
            Health::Confirmed => 2,
            Health::Departed => 3,
        }
    }

    pub fn priority(&self) -> (r: u8)
        ensures
            r == self.rank(),
    {
        match *self {
            Health::Alive => 0,
            Health::Suspect => 1,
            Health::Confirmed => 2,
            Health::Departed => 3,
        }
    }
}

/// What a supervisor reports of a member of the ring.
pub struct Membership {
    pub member_id: String,
    pub incarnation: u64,
    pub health: Health,
}

impl Rumor for Membership {
    open spec fn key_view(&self) -> Seq<char> {
        "member"@
    }

    open spec fn id_view(&self) -> Seq<char> {
        self.member_id@
    }

    open spec fn incarnation_view(&self) -> u64 {
        self.incarnation
    }

    open spec fn same_payload(&self, other: &Self) -> bool {
        self.member_id@ == other.member_id@ && self.health == other.health
    }

    /// A higher incarnation replaces; at equal incarnation a more severe
    /// health replaces.
    open spec fn merge_spec(&self, other: &Self) -> MergeResult<Self> {
        if other.incarnation > self.incarnation || (other.incarnation == self.incarnation
            && other.health.rank() > self.health.rank()) {
            MergeResult::ShareNew(*other)
        } else {
            MergeResult::StopSharing
        }
    }

    fn kind(&self) -> RumorType {
        RumorType::Member
    }

    fn key(&self) -> (r: &str) {
        "member"
    }

    fn id(&self) -> (r: &str) {
        self.member_id.as_str()
    }

    fn incarnation(&self) -> (r: u64) {
        self.incarnation
    }

    fn merge(&self, other: Self) -> (r: MergeResult<Self>) {
        if other.incarnation > self.incarnation || (other.incarnation == self.incarnation
            && other.health.priority() > self.health.priority()) {
            MergeResult::ShareNew(other)
        } else {
            MergeResult::StopSharing
        }
    }

    open spec fn encoding(&self) -> Seq<u8> {
        text_bytes(self.member_id@) + u64_bytes(self.incarnation) + seq![self.health.rank()]
    }

    fn write_to_bytes(&self) -> (r: Vec<u8>) {
        let mut r: Vec<u8> = Vec::new();
        push_text(&mut r, &self.member_id);
        push_u64(&mut r, self.incarnation);
        r.push(self.health.priority());
        assert(r@ =~= self.encoding());
        r
    }

    fn copy_rumor(&self) -> (r: Self) {
        Membership {
            member_id: self.member_id.clone(),
            incarnation: self.incarnation,
            health: self.health,
        }
    }

    proof fn lemma_stale_stops(&self, other: &Self) {
    }

    proof fn lemma_same_payload_refl(&self) {
    }

    proof fn lemma_share_new_is_incoming(&self, other: &Self) {
    }
}

/// A member's announcement that it runs a service in a service group.
pub struct ServiceRumor {
    pub member_id: String,
    pub service_group: String,
    pub incarnation: u64,
    pub pkg: String,
    pub initialized: bool,
}

impl Rumor for ServiceRumor {
    open spec fn key_view(&self) -> Seq<char> {
        self.service_group@
    }

    open spec fn id_view(&self) -> Seq<char> {
        self.member_id@
    }

    open spec fn incarnation_view(&self) -> u64 {
        self.incarnation
    }

    open spec fn same_payload(&self, other: &Self) -> bool {
        &&& self.member_id@ == other.member_id@
        &&& self.service_group@ == other.service_group@
        &&& self.pkg@ == other.pkg@
        &&& self.initialized == other.initialized
    }

    /// Only a higher incarnation replaces.
    open spec fn merge_spec(&self, other: &Self) -> MergeResult<Self> {
        if other.incarnation > self.incarnation {
            MergeResult::ShareNew(*other)
        } else {
            MergeResult::StopSharing
        }
    }

    fn kind(&self) -> RumorType {
        RumorType::Service
    }

    fn key(&self) -> (r: &str) {
        self.service_group.as_str()
    }

    fn id(&self) -> (r: &str) {
        self.member_id.as_str()
    }

    fn incarnation(&self) -> (r: u64) {
        self.incarnation
    }

    fn merge(&self, other: Self) -> (r: MergeResult<Self>) {
        if other.incarnation > self.incarnation {
            MergeResult::ShareNew(other)
        } else {
            MergeResult::StopSharing
        }
    }

    open spec fn encoding(&self) -> Seq<u8> {
        text_bytes(self.member_id@) + text_bytes(self.service_group@) + u64_bytes(self.incarnation) + text_bytes(self.pkg@) + flag_byte(self.initialized)
    }

    fn write_to_bytes(&self) -> (r: Vec<u8>) {
        let mut r: Vec<u8> = Vec::new();
        push_text(&mut r, &self.member_id);
        push_text(&mut r, &self.service_group);
        push_u64(&mut r, self.incarnation);
        push_text(&mut r, &self.pkg);
        push_flag(&mut r, self.initialized);
        assert(r@ =~= self.encoding());
        r
    }

    fn copy_rumor(&self) -> (r: Self) {
        ServiceRumor {
            member_id: self.member_id.clone(),
            service_group: self.service_group.clone(),
            incarnation: self.incarnation,
            pkg: self.pkg.clone(),
            initialized: self.initialized,
        }
    }

    proof fn lemma_stale_stops(&self, other: &Self) {
    }

    proof fn lemma_same_payload_refl(&self) {
    }

    proof fn lemma_share_new_is_incoming(&self, other: &Self) {
    }
}

/// A configuration gossiped to every member of a service group.
pub struct ServiceConfig {
    pub from_id: String,
    pub service_group: String,
    pub incarnation: u64,
    pub encrypted: bool,
    pub config: String,
}

impl Rumor for ServiceConfig {
    open spec fn key_view(&self) -> Seq<char> {
        self.service_group@
    }

    /// There is one configuration per service group.
    open spec fn id_view(&self) -> Seq<char> {
        "service_config"@
    }

    open spec fn incarnation_view(&self) -> u64 {
        self.incarnation
    }

    open spec fn same_payload(&self, other: &Self) -> bool {
        &&& self.from_id@ == other.from_id@
        &&& self.service_group@ == other.service_group@
        &&& self.encrypted == other.encrypted
        &&& self.config@ == other.config@
    }

    /// Only a higher incarnation replaces.
    open spec fn merge_spec(&self, other: &Self) -> MergeResult<Self> {
        if other.incarnation > self.incarnation {
            MergeResult::ShareNew(*other)
        } else {
            MergeResult::StopSharing
        }
    }

    fn kind(&self) -> RumorType {
        RumorType::ServiceConfig
    }

    fn key(&self) -> (r: &str) {
        self.service_group.as_str()
    }

    fn id(&self) -> (r: &str) {
        "service_config"
    }

    fn incarnation(&self) -> (r: u64) {
        self.incarnation
    }

    fn merge(&self, other: Self) -> (r: MergeResult<Self>) {
        if other.incarnation > self.incarnation {
            MergeResult::ShareNew(other)
        } else {
            MergeResult::StopSharing
        }
    }

    open spec fn encoding(&self) -> Seq<u8> {
        text_bytes(self.from_id@) + text_bytes(self.service_group@) + u64_bytes(self.incarnation) + flag_byte(self.encrypted) + text_bytes(self.config@)
    }

    fn write_to_bytes(&self) -> (r: Vec<u8>) {
        let mut r: Vec<u8> = Vec::new();
        push_text(&mut r, &self.from_id);
        push_text(&mut r, &self.service_group);
        push_u64(&mut r, self.incarnation);
        push_flag(&mut r, self.encrypted);
        push_text(&mut r, &self.config);
        assert(r@ =~= self.encoding());
        r
    }

    fn copy_rumor(&self) -> (r: Self) {
        ServiceConfig {
            from_id: self.from_id.clone(),
            service_group: self.service_group.clone(),
            incarnation: self.incarnation,
            encrypted: self.encrypted,
            config: self.config.clone(),
        }
    }

    proof fn lemma_stale_stops(&self, other: &Self) {
    }

    proof fn lemma_same_payload_refl(&self) {
    }

    proof fn lemma_share_new_is_incoming(&self, other: &Self) {
    }
}

/// A file gossiped to every member of a service group.
pub struct ServiceFile {
    pub from_id: String,
    pub service_group: String,
    pub incarnation: u64,
    pub encrypted: bool,
    pub filename: String,
    pub body: String,
}

impl Rumor for ServiceFile {
    open spec fn key_view(&self) -> Seq<char> {
        self.service_group@
    }

    /// There is one rumor per file name in a service group.
    open spec fn id_view(&self) -> Seq<char> {
        self.filename@
    }

    open spec fn incarnation_view(&self) -> u64 {
        self.incarnation
    }

    open spec fn same_payload(&self, other: &Self) -> bool {
        &&& self.from_id@ == other.from_id@
        &&& self.service_group@ == other.service_group@
        &&& self.encrypted == other.encrypted
        &&& self.filename@ == other.filename@
        &&& self.body@ == other.body@
    }

    /// Only a higher incarnation replaces.
    open spec fn merge_spec(&self, other: &Self) -> MergeResult<Self> {
        if other.incarnation > self.incarnation {
            MergeResult::ShareNew(*other)
        } else {
            MergeResult::StopSharing
        }
    }

    fn kind(&self) -> RumorType {
        RumorType::ServiceFile
    }

    fn key(&self) -> (r: &str) {
        self.service_group.as_str()
    }

    fn id(&self) -> (r: &str) {
        self.filename.as_str()
    }

    fn incarnation(&self) -> (r: u64) {
        self.incarnation
    }

    fn merge(&self, other: Self) -> (r: MergeResult<Self>) {
        if other.incarnation > self.incarnation {
            MergeResult::ShareNew(other)
        } else {
            MergeResult::StopSharing
        }
    }

    open spec fn encoding(&self) -> Seq<u8> {
        text_bytes(self.from_id@) + text_bytes(self.service_group@) + u64_bytes(self.incarnation) + flag_byte(self.encrypted) + text_bytes(self.filename@) + text_bytes(self.body@)
    }

    fn write_to_bytes(&self) -> (r: Vec<u8>) {
        let mut r: Vec<u8> = Vec::new();
        push_text(&mut r, &self.from_id);
        push_text(&mut r, &self.service_group);
        push_u64(&mut r, self.incarnation);
        push_flag(&mut r, self.encrypted);
        push_text(&mut r, &self.filename);
        push_text(&mut r, &self.body);
        assert(r@ =~= self.encoding());
        r
    }

    fn copy_rumor(&self) -> (r: Self) {
        ServiceFile {
            from_id: self.from_id.clone(),
            service_group: self.service_group.clone(),
            incarnation: self.incarnation,
            encrypted: self.encrypted,
            filename: self.filename.clone(),
            body: self.body.clone(),
        }
    }

    proof fn lemma_stale_stops(&self, other: &Self) {
    }

    proof fn lemma_same_payload_refl(&self) {
    }

    proof fn lemma_share_new_is_incoming(&self, other: &Self) {
    }
}

/// The byte an election status travels as.
pub open spec fn status_byte(s: ElectionStatus) -> u8 {
    match s {
        ElectionStatus::NoElection => 0,
        ElectionStatus::ElectionInProgress => 1,
        ElectionStatus::ElectionNoQuorum => 2,
        ElectionStatus::ElectionFinished => 3,
    }
}

fn status_code(s: ElectionStatus) -> (r: u8)
    ensures
        r == status_byte(s),
{
    match s {
        ElectionStatus::NoElection => 0,
        ElectionStatus::ElectionInProgress => 1,
        ElectionStatus::ElectionNoQuorum => 2,
        ElectionStatus::ElectionFinished => 3,
    }
}

/// A candidate's claim in the leader election of a service group.
pub struct Election {
    pub member_id: String,
    pub service_group: String,
    pub incarnation: u64,
    pub suitability: u64,
    pub status: ElectionStatus,
}

/// Whether candidate `a` beats candidate `b`: a higher incarnation, then a
/// higher suitability, then the greater member id.
pub open spec fn election_beats(a: Election, b: Election) -> bool {
    a.incarnation > b.incarnation || (a.incarnation == b.incarnation && (a.suitability
        > b.suitability || (a.suitability == b.suitability && text_greater(
        a.member_id@,
        b.member_id@,
    ))))
}

impl Rumor for Election {
    open spec fn key_view(&self) -> Seq<char> {
        self.service_group@
    }

    /// There is one election per service group.
    open spec fn id_view(&self) -> Seq<char> {
        "election"@
    }

    open spec fn incarnation_view(&self) -> u64 {
        self.incarnation
    }

    open spec fn same_payload(&self, other: &Self) -> bool {
        &&& self.member_id@ == other.member_id@
        &&& self.service_group@ == other.service_group@
        &&& self.suitability == other.suitability
        &&& self.status == other.status
    }

    /// A better candidate replaces. A worse claim of the same incarnation
    /// has the stored one shared again, to correct the sender.
    open spec fn merge_spec(&self, other: &Self) -> MergeResult<Self> {
        if election_beats(*other, *self) {
            MergeResult::ShareNew(*other)
        } else if other.incarnation == self.incarnation && !self.same_payload(other) {
            MergeResult::ShareExisting
        } else {
            MergeResult::StopSharing
        }
    }

    fn kind(&self) -> RumorType {
        RumorType::Election
    }

    fn key(&self) -> (r: &str) {
        self.service_group.as_str()
    }

    fn id(&self) -> (r: &str) {
        "election"
    }

    fn incarnation(&self) -> (r: u64) {
        self.incarnation
    }

    fn merge(&self, other: Self) -> (r: MergeResult<Self>) {
        let beats = other.incarnation > self.incarnation || (other.incarnation
            == self.incarnation && (other.suitability > self.suitability || (other.suitability
            == self.suitability && is_text_greater(
            other.member_id.as_str(),
            self.member_id.as_str(),
        ))));
        if beats {
            MergeResult::ShareNew(other)
        } else if other.incarnation == self.incarnation && !(text_eq(
            self.member_id.as_str(),
            other.member_id.as_str(),
        ) && text_eq(self.service_group.as_str(), other.service_group.as_str())
            && self.suitability == other.suitability && self.status == other.status) {
            MergeResult::ShareExisting
        } else {
            MergeResult::StopSharing
        }
    }

    open spec fn encoding(&self) -> Seq<u8> {
        text_bytes(self.member_id@) + text_bytes(self.service_group@) + u64_bytes(self.incarnation) + u64_bytes(self.suitability) + seq![status_byte(self.status)]
    }

    fn write_to_bytes(&self) -> (r: Vec<u8>) {
        let mut r: Vec<u8> = Vec::new();
        push_text(&mut r, &self.member_id);
        push_text(&mut r, &self.service_group);
        push_u64(&mut r, self.incarnation);
        push_u64(&mut r, self.suitability);
        r.push(status_code(self.status));
        assert(r@ =~= self.encoding());
        r
    }

    fn copy_rumor(&self) -> (r: Self) {
        Election {
            member_id: self.member_id.clone(),
            service_group: self.service_group.clone(),
            incarnation: self.incarnation,
            suitability: self.suitability,
            status: self.status,
        }
    }

    proof fn lemma_stale_stops(&self, other: &Self) {
        lemma_text_greater_irreflexive(other.member_id@);
    }

    proof fn lemma_same_payload_refl(&self) {
    }

    proof fn lemma_share_new_is_incoming(&self, other: &Self) {
    }
}

/// A member's notice that it leaves the ring for good.
pub struct Departure {
    pub member_id: String,
}

impl Rumor for Departure {
    open spec fn key_view(&self) -> Seq<char> {
        "departure"@
    }

    open spec fn id_view(&self) -> Seq<char> {
        self.member_id@
    }

    open spec fn incarnation_view(&self) -> u64 {
        0
    }

    open spec fn same_payload(&self, other: &Self) -> bool {
        self.member_id@ == other.member_id@
    }

    /// A departure, once seen, is final.
    open spec fn merge_spec(&self, other: &Self) -> MergeResult<Self> {
        MergeResult::StopSharing
    }

    fn kind(&self) -> RumorType {
        RumorType::Departure
    }

    fn key(&self) -> (r: &str) {
        "departure"
    }

    fn id(&self) -> (r: &str) {
        self.member_id.as_str()
    }

    fn incarnation(&self) -> (r: u64) {
        0
    }

    fn merge(&self, other: Self) -> (r: MergeResult<Self>) {
        MergeResult::StopSharing
    }

    open spec fn encoding(&self) -> Seq<u8> {
        text_bytes(self.member_id@)
    }

    fn write_to_bytes(&self) -> (r: Vec<u8>) {
        let mut r: Vec<u8> = Vec::new();
        push_text(&mut r, &self.member_id);
        assert(r@ =~= self.encoding());
        r
    }

    fn copy_rumor(&self) -> (r: Self) {
        Departure { member_id: self.member_id.clone() }
    }

    proof fn lemma_stale_stops(&self, other: &Self) {
    }

    proof fn lemma_same_payload_refl(&self) {
    }

    proof fn lemma_share_new_is_incoming(&self, other: &Self) {
    }
}

} // verus!
