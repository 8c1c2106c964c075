use habitat_sup::rumor::{MergeResult, Rumor, RumorError, RumorKey, RumorStore, RumorType};
use habitat_sup::rumor_kinds::{Departure, Election, Health, Membership, ServiceRumor};
use habitat_sup::rumor_wire::{RumorEnvelope, WireError};
use habitat_sup::status::ElectionStatus;

fn departure(id: &str) -> Departure {
    Departure { member_id: id.to_string() }
}

fn create_rumor_store() -> RumorStore<Departure> {
    RumorStore::new(String::from("fakerumor"), 0)
}

#[test]
fn update_counter() {
    let mut rs = create_rumor_store();
    rs.increment_update_counter();
    assert_eq!(rs.get_update_counter(), 1);
}

#[test]
fn update_counter_overflows_safely() {
    let mut rs: RumorStore<Departure> = RumorStore::new(String::from("fakerumor"), u64::MAX);
    rs.increment_update_counter();
    assert_eq!(rs.get_update_counter(), 0);
}

#[test]
fn insert_adds_rumor_when_empty() {
    let mut rs = create_rumor_store();
    let f = departure("6f7ac1e4b9a54c4f");
    assert!(rs.insert(f));
    assert_eq!(rs.get_update_counter(), 1);
}

#[test]
fn insert_adds_multiple_rumors_for_same_key() {
    let mut rs = create_rumor_store();
    let f1 = departure("member-one");
    let key = String::from(f1.key());
    let f1_id = String::from(f1.id());
    let f2 = departure("member-two");
    let f2_id = String::from(f2.id());

    assert!(rs.insert(f1));
    assert!(rs.insert(f2));
    assert_eq!(rs.get_update_counter(), 2);
    assert_eq!(rs.with_rumor(&key, &f1_id).unwrap().member_id, f1_id);
    assert_eq!(rs.with_rumor(&key, &f2_id).unwrap().member_id, f2_id);
}

#[test]
fn insert_adds_multiple_members() {
    let mut rs = create_rumor_store();
    let f1 = departure("member-one");
    let f2 = departure("member-two");
    assert!(rs.insert(f1));
    assert!(rs.insert(f2));
    assert_eq!(rs.get_update_counter(), 2);
}

#[test]
fn insert_returns_false_on_no_changes() {
    let mut rs = create_rumor_store();
    let f1 = departure("member-one");
    let f2 = departure("member-one");
    assert!(rs.insert(f1));
    assert_eq!(rs.insert(f2), false);
}

#[test]
fn with_rumor_calls_closure_with_rumor() {
    let mut rs = create_rumor_store();
    let f1 = departure("member-one");
    let member_id = f1.member_id.clone();
    let key = String::from(f1.key());
    rs.insert(f1);
    let o = rs.with_rumor(&key, &member_id);
    assert_eq!(o.unwrap().member_id, member_id);
}

#[test]
fn with_rumor_calls_closure_with_none_if_rumor_missing() {
    let rs = create_rumor_store();
    let o = rs.with_rumor("bar", "foo");
    assert!(o.is_none());
}

fn service(member: &str, group: &str, incarnation: u64) -> ServiceRumor {
    ServiceRumor {
        member_id: member.to_string(),
        service_group: group.to_string(),
        incarnation,
        pkg: "core/redis".to_string(),
        initialized: true,
    }
}

#[test]
fn stale_rumor_leaves_counter() {
    let mut rs: RumorStore<ServiceRumor> = RumorStore::new("service".to_string(), 0);
    assert!(rs.insert(service("m1", "redis.default", 5)));
    assert!(!rs.insert(service("m1", "redis.default", 5)));
    assert!(!rs.insert(service("m1", "redis.default", 3)));
    assert_eq!(rs.get_update_counter(), 1);
    assert_eq!(rs.with_rumor("redis.default", "m1").unwrap().incarnation, 5);
}

#[test]
fn same_rumor_twice_counts_once() {
    let mut rs: RumorStore<ServiceRumor> = RumorStore::new("service".to_string(), 0);
    assert!(rs.insert(service("m1", "redis.default", 1)));
    assert!(!rs.insert(service("m1", "redis.default", 1)));
    assert_eq!(rs.get_update_counter(), 1);
    assert_eq!(rs.with_all_rumors().len(), 1);
}

#[test]
fn newer_rumor_replaces() {
    let mut rs: RumorStore<ServiceRumor> = RumorStore::new("service".to_string(), 0);
    assert!(rs.insert(service("m1", "redis.default", 1)));
    assert!(rs.insert(service("m1", "redis.default", 2)));
    assert_eq!(rs.get_update_counter(), 2);
    assert_eq!(rs.with_rumor("redis.default", "m1").unwrap().incarnation, 2);
    assert_eq!(rs.with_all_rumors().len(), 1);
}

#[test]
fn with_rumors_selects_by_key_in_order() {
    let mut rs: RumorStore<ServiceRumor> = RumorStore::new("service".to_string(), 0);
    rs.insert(service("m1", "redis.default", 1));
    rs.insert(service("m2", "web.default", 1));
    rs.insert(service("m3", "redis.default", 1));
    let found = rs.with_rumors("redis.default");
    assert_eq!(found.len(), 2);
    assert_eq!(found[0].member_id, "m1");
    assert_eq!(found[1].member_id, "m3");
    assert!(rs.contains_rumor("web.default", "m2"));
    assert!(!rs.contains_rumor("web.default", "m1"));
}

#[test]
fn remove_and_clear() {
    let mut rs: RumorStore<ServiceRumor> = RumorStore::new("service".to_string(), 0);
    rs.insert(service("m1", "redis.default", 1));
    rs.insert(service("m2", "redis.default", 1));
    rs.remove("redis.default", "m1");
    assert!(!rs.contains_rumor("redis.default", "m1"));
    assert!(rs.contains_rumor("redis.default", "m2"));
    assert_eq!(rs.get_update_counter(), 2);
    assert_eq!(rs.clear(), 2);
    assert_eq!(rs.get_update_counter(), 0);
    assert!(rs.with_all_rumors().is_empty());
    assert_eq!(rs.name(), "service");
}

fn election(member: &str, incarnation: u64, suitability: u64) -> Election {
    Election {
        member_id: member.to_string(),
        service_group: "redis.default".to_string(),
        incarnation,
        suitability,
        status: ElectionStatus::ElectionInProgress,
    }
}

#[test]
fn election_merge_order() {
    let stored = election("m1", 1, 5);
    assert!(matches!(stored.merge(election("m1", 2, 0)), MergeResult::ShareNew(_)));
    assert!(matches!(stored.merge(election("m2", 1, 9)), MergeResult::ShareNew(_)));
    assert!(matches!(stored.merge(election("m2", 1, 5)), MergeResult::ShareNew(_)));
    assert!(matches!(stored.merge(election("m0", 1, 5)), MergeResult::ShareExisting));
    assert!(matches!(stored.merge(election("m1", 1, 5)), MergeResult::StopSharing));
    assert!(matches!(stored.merge(election("m9", 0, 99)), MergeResult::StopSharing));
}

#[test]
fn election_share_existing_counts() {
    let mut rs: RumorStore<Election> = RumorStore::new("election".to_string(), 0);
    assert!(rs.insert(election("m1", 1, 5)));
    assert!(rs.insert(election("m0", 1, 5)));
    assert_eq!(rs.get_update_counter(), 2);
    assert_eq!(rs.with_rumor("redis.default", "election").unwrap().member_id, "m1");
}

#[test]
fn membership_health_overrides_at_equal_incarnation() {
    let alive = Membership { member_id: "m1".to_string(), incarnation: 3, health: Health::Alive };
    let suspect = Membership { member_id: "m1".to_string(), incarnation: 3, health: Health::Suspect };
    let older = Membership { member_id: "m1".to_string(), incarnation: 2, health: Health::Departed };
    assert!(matches!(alive.merge(suspect), MergeResult::ShareNew(_)));
    assert!(matches!(alive.merge(older), MergeResult::StopSharing));
    assert_eq!(Health::Confirmed.priority(), 2);
}

#[test]
fn departure_is_final() {
    let d = departure("m1");
    assert!(matches!(d.merge(departure("m1")), MergeResult::StopSharing));
    assert_eq!(d.kind(), RumorType::Departure);
}

#[test]
fn rumor_key_text() {
    let k = RumorKey::new(RumorType::Service, "member", "redis.default");
    assert_eq!(k.key(), "member-redis.default");
    let k = RumorKey::new(RumorType::Member, "member", "");
    assert_eq!(k.key(), "member");
}

#[test]
fn envelope_round_trip() {
    let e = RumorEnvelope {
        type_: RumorType::Service,
        from_id: b"member-1".to_vec(),
        payload: vec![9, 8, 7],
    };
    let bytes = e.encode();
    assert_eq!(&bytes[..8], &[2u8, 0, 0, 0, 8, 0, 0, 0]);
    let back = RumorEnvelope::decode(&bytes).unwrap();
    assert_eq!(back.type_, RumorType::Service);
    assert_eq!(back.from_id, b"member-1".to_vec());
    assert_eq!(back.payload, vec![9, 8, 7]);
    assert_eq!(back.encode(), bytes);
}

#[test]
fn envelope_mismatches() {
    assert_eq!(RumorEnvelope::decode(&vec![1, 0, 0]).err(), Some(WireError::ProtocolMismatch("length")));
    assert_eq!(
        RumorEnvelope::decode(&vec![6, 0, 0, 0, 0, 0, 0, 0]).err(),
        Some(WireError::ProtocolMismatch("type"))
    );
    assert_eq!(
        RumorEnvelope::decode(&vec![9, 0, 0, 0, 5, 0, 0, 0, 1]).err(),
        Some(WireError::ProtocolMismatch("from-id"))
    );
}

#[test]
fn encode_stored_rumor() {
    let mut rs = create_rumor_store();
    rs.insert(departure("ab"));
    assert_eq!(rs.encode("departure", "ab"), Ok(vec![2, 0, 0, 0, 0, 0, 0, 0, b'a', b'b']));
    assert_eq!(
        rs.encode("departure", "zz"),
        Err(RumorError::NonExistentRumor("zz".to_string(), "departure".to_string()))
    );
}

#[test]
fn service_rumor_bytes() {
    let s = service("m", "g", 258);
    let b = s.write_to_bytes();
    assert_eq!(
        b,
        vec![
            1, 0, 0, 0, 0, 0, 0, 0, b'm', 1, 0, 0, 0, 0, 0, 0, 0, b'g', 2, 1, 0, 0, 0, 0, 0, 0, 10,
            0, 0, 0, 0, 0, 0, 0, b'c', b'o', b'r', b'e', b'/', b'r', b'e', b'd', b'i', b's', 1
        ]
    );
}
