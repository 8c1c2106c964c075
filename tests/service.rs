use habitat_sup::census::CensusRing;
use habitat_sup::rumor::RumorStore;
use habitat_sup::rumor_kinds::{Election, Health, Membership, ServiceConfig, ServiceFile, ServiceRumor};
use habitat_sup::runtime::{all_binds_satisfied, HookAction, HookPresence, ServiceRuntime, TickInput, TickStep};
use habitat_sup::status::{ElectionStatus, HealthCheck, ParseError, ProcessState, Topology, UpdateStrategy};

#[test]
fn it_works() {
    assert_eq!(2 + 2, 4);
}

#[test]
fn topology_default() {
    assert_eq!(Topology::default(), Topology::Standalone);
}

#[test]
fn topology_from_str() {
    let topology_str = "leader";
    let topology = Topology::from_str(topology_str).unwrap();

    assert_eq!(topology, Topology::Leader);
}

#[test]
fn topology_from_str_invalid() {
    let topology_str = "dope";

    match Topology::from_str(topology_str) {
        Err(e) => match e {
            ParseError::InvalidTopology(s) => assert_eq!("dope", s),
            wrong => panic!("Unexpected error returned: {:?}", wrong),
        },
        Ok(_) => panic!("String should fail to parse"),
    }
}

#[test]
fn topology_to_string() {
    let topology = Topology::Standalone;

    assert_eq!("standalone", topology.to_string())
}

#[test]
fn update_strategy_default() {
    assert_eq!(UpdateStrategy::default(), UpdateStrategy::NoUpdate);
}

#[test]
fn update_strategy_from_str() {
    let strategy_str = "at-once";
    let strategy = UpdateStrategy::from_str(strategy_str).unwrap();

    assert_eq!(strategy, UpdateStrategy::AtOnce);
}

#[test]
fn update_strategy_from_str_invalid() {
    let strategy_str = "dope";

    match UpdateStrategy::from_str(strategy_str) {
        Err(e) => match e {
            ParseError::InvalidUpdateStrategy(s) => assert_eq!("dope", s),
            wrong => panic!("Unexpected error returned: {:?}", wrong),
        },
        Ok(_) => panic!("String should fail to parse"),
    }
}

#[test]
fn update_strategy_to_string() {
    let strategy = UpdateStrategy::AtOnce;

    assert_eq!("at-once", strategy.to_string())
}

#[test]
fn health_from_exit_codes() {
    assert_eq!(HealthCheck::from_exit_code(0), HealthCheck::Healthy);
    assert_eq!(HealthCheck::from_exit_code(1), HealthCheck::Warning);
    assert_eq!(HealthCheck::from_exit_code(2), HealthCheck::Critical);
    assert_eq!(HealthCheck::from_exit_code(7), HealthCheck::Unknown);
    assert_eq!(HealthCheck::Warning.http_status(), 200);
    assert_eq!(HealthCheck::Critical.http_status(), 503);
    assert_eq!(HealthCheck::Unknown.http_status(), 500);
}

struct Stores {
    services: RumorStore<ServiceRumor>,
    elections: RumorStore<Election>,
    updates: RumorStore<Election>,
    members: RumorStore<Membership>,
    configs: RumorStore<ServiceConfig>,
    files: RumorStore<ServiceFile>,
}

fn stores() -> Stores {
    Stores {
        services: RumorStore::new("service".to_string(), 0),
        elections: RumorStore::new("election".to_string(), 0),
        updates: RumorStore::new("election_update".to_string(), 0),
        members: RumorStore::new("member".to_string(), 0),
        configs: RumorStore::new("service_config".to_string(), 0),
        files: RumorStore::new("service_file".to_string(), 0),
    }
}

fn update(ring: &mut CensusRing, s: &Stores) {
    ring.update_from_rumors(&s.services, &s.elections, &s.updates, &s.members, &s.configs, &s.files);
}

fn service(member: &str, group: &str) -> ServiceRumor {
    ServiceRumor {
        member_id: member.to_string(),
        service_group: group.to_string(),
        incarnation: 1,
        pkg: "core/redis".to_string(),
        initialized: true,
    }
}

fn hooks() -> HookPresence {
    HookPresence {
        init: false,
        reload: false,
        reconfigure: false,
        file_updated: false,
        health_check: false,
        post_run: false,
        suitability: false,
    }
}

fn input(binds: bool, status: ElectionStatus, alive: bool) -> TickInput {
    TickInput {
        binds_satisfied: binds,
        election_status: status,
        process_alive: alive,
        health_check_due: false,
        config_changed: false,
        hooks_changed: false,
        files_changed: false,
    }
}

#[test]
fn census_quiet_tick_is_unchanged() {
    let mut s = stores();
    let mut ring = CensusRing::new();
    s.services.insert(service("m1", "redis.default"));
    update(&mut ring, &s);
    assert!(ring.changed());
    update(&mut ring, &s);
    assert!(!ring.changed());
}

#[test]
fn census_group_members_and_leader() {
    let mut s = stores();
    let mut ring = CensusRing::new();
    for m in ["m1", "m2", "m3"] {
        s.services.insert(service(m, "redis.default"));
        s.members.insert(Membership { member_id: m.to_string(), incarnation: 1, health: Health::Alive });
    }
    s.elections.insert(Election {
        member_id: "m2".to_string(),
        service_group: "redis.default".to_string(),
        incarnation: 1,
        suitability: 0,
        status: ElectionStatus::ElectionInProgress,
    });
    update(&mut ring, &s);
    let g = ring.census_group_for("redis.default").unwrap();
    assert_eq!(g.members.len(), 3);
    assert_eq!(g.election_status, ElectionStatus::ElectionInProgress);
    assert!(g.leader_id.is_none());
    s.elections.insert(Election {
        member_id: "m2".to_string(),
        service_group: "redis.default".to_string(),
        incarnation: 2,
        suitability: 0,
        status: ElectionStatus::ElectionFinished,
    });
    update(&mut ring, &s);
    let g = ring.census_group_for("redis.default").unwrap();
    assert_eq!(g.election_status, ElectionStatus::ElectionFinished);
    assert_eq!(g.leader_id.unwrap(), "m2");
    assert!(ring.census_group_for("web.default").is_none());
}

fn election(status: ElectionStatus, incarnation: u64) -> Election {
    Election {
        member_id: "m2".to_string(),
        service_group: "redis.default".to_string(),
        incarnation,
        suitability: 0,
        status,
    }
}

#[test]
fn leader_election_gate() {
    let mut s = stores();
    let mut ring = CensusRing::new();
    for m in ["m1", "m2", "m3"] {
        s.services.insert(service(m, "redis.default"));
        s.members.insert(Membership { member_id: m.to_string(), incarnation: 1, health: Health::Alive });
    }
    s.elections.insert(election(ElectionStatus::ElectionInProgress, 1));
    update(&mut ring, &s);
    let status = ring.census_group_for("redis.default").unwrap().election_status;
    assert_eq!(status, ElectionStatus::ElectionInProgress);

    let mut svc = ServiceRuntime::new(Topology::Leader, hooks());
    let mut due = input(true, status, false);
    due.health_check_due = true;
    assert_eq!(svc.tick_start(due), TickStep::Wait);
    assert_eq!(svc.tick_start(due), TickStep::Wait);

    s.elections.insert(election(ElectionStatus::ElectionFinished, 2));
    update(&mut ring, &s);
    let group = ring.census_group_for("redis.default").unwrap();
    assert_eq!(group.leader_id.unwrap(), "m2");
    let step = svc.tick_start(input(true, group.election_status, false));
    assert_eq!(step, TickStep::Act(vec![HookAction::Start]));
    let step = svc.tick_start(input(true, ElectionStatus::ElectionFinished, true));
    assert_eq!(step, TickStep::Act(vec![]));
    assert_eq!(svc.process_state, ProcessState::Up);
}

#[test]
fn bind_dependency() {
    let mut s = stores();
    let mut ring = CensusRing::new();
    let binds = vec!["redis.default".to_string()];
    let mut app = ServiceRuntime::new(Topology::Standalone, hooks());
    update(&mut ring, &s);
    let ok = all_binds_satisfied(&binds, &ring);
    assert!(!ok);
    assert_eq!(app.tick_start(input(ok, ElectionStatus::NoElection, false)), TickStep::Wait);
    assert!(!app.initialized);

    s.services.insert(service("m9", "redis.default"));
    s.members.insert(Membership { member_id: "m9".to_string(), incarnation: 1, health: Health::Alive });
    update(&mut ring, &s);
    let ok = all_binds_satisfied(&binds, &ring);
    assert!(ok);
    assert_eq!(
        app.tick_start(input(ok, ElectionStatus::NoElection, false)),
        TickStep::Act(vec![HookAction::Start])
    );
    assert!(app.initialized);
}

#[test]
fn bind_without_live_member_is_unsatisfied() {
    let mut s = stores();
    let mut ring = CensusRing::new();
    s.services.insert(service("m9", "redis.default"));
    s.members.insert(Membership { member_id: "m9".to_string(), incarnation: 1, health: Health::Confirmed });
    update(&mut ring, &s);
    assert!(!all_binds_satisfied(&vec!["redis.default".to_string()], &ring));
}

#[test]
fn init_hook_gates_start() {
    let mut h = hooks();
    h.init = true;
    h.post_run = true;
    let mut svc = ServiceRuntime::new(Topology::Standalone, h);
    assert_eq!(svc.tick_start(input(true, ElectionStatus::NoElection, false)), TickStep::RunInit);
    assert!(svc.init_finished(false).is_empty());
    assert!(!svc.initialized);
    assert_eq!(svc.tick_start(input(true, ElectionStatus::NoElection, false)), TickStep::RunInit);
    assert_eq!(svc.init_finished(true), vec![HookAction::Start, HookAction::PostRun]);
    assert!(svc.initialized);
}

#[test]
fn running_schedule_order() {
    let mut h = hooks();
    h.reload = true;
    h.reconfigure = true;
    h.file_updated = true;
    let mut svc = ServiceRuntime::new(Topology::Standalone, h);
    svc.tick_start(input(true, ElectionStatus::NoElection, true));
    assert!(svc.initialized);
    let mut i = input(true, ElectionStatus::NoElection, true);
    i.health_check_due = true;
    i.config_changed = true;
    i.files_changed = true;
    assert_eq!(
        svc.tick_start(i),
        TickStep::Act(vec![
            HookAction::HealthCheck,
            HookAction::Reload,
            HookAction::Reconfigure,
            HookAction::FileUpdated
        ])
    );
    assert_eq!(svc.tick_start(input(true, ElectionStatus::NoElection, false)), TickStep::Act(vec![HookAction::Restart]));
}

#[test]
fn template_idempotence_second_tick_is_quiet() {
    let mut svc = ServiceRuntime::new(Topology::Standalone, hooks());
    svc.tick_start(input(true, ElectionStatus::NoElection, false));
    let quiet = input(true, ElectionStatus::NoElection, true);
    assert_eq!(svc.tick_start(quiet), TickStep::Act(vec![]));
    assert_eq!(svc.tick_start(quiet), TickStep::Act(vec![]));
    assert!(!svc.needs_reload && !svc.needs_reconfiguration);
}

#[test]
fn health_without_hook_follows_process() {
    let mut svc = ServiceRuntime::new(Topology::Standalone, hooks());
    assert_eq!(svc.health_without_hook(), HealthCheck::Critical);
    svc.tick_start(input(true, ElectionStatus::NoElection, true));
    assert_eq!(svc.health_without_hook(), HealthCheck::Healthy);
    svc.stopped();
    assert!(!svc.initialized);
    assert_eq!(svc.process_state, ProcessState::Down);
}

#[test]
fn changed_service_files_since_last_seen() {
    let mut s = stores();
    let mut ring = CensusRing::new();
    let file = |name: &str, inc: u64| ServiceFile {
        from_id: "m1".to_string(),
        service_group: "redis.default".to_string(),
        incarnation: inc,
        encrypted: false,
        filename: name.to_string(),
        body: "x".to_string(),
    };
    s.files.insert(file("a.conf", 2));
    s.files.insert(file("b.conf", 1));
    update(&mut ring, &s);
    let seen = vec![("a.conf".to_string(), 2u64)];
    let changed = ring.changed_service_files("redis.default", &seen);
    assert_eq!(changed.len(), 1);
    assert_eq!(changed[0].filename, "b.conf");
    assert!(ring.changed_service_files("web.default", &vec![]).is_empty());
}

#[test]
fn suitability_needs_initialization_and_hook() {
    let mut h = hooks();
    h.suitability = true;
    let mut svc = ServiceRuntime::new(Topology::Leader, h);
    assert_eq!(svc.suitability(Some(7)), None);
    svc.tick_start(input(true, ElectionStatus::ElectionFinished, true));
    assert_eq!(svc.suitability(Some(7)), Some(7));
    let plain = ServiceRuntime::new(Topology::Leader, hooks());
    assert_eq!(plain.suitability(Some(7)), None);
}

#[test]
fn hooks_from_file_names() {
    let names = vec!["init".to_string(), "health-check".to_string(), "README".to_string()];
    let h = HookPresence::from_file_names(&names);
    assert!(h.init && h.health_check);
    assert!(!h.reload && !h.reconfigure && !h.file_updated && !h.post_run && !h.suitability);
}
