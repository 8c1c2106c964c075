//! The decisions that drive one service through its lifecycle.
//!
//! The supervisor's run-loop performs the work (running hooks, asking the
//! launcher to spawn or restart, probing the process); this module decides,
//! from the service's state and what the loop observed, what is to be done
//! next and how the state changes.
use vstd::prelude::*;
use crate::census::{CensusRing, members_of};
use crate::status::{ElectionStatus, HealthCheck, ProcessState, Topology};
use crate::text::text_eq;

verus! {

/// Whether group `sg` is in the census with at least one live member.
pub open spec fn bind_satisfied(ring: CensusRing, sg: Seq<char>) -> bool {
    &&& ring.has_group(sg)
    &&& exists|j: int|
        0 <= j < members_of(ring.services_view(), ring.members_view(), sg).len()
            && #[trigger] members_of(ring.services_view(), ring.members_view(), sg)[j].1
}

/// Whether every bound group is in the census with a live member.
pub fn all_binds_satisfied(binds: &Vec<String>, ring: &CensusRing) -> (r: bool)
    requires
        ring.wf(),
    ensures
        r == forall|i: int| 0 <= i < binds@.len() ==> bind_satisfied(*ring, #[trigger] binds@[i]@),
{
    let mut i: usize = 0;
    while i < binds.len()
        invariant
            ring.wf(),
            i <= binds@.len(),
            forall|j: int| 0 <= j < i ==> bind_satisfied(*ring, #[trigger] binds@[j]@),
        decreases binds@.len() - i,
    {
        let ok = match ring.census_group_for(binds[i].as_str()) {
            Some(g) => {
                let live = g.has_live_member();
                proof {
                    if live {
                        let j = choose|j: int|
                            0 <= j < g.member_view().len() && #[trigger] g.member_view()[j].1;
                        assert(members_of(ring.services_view(), ring.members_view(), binds@[i as int]@)[j].1);
                    }
                }
                live
            },
            None => false,
        };
        if !ok {
            return false;
        }
        i += 1;
    }
    true
}

/// Which hooks a service's package ships.
#[derive(Clone, Copy, Debug, PartialEq, Eq, Structural)]
pub struct HookPresence {
    pub init: bool,
    pub reload: bool,
    pub reconfigure: bool,
    pub file_updated: bool,
    pub health_check: bool,
    pub post_run: bool,
    pub suitability: bool,
}

/// Whether `names` holds `name`.
pub open spec fn has_name(names: Seq<String>, name: Seq<char>) -> bool {
    exists|i: int| 0 <= i < names.len() && (#[trigger] names[i])@ == name
}

/// Whether `names` holds `name`.
fn contains_name(names: &Vec<String>, name: &str) -> (r: bool)
    ensures
        r == has_name(names@, name@),
{
    let mut i: usize = 0;
    while i < names.len()
        invariant
            i <= names@.len(),
            forall|j: int| 0 <= j < i ==> (#[trigger] names@[j])@ != name@,
        decreases names@.len() - i,
    {
        if text_eq(names[i].as_str(), name) {
            return true;
        }
        i += 1;
    }
    false
}

impl HookPresence {
    /// The hooks found among the file names of a package's hook directory.
    pub fn from_file_names(names: &Vec<String>) -> (r: HookPresence)
        ensures
            r.init == has_name(names@, "init"@),
            r.reload == has_name(names@, "reload"@),
            r.reconfigure == has_name(names@, "reconfigure"@),
            r.file_updated == has_name(names@, "file-updated"@),
            r.health_check == has_name(names@, "health-check"@),
            r.post_run == has_name(names@, "post-run"@),
            r.suitability == has_name(names@, "suitability"@),
    {
        HookPresence {
            init: contains_name(names, "init"),
            reload: contains_name(names, "reload"),
            reconfigure: contains_name(names, "reconfigure"),
            file_updated: contains_name(names, "file-updated"),
            health_check: contains_name(names, "health-check"),
            post_run: contains_name(names, "post-run"),
            suitability: contains_name(names, "suitability"),
        }
    }
}

/// A piece of work the run-loop performs for a service, in the order given.
#[derive(Clone, Copy, Debug, PartialEq, Eq, Structural)]
pub enum HookAction {
    /// Spawn the service's run command through the launcher.
    Start,
    PostRun,
    /// Run the health-check hook, or judge health by process liveness
    /// where there is none.
    HealthCheck,
    /// Run the reload hook.
    Reload,
    /// Restart the process through the launcher.
    Restart,
    Reconfigure,
    FileUpdated,
}

/// What the run-loop observed on this tick.
#[derive(Clone, Copy, Debug, PartialEq, Eq, Structural)]
pub struct TickInput {
    /// Every bind resolves to a group with a live member.
    pub binds_satisfied: bool,
    /// Where the service group's election stands.
    pub election_status: ElectionStatus,
    /// A process for the service is alive.
    pub process_alive: bool,
    /// The health-check interval has passed since the last check.
    pub health_check_due: bool,
    /// Configuration files were rewritten.
    pub config_changed: bool,
    /// Hooks were recompiled.
    pub hooks_changed: bool,
    /// Gossiped files were written.
    pub files_changed: bool,
}

/// What the run-loop does next for a service.
#[derive(Debug, PartialEq, Eq)]
pub enum TickStep {
    /// Nothing runs on this tick.
    Wait,
    /// Run the init hook, then report its outcome with `init_finished`.
    RunInit,
    /// Perform these actions in order.
    Act(Vec<HookAction>),
}

/// The lifecycle state of one service.
#[derive(Clone, Copy, Debug, PartialEq, Eq, Structural)]
pub struct ServiceRuntime {
    pub topology: Topology,
    pub hooks: HookPresence,
    pub initialized: bool,
    pub needs_reload: bool,
    pub needs_reconfiguration: bool,
    pub process_state: ProcessState,
    pub last_election_status: ElectionStatus,
}

/// Whether hooks may run at all for this topology and election status: a
/// leader-topology service waits for its group's election to finish.
pub open spec fn election_allows(topology: Topology, status: ElectionStatus) -> bool {
    topology == Topology::Standalone || status == ElectionStatus::ElectionFinished
}

/// The actions of an initialized service: a health check when due, then a
/// reload or restart when one is needed, then a reconfiguration when one is
/// needed, then the file-updated hook when gossiped files changed.
pub open spec fn running_actions(
    s: ServiceRuntime,
    input: TickInput,
    needs_reload: bool,
    needs_reconfiguration: bool,
) -> Seq<HookAction> {
    let down = !input.process_alive;
    let health = if input.health_check_due {
        seq![HookAction::HealthCheck]
    } else {
        Seq::empty()
    };
    let restart = if needs_reload || down || needs_reconfiguration {
        if down || !s.hooks.reload {
            seq![HookAction::Restart]
        } else {
            seq![HookAction::Reload]
        }
    } else {
        Seq::empty()
    };
    let reconf = if needs_reconfiguration && s.hooks.reconfigure {
        seq![HookAction::Reconfigure]
    } else {
        Seq::empty()
    };
    let files = if input.files_changed && s.hooks.file_updated {
        seq![HookAction::FileUpdated]
    } else {
        Seq::empty()
    };
    health + restart + reconf + files
}

/// The actions of an initialized service on this tick.
fn plan_running(s: &ServiceRuntime, input: TickInput, needs_reload: bool, needs_reconfiguration: bool) -> (r: Vec<HookAction>)
    ensures
        r@ == running_actions(*s, input, needs_reload, needs_reconfiguration),
{
    let down = !input.process_alive;
    let mut actions: Vec<HookAction> = Vec::new();
    if input.health_check_due {
        actions.push(HookAction::HealthCheck);
    }
    if needs_reload || down || needs_reconfiguration {
        if down || !s.hooks.reload {
            actions.push(HookAction::Restart);
        } else {
            actions.push(HookAction::Reload);
        }
    }
    if needs_reconfiguration && s.hooks.reconfigure {
        actions.push(HookAction::Reconfigure);
    }
    if input.files_changed && s.hooks.file_updated {
        actions.push(HookAction::FileUpdated);
    }
    assert(actions@ =~= running_actions(*s, input, needs_reload, needs_reconfiguration));
    actions
}

/// The actions right after a successful initialization.
pub open spec fn start_actions(hooks: HookPresence) -> Seq<HookAction> {
    if hooks.post_run {
        seq![HookAction::Start, HookAction::PostRun]
    } else {
        seq![HookAction::Start]
    }
}

impl ServiceRuntime {
    /// A service that has not been initialized and whose process is down.
    pub fn new(topology: Topology, hooks: HookPresence) -> (r: ServiceRuntime)
        ensures
            r.topology == topology,
            r.hooks == hooks,
            !r.initialized,
            !r.needs_reload,
            !r.needs_reconfiguration,
            r.process_state == ProcessState::Down,
            r.last_election_status == ElectionStatus::NoElection,
    {
        ServiceRuntime {
            topology,
            hooks,
            initialized: false,
            needs_reload: false,
            needs_reconfiguration: false,
            process_state: ProcessState::Down,
            last_election_status: ElectionStatus::NoElection,
        }
    }

    /// Decides what happens on one tick of the service.
    ///
    /// An uninitialized service with an unsatisfied bind waits and stays
    /// uninitialized. A leader-topology service waits until its group's
    /// election has finished. An uninitialized service whose process is
    /// already alive is reattached; otherwise it is initialized, through the
    /// init hook when there is one. An initialized service runs its schedule
    /// (see `running_actions`); changed configuration asks for a
    /// reconfiguration, changed hooks for a reload.
    pub fn tick_start(&mut self, input: TickInput) -> (r: TickStep)
        ensures
            final(self).topology == old(self).topology,
            final(self).hooks == old(self).hooks,
            final(self).last_election_status == (if old(self).initialized || input.binds_satisfied {
                input.election_status
            } else {
                old(self).last_election_status
            }),
            !old(self).initialized && !input.binds_satisfied ==> r == TickStep::Wait
                && *final(self) == *old(self),
            (old(self).initialized || input.binds_satisfied) && !election_allows(
                old(self).topology,
                input.election_status,
            ) ==> r == TickStep::Wait && *final(self) == (ServiceRuntime {
                last_election_status: input.election_status,
                ..*old(self)
            }),
            (old(self).initialized || input.binds_satisfied) && election_allows(
                old(self).topology,
                input.election_status,
            ) ==> {
                let needs_reload = old(self).needs_reload || input.hooks_changed;
                let needs_reconf = old(self).needs_reconfiguration || input.config_changed;
                if !old(self).initialized {
                    if input.process_alive {
                        r == TickStep::Wait && final(self).initialized && final(self).process_state
                            == ProcessState::Up
                    } else if old(self).hooks.init {
                        r == TickStep::RunInit && !final(self).initialized
                            && final(self).process_state == ProcessState::Down
                    } else {
                        &&& r matches TickStep::Act(v) && v@ == start_actions(old(self).hooks)
                        &&& final(self).initialized
                        &&& final(self).process_state == ProcessState::Up
                        &&& !final(self).needs_reload
                        &&& !final(self).needs_reconfiguration
                    }
                } else {
                    &&& r matches TickStep::Act(v) && v@ == running_actions(
                        *old(self),
                        input,
                        needs_reload,
                        needs_reconf,
                    )
                    &&& final(self).initialized
                    &&& final(self).process_state == ProcessState::Up
                    &&& !final(self).needs_reload
                    &&& !final(self).needs_reconfiguration
                }
            },
    {
        if !self.initialized && !input.binds_satisfied {
            return TickStep::Wait;
        }
        self.last_election_status = input.election_status;
        if self.topology == Topology::Leader && input.election_status
            != ElectionStatus::ElectionFinished {
            return TickStep::Wait;
        }
        if input.hooks_changed {
            self.needs_reload = true;
        }
        if input.config_changed {
            self.needs_reconfiguration = true;
        }
        if !self.initialized {
            if input.process_alive {
                self.initialized = true;
                self.process_state = ProcessState::Up;
                return TickStep::Wait;
            }
            self.process_state = ProcessState::Down;
            if self.hooks.init {
                return TickStep::RunInit;
            }
            return TickStep::Act(self.begin_running());
        }
        let actions = plan_running(self, input, self.needs_reload, self.needs_reconfiguration);
        self.needs_reload = false;
        self.needs_reconfiguration = false;
        self.process_state = ProcessState::Up;
        TickStep::Act(actions)
    }

    /// Marks the service initialized and running, and gives the start actions.
    fn begin_running(&mut self) -> (r: Vec<HookAction>)
        ensures
            r@ == start_actions(old(self).hooks),
            final(self).initialized,
            final(self).process_state == ProcessState::Up,
            !final(self).needs_reload,
            !final(self).needs_reconfiguration,
            final(self).topology == old(self).topology,
            final(self).hooks == old(self).hooks,
            final(self).last_election_status == old(self).last_election_status,
    {
        self.initialized = true;
        self.process_state = ProcessState::Up;
        self.needs_reload = false;
        self.needs_reconfiguration = false;
        let mut v: Vec<HookAction> = Vec::new();
        v.push(HookAction::Start);
        if self.hooks.post_run {
            v.push(HookAction::PostRun);
        }
        assert(v@ =~= start_actions(self.hooks));
        v
    }

    /// Takes the outcome of the init hook: on success the service starts,
    /// on failure it stays uninitialized and is retried on a later tick.
    pub fn init_finished(&mut self, succeeded: bool) -> (r: Vec<HookAction>)
        ensures
            succeeded ==> r@ == start_actions(old(self).hooks) && final(self).initialized
                && final(self).process_state == ProcessState::Up,
            !succeeded ==> r@.len() == 0 && *final(self) == *old(self),
            final(self).topology == old(self).topology,
            final(self).hooks == old(self).hooks,
    {
        if succeeded {
            self.begin_running()
        } else {
            Vec::new()
        }
    }

    /// Records that the process was found not running.
    pub fn process_exited(&mut self)
        ensures
            final(self).process_state == ProcessState::Down,
            final(self).initialized == old(self).initialized,
            final(self).topology == old(self).topology,
            final(self).hooks == old(self).hooks,
    {
        self.process_state = ProcessState::Down;
    }

    /// Records a stop of the service: its process is terminated and it
    /// will be initialized anew.
    pub fn stopped(&mut self)
        ensures
            final(self).process_state == ProcessState::Down,
            !final(self).initialized,
            final(self).topology == old(self).topology,
            final(self).hooks == old(self).hooks,
    {
        self.process_state = ProcessState::Down;
        self.initialized = false;
    }

    /// The service's suitability for leadership: none until it is
    /// initialized, otherwise what its suitability hook reported, if it
    /// has one.
    pub fn suitability(&self, hook_report: Option<u64>) -> (r: Option<u64>)
        ensures
            r == (if self.initialized && self.hooks.suitability {
                hook_report
            } else {
                None::<u64>
            }),
    {
        if self.initialized && self.hooks.suitability {
            hook_report
        } else {
            None
        }
    }

    /// The health to record when the service has no health-check hook:
    /// healthy while its process is up, critical otherwise.
    pub fn health_without_hook(&self) -> (r: HealthCheck)
        ensures
            r == (if self.process_state == ProcessState::Up {
                HealthCheck::Healthy
            } else {
                HealthCheck::Critical
            }),
    {
        if self.process_state == ProcessState::Up {
            HealthCheck::Healthy
        } else {
            HealthCheck::Critical
        }
    }
}

} // verus!
