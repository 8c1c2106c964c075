//! Small enumerations that describe a service's state and declared
//! behaviour, with their textual forms.
use vstd::prelude::*;
use crate::text::text_eq;

verus! {

/// Where the election of a service group's leader stands.
#[derive(Clone, Copy, Debug, PartialEq, Eq, Structural)]
pub enum ElectionStatus {
    NoElection,
    ElectionInProgress,
    ElectionNoQuorum,
    ElectionFinished,
}

impl Default for ElectionStatus {
    fn default() -> (r: ElectionStatus)
        ensures
            r == ElectionStatus::NoElection,
    {
        ElectionStatus::NoElection
    }
}

impl ElectionStatus {

    /// The name of the status, as it is displayed.
    pub fn as_str(&self) -> (r: &str)
        ensures
            r@ == (match *self {
                ElectionStatus::ElectionInProgress => "in-progress"@,
                ElectionStatus::ElectionNoQuorum => "no-quorum"@,
                ElectionStatus::ElectionFinished => "finished"@,
                ElectionStatus::NoElection => "none"@,
            }),
    {
        match *self {
            ElectionStatus::ElectionInProgress => "in-progress",
            ElectionStatus::ElectionNoQuorum => "no-quorum",
            ElectionStatus::ElectionFinished => "finished",
            ElectionStatus::NoElection => "none",
        }
    }
}

/// The outcome of a health check, by the exit code of the check.
#[derive(Clone, Copy, Debug, PartialEq, Eq, Structural)]
pub enum HealthCheck {
    Healthy,
    Warning,
    Critical,
    Unknown,
}

impl Default for HealthCheck {
    fn default() -> (r: HealthCheck)
        ensures
            r == HealthCheck::Unknown,
    {
        HealthCheck::Unknown
    }
}

impl HealthCheck {

    /// The health that a check's exit code reports: 0 is ok, 1 a warning,
    /// 2 critical, anything else unknown.
    pub fn from_exit_code(code: i32) -> (r: HealthCheck)
        ensures
            r == (if code == 0 {
                HealthCheck::Healthy
            } else if code == 1 {
                HealthCheck::Warning
            } else if code == 2 {
                HealthCheck::Critical
            } else {
                HealthCheck::Unknown
            }),
    {
        if code == 0 {
            HealthCheck::Healthy
        } else if code == 1 {
            HealthCheck::Warning
        } else if code == 2 {
            HealthCheck::Critical
        } else {
            HealthCheck::Unknown
        }
    }

    /// The HTTP status that the gateway answers a health query with.
    pub fn http_status(&self) -> (r: u16)
        ensures
            r == (match *self {
                HealthCheck::Healthy | HealthCheck::Warning => 200u16,
                HealthCheck::Critical => 503u16,
                HealthCheck::Unknown => 500u16,
            }),
    {
        match *self {
            HealthCheck::Healthy | HealthCheck::Warning => 200,
            HealthCheck::Critical => 503,
            HealthCheck::Unknown => 500,
        }
    }
}

/// Whether a service's process runs.
#[derive(Clone, Copy, Debug, PartialEq, Eq, Structural)]
pub enum ProcessState {
    Down,
    Up,
}

impl ProcessState {
    pub fn as_str(&self) -> (r: &str)
        ensures
            r@ == (match *self {
                ProcessState::Down => "down"@,
                ProcessState::Up => "up"@,
            }),
    {
        match *self {
            ProcessState::Down => "down",
            ProcessState::Up => "up",
        }
    }
}

/// The result of a smoke check after a start.
#[derive(Clone, Copy, Debug, PartialEq, Eq, Structural)]
pub enum SmokeCheck {
    Passed,
    Failed(i32),
    Pending,
}

impl Default for SmokeCheck {
    fn default() -> (r: SmokeCheck)
        ensures
            r == SmokeCheck::Pending,
    {
        SmokeCheck::Pending
    }
}

/// Whether a service is restarted when it ends.
#[derive(Clone, Copy, Debug, PartialEq, Eq, Structural)]
pub enum StartStyle {
    Persistent,
    Transient,
}

impl Default for StartStyle {
    fn default() -> (r: StartStyle)
        ensures
            r == StartStyle::Transient,
    {
        StartStyle::Transient
    }
}

impl StartStyle {

    pub fn as_str(&self) -> (r: &str)
        ensures
            r@ == (match *self {
                StartStyle::Persistent => "persistent"@,
                StartStyle::Transient => "transient"@,
            }),
    {
        match *self {
            StartStyle::Persistent => "persistent",
            StartStyle::Transient => "transient",
        }
    }
}

/// Why a topology or an update strategy could not be read from text. Each
/// variant keeps the text that was given.
#[derive(Debug)]
pub enum ParseError {
    InvalidTopology(String),
    InvalidUpdateStrategy(String),
}

/// How the members of a service group coordinate.
#[derive(Clone, Copy, Debug, PartialEq, Eq, Structural)]
pub enum Topology {
    Standalone,
    Leader,
}

/// The topology a text names, if any.
pub open spec fn topology_named(t: Seq<char>) -> Option<Topology> {
    if t == "standalone"@ {
        Some(Topology::Standalone)
    } else if t == "leader"@ {
        Some(Topology::Leader)
    } else {
        None
    }
}

impl Default for Topology {
    fn default() -> (r: Topology)
        ensures
            r == Topology::Standalone,
    {
        Topology::Standalone
    }
}

impl Topology {

    pub open spec fn name(&self) -> Seq<char> {
        match *self {
            Topology::Leader => "leader"@,
            Topology::Standalone => "standalone"@,
        }
    }

    pub fn as_str(&self) -> (r: &str)
        ensures
            r@ == self.name(),
    {
        match *self {
            Topology::Leader => "leader",
            Topology::Standalone => "standalone",
        }
    }

    pub fn to_string(&self) -> (r: String)
        ensures
            r@ == self.name(),
    {
        self.as_str().to_owned()
    }

    /// Reads a topology from its name; any other text is refused with the
    /// text itself.
    pub fn from_str(value: &str) -> (r: Result<Topology, ParseError>)
        ensures
            match r {
                Ok(t) => topology_named(value@) == Some(t),
                Err(ParseError::InvalidTopology(s)) => topology_named(value@).is_none() && s@
                    == value@,
                Err(_) => false,
            },
    {
        proof {
            reveal_strlit("standalone");
            reveal_strlit("leader");
        }
        if text_eq(value, "standalone") {
            Ok(Topology::Standalone)
        } else if text_eq(value, "leader") {
            Ok(Topology::Leader)
        } else {
            Err(ParseError::InvalidTopology(value.to_owned()))
        }
    }
}

/// How a service group takes a new package release.
#[derive(Clone, Copy, Debug, PartialEq, Eq, Structural)]
pub enum UpdateStrategy {
    NoUpdate,
    AtOnce,
    Rolling,
}

/// The update strategy a text names, if any.
pub open spec fn strategy_named(t: Seq<char>) -> Option<UpdateStrategy> {
    if t == "none"@ {
        Some(UpdateStrategy::NoUpdate)
    } else if t == "at-once"@ {
        Some(UpdateStrategy::AtOnce)
    } else if t == "rolling"@ {
        Some(UpdateStrategy::Rolling)
    } else {
        None
    }
}

impl Default for UpdateStrategy {
    fn default() -> (r: UpdateStrategy)
        ensures
            r == UpdateStrategy::NoUpdate,
    {
        UpdateStrategy::NoUpdate
    }
}

impl UpdateStrategy {

    pub open spec fn name(&self) -> Seq<char> {
        match *self {
            UpdateStrategy::NoUpdate => "none"@,
            UpdateStrategy::AtOnce => "at-once"@,
            UpdateStrategy::Rolling => "rolling"@,
        }
    }

    pub fn as_str(&self) -> (r: &str)
        ensures
            r@ == self.name(),
    {
        match *self {
            UpdateStrategy::NoUpdate => "none",
            UpdateStrategy::AtOnce => "at-once",
            UpdateStrategy::Rolling => "rolling",
        }
    }

    pub fn to_string(&self) -> (r: String)
        ensures
            r@ == self.name(),
    {
        self.as_str().to_owned()
    }

    /// Reads an update strategy from its name; any other text is refused
    /// with the text itself.
    pub fn from_str(value: &str) -> (r: Result<UpdateStrategy, ParseError>)
        ensures
            match r {
                Ok(t) => strategy_named(value@) == Some(t),
                Err(ParseError::InvalidUpdateStrategy(s)) => strategy_named(value@).is_none()
                    && s@ == value@,
                Err(_) => false,
            },
    {
        proof {
            reveal_strlit("none");
            reveal_strlit("at-once");
            reveal_strlit("rolling");
        }
        if text_eq(value, "none") {
            Ok(UpdateStrategy::NoUpdate)
        } else if text_eq(value, "at-once") {
            Ok(UpdateStrategy::AtOnce)
        } else if text_eq(value, "rolling") {
            Ok(UpdateStrategy::Rolling)
        } else {
            Err(ParseError::InvalidUpdateStrategy(value.to_owned()))
        }
    }
}

} // verus!
