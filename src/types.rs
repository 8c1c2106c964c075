//! Protocol messages that describe services, their package identities and
//! their bindings, as exchanged between the supervisor and its control clients.
//!
//! Every field of a message is optional. A getter returns the field's default
//! when it is absent; `has_*` tells the two cases apart.
use vstd::prelude::*;

verus! {

/// The text held by an optional field, or `d` when it is absent.
pub open spec fn text_or(o: Option<Seq<char>>, d: Seq<char>) -> Seq<char> {
    match o {
        Some(v) => v,
        None => d,
    }
}

/// The encoding of a service's default configuration.
#[allow(non_camel_case_types)]
#[derive(Clone, Copy, Debug, PartialEq, Eq, Structural)]
pub enum ServiceCfg_Format {
    TOML,
}

/// Where a package to load comes from.
#[derive(Clone, Copy, Debug, PartialEq, Eq, Structural)]
pub enum InstallSource {
    Ident,
    Archive,
}

/// Whether a service's process runs.
#[derive(Clone, Copy, Debug, PartialEq, Eq, Structural)]
pub enum ProcessState {
    Down,
    Up,
}

/// How the members of a service group coordinate.
#[derive(Clone, Copy, Debug, PartialEq, Eq, Structural)]
pub enum Topology {
    Standalone,
    Leader,
}

/// How a service group takes a new package release.
#[derive(Clone, Copy, Debug, PartialEq, Eq, Structural)]
pub enum UpdateStrategy {
    NoUpdate,
    AtOnce,
    Rolling,
}

/// Whether unresolved binds hold back a service's start.
#[derive(Clone, Copy, Debug, PartialEq, Eq, Structural)]
pub enum BindingMode {
    Relaxed,
    Strict,
}

/// A package's application and environment pairing.
pub struct ApplicationEnvironment {
    application: Option<String>,
    environment: Option<String>,
}

/// The abstract content of a [`ApplicationEnvironment`]: each optional field as present or absent.
pub struct ApplicationEnvironmentView {
    pub application: Option<Seq<char>>,
    pub environment: Option<Seq<char>>,
}

impl View for ApplicationEnvironment {
    type V = ApplicationEnvironmentView;

    closed spec fn view(&self) -> ApplicationEnvironmentView {
        ApplicationEnvironmentView {
            application: match self.application { Some(v) => Some(v@), None => None },
            environment: match self.environment { Some(v) => Some(v@), None => None },
        }
    }
}

impl Clone for ApplicationEnvironment {
    fn clone(&self) -> (r: Self)
        ensures
            r@ == self@,
    {
        let application = match &self.application {
            Some(v) => Some(v.clone()),
            None => None,
        };
        let environment = match &self.environment {
            Some(v) => Some(v.clone()),
            None => None,
        };
        let r = ApplicationEnvironment { application, environment };
        r
    }
}

impl ApplicationEnvironment {
    /// A message with every field absent.
    pub fn new() -> (r: ApplicationEnvironment)
        ensures
            r@ == ApplicationEnvironment::empty_view(),
    {
        let r = ApplicationEnvironment { application: None, environment: None };
        r
    }

    pub fn clear_application(&mut self)
        ensures
            (final(self)@ == ApplicationEnvironmentView { application: None, ..old(self)@ }),
    {
        self.application = None;
    }

    pub fn has_application(&self) -> (r: bool)
        ensures
            r == self@.application.is_some(),
    {
        self.application.is_some()
    }

    pub fn set_application(&mut self, v: String)
        ensures
            (final(self)@ == ApplicationEnvironmentView { application: Some(v@), ..old(self)@ }),
    {
        self.application = Some(v);
    }

    /// The field, first set to the empty string when absent.
    pub fn mut_application(&mut self) -> (r: &mut String)
        ensures
            r@ == text_or(old(self)@.application, Seq::empty()),
            (final(self)@ == ApplicationEnvironmentView { application: Some(final(r)@), ..old(self)@ }),
    {
        self.application.get_or_insert(String::new())
    }

    pub fn take_application(&mut self) -> (r: String)
        ensures
            r@ == text_or(old(self)@.application, Seq::empty()),
            (final(self)@ == ApplicationEnvironmentView { application: None, ..old(self)@ }),
    {
        match self.application.take() {
            Some(v) => v,
            None => String::new(),
        }
    }

    pub fn get_application(&self) -> (r: &str)
        ensures
            r@ == text_or(self@.application, ""@),
    {
        match &self.application {
            Some(v) => v.as_str(),
            None => "",
        }
    }

    pub fn clear_environment(&mut self)
        ensures
            (final(self)@ == ApplicationEnvironmentView { environment: None, ..old(self)@ }),
    {
        self.environment = None;
    }

    pub fn has_environment(&self) -> (r: bool)
        ensures
            r == self@.environment.is_some(),
    {
        self.environment.is_some()
    }

    pub fn set_environment(&mut self, v: String)
        ensures
            (final(self)@ == ApplicationEnvironmentView { environment: Some(v@), ..old(self)@ }),
    {
        self.environment = Some(v);
    }

    /// The field, first set to the empty string when absent.
    pub fn mut_environment(&mut self) -> (r: &mut String)
        ensures
            r@ == text_or(old(self)@.environment, Seq::empty()),
            (final(self)@ == ApplicationEnvironmentView { environment: Some(final(r)@), ..old(self)@ }),
    {
        self.environment.get_or_insert(String::new())
    }

    pub fn take_environment(&mut self) -> (r: String)
        ensures
            r@ == text_or(old(self)@.environment, Seq::empty()),
            (final(self)@ == ApplicationEnvironmentView { environment: None, ..old(self)@ }),
    {
        match self.environment.take() {
            Some(v) => v,
            None => String::new(),
        }
    }

    pub fn get_environment(&self) -> (r: &str)
        ensures
            r@ == text_or(self@.environment, "default"@),
    {
        match &self.environment {
            Some(v) => v.as_str(),
            None => "default",
        }
    }

    /// The content of a message with every field absent.
    pub open spec fn empty_view() -> ApplicationEnvironmentView {
        ApplicationEnvironmentView {
            application: None,
            environment: None,
        }
    }
}

/// A package identifier: origin, name, and optionally version and release.
pub struct PackageIdent {
    origin: Option<String>,
    name: Option<String>,
    version: Option<String>,
    release: Option<String>,
}

/// The abstract content of a [`PackageIdent`]: each optional field as present or absent.
pub struct PackageIdentView {
    pub origin: Option<Seq<char>>,
    pub name: Option<Seq<char>>,
    pub version: Option<Seq<char>>,
    pub release: Option<Seq<char>>,
}

impl View for PackageIdent {
    type V = PackageIdentView;

    closed spec fn view(&self) -> PackageIdentView {
        PackageIdentView {
            origin: match self.origin { Some(v) => Some(v@), None => None },
            name: match self.name { Some(v) => Some(v@), None => None },
            version: match self.version { Some(v) => Some(v@), None => None },
            release: match self.release { Some(v) => Some(v@), None => None },
        }
    }
}

impl Clone for PackageIdent {
    fn clone(&self) -> (r: Self)
        ensures
            r@ == self@,
    {
        let origin = match &self.origin {
            Some(v) => Some(v.clone()),
            None => None,
        };
        let name = match &self.name {
            Some(v) => Some(v.clone()),
            None => None,
        };
        let version = match &self.version {
            Some(v) => Some(v.clone()),
            None => None,
        };
        let release = match &self.release {
            Some(v) => Some(v.clone()),
            None => None,
        };
        let r = PackageIdent { origin, name, version, release };
        r
    }
}

impl PackageIdent {
    /// A message with every field absent.
    pub fn new() -> (r: PackageIdent)
        ensures
            r@ == PackageIdent::empty_view(),
    {
        let r = PackageIdent { origin: None, name: None, version: None, release: None };
        r
    }

    pub fn clear_origin(&mut self)
        ensures
            (final(self)@ == PackageIdentView { origin: None, ..old(self)@ }),
    {
        self.origin = None;
    }

    pub fn has_origin(&self) -> (r: bool)
        ensures
            r == self@.origin.is_some(),
    {
        self.origin.is_some()
    }

    pub fn set_origin(&mut self, v: String)
        ensures
            (final(self)@ == PackageIdentView { origin: Some(v@), ..old(self)@ }),
    {
        self.origin = Some(v);
    }

    /// The field, first set to the empty string when absent.
    pub fn mut_origin(&mut self) -> (r: &mut String)
        ensures
            r@ == text_or(old(self)@.origin, Seq::empty()),
            (final(self)@ == PackageIdentView { origin: Some(final(r)@), ..old(self)@ }),
    {
        self.origin.get_or_insert(String::new())
    }

    pub fn take_origin(&mut self) -> (r: String)
        ensures
            r@ == text_or(old(self)@.origin, Seq::empty()),
            (final(self)@ == PackageIdentView { origin: None, ..old(self)@ }),
    {
        match self.origin.take() {
            Some(v) => v,
            None => String::new(),
        }
    }

    pub fn get_origin(&self) -> (r: &str)
        ensures
            r@ == text_or(self@.origin, ""@),
    {
        match &self.origin {
            Some(v) => v.as_str(),
            None => "",
        }
    }

    pub fn clear_name(&mut self)
        ensures
            (final(self)@ == PackageIdentView { name: None, ..old(self)@ }),
    {
        self.name = None;
    }

    pub fn has_name(&self) -> (r: bool)
        ensures
            r == self@.name.is_some(),
    {
        self.name.is_some()
    }

    pub fn set_name(&mut self, v: String)
        ensures
            (final(self)@ == PackageIdentView { name: Some(v@), ..old(self)@ }),
    {
        self.name = Some(v);
    }

    /// The field, first set to the empty string when absent.
    pub fn mut_name(&mut self) -> (r: &mut String)
        ensures
            r@ == text_or(old(self)@.name, Seq::empty()),
            (final(self)@ == PackageIdentView { name: Some(final(r)@), ..old(self)@ }),
    {
        self.name.get_or_insert(String::new())
    }

    pub fn take_name(&mut self) -> (r: String)
        ensures
            r@ == text_or(old(self)@.name, Seq::empty()),
            (final(self)@ == PackageIdentView { name: None, ..old(self)@ }),
    {
        match self.name.take() {
            Some(v) => v,
            None => String::new(),
        }
    }

    pub fn get_name(&self) -> (r: &str)
        ensures
            r@ == text_or(self@.name, ""@),
    {
        match &self.name {
            Some(v) => v.as_str(),
            None => "",
        }
    }

    pub fn clear_version(&mut self)
        ensures
            (final(self)@ == PackageIdentView { version: None, ..old(self)@ }),
    {
        self.version = None;
    }

    pub fn has_version(&self) -> (r: bool)
        ensures
            r == self@.version.is_some(),
    {
        self.version.is_some()
    }

    pub fn set_version(&mut self, v: String)
        ensures
            (final(self)@ == PackageIdentView { version: Some(v@), ..old(self)@ }),
    {
        self.version = Some(v);
    }

    /// The field, first set to the empty string when absent.
    pub fn mut_version(&mut self) -> (r: &mut String)
        ensures
            r@ == text_or(old(self)@.version, Seq::empty()),
            (final(self)@ == PackageIdentView { version: Some(final(r)@), ..old(self)@ }),
    {
        self.version.get_or_insert(String::new())
    }

    pub fn take_version(&mut self) -> (r: String)
        ensures
            r@ == text_or(old(self)@.version, Seq::empty()),
            (final(self)@ == PackageIdentView { version: None, ..old(self)@ }),
    {
        match self.version.take() {
            Some(v) => v,
            None => String::new(),
        }
    }

    pub fn get_version(&self) -> (r: &str)
        ensures
            r@ == text_or(self@.version, ""@),
    {
        match &self.version {
            Some(v) => v.as_str(),
            None => "",
        }
    }

    pub fn clear_release(&mut self)
        ensures
            (final(self)@ == PackageIdentView { release: None, ..old(self)@ }),
    {
        self.release = None;
    }

    pub fn has_release(&self) -> (r: bool)
        ensures
            r == self@.release.is_some(),
    {
        self.release.is_some()
    }

    pub fn set_release(&mut self, v: String)
        ensures
            (final(self)@ == PackageIdentView { release: Some(v@), ..old(self)@ }),
    {
        self.release = Some(v);
    }

    /// The field, first set to the empty string when absent.
    pub fn mut_release(&mut self) -> (r: &mut String)
        ensures
            r@ == text_or(old(self)@.release, Seq::empty()),
            (final(self)@ == PackageIdentView { release: Some(final(r)@), ..old(self)@ }),
    {
        self.release.get_or_insert(String::new())
    }

    pub fn take_release(&mut self) -> (r: String)
        ensures
            r@ == text_or(old(self)@.release, Seq::empty()),
            (final(self)@ == PackageIdentView { release: None, ..old(self)@ }),
    {
        match self.release.take() {
            Some(v) => v,
            None => String::new(),
        }
    }

    pub fn get_release(&self) -> (r: &str)
        ensures
            r@ == text_or(self@.release, ""@),
    {
        match &self.release {
            Some(v) => v.as_str(),
            None => "",
        }
    }

    /// The content of a message with every field absent.
    pub open spec fn empty_view() -> PackageIdentView {
        PackageIdentView {
            origin: None,
            name: None,
            version: None,
            release: None,
        }
    }
}

/// The state of a service's process and how long it has held it.
pub struct ProcessStatus {
    elapsed: Option<i64>,
    pid: Option<u32>,
    state: Option<ProcessState>,
}

/// The abstract content of a [`ProcessStatus`]: each optional field as present or absent.
pub struct ProcessStatusView {
    pub elapsed: Option<i64>,
    pub pid: Option<u32>,
    pub state: Option<ProcessState>,
}

impl View for ProcessStatus {
    type V = ProcessStatusView;

    closed spec fn view(&self) -> ProcessStatusView {
        ProcessStatusView {
            elapsed: self.elapsed,
            pid: self.pid,
            state: self.state,
        }
    }
}

impl Clone for ProcessStatus {
    fn clone(&self) -> (r: Self)
        ensures
            r@ == self@,
    {
        let elapsed = self.elapsed;
        let pid = self.pid;
        let state = self.state;
        let r = ProcessStatus { elapsed, pid, state };
        r
    }
}

impl ProcessStatus {
    /// A message with every field absent.
    pub fn new() -> (r: ProcessStatus)
        ensures
            r@ == ProcessStatus::empty_view(),
    {
        let r = ProcessStatus { elapsed: None, pid: None, state: None };
        r
    }

    pub fn clear_elapsed(&mut self)
        ensures
            (final(self)@ == ProcessStatusView { elapsed: None, ..old(self)@ }),
    {
        self.elapsed = None;
    }

    pub fn has_elapsed(&self) -> (r: bool)
        ensures
            r == self@.elapsed.is_some(),
    {
        self.elapsed.is_some()
    }

    pub fn set_elapsed(&mut self, v: i64)
        ensures
            (final(self)@ == ProcessStatusView { elapsed: Some(v), ..old(self)@ }),
    {
        self.elapsed = Some(v);
    }

    pub fn get_elapsed(&self) -> (r: i64)
        ensures
            r == self@.elapsed.unwrap_or(0),
    {
        match self.elapsed {
            Some(v) => v,
            None => 0,
        }
    }

    pub fn clear_pid(&mut self)
        ensures
            (final(self)@ == ProcessStatusView { pid: None, ..old(self)@ }),
    {
        self.pid = None;
    }

    pub fn has_pid(&self) -> (r: bool)
        ensures
            r == self@.pid.is_some(),
    {
        self.pid.is_some()
    }

    pub fn set_pid(&mut self, v: u32)
        ensures
            (final(self)@ == ProcessStatusView { pid: Some(v), ..old(self)@ }),
    {
        self.pid = Some(v);
    }

    pub fn get_pid(&self) -> (r: u32)
        ensures
            r == self@.pid.unwrap_or(0),
    {
        match self.pid {
            Some(v) => v,
            None => 0,
        }
    }

    pub fn clear_state(&mut self)
        ensures
            (final(self)@ == ProcessStatusView { state: None, ..old(self)@ }),
    {
        self.state = None;
    }

    pub fn has_state(&self) -> (r: bool)
        ensures
            r == self@.state.is_some(),
    {
        self.state.is_some()
    }

    pub fn set_state(&mut self, v: ProcessState)
        ensures
            (final(self)@ == ProcessStatusView { state: Some(v), ..old(self)@ }),
    {
        self.state = Some(v);
    }

    pub fn get_state(&self) -> (r: ProcessState)
        ensures
            r == self@.state.unwrap_or(ProcessState::Down),
    {
        match self.state {
            Some(v) => v,
            None => ProcessState::Down,
        }
    }

    /// The content of a message with every field absent.
    pub open spec fn empty_view() -> ProcessStatusView {
        ProcessStatusView {
            elapsed: None,
            pid: None,
            state: None,
        }
    }
}

/// A service group: service, group, and optional application environment and organization.
pub struct ServiceGroup {
    service: Option<String>,
    group: Option<String>,
    application_environment: Option<ApplicationEnvironment>,
    organization: Option<String>,
}

/// The abstract content of a [`ServiceGroup`]: each optional field as present or absent.
pub struct ServiceGroupView {
    pub service: Option<Seq<char>>,
    pub group: Option<Seq<char>>,
    pub application_environment: Option<ApplicationEnvironmentView>,
    pub organization: Option<Seq<char>>,
}

impl View for ServiceGroup {
    type V = ServiceGroupView;

    closed spec fn view(&self) -> ServiceGroupView {
        ServiceGroupView {
            service: match self.service { Some(v) => Some(v@), None => None },
            group: match self.group { Some(v) => Some(v@), None => None },
            application_environment: match self.application_environment { Some(v) => Some(v@), None => None },
            organization: match self.organization { Some(v) => Some(v@), None => None },
        }
    }
}

impl Clone for ServiceGroup {
    fn clone(&self) -> (r: Self)
        ensures
            r@ == self@,
    {
        let service = match &self.service {
            Some(v) => Some(v.clone()),
            None => None,
        };
        let group = match &self.group {
            Some(v) => Some(v.clone()),
            None => None,
        };
        let application_environment = match &self.application_environment {
            Some(v) => Some(v.clone()),
            None => None,
        };
        let organization = match &self.organization {
            Some(v) => Some(v.clone()),
            None => None,
        };
        let r = ServiceGroup { service, group, application_environment, organization };
        r
    }
}

impl ServiceGroup {
    /// A message with every field absent.
    pub fn new() -> (r: ServiceGroup)
        ensures
            r@ == ServiceGroup::empty_view(),
    {
        let r = ServiceGroup { service: None, group: None, application_environment: None, organization: None };
        r
    }

    pub fn clear_service(&mut self)
        ensures
            (final(self)@ == ServiceGroupView { service: None, ..old(self)@ }),
    {
        self.service = None;
    }

    pub fn has_service(&self) -> (r: bool)
        ensures
            r == self@.service.is_some(),
    {
        self.service.is_some()
    }

    pub fn set_service(&mut self, v: String)
        ensures
            (final(self)@ == ServiceGroupView { service: Some(v@), ..old(self)@ }),
    {
        self.service = Some(v);
    }

    /// The field, first set to the empty string when absent.
    pub fn mut_service(&mut self) -> (r: &mut String)
        ensures
            r@ == text_or(old(self)@.service, Seq::empty()),
            (final(self)@ == ServiceGroupView { service: Some(final(r)@), ..old(self)@ }),
    {
        self.service.get_or_insert(String::new())
    }

    pub fn take_service(&mut self) -> (r: String)
        ensures
            r@ == text_or(old(self)@.service, Seq::empty()),
            (final(self)@ == ServiceGroupView { service: None, ..old(self)@ }),
    {
        match self.service.take() {
            Some(v) => v,
            None => String::new(),
        }
    }

    pub fn get_service(&self) -> (r: &str)
        ensures
            r@ == text_or(self@.service, ""@),
    {
        match &self.service {
            Some(v) => v.as_str(),
            None => "",
        }
    }

    pub fn clear_group(&mut self)
        ensures
            (final(self)@ == ServiceGroupView { group: None, ..old(self)@ }),
    {
        self.group = None;
    }

    pub fn has_group(&self) -> (r: bool)
        ensures
            r == self@.group.is_some(),
    {
        self.group.is_some()
    }

    pub fn set_group(&mut self, v: String)
        ensures
            (final(self)@ == ServiceGroupView { group: Some(v@), ..old(self)@ }),
    {
        self.group = Some(v);
    }

    /// The field, first set to the empty string when absent.
    pub fn mut_group(&mut self) -> (r: &mut String)
        ensures
            r@ == text_or(old(self)@.group, Seq::empty()),
            (final(self)@ == ServiceGroupView { group: Some(final(r)@), ..old(self)@ }),
    {
        self.group.get_or_insert(String::new())
    }

    pub fn take_group(&mut self) -> (r: String)
        ensures
            r@ == text_or(old(self)@.group, Seq::empty()),
            (final(self)@ == ServiceGroupView { group: None, ..old(self)@ }),
    {
        match self.group.take() {
            Some(v) => v,
            None => String::new(),
        }
    }

    pub fn get_group(&self) -> (r: &str)
        ensures
            r@ == text_or(self@.group, "default"@),
    {
        match &self.group {
            Some(v) => v.as_str(),
            None => "default",
        }
    }

    pub fn clear_application_environment(&mut self)
        ensures
            (final(self)@ == ServiceGroupView { application_environment: None, ..old(self)@ }),
    {
        self.application_environment = None;
    }

    pub fn has_application_environment(&self) -> (r: bool)
        ensures
            r == self@.application_environment.is_some(),
    {
        self.application_environment.is_some()
    }

    pub fn set_application_environment(&mut self, v: ApplicationEnvironment)
        ensures
            (final(self)@ == ServiceGroupView { application_environment: Some(v@), ..old(self)@ }),
    {
        self.application_environment = Some(v);
    }

    /// The field, first set to an empty message when absent.
    pub fn mut_application_environment(&mut self) -> (r: &mut ApplicationEnvironment)
        ensures
            r@ == old(self)@.application_environment.unwrap_or(ApplicationEnvironment::empty_view()),
            (final(self)@ == ServiceGroupView { application_environment: Some(final(r)@), ..old(self)@ }),
    {
        self.application_environment.get_or_insert(ApplicationEnvironment::new())
    }

    pub fn take_application_environment(&mut self) -> (r: ApplicationEnvironment)
        ensures
            r@ == old(self)@.application_environment.unwrap_or(ApplicationEnvironment::empty_view()),
            (final(self)@ == ServiceGroupView { application_environment: None, ..old(self)@ }),
    {
        match self.application_environment.take() {
            Some(v) => v,
            None => ApplicationEnvironment::new(),
        }
    }

    /// A copy of the field, or an empty message when absent.
    pub fn get_application_environment(&self) -> (r: ApplicationEnvironment)
        ensures
            r@ == self@.application_environment.unwrap_or(ApplicationEnvironment::empty_view()),
    {
        match &self.application_environment {
            Some(v) => v.clone(),
            None => ApplicationEnvironment::new(),
        }
    }

    pub fn clear_organization(&mut self)
        ensures
            (final(self)@ == ServiceGroupView { organization: None, ..old(self)@ }),
    {
        self.organization = None;
    }

    pub fn has_organization(&self) -> (r: bool)
        ensures
            r == self@.organization.is_some(),
    {
        self.organization.is_some()
    }

    pub fn set_organization(&mut self, v: String)
        ensures
            (final(self)@ == ServiceGroupView { organization: Some(v@), ..old(self)@ }),
    {
        self.organization = Some(v);
    }

    /// The field, first set to the empty string when absent.
    pub fn mut_organization(&mut self) -> (r: &mut String)
        ensures
            r@ == text_or(old(self)@.organization, Seq::empty()),
            (final(self)@ == ServiceGroupView { organization: Some(final(r)@), ..old(self)@ }),
    {
        self.organization.get_or_insert(String::new())
    }

    pub fn take_organization(&mut self) -> (r: String)
        ensures
            r@ == text_or(old(self)@.organization, Seq::empty()),
            (final(self)@ == ServiceGroupView { organization: None, ..old(self)@ }),
    {
        match self.organization.take() {
            Some(v) => v,
            None => String::new(),
        }
    }

    pub fn get_organization(&self) -> (r: &str)
        ensures
            r@ == text_or(self@.organization, ""@),
    {
        match &self.organization {
            Some(v) => v.as_str(),
            None => "",
        }
    }

    /// The content of a message with every field absent.
    pub open spec fn empty_view() -> ServiceGroupView {
        ServiceGroupView {
            service: None,
            group: None,
            application_environment: None,
            organization: None,
        }
    }
}

/// A named dependency of one service on a service group.
pub struct ServiceBind {
    name: Option<String>,
    service_group: Option<ServiceGroup>,
    service_name: Option<String>,
}

/// The abstract content of a [`ServiceBind`]: each optional field as present or absent.
pub struct ServiceBindView {
    pub name: Option<Seq<char>>,
    pub service_group: Option<ServiceGroupView>,
    pub service_name: Option<Seq<char>>,
}

impl View for ServiceBind {
    type V = ServiceBindView;

    closed spec fn view(&self) -> ServiceBindView {
        ServiceBindView {
            name: match self.name { Some(v) => Some(v@), None => None },
            service_group: match self.service_group { Some(v) => Some(v@), None => None },
            service_name: match self.service_name { Some(v) => Some(v@), None => None },
        }
    }
}

impl Clone for ServiceBind {
    fn clone(&self) -> (r: Self)
        ensures
            r@ == self@,
    {
        let name = match &self.name {
            Some(v) => Some(v.clone()),
            None => None,
        };
        let service_group = match &self.service_group {
            Some(v) => Some(v.clone()),
            None => None,
        };
        let service_name = match &self.service_name {
            Some(v) => Some(v.clone()),
            None => None,
        };
        let r = ServiceBind { name, service_group, service_name };
        r
    }
}

impl ServiceBind {
    /// A message with every field absent.
    pub fn new() -> (r: ServiceBind)
        ensures
            r@ == ServiceBind::empty_view(),
    {
        let r = ServiceBind { name: None, service_group: None, service_name: None };
        r
    }

    pub fn clear_name(&mut self)
        ensures
            (final(self)@ == ServiceBindView { name: None, ..old(self)@ }),
    {
        self.name = None;
    }

    pub fn has_name(&self) -> (r: bool)
        ensures
            r == self@.name.is_some(),
    {
        self.name.is_some()
    }

    pub fn set_name(&mut self, v: String)
        ensures
            (final(self)@ == ServiceBindView { name: Some(v@), ..old(self)@ }),
    {
        self.name = Some(v);
    }

    /// The field, first set to the empty string when absent.
    pub fn mut_name(&mut self) -> (r: &mut String)
        ensures
            r@ == text_or(old(self)@.name, Seq::empty()),
            (final(self)@ == ServiceBindView { name: Some(final(r)@), ..old(self)@ }),
    {
        self.name.get_or_insert(String::new())
    }

    pub fn take_name(&mut self) -> (r: String)
        ensures
            r@ == text_or(old(self)@.name, Seq::empty()),
            (final(self)@ == ServiceBindView { name: None, ..old(self)@ }),
    {
        match self.name.take() {
            Some(v) => v,
            None => String::new(),
        }
    }

    pub fn get_name(&self) -> (r: &str)
        ensures
            r@ == text_or(self@.name, ""@),
    {
        match &self.name {
            Some(v) => v.as_str(),
            None => "",
        }
    }

    pub fn clear_service_group(&mut self)
        ensures
            (final(self)@ == ServiceBindView { service_group: None, ..old(self)@ }),
    {
        self.service_group = None;
    }

    pub fn has_service_group(&self) -> (r: bool)
        ensures
            r == self@.service_group.is_some(),
    {
        self.service_group.is_some()
    }

    pub fn set_service_group(&mut self, v: ServiceGroup)
        ensures
            (final(self)@ == ServiceBindView { service_group: Some(v@), ..old(self)@ }),
    {
        self.service_group = Some(v);
    }

    /// The field, first set to an empty message when absent.
    pub fn mut_service_group(&mut self) -> (r: &mut ServiceGroup)
        ensures
            r@ == old(self)@.service_group.unwrap_or(ServiceGroup::empty_view()),
            (final(self)@ == ServiceBindView { service_group: Some(final(r)@), ..old(self)@ }),
    {
        self.service_group.get_or_insert(ServiceGroup::new())
    }

    pub fn take_service_group(&mut self) -> (r: ServiceGroup)
        ensures
            r@ == old(self)@.service_group.unwrap_or(ServiceGroup::empty_view()),
            (final(self)@ == ServiceBindView { service_group: None, ..old(self)@ }),
    {
        match self.service_group.take() {
            Some(v) => v,
            None => ServiceGroup::new(),
        }
    }

    /// A copy of the field, or an empty message when absent.
    pub fn get_service_group(&self) -> (r: ServiceGroup)
        ensures
            r@ == self@.service_group.unwrap_or(ServiceGroup::empty_view()),
    {
        match &self.service_group {
            Some(v) => v.clone(),
            None => ServiceGroup::new(),
        }
    }

    pub fn clear_service_name(&mut self)
        ensures
            (final(self)@ == ServiceBindView { service_name: None, ..old(self)@ }),
    {
        self.service_name = None;
    }

    pub fn has_service_name(&self) -> (r: bool)
        ensures
            r == self@.service_name.is_some(),
    {
        self.service_name.is_some()
    }

    pub fn set_service_name(&mut self, v: String)
        ensures
            (final(self)@ == ServiceBindView { service_name: Some(v@), ..old(self)@ }),
    {
        self.service_name = Some(v);
    }

    /// The field, first set to the empty string when absent.
    pub fn mut_service_name(&mut self) -> (r: &mut String)
        ensures
            r@ == text_or(old(self)@.service_name, Seq::empty()),
            (final(self)@ == ServiceBindView { service_name: Some(final(r)@), ..old(self)@ }),
    {
        self.service_name.get_or_insert(String::new())
    }

    pub fn take_service_name(&mut self) -> (r: String)
        ensures
            r@ == text_or(old(self)@.service_name, Seq::empty()),
            (final(self)@ == ServiceBindView { service_name: None, ..old(self)@ }),
    {
        match self.service_name.take() {
            Some(v) => v,
            None => String::new(),
        }
    }

    pub fn get_service_name(&self) -> (r: &str)
        ensures
            r@ == text_or(self@.service_name, ""@),
    {
        match &self.service_name {
            Some(v) => v.as_str(),
            None => "",
        }
    }

    /// The content of a message with every field absent.
    pub open spec fn empty_view() -> ServiceBindView {
        ServiceBindView {
            name: None,
            service_group: None,
            service_name: None,
        }
    }
}

/// A service's default configuration in its encoded form.
pub struct ServiceCfg {
    format: Option<ServiceCfg_Format>,
    default: Option<String>,
}

/// The abstract content of a [`ServiceCfg`]: each optional field as present or absent.
pub struct ServiceCfgView {
    pub format: Option<ServiceCfg_Format>,
    pub default: Option<Seq<char>>,
}

impl View for ServiceCfg {
    type V = ServiceCfgView;

    closed spec fn view(&self) -> ServiceCfgView {
        ServiceCfgView {
            format: self.format,
            default: match self.default { Some(v) => Some(v@), None => None },
        }
    }
}

impl Clone for ServiceCfg {
    fn clone(&self) -> (r: Self)
        ensures
            r@ == self@,
    {
        let format = self.format;
        let default = match &self.default {
            Some(v) => Some(v.clone()),
            None => None,
        };
        let r = ServiceCfg { format, default };
        r
    }
}

impl ServiceCfg {
    /// A message with every field absent.
    pub fn new() -> (r: ServiceCfg)
        ensures
            r@ == ServiceCfg::empty_view(),
    {
        let r = ServiceCfg { format: None, default: None };
        r
    }

    pub fn clear_format(&mut self)
        ensures
            (final(self)@ == ServiceCfgView { format: None, ..old(self)@ }),
    {
        self.format = None;
    }

    pub fn has_format(&self) -> (r: bool)
        ensures
            r == self@.format.is_some(),
    {
        self.format.is_some()
    }

    pub fn set_format(&mut self, v: ServiceCfg_Format)
        ensures
            (final(self)@ == ServiceCfgView { format: Some(v), ..old(self)@ }),
    {
        self.format = Some(v);
    }

    pub fn get_format(&self) -> (r: ServiceCfg_Format)
        ensures
            r == self@.format.unwrap_or(ServiceCfg_Format::TOML),
    {
        match self.format {
            Some(v) => v,
            None => ServiceCfg_Format::TOML,
        }
    }

    pub fn clear_default(&mut self)
        ensures
            (final(self)@ == ServiceCfgView { default: None, ..old(self)@ }),
    {
        self.default = None;
    }

    pub fn has_default(&self) -> (r: bool)
        ensures
            r == self@.default.is_some(),
    {
        self.default.is_some()
    }

    pub fn set_default(&mut self, v: String)
        ensures
            (final(self)@ == ServiceCfgView { default: Some(v@), ..old(self)@ }),
    {
        self.default = Some(v);
    }

    /// The field, first set to the empty string when absent.
    pub fn mut_default(&mut self) -> (r: &mut String)
        ensures
            r@ == text_or(old(self)@.default, Seq::empty()),
            (final(self)@ == ServiceCfgView { default: Some(final(r)@), ..old(self)@ }),
    {
        self.default.get_or_insert(String::new())
    }

    pub fn take_default(&mut self) -> (r: String)
        ensures
            r@ == text_or(old(self)@.default, Seq::empty()),
            (final(self)@ == ServiceCfgView { default: None, ..old(self)@ }),
    {
        match self.default.take() {
            Some(v) => v,
            None => String::new(),
        }
    }

    pub fn get_default(&self) -> (r: &str)
        ensures
            r@ == text_or(self@.default, ""@),
    {
        match &self.default {
            Some(v) => v.as_str(),
            None => "",
        }
    }

    /// The content of a message with every field absent.
    pub open spec fn empty_view() -> ServiceCfgView {
        ServiceCfgView {
            format: None,
            default: None,
        }
    }
}

/// The declared intent for one service.
pub struct ServiceSpec {
    ident: Option<PackageIdent>,
    group: Option<String>,
    application_environment: Option<ApplicationEnvironment>,
    bldr_url: Option<String>,
    channel: Option<String>,
    topology: Option<Topology>,
    update_strategy: Option<UpdateStrategy>,
    binds: Vec<ServiceBind>,
    binding_mode: Option<BindingMode>,
    config_from: Option<String>,
    desired_state: Option<ProcessState>,
    svc_encrypted_password: Option<String>,
    composite: Option<String>,
}

/// The abstract content of a [`ServiceSpec`]: each optional field as present or absent.
pub struct ServiceSpecView {
    pub ident: Option<PackageIdentView>,
    pub group: Option<Seq<char>>,
    pub application_environment: Option<ApplicationEnvironmentView>,
    pub bldr_url: Option<Seq<char>>,
    pub channel: Option<Seq<char>>,
    pub topology: Option<Topology>,
    pub update_strategy: Option<UpdateStrategy>,
    pub binds: Seq<ServiceBindView>,
    pub binding_mode: Option<BindingMode>,
    pub config_from: Option<Seq<char>>,
    pub desired_state: Option<ProcessState>,
    pub svc_encrypted_password: Option<Seq<char>>,
    pub composite: Option<Seq<char>>,
}

impl View for ServiceSpec {
    type V = ServiceSpecView;

    closed spec fn view(&self) -> ServiceSpecView {
        ServiceSpecView {
            ident: match self.ident { Some(v) => Some(v@), None => None },
            group: match self.group { Some(v) => Some(v@), None => None },
            application_environment: match self.application_environment { Some(v) => Some(v@), None => None },
            bldr_url: match self.bldr_url { Some(v) => Some(v@), None => None },
            channel: match self.channel { Some(v) => Some(v@), None => None },
            topology: self.topology,
            update_strategy: self.update_strategy,
            binds: self.binds@.map_values(|b: ServiceBind| b@),
            binding_mode: self.binding_mode,
            config_from: match self.config_from { Some(v) => Some(v@), None => None },
            desired_state: self.desired_state,
            svc_encrypted_password: match self.svc_encrypted_password { Some(v) => Some(v@), None => None },
            composite: match self.composite { Some(v) => Some(v@), None => None },
        }
    }
}

impl Clone for ServiceSpec {
    fn clone(&self) -> (r: Self)
        ensures
            r@ == self@,
    {
        let ident = match &self.ident {
            Some(v) => Some(v.clone()),
            None => None,
        };
        let group = match &self.group {
            Some(v) => Some(v.clone()),
            None => None,
        };
        let application_environment = match &self.application_environment {
            Some(v) => Some(v.clone()),
            None => None,
        };
        let bldr_url = match &self.bldr_url {
            Some(v) => Some(v.clone()),
            None => None,
        };
        let channel = match &self.channel {
            Some(v) => Some(v.clone()),
            None => None,
        };
        let topology = self.topology;
        let update_strategy = self.update_strategy;
        let binds = clone_servicebind_list(&self.binds);
        let binding_mode = self.binding_mode;
        let config_from = match &self.config_from {
            Some(v) => Some(v.clone()),
            None => None,
        };
        let desired_state = self.desired_state;
        let svc_encrypted_password = match &self.svc_encrypted_password {
            Some(v) => Some(v.clone()),
            None => None,
        };
        let composite = match &self.composite {
            Some(v) => Some(v.clone()),
            None => None,
        };
        let r = ServiceSpec { ident, group, application_environment, bldr_url, channel, topology, update_strategy, binds, binding_mode, config_from, desired_state, svc_encrypted_password, composite };
        assert(r@.binds =~= self@.binds);
        r
    }
}

impl ServiceSpec {
    /// A message with every field absent.
    pub fn new() -> (r: ServiceSpec)
        ensures
            r@ == ServiceSpec::empty_view(),
    {
        let r = ServiceSpec { ident: None, group: None, application_environment: None, bldr_url: None, channel: None, topology: None, update_strategy: None, binds: Vec::new(), binding_mode: None, config_from: None, desired_state: None, svc_encrypted_password: None, composite: None };
        assert(r@.binds =~= Seq::empty());
        r
    }

    pub fn clear_ident(&mut self)
        ensures
            (final(self)@ == ServiceSpecView { ident: None, ..old(self)@ }),
    {
        self.ident = None;
    }

    pub fn has_ident(&self) -> (r: bool)
        ensures
            r == self@.ident.is_some(),
    {
        self.ident.is_some()
    }

    pub fn set_ident(&mut self, v: PackageIdent)
        ensures
            (final(self)@ == ServiceSpecView { ident: Some(v@), ..old(self)@ }),
    {
        self.ident = Some(v);
    }

    /// The field, first set to an empty message when absent.
    pub fn mut_ident(&mut self) -> (r: &mut PackageIdent)
        ensures
            r@ == old(self)@.ident.unwrap_or(PackageIdent::empty_view()),
            (final(self)@ == ServiceSpecView { ident: Some(final(r)@), ..old(self)@ }),
    {
        self.ident.get_or_insert(PackageIdent::new())
    }

    pub fn take_ident(&mut self) -> (r: PackageIdent)
        ensures
            r@ == old(self)@.ident.unwrap_or(PackageIdent::empty_view()),
            (final(self)@ == ServiceSpecView { ident: None, ..old(self)@ }),
    {
        match self.ident.take() {
            Some(v) => v,
            None => PackageIdent::new(),
        }
    }

    /// A copy of the field, or an empty message when absent.
    pub fn get_ident(&self) -> (r: PackageIdent)
        ensures
            r@ == self@.ident.unwrap_or(PackageIdent::empty_view()),
    {
        match &self.ident {
            Some(v) => v.clone(),
            None => PackageIdent::new(),
        }
    }

    pub fn clear_group(&mut self)
        ensures
            (final(self)@ == ServiceSpecView { group: None, ..old(self)@ }),
    {
        self.group = None;
    }

    pub fn has_group(&self) -> (r: bool)
        ensures
            r == self@.group.is_some(),
    {
        self.group.is_some()
    }

    pub fn set_group(&mut self, v: String)
        ensures
            (final(self)@ == ServiceSpecView { group: Some(v@), ..old(self)@ }),
    {
        self.group = Some(v);
    }

    /// The field, first set to the empty string when absent.
    pub fn mut_group(&mut self) -> (r: &mut String)
        ensures
            r@ == text_or(old(self)@.group, Seq::empty()),
            (final(self)@ == ServiceSpecView { group: Some(final(r)@), ..old(self)@ }),
    {
        self.group.get_or_insert(String::new())
    }

    pub fn take_group(&mut self) -> (r: String)
        ensures
            r@ == text_or(old(self)@.group, Seq::empty()),
            (final(self)@ == ServiceSpecView { group: None, ..old(self)@ }),
    {
        match self.group.take() {
            Some(v) => v,
            None => String::new(),
        }
    }

    pub fn get_group(&self) -> (r: &str)
        ensures
            r@ == text_or(self@.group, "default"@),
    {
        match &self.group {
            Some(v) => v.as_str(),
            None => "default",
        }
    }

    pub fn clear_application_environment(&mut self)
        ensures
            (final(self)@ == ServiceSpecView { application_environment: None, ..old(self)@ }),
    {
        self.application_environment = None;
    }

    pub fn has_application_environment(&self) -> (r: bool)
        ensures
            r == self@.application_environment.is_some(),
    {
        self.application_environment.is_some()
    }

    pub fn set_application_environment(&mut self, v: ApplicationEnvironment)
        ensures
            (final(self)@ == ServiceSpecView { application_environment: Some(v@), ..old(self)@ }),
    {
        self.application_environment = Some(v);
    }

    /// The field, first set to an empty message when absent.
    pub fn mut_application_environment(&mut self) -> (r: &mut ApplicationEnvironment)
        ensures
            r@ == old(self)@.application_environment.unwrap_or(ApplicationEnvironment::empty_view()),
            (final(self)@ == ServiceSpecView { application_environment: Some(final(r)@), ..old(self)@ }),
    {
        self.application_environment.get_or_insert(ApplicationEnvironment::new())
    }

    pub fn take_application_environment(&mut self) -> (r: ApplicationEnvironment)
        ensures
            r@ == old(self)@.application_environment.unwrap_or(ApplicationEnvironment::empty_view()),
            (final(self)@ == ServiceSpecView { application_environment: None, ..old(self)@ }),
    {
        match self.application_environment.take() {
            Some(v) => v,
            None => ApplicationEnvironment::new(),
        }
    }

    /// A copy of the field, or an empty message when absent.
    pub fn get_application_environment(&self) -> (r: ApplicationEnvironment)
        ensures
            r@ == self@.application_environment.unwrap_or(ApplicationEnvironment::empty_view()),
    {
        match &self.application_environment {
            Some(v) => v.clone(),
            None => ApplicationEnvironment::new(),
        }
    }

    pub fn clear_bldr_url(&mut self)
        ensures
            (final(self)@ == ServiceSpecView { bldr_url: None, ..old(self)@ }),
    {
        self.bldr_url = None;
    }

    pub fn has_bldr_url(&self) -> (r: bool)
        ensures
            r == self@.bldr_url.is_some(),
    {
        self.bldr_url.is_some()
    }

    pub fn set_bldr_url(&mut self, v: String)
        ensures
            (final(self)@ == ServiceSpecView { bldr_url: Some(v@), ..old(self)@ }),
    {
        self.bldr_url = Some(v);
    }

    /// The field, first set to the empty string when absent.
    pub fn mut_bldr_url(&mut self) -> (r: &mut String)
        ensures
            r@ == text_or(old(self)@.bldr_url, Seq::empty()),
            (final(self)@ == ServiceSpecView { bldr_url: Some(final(r)@), ..old(self)@ }),
    {
        self.bldr_url.get_or_insert(String::new())
    }

    pub fn take_bldr_url(&mut self) -> (r: String)
        ensures
            r@ == text_or(old(self)@.bldr_url, Seq::empty()),
            (final(self)@ == ServiceSpecView { bldr_url: None, ..old(self)@ }),
    {
        match self.bldr_url.take() {
            Some(v) => v,
            None => String::new(),
        }
    }

    pub fn get_bldr_url(&self) -> (r: &str)
        ensures
            r@ == text_or(self@.bldr_url, "https://bldr.habitat.sh"@),
    {
        match &self.bldr_url {
            Some(v) => v.as_str(),
            None => "https://bldr.habitat.sh",
        }
    }

    pub fn clear_channel(&mut self)
        ensures
            (final(self)@ == ServiceSpecView { channel: None, ..old(self)@ }),
    {
        self.channel = None;
    }

    pub fn has_channel(&self) -> (r: bool)
        ensures
            r == self@.channel.is_some(),
    {
        self.channel.is_some()
    }

    pub fn set_channel(&mut self, v: String)
        ensures
            (final(self)@ == ServiceSpecView { channel: Some(v@), ..old(self)@ }),
    {
        self.channel = Some(v);
    }

    /// The field, first set to the empty string when absent.
    pub fn mut_channel(&mut self) -> (r: &mut String)
        ensures
            r@ == text_or(old(self)@.channel, Seq::empty()),
            (final(self)@ == ServiceSpecView { channel: Some(final(r)@), ..old(self)@ }),
    {
        self.channel.get_or_insert(String::new())
    }

    pub fn take_channel(&mut self) -> (r: String)
        ensures
            r@ == text_or(old(self)@.channel, Seq::empty()),
            (final(self)@ == ServiceSpecView { channel: None, ..old(self)@ }),
    {
        match self.channel.take() {
            Some(v) => v,
            None => String::new(),
        }
    }

    pub fn get_channel(&self) -> (r: &str)
        ensures
            r@ == text_or(self@.channel, "stable"@),
    {
        match &self.channel {
            Some(v) => v.as_str(),
            None => "stable",
        }
    }

    pub fn clear_topology(&mut self)
        ensures
            (final(self)@ == ServiceSpecView { topology: None, ..old(self)@ }),
    {
        self.topology = None;
    }

    pub fn has_topology(&self) -> (r: bool)
        ensures
            r == self@.topology.is_some(),
    {
        self.topology.is_some()
    }

    pub fn set_topology(&mut self, v: Topology)
        ensures
            (final(self)@ == ServiceSpecView { topology: Some(v), ..old(self)@ }),
    {
        self.topology = Some(v);
    }

    pub fn get_topology(&self) -> (r: Topology)
        ensures
            r == self@.topology.unwrap_or(Topology::Standalone),
    {
        match self.topology {
            Some(v) => v,
            None => Topology::Standalone,
        }
    }

    pub fn clear_update_strategy(&mut self)
        ensures
            (final(self)@ == ServiceSpecView { update_strategy: None, ..old(self)@ }),
    {
        self.update_strategy = None;
    }

    pub fn has_update_strategy(&self) -> (r: bool)
        ensures
            r == self@.update_strategy.is_some(),
    {
        self.update_strategy.is_some()
    }

    pub fn set_update_strategy(&mut self, v: UpdateStrategy)
        ensures
            (final(self)@ == ServiceSpecView { update_strategy: Some(v), ..old(self)@ }),
    {
        self.update_strategy = Some(v);
    }

    pub fn get_update_strategy(&self) -> (r: UpdateStrategy)
        ensures
            r == self@.update_strategy.unwrap_or(UpdateStrategy::NoUpdate),
    {
        match self.update_strategy {
            Some(v) => v,
            None => UpdateStrategy::NoUpdate,
        }
    }

    pub fn clear_binds(&mut self)
        ensures
            (final(self)@ == ServiceSpecView { binds: Seq::empty(), ..old(self)@ }),
    {
        self.binds = Vec::new();
        assert(self@.binds =~= Seq::empty());
    }

    pub fn set_binds(&mut self, v: Vec<ServiceBind>)
        ensures
            (final(self)@ == ServiceSpecView { binds: v@.map_values(|b: ServiceBind| b@), ..old(self)@ }),
    {
        self.binds = v;
    }

    pub fn mut_binds(&mut self) -> (r: &mut Vec<ServiceBind>)
        ensures
            r@.map_values(|b: ServiceBind| b@) == old(self)@.binds,
            (final(self)@ == ServiceSpecView { binds: final(r)@.map_values(|b: ServiceBind| b@), ..old(self)@ }),
    {
        &mut self.binds
    }

    pub fn take_binds(&mut self) -> (r: Vec<ServiceBind>)
        ensures
            r@.map_values(|b: ServiceBind| b@) == old(self)@.binds,
            (final(self)@ == ServiceSpecView { binds: Seq::empty(), ..old(self)@ }),
    {
        let mut r = Vec::new();
        std::mem::swap(&mut r, &mut self.binds);
        assert(self@.binds =~= Seq::empty());
        r
    }

    pub fn get_binds(&self) -> (r: &[ServiceBind])
        ensures
            r@.map_values(|b: ServiceBind| b@) == self@.binds,
    {
        self.binds.as_slice()
    }

    pub fn clear_binding_mode(&mut self)
        ensures
            (final(self)@ == ServiceSpecView { binding_mode: None, ..old(self)@ }),
    {
        self.binding_mode = None;
    }

    pub fn has_binding_mode(&self) -> (r: bool)
        ensures
            r == self@.binding_mode.is_some(),
    {
        self.binding_mode.is_some()
    }

    pub fn set_binding_mode(&mut self, v: BindingMode)
        ensures
            (final(self)@ == ServiceSpecView { binding_mode: Some(v), ..old(self)@ }),
    {
        self.binding_mode = Some(v);
    }

    pub fn get_binding_mode(&self) -> (r: BindingMode)
        ensures
            r == self@.binding_mode.unwrap_or(BindingMode::Relaxed),
    {
        match self.binding_mode {
            Some(v) => v,
            None => BindingMode::Relaxed,
        }
    }

    pub fn clear_config_from(&mut self)
        ensures
            (final(self)@ == ServiceSpecView { config_from: None, ..old(self)@ }),
    {
        self.config_from = None;
    }

    pub fn has_config_from(&self) -> (r: bool)
        ensures
            r == self@.config_from.is_some(),
    {
        self.config_from.is_some()
    }

    pub fn set_config_from(&mut self, v: String)
        ensures
            (final(self)@ == ServiceSpecView { config_from: Some(v@), ..old(self)@ }),
    {
        self.config_from = Some(v);
    }

    /// The field, first set to the empty string when absent.
    pub fn mut_config_from(&mut self) -> (r: &mut String)
        ensures
            r@ == text_or(old(self)@.config_from, Seq::empty()),
            (final(self)@ == ServiceSpecView { config_from: Some(final(r)@), ..old(self)@ }),
    {
        self.config_from.get_or_insert(String::new())
    }

    pub fn take_config_from(&mut self) -> (r: String)
        ensures
            r@ == text_or(old(self)@.config_from, Seq::empty()),
            (final(self)@ == ServiceSpecView { config_from: None, ..old(self)@ }),
    {
        match self.config_from.take() {
            Some(v) => v,
            None => String::new(),
        }
    }

    pub fn get_config_from(&self) -> (r: &str)
        ensures
            r@ == text_or(self@.config_from, ""@),
    {
        match &self.config_from {
            Some(v) => v.as_str(),
            None => "",
        }
    }

    pub fn clear_desired_state(&mut self)
        ensures
            (final(self)@ == ServiceSpecView { desired_state: None, ..old(self)@ }),
    {
        self.desired_state = None;
    }

    pub fn has_desired_state(&self) -> (r: bool)
        ensures
            r == self@.desired_state.is_some(),
    {
        self.desired_state.is_some()
    }

    pub fn set_desired_state(&mut self, v: ProcessState)
        ensures
            (final(self)@ == ServiceSpecView { desired_state: Some(v), ..old(self)@ }),
    {
        self.desired_state = Some(v);
    }

    pub fn get_desired_state(&self) -> (r: ProcessState)
        ensures
            r == self@.desired_state.unwrap_or(ProcessState::Up),
    {
        match self.desired_state {
            Some(v) => v,
            None => ProcessState::Up,
        }
    }

    pub fn clear_svc_encrypted_password(&mut self)
        ensures
            (final(self)@ == ServiceSpecView { svc_encrypted_password: None, ..old(self)@ }),
    {
        self.svc_encrypted_password = None;
    }

    pub fn has_svc_encrypted_password(&self) -> (r: bool)
        ensures
            r == self@.svc_encrypted_password.is_some(),
    {
        self.svc_encrypted_password.is_some()
    }

    pub fn set_svc_encrypted_password(&mut self, v: String)
        ensures
            (final(self)@ == ServiceSpecView { svc_encrypted_password: Some(v@), ..old(self)@ }),
    {
        self.svc_encrypted_password = Some(v);
    }

    /// The field, first set to the empty string when absent.
    pub fn mut_svc_encrypted_password(&mut self) -> (r: &mut String)
        ensures
            r@ == text_or(old(self)@.svc_encrypted_password, Seq::empty()),
            (final(self)@ == ServiceSpecView { svc_encrypted_password: Some(final(r)@), ..old(self)@ }),
    {
        self.svc_encrypted_password.get_or_insert(String::new())
    }

    pub fn take_svc_encrypted_password(&mut self) -> (r: String)
        ensures
            r@ == text_or(old(self)@.svc_encrypted_password, Seq::empty()),
            (final(self)@ == ServiceSpecView { svc_encrypted_password: None, ..old(self)@ }),
    {
        match self.svc_encrypted_password.take() {
            Some(v) => v,
            None => String::new(),
        }
    }

    pub fn get_svc_encrypted_password(&self) -> (r: &str)
        ensures
            r@ == text_or(self@.svc_encrypted_password, ""@),
    {
        match &self.svc_encrypted_password {
            Some(v) => v.as_str(),
            None => "",
        }
    }

    pub fn clear_composite(&mut self)
        ensures
            (final(self)@ == ServiceSpecView { composite: None, ..old(self)@ }),
    {
        self.composite = None;
    }

    pub fn has_composite(&self) -> (r: bool)
        ensures
            r == self@.composite.is_some(),
    {
        self.composite.is_some()
    }

    pub fn set_composite(&mut self, v: String)
        ensures
            (final(self)@ == ServiceSpecView { composite: Some(v@), ..old(self)@ }),
    {
        self.composite = Some(v);
    }

    /// The field, first set to the empty string when absent.
    pub fn mut_composite(&mut self) -> (r: &mut String)
        ensures
            r@ == text_or(old(self)@.composite, Seq::empty()),
            (final(self)@ == ServiceSpecView { composite: Some(final(r)@), ..old(self)@ }),
    {
        self.composite.get_or_insert(String::new())
    }

    pub fn take_composite(&mut self) -> (r: String)
        ensures
            r@ == text_or(old(self)@.composite, Seq::empty()),
            (final(self)@ == ServiceSpecView { composite: None, ..old(self)@ }),
    {
        match self.composite.take() {
            Some(v) => v,
            None => String::new(),
        }
    }

    pub fn get_composite(&self) -> (r: &str)
        ensures
            r@ == text_or(self@.composite, ""@),
    {
        match &self.composite {
            Some(v) => v.as_str(),
            None => "",
        }
    }

    /// The content of a message with every field absent.
    pub open spec fn empty_view() -> ServiceSpecView {
        ServiceSpecView {
            ident: None,
            group: None,
            application_environment: None,
            bldr_url: None,
            channel: None,
            topology: None,
            update_strategy: None,
            binds: Seq::empty(),
            binding_mode: None,
            config_from: None,
            desired_state: None,
            svc_encrypted_password: None,
            composite: None,
        }
    }
}

/// The observed status of one loaded service.
pub struct ServiceStatus {
    ident: Option<PackageIdent>,
    process: Option<ProcessStatus>,
    service_group: Option<ServiceGroup>,
    composite: Option<String>,
}

/// The abstract content of a [`ServiceStatus`]: each optional field as present or absent.
pub struct ServiceStatusView {
    pub ident: Option<PackageIdentView>,
    pub process: Option<ProcessStatusView>,
    pub service_group: Option<ServiceGroupView>,
    pub composite: Option<Seq<char>>,
}

impl View for ServiceStatus {
    type V = ServiceStatusView;

    closed spec fn view(&self) -> ServiceStatusView {
        ServiceStatusView {
            ident: match self.ident { Some(v) => Some(v@), None => None },
            process: match self.process { Some(v) => Some(v@), None => None },
            service_group: match self.service_group { Some(v) => Some(v@), None => None },
            composite: match self.composite { Some(v) => Some(v@), None => None },
        }
    }
}

impl Clone for ServiceStatus {
    fn clone(&self) -> (r: Self)
        ensures
            r@ == self@,
    {
        let ident = match &self.ident {
            Some(v) => Some(v.clone()),
            None => None,
        };
        let process = match &self.process {
            Some(v) => Some(v.clone()),
            None => None,
        };
        let service_group = match &self.service_group {
            Some(v) => Some(v.clone()),
            None => None,
        };
        let composite = match &self.composite {
            Some(v) => Some(v.clone()),
            None => None,
        };
        let r = ServiceStatus { ident, process, service_group, composite };
        r
    }
}

impl ServiceStatus {
    /// A message with every field absent.
    pub fn new() -> (r: ServiceStatus)
        ensures
            r@ == ServiceStatus::empty_view(),
    {
        let r = ServiceStatus { ident: None, process: None, service_group: None, composite: None };
        r
    }

    pub fn clear_ident(&mut self)
        ensures
            (final(self)@ == ServiceStatusView { ident: None, ..old(self)@ }),
    {
        self.ident = None;
    }

    pub fn has_ident(&self) -> (r: bool)
        ensures
            r == self@.ident.is_some(),
    {
        self.ident.is_some()
    }

    pub fn set_ident(&mut self, v: PackageIdent)
        ensures
            (final(self)@ == ServiceStatusView { ident: Some(v@), ..old(self)@ }),
    {
        self.ident = Some(v);
    }

    /// The field, first set to an empty message when absent.
    pub fn mut_ident(&mut self) -> (r: &mut PackageIdent)
        ensures
            r@ == old(self)@.ident.unwrap_or(PackageIdent::empty_view()),
            (final(self)@ == ServiceStatusView { ident: Some(final(r)@), ..old(self)@ }),
    {
        self.ident.get_or_insert(PackageIdent::new())
    }

    pub fn take_ident(&mut self) -> (r: PackageIdent)
        ensures
            r@ == old(self)@.ident.unwrap_or(PackageIdent::empty_view()),
            (final(self)@ == ServiceStatusView { ident: None, ..old(self)@ }),
    {
        match self.ident.take() {
            Some(v) => v,
            None => PackageIdent::new(),
        }
    }

    /// A copy of the field, or an empty message when absent.
    pub fn get_ident(&self) -> (r: PackageIdent)
        ensures
            r@ == self@.ident.unwrap_or(PackageIdent::empty_view()),
    {
        match &self.ident {
            Some(v) => v.clone(),
            None => PackageIdent::new(),
        }
    }

    pub fn clear_process(&mut self)
        ensures
            (final(self)@ == ServiceStatusView { process: None, ..old(self)@ }),
    {
        self.process = None;
    }

    pub fn has_process(&self) -> (r: bool)
        ensures
            r == self@.process.is_some(),
    {
        self.process.is_some()
    }

    pub fn set_process(&mut self, v: ProcessStatus)
        ensures
            (final(self)@ == ServiceStatusView { process: Some(v@), ..old(self)@ }),
    {
        self.process = Some(v);
    }

    /// The field, first set to an empty message when absent.
    pub fn mut_process(&mut self) -> (r: &mut ProcessStatus)
        ensures
            r@ == old(self)@.process.unwrap_or(ProcessStatus::empty_view()),
            (final(self)@ == ServiceStatusView { process: Some(final(r)@), ..old(self)@ }),
    {
        self.process.get_or_insert(ProcessStatus::new())
    }

    pub fn take_process(&mut self) -> (r: ProcessStatus)
        ensures
            r@ == old(self)@.process.unwrap_or(ProcessStatus::empty_view()),
            (final(self)@ == ServiceStatusView { process: None, ..old(self)@ }),
    {
        match self.process.take() {
            Some(v) => v,
            None => ProcessStatus::new(),
        }
    }

    /// A copy of the field, or an empty message when absent.
    pub fn get_process(&self) -> (r: ProcessStatus)
        ensures
            r@ == self@.process.unwrap_or(ProcessStatus::empty_view()),
    {
        match &self.process {
            Some(v) => v.clone(),
            None => ProcessStatus::new(),
        }
    }

    pub fn clear_service_group(&mut self)
        ensures
            (final(self)@ == ServiceStatusView { service_group: None, ..old(self)@ }),
    {
        self.service_group = None;
    }

    pub fn has_service_group(&self) -> (r: bool)
        ensures
            r == self@.service_group.is_some(),
    {
        self.service_group.is_some()
    }

    pub fn set_service_group(&mut self, v: ServiceGroup)
        ensures
            (final(self)@ == ServiceStatusView { service_group: Some(v@), ..old(self)@ }),
    {
        self.service_group = Some(v);
    }

    /// The field, first set to an empty message when absent.
    pub fn mut_service_group(&mut self) -> (r: &mut ServiceGroup)
        ensures
            r@ == old(self)@.service_group.unwrap_or(ServiceGroup::empty_view()),
            (final(self)@ == ServiceStatusView { service_group: Some(final(r)@), ..old(self)@ }),
    {
        self.service_group.get_or_insert(ServiceGroup::new())
    }

    pub fn take_service_group(&mut self) -> (r: ServiceGroup)
        ensures
            r@ == old(self)@.service_group.unwrap_or(ServiceGroup::empty_view()),
            (final(self)@ == ServiceStatusView { service_group: None, ..old(self)@ }),
    {
        match self.service_group.take() {
            Some(v) => v,
            None => ServiceGroup::new(),
        }
    }

    /// A copy of the field, or an empty message when absent.
    pub fn get_service_group(&self) -> (r: ServiceGroup)
        ensures
            r@ == self@.service_group.unwrap_or(ServiceGroup::empty_view()),
    {
        match &self.service_group {
            Some(v) => v.clone(),
            None => ServiceGroup::new(),
        }
    }

    pub fn clear_composite(&mut self)
        ensures
            (final(self)@ == ServiceStatusView { composite: None, ..old(self)@ }),
    {
        self.composite = None;
    }

    pub fn has_composite(&self) -> (r: bool)
        ensures
            r == self@.composite.is_some(),
    {
        self.composite.is_some()
    }

    pub fn set_composite(&mut self, v: String)
        ensures
            (final(self)@ == ServiceStatusView { composite: Some(v@), ..old(self)@ }),
    {
        self.composite = Some(v);
    }

    /// The field, first set to the empty string when absent.
    pub fn mut_composite(&mut self) -> (r: &mut String)
        ensures
            r@ == text_or(old(self)@.composite, Seq::empty()),
            (final(self)@ == ServiceStatusView { composite: Some(final(r)@), ..old(self)@ }),
    {
        self.composite.get_or_insert(String::new())
    }

    pub fn take_composite(&mut self) -> (r: String)
        ensures
            r@ == text_or(old(self)@.composite, Seq::empty()),
            (final(self)@ == ServiceStatusView { composite: None, ..old(self)@ }),
    {
        match self.composite.take() {
            Some(v) => v,
            None => String::new(),
        }
    }

    pub fn get_composite(&self) -> (r: &str)
        ensures
            r@ == text_or(self@.composite, ""@),
    {
        match &self.composite {
            Some(v) => v.as_str(),
            None => "",
        }
    }

    /// The content of a message with every field absent.
    pub open spec fn empty_view() -> ServiceStatusView {
        ServiceStatusView {
            ident: None,
            process: None,
            service_group: None,
            composite: None,
        }
    }
}

impl ApplicationEnvironment {
    /// Whether the required fields are present: the application.
    pub open spec fn initialized(v: ApplicationEnvironmentView) -> bool {
        v.application is Some
    }

    pub fn is_initialized(&self) -> (r: bool)
        ensures
            r == Self::initialized(self@),
    {
        self.application.is_some()
    }
}

impl PackageIdent {
    /// A package identifier has no required field.
    pub fn is_initialized(&self) -> (r: bool)
        ensures
            r,
    {
        true
    }
}

impl ProcessStatus {
    /// A process status has no required field.
    pub fn is_initialized(&self) -> (r: bool)
        ensures
            r,
    {
        true
    }
}

impl ServiceCfg {
    /// A service configuration has no required field.
    pub fn is_initialized(&self) -> (r: bool)
        ensures
            r,
    {
        true
    }
}

impl ServiceGroup {
    /// Whether the required fields are present: the service, and those of
    /// the application environment when there is one.
    pub open spec fn initialized(v: ServiceGroupView) -> bool {
        &&& v.service is Some
        &&& match v.application_environment {
            Some(e) => ApplicationEnvironment::initialized(e),
            None => true,
        }
    }

    pub fn is_initialized(&self) -> (r: bool)
        ensures
            r == Self::initialized(self@),
    {
        if self.service.is_none() {
            return false;
        }
        match &self.application_environment {
            Some(e) => e.is_initialized(),
            None => true,
        }
    }
}

impl ServiceBind {
    /// Whether the required fields are present: the name and an
    /// initialized service group.
    pub open spec fn initialized(v: ServiceBindView) -> bool {
        &&& v.name is Some
        &&& match v.service_group {
            Some(g) => ServiceGroup::initialized(g),
            None => false,
        }
    }

    pub fn is_initialized(&self) -> (r: bool)
        ensures
            r == Self::initialized(self@),
    {
        if self.name.is_none() {
            return false;
        }
        match &self.service_group {
            Some(g) => g.is_initialized(),
            None => false,
        }
    }
}

impl ServiceSpec {
    /// Whether the required fields are present: the package identifier,
    /// those of the application environment when there is one, and those of
    /// every bind.
    pub open spec fn initialized(v: ServiceSpecView) -> bool {
        &&& v.ident is Some
        &&& match v.application_environment {
            Some(e) => ApplicationEnvironment::initialized(e),
            None => true,
        }
        &&& forall|i: int| 0 <= i < v.binds.len() ==> ServiceBind::initialized(#[trigger] v.binds[i])
    }

    pub fn is_initialized(&self) -> (r: bool)
        ensures
            r == Self::initialized(self@),
    {
        if self.ident.is_none() {
            return false;
        }
        let env_ok = match &self.application_environment {
            Some(e) => e.is_initialized(),
            None => true,
        };
        if !env_ok {
            return false;
        }
        let mut i: usize = 0;
        while i < self.binds.len()
            invariant
                i <= self.binds@.len(),
                forall|j: int| 0 <= j < i ==> ServiceBind::initialized(#[trigger] self.binds@[j]@),
            decreases self.binds@.len() - i,
        {
            if !self.binds[i].is_initialized() {
                assert(self@.binds[i as int] == self.binds@[i as int]@);
                return false;
            }
            i += 1;
        }
        assert forall|j: int| 0 <= j < self@.binds.len() implies ServiceBind::initialized(
            #[trigger] self@.binds[j],
        ) by {
            assert(self@.binds[j] == self.binds@[j]@);
        }
        true
    }
}

impl ServiceStatus {
    /// Whether the required fields of the service group are present, when
    /// there is one.
    pub open spec fn initialized(v: ServiceStatusView) -> bool {
        match v.service_group {
            Some(g) => ServiceGroup::initialized(g),
            None => true,
        }
    }

    pub fn is_initialized(&self) -> (r: bool)
        ensures
            r == Self::initialized(self@),
    {
        match &self.service_group {
            Some(g) => g.is_initialized(),
            None => true,
        }
    }
}


/// A copy of each bind in the list.
fn clone_servicebind_list(v: &Vec<ServiceBind>) -> (r: Vec<ServiceBind>)
    ensures
        r@.map_values(|b: ServiceBind| b@) == v@.map_values(|b: ServiceBind| b@),
{
    let mut r: Vec<ServiceBind> = Vec::new();
    let mut i: usize = 0;
    while i < v.len()
        invariant
            i <= v.len(),
            r@.len() == i,
            forall|j: int| 0 <= j < i ==> #[trigger] r@[j]@ == v@[j]@,
        decreases v.len() - i,
    {
        r.push(v[i].clone());
        i += 1;
    }
    assert(r@.map_values(|b: ServiceBind| b@) =~= v@.map_values(|b: ServiceBind| b@));
    r
}

} // verus!
