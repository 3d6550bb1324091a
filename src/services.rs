use crate::gateway::StartError;
use crate::health::OLLAMA_BASE_URL;
use crate::text::{chars_of, contains, contains_chars};
use vstd::prelude::*;

verus! {

/// The health a status entry reports.
#[derive(Debug, Clone, Copy, PartialEq, Eq)]
pub enum Health {
    Healthy,
    Starting,
    NotRunning,
    Error,
    Available,
    NotInstalled,
}

impl Health {
    /// The text that stands for this health in a status entry.
    pub open spec fn spec_label(self) -> Seq<char> {
        match self {
            Health::Healthy => "healthy"@,
            Health::Starting => "starting"@,
            Health::NotRunning => "not running"@,
            Health::Error => "error"@,
            Health::Available => "available"@,
            Health::NotInstalled => "not installed"@,
        }
    }

    /// The text that stands for this health in a status entry.
    pub fn label(&self) -> (r: String)
        ensures
            r@ == self.spec_label(),
    {
        match self {
            Health::Healthy => "healthy".to_owned(),
            Health::Starting => "starting".to_owned(),
            Health::NotRunning => "not running".to_owned(),
            Health::Error => "error".to_owned(),
            Health::Available => "available".to_owned(),
            Health::NotInstalled => "not installed".to_owned(),
        }
    }
}

/// A point-in-time status of one named service.
#[derive(Debug, Clone)]
pub struct ServiceStatus {
    pub name: String,
    pub running: bool,
    pub port: Option<u16>,
    pub health: String,
    pub details: Option<String>,
}

/// A service status as plain values.
pub struct StatusView {
    pub name: Seq<char>,
    pub running: bool,
    pub port: Option<u16>,
    pub health: Seq<char>,
    pub details: Option<Seq<char>>,
}

/// The view of an optional string.
pub open spec fn opt_view(s: Option<String>) -> Option<Seq<char>> {
    match s {
        Some(t) => Some(t@),
        None => None,
    }
}

impl View for ServiceStatus {
    type V = StatusView;

    open spec fn view(&self) -> StatusView {
        StatusView {
            name: self.name@,
            running: self.running,
            port: self.port,
            health: self.health@,
            details: opt_view(self.details),
        }
    }
}

/// How a service's state is found out.
#[derive(Debug, Clone)]
pub enum Probe {
    /// Ask the process supervisor whether its process is running.
    Supervised,
    /// A health probe of the given endpoint; the service is not owned.
    Endpoint(String),
    /// Ask the container runtime whether it is available.
    Runtime,
    /// Ask the container runtime for the status of the named container.
    Container(String),
}

/// One service of the registry.
#[derive(Debug, Clone)]
pub struct ServiceEntry {
    pub name: String,
    pub port: Option<u16>,
    pub probe: Probe,
}

/// What came of invoking the container runtime's command line.
#[derive(Debug, Clone)]
pub enum CliOutcome {
    /// The runtime's binary could not be invoked.
    Unavailable,
    /// The command ran, with this exit verdict and standard output.
    Ran { success: bool, stdout: String },
}

/// What one probe of a service found.
#[derive(Debug, Clone)]
pub enum Observation {
    /// The supervisor's answer, and the reason of its last failed start.
    Supervised { running: bool, start_failure: Option<String> },
    /// Whether the endpoint's health probe succeeded.
    Endpoint { reachable: bool },
    /// The runtime's answer to an availability query.
    Runtime(CliOutcome),
    /// The runtime's answer to a status query for one container.
    Container(CliOutcome),
}

/// What a status query's output says of a container: it is up.
pub open spec fn container_up(stdout: Seq<char>) -> bool {
    contains(stdout, "Up"@)
}

/// Whether the service is running, its health and the details, as derived
/// from what its probe found.
pub open spec fn observed(o: Observation) -> (bool, Health, Option<Seq<char>>) {
    match o {
        Observation::Supervised { running, start_failure } => if running {
            (true, Health::Healthy, None)
        } else {
            match start_failure {
                Some(e) => (false, Health::Error, Some(e@)),
                None => (false, Health::NotRunning, None),
            }
        },
        Observation::Endpoint { reachable } => if reachable {
            (true, Health::Healthy, None)
        } else {
            (false, Health::NotRunning, None)
        },
        Observation::Runtime(c) => match c {
            CliOutcome::Unavailable => (false, Health::NotInstalled, None),
            CliOutcome::Ran { success, .. } => if success {
                (true, Health::Available, None)
            } else {
                (false, Health::NotRunning, None)
            },
        },
        Observation::Container(c) => match c {
            CliOutcome::Unavailable => (false, Health::NotInstalled, None),
            CliOutcome::Ran { stdout, .. } => if container_up(stdout@) {
                (true, Health::Healthy, None)
            } else {
                (false, Health::NotRunning, None)
            },
        },
    }
}

/// The status entry of a service named `name` on `port`, from the
/// running flag, health and details given.
pub open spec fn entry_view(
    name: Seq<char>,
    port: Option<u16>,
    o: (bool, Health, Option<Seq<char>>),
) -> StatusView {
    StatusView { name, running: o.0, port, health: o.1.spec_label(), details: o.2 }
}

/// The report of one poll: one entry per service of the registry, in the
/// registry's order, each derived from that service's observation.
pub open spec fn report(registry: Seq<ServiceEntry>, obs: Seq<Observation>) -> Seq<StatusView> {
    Seq::new(
        registry.len(),
        |i: int| entry_view(registry[i].name@, registry[i].port, observed(obs[i])),
    )
}

/// The running flag, health and details of the supervised service right
/// after the start attempt at launch gave `start`.
pub open spec fn started(start: Result<(), StartError>) -> (bool, Health, Option<Seq<char>>) {
    match start {
        Ok(_) => (true, Health::Starting, Some("Gateway process started"@)),
        Err(e) => (false, Health::Error, Some(e.spec_message())),
    }
}

/// The report made at launch: supervised services report the start attempt,
/// the others what their probe found.
pub open spec fn launch_report(
    registry: Seq<ServiceEntry>,
    start: Result<(), StartError>,
    obs: Seq<Observation>,
) -> Seq<StatusView> {
    Seq::new(
        registry.len(),
        |i: int|
            entry_view(
                registry[i].name@,
                registry[i].port,
                if registry[i].probe is Supervised {
                    started(start)
                } else {
                    observed(obs[i])
                },
            ),
    )
}

/// Builds a status entry.
fn make_status(name: &String, port: Option<u16>, running: bool, health: Health, details: Option<
    String,
>) -> (r: ServiceStatus)
    ensures
        r@ == entry_view(name@, port, (running, health, opt_view(details))),
{
    ServiceStatus { name: name.clone(), running, port, health: health.label(), details }
}

/// The running flag, health and details that an observation gives.
pub fn classify(o: &Observation) -> (r: (bool, Health, Option<String>))
    ensures
        (r.0, r.1, opt_view(r.2)) == observed(*o),
{
    match o {
        Observation::Supervised { running, start_failure } => {
            if *running {
                (true, Health::Healthy, None)
            } else {
                match start_failure {
                    Some(e) => (false, Health::Error, Some(e.clone())),
                    None => (false, Health::NotRunning, None),
                }
            }
        },
        Observation::Endpoint { reachable } => {
            if *reachable {
                (true, Health::Healthy, None)
            } else {
                (false, Health::NotRunning, None)
            }
        },
        Observation::Runtime(c) => match c {
            CliOutcome::Unavailable => (false, Health::NotInstalled, None),
            CliOutcome::Ran { success, .. } => {
                if *success {
                    (true, Health::Available, None)
                } else {
                    (false, Health::NotRunning, None)
                }
            },
        },
        Observation::Container(c) => match c {
            CliOutcome::Unavailable => (false, Health::NotInstalled, None),
            CliOutcome::Ran { stdout, .. } => {
                let out = chars_of(stdout.as_str());
                let up = chars_of("Up");
                proof {
                    reveal_strlit("Up");
                }
                if contains_chars(out.as_slice(), up.as_slice()) {
                    (true, Health::Healthy, None)
                } else {
                    (false, Health::NotRunning, None)
                }
            },
        },
    }
}

/// Collects the status of every service of the registry from one round of
/// observations, `observations[i]` being what the probe of `registry[i]`
/// found. The report has one entry per service, in the registry's order,
/// however many probes failed.
pub fn check_all_services(registry: &Vec<ServiceEntry>, observations: &Vec<Observation>) -> (r: Vec<
    ServiceStatus,
>)
    requires
        observations@.len() == registry@.len(),
    ensures
        r@.len() == registry@.len(),
        forall|i: int| 0 <= i < r@.len() ==> #[trigger] r@[i]@ == report(registry@, observations@)[i],
{
    let mut out: Vec<ServiceStatus> = Vec::new();
    let mut i: usize = 0;
    while i < registry.len()
        invariant
            i <= registry@.len() == observations@.len(),
            out@.len() == i,
            forall|j: int|
                0 <= j < i ==> #[trigger] out@[j]@ == report(registry@, observations@)[j],
        decreases registry@.len() - i,
    {
        let entry = &registry[i];
        let (running, health, details) = classify(&observations[i]);
        out.push(make_status(&entry.name, entry.port, running, health, details));
        i = i + 1;
    }
    out
}

/// The status report made once at launch: supervised services report how
/// the start attempt `start` went (`starting`, or `error` with the reason),
/// the others what their probe found, `observations[i]` being what the probe
/// of `registry[i]` found (it is not read for supervised services).
pub fn auto_start(
    registry: &Vec<ServiceEntry>,
    start: &Result<(), StartError>,
    observations: &Vec<Observation>,
) -> (r: Vec<ServiceStatus>)
    requires
        observations@.len() == registry@.len(),
    ensures
        r@.len() == registry@.len(),
        forall|i: int|
            0 <= i < r@.len() ==> #[trigger] r@[i]@ == launch_report(registry@, *start, observations@)[i],
{
    let mut out: Vec<ServiceStatus> = Vec::new();
    let mut i: usize = 0;
    while i < registry.len()
        invariant
            i <= registry@.len() == observations@.len(),
            out@.len() == i,
            forall|j: int|
                0 <= j < i ==> #[trigger] out@[j]@ == launch_report(
                    registry@,
                    *start,
                    observations@,
                )[j],
        decreases registry@.len() - i,
    {
        let entry = &registry[i];
        let status = match entry.probe {
            Probe::Supervised => match start {
                Ok(_) => make_status(
                    &entry.name,
                    entry.port,
                    true,
                    Health::Starting,
                    Some("Gateway process started".to_owned()),
                ),
                Err(e) => make_status(&entry.name, entry.port, false, Health::Error, Some(e.message())),
            },
            _ => {
                let (running, health, details) = classify(&observations[i]);
                make_status(&entry.name, entry.port, running, health, details)
            },
        };
        out.push(status);
        i = i + 1;
    }
    out
}

/// The registry of the desktop shell: the gateway (supervised), the model
/// daemon (probed at its endpoint), the container runtime, and the search
/// container, in that order.
pub fn default_registry() -> (r: Vec<ServiceEntry>)
    ensures
        r@.len() == 4,
        r@[0].name@ == "Gateway"@ && r@[0].port == Some(18789u16) && r@[0].probe is Supervised,
        r@[1].name@ == "Ollama"@ && r@[1].port == Some(11434u16) && r@[1].probe is Endpoint
            && r@[1].probe->Endpoint_0@ == OLLAMA_BASE_URL@,
        r@[2].name@ == "Docker"@ && r@[2].port is None && r@[2].probe is Runtime,
        r@[3].name@ == "SearXNG"@ && r@[3].port == Some(8888u16) && r@[3].probe is Container
            && r@[3].probe->Container_0@ == "alfred-searxng"@,
{
    let mut r: Vec<ServiceEntry> = Vec::new();
    r.push(ServiceEntry { name: "Gateway".to_owned(), port: Some(18789), probe: Probe::Supervised });
    r.push(
        ServiceEntry {
            name: "Ollama".to_owned(),
            port: Some(11434),
            probe: Probe::Endpoint(OLLAMA_BASE_URL.to_owned()),
        },
    );
    r.push(ServiceEntry { name: "Docker".to_owned(), port: None, probe: Probe::Runtime });
    r.push(
        ServiceEntry {
            name: "SearXNG".to_owned(),
            port: Some(8888),
            probe: Probe::Container("alfred-searxng".to_owned()),
        },
    );
    r
}

/// A report, and the report made at launch, name exactly the services of
/// the registry, in the registry's order, whatever the observations and the
/// start attempt were.
pub proof fn lemma_report_follows_registry(
    registry: Seq<ServiceEntry>,
    obs: Seq<Observation>,
    start: Result<(), StartError>,
)
    ensures
        report(registry, obs).len() == registry.len(),
        launch_report(registry, start, obs).len() == registry.len(),
        forall|i: int|
            0 <= i < registry.len() ==> (#[trigger] report(registry, obs)[i]).name
                == registry[i].name@ && report(registry, obs)[i].port == registry[i].port,
        forall|i: int|
            0 <= i < registry.len() ==> (#[trigger] launch_report(registry, start, obs)[i]).name
                == registry[i].name@ && launch_report(registry, start, obs)[i].port
                == registry[i].port,
{
}

/// The gateway's status as the command surface shows it.
#[derive(Debug, Clone)]
pub struct GatewayStatus {
    pub running: bool,
    pub port: u16,
    pub health: String,
    pub logs: Vec<String>,
}

/// The gateway's status from whether it counts as running and its log.
pub fn gateway_status(running: bool, logs: Vec<String>) -> (r: GatewayStatus)
    ensures
        r.running == running,
        r.port == 18789,
        r.health@ == (if running {
            Health::Healthy
        } else {
            Health::NotRunning
        }).spec_label(),
        r.logs@ == logs@,
{
    let health = if running {
        Health::Healthy
    } else {
        Health::NotRunning
    };
    GatewayStatus { running, port: 18789, health: health.label(), logs }
}

} // verus!
