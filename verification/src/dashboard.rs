//! State of the live dashboard that a desktop front-end shows while a
//! speed test runs: which stage is under way, the status line, the place,
//! ISP and server, and the bounded buffers of chart samples.
//!
//! The throughput figures themselves are the front-end's; this module
//! holds every rule by which a progress event changes the dashboard.

use vstd::prelude::*;
use crate::events::{phase_title, Phase as TestPhase};
use crate::servers::opt_text;

verus! {

/// Which transfer the live chart is currently tracking.
#[derive(Debug, Clone, Copy, PartialEq, Eq, Structural)]
pub enum Phase {
    Idle,
    Locating,
    Servers,
    Latency,
    Download,
    Upload,
    Done,
}

/// The label shown for each dashboard phase.
pub open spec fn phase_label(p: Phase) -> Seq<char> {
    match p {
        Phase::Idle => "Ready"@,
        Phase::Locating => "Detecting location…"@,
        Phase::Servers => "Selecting servers…"@,
        Phase::Latency => "Measuring latency…"@,
        Phase::Download => "Testing download…"@,
        Phase::Upload => "Testing upload…"@,
        Phase::Done => "Complete"@,
    }
}

impl Phase {
    /// The label shown for this phase.
    pub fn label(self) -> (l: &'static str)
        ensures
            l@ == phase_label(self),
    {
        match self {
            Phase::Idle => "Ready",
            Phase::Locating => "Detecting location…",
            Phase::Servers => "Selecting servers…",
            Phase::Latency => "Measuring latency…",
            Phase::Download => "Testing download…",
            Phase::Upload => "Testing upload…",
            Phase::Done => "Complete",
        }
    }
}

/// Maximum number of samples kept for each live chart.
pub const MAX_SAMPLES: usize = 120;

/// What the dashboard reads from a progress event of the engine; the
/// events' throughput and latency figures are not part of it.
#[derive(Debug, Clone)]
pub enum ProgressEvent {
    Status(String),
    LocationDetected { city: String, country: String, isp: Option<String> },
    ServerPoolBuilt,
    NearbyServersFound,
    ServersSelected,
    PrimarySelected { name: String, location: String },
    PhaseStarted(TestPhase),
    DownloadSample,
    UploadSample,
    DownloadComplete,
    UploadComplete,
    LatencyProgress,
    LatencyComplete,
    JitterComplete,
    DiagnosticsComplete,
    Completed,
}

/// The textual state of the dashboard.
#[derive(Debug, Clone)]
pub struct Dashboard {
    pub status: String,
    pub phase: Phase,
    pub running: bool,
    pub location: Option<String>,
    pub isp: Option<String>,
    pub server: Option<String>,
}

/// The characters of every field of a [`Dashboard`].
pub struct DashboardView {
    pub status: Seq<char>,
    pub phase: Phase,
    pub running: bool,
    pub location: Option<Seq<char>>,
    pub isp: Option<Seq<char>>,
    pub server: Option<Seq<char>>,
}

impl View for Dashboard {
    type V = DashboardView;

    open spec fn view(&self) -> DashboardView {
        DashboardView {
            status: self.status@,
            phase: self.phase,
            running: self.running,
            location: opt_text(self.location),
            isp: opt_text(self.isp),
            server: opt_text(self.server),
        }
    }
}

/// The dashboard phase entered when the engine starts a stage; the jitter
/// stage keeps the current phase.
pub open spec fn phase_for_stage(stage: TestPhase, current: Phase) -> Phase {
    match stage {
        TestPhase::Locating => Phase::Locating,
        TestPhase::BuildingServers => Phase::Servers,
        TestPhase::SelectingServers => Phase::Servers,
        TestPhase::Latency => Phase::Latency,
        TestPhase::Download => Phase::Download,
        TestPhase::Upload => Phase::Upload,
        TestPhase::Jitter => current,
    }
}

/// How a place is shown: `"{city}, {country}"`.
pub open spec fn place_label(city: Seq<char>, country: Seq<char>) -> Seq<char> {
    city + ", "@ + country
}

/// How the primary server is shown: `"{name} · {location}"`.
pub open spec fn server_label(name: Seq<char>, location: Seq<char>) -> Seq<char> {
    name + " · "@ + location
}

/// The dashboard after a progress event.
pub open spec fn dashboard_after(d: DashboardView, e: ProgressEvent) -> DashboardView {
    match e {
        ProgressEvent::Status(msg) => DashboardView { status: msg@, ..d },
        ProgressEvent::LocationDetected { city, country, isp } => DashboardView {
            location: Some(place_label(city@, country@)),
            isp: opt_text(isp),
            phase: Phase::Locating,
            ..d
        },
        ProgressEvent::ServerPoolBuilt => DashboardView { phase: Phase::Servers, ..d },
        ProgressEvent::NearbyServersFound => DashboardView { phase: Phase::Servers, ..d },
        ProgressEvent::ServersSelected => DashboardView { phase: Phase::Servers, ..d },
        ProgressEvent::PrimarySelected { name, location } => DashboardView {
            server: Some(server_label(name@, location@)),
            phase: Phase::Servers,
            ..d
        },
        ProgressEvent::PhaseStarted(stage) => DashboardView {
            phase: phase_for_stage(stage, d.phase),
            status: phase_title(stage),
            ..d
        },
        ProgressEvent::Completed => DashboardView {
            phase: Phase::Done,
            status: "Test complete."@,
            ..d
        },
        _ => d,
    }
}

impl Dashboard {
    /// A fresh dashboard: idle and ready.
    pub fn new() -> (d: Self)
        ensures
            d@.status == "Ready to jack in."@,
            d@.phase == Phase::Idle,
            !d@.running,
            d@.location is None,
            d@.isp is None,
            d@.server is None,
    {
        Dashboard {
            status: String::from_str("Ready to jack in."),
            phase: Phase::Idle,
            running: false,
            location: None,
            isp: None,
            server: None,
        }
    }

    /// Apply a single progress event.
    pub fn apply(&mut self, event: ProgressEvent)
        ensures
            final(self)@ == dashboard_after(old(self)@, event),
    {
        match event {
            ProgressEvent::Status(msg) => {
                self.status = msg;
            },
            ProgressEvent::LocationDetected { city, country, isp } => {
                self.location = Some(city.concat(", ").concat(country.as_str()));
                self.isp = isp;
                self.phase = Phase::Locating;
            },
            ProgressEvent::ServerPoolBuilt | ProgressEvent::NearbyServersFound
            | ProgressEvent::ServersSelected => {
                self.phase = Phase::Servers;
            },
            ProgressEvent::PrimarySelected { name, location } => {
                self.server = Some(name.concat(" · ").concat(location.as_str()));
                self.phase = Phase::Servers;
            },
            ProgressEvent::PhaseStarted(stage) => {
                self.phase = match stage {
                    TestPhase::Locating => Phase::Locating,
                    TestPhase::BuildingServers | TestPhase::SelectingServers => Phase::Servers,
                    TestPhase::Latency => Phase::Latency,
                    TestPhase::Download => Phase::Download,
                    TestPhase::Upload => Phase::Upload,
                    TestPhase::Jitter => self.phase,
                };
                self.status = String::from_str(stage.title());
            },
            ProgressEvent::Completed => {
                self.phase = Phase::Done;
                self.status = String::from_str("Test complete.");
            },
            _ => {},
        }
    }

    /// Start a run unless one is under way; returns whether it started.
    /// A new run begins locating, with the place, ISP and server cleared.
    pub fn begin_run(&mut self) -> (started: bool)
        ensures
            started == !old(self).running,
            !started ==> final(self)@ == old(self)@,
            started ==> final(self)@ == (DashboardView {
                status: "Initialising neural interface…"@,
                phase: Phase::Locating,
                running: true,
                location: None,
                isp: None,
                server: None,
            }),
    {
        if self.running {
            return false;
        }
        self.running = true;
        self.phase = Phase::Locating;
        self.status = String::from_str("Initialising neural interface…");
        self.location = None;
        self.isp = None;
        self.server = None;
        true
    }

    /// The run ended (its event stream closed): no longer running, and the
    /// phase shows it as complete.
    pub fn finish_run(&mut self)
        ensures
            final(self)@ == (DashboardView { running: false, phase: Phase::Done, ..old(self)@ }),
    {
        self.running = false;
        if self.phase != Phase::Done {
            self.phase = Phase::Done;
        }
    }
}

/// The chart buffer after appending `value`: the newest `MAX_SAMPLES`
/// samples, oldest first.
pub open spec fn capped_push<T>(buf: Seq<T>, value: T) -> Seq<T> {
    let all = buf.push(value);
    if all.len() > MAX_SAMPLES {
        all.skip(all.len() - MAX_SAMPLES)
    } else {
        all
    }
}

/// Append a sample to a chart buffer, dropping the oldest samples beyond
/// `MAX_SAMPLES`.
pub fn push_sample<T>(buf: &mut Vec<T>, value: T)
    requires
        old(buf).len() < usize::MAX,
    ensures
        final(buf)@ == capped_push(old(buf)@, value),
{
    buf.push(value);
    if buf.len() > MAX_SAMPLES {
        let overflow = buf.len() - MAX_SAMPLES;
        let rest = buf.split_off(overflow);
        *buf = rest;
    }
}

/// A chart buffer never holds more than `MAX_SAMPLES` samples once it has
/// at most that many, the newest sample is always its last, and the
/// samples kept are the most recent ones, in order.
pub proof fn chart_buffer_keeps_newest<T>(buf: Seq<T>, value: T)
    requires
        buf.len() <= MAX_SAMPLES,
    ensures
        capped_push(buf, value).len() == if buf.len() < MAX_SAMPLES {
            buf.len() + 1
        } else {
            MAX_SAMPLES as nat
        },
        capped_push(buf, value).last() == value,
        capped_push(buf, value).is_suffix_of(buf.push(value)),
{
    let all = buf.push(value);
    let r = capped_push(buf, value);
    assert(r =~= all.subrange(all.len() - r.len(), all.len() as int));
}

/// When the engine starts a stage, the dashboard enters the phase of that
/// same stage, whatever phase it was in, and shows the stage's title:
/// locating is Locating, building and selecting servers are Servers, and
/// latency, download and upload are Latency, Download and Upload; the jitter
/// stage leaves the phase as it was. Place, ISP, server and the running
/// flag are untouched.
pub proof fn stage_start_sets_phase(d: DashboardView, stage: TestPhase)
    ensures
        dashboard_after(d, ProgressEvent::PhaseStarted(stage)).phase == (match stage {
            TestPhase::Locating => Phase::Locating,
            TestPhase::BuildingServers => Phase::Servers,
            TestPhase::SelectingServers => Phase::Servers,
            TestPhase::Latency => Phase::Latency,
            TestPhase::Download => Phase::Download,
            TestPhase::Upload => Phase::Upload,
            TestPhase::Jitter => d.phase,
        }),
        dashboard_after(d, ProgressEvent::PhaseStarted(stage)).status == phase_title(stage),
        dashboard_after(d, ProgressEvent::PhaseStarted(stage)).location == d.location,
        dashboard_after(d, ProgressEvent::PhaseStarted(stage)).isp == d.isp,
        dashboard_after(d, ProgressEvent::PhaseStarted(stage)).server == d.server,
        dashboard_after(d, ProgressEvent::PhaseStarted(stage)).running == d.running,
{
}

/// The three measurement stages put the dashboard in three different
/// phases, and none of them leaves it idle, locating or done.
pub proof fn measurement_stages_are_told_apart(d: DashboardView, e: DashboardView)
    ensures
        dashboard_after(d, ProgressEvent::PhaseStarted(TestPhase::Latency)).phase
            != dashboard_after(e, ProgressEvent::PhaseStarted(TestPhase::Download)).phase,
        dashboard_after(d, ProgressEvent::PhaseStarted(TestPhase::Latency)).phase
            != dashboard_after(e, ProgressEvent::PhaseStarted(TestPhase::Upload)).phase,
        dashboard_after(d, ProgressEvent::PhaseStarted(TestPhase::Download)).phase
            != dashboard_after(e, ProgressEvent::PhaseStarted(TestPhase::Upload)).phase,
        dashboard_after(d, ProgressEvent::PhaseStarted(TestPhase::Upload)).phase == Phase::Upload,
        dashboard_after(d, ProgressEvent::PhaseStarted(TestPhase::Download)).phase == Phase::Download,
        dashboard_after(d, ProgressEvent::PhaseStarted(TestPhase::Latency)).phase == Phase::Latency,
{
}

} // verus!
