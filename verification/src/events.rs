//! The stages of a full speed test, as reported to front-ends.

use vstd::prelude::*;

verus! {

/// A single stage of a full speed test.
#[derive(Debug, Clone, Copy, PartialEq, Eq, Structural)]
pub enum Phase {
    /// Detecting the caller's geographic location.
    Locating,
    /// Building the candidate server pool.
    BuildingServers,
    /// Latency-probing the pool to pick the fastest servers.
    SelectingServers,
    /// Measuring round-trip latency.
    Latency,
    /// Measuring download throughput.
    Download,
    /// Measuring upload throughput.
    Upload,
    /// Measuring jitter and packet loss.
    Jitter,
}

/// The section title shown for each phase.
pub open spec fn phase_title(phase: Phase) -> Seq<char> {
    match phase {
        Phase::Locating => "Detecting Location"@,
        Phase::BuildingServers => "Building Server Pool"@,
        Phase::SelectingServers => "Selecting Best Servers"@,
        Phase::Latency => "Testing Latency"@,
        Phase::Download => "Testing Download Speed"@,
        Phase::Upload => "Testing Upload Speed"@,
        Phase::Jitter => "Measuring Jitter & Packet Loss"@,
    }
}

impl Phase {
    /// Human-readable section title for this phase.
    pub fn title(self) -> (t: &'static str)
        ensures
            t@ == phase_title(self),
    {
        match self {
            Phase::Locating => "Detecting Location",
            Phase::BuildingServers => "Building Server Pool",
            Phase::SelectingServers => "Selecting Best Servers",
            Phase::Latency => "Testing Latency",
            Phase::Download => "Testing Download Speed",
            Phase::Upload => "Testing Upload Speed",
            Phase::Jitter => "Measuring Jitter & Packet Loss",
        }
    }
}

} // verus!
