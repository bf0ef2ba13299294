//! Domain types shared by every module: connection quality ratings,
//! output detail levels and the speed-test configuration.

use vstd::prelude::*;

verus! {

/// Overall rating of a measured connection.
#[derive(Debug, Clone, Copy, PartialEq, Eq, Structural)]
pub enum ConnectionQuality {
    Excellent,
    Good,
    Average,
    Poor,
    VeryPoor,
    Failed,
}

/// How much output a front-end shows.
#[derive(Debug, Clone, Copy, PartialEq, Eq, Structural)]
pub enum DetailLevel {
    Basic,
    Standard,
    Detailed,
    Debug,
}

/// Configuration of a speed test run.
#[derive(Debug, Clone)]
pub struct TestConfig {
    pub server_url: String,
    pub test_size_mb: u64,
    pub timeout_seconds: u64,
    pub json_output: bool,
    pub animation_enabled: bool,
    pub detail_level: DetailLevel,
    pub max_servers: usize,
}

/// The server that a default configuration measures against.
pub open spec fn default_server_url() -> Seq<char> {
    "https://speed.cloudflare.com"@
}

impl TestConfig {
    /// The configuration that `TestConfig::default()` produces.
    pub open spec fn is_default(self) -> bool {
        &&& self.server_url@ == default_server_url()
        &&& self.test_size_mb == 10
        &&& self.timeout_seconds == 30
        &&& !self.json_output
        &&& self.animation_enabled
        &&& self.detail_level == DetailLevel::Standard
        &&& self.max_servers == 3
    }
}

impl Default for TestConfig {
    fn default() -> (cfg: Self)
        ensures
            cfg.is_default(),
    {
        TestConfig {
            server_url: String::from_str("https://speed.cloudflare.com"),
            test_size_mb: 10,
            timeout_seconds: 30,
            json_output: false,
            animation_enabled: true,
            detail_level: DetailLevel::Standard,
            max_servers: 3,
        }
    }
}

} // verus!
