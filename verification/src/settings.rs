//! User preferences shared across runs, the configuration they produce,
//! and the edits the settings panel makes to them.
//!
//! Reading and writing the JSON file is left to the caller; this module
//! holds the values and every rule that changes them.

use vstd::prelude::*;
use crate::text::str_eq;
use crate::types::{DetailLevel, TestConfig};

verus! {

/// Persistent user preferences shared across runs.
#[derive(Debug, Clone, PartialEq)]
pub struct Settings {
    /// Preferred test server URL.
    pub server_url: String,
    /// Test payload size in megabytes.
    pub test_size_mb: u64,
    /// Per-test timeout in seconds.
    pub timeout_seconds: u64,
    /// Output detail level.
    pub detail_level: DetailLevel,
    /// Whether animations/live charts are enabled.
    pub animations: bool,
    /// Automatically run a test when the app launches.
    pub auto_run: bool,
    /// How many past runs to show in history views.
    pub max_history: usize,
}

/// Number of test servers that the settings panel cycles through.
pub const SERVER_PRESET_COUNT: usize = 4;

/// Smallest and largest payload size, in megabytes, that the panel allows.
pub const MIN_TEST_SIZE_MB: i64 = 1;
pub const MAX_TEST_SIZE_MB: i64 = 1000;

/// Smallest and largest per-test timeout, in seconds, that the panel allows.
pub const MIN_TIMEOUT_SECONDS: i64 = 5;
pub const MAX_TIMEOUT_SECONDS: i64 = 120;

/// The test servers cycled through by the settings panel, in order.
pub open spec fn server_presets() -> Seq<Seq<char>> {
    seq![
        "https://speed.cloudflare.com"@,
        "https://httpbin.org"@,
        "https://www.google.com"@,
        "https://fast.com"@,
    ]
}

/// Position of `url` among the presets, or `-1` when it is none of them.
pub open spec fn preset_position(url: Seq<char>) -> int {
    if url == server_presets()[0] {
        0
    } else if url == server_presets()[1] {
        1
    } else if url == server_presets()[2] {
        2
    } else if url == server_presets()[3] {
        3
    } else {
        -1
    }
}

/// The preset that follows `url`: the next one in order (wrapping around),
/// or the first preset when `url` is not a preset.
pub open spec fn next_preset(url: Seq<char>) -> Seq<char> {
    let i = preset_position(url);
    if i < 0 {
        server_presets()[0]
    } else {
        server_presets()[(i + 1) % (SERVER_PRESET_COUNT as int)]
    }
}

/// The detail level that follows `level` in the panel's cycle.
pub open spec fn next_detail(level: DetailLevel) -> DetailLevel {
    match level {
        DetailLevel::Basic => DetailLevel::Standard,
        DetailLevel::Standard => DetailLevel::Detailed,
        DetailLevel::Detailed => DetailLevel::Debug,
        DetailLevel::Debug => DetailLevel::Basic,
    }
}

/// `v` reinterpreted as a signed 64-bit integer (two's complement).
pub open spec fn as_signed(v: u64) -> int {
    if v <= i64::MAX { v as int } else { v - 0x1_0000_0000_0000_0000 }
}

/// `v` limited to the range `lo..=hi`.
pub open spec fn clamp(v: int, lo: int, hi: int) -> int {
    if v < lo { lo } else if v > hi { hi } else { v }
}

/// The preset URL at position `i`.
pub fn server_preset(i: usize) -> (url: &'static str)
    requires
        i < SERVER_PRESET_COUNT,
    ensures
        url@ == server_presets()[i as int],
{
    match i {
        0 => "https://speed.cloudflare.com",
        1 => "https://httpbin.org",
        2 => "https://www.google.com",
        _ => "https://fast.com",
    }
}

/// Position of `url` among the presets, the first that equals it.
fn preset_index(url: &str) -> (r: Option<usize>)
    ensures
        match r {
            Some(i) => i < SERVER_PRESET_COUNT && preset_position(url@) == i,
            None => preset_position(url@) == -1,
        },
{
    if str_eq(url, server_preset(0)) {
        Some(0)
    } else if str_eq(url, server_preset(1)) {
        Some(1)
    } else if str_eq(url, server_preset(2)) {
        Some(2)
    } else if str_eq(url, server_preset(3)) {
        Some(3)
    } else {
        None
    }
}

/// `v` reinterpreted as `i64`, as `v as i64` does.
fn to_signed(v: u64) -> (r: i64)
    ensures
        r as int == as_signed(v),
{
    if v <= 0x7fff_ffff_ffff_ffff {
        v as i64
    } else {
        let below: u64 = 0xffff_ffff_ffff_ffff - v;
        -(below as i64) - 1
    }
}

/// `base + delta` limited to `lo..=hi`.
fn clamp_sum(base: i64, delta: i64, lo: i64, hi: i64) -> (r: i64)
    requires
        i64::MIN <= base + delta <= i64::MAX,
        lo <= hi,
    ensures
        r as int == clamp(base + delta, lo as int, hi as int),
{
    let v = base + delta;
    if v < lo {
        lo
    } else if v > hi {
        hi
    } else {
        v
    }
}

impl Settings {
    /// The settings that `Settings::default()` produces.
    pub open spec fn is_default(self) -> bool {
        &&& self.server_url@ == crate::types::default_server_url()
        &&& self.test_size_mb == 10
        &&& self.timeout_seconds == 30
        &&& self.detail_level == DetailLevel::Standard
        &&& self.animations
        &&& self.auto_run
        &&& self.max_history == 20
    }

    /// The configuration that `to_config` builds from these settings.
    pub open spec fn config_matches(self, cfg: TestConfig) -> bool {
        &&& cfg.server_url@ == self.server_url@
        &&& cfg.test_size_mb == self.test_size_mb
        &&& cfg.timeout_seconds == self.timeout_seconds
        &&& !cfg.json_output
        &&& cfg.animation_enabled == self.animations
        &&& cfg.detail_level == self.detail_level
        &&& cfg.max_servers == 3
    }

    /// Build a [`TestConfig`] from these settings.
    pub fn to_config(&self) -> (cfg: TestConfig)
        ensures
            self.config_matches(cfg),
    {
        TestConfig {
            server_url: self.server_url.clone(),
            test_size_mb: self.test_size_mb,
            timeout_seconds: self.timeout_seconds,
            json_output: false,
            animation_enabled: self.animations,
            detail_level: self.detail_level,
            max_servers: 3,
        }
    }

    /// Toggle the "run a test on launch" preference.
    pub fn toggle_auto_run(&mut self)
        ensures
            final(self).auto_run == !old(self).auto_run,
            final(self).server_url == old(self).server_url,
            final(self).test_size_mb == old(self).test_size_mb,
            final(self).timeout_seconds == old(self).timeout_seconds,
            final(self).detail_level == old(self).detail_level,
            final(self).animations == old(self).animations,
            final(self).max_history == old(self).max_history,
    {
        self.auto_run = !self.auto_run;
    }

    /// Cycle the test server through the built-in presets.
    pub fn cycle_server(&mut self)
        ensures
            final(self).server_url@ == next_preset(old(self).server_url@),
            final(self).auto_run == old(self).auto_run,
            final(self).test_size_mb == old(self).test_size_mb,
            final(self).timeout_seconds == old(self).timeout_seconds,
            final(self).detail_level == old(self).detail_level,
            final(self).animations == old(self).animations,
            final(self).max_history == old(self).max_history,
    {
        let idx: usize = match preset_index(self.server_url.as_str()) {
            Some(i) => (i + 1) % SERVER_PRESET_COUNT,
            None => 0,
        };
        self.server_url = String::from_str(server_preset(idx));
    }

    /// Adjust the test payload size (MB) by `delta`, clamped to `1..=1000`.
    pub fn adjust_size(&mut self, delta: i64)
        requires
            i64::MIN <= as_signed(old(self).test_size_mb) + delta <= i64::MAX,
        ensures
            final(self).test_size_mb as int == clamp(
                as_signed(old(self).test_size_mb) + delta,
                MIN_TEST_SIZE_MB as int,
                MAX_TEST_SIZE_MB as int,
            ),
            final(self).server_url == old(self).server_url,
            final(self).auto_run == old(self).auto_run,
            final(self).timeout_seconds == old(self).timeout_seconds,
            final(self).detail_level == old(self).detail_level,
            final(self).animations == old(self).animations,
            final(self).max_history == old(self).max_history,
    {
        let v = clamp_sum(to_signed(self.test_size_mb), delta, MIN_TEST_SIZE_MB, MAX_TEST_SIZE_MB);
        self.test_size_mb = v as u64;
    }

    /// Adjust the per-test timeout (seconds) by `delta`, clamped to `5..=120`.
    pub fn adjust_timeout(&mut self, delta: i64)
        requires
            i64::MIN <= as_signed(old(self).timeout_seconds) + delta <= i64::MAX,
        ensures
            final(self).timeout_seconds as int == clamp(
                as_signed(old(self).timeout_seconds) + delta,
                MIN_TIMEOUT_SECONDS as int,
                MAX_TIMEOUT_SECONDS as int,
            ),
            final(self).server_url == old(self).server_url,
            final(self).auto_run == old(self).auto_run,
            final(self).test_size_mb == old(self).test_size_mb,
            final(self).detail_level == old(self).detail_level,
            final(self).animations == old(self).animations,
            final(self).max_history == old(self).max_history,
    {
        let v = clamp_sum(
            to_signed(self.timeout_seconds),
            delta,
            MIN_TIMEOUT_SECONDS,
            MAX_TIMEOUT_SECONDS,
        );
        self.timeout_seconds = v as u64;
    }

    /// Cycle the output detail level: Basic, Standard, Detailed, Debug, Basic.
    pub fn cycle_detail(&mut self)
        ensures
            final(self).detail_level == next_detail(old(self).detail_level),
            final(self).server_url == old(self).server_url,
            final(self).auto_run == old(self).auto_run,
            final(self).test_size_mb == old(self).test_size_mb,
            final(self).timeout_seconds == old(self).timeout_seconds,
            final(self).animations == old(self).animations,
            final(self).max_history == old(self).max_history,
    {
        self.detail_level = match self.detail_level {
            DetailLevel::Basic => DetailLevel::Standard,
            DetailLevel::Standard => DetailLevel::Detailed,
            DetailLevel::Detailed => DetailLevel::Debug,
            DetailLevel::Debug => DetailLevel::Basic,
        };
    }
}

impl Default for Settings {
    fn default() -> (s: Self)
        ensures
            s.is_default(),
    {
        let cfg = TestConfig::default();
        Settings {
            server_url: cfg.server_url,
            test_size_mb: cfg.test_size_mb,
            timeout_seconds: cfg.timeout_seconds,
            detail_level: cfg.detail_level,
            animations: cfg.animation_enabled,
            auto_run: true,
            max_history: 20,
        }
    }
}

/// The default settings describe exactly the default test configuration:
/// building a configuration from `Settings::default()` gives what
/// `TestConfig::default()` gives.
pub proof fn default_settings_give_default_config(s: Settings, cfg: TestConfig)
    requires
        s.is_default(),
        s.config_matches(cfg),
    ensures
        cfg.is_default(),
{
}

/// Any adjustment of the payload size leaves it within `1..=1000` MB, and
/// any adjustment of the timeout leaves it within `5..=120` seconds.
pub proof fn adjustments_stay_in_range(v: int, delta: int)
    ensures
        MIN_TEST_SIZE_MB <= clamp(v + delta, MIN_TEST_SIZE_MB as int, MAX_TEST_SIZE_MB as int)
            <= MAX_TEST_SIZE_MB,
        MIN_TIMEOUT_SECONDS <= clamp(
            v + delta,
            MIN_TIMEOUT_SECONDS as int,
            MAX_TIMEOUT_SECONDS as int,
        ) <= MAX_TIMEOUT_SECONDS,
{
}

/// The presets are four distinct URLs.
proof fn presets_are_distinct()
    ensures
        forall|i: int, j: int|
            0 <= i < SERVER_PRESET_COUNT && 0 <= j < SERVER_PRESET_COUNT && i != j
                ==> server_presets()[i] != server_presets()[j],
{
    reveal_strlit("https://speed.cloudflare.com");
    reveal_strlit("https://httpbin.org");
    reveal_strlit("https://www.google.com");
    reveal_strlit("https://fast.com");
    assert(server_presets()[0].len() != server_presets()[1].len());
    assert(server_presets()[0].len() != server_presets()[2].len());
    assert(server_presets()[0].len() != server_presets()[3].len());
    assert(server_presets()[1].len() != server_presets()[2].len());
    assert(server_presets()[1].len() != server_presets()[3].len());
    assert(server_presets()[2].len() != server_presets()[3].len());
}

/// Cycling the server moves from any URL onto the presets, and four cycles
/// from a preset come back to it.
pub proof fn cycle_server_returns_after_four(url: Seq<char>)
    ensures
        preset_position(next_preset(url)) >= 0,
        preset_position(url) >= 0 ==> next_preset(next_preset(next_preset(next_preset(url)))) == url,
{
    presets_are_distinct();
    assert(preset_position(server_presets()[0]) == 0);
    assert(preset_position(server_presets()[1]) == 1);
    assert(preset_position(server_presets()[2]) == 2);
    assert(preset_position(server_presets()[3]) == 3);
}

/// Four detail-level cycles come back to the starting level.
pub proof fn cycle_detail_returns_after_four(level: DetailLevel)
    ensures
        next_detail(next_detail(next_detail(next_detail(level)))) == level,
{
}

} // verus!
