use netrunner_core::events::Phase;
use netrunner_core::palette;
use netrunner_core::presentation::{quality_color, quality_rgb};
use netrunner_core::settings::{server_preset, Settings, SERVER_PRESET_COUNT};
use netrunner_core::types::{ConnectionQuality, DetailLevel, TestConfig};

#[test]
fn phase_titles_are_present() {
    assert_eq!(Phase::Download.title(), "Testing Download Speed");
    assert_eq!(Phase::Upload.title(), "Testing Upload Speed");
    assert_eq!(Phase::Latency.title(), "Testing Latency");
}

#[test]
fn every_phase_has_its_title() {
    assert_eq!(Phase::Locating.title(), "Detecting Location");
    assert_eq!(Phase::BuildingServers.title(), "Building Server Pool");
    assert_eq!(Phase::SelectingServers.title(), "Selecting Best Servers");
    assert_eq!(Phase::Jitter.title(), "Measuring Jitter & Packet Loss");
}

#[test]
fn quality_rgb_is_stable() {
    assert_eq!(quality_rgb(ConnectionQuality::Excellent), palette::GREEN);
    assert_eq!(quality_rgb(ConnectionQuality::Good), palette::CYAN);
    assert_eq!(quality_rgb(ConnectionQuality::Failed), palette::DIM);
}

#[test]
fn macro_uses_canonical_palette() {
    let tuple_color = |q: ConnectionQuality| quality_color(q, |r, g, b| (r, g, b));
    assert_eq!(tuple_color(ConnectionQuality::Average), palette::YELLOW);
    assert_eq!(tuple_color(ConnectionQuality::Poor), palette::ORANGE);
    assert_eq!(tuple_color(ConnectionQuality::VeryPoor), palette::RED);
}

#[test]
fn palette_values_are_exact() {
    assert_eq!(palette::GREEN, (0x00, 0xff, 0x80));
    assert_eq!(palette::CYAN, (0x00, 0xff, 0xff));
    assert_eq!(palette::YELLOW, (0xff, 0xdc, 0x00));
    assert_eq!(palette::ORANGE, (0xff, 0x8c, 0x00));
    assert_eq!(palette::RED, (0xff, 0x3c, 0x3c));
    assert_eq!(palette::DIM, (0x50, 0x50, 0x64));
}

#[test]
fn quality_color_builds_front_end_values() {
    let packed = quality_color(ConnectionQuality::Excellent, |r, g, b| {
        ((r as u32) << 16) | ((g as u32) << 8) | b as u32
    });
    assert_eq!(packed, 0x00ff80);
}

#[test]
fn quality_colours_differ() {
    let all = [
        ConnectionQuality::Excellent,
        ConnectionQuality::Good,
        ConnectionQuality::Average,
        ConnectionQuality::Poor,
        ConnectionQuality::VeryPoor,
        ConnectionQuality::Failed,
    ];
    for (i, a) in all.iter().enumerate() {
        for (j, b) in all.iter().enumerate() {
            assert_eq!(i == j, quality_rgb(*a) == quality_rgb(*b));
        }
    }
}

#[test]
fn default_matches_test_config() {
    let s = Settings::default();
    let c = s.to_config();
    assert_eq!(c.server_url, TestConfig::default().server_url);
    assert_eq!(c.test_size_mb, 10);
    assert!(s.auto_run);
    assert_eq!(s.max_history, 20);
}

#[test]
fn default_config_values() {
    let c = TestConfig::default();
    assert_eq!(c.server_url, "https://speed.cloudflare.com");
    assert_eq!(c.test_size_mb, 10);
    assert_eq!(c.timeout_seconds, 30);
    assert!(!c.json_output);
    assert!(c.animation_enabled);
    assert_eq!(c.detail_level, DetailLevel::Standard);
    assert_eq!(c.max_servers, 3);
}

#[test]
fn to_config_copies_the_preferences() {
    let mut s = Settings::default();
    s.server_url = "https://fast.com".to_string();
    s.test_size_mb = 77;
    s.timeout_seconds = 42;
    s.detail_level = DetailLevel::Debug;
    s.animations = false;
    let c = s.to_config();
    assert_eq!(c.server_url, "https://fast.com");
    assert_eq!(c.test_size_mb, 77);
    assert_eq!(c.timeout_seconds, 42);
    assert_eq!(c.detail_level, DetailLevel::Debug);
    assert!(!c.animation_enabled);
    assert!(!c.json_output);
    assert_eq!(c.max_servers, 3);
}

#[test]
fn cycle_server_walks_the_presets() {
    let mut s = Settings::default();
    assert_eq!(s.server_url, server_preset(0));
    s.cycle_server();
    assert_eq!(s.server_url, "https://httpbin.org");
    s.cycle_server();
    assert_eq!(s.server_url, "https://www.google.com");
    s.cycle_server();
    assert_eq!(s.server_url, "https://fast.com");
    s.cycle_server();
    assert_eq!(s.server_url, "https://speed.cloudflare.com");
    assert_eq!(SERVER_PRESET_COUNT, 4);
}

#[test]
fn cycle_server_from_custom_url_starts_at_first_preset() {
    let mut s = Settings::default();
    s.server_url = "https://example.org".to_string();
    s.cycle_server();
    assert_eq!(s.server_url, "https://speed.cloudflare.com");
    assert_eq!(s.test_size_mb, 10);
}

#[test]
fn adjust_size_is_clamped() {
    let mut s = Settings::default();
    s.adjust_size(5);
    assert_eq!(s.test_size_mb, 15);
    s.adjust_size(-100);
    assert_eq!(s.test_size_mb, 1);
    s.adjust_size(5000);
    assert_eq!(s.test_size_mb, 1000);
    s.test_size_mb = u64::MAX;
    s.adjust_size(0);
    assert_eq!(s.test_size_mb, 1);
}

#[test]
fn adjust_timeout_is_clamped() {
    let mut s = Settings::default();
    s.adjust_timeout(10);
    assert_eq!(s.timeout_seconds, 40);
    s.adjust_timeout(-1000);
    assert_eq!(s.timeout_seconds, 5);
    s.adjust_timeout(1000);
    assert_eq!(s.timeout_seconds, 120);
}

#[test]
fn cycle_detail_and_auto_run() {
    let mut s = Settings::default();
    s.cycle_detail();
    assert_eq!(s.detail_level, DetailLevel::Detailed);
    s.cycle_detail();
    assert_eq!(s.detail_level, DetailLevel::Debug);
    s.cycle_detail();
    assert_eq!(s.detail_level, DetailLevel::Basic);
    s.cycle_detail();
    assert_eq!(s.detail_level, DetailLevel::Standard);
    s.toggle_auto_run();
    assert!(!s.auto_run);
    s.toggle_auto_run();
    assert!(s.auto_run);
}
