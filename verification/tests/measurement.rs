use netrunner_core::dashboard::{push_sample, Dashboard, Phase, ProgressEvent, MAX_SAMPLES};
use netrunner_core::diagnostics::{
    connection_type, hop_delay_range, ipv6_status, network_interface_for, route_hop,
    sample_hop_delay, sample_ipv6_available, sample_wireless, MAX_HOPS,
};
use netrunner_core::events::Phase as TestPhase;
use netrunner_core::throughput::{steady_sample_indices, trim_window, SampleClass};

const WARMUP_SECS: f64 = 3.0;

/// The sustained rate computed the way the engine does, from the library's
/// selection and window.
fn sustained_mbps(samples: &[(f64, f64)], warmup_secs: f64) -> f64 {
    let classes: Vec<SampleClass> = samples
        .iter()
        .map(|(t, mbps)| SampleClass { after_warmup: *t >= warmup_secs, positive: *mbps > 0.0 })
        .collect();
    let mut steady: Vec<f64> = steady_sample_indices(&classes).iter().map(|&i| samples[i].1).collect();
    if steady.is_empty() {
        return 0.0;
    }
    steady.sort_by(|a, b| a.partial_cmp(b).unwrap());
    let (lo, hi) = trim_window(steady.len());
    let slice = &steady[lo..hi];
    slice.iter().sum::<f64>() / slice.len() as f64
}

#[test]
fn sustained_mbps_excludes_warmup() {
    let samples = vec![
        (0.2, 5.0),
        (1.0, 20.0),
        (2.0, 60.0),
        (3.2, 100.0),
        (4.0, 101.0),
        (5.0, 99.0),
        (6.0, 100.0),
    ];
    let mbps = sustained_mbps(&samples, WARMUP_SECS);
    assert!((mbps - 100.0).abs() < 5.0, "expected ~100 sustained, got {mbps}");
}

#[test]
fn sustained_mbps_trims_outliers() {
    let mut samples = vec![(3.5, 0.1), (3.6, 5000.0)];
    for i in 0..20 {
        samples.push((4.0 + i as f64 * 0.1, 500.0));
    }
    let mbps = sustained_mbps(&samples, WARMUP_SECS);
    assert!((mbps - 500.0).abs() < 20.0, "expected ~500, got {mbps}");
}

#[test]
fn sustained_mbps_zero_when_no_data() {
    assert_eq!(sustained_mbps(&[], WARMUP_SECS), 0.0);
    assert_eq!(sustained_mbps(&[(4.0, 0.0), (5.0, 0.0)], WARMUP_SECS), 0.0);
}

#[test]
fn sustained_mbps_falls_back_for_short_tests() {
    let samples = vec![(0.5, 40.0), (1.0, 60.0), (1.5, 50.0)];
    let mbps = sustained_mbps(&samples, WARMUP_SECS);
    assert!(mbps > 0.0, "short test should still estimate, got {mbps}");
}

#[test]
fn steady_selection_prefers_post_warmup() {
    let c = |a, p| SampleClass { after_warmup: a, positive: p };
    let classes = vec![c(false, true), c(true, true), c(true, false), c(true, true)];
    assert_eq!(steady_sample_indices(&classes), vec![1, 3]);
    let warm_only = vec![c(false, true), c(false, false), c(false, true)];
    assert_eq!(steady_sample_indices(&warm_only), vec![0, 2]);
    let empty: Vec<SampleClass> = vec![c(true, false), c(false, false)];
    assert!(steady_sample_indices(&empty).is_empty());
}

#[test]
fn trim_window_values() {
    assert_eq!(trim_window(0), (0, 0));
    assert_eq!(trim_window(1), (0, 1));
    assert_eq!(trim_window(9), (0, 9));
    assert_eq!(trim_window(10), (1, 9));
    assert_eq!(trim_window(22), (2, 20));
}

#[test]
fn sample_buffer_is_capped() {
    let mut buf: Vec<f32> = Vec::new();
    for i in 0..(MAX_SAMPLES + 50) {
        push_sample(&mut buf, i as f32);
    }
    assert_eq!(buf.len(), MAX_SAMPLES);
    assert_eq!(*buf.last().unwrap(), (MAX_SAMPLES + 49) as f32);
    assert_eq!(buf[0], 50.0);
}

#[test]
fn location_event_is_formatted() {
    let mut d = Dashboard::new();
    d.apply(ProgressEvent::LocationDetected {
        city: "Berlin".into(),
        country: "Germany".into(),
        isp: Some("Example ISP".into()),
    });
    assert_eq!(d.location.as_deref(), Some("Berlin, Germany"));
    assert_eq!(d.isp.as_deref(), Some("Example ISP"));
    assert_eq!(d.phase, Phase::Locating);
}

#[test]
fn phase_events_drive_the_dashboard() {
    let mut d = Dashboard::new();
    assert_eq!(d.status, "Ready to jack in.");
    assert_eq!(d.phase.label(), "Ready");
    d.apply(ProgressEvent::PhaseStarted(TestPhase::Download));
    assert_eq!(d.phase, Phase::Download);
    assert_eq!(d.status, "Testing Download Speed");
    d.apply(ProgressEvent::PhaseStarted(TestPhase::Jitter));
    assert_eq!(d.phase, Phase::Download);
    assert_eq!(d.status, "Measuring Jitter & Packet Loss");
    d.apply(ProgressEvent::PrimarySelected { name: "Hub".into(), location: "Paris, France".into() });
    assert_eq!(d.server.as_deref(), Some("Hub · Paris, France"));
    assert_eq!(d.phase, Phase::Servers);
    d.apply(ProgressEvent::DownloadSample);
    assert_eq!(d.phase, Phase::Servers);
    d.apply(ProgressEvent::Status("hello".into()));
    assert_eq!(d.status, "hello");
    d.apply(ProgressEvent::Completed);
    assert_eq!(d.phase, Phase::Done);
    assert_eq!(d.status, "Test complete.");
    assert_eq!(d.phase.label(), "Complete");
}

#[test]
fn runs_start_once_and_finish_done() {
    let mut d = Dashboard::new();
    d.location = Some("x".into());
    assert!(d.begin_run());
    assert!(d.running);
    assert_eq!(d.phase, Phase::Locating);
    assert_eq!(d.location, None);
    assert!(!d.begin_run());
    d.finish_run();
    assert!(!d.running);
    assert_eq!(d.phase, Phase::Done);
}

#[test]
fn route_hops_follow_the_simulation() {
    assert_eq!(MAX_HOPS, 15);
    let h = route_hop("8.8.8.8", 2, 5);
    assert_eq!(h.hop_number, 2);
    assert_eq!(h.address, Some([192, 168, 2, 20]));
    assert_eq!(h.response_time_ms, Some(5));
    assert_eq!(h.hostname, None);
    let silent = route_hop("8.8.8.8", 6, 30);
    assert_eq!(silent.address, None);
    assert_eq!(silent.response_time_ms, None);
    let last = route_hop("8.8.8.8", 15, 99);
    assert_eq!(last.address, Some([8, 8, 8, 8]));
    assert_eq!(last.hostname.as_deref(), Some("8.8.8.8"));
    assert_eq!(last.response_time_ms, Some(99));
    assert_eq!(route_hop("x", 14, 70).address, Some([192, 168, 14, 140]));
}

#[test]
fn hop_delays_stay_in_range() {
    assert_eq!(hop_delay_range(1), (1, 10));
    assert_eq!(hop_delay_range(5), (10, 50));
    assert_eq!(hop_delay_range(12), (50, 150));
    for hop in 1..=15u32 {
        let (lo, hi) = hop_delay_range(hop);
        for _ in 0..20 {
            let d = sample_hop_delay(hop);
            assert!(lo <= d && d < hi);
        }
    }
    let _ = sample_ipv6_available();
    let _ = sample_wireless();
}

#[test]
fn diagnostic_labels() {
    assert_eq!(ipv6_status(true), "IPv6: active");
    assert_eq!(ipv6_status(false), "IPv6: inactive");
    assert_eq!(connection_type(true), "Wireless (Wi-Fi)");
    assert_eq!(connection_type(false), "Wired (Ethernet)");
    assert_eq!(network_interface_for("windows"), "Ethernet");
    assert_eq!(network_interface_for("macos"), "en0");
    assert_eq!(network_interface_for("linux"), "eth0");
}

#[test]
fn random_draws_vary() {
    let draws: Vec<u64> = (0..300).map(|_| sample_hop_delay(12)).collect();
    assert!(draws.iter().all(|&d| (50..150).contains(&d)));
    assert!(draws.iter().any(|&d| d != 50));
    assert!(draws.iter().any(|&d| d != draws[0]));
    let wireless: Vec<bool> = (0..300).map(|_| sample_wireless()).collect();
    assert!(wireless.iter().any(|&w| w) && wireless.iter().any(|&w| !w));
    let ipv6: Vec<bool> = (0..300).map(|_| sample_ipv6_available()).collect();
    assert!(ipv6.iter().any(|&a| a) && ipv6.iter().any(|&a| !a));
}
