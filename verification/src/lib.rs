//! Verified core of the netrunner speed-test and network-diagnostics engine.
//!
//! The network, timing and floating-point measurement code drives this
//! library; every decision it takes about configuration, presentation,
//! server catalogues, geolocation fail-over, sample selection and the
//! simulated diagnostics route lives here with a contract.

pub mod types;
pub mod events;
pub mod text;
pub mod presentation;
pub mod settings;
pub mod geo;
pub mod servers;
pub mod throughput;
pub mod dashboard;
pub mod diagnostics;

pub use events::Phase;
pub use presentation::{palette, quality_rgb};
pub use settings::Settings;
pub use types::{ConnectionQuality, DetailLevel, TestConfig};
