use netrunner_core::servers::{
    continent_sites, country_sites, estimate_distance_km, host_label, is_global_anycast,
    open_speedtest_sites, speedtest_net_site,
};

#[test]
fn continent_hubs_for_europe() {
    let v = continent_sites("Europe");
    assert_eq!(v.len(), 2);
    assert_eq!(v[0].name, "Europe Central Hub");
    assert_eq!(v[0].url, "https://frankfurt.speedtest.wtnet.de");
    assert_eq!(v[0].city.as_deref(), Some("Frankfurt"));
    assert_eq!(v[0].country_code.as_deref(), Some("DE"));
    assert_eq!(v[0].coordinates, Some((501109, 86821)));
    assert_eq!(v[1].city.as_deref(), Some("London"));
    assert_eq!(v[1].coordinates, Some((515074, -1278)));
}

#[test]
fn continent_hubs_elsewhere() {
    assert_eq!(continent_sites("North America").len(), 2);
    assert_eq!(continent_sites("Asia").len(), 2);
    let sa = continent_sites("South America");
    assert_eq!(sa.len(), 1);
    assert_eq!(sa[0].city.as_deref(), Some("São Paulo"));
    assert_eq!(continent_sites("Africa")[0].city.as_deref(), Some("Cape Town"));
    assert_eq!(continent_sites("Oceania")[0].coordinates, Some((-338688, 1512093)));
    let sg = &continent_sites("Asia")[0];
    assert_eq!(sg.city.as_deref(), Some("Singapore"));
    assert!(continent_sites("Unknown").is_empty());
}

#[test]
fn hub_coordinates_convert_to_the_catalogue_degrees() {
    let v = continent_sites("North America");
    let (lat, lon) = v[0].coordinates.unwrap();
    assert_eq!(lat as f64 / 10000.0, 39.0438);
    assert_eq!(lon as f64 / 10000.0, -77.4874);
}

#[test]
fn country_primaries() {
    let us = country_sites("US");
    assert_eq!(us.len(), 1);
    assert_eq!(us[0].name, "US Central");
    assert_eq!(us[0].city.as_deref(), Some("Dallas"));
    assert_eq!(us[0].coordinates, None);
    assert_eq!(country_sites("United Kingdom")[0].country_code.as_deref(), Some("GB"));
    assert_eq!(country_sites("UK")[0].url, "https://lon.speedtest.wtnet.de");
    assert_eq!(country_sites("Canada")[0].city.as_deref(), Some("Toronto"));
    assert!(country_sites("Brazil").is_empty());
}

#[test]
fn open_endpoints() {
    let v = open_speedtest_sites();
    assert_eq!(v.len(), 9);
    assert!(is_global_anycast(&v[0]));
    assert_eq!(v[0].country_code.as_deref(), Some("Global"));
    assert_eq!(v[0].city.as_deref(), Some("Global"));
    assert!(!is_global_anycast(&v[1]));
    assert_eq!(v[2].country_code.as_deref(), Some("Netherlands"));
    assert_eq!(v[2].city.as_deref(), Some("Amsterdam"));
    assert_eq!(v[3].country_code.as_deref(), Some("Singapore"));
    assert_eq!(v[8].name, "LibreSpeed Sydney");
}

#[test]
fn speedtest_net_entries() {
    let s = speedtest_net_site("speedtest.example.net", "Berlin", "DE");
    assert_eq!(s.name, "Berlin, DE");
    assert_eq!(s.location, "Berlin, DE");
    assert_eq!(s.url, "https://speedtest.example.net");
    assert_eq!(s.city.as_deref(), Some("Berlin"));
    assert_eq!(s.country_code.as_deref(), Some("DE"));
    assert_eq!(host_label("speedtest.example.net"), "speedtest");
    assert_eq!(host_label("localhost"), "localhost");
}

#[test]
fn distance_estimates() {
    assert_eq!(estimate_distance_km("Germany", "Berlin", Some("Berlin"), "Berlin, DE"), 10);
    assert_eq!(estimate_distance_km("United States", "Austin", Some("Dallas"), "Dallas, USA"), 500);
    assert_eq!(estimate_distance_km("Germany", "Berlin", Some("London"), "London, UK"), 300);
    assert_eq!(estimate_distance_km("Japan", "Osaka", Some("Tokyo"), "Tokyo, Japan"), 400);
    assert_eq!(estimate_distance_km("Germany", "Berlin", None, "Global CDN"), 5000);
    assert_eq!(estimate_distance_km("Brazil", "Rio", Some("Dallas"), "Dallas, USA"), 5000);
}
