use netrunner_core::geo::{
    determine_region, first_geo_step, geo_step_after, geo_str_field, split_latlon_pair, GeoError,
    GeoProvider, GeoStep,
};

#[test]
fn test_region_determination() {
    assert_eq!(determine_region("United States"), "North America");
    assert_eq!(determine_region("Germany"), "Europe");
    assert_eq!(determine_region("Japan"), "Asia Pacific");
}

#[test]
fn other_regions() {
    assert_eq!(determine_region("Canada"), "North America");
    assert_eq!(determine_region("Poland"), "Europe");
    assert_eq!(determine_region("New Zealand"), "Asia Pacific");
    assert_eq!(determine_region("Chile"), "South America");
    assert_eq!(determine_region("Kenya"), "Other");
    assert_eq!(determine_region("germany"), "Other");
}

#[test]
fn geo_str_field_extracts_and_rejects() {
    assert_eq!(geo_str_field(Some("Berlin"), "city").unwrap(), "Berlin");
    assert!(geo_str_field(Some(""), "empty").is_err());
    assert!(geo_str_field(Some("Unknown"), "unk").is_err());
    assert!(geo_str_field(None, "missing").is_err());
}

#[test]
fn geo_str_field_names_the_rejected_field() {
    assert_eq!(
        geo_str_field(None, "country_name"),
        Err(GeoError::InvalidField("country_name".to_string()))
    );
    assert_eq!(geo_str_field(Some("unknown"), "city").unwrap(), "unknown");
}

#[test]
fn split_latlon_pair_ok_and_err() {
    assert_eq!(
        split_latlon_pair("52.52,13.40").unwrap(),
        ("52.52".to_string(), "13.40".to_string())
    );
    assert_eq!(
        split_latlon_pair(" 1.0 , 2.0 ").unwrap(),
        ("1.0".to_string(), "2.0".to_string())
    );
    assert_eq!(split_latlon_pair("52.52"), Err(GeoError::InvalidCoordinatesFormat));
    assert_eq!(split_latlon_pair("1,2,3"), Err(GeoError::InvalidCoordinatesFormat));
    assert_eq!(
        split_latlon_pair("a,b").unwrap(),
        ("a".to_string(), "b".to_string())
    );
    assert_eq!(split_latlon_pair(",").unwrap(), (String::new(), String::new()));
}

#[test]
fn providers_have_names_and_endpoints() {
    assert_eq!(GeoProvider::IpapiCo.source_name(), "ipapi.co");
    assert_eq!(GeoProvider::IpApiCom.source_name(), "ip-api.com");
    assert_eq!(GeoProvider::IpinfoIo.source_name(), "ipinfo.io");
    assert_eq!(GeoProvider::FreegeoipApp.source_name(), "freegeoip.app");
    assert_eq!(GeoProvider::IpwhoisApp.source_name(), "ipwhois.app");
    assert_eq!(GeoProvider::IpinfoIo.endpoint(), "https://ipinfo.io/json");
    assert_eq!(GeoProvider::IpwhoisApp.endpoint(), "https://ipwho.is/");
}

/// Drive the fail-over with the given per-provider outcomes.
fn drive(outcomes: [bool; 5]) -> (GeoStep, Vec<GeoProvider>) {
    let mut asked = Vec::new();
    let mut step = first_geo_step();
    while let GeoStep::Query(p) = step {
        asked.push(p);
        let rank = asked.len() - 1;
        step = geo_step_after(p, outcomes[rank]);
    }
    (step, asked)
}

#[test]
fn failover_accepts_first_answer() {
    let (step, asked) = drive([false, false, true, true, false]);
    assert_eq!(step, GeoStep::Accept(GeoProvider::IpinfoIo));
    assert_eq!(
        asked,
        vec![GeoProvider::IpapiCo, GeoProvider::IpApiCom, GeoProvider::IpinfoIo]
    );
    let (step, asked) = drive([true, false, false, false, false]);
    assert_eq!(step, GeoStep::Accept(GeoProvider::IpapiCo));
    assert_eq!(asked.len(), 1);
}

#[test]
fn failover_falls_back_to_default() {
    let (step, asked) = drive([false; 5]);
    assert_eq!(step, GeoStep::UseDefault);
    assert_eq!(asked.len(), 5);
    assert_eq!(asked[4], GeoProvider::IpwhoisApp);
}
