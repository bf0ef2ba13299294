//! Geolocation: the providers that are asked in turn, the fail-over rule
//! between them, the validation of the text fields they return, and the
//! mapping from a country to its broad region.

use vstd::prelude::*;
use crate::text::{
    after_last, before_first, first_index, last_index, find_first, find_last, split_first_piece,
    split_last_piece, str_eq, trim, trim_str,
};

verus! {

/// Why a geolocation answer was rejected.
#[derive(Debug, Clone, PartialEq, Eq)]
pub enum GeoError {
    /// The named text field is missing, empty or `"Unknown"`.
    InvalidField(String),
    /// A `"lat,lon"` pair does not consist of exactly two parts.
    InvalidCoordinatesFormat,
    /// The latitude is not a number.
    InvalidLatitude,
    /// The longitude is not a number.
    InvalidLongitude,
    /// The coordinates are the `(0, 0)` "unknown location" sentinel.
    InvalidCoordinates,
}

/// The geolocation services, in the order in which they are asked.
#[derive(Debug, Clone, Copy, PartialEq, Eq, Structural)]
pub enum GeoProvider {
    IpapiCo,
    IpApiCom,
    IpinfoIo,
    FreegeoipApp,
    IpwhoisApp,
}

/// Number of geolocation services.
pub const GEO_PROVIDER_COUNT: usize = 5;

/// Position of each provider in the fail-over order.
pub open spec fn provider_rank(p: GeoProvider) -> int {
    match p {
        GeoProvider::IpapiCo => 0,
        GeoProvider::IpApiCom => 1,
        GeoProvider::IpinfoIo => 2,
        GeoProvider::FreegeoipApp => 3,
        GeoProvider::IpwhoisApp => 4,
    }
}

/// The provider at position `i` of the fail-over order.
pub open spec fn provider_at(i: int) -> GeoProvider {
    if i <= 0 {
        GeoProvider::IpapiCo
    } else if i == 1 {
        GeoProvider::IpApiCom
    } else if i == 2 {
        GeoProvider::IpinfoIo
    } else if i == 3 {
        GeoProvider::FreegeoipApp
    } else {
        GeoProvider::IpwhoisApp
    }
}

/// The name under which each provider reports a detected location.
pub open spec fn provider_name(p: GeoProvider) -> Seq<char> {
    match p {
        GeoProvider::IpapiCo => "ipapi.co"@,
        GeoProvider::IpApiCom => "ip-api.com"@,
        GeoProvider::IpinfoIo => "ipinfo.io"@,
        GeoProvider::FreegeoipApp => "freegeoip.app"@,
        GeoProvider::IpwhoisApp => "ipwhois.app"@,
    }
}

/// The URL that each provider is asked.
pub open spec fn provider_endpoint(p: GeoProvider) -> Seq<char> {
    match p {
        GeoProvider::IpapiCo => "https://ipapi.co/json/"@,
        GeoProvider::IpApiCom => "http://ip-api.com/json/?fields=status,message,country,city,lat,lon,isp"@,
        GeoProvider::IpinfoIo => "https://ipinfo.io/json"@,
        GeoProvider::FreegeoipApp => "https://freegeoip.app/json/"@,
        GeoProvider::IpwhoisApp => "https://ipwho.is/"@,
    }
}

impl GeoProvider {
    /// The name under which this provider reports a detected location.
    pub fn source_name(self) -> (s: &'static str)
        ensures
            s@ == provider_name(self),
    {
        match self {
            GeoProvider::IpapiCo => "ipapi.co",
            GeoProvider::IpApiCom => "ip-api.com",
            GeoProvider::IpinfoIo => "ipinfo.io",
            GeoProvider::FreegeoipApp => "freegeoip.app",
            GeoProvider::IpwhoisApp => "ipwhois.app",
        }
    }

    /// The URL that this provider is asked.
    pub fn endpoint(self) -> (s: &'static str)
        ensures
            s@ == provider_endpoint(self),
    {
        match self {
            GeoProvider::IpapiCo => "https://ipapi.co/json/",
            GeoProvider::IpApiCom => "http://ip-api.com/json/?fields=status,message,country,city,lat,lon,isp",
            GeoProvider::IpinfoIo => "https://ipinfo.io/json",
            GeoProvider::FreegeoipApp => "https://freegeoip.app/json/",
            GeoProvider::IpwhoisApp => "https://ipwho.is/",
        }
    }
}

/// What to do next while detecting the location.
#[derive(Debug, Clone, Copy, PartialEq, Eq, Structural)]
pub enum GeoStep {
    /// Ask this provider.
    Query(GeoProvider),
    /// This provider answered with a valid location: use it.
    Accept(GeoProvider),
    /// Every provider failed: use the built-in default location.
    UseDefault,
}

/// The step after `tried` answered (`succeeded`) or failed.
pub open spec fn step_after(tried: GeoProvider, succeeded: bool) -> GeoStep {
    if succeeded {
        GeoStep::Accept(tried)
    } else if provider_rank(tried) + 1 < GEO_PROVIDER_COUNT {
        GeoStep::Query(provider_at(provider_rank(tried) + 1))
    } else {
        GeoStep::UseDefault
    }
}

/// The first step of location detection: ask the first provider.
pub fn first_geo_step() -> (s: GeoStep)
    ensures
        s == GeoStep::Query(provider_at(0)),
{
    GeoStep::Query(GeoProvider::IpapiCo)
}

/// The step after `tried` answered with a valid location (`succeeded`) or
/// failed: accept its answer, ask the next provider, or, after the last
/// provider failed, fall back to the default location.
pub fn geo_step_after(tried: GeoProvider, succeeded: bool) -> (s: GeoStep)
    ensures
        s == step_after(tried, succeeded),
{
    if succeeded {
        GeoStep::Accept(tried)
    } else {
        match tried {
            GeoProvider::IpapiCo => GeoStep::Query(GeoProvider::IpApiCom),
            GeoProvider::IpApiCom => GeoStep::Query(GeoProvider::IpinfoIo),
            GeoProvider::IpinfoIo => GeoStep::Query(GeoProvider::FreegeoipApp),
            GeoProvider::FreegeoipApp => GeoStep::Query(GeoProvider::IpwhoisApp),
            GeoProvider::IpwhoisApp => GeoStep::UseDefault,
        }
    }
}

/// Drive the fail-over from `step`, where `outcomes[i]` says whether the
/// provider at position `i` answers with a valid location.
pub open spec fn run_failover(step: GeoStep, outcomes: Seq<bool>, fuel: nat) -> GeoStep
    decreases fuel,
{
    match step {
        GeoStep::Query(p) => if fuel == 0 {
            step
        } else {
            run_failover(step_after(p, outcomes[provider_rank(p)]), outcomes, (fuel - 1) as nat)
        },
        _ => step,
    }
}

/// Position of the first provider that answers, or `-1` when none does.
pub open spec fn first_success(outcomes: Seq<bool>, from: int) -> int
    decreases GEO_PROVIDER_COUNT - from,
{
    if from >= GEO_PROVIDER_COUNT {
        -1
    } else if outcomes[from] {
        from
    } else {
        first_success(outcomes, from + 1)
    }
}

proof fn lemma_failover_from(outcomes: Seq<bool>, i: int)
    requires
        0 <= i < GEO_PROVIDER_COUNT,
    ensures
        run_failover(GeoStep::Query(provider_at(i)), outcomes, (GEO_PROVIDER_COUNT - i) as nat)
            == (if first_success(outcomes, i) >= 0 {
            GeoStep::Accept(provider_at(first_success(outcomes, i)))
        } else {
            GeoStep::UseDefault
        }),
    decreases GEO_PROVIDER_COUNT - i,
{
    let p = provider_at(i);
    let fuel = (GEO_PROVIDER_COUNT - i) as nat;
    assert(provider_rank(p) == i);
    assert(run_failover(GeoStep::Query(p), outcomes, fuel) == run_failover(
        step_after(p, outcomes[i]),
        outcomes,
        (fuel - 1) as nat,
    ));
    if outcomes[i] {
        assert(first_success(outcomes, i) == i);
    } else if i + 1 < GEO_PROVIDER_COUNT {
        assert(first_success(outcomes, i) == first_success(outcomes, i + 1));
        lemma_failover_from(outcomes, i + 1);
    } else {
        assert(first_success(outcomes, i + 1) == -1);
    }
}

/// Location detection with fail-over: the providers are asked in order and
/// the first one that answers with a valid location is used; when all five
/// fail, the default location is used.
pub proof fn failover_uses_first_answering_provider(outcomes: Seq<bool>)
    requires
        outcomes.len() == GEO_PROVIDER_COUNT,
    ensures
        run_failover(GeoStep::Query(provider_at(0)), outcomes, GEO_PROVIDER_COUNT as nat) == (if first_success(outcomes, 0) >= 0 {
            GeoStep::Accept(provider_at(first_success(outcomes, 0)))
        } else {
            GeoStep::UseDefault
        }),
{
    lemma_failover_from(outcomes, 0);
}

/// A text field that a provider returned is usable: present, not empty
/// and not `"Unknown"`.
pub open spec fn usable_geo_text(field: Option<Seq<char>>) -> bool {
    match field {
        Some(t) => t.len() > 0 && t != "Unknown"@,
        None => false,
    }
}

/// The characters of an optional text.
pub open spec fn text_of(field: Option<&str>) -> Option<Seq<char>> {
    match field {
        Some(f) => Some(f@),
        None => None,
    }
}

/// Validate a required geolocation text field `key` whose value (if the
/// field is a string) is `field`; empty text and `"Unknown"` are rejected.
pub fn geo_str_field(field: Option<&str>, key: &str) -> (r: Result<String, GeoError>)
    ensures
        match r {
            Ok(t) => usable_geo_text(text_of(field)) && t@ == field.unwrap()@,
            Err(e) => !usable_geo_text(text_of(field)) && (e matches GeoError::InvalidField(k)
                && k@ == key@),
        },
{
    match field {
        Some(f) => {
            if f.unicode_len() > 0 && !str_eq(f, "Unknown") {
                Ok(String::from_str(f))
            } else {
                Err(GeoError::InvalidField(String::from_str(key)))
            }
        },
        None => Err(GeoError::InvalidField(String::from_str(key))),
    }
}

/// `loc` holds exactly one comma: its first and last occurrence coincide.
pub open spec fn has_single_comma(loc: Seq<char>) -> bool {
    first_index(loc, ","@) >= 0 && first_index(loc, ","@) == last_index(loc, ","@)
}

/// Split a `"lat,lon"` pair (as ipinfo.io returns it) into its two trimmed
/// parts; anything but exactly two comma-separated parts is rejected.
pub fn split_latlon_pair(loc: &str) -> (r: Result<(String, String), GeoError>)
    ensures
        match r {
            Ok((lat, lon)) => has_single_comma(loc@) && lat@ == trim(before_first(loc@, ","@))
                && lon@ == trim(after_last(loc@, ","@)),
            Err(e) => !has_single_comma(loc@) && e == GeoError::InvalidCoordinatesFormat,
        },
{
    let first = find_first(loc, ",");
    let last = find_last(loc, ",");
    match (first, last) {
        (Some(i), Some(j)) => {
            if i == j {
                let lat = split_first_piece(loc, ",");
                let lon = split_last_piece(loc, ",");
                Ok((trim_str(lat.as_str()), trim_str(lon.as_str())))
            } else {
                Err(GeoError::InvalidCoordinatesFormat)
            }
        },
        _ => Err(GeoError::InvalidCoordinatesFormat),
    }
}

/// The broad region of a country, as named by the geolocation services.
pub open spec fn region_of(country: Seq<char>) -> Seq<char> {
    if country == "United States"@ || country == "Canada"@ || country == "Mexico"@ {
        "North America"@
    } else if country == "United Kingdom"@ || country == "Germany"@ || country == "France"@
        || country == "Spain"@ || country == "Italy"@ || country == "Netherlands"@
        || country == "Belgium"@ || country == "Switzerland"@ || country == "Austria"@
        || country == "Poland"@ {
        "Europe"@
    } else if country == "Japan"@ || country == "China"@ || country == "South Korea"@
        || country == "Singapore"@ || country == "Australia"@ || country == "New Zealand"@
        || country == "India"@ {
        "Asia Pacific"@
    } else if country == "Brazil"@ || country == "Argentina"@ || country == "Chile"@ {
        "South America"@
    } else {
        "Other"@
    }
}

/// The broad region of a country.
pub fn determine_region(country: &str) -> (r: String)
    ensures
        r@ == region_of(country@),
{
    if str_eq(country, "United States") || str_eq(country, "Canada") || str_eq(country, "Mexico") {
        String::from_str("North America")
    } else if str_eq(country, "United Kingdom") || str_eq(country, "Germany") || str_eq(
        country,
        "France",
    ) || str_eq(country, "Spain") || str_eq(country, "Italy") || str_eq(country, "Netherlands")
        || str_eq(country, "Belgium") || str_eq(country, "Switzerland") || str_eq(
        country,
        "Austria",
    ) || str_eq(country, "Poland") {
        String::from_str("Europe")
    } else if str_eq(country, "Japan") || str_eq(country, "China") || str_eq(
        country,
        "South Korea",
    ) || str_eq(country, "Singapore") || str_eq(country, "Australia") || str_eq(
        country,
        "New Zealand",
    ) || str_eq(country, "India") {
        String::from_str("Asia Pacific")
    } else if str_eq(country, "Brazil") || str_eq(country, "Argentina") || str_eq(country, "Chile") {
        String::from_str("South America")
    } else {
        String::from_str("Other")
    }
}

} // verus!
