//! The catalogue of speed-test servers: the regional hubs per continent,
//! the primary server per country, the curated open speed-test endpoints
//! and entries read from the speedtest.net list, together with the rule
//! that estimates how far away a server is when its coordinates are unknown.
//!
//! Coordinates are held in units of 1e-4 degree, so `390438` is 39.0438°.

use vstd::prelude::*;
use crate::geo::{determine_region, region_of};
use crate::text::{
    after_last, before_first, contains, contains_seq, split_first_piece, split_last_piece, trim,
    trim_str,
};

verus! {

/// A server known by name, address and place, before it is measured.
#[derive(Debug, Clone)]
pub struct ServerSite {
    pub name: String,
    pub url: String,
    pub location: String,
    pub country_code: Option<String>,
    pub city: Option<String>,
    /// Latitude and longitude in units of 1e-4 degree, when known.
    pub coordinates: Option<(i32, i32)>,
}

/// The characters of every field of a [`ServerSite`].
pub struct SiteView {
    pub name: Seq<char>,
    pub url: Seq<char>,
    pub location: Seq<char>,
    pub country_code: Option<Seq<char>>,
    pub city: Option<Seq<char>>,
    pub coordinates: Option<(i32, i32)>,
}

pub open spec fn opt_text(t: Option<String>) -> Option<Seq<char>> {
    match t {
        Some(s) => Some(s@),
        None => None,
    }
}

impl View for ServerSite {
    type V = SiteView;

    open spec fn view(&self) -> SiteView {
        SiteView {
            name: self.name@,
            url: self.url@,
            location: self.location@,
            country_code: opt_text(self.country_code),
            city: opt_text(self.city),
            coordinates: self.coordinates,
        }
    }
}

/// The views of a list of sites.
pub open spec fn sites_view(v: Seq<ServerSite>) -> Seq<SiteView> {
    v.map_values(|s: ServerSite| s@)
}

/// A hub with known coordinates; its city is the part of the location
/// before the first `", "`.
pub open spec fn hub(
    name: Seq<char>,
    url: Seq<char>,
    location: Seq<char>,
    code: Seq<char>,
    lat: i32,
    lon: i32,
) -> SiteView {
    SiteView {
        name,
        url,
        location,
        country_code: Some(code),
        city: Some(before_first(location, ", "@)),
        coordinates: Some((lat, lon)),
    }
}

/// The regional hubs offered for each continent.
pub open spec fn continent_hubs(continent: Seq<char>) -> Seq<SiteView> {
    if continent == "North America"@ {
        seq![
            hub("US East Coast Hub"@, "https://ash.speedtest.wtnet.de"@, "Ashburn, USA"@, "US"@, 390438i32, -774874i32),
            hub("US West Coast Hub"@, "https://lax.speedtest.wtnet.de"@, "Los Angeles, USA"@, "US"@, 340522i32, -1182437i32),
        ]
    } else if continent == "Europe"@ {
        seq![
            hub("Europe Central Hub"@, "https://frankfurt.speedtest.wtnet.de"@, "Frankfurt, Germany"@, "DE"@, 501109i32, 86821i32),
            hub("Europe West Hub"@, "https://lon.speedtest.wtnet.de"@, "London, UK"@, "GB"@, 515074i32, -1278i32),
        ]
    } else if continent == "Asia"@ {
        seq![
            hub("Asia Pacific Hub"@, "https://sg.speedtest.wtnet.de"@, "Singapore"@, "SG"@, 13521i32, 1038198i32),
            hub("Asia East Hub"@, "https://tokyo.speedtest.wtnet.de"@, "Tokyo, Japan"@, "JP"@, 356762i32, 1396503i32),
        ]
    } else if continent == "South America"@ {
        seq![
            hub("South America Hub"@, "https://saopaulo.speedtest.wtnet.de"@, "São Paulo, Brazil"@, "BR"@, -235505i32, -466333i32),
        ]
    } else if continent == "Africa"@ {
        seq![
            hub("Africa Hub"@, "https://capetown.speedtest.wtnet.de"@, "Cape Town, South Africa"@, "ZA"@, -339249i32, 184241i32),
        ]
    } else if continent == "Oceania"@ {
        seq![
            hub("Oceania Hub"@, "https://syd.speedtest.wtnet.de"@, "Sydney, Australia"@, "AU"@, -338688i32, 1512093i32),
        ]
    } else {
        seq![]
    }
}

fn make_hub(name: &str, url: &str, location: &str, code: &str, lat: i32, lon: i32) -> (s: ServerSite)
    ensures
        s@ == hub(name@, url@, location@, code@, lat, lon),
{
    ServerSite {
        name: String::from_str(name),
        url: String::from_str(url),
        location: String::from_str(location),
        country_code: Some(String::from_str(code)),
        city: Some(split_first_piece(location, ", ")),
        coordinates: Some((lat, lon)),
    }
}

/// The regional hubs for a continent (as named by the coordinate
/// classifier: "North America", "Europe", "Asia", "South America",
/// "Africa", "Oceania"); other names have none.
pub fn continent_sites(continent: &str) -> (v: Vec<ServerSite>)
    ensures
        sites_view(v@) =~= continent_hubs(continent@),
{
    let mut v: Vec<ServerSite> = Vec::new();
    if crate::text::str_eq(continent, "North America") {
        v.push(make_hub("US East Coast Hub", "https://ash.speedtest.wtnet.de", "Ashburn, USA", "US", 390438, -774874));
        v.push(make_hub("US West Coast Hub", "https://lax.speedtest.wtnet.de", "Los Angeles, USA", "US", 340522, -1182437));
    } else if crate::text::str_eq(continent, "Europe") {
        v.push(make_hub("Europe Central Hub", "https://frankfurt.speedtest.wtnet.de", "Frankfurt, Germany", "DE", 501109, 86821));
        v.push(make_hub("Europe West Hub", "https://lon.speedtest.wtnet.de", "London, UK", "GB", 515074, -1278));
    } else if crate::text::str_eq(continent, "Asia") {
        v.push(make_hub("Asia Pacific Hub", "https://sg.speedtest.wtnet.de", "Singapore", "SG", 13521, 1038198));
        v.push(make_hub("Asia East Hub", "https://tokyo.speedtest.wtnet.de", "Tokyo, Japan", "JP", 356762, 1396503));
    } else if crate::text::str_eq(continent, "South America") {
        v.push(make_hub("South America Hub", "https://saopaulo.speedtest.wtnet.de", "São Paulo, Brazil", "BR", -235505, -466333));
    } else if crate::text::str_eq(continent, "Africa") {
        v.push(make_hub("Africa Hub", "https://capetown.speedtest.wtnet.de", "Cape Town, South Africa", "ZA", -339249, 184241));
    } else if crate::text::str_eq(continent, "Oceania") {
        v.push(make_hub("Oceania Hub", "https://syd.speedtest.wtnet.de", "Sydney, Australia", "AU", -338688, 1512093));
    }
    v
}

/// A country's primary server; coordinates unknown, and its city is the
/// part of the location before the first comma, trimmed.
pub open spec fn primary(name: Seq<char>, url: Seq<char>, location: Seq<char>, code: Seq<char>) -> SiteView {
    SiteView {
        name,
        url,
        location,
        country_code: Some(code),
        city: Some(trim(before_first(location, ","@))),
        coordinates: None,
    }
}

/// The primary server of a country, by full name or code.
pub open spec fn country_primaries(country: Seq<char>) -> Seq<SiteView> {
    if country == "United States"@ || country == "US"@ {
        seq![primary("US Central"@, "https://dal.speedtest.wtnet.de"@, "Dallas, USA"@, "US"@)]
    } else if country == "United Kingdom"@ || country == "GB"@ || country == "UK"@ {
        seq![primary("UK Primary"@, "https://lon.speedtest.wtnet.de"@, "London, UK"@, "GB"@)]
    } else if country == "Germany"@ || country == "DE"@ {
        seq![primary("DE Primary"@, "https://frankfurt.speedtest.wtnet.de"@, "Frankfurt, Germany"@, "DE"@)]
    } else if country == "France"@ || country == "FR"@ {
        seq![primary("FR Primary"@, "https://paris.speedtest.wtnet.de"@, "Paris, France"@, "FR"@)]
    } else if country == "Japan"@ || country == "JP"@ {
        seq![primary("JP Primary"@, "https://tyo.speedtest.wtnet.de"@, "Tokyo, Japan"@, "JP"@)]
    } else if country == "Australia"@ || country == "AU"@ {
        seq![primary("AU Primary"@, "https://syd.speedtest.wtnet.de"@, "Sydney, Australia"@, "AU"@)]
    } else if country == "Canada"@ || country == "CA"@ {
        seq![primary("CA Primary"@, "https://tor.speedtest.wtnet.de"@, "Toronto, Canada"@, "CA"@)]
    } else {
        seq![]
    }
}

fn make_primary(name: &str, url: &str, location: &str, code: &str) -> (s: ServerSite)
    ensures
        s@ == primary(name@, url@, location@, code@),
{
    let first = split_first_piece(location, ",");
    ServerSite {
        name: String::from_str(name),
        url: String::from_str(url),
        location: String::from_str(location),
        country_code: Some(String::from_str(code)),
        city: Some(trim_str(first.as_str())),
        coordinates: None,
    }
}

/// The primary server for a country (full name or two-letter code), if
/// the catalogue has one.
pub fn country_sites(country: &str) -> (v: Vec<ServerSite>)
    ensures
        sites_view(v@) =~= country_primaries(country@),
{
    let mut v: Vec<ServerSite> = Vec::new();
    if crate::text::str_eq(country, "United States") || crate::text::str_eq(country, "US") {
        v.push(make_primary("US Central", "https://dal.speedtest.wtnet.de", "Dallas, USA", "US"));
    } else if crate::text::str_eq(country, "United Kingdom") || crate::text::str_eq(country, "GB")
        || crate::text::str_eq(country, "UK") {
        v.push(make_primary("UK Primary", "https://lon.speedtest.wtnet.de", "London, UK", "GB"));
    } else if crate::text::str_eq(country, "Germany") || crate::text::str_eq(country, "DE") {
        v.push(make_primary("DE Primary", "https://frankfurt.speedtest.wtnet.de", "Frankfurt, Germany", "DE"));
    } else if crate::text::str_eq(country, "France") || crate::text::str_eq(country, "FR") {
        v.push(make_primary("FR Primary", "https://paris.speedtest.wtnet.de", "Paris, France", "FR"));
    } else if crate::text::str_eq(country, "Japan") || crate::text::str_eq(country, "JP") {
        v.push(make_primary("JP Primary", "https://tyo.speedtest.wtnet.de", "Tokyo, Japan", "JP"));
    } else if crate::text::str_eq(country, "Australia") || crate::text::str_eq(country, "AU") {
        v.push(make_primary("AU Primary", "https://syd.speedtest.wtnet.de", "Sydney, Australia", "AU"));
    } else if crate::text::str_eq(country, "Canada") || crate::text::str_eq(country, "CA") {
        v.push(make_primary("CA Primary", "https://tor.speedtest.wtnet.de", "Toronto, Canada", "CA"));
    }
    v
}

/// A curated open endpoint: its country code is the part of the location
/// after the last `", "`, its city the part before the first `", "`.
pub open spec fn endpoint(name: Seq<char>, url: Seq<char>, lat: i32, lon: i32, location: Seq<char>) -> SiteView {
    SiteView {
        name,
        url,
        location,
        country_code: Some(after_last(location, ", "@)),
        city: Some(before_first(location, ", "@)),
        coordinates: Some((lat, lon)),
    }
}

/// The curated open speed-test endpoints at major exchanges and data
/// centres; the anycast entry is placed at `(0, 0)`.
pub open spec fn open_endpoints() -> Seq<SiteView> {
    seq![
        endpoint("Cloudflare (Anycast)"@, "https://speed.cloudflare.com"@, 0i32, 0i32, "Global"@),
        endpoint("LibreSpeed DE-IX"@, "https://frankfurt.speedtest.wtnet.de"@, 501109i32, 86821i32, "Frankfurt, Germany"@),
        endpoint("LibreSpeed AMS-IX"@, "https://ams.speedtest.wtnet.de"@, 523676i32, 49041i32, "Amsterdam, Netherlands"@),
        endpoint("LibreSpeed Singapore"@, "https://sg.speedtest.wtnet.de"@, 13521i32, 1038198i32, "Singapore"@),
        endpoint("LibreSpeed New York"@, "https://nyc.speedtest.wtnet.de"@, 407128i32, -740060i32, "New York, USA"@),
        endpoint("LibreSpeed Los Angeles"@, "https://la.speedtest.wtnet.de"@, 340522i32, -1182437i32, "Los Angeles, USA"@),
        endpoint("LibreSpeed Tokyo"@, "https://tyo.speedtest.wtnet.de"@, 356762i32, 1396503i32, "Tokyo, Japan"@),
        endpoint("LibreSpeed London"@, "https://lon.speedtest.wtnet.de"@, 515074i32, -1278i32, "London, UK"@),
        endpoint("LibreSpeed Sydney"@, "https://syd.speedtest.wtnet.de"@, -338688i32, 1512093i32, "Sydney, Australia"@),
    ]
}

fn make_endpoint(name: &str, url: &str, lat: i32, lon: i32, location: &str) -> (s: ServerSite)
    ensures
        s@ == endpoint(name@, url@, lat, lon, location@),
{
    ServerSite {
        name: String::from_str(name),
        url: String::from_str(url),
        location: String::from_str(location),
        country_code: Some(split_last_piece(location, ", ")),
        city: Some(split_first_piece(location, ", ")),
        coordinates: Some((lat, lon)),
    }
}

/// The curated open speed-test endpoints, used when the speedtest.net
/// list cannot be had.
pub fn open_speedtest_sites() -> (v: Vec<ServerSite>)
    ensures
        sites_view(v@) =~= open_endpoints(),
{
    let mut v: Vec<ServerSite> = Vec::new();
    v.push(make_endpoint("Cloudflare (Anycast)", "https://speed.cloudflare.com", 0, 0, "Global"));
    v.push(make_endpoint("LibreSpeed DE-IX", "https://frankfurt.speedtest.wtnet.de", 501109, 86821, "Frankfurt, Germany"));
    v.push(make_endpoint("LibreSpeed AMS-IX", "https://ams.speedtest.wtnet.de", 523676, 49041, "Amsterdam, Netherlands"));
    v.push(make_endpoint("LibreSpeed Singapore", "https://sg.speedtest.wtnet.de", 13521, 1038198, "Singapore"));
    v.push(make_endpoint("LibreSpeed New York", "https://nyc.speedtest.wtnet.de", 407128, -740060, "New York, USA"));
    v.push(make_endpoint("LibreSpeed Los Angeles", "https://la.speedtest.wtnet.de", 340522, -1182437, "Los Angeles, USA"));
    v.push(make_endpoint("LibreSpeed Tokyo", "https://tyo.speedtest.wtnet.de", 356762, 1396503, "Tokyo, Japan"));
    v.push(make_endpoint("LibreSpeed London", "https://lon.speedtest.wtnet.de", 515074, -1278, "London, UK"));
    v.push(make_endpoint("LibreSpeed Sydney", "https://syd.speedtest.wtnet.de", -338688, 1512093, "Sydney, Australia"));
    v
}

/// Whether a site sits at `(0, 0)`, the mark of a global anycast service
/// whose distance is not computed from coordinates.
pub fn is_global_anycast(site: &ServerSite) -> (b: bool)
    ensures
        b == (site.coordinates == Some((0i32, 0i32))),
{
    match site.coordinates {
        Some((lat, lon)) => lat == 0 && lon == 0,
        None => false,
    }
}

/// A server read from the speedtest.net list: named and placed
/// `"{name}, {country}"`, reached at `https://{host}`.
pub open spec fn listed_server(host: Seq<char>, name: Seq<char>, country: Seq<char>) -> SiteView {
    SiteView {
        name: name + ", "@ + country,
        url: "https://"@ + host,
        location: name + ", "@ + country,
        country_code: Some(country),
        city: Some(name),
        coordinates: None,
    }
}

/// Build the catalogue entry for a server of the speedtest.net list from
/// its `host`, `name` and `country` fields.
pub fn speedtest_net_site(host: &str, name: &str, country: &str) -> (s: ServerSite)
    ensures
        s@ == listed_server(host@, name@, country@),
{
    let label = String::from_str(name).concat(", ").concat(country);
    ServerSite {
        name: label.clone(),
        url: String::from_str("https://").concat(host),
        location: label,
        country_code: Some(String::from_str(country)),
        city: Some(String::from_str(name)),
        coordinates: None,
    }
}

/// The provider tag of a listed server: its host name up to the first dot.
pub fn host_label(host: &str) -> (t: String)
    ensures
        t@ == before_first(host@, "."@),
{
    split_first_piece(host, ".")
}

/// Estimated distance, in km, of a server whose coordinates are unknown:
/// 10 km when the server's city contains the caller's city; otherwise by
/// the caller's region and the server's location.
pub open spec fn estimated_km(
    geo_country: Seq<char>,
    geo_city: Seq<char>,
    server_city: Option<Seq<char>>,
    server_location: Seq<char>,
) -> u32 {
    let region = region_of(geo_country);
    if server_city matches Some(c) && contains_seq(c, geo_city) {
        10
    } else if region == "North America"@ && (contains_seq(server_location, "USA"@)
        || contains_seq(server_location, "Canada"@)) {
        500
    } else if region == "Europe"@ && (contains_seq(server_location, "Europe"@)
        || contains_seq(server_location, "UK"@)) {
        300
    } else if region == "Asia Pacific"@ && (contains_seq(server_location, "Asia"@)
        || contains_seq(server_location, "Japan"@)) {
        400
    } else {
        5000
    }
}

/// Estimate how far a server is from the caller when its coordinates are
/// unknown (same city, same region, or cross-region).
pub fn estimate_distance_km(
    geo_country: &str,
    geo_city: &str,
    server_city: Option<&str>,
    server_location: &str,
) -> (km: u32)
    ensures
        km == estimated_km(geo_country@, geo_city@, crate::geo::text_of(server_city), server_location@),
{
    let region = determine_region(geo_country);
    if let Some(c) = server_city {
        if contains(c, geo_city) {
            return 10;
        }
    }
    let r = region.as_str();
    if crate::text::str_eq(r, "North America") && (contains(server_location, "USA") || contains(
        server_location,
        "Canada",
    )) {
        500
    } else if crate::text::str_eq(r, "Europe") && (contains(server_location, "Europe") || contains(
        server_location,
        "UK",
    )) {
        300
    } else if crate::text::str_eq(r, "Asia Pacific") && (contains(server_location, "Asia")
        || contains(server_location, "Japan")) {
        400
    } else {
        5000
    }
}

/// A caller in a North American country (United States, Canada, Mexico) is
/// estimated 500 km from a server located in the USA or Canada, unless the
/// server is in the caller's own city (10 km).
pub proof fn north_american_servers_are_near(
    geo_country: Seq<char>,
    geo_city: Seq<char>,
    server_city: Option<Seq<char>>,
    server_location: Seq<char>,
)
    requires
        geo_country == "United States"@ || geo_country == "Canada"@ || geo_country == "Mexico"@,
        contains_seq(server_location, "USA"@) || contains_seq(server_location, "Canada"@),
    ensures
        estimated_km(geo_country, geo_city, server_city, server_location) == (if server_city matches Some(c)
            && contains_seq(c, geo_city) {
            10u32
        } else {
            500u32
        }),
{
}

/// A caller in a European country is estimated 300 km from a server
/// located in "Europe" or the UK, and a caller in Asia Pacific 400 km from
/// a server located in "Asia" or Japan, unless the server is in the
/// caller's own city.
pub proof fn regional_servers_are_near(
    geo_country: Seq<char>,
    geo_city: Seq<char>,
    server_city: Option<Seq<char>>,
    server_location: Seq<char>,
)
    requires
        !(server_city matches Some(c) && contains_seq(c, geo_city)),
    ensures
        region_of(geo_country) == "Europe"@ && (contains_seq(server_location, "Europe"@)
            || contains_seq(server_location, "UK"@)) ==> estimated_km(
            geo_country,
            geo_city,
            server_city,
            server_location,
        ) == 300,
        region_of(geo_country) == "Asia Pacific"@ && (contains_seq(server_location, "Asia"@)
            || contains_seq(server_location, "Japan"@)) ==> estimated_km(
            geo_country,
            geo_city,
            server_city,
            server_location,
        ) == 400,
{
    reveal_strlit("North America");
    reveal_strlit("Europe");
    reveal_strlit("Asia Pacific");
    assert("Europe"@.len() == 6 && "North America"@.len() == 13 && "Asia Pacific"@.len() == 12);
}

/// A server in the caller's own city is estimated at 10 km, whatever the
/// caller's country and the server's location.
pub proof fn same_city_servers_are_closest(
    geo_country: Seq<char>,
    geo_city: Seq<char>,
    server_city: Seq<char>,
    server_location: Seq<char>,
)
    requires
        contains_seq(server_city, geo_city),
    ensures
        estimated_km(geo_country, geo_city, Some(server_city), server_location) == 10,
{
}

/// A caller outside the listed regions is estimated 5000 km from any server
/// that is not in the caller's city.
pub proof fn other_regions_are_cross_region(
    geo_country: Seq<char>,
    geo_city: Seq<char>,
    server_city: Option<Seq<char>>,
    server_location: Seq<char>,
)
    requires
        region_of(geo_country) == "Other"@,
        !(server_city matches Some(c) && contains_seq(c, geo_city)),
    ensures
        estimated_km(geo_country, geo_city, server_city, server_location) == 5000,
{
    reveal_strlit("Other");
    reveal_strlit("North America");
    reveal_strlit("Europe");
    reveal_strlit("Asia Pacific");
    assert("Other"@.len() != "North America"@.len());
    assert("Other"@.len() != "Europe"@.len());
    assert("Other"@.len() != "Asia Pacific"@.len());
}

/// Country names and codes as they are told apart: no two of them are equal.
proof fn country_keys_differ()
    ensures
        "United States"@ != "US"@,
        "United Kingdom"@ != "US"@ && "United Kingdom"@ != "United States"@,
        "GB"@ != "US"@ && "GB"@ != "United States"@,
        "UK"@ != "US"@ && "UK"@ != "United States"@,
        "Germany"@ != "US"@ && "Germany"@ != "United States"@ && "Germany"@ != "United Kingdom"@
            && "Germany"@ != "GB"@ && "Germany"@ != "UK"@,
        "DE"@ != "US"@ && "DE"@ != "United States"@ && "DE"@ != "United Kingdom"@ && "DE"@ != "GB"@
            && "DE"@ != "UK"@,
        "France"@ != "US"@ && "France"@ != "United States"@ && "France"@ != "United Kingdom"@
            && "France"@ != "GB"@ && "France"@ != "UK"@ && "France"@ != "Germany"@ && "France"@ != "DE"@,
        "FR"@ != "US"@ && "FR"@ != "United States"@ && "FR"@ != "United Kingdom"@ && "FR"@ != "GB"@
            && "FR"@ != "UK"@ && "FR"@ != "Germany"@ && "FR"@ != "DE"@,
        "Japan"@ != "US"@ && "Japan"@ != "United States"@ && "Japan"@ != "United Kingdom"@
            && "Japan"@ != "GB"@ && "Japan"@ != "UK"@ && "Japan"@ != "Germany"@ && "Japan"@ != "DE"@
            && "Japan"@ != "France"@ && "Japan"@ != "FR"@,
        "JP"@ != "US"@ && "JP"@ != "United States"@ && "JP"@ != "United Kingdom"@ && "JP"@ != "GB"@
            && "JP"@ != "UK"@ && "JP"@ != "Germany"@ && "JP"@ != "DE"@ && "JP"@ != "France"@
            && "JP"@ != "FR"@,
        "Australia"@ != "US"@ && "Australia"@ != "United States"@ && "Australia"@ != "United Kingdom"@
            && "Australia"@ != "GB"@ && "Australia"@ != "UK"@ && "Australia"@ != "Germany"@
            && "Australia"@ != "DE"@ && "Australia"@ != "France"@ && "Australia"@ != "FR"@
            && "Australia"@ != "Japan"@ && "Australia"@ != "JP"@,
        "AU"@ != "US"@ && "AU"@ != "United States"@ && "AU"@ != "United Kingdom"@ && "AU"@ != "GB"@
            && "AU"@ != "UK"@ && "AU"@ != "Germany"@ && "AU"@ != "DE"@ && "AU"@ != "France"@
            && "AU"@ != "FR"@ && "AU"@ != "Japan"@ && "AU"@ != "JP"@,
        "Canada"@ != "US"@ && "Canada"@ != "United States"@ && "Canada"@ != "United Kingdom"@
            && "Canada"@ != "GB"@ && "Canada"@ != "UK"@ && "Canada"@ != "Germany"@ && "Canada"@ != "DE"@
            && "Canada"@ != "France"@ && "Canada"@ != "FR"@ && "Canada"@ != "Japan"@ && "Canada"@ != "JP"@
            && "Canada"@ != "Australia"@ && "Canada"@ != "AU"@,
        "CA"@ != "US"@ && "CA"@ != "United States"@ && "CA"@ != "United Kingdom"@ && "CA"@ != "GB"@
            && "CA"@ != "UK"@ && "CA"@ != "Germany"@ && "CA"@ != "DE"@ && "CA"@ != "France"@
            && "CA"@ != "FR"@ && "CA"@ != "Japan"@ && "CA"@ != "JP"@ && "CA"@ != "Australia"@
            && "CA"@ != "AU"@,
{
    reveal_strlit("United States");
    reveal_strlit("US");
    reveal_strlit("United Kingdom");
    reveal_strlit("GB");
    reveal_strlit("UK");
    reveal_strlit("Germany");
    reveal_strlit("DE");
    reveal_strlit("France");
    reveal_strlit("FR");
    reveal_strlit("Japan");
    reveal_strlit("JP");
    reveal_strlit("Australia");
    reveal_strlit("AU");
    reveal_strlit("Canada");
    reveal_strlit("CA");
    assert("GB"@[0] != "US"@[0]);
    assert("UK"@[1] != "US"@[1]);
    assert("DE"@[0] != "US"@[0] && "DE"@[0] != "GB"@[0] && "DE"@[0] != "UK"@[0]);
    assert("FR"@[0] != "US"@[0] && "FR"@[0] != "GB"@[0] && "FR"@[0] != "UK"@[0] && "FR"@[0] != "DE"@[0]);
    assert("JP"@[0] != "US"@[0] && "JP"@[0] != "GB"@[0] && "JP"@[0] != "UK"@[0] && "JP"@[0] != "DE"@[0]
        && "JP"@[0] != "FR"@[0]);
    assert("AU"@[0] != "US"@[0] && "AU"@[0] != "GB"@[0] && "AU"@[0] != "UK"@[0] && "AU"@[0] != "DE"@[0]
        && "AU"@[0] != "FR"@[0] && "AU"@[0] != "JP"@[0]);
    assert("CA"@[0] != "US"@[0] && "CA"@[0] != "GB"@[0] && "CA"@[0] != "UK"@[0] && "CA"@[0] != "DE"@[0]
        && "CA"@[0] != "FR"@[0] && "CA"@[0] != "JP"@[0] && "CA"@[0] != "AU"@[0]);
    assert("Canada"@[0] != "France"@[0]);
    assert("Japan"@.len() != "Germany"@.len());
    assert("United Kingdom"@.len() == 14 && "United States"@.len() == 13 && "US"@.len() == 2);
    assert("Australia"@.len() == 9 && "Germany"@.len() == 7 && "France"@.len() == 6);
    assert("Japan"@.len() == 5 && "GB"@.len() == 2 && "UK"@.len() == 2 && "DE"@.len() == 2);
    assert("FR"@.len() == 2 && "JP"@.len() == 2);
}

/// Each listed country has exactly one primary server, and its full name,
/// its two-letter code (and, for the United Kingdom, "UK") give the same
/// server, whose country code is that code.
pub proof fn country_name_and_code_agree()
    ensures
        country_primaries("United States"@).len() == 1,
        country_primaries("United States"@) == country_primaries("US"@),
        country_primaries("US"@)[0].country_code == Some("US"@),
        country_primaries("United Kingdom"@).len() == 1,
        country_primaries("United Kingdom"@) == country_primaries("GB"@),
        country_primaries("UK"@) == country_primaries("GB"@),
        country_primaries("GB"@)[0].country_code == Some("GB"@),
        country_primaries("Germany"@).len() == 1,
        country_primaries("Germany"@) == country_primaries("DE"@),
        country_primaries("DE"@)[0].country_code == Some("DE"@),
        country_primaries("France"@).len() == 1,
        country_primaries("France"@) == country_primaries("FR"@),
        country_primaries("FR"@)[0].country_code == Some("FR"@),
        country_primaries("Japan"@).len() == 1,
        country_primaries("Japan"@) == country_primaries("JP"@),
        country_primaries("JP"@)[0].country_code == Some("JP"@),
        country_primaries("Australia"@).len() == 1,
        country_primaries("Australia"@) == country_primaries("AU"@),
        country_primaries("AU"@)[0].country_code == Some("AU"@),
        country_primaries("Canada"@).len() == 1,
        country_primaries("Canada"@) == country_primaries("CA"@),
        country_primaries("CA"@)[0].country_code == Some("CA"@),
{
    country_keys_differ();
}

} // verus!
