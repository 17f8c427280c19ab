use ipgeolocate::{GeoError, JsonKind, Service};

#[test]
fn service_names_round_trip() {
    for s in [Service::IpWhois, Service::IpApi, Service::IpApiCo, Service::FreeGeoIp] {
        assert_eq!(Service::from_name(s.name()), Ok(s));
    }
    assert_eq!(Service::IpWhois.name(), "ipwhois");
    assert_eq!(Service::IpApi.name(), "ipapi");
    assert_eq!(Service::IpApiCo.name(), "ipapico");
    assert_eq!(Service::FreeGeoIp.name(), "freegeoip");
}

#[test]
fn unknown_service_names_are_refused() {
    assert_eq!(Service::from_name("IpApi"), Err(GeoError::UnknownService("IpApi".to_string())));
    assert_eq!(Service::from_name(""), Err(GeoError::UnknownService(String::new())));
    assert_eq!(
        Service::from_name("ipapi "),
        Err(GeoError::UnknownService("ipapi ".to_string()))
    );
}

#[test]
fn backend_tables() {
    let b = Service::IpWhois.backend();
    assert_eq!(b.host, "ipwhois.app");
    assert_eq!(b.gate, Some("success"));
    let b = Service::IpApi.backend();
    assert_eq!((b.latitude, b.longitude, b.region, b.isp), ("lat", "lon", "regionName", Some("isp")));
    let b = Service::FreeGeoIp.backend();
    assert_eq!((b.region, b.country, b.timezone), ("region_name", "country_name", "time_zone"));
    assert_eq!(b.url("9.9.9.9"), "https://freegeoip.app/json/9.9.9.9");
}

#[test]
fn error_messages() {
    assert_eq!(
        GeoError::InvalidAddress("10.0.0.1".to_string()).message(),
        "Invalid address: 10.0.0.1 is not a global address"
    );
    assert_eq!(GeoError::UnknownService("x".to_string()).message(), "Unknown service: x");
    assert_eq!(
        GeoError::TransportError("ip-api.com".to_string()).message(),
        "HTTP Request Error: couldn't connect to ip-api.com"
    );
    assert_eq!(GeoError::ParseError("eof".to_string()).message(), "JSON Parsing Error: eof");
    assert_eq!(
        GeoError::MissingField("lat".to_string()).message(),
        "JSON Parsing Error: unable to find lat in parsed JSON"
    );
    assert_eq!(
        GeoError::TypeMismatch {
            field: "lat".to_string(),
            expected: JsonKind::Number,
            found: JsonKind::Text,
        }
        .message(),
        "JSON Parsing Error: lat should be of kind number but is of kind string"
    );
    assert_eq!(
        GeoError::QuotaExceeded("ipwhois.app".to_string()).message(),
        "Query limit reached at ipwhois.app"
    );
}
