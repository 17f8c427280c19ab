use ipgeolocate::{read_field, FieldKind, GeoError, JsonKind, Member, Members, Service};

fn sydney() -> Members {
    Members {
        gate: Member::Absent,
        latitude: Member::Number("-33.8688".to_string()),
        longitude: Member::Number("151.209".to_string()),
        city: Member::Text("Sydney".to_string()),
        region: Member::Text("New South Wales".to_string()),
        country: Member::Text("Australia".to_string()),
        timezone: Member::Text("Australia/Sydney".to_string()),
        isp: Member::Text("Cloudflare".to_string()),
    }
}

#[test]
fn normalize_copies_each_field() {
    let r = Service::IpApi.backend().normalize("1.1.1.1", &sydney()).unwrap();
    assert_eq!(r.latitude, "-33.8688");
    assert_eq!(r.longitude, "151.209");
    assert_eq!(r.city, "Sydney");
    assert_eq!(r.region, "New South Wales");
    assert_eq!(r.country, "Australia");
    assert_eq!(r.timezone, "Australia/Sydney");
    assert_eq!(r.isp, "Cloudflare");
}

#[test]
fn normalize_leaves_isp_empty_where_the_service_has_none() {
    let r = Service::IpApiCo.backend().normalize("1.1.1.1", &sydney()).unwrap();
    assert_eq!(r.isp, "");
}

#[test]
fn normalize_checks_the_gate_first() {
    let mut m = sydney();
    m.gate = Member::Bool(false);
    m.latitude = Member::Absent;
    let r = Service::IpWhois.backend().normalize("1.1.1.1", &m);
    assert_eq!(r, Err(GeoError::QuotaExceeded("ipwhois.app".to_string())));
    m.gate = Member::Bool(true);
    let r = Service::IpWhois.backend().normalize("1.1.1.1", &m);
    assert_eq!(r, Err(GeoError::MissingField("latitude".to_string())));
}

#[test]
fn read_field_by_kind() {
    let t = Member::Text("x".to_string());
    assert_eq!(read_field(&t, "k", FieldKind::Text), Ok("x".to_string()));
    assert_eq!(
        read_field(&Member::Array, "k", FieldKind::Text),
        Err(GeoError::TypeMismatch {
            field: "k".to_string(),
            expected: JsonKind::Text,
            found: JsonKind::Array,
        })
    );
    assert_eq!(
        read_field(&Member::Object, "k", FieldKind::Number),
        Err(GeoError::TypeMismatch {
            field: "k".to_string(),
            expected: JsonKind::Number,
            found: JsonKind::Object,
        })
    );
    assert_eq!(
        read_field(&Member::Absent, "k", FieldKind::Number),
        Err(GeoError::MissingField("k".to_string()))
    );
}
