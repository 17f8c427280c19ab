//! The services, and the table that says how each one is asked and answers.

use vstd::prelude::*;
use crate::error::{GeoError, GeoErrorModel};
use crate::json::JsonKind;

verus! {

/// A geolocation service.
#[derive(Clone, Copy, Debug, PartialEq, Eq, Structural)]
pub enum Service {
    /// ipwhois.app
    IpWhois,
    /// ip-api.com
    IpApi,
    /// ipapi.co
    IpApiCo,
    /// freegeoip.app
    FreeGeoIp,
}

/// The kind of JSON value a field is read from.
#[derive(Clone, Copy, Debug, PartialEq, Eq, Structural)]
pub enum FieldKind {
    Text,
    Number,
}

impl FieldKind {
    /// The JSON kind that the field must hold.
    pub open spec fn spec_json_kind(self) -> JsonKind {
        match self {
            FieldKind::Text => JsonKind::Text,
            FieldKind::Number => JsonKind::Number,
        }
    }

    /// The JSON kind that the field must hold.
    #[verifier::when_used_as_spec(spec_json_kind)]
    pub fn json_kind(self) -> (r: JsonKind)
        ensures
            r == self.spec_json_kind(),
    {
        match self {
            FieldKind::Text => JsonKind::Text,
            FieldKind::Number => JsonKind::Number,
        }
    }
}

/// How one service is asked and how its answer is read: the URL around the
/// address, the key under which each field of a [`crate::Locator`] stands,
/// and the key of a success flag, where the service has one.
#[derive(Clone, Copy, Debug)]
pub struct Backend {
    /// The host, as errors name it.
    pub host: &'static str,
    /// The URL is `url_prefix`, the address, then `url_suffix`.
    pub url_prefix: &'static str,
    pub url_suffix: &'static str,
    /// A boolean member that must be `true`; `false` means the query limit
    /// is used up.
    pub gate: Option<&'static str>,
    /// The kind that latitude and longitude are given in.
    pub coordinates: FieldKind,
    pub latitude: &'static str,
    pub longitude: &'static str,
    pub city: &'static str,
    pub region: &'static str,
    pub country: &'static str,
    pub timezone: &'static str,
    /// The internet service provider, where the service names one.
    pub isp: Option<&'static str>,
}

/// The model of a [`Backend`], with text as sequences of characters.
pub struct BackendModel {
    pub host: Seq<char>,
    pub url_prefix: Seq<char>,
    pub url_suffix: Seq<char>,
    pub gate: Option<Seq<char>>,
    pub coordinates: FieldKind,
    pub latitude: Seq<char>,
    pub longitude: Seq<char>,
    pub city: Seq<char>,
    pub region: Seq<char>,
    pub country: Seq<char>,
    pub timezone: Seq<char>,
    pub isp: Option<Seq<char>>,
}

/// The model of an optional key.
pub open spec fn key_view(k: Option<&'static str>) -> Option<Seq<char>> {
    match k {
        Some(s) => Some(s@),
        None => None,
    }
}

impl View for Backend {
    type V = BackendModel;

    open spec fn view(&self) -> BackendModel {
        BackendModel {
            host: self.host@,
            url_prefix: self.url_prefix@,
            url_suffix: self.url_suffix@,
            gate: key_view(self.gate),
            coordinates: self.coordinates,
            latitude: self.latitude@,
            longitude: self.longitude@,
            city: self.city@,
            region: self.region@,
            country: self.country@,
            timezone: self.timezone@,
            isp: key_view(self.isp),
        }
    }
}

impl BackendModel {
    /// The URL that asks about `ip`.
    pub open spec fn url(self, ip: Seq<char>) -> Seq<char> {
        self.url_prefix + ip + self.url_suffix
    }
}

impl Service {
    /// The name of the service, as text names it.
    pub open spec fn spec_name(self) -> Seq<char> {
        match self {
            Service::IpWhois => "ipwhois"@,
            Service::IpApi => "ipapi"@,
            Service::IpApiCo => "ipapico"@,
            Service::FreeGeoIp => "freegeoip"@,
        }
    }

    /// The table of the service.
    pub open spec fn spec_backend(self) -> BackendModel {
        match self {
            Service::IpWhois => BackendModel {
                host: "ipwhois.app"@,
                url_prefix: "http://ipwhois.app/json/"@,
                url_suffix: ""@,
                gate: Some("success"@),
                coordinates: FieldKind::Text,
                latitude: "latitude"@,
                longitude: "longitude"@,
                city: "city"@,
                region: "region"@,
                country: "country"@,
                timezone: "timezone"@,
                isp: None,
            },
            Service::IpApi => BackendModel {
                host: "ip-api.com"@,
                url_prefix: "http://ip-api.com/json/"@,
                url_suffix: ""@,
                gate: None,
                coordinates: FieldKind::Number,
                latitude: "lat"@,
                longitude: "lon"@,
                city: "city"@,
                region: "regionName"@,
                country: "country"@,
                timezone: "timezone"@,
                isp: Some("isp"@),
            },
            Service::IpApiCo => BackendModel {
                host: "ipapi.co"@,
                url_prefix: "https://ipapi.co/"@,
                url_suffix: "/json/"@,
                gate: None,
                coordinates: FieldKind::Number,
                latitude: "latitude"@,
                longitude: "longitude"@,
                city: "city"@,
                region: "region"@,
                country: "country_name"@,
                timezone: "timezone"@,
                isp: None,
            },
            Service::FreeGeoIp => BackendModel {
                host: "freegeoip.app"@,
                url_prefix: "https://freegeoip.app/json/"@,
                url_suffix: ""@,
                gate: None,
                coordinates: FieldKind::Number,
                latitude: "latitude"@,
                longitude: "longitude"@,
                city: "city"@,
                region: "region_name"@,
                country: "country_name"@,
                timezone: "time_zone"@,
                isp: None,
            },
        }
    }

    /// The name of the service: `ipwhois`, `ipapi`, `ipapico` or `freegeoip`.
    pub fn name(&self) -> (r: &'static str)
        ensures
            r@ == self.spec_name(),
    {
        match self {
            Service::IpWhois => "ipwhois",
            Service::IpApi => "ipapi",
            Service::IpApiCo => "ipapico",
            Service::FreeGeoIp => "freegeoip",
        }
    }

    /// The service of the given name; the match is exact and case-sensitive.
    pub fn from_name(name: &str) -> (r: Result<Service, GeoError>)
        ensures
            match r {
                Ok(s) => s.spec_name() == name@,
                Err(e) => e@ == GeoErrorModel::UnknownService(name@) && forall|s: Service|
                    s.spec_name() != name@,
            },
    {
        let given = String::from_str(name);
        let services = [Service::IpWhois, Service::IpApi, Service::IpApiCo, Service::FreeGeoIp];
        let mut i: usize = 0;
        while i < 4
            invariant
                0 <= i <= 4,
                given@ == name@,
                services@ == seq![
                    Service::IpWhois,
                    Service::IpApi,
                    Service::IpApiCo,
                    Service::FreeGeoIp,
                ],
                forall|j: int| 0 <= j < i ==> services@[j].spec_name() != name@,
            decreases 4 - i,
        {
            let candidate = String::from_str(services[i].name());
            if candidate == given {
                return Ok(services[i]);
            }
            i = i + 1;
        }
        proof {
            assert forall|s: Service| s.spec_name() != name@ by {
                match s {
                    Service::IpWhois => assert(services@[0] == s),
                    Service::IpApi => assert(services@[1] == s),
                    Service::IpApiCo => assert(services@[2] == s),
                    Service::FreeGeoIp => assert(services@[3] == s),
                }
            }
        }
        Err(GeoError::UnknownService(given))
    }

    /// The table of the service.
    pub fn backend(&self) -> (r: Backend)
        ensures
            r@ == self.spec_backend(),
    {
        match self {
            Service::IpWhois => Backend {
                host: "ipwhois.app",
                url_prefix: "http://ipwhois.app/json/",
                url_suffix: "",
                gate: Some("success"),
                coordinates: FieldKind::Text,
                latitude: "latitude",
                longitude: "longitude",
                city: "city",
                region: "region",
                country: "country",
                timezone: "timezone",
                isp: None,
            },
            Service::IpApi => Backend {
                host: "ip-api.com",
                url_prefix: "http://ip-api.com/json/",
                url_suffix: "",
                gate: None,
                coordinates: FieldKind::Number,
                latitude: "lat",
                longitude: "lon",
                city: "city",
                region: "regionName",
                country: "country",
                timezone: "timezone",
                isp: Some("isp"),
            },
            Service::IpApiCo => Backend {
                host: "ipapi.co",
                url_prefix: "https://ipapi.co/",
                url_suffix: "/json/",
                gate: None,
                coordinates: FieldKind::Number,
                latitude: "latitude",
                longitude: "longitude",
                city: "city",
                region: "region",
                country: "country_name",
                timezone: "timezone",
                isp: None,
            },
            Service::FreeGeoIp => Backend {
                host: "freegeoip.app",
                url_prefix: "https://freegeoip.app/json/",
                url_suffix: "",
                gate: None,
                coordinates: FieldKind::Number,
                latitude: "latitude",
                longitude: "longitude",
                city: "city",
                region: "region_name",
                country: "country_name",
                timezone: "time_zone",
                isp: None,
            },
        }
    }
}

impl Backend {
    /// The URL that asks about `ip`: the address is put in as it is.
    pub fn url(&self, ip: &str) -> (r: String)
        ensures
            r@ == self@.url(ip@),
    {
        let mut s = String::from_str(self.url_prefix);
        s.append(ip);
        s.append(self.url_suffix);
        s
    }
}

} // verus!
