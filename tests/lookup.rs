use ipgeolocate::{
    GeoError, IpAddress, Ipv4Address, Ipv6Address, Locator, Reply, Request, Service,
};
use std::cell::{Cell, RefCell};

const IPAPI_BODY: &str = r#"{"status":"success","country":"Australia","countryCode":"AU","region":"NSW","regionName":"New South Wales","city":"Sydney","zip":"1001","lat":-33.8688,"lon":151.209,"timezone":"Australia/Sydney","isp":"Cloudflare, Inc","org":"APNIC and Cloudflare DNS Resolver project","as":"AS13335 Cloudflare, Inc.","query":"1.1.1.1"}"#;

fn answered(body: &str) -> Reply {
    Reply::Answered { success: true, body: body.to_string() }
}

#[test]
fn locate_through_a_stub_reads_the_fixture() {
    let urls = RefCell::new(Vec::new());
    let r = Locator::get("1.1.1.1", Service::IpApi, |url: &str| {
        urls.borrow_mut().push(url.to_string());
        answered(IPAPI_BODY)
    })
    .unwrap();
    assert_eq!(r.city, "Sydney");
    assert_eq!(r.country, "Australia");
    assert_eq!(r.ip, "1.1.1.1");
    assert_eq!(urls.into_inner(), vec!["http://ip-api.com/json/1.1.1.1".to_string()]);
}

#[test]
fn private_ipv4_is_refused_without_a_request() {
    let calls = Cell::new(0u32);
    let r = Locator::get_ipv4(Ipv4Address::new(192, 168, 1, 1), Service::IpApi, |_url: &str| {
        calls.set(calls.get() + 1);
        answered(IPAPI_BODY)
    });
    assert_eq!(r, Err(GeoError::InvalidAddress("192.168.1.1".to_string())));
    assert_eq!(calls.get(), 0);
}

#[test]
fn private_blocks_of_ipv4() {
    assert!(Ipv4Address::new(10, 0, 0, 1).is_private());
    assert!(Ipv4Address::new(172, 16, 0, 1).is_private());
    assert!(Ipv4Address::new(172, 31, 255, 255).is_private());
    assert!(Ipv4Address::new(192, 168, 0, 0).is_private());
    assert!(!Ipv4Address::new(172, 32, 0, 1).is_private());
    assert!(!Ipv4Address::new(172, 15, 0, 1).is_private());
    assert!(!Ipv4Address::new(192, 169, 0, 1).is_private());
    assert!(!Ipv4Address::new(1, 1, 1, 1).is_private());
}

#[test]
fn public_ipv4_is_sent_once() {
    let calls = Cell::new(0u32);
    let r = Locator::get_ipv4(Ipv4Address::new(1, 1, 1, 1), Service::IpApi, |url: &str| {
        calls.set(calls.get() + 1);
        assert_eq!(url, "http://ip-api.com/json/1.1.1.1");
        answered(IPAPI_BODY)
    });
    assert_eq!(r.unwrap().city, "Sydney");
    assert_eq!(calls.get(), 1);
}

#[test]
fn non_global_ipv6_is_refused_without_a_request() {
    let calls = Cell::new(0u32);
    let link_local = Ipv6Address::new(0xfe80, 0, 0, 0, 0, 0, 0, 1);
    let r = Locator::get_ipv6(link_local, Service::IpApiCo, |_url: &str| {
        calls.set(calls.get() + 1);
        Reply::Failed
    });
    assert_eq!(r, Err(GeoError::InvalidAddress("fe80::1".to_string())));
    assert_eq!(calls.get(), 0);
}

#[test]
fn global_ipv6_is_sent_in_its_short_text() {
    let urls = RefCell::new(Vec::new());
    let addr = Ipv6Address::new(0x2606, 0x4700, 0x4700, 0, 0, 0, 0, 0x1111);
    let r = Locator::get_ipv6(addr, Service::IpApiCo, |url: &str| {
        urls.borrow_mut().push(url.to_string());
        Reply::Failed
    });
    assert_eq!(r, Err(GeoError::TransportError("ipapi.co".to_string())));
    assert_eq!(urls.into_inner(), vec!["https://ipapi.co/2606:4700:4700::1111/json/".to_string()]);
}

#[test]
fn get_ipaddr_dispatches_on_the_family() {
    let calls = Cell::new(0u32);
    let stub = |_url: &str| {
        calls.set(calls.get() + 1);
        answered(IPAPI_BODY)
    };
    let r = Locator::get_ipaddr(IpAddress::V4(Ipv4Address::new(10, 1, 2, 3)), Service::IpApi, stub);
    assert_eq!(r, Err(GeoError::InvalidAddress("10.1.2.3".to_string())));
    let r = Locator::get_ipaddr(
        IpAddress::V6(Ipv6Address::new(0, 0, 0, 0, 0, 0, 0, 1)),
        Service::IpApi,
        stub,
    );
    assert_eq!(r, Err(GeoError::InvalidAddress("::1".to_string())));
    assert_eq!(calls.get(), 0);
    let r = Locator::get_ipaddr(IpAddress::V4(Ipv4Address::new(1, 1, 1, 1)), Service::IpApi, stub);
    assert_eq!(r.unwrap().ip, "1.1.1.1");
    assert_eq!(calls.get(), 1);
}

#[test]
fn failed_transport_names_the_host() {
    let r = Locator::get("1.1.1.1", Service::FreeGeoIp, |_url: &str| Reply::Failed);
    assert_eq!(r, Err(GeoError::TransportError("freegeoip.app".to_string())));
}

#[test]
fn failure_status_is_a_transport_error() {
    let r = Locator::get("1.1.1.1", Service::IpWhois, |_url: &str| Reply::Answered {
        success: false,
        body: IPAPI_BODY.to_string(),
    });
    assert_eq!(r, Err(GeoError::TransportError("ipwhois.app".to_string())));
}

#[test]
fn request_urls_of_each_service() {
    assert_eq!(Request::new("1.1.1.1", Service::IpWhois).url, "http://ipwhois.app/json/1.1.1.1");
    assert_eq!(Request::new("1.1.1.1", Service::IpApi).url, "http://ip-api.com/json/1.1.1.1");
    assert_eq!(Request::new("1.1.1.1", Service::IpApiCo).url, "https://ipapi.co/1.1.1.1/json/");
    assert_eq!(Request::new("1.1.1.1", Service::FreeGeoIp).url, "https://freegeoip.app/json/1.1.1.1");
    let req = Request::new("8.8.8.8", Service::IpApi);
    assert_eq!(req.ip, "8.8.8.8");
    assert_eq!(req.service, Service::IpApi);
}

#[test]
fn request_complete_reads_the_body() {
    let req = Request::new("1.1.1.1", Service::IpApi);
    let r = req.complete(answered(IPAPI_BODY)).unwrap();
    assert_eq!(r.region, "New South Wales");
    assert!(matches!(req.complete(answered("oops")), Err(GeoError::ParseError(_))));
}

#[test]
fn request_for_addresses() {
    let req = Request::ipv4(Ipv4Address::new(8, 8, 4, 4), Service::IpWhois).unwrap();
    assert_eq!(req.ip, "8.8.4.4");
    assert_eq!(req.url, "http://ipwhois.app/json/8.8.4.4");
    assert!(Request::ipv4(Ipv4Address::new(172, 20, 1, 1), Service::IpWhois).is_err());
    let v6 = Ipv6Address::new(0x2001, 0x4860, 0x4860, 0, 0, 0, 0, 0x8888);
    let req = Request::ip_addr(IpAddress::V6(v6), Service::FreeGeoIp).unwrap();
    assert_eq!(req.url, "https://freegeoip.app/json/2001:4860:4860::8888");
}
