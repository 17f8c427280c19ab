//! One lookup: the request to send, and what its reply comes to.
//!
//! Sending is left to a transport that the caller hands in: a function from
//! a URL to the [`Reply`] it got.

use vstd::prelude::*;
use crate::address::{IpAddress, Ipv4Address, Ipv6Address};
use crate::error::{GeoError, GeoErrorModel};
use crate::json::is_json;
use crate::locator::{answer_of, outcome, LocationModel, Locator};
use crate::service::Service;

verus! {

/// What the transport got for a request.
#[derive(Clone, Debug, PartialEq, Eq)]
pub enum Reply {
    /// The request did not complete (connection, name lookup, ...).
    Failed,
    /// The service answered: whether its status was a success, and the body.
    Answered { success: bool, body: String },
}

/// A request to one service about one address.
#[derive(Clone, Debug, PartialEq, Eq)]
pub struct Request {
    pub service: Service,
    /// The address, as text.
    pub ip: String,
    /// The URL to fetch.
    pub url: String,
}

/// Whether `r` is what the reply `reply` of `service` to a lookup of `ip`
/// comes to: a transport error naming the host where the request failed or
/// the status was no success; otherwise what the body reads as.
pub open spec fn completes(service: Service, ip: Seq<char>, reply: Reply, r: Result<Locator, GeoError>) -> bool {
    match reply {
        Reply::Answered { success: true, body } => {
            &&& !is_json(body@) ==> (r matches Err(GeoError::ParseError(_)))
            &&& is_json(body@) ==> outcome(r) == answer_of(service.spec_backend(), ip, body@)
        },
        _ => outcome(r) == Err::<LocationModel, GeoErrorModel>(
            GeoErrorModel::TransportError(service.spec_backend().host),
        ),
    }
}

/// Whether `r` is the outcome of asking `service` about `ip` at `url`
/// through `fetch`: `fetch` was called with `url`, and `r` is what its reply
/// comes to.
pub open spec fn sent<F: Fn(&str) -> Reply>(
    service: Service,
    ip: Seq<char>,
    url: Seq<char>,
    fetch: F,
    r: Result<Locator, GeoError>,
) -> bool {
    exists|u: &str, reply: Reply|
        u@ == url && call_ensures(fetch, (u,), reply) && completes(service, ip, reply, r)
}

impl Request {
    /// The request to `service` about `ip`, taken as it is.
    pub fn new(ip: &str, service: Service) -> (r: Request)
        ensures
            r.service == service,
            r.ip@ == ip@,
            r.url@ == service.spec_backend().url(ip@),
    {
        Request { service, ip: String::from_str(ip), url: service.backend().url(ip) }
    }

    /// The request about an IPv4 address; a private address is refused, so
    /// that no query is spent on it.
    pub fn ipv4(addr: Ipv4Address, service: Service) -> (r: Result<Request, GeoError>)
        ensures
            addr.is_private() ==> (r matches Err(e) && e@ == GeoErrorModel::InvalidAddress(
                addr.text(),
            )),
            !addr.is_private() ==> (r matches Ok(req) && req.service == service && req.ip@
                == addr.text() && req.url@ == service.spec_backend().url(addr.text())),
    {
        let text = addr.to_text();
        if addr.is_private() {
            Err(GeoError::InvalidAddress(text))
        } else {
            Ok(Request::new(text.as_str(), service))
        }
    }

    /// The request about an IPv6 address; an address that is not global is
    /// refused, so that no query is spent on it.
    pub fn ipv6(addr: Ipv6Address, service: Service) -> (r: Result<Request, GeoError>)
        ensures
            !addr.is_global() ==> (r matches Err(GeoError::InvalidAddress(t)) && addr.has_text(
                t@,
            )),
            addr.is_global() ==> (r matches Ok(req) && req.service == service && addr.has_text(
                req.ip@,
            ) && req.url@ == service.spec_backend().url(req.ip@)),
    {
        let text = addr.to_text();
        if !addr.is_global() {
            Err(GeoError::InvalidAddress(text))
        } else {
            Ok(Request::new(text.as_str(), service))
        }
    }

    /// The request about an address of either family.
    pub fn ip_addr(addr: IpAddress, service: Service) -> (r: Result<Request, GeoError>)
        ensures
            match addr {
                IpAddress::V4(a) => {
                    &&& a.is_private() ==> (r matches Err(e) && e@
                        == GeoErrorModel::InvalidAddress(a.text()))
                    &&& !a.is_private() ==> (r matches Ok(req) && req.service == service && req.ip@
                        == a.text() && req.url@ == service.spec_backend().url(a.text()))
                },
                IpAddress::V6(a) => {
                    &&& !a.is_global() ==> (r matches Err(GeoError::InvalidAddress(t))
                        && a.has_text(t@))
                    &&& a.is_global() ==> (r matches Ok(req) && req.service == service
                        && a.has_text(req.ip@) && req.url@ == service.spec_backend().url(req.ip@))
                },
            },
    {
        match addr {
            IpAddress::V4(a) => Request::ipv4(a, service),
            IpAddress::V6(a) => Request::ipv6(a, service),
        }
    }

    /// What the reply to this request comes to.
    pub fn complete(&self, reply: Reply) -> (r: Result<Locator, GeoError>)
        ensures
            completes(self.service, self.ip@, reply, r),
    {
        match reply {
            Reply::Answered { success: true, body } => {
                crate::locator::adapt(self.service, self.ip.as_str(), body.as_str())
            },
            _ => Err(GeoError::TransportError(String::from_str(self.service.backend().host))),
        }
    }

    /// Sends the request through `fetch`, once, and reads its reply.
    pub fn send<F: Fn(&str) -> Reply>(&self, fetch: F) -> (r: Result<Locator, GeoError>)
        requires
            forall|url: &str| call_requires(fetch, (url,)),
        ensures
            sent(self.service, self.ip@, self.url@, fetch, r),
    {
        let url = self.url.as_str();
        let reply = fetch(url);
        let r = self.complete(reply);
        assert(completes(self.service, self.ip@, reply, r));
        r
    }
}

impl Locator {
    /// Looks up `ip`, taken as it is, at `service` through `fetch`.
    pub fn get<F: Fn(&str) -> Reply>(ip: &str, service: Service, fetch: F) -> (r: Result<
        Locator,
        GeoError,
    >)
        requires
            forall|url: &str| call_requires(fetch, (url,)),
        ensures
            sent(service, ip@, service.spec_backend().url(ip@), fetch, r),
    {
        Request::new(ip, service).send(fetch)
    }

    /// Looks up an IPv4 address at `service` through `fetch`; a private
    /// address is refused before anything is sent.
    pub fn get_ipv4<F: Fn(&str) -> Reply>(addr: Ipv4Address, service: Service, fetch: F) -> (r:
        Result<Locator, GeoError>)
        requires
            forall|url: &str| call_requires(fetch, (url,)),
        ensures
            addr.is_private() ==> (r matches Err(e) && e@ == GeoErrorModel::InvalidAddress(
                addr.text(),
            )),
            !addr.is_private() ==> sent(
                service,
                addr.text(),
                service.spec_backend().url(addr.text()),
                fetch,
                r,
            ),
    {
        match Request::ipv4(addr, service) {
            Ok(req) => req.send(fetch),
            Err(e) => Err(e),
        }
    }

    /// Looks up an IPv6 address at `service` through `fetch`; an address
    /// that is not global is refused before anything is sent.
    pub fn get_ipv6<F: Fn(&str) -> Reply>(addr: Ipv6Address, service: Service, fetch: F) -> (r:
        Result<Locator, GeoError>)
        requires
            forall|url: &str| call_requires(fetch, (url,)),
        ensures
            !addr.is_global() ==> (r matches Err(GeoError::InvalidAddress(t)) && addr.has_text(
                t@,
            )),
            addr.is_global() ==> exists|t: Seq<char>|
                addr.has_text(t) && sent(service, t, service.spec_backend().url(t), fetch, r),
    {
        match Request::ipv6(addr, service) {
            Ok(req) => req.send(fetch),
            Err(e) => Err(e),
        }
    }

    /// Looks up an address of either family at `service` through `fetch`.
    pub fn get_ipaddr<F: Fn(&str) -> Reply>(addr: IpAddress, service: Service, fetch: F) -> (r:
        Result<Locator, GeoError>)
        requires
            forall|url: &str| call_requires(fetch, (url,)),
        ensures
            match addr {
                IpAddress::V4(a) => {
                    &&& a.is_private() ==> (r matches Err(e) && e@
                        == GeoErrorModel::InvalidAddress(a.text()))
                    &&& !a.is_private() ==> sent(
                        service,
                        a.text(),
                        service.spec_backend().url(a.text()),
                        fetch,
                        r,
                    )
                },
                IpAddress::V6(a) => {
                    &&& !a.is_global() ==> (r matches Err(GeoError::InvalidAddress(t))
                        && a.has_text(t@))
                    &&& a.is_global() ==> exists|t: Seq<char>|
                        a.has_text(t) && sent(service, t, service.spec_backend().url(t), fetch, r)
                },
            },
    {
        match addr {
            IpAddress::V4(a) => Locator::get_ipv4(a, service, fetch),
            IpAddress::V6(a) => Locator::get_ipv6(a, service, fetch),
        }
    }
}

} // verus!
