//! The record every service's answer is read into, and the reading itself.

use vstd::prelude::*;
use crate::error::{GeoError, GeoErrorModel};
use crate::json::{is_json, member, member_at, parse_document, JsonDocument, JsonKind, Member, MemberModel};
use crate::service::{Backend, BackendModel, FieldKind, Service};

verus! {

/// Where an IP address is, as one service says.
#[derive(Clone, Debug, PartialEq, Eq)]
pub struct Locator {
    /// The address asked about, as the caller gave it.
    pub ip: String,
    /// Latitude, as decimal text.
    pub latitude: String,
    /// Longitude, as decimal text.
    pub longitude: String,
    /// City.
    pub city: String,
    /// Region or state.
    pub region: String,
    /// Country.
    pub country: String,
    /// Time zone.
    pub timezone: String,
    /// Internet service provider; empty where the service names none.
    pub isp: String,
}

/// The model of a [`Locator`], with text as sequences of characters.
pub struct LocationModel {
    pub ip: Seq<char>,
    pub latitude: Seq<char>,
    pub longitude: Seq<char>,
    pub city: Seq<char>,
    pub region: Seq<char>,
    pub country: Seq<char>,
    pub timezone: Seq<char>,
    pub isp: Seq<char>,
}

impl View for Locator {
    type V = LocationModel;

    open spec fn view(&self) -> LocationModel {
        LocationModel {
            ip: self.ip@,
            latitude: self.latitude@,
            longitude: self.longitude@,
            city: self.city@,
            region: self.region@,
            country: self.country@,
            timezone: self.timezone@,
            isp: self.isp@,
        }
    }
}

/// The model of the outcome of a lookup.
pub open spec fn outcome(r: Result<Locator, GeoError>) -> Result<LocationModel, GeoErrorModel> {
    match r {
        Ok(l) => Ok(l@),
        Err(e) => Err(e@),
    }
}

/// What a field reads as: the text of the member under `key` where it is of
/// the expected kind; otherwise the error that names the key.
pub open spec fn field_value(m: MemberModel, key: Seq<char>, expected: FieldKind) -> Result<
    Seq<char>,
    GeoErrorModel,
> {
    match m {
        MemberModel::Absent => Err(GeoErrorModel::MissingField(key)),
        MemberModel::Text(s) if expected == FieldKind::Text => Ok(s),
        MemberModel::Number(s) if expected == FieldKind::Number => Ok(s),
        _ => Err(
            GeoErrorModel::TypeMismatch {
                field: key,
                expected: expected.json_kind(),
                found: m.kind().unwrap(),
            },
        ),
    }
}

/// Reads one field from the member found under `key`.
pub fn read_field(m: &Member, key: &str, expected: FieldKind) -> (r: Result<String, GeoError>)
    ensures
        match r {
            Ok(s) => field_value(m@, key@, expected) == Ok::<Seq<char>, GeoErrorModel>(s@),
            Err(e) => field_value(m@, key@, expected) == Err::<Seq<char>, GeoErrorModel>(e@),
        },
{
    match m {
        Member::Absent => Err(GeoError::MissingField(String::from_str(key))),
        Member::Text(s) if expected == FieldKind::Text => Ok(s.clone()),
        Member::Number(s) if expected == FieldKind::Number => Ok(s.clone()),
        _ => Err(
            GeoError::TypeMismatch {
                field: String::from_str(key),
                expected: expected.json_kind(),
                found: m.kind().unwrap(),
            },
        ),
    }
}

/// The field extractor: the text under `key` in `doc`, where it is of the
/// expected kind; otherwise the error that names the key and tells a missing
/// member from one of another kind.
pub fn extract(doc: &JsonDocument, key: &str, expected: FieldKind) -> (r: Result<String, GeoError>)
    ensures
        match r {
            Ok(s) => field_value(member_at(doc.source(), key@), key@, expected) == Ok::<
                Seq<char>,
                GeoErrorModel,
            >(s@),
            Err(e) => field_value(member_at(doc.source(), key@), key@, expected) == Err::<
                Seq<char>,
                GeoErrorModel,
            >(e@),
        },
{
    let m = member(doc, key);
    read_field(&m, key, expected)
}

/// What an answer holds under each key of a [`Backend`]: `gate` and `isp`
/// are [`Member::Absent`] where the backend has no such key.
#[derive(Clone, Debug, PartialEq, Eq)]
pub struct Members {
    pub gate: Member,
    pub latitude: Member,
    pub longitude: Member,
    pub city: Member,
    pub region: Member,
    pub country: Member,
    pub timezone: Member,
    pub isp: Member,
}

/// The model of [`Members`].
pub struct MembersModel {
    pub gate: MemberModel,
    pub latitude: MemberModel,
    pub longitude: MemberModel,
    pub city: MemberModel,
    pub region: MemberModel,
    pub country: MemberModel,
    pub timezone: MemberModel,
    pub isp: MemberModel,
}

impl View for Members {
    type V = MembersModel;

    open spec fn view(&self) -> MembersModel {
        MembersModel {
            gate: self.gate@,
            latitude: self.latitude@,
            longitude: self.longitude@,
            city: self.city@,
            region: self.region@,
            country: self.country@,
            timezone: self.timezone@,
            isp: self.isp@,
        }
    }
}

/// The member under an optional key.
pub open spec fn optional_member(text: Seq<char>, key: Option<Seq<char>>) -> MemberModel {
    match key {
        Some(k) => member_at(text, k),
        None => MemberModel::Absent,
    }
}

/// What the JSON text `text` holds under each key of `b`.
pub open spec fn members_of(text: Seq<char>, b: BackendModel) -> MembersModel {
    MembersModel {
        gate: optional_member(text, b.gate),
        latitude: member_at(text, b.latitude),
        longitude: member_at(text, b.longitude),
        city: member_at(text, b.city),
        region: member_at(text, b.region),
        country: member_at(text, b.country),
        timezone: member_at(text, b.timezone),
        isp: optional_member(text, b.isp),
    }
}

/// The failure of the success flag, if the backend has one and it does not
/// hold `true`: `false` means the query limit is used up.
pub open spec fn gate_failure(b: BackendModel, g: MemberModel) -> Option<GeoErrorModel> {
    match b.gate {
        None => None,
        Some(key) => match g {
            MemberModel::Bool(true) => None,
            MemberModel::Bool(false) => Some(GeoErrorModel::QuotaExceeded(b.host)),
            MemberModel::Absent => Some(GeoErrorModel::MissingField(key)),
            _ => Some(
                GeoErrorModel::TypeMismatch {
                    field: key,
                    expected: JsonKind::Bool,
                    found: g.kind().unwrap(),
                },
            ),
        },
    }
}

/// The provider field: empty where the backend names no provider.
pub open spec fn isp_value(b: BackendModel, m: MemberModel) -> Result<Seq<char>, GeoErrorModel> {
    match b.isp {
        Some(key) => field_value(m, key, FieldKind::Text),
        None => Ok(Seq::empty()),
    }
}

/// The record read from the members `f` of an answer about `ip`, or the
/// first failure: the success flag first, then the fields in the order
/// latitude, longitude, city, region, country, time zone, provider.
pub open spec fn location_of(b: BackendModel, ip: Seq<char>, f: MembersModel) -> Result<
    LocationModel,
    GeoErrorModel,
> {
    let latitude = field_value(f.latitude, b.latitude, b.coordinates);
    let longitude = field_value(f.longitude, b.longitude, b.coordinates);
    let city = field_value(f.city, b.city, FieldKind::Text);
    let region = field_value(f.region, b.region, FieldKind::Text);
    let country = field_value(f.country, b.country, FieldKind::Text);
    let timezone = field_value(f.timezone, b.timezone, FieldKind::Text);
    let isp = isp_value(b, f.isp);
    if let Some(e) = gate_failure(b, f.gate) {
        Err(e)
    } else if let Err(e) = latitude {
        Err(e)
    } else if let Err(e) = longitude {
        Err(e)
    } else if let Err(e) = city {
        Err(e)
    } else if let Err(e) = region {
        Err(e)
    } else if let Err(e) = country {
        Err(e)
    } else if let Err(e) = timezone {
        Err(e)
    } else if let Err(e) = isp {
        Err(e)
    } else {
        Ok(
            LocationModel {
                ip,
                latitude: latitude->Ok_0,
                longitude: longitude->Ok_0,
                city: city->Ok_0,
                region: region->Ok_0,
                country: country->Ok_0,
                timezone: timezone->Ok_0,
                isp: isp->Ok_0,
            },
        )
    }
}

/// The outcome of reading the JSON text `body`, which is well-formed, with
/// the table `b`, in a lookup of `ip`.
pub open spec fn answer_of(b: BackendModel, ip: Seq<char>, body: Seq<char>) -> Result<
    LocationModel,
    GeoErrorModel,
> {
    location_of(b, ip, members_of(body, b))
}

impl Members {
    /// Looks up each key of `b` in `doc`.
    pub fn read(doc: &JsonDocument, b: &Backend) -> (r: Members)
        ensures
            r@ == members_of(doc.source(), b@),
    {
        let gate = match b.gate {
            Some(key) => member(doc, key),
            None => Member::Absent,
        };
        let isp = match b.isp {
            Some(key) => member(doc, key),
            None => Member::Absent,
        };
        Members {
            gate,
            latitude: member(doc, b.latitude),
            longitude: member(doc, b.longitude),
            city: member(doc, b.city),
            region: member(doc, b.region),
            country: member(doc, b.country),
            timezone: member(doc, b.timezone),
            isp,
        }
    }
}

impl Backend {
    /// Reads the members `f` of an answer about `ip` into a record, checking
    /// the success flag first and stopping at the first field that fails.
    pub fn normalize(&self, ip: &str, f: &Members) -> (r: Result<Locator, GeoError>)
        ensures
            outcome(r) == location_of(self@, ip@, f@),
    {
        if let Some(key) = self.gate {
            match &f.gate {
                Member::Bool(true) => {},
                Member::Bool(false) => {
                    return Err(GeoError::QuotaExceeded(String::from_str(self.host)));
                },
                Member::Absent => {
                    return Err(GeoError::MissingField(String::from_str(key)));
                },
                other => {
                    return Err(
                        GeoError::TypeMismatch {
                            field: String::from_str(key),
                            expected: JsonKind::Bool,
                            found: other.kind().unwrap(),
                        },
                    );
                },
            }
        }
        let latitude = match read_field(&f.latitude, self.latitude, self.coordinates) {
            Ok(v) => v,
            Err(e) => return Err(e),
        };
        let longitude = match read_field(&f.longitude, self.longitude, self.coordinates) {
            Ok(v) => v,
            Err(e) => return Err(e),
        };
        let city = match read_field(&f.city, self.city, FieldKind::Text) {
            Ok(v) => v,
            Err(e) => return Err(e),
        };
        let region = match read_field(&f.region, self.region, FieldKind::Text) {
            Ok(v) => v,
            Err(e) => return Err(e),
        };
        let country = match read_field(&f.country, self.country, FieldKind::Text) {
            Ok(v) => v,
            Err(e) => return Err(e),
        };
        let timezone = match read_field(&f.timezone, self.timezone, FieldKind::Text) {
            Ok(v) => v,
            Err(e) => return Err(e),
        };
        let isp = match self.isp {
            Some(key) => match read_field(&f.isp, key, FieldKind::Text) {
                Ok(v) => v,
                Err(e) => return Err(e),
            },
            None => String::new(),
        };
        Ok(
            Locator {
                ip: String::from_str(ip),
                latitude,
                longitude,
                city,
                region,
                country,
                timezone,
                isp,
            },
        )
    }

    /// Reads the answer `body` to a lookup of `ip` with this table.
    pub fn adapt(&self, ip: &str, body: &str) -> (r: Result<Locator, GeoError>)
        ensures
            !is_json(body@) ==> r matches Err(GeoError::ParseError(_)),
            is_json(body@) ==> outcome(r) == answer_of(self@, ip@, body@),
    {
        let doc = match JsonDocument::parse(body) {
            Ok(d) => d,
            Err(e) => return Err(e),
        };
        let found = Members::read(&doc, self);
        self.normalize(ip, &found)
    }
}

/// Reads the answer `body` of `service` to a lookup of `ip`.
pub fn adapt(service: Service, ip: &str, body: &str) -> (r: Result<Locator, GeoError>)
    ensures
        !is_json(body@) ==> r matches Err(GeoError::ParseError(_)),
        is_json(body@) ==> outcome(r) == answer_of(service.spec_backend(), ip@, body@),
{
    service.backend().adapt(ip, body)
}

/// A field of a [`Locator`] that is read from the answer.
#[derive(Clone, Copy, Debug, PartialEq, Eq, Structural)]
pub enum Field {
    Latitude,
    Longitude,
    City,
    Region,
    Country,
    Timezone,
    Isp,
}

impl Field {
    /// The place of the field in the order in which fields are read.
    pub open spec fn rank(self) -> int {
        match self {
            Field::Latitude => 0,
            Field::Longitude => 1,
            Field::City => 2,
            Field::Region => 3,
            Field::Country => 4,
            Field::Timezone => 5,
            Field::Isp => 6,
        }
    }
}

/// The key that `b` reads `field` from, if it reads the field at all.
pub open spec fn field_key(b: BackendModel, field: Field) -> Option<Seq<char>> {
    match field {
        Field::Latitude => Some(b.latitude),
        Field::Longitude => Some(b.longitude),
        Field::City => Some(b.city),
        Field::Region => Some(b.region),
        Field::Country => Some(b.country),
        Field::Timezone => Some(b.timezone),
        Field::Isp => b.isp,
    }
}

/// The kind that `b` reads `field` from.
pub open spec fn field_kind(b: BackendModel, field: Field) -> FieldKind {
    match field {
        Field::Latitude | Field::Longitude => b.coordinates,
        _ => FieldKind::Text,
    }
}

/// What `field` reads as, from the members `f` with the table `b`.
pub open spec fn field_reading(b: BackendModel, f: MembersModel, field: Field) -> Result<
    Seq<char>,
    GeoErrorModel,
> {
    match field {
        Field::Latitude => field_value(f.latitude, b.latitude, b.coordinates),
        Field::Longitude => field_value(f.longitude, b.longitude, b.coordinates),
        Field::City => field_value(f.city, b.city, FieldKind::Text),
        Field::Region => field_value(f.region, b.region, FieldKind::Text),
        Field::Country => field_value(f.country, b.country, FieldKind::Text),
        Field::Timezone => field_value(f.timezone, b.timezone, FieldKind::Text),
        Field::Isp => isp_value(b, f.isp),
    }
}

/// Once the success flag is in order, the first field that does not read
/// decides the error of the whole record.
pub proof fn lemma_first_failing_field(b: BackendModel, ip: Seq<char>, f: MembersModel, field: Field)
    requires
        gate_failure(b, f.gate) is None,
        forall|g: Field| g.rank() < field.rank() ==> (#[trigger] field_reading(b, f, g)) is Ok,
        field_reading(b, f, field) is Err,
    ensures
        location_of(b, ip, f) == Err::<LocationModel, GeoErrorModel>(
            field_reading(b, f, field)->Err_0,
        ),
{
    assert(Field::Latitude.rank() < field.rank() ==> field_reading(b, f, Field::Latitude) is Ok);
    assert(Field::Longitude.rank() < field.rank() ==> field_reading(b, f, Field::Longitude) is Ok);
    assert(Field::City.rank() < field.rank() ==> field_reading(b, f, Field::City) is Ok);
    assert(Field::Region.rank() < field.rank() ==> field_reading(b, f, Field::Region) is Ok);
    assert(Field::Country.rank() < field.rank() ==> field_reading(b, f, Field::Country) is Ok);
    assert(Field::Timezone.rank() < field.rank() ==> field_reading(b, f, Field::Timezone) is Ok);
}

/// A well-formed answer that lacks the key of a field fails with
/// `MissingField` naming that key, and with no other error, when its success
/// flag and the fields read before that one are in order.
pub proof fn lemma_missing_key_is_named(b: BackendModel, ip: Seq<char>, body: Seq<char>, field: Field)
    requires
        is_json(body),
        field_key(b, field) is Some,
        member_at(body, field_key(b, field)->Some_0) == MemberModel::Absent,
        gate_failure(b, members_of(body, b).gate) is None,
        forall|g: Field|
            g.rank() < field.rank() ==> (#[trigger] field_reading(b, members_of(body, b), g)) is Ok,
    ensures
        answer_of(b, ip, body) == Err::<LocationModel, GeoErrorModel>(
            GeoErrorModel::MissingField(field_key(b, field)->Some_0),
        ),
{
    lemma_first_failing_field(b, ip, members_of(body, b), field);
}

/// A well-formed answer in which the key of a field holds a value of another
/// kind fails with `TypeMismatch`, naming the key, the kind expected and the
/// kind found, when its success flag and the fields read before that one are
/// in order.
pub proof fn lemma_wrong_kind_is_named(b: BackendModel, ip: Seq<char>, body: Seq<char>, field: Field)
    requires
        is_json(body),
        field_key(b, field) is Some,
        member_at(body, field_key(b, field)->Some_0) != MemberModel::Absent,
        member_at(body, field_key(b, field)->Some_0).kind() != Some(
            field_kind(b, field).json_kind(),
        ),
        gate_failure(b, members_of(body, b).gate) is None,
        forall|g: Field|
            g.rank() < field.rank() ==> (#[trigger] field_reading(b, members_of(body, b), g)) is Ok,
    ensures
        answer_of(b, ip, body) == Err::<LocationModel, GeoErrorModel>(
            GeoErrorModel::TypeMismatch {
                field: field_key(b, field)->Some_0,
                expected: field_kind(b, field).json_kind(),
                found: member_at(body, field_key(b, field)->Some_0).kind().unwrap(),
            },
        ),
{
    lemma_first_failing_field(b, ip, members_of(body, b), field);
}

/// An answer whose success flag is `false` means the query limit is used up,
/// whatever else the answer holds or lacks. Of the services, ipwhois.app has
/// such a flag.
pub proof fn lemma_quota_comes_first(b: BackendModel, ip: Seq<char>, body: Seq<char>)
    requires
        is_json(body),
        b.gate is Some,
        member_at(body, b.gate->Some_0) == MemberModel::Bool(false),
    ensures
        answer_of(b, ip, body) == Err::<LocationModel, GeoErrorModel>(
            GeoErrorModel::QuotaExceeded(b.host),
        ),
{
}

/// Reading the same answer twice gives the same outcome, field for field:
/// the outcome depends on the service, the address and the answer alone.
pub proof fn lemma_adapt_repeatable(
    service: Service,
    ip: Seq<char>,
    body: Seq<char>,
    first: Result<Locator, GeoError>,
    second: Result<Locator, GeoError>,
)
    requires
        !is_json(body) ==> (first matches Err(GeoError::ParseError(_))),
        is_json(body) ==> outcome(first) == answer_of(service.spec_backend(), ip, body),
        !is_json(body) ==> (second matches Err(GeoError::ParseError(_))),
        is_json(body) ==> outcome(second) == answer_of(service.spec_backend(), ip, body),
    ensures
        first is Ok <==> second is Ok,
        first is Ok ==> first->Ok_0@ == second->Ok_0@,
        is_json(body) ==> outcome(first) == outcome(second),
{
}

} // verus!
