//! The request and response values of the login exchange, and their wire
//! objects.
//!
//! Every optional field is omitted entirely from the wire form when absent,
//! never emitted as null. The one exception to omission is the request's
//! refresh-token flag, which always serializes because its default, `false`,
//! is meaningful. Decoding ignores fields it does not know, which is what
//! lets a deprecated server-name field in old wire data decode without
//! error.

use vstd::prelude::*;
use vstd::string::StringExecFns;

use crate::error::{DecodeError, FieldFault, FieldName};
use crate::identifier::{
    spec_decode_identifier, spec_encode_identifier, UserIdentifier, UserIdentifierV,
};
use crate::json::{
    fields_view, lemma_fields_view_index, lemma_obj_lookup_none, obj_get, obj_lookup, Json, JsonV,
};

verus! {

/// One optional wire field: a single pair when present, nothing when absent.
pub open spec fn opt_field(key: Seq<char>, v: Option<JsonV>) -> Seq<(Seq<char>, JsonV)> {
    match v {
        Some(value) => seq![(key, value)],
        None => Seq::empty(),
    }
}

/// Information about the homeserver to connect to.
#[derive(Clone, Debug, PartialEq, Eq)]
pub struct HomeserverInfo {
    /// The base URL for client-server connections.
    pub base_url: String,
}

/// The model of a [`HomeserverInfo`].
#[verifier::ext_equal]
pub struct HomeserverInfoV {
    pub base_url: Seq<char>,
}

impl View for HomeserverInfo {
    type V = HomeserverInfoV;

    open spec fn view(&self) -> HomeserverInfoV {
        HomeserverInfoV { base_url: self.base_url@ }
    }
}

impl HomeserverInfo {
    /// Creates a new `HomeserverInfo` with the given base URL.
    pub fn new(base_url: String) -> (r: Self)
        ensures
            r.base_url == base_url,
    {
        HomeserverInfo { base_url }
    }
}

/// Information about the identity server to connect to.
#[derive(Clone, Debug, PartialEq, Eq)]
pub struct IdentityServerInfo {
    /// The base URL for client-server connections.
    pub base_url: String,
}

/// The model of an [`IdentityServerInfo`].
#[verifier::ext_equal]
pub struct IdentityServerInfoV {
    pub base_url: Seq<char>,
}

impl View for IdentityServerInfo {
    type V = IdentityServerInfoV;

    open spec fn view(&self) -> IdentityServerInfoV {
        IdentityServerInfoV { base_url: self.base_url@ }
    }
}

impl IdentityServerInfo {
    /// Creates a new `IdentityServerInfo` with the given base URL.
    pub fn new(base_url: String) -> (r: Self)
        ensures
            r.base_url == base_url,
    {
        IdentityServerInfo { base_url }
    }
}

/// Client configuration provided by the server after login: where to reach
/// the homeserver, and optionally an identity server.
#[derive(Clone, Debug, PartialEq, Eq)]
pub struct DiscoveryInfo {
    /// Information about the homeserver to connect to.
    pub homeserver: HomeserverInfo,
    /// Information about the identity server to connect to; the whole
    /// sub-object is absent from the wire when there is none.
    pub identity_server: Option<IdentityServerInfo>,
}

/// The model of a [`DiscoveryInfo`].
#[verifier::ext_equal]
pub struct DiscoveryInfoV {
    pub homeserver: HomeserverInfoV,
    pub identity_server: Option<IdentityServerInfoV>,
}

impl View for DiscoveryInfo {
    type V = DiscoveryInfoV;

    open spec fn view(&self) -> DiscoveryInfoV {
        DiscoveryInfoV {
            homeserver: self.homeserver@,
            identity_server: match &self.identity_server {
                Some(i) => Some(i@),
                None => None,
            },
        }
    }
}

/// The wire object of a discovery value: the homeserver sub-object always,
/// the identity-server sub-object only when present.
pub open spec fn spec_encode_discovery(d: DiscoveryInfoV) -> JsonV {
    JsonV::Obj(
        seq![
            (
                "m.homeserver"@,
                JsonV::Obj(seq![("base_url"@, JsonV::Str(d.homeserver.base_url))]),
            ),
        ] + opt_field(
            "m.identity_server"@,
            match d.identity_server {
                Some(i) => Some(JsonV::Obj(seq![("base_url"@, JsonV::Str(i.base_url))])),
                None => None,
            },
        ),
    )
}

/// The base URL found in a server-info sub-object, or the fault.
pub open spec fn spec_decode_base_url(j: JsonV, name: FieldName) -> Result<Seq<char>, FieldFault> {
    match j {
        JsonV::Obj(fields) => match obj_lookup(fields, "base_url"@) {
            Some(JsonV::Str(u)) => Ok(u),
            Some(_) => Err(FieldFault::Invalid(FieldName::BaseUrl)),
            None => Err(FieldFault::Missing(FieldName::BaseUrl)),
        },
        _ => Err(FieldFault::Invalid(name)),
    }
}

/// The discovery value a wire value decodes to, or the fault that stops it.
pub open spec fn spec_decode_discovery(j: JsonV) -> Result<DiscoveryInfoV, FieldFault> {
    match j {
        JsonV::Obj(fields) => match obj_lookup(fields, "m.homeserver"@) {
            Some(hs) => match spec_decode_base_url(hs, FieldName::Homeserver) {
                Ok(hurl) => match obj_lookup(fields, "m.identity_server"@) {
                    Some(is) => match spec_decode_base_url(is, FieldName::IdentityServer) {
                        Ok(iurl) => Ok(
                            DiscoveryInfoV {
                                homeserver: HomeserverInfoV { base_url: hurl },
                                identity_server: Some(IdentityServerInfoV { base_url: iurl }),
                            },
                        ),
                        Err(f) => Err(f),
                    },
                    None => Ok(
                        DiscoveryInfoV {
                            homeserver: HomeserverInfoV { base_url: hurl },
                            identity_server: None,
                        },
                    ),
                },
                Err(f) => Err(f),
            },
            None => Err(FieldFault::Missing(FieldName::Homeserver)),
        },
        _ => Err(FieldFault::Invalid(FieldName::WellKnown)),
    }
}

/// The model of a decoded discovery result.
pub open spec fn discovery_result_view(r: Result<DiscoveryInfo, FieldFault>) -> Result<
    DiscoveryInfoV,
    FieldFault,
> {
    match r {
        Ok(d) => Ok(d@),
        Err(e) => Err(e),
    }
}

impl DiscoveryInfo {
    /// Creates a new `DiscoveryInfo` with the given homeserver and no
    /// identity server.
    pub fn new(homeserver: HomeserverInfo) -> (r: Self)
        ensures
            r.homeserver == homeserver,
            r.identity_server is None,
    {
        DiscoveryInfo { homeserver, identity_server: None }
    }

    /// Encodes the discovery value as its wire object.
    pub fn encode(&self) -> (r: Json)
        ensures
            r@ == spec_encode_discovery(self@),
    {
        proof {
            broadcast use lemma_fields_view_index;

        }
        let mut hs: Vec<(String, Json)> = Vec::new();
        hs.push((String::from_str("base_url"), Json::Str(self.homeserver.base_url.clone())));
        let ghost hsv = hs@;
        proof {
            assert(fields_view(hsv) =~= seq![("base_url"@, JsonV::Str(self.homeserver.base_url@))]);
        }
        let mut fields: Vec<(String, Json)> = Vec::new();
        fields.push((String::from_str("m.homeserver"), Json::Obj(hs)));
        match &self.identity_server {
            Some(i) => {
                let mut is: Vec<(String, Json)> = Vec::new();
                is.push((String::from_str("base_url"), Json::Str(i.base_url.clone())));
                proof {
                    assert(fields_view(is@) =~= seq![("base_url"@, JsonV::Str(i.base_url@))]);
                }
                fields.push((String::from_str("m.identity_server"), Json::Obj(is)));
            },
            None => {},
        }
        let r = Json::Obj(fields);
        proof {
            let hpair = (
                "m.homeserver"@,
                JsonV::Obj(seq![("base_url"@, JsonV::Str(self.homeserver.base_url@))]),
            );
            match &self.identity_server {
                Some(i) => {
                    let ipair = (
                        "m.identity_server"@,
                        JsonV::Obj(seq![("base_url"@, JsonV::Str(i.base_url@))]),
                    );
                    assert(fields_view(fields@) =~~= seq![hpair, ipair]);
                    assert(seq![hpair] + seq![ipair] =~= seq![hpair, ipair]);
                    assert(r@ =~~= spec_encode_discovery(self@));
                },
                None => {
                    assert(fields_view(fields@) =~~= seq![hpair]);
                    assert(seq![hpair] + Seq::<(Seq<char>, JsonV)>::empty() =~= seq![hpair]);
                    assert(r@ =~~= spec_encode_discovery(self@));
                },
            }
        }
        r
    }

    /// Projects a generic wire value into a discovery value.
    pub fn decode(j: &Json) -> (r: Result<DiscoveryInfo, FieldFault>)
        ensures
            discovery_result_view(r) == spec_decode_discovery(j@),
    {
        match j {
            Json::Obj(fields) => match obj_get(fields, "m.homeserver") {
                Some(hs) => match Self::decode_base_url(hs, FieldName::Homeserver) {
                    Ok(hurl) => match obj_get(fields, "m.identity_server") {
                        Some(is) => match Self::decode_base_url(is, FieldName::IdentityServer) {
                            Ok(iurl) => Ok(
                                DiscoveryInfo {
                                    homeserver: HomeserverInfo { base_url: hurl },
                                    identity_server: Some(
                                        IdentityServerInfo { base_url: iurl },
                                    ),
                                },
                            ),
                            Err(f) => Err(f),
                        },
                        None => Ok(
                            DiscoveryInfo {
                                homeserver: HomeserverInfo { base_url: hurl },
                                identity_server: None,
                            },
                        ),
                    },
                    Err(f) => Err(f),
                },
                None => Err(FieldFault::Missing(FieldName::Homeserver)),
            },
            _ => Err(FieldFault::Invalid(FieldName::WellKnown)),
        }
    }

    /// Reads the base URL out of a server-info sub-object.
    fn decode_base_url(j: &Json, name: FieldName) -> (r: Result<String, FieldFault>)
        ensures
            match r {
                Ok(u) => spec_decode_base_url(j@, name) == Ok::<Seq<char>, FieldFault>(u@),
                Err(f) => spec_decode_base_url(j@, name) == Err::<Seq<char>, FieldFault>(f),
            },
    {
        match j {
            Json::Obj(fields) => match obj_get(fields, "base_url") {
                Some(Json::Str(u)) => Ok(u.clone()),
                Some(_) => Err(FieldFault::Invalid(FieldName::BaseUrl)),
                None => Err(FieldFault::Missing(FieldName::BaseUrl)),
            },
            _ => Err(FieldFault::Invalid(name)),
        }
    }
}

/// An optional string field, read from an object: absent is not a fault,
/// but a present non-string value is.
pub open spec fn spec_opt_str_field(
    fields: Seq<(Seq<char>, JsonV)>,
    key: Seq<char>,
    name: FieldName,
) -> Result<Option<Seq<char>>, FieldFault> {
    match obj_lookup(fields, key) {
        Some(JsonV::Str(s)) => Ok(Some(s)),
        Some(_) => Err(FieldFault::Invalid(name)),
        None => Ok(None),
    }
}

/// A required string field, read from an object.
pub open spec fn spec_req_str_field(
    fields: Seq<(Seq<char>, JsonV)>,
    key: Seq<char>,
    name: FieldName,
) -> Result<Seq<char>, FieldFault> {
    match obj_lookup(fields, key) {
        Some(JsonV::Str(s)) => Ok(s),
        Some(_) => Err(FieldFault::Invalid(name)),
        None => Err(FieldFault::Missing(name)),
    }
}

/// An optional boolean field with a default of `false`.
pub open spec fn spec_opt_bool_field(
    fields: Seq<(Seq<char>, JsonV)>,
    key: Seq<char>,
    name: FieldName,
) -> Result<bool, FieldFault> {
    match obj_lookup(fields, key) {
        Some(JsonV::Bool(b)) => Ok(b),
        Some(_) => Err(FieldFault::Invalid(name)),
        None => Ok(false),
    }
}

/// Reads an optional string field out of an object.
fn opt_str_field(fields: &Vec<(String, Json)>, key: &str, name: FieldName) -> (r: Result<
    Option<String>,
    FieldFault,
>)
    ensures
        match r {
            Ok(Some(s)) => spec_opt_str_field(fields_view(fields@), key@, name) == Ok::<
                Option<Seq<char>>,
                FieldFault,
            >(Some(s@)),
            Ok(None) => spec_opt_str_field(fields_view(fields@), key@, name) == Ok::<
                Option<Seq<char>>,
                FieldFault,
            >(None),
            Err(f) => spec_opt_str_field(fields_view(fields@), key@, name) == Err::<
                Option<Seq<char>>,
                FieldFault,
            >(f),
        },
{
    match obj_get(fields, key) {
        Some(Json::Str(s)) => Ok(Some(s.clone())),
        Some(_) => Err(FieldFault::Invalid(name)),
        None => Ok(None),
    }
}

/// Reads a required string field out of an object.
fn req_str_field(fields: &Vec<(String, Json)>, key: &str, name: FieldName) -> (r: Result<
    String,
    FieldFault,
>)
    ensures
        match r {
            Ok(s) => spec_req_str_field(fields_view(fields@), key@, name) == Ok::<
                Seq<char>,
                FieldFault,
            >(s@),
            Err(f) => spec_req_str_field(fields_view(fields@), key@, name) == Err::<
                Seq<char>,
                FieldFault,
            >(f),
        },
{
    match obj_get(fields, key) {
        Some(Json::Str(s)) => Ok(s.clone()),
        Some(_) => Err(FieldFault::Invalid(name)),
        None => Err(FieldFault::Missing(name)),
    }
}

/// Reads an optional boolean field, defaulting to `false`, out of an object.
fn opt_bool_field(fields: &Vec<(String, Json)>, key: &str, name: FieldName) -> (r: Result<
    bool,
    FieldFault,
>)
    ensures
        match r {
            Ok(b) => spec_opt_bool_field(fields_view(fields@), key@, name) == Ok::<
                bool,
                FieldFault,
            >(b),
            Err(f) => spec_opt_bool_field(fields_view(fields@), key@, name) == Err::<
                bool,
                FieldFault,
            >(f),
        },
{
    match obj_get(fields, key) {
        Some(Json::Bool(b)) => Ok(*b),
        Some(_) => Err(FieldFault::Invalid(name)),
        None => Ok(false),
    }
}

/// The request of the login exchange: who is authenticating, with what, and
/// the session bootstrap options.
#[derive(Clone, Debug, PartialEq, Eq)]
pub struct Request {
    /// Identification information for the user.
    pub identifier: UserIdentifier,
    /// Additional authentication information, kept as a generic wire value:
    /// it carries either an encoded mechanism or interactive-auth challenge
    /// data that this codec treats opaquely.
    pub auth: Option<Json>,
    /// ID of the client device.
    pub device_id: Option<String>,
    /// A display name to assign to a newly-created device.
    pub initial_device_display_name: Option<String>,
    /// Whether the client supports refresh tokens. Always serialized, since
    /// its default of `false` is meaningful.
    pub refresh_token_requested: bool,
}

/// The model of a [`Request`].
#[verifier::ext_equal]
pub struct RequestV {
    pub identifier: UserIdentifierV,
    pub auth: Option<JsonV>,
    pub device_id: Option<Seq<char>>,
    pub initial_device_display_name: Option<Seq<char>>,
    pub refresh_token_requested: bool,
}

impl View for Request {
    type V = RequestV;

    open spec fn view(&self) -> RequestV {
        RequestV {
            identifier: self.identifier@,
            auth: match &self.auth {
                Some(a) => Some(a@),
                None => None,
            },
            device_id: match &self.device_id {
                Some(d) => Some(d@),
                None => None,
            },
            initial_device_display_name: match &self.initial_device_display_name {
                Some(n) => Some(n@),
                None => None,
            },
            refresh_token_requested: self.refresh_token_requested,
        }
    }
}

/// The wire object of a request. Absent optional fields are omitted; the
/// refresh-token flag always appears.
pub open spec fn spec_encode_request(r: RequestV) -> JsonV {
    JsonV::Obj(
        seq![("identifier"@, spec_encode_identifier(r.identifier))] + opt_field("auth"@, r.auth)
            + opt_field(
            "device_id"@,
            match r.device_id {
                Some(d) => Some(JsonV::Str(d)),
                None => None,
            },
        ) + opt_field(
            "initial_device_display_name"@,
            match r.initial_device_display_name {
                Some(n) => Some(JsonV::Str(n)),
                None => None,
            },
        ) + seq![("refresh_token"@, JsonV::Bool(r.refresh_token_requested))],
    )
}

/// The request a wire value decodes to, or the error that stops it. Fields
/// the decoder does not know are ignored.
pub open spec fn spec_decode_request(j: JsonV) -> Result<RequestV, DecodeError> {
    match j {
        JsonV::Obj(fields) => match obj_lookup(fields, "identifier"@) {
            Some(idj) => match spec_decode_identifier(idj) {
                Ok(id) => match spec_opt_str_field(fields, "device_id"@, FieldName::DeviceId) {
                    Ok(dev) => match spec_opt_str_field(
                        fields,
                        "initial_device_display_name"@,
                        FieldName::InitialDeviceDisplayName,
                    ) {
                        Ok(idn) => match spec_opt_bool_field(
                            fields,
                            "refresh_token"@,
                            FieldName::RefreshToken,
                        ) {
                            Ok(rt) => Ok(
                                RequestV {
                                    identifier: id,
                                    auth: obj_lookup(fields, "auth"@),
                                    device_id: dev,
                                    initial_device_display_name: idn,
                                    refresh_token_requested: rt,
                                },
                            ),
                            Err(f) => Err(DecodeError::MalformedEnvelope(f)),
                        },
                        Err(f) => Err(DecodeError::MalformedEnvelope(f)),
                    },
                    Err(f) => Err(DecodeError::MalformedEnvelope(f)),
                },
                Err(f) => Err(DecodeError::MalformedEnvelope(f)),
            },
            None => Err(
                DecodeError::MalformedEnvelope(FieldFault::Missing(FieldName::Identifier)),
            ),
        },
        _ => Err(DecodeError::NotAnObject),
    }
}

/// The model of a decoded request result.
pub open spec fn request_result_view(r: Result<Request, DecodeError>) -> Result<
    RequestV,
    DecodeError,
> {
    match r {
        Ok(req) => Ok(req@),
        Err(e) => Err(e),
    }
}

impl Request {
    /// Creates a new `Request` for the common case: a bare username and an
    /// already-encoded authentication container. Every other field starts
    /// absent, and refresh tokens are not requested.
    pub fn new(username: String, auth: Json) -> (r: Self)
        ensures
            r.identifier == (UserIdentifier::UserIdOrLocalpart(username)),
            r.auth == (Some(auth)),
            r.device_id is None,
            r.initial_device_display_name is None,
            !r.refresh_token_requested,
    {
        Request {
            identifier: UserIdentifier::UserIdOrLocalpart(username),
            auth: Some(auth),
            device_id: None,
            initial_device_display_name: None,
            refresh_token_requested: false,
        }
    }

    /// Encodes the request as its wire object.
    pub fn encode(&self) -> (r: Json)
        ensures
            r@ == spec_encode_request(self@),
    {
        proof {
            broadcast use lemma_fields_view_index;

        }
        let mut fields: Vec<(String, Json)> = Vec::new();
        fields.push((String::from_str("identifier"), self.identifier.encode()));
        let ghost s1 = seq![("identifier"@, spec_encode_identifier(self.identifier@))];
        proof {
            assert(fields_view(fields@) =~= s1);
        }
        match &self.auth {
            Some(a) => {
                let av = a.deep_clone();
                fields.push((String::from_str("auth"), av));
            },
            None => {},
        }
        let ghost s2 = s1 + opt_field("auth"@, self@.auth);
        proof {
            assert(fields_view(fields@) =~= s2);
        }
        match &self.device_id {
            Some(d) => {
                fields.push((String::from_str("device_id"), Json::Str(d.clone())));
            },
            None => {},
        }
        let ghost s3 = s2 + opt_field(
            "device_id"@,
            match self@.device_id {
                Some(d) => Some(JsonV::Str(d)),
                None => None,
            },
        );
        proof {
            assert(fields_view(fields@) =~= s3);
        }
        match &self.initial_device_display_name {
            Some(n) => {
                fields.push(
                    (String::from_str("initial_device_display_name"), Json::Str(n.clone())),
                );
            },
            None => {},
        }
        let ghost s4 = s3 + opt_field(
            "initial_device_display_name"@,
            match self@.initial_device_display_name {
                Some(n) => Some(JsonV::Str(n)),
                None => None,
            },
        );
        proof {
            assert(fields_view(fields@) =~= s4);
        }
        fields.push(
            (String::from_str("refresh_token"), Json::Bool(self.refresh_token_requested)),
        );
        let r = Json::Obj(fields);
        proof {
            assert(fields_view(fields@) =~= s4 + seq![
                ("refresh_token"@, JsonV::Bool(self.refresh_token_requested)),
            ]);
            assert(r@ =~~= spec_encode_request(self@));
        }
        r
    }

    /// Decodes a wire value into a request. The authentication container is
    /// kept verbatim; unknown fields are ignored.
    pub fn decode(j: &Json) -> (r: Result<Request, DecodeError>)
        ensures
            request_result_view(r) == spec_decode_request(j@),
    {
        match j {
            Json::Obj(fields) => match obj_get(fields, "identifier") {
                Some(idj) => match UserIdentifier::decode(idj) {
                    Ok(id) => match opt_str_field(fields, "device_id", FieldName::DeviceId) {
                        Ok(dev) => match opt_str_field(
                            fields,
                            "initial_device_display_name",
                            FieldName::InitialDeviceDisplayName,
                        ) {
                            Ok(idn) => match opt_bool_field(
                                fields,
                                "refresh_token",
                                FieldName::RefreshToken,
                            ) {
                                Ok(rt) => {
                                    let auth = match obj_get(fields, "auth") {
                                        Some(a) => Some(a.deep_clone()),
                                        None => None,
                                    };
                                    Ok(
                                        Request {
                                            identifier: id,
                                            auth,
                                            device_id: dev,
                                            initial_device_display_name: idn,
                                            refresh_token_requested: rt,
                                        },
                                    )
                                },
                                Err(f) => Err(DecodeError::MalformedEnvelope(f)),
                            },
                            Err(f) => Err(DecodeError::MalformedEnvelope(f)),
                        },
                        Err(f) => Err(DecodeError::MalformedEnvelope(f)),
                    },
                    Err(f) => Err(DecodeError::MalformedEnvelope(f)),
                },
                None => Err(
                    DecodeError::MalformedEnvelope(FieldFault::Missing(FieldName::Identifier)),
                ),
            },
            _ => Err(DecodeError::NotAnObject),
        }
    }
}

/// The response of the login exchange: the issued credentials and the
/// session configuration the server hands back.
#[derive(Clone, Debug, PartialEq, Eq)]
pub struct Response {
    /// The fully-qualified account identifier that has been registered.
    pub user_id: String,
    /// An access token for the account.
    pub access_token: String,
    /// ID of the logged-in device; mirrors the request's device ID when one
    /// was supplied.
    pub device_id: String,
    /// Client configuration provided by the server.
    pub well_known: Option<DiscoveryInfo>,
    /// A refresh token for the account.
    pub refresh_token: Option<String>,
    /// The lifetime of the access token, in milliseconds. Absent means the
    /// caller must assume the token never expires.
    pub expires_in: Option<u64>,
}

/// The model of a [`Response`].
#[verifier::ext_equal]
pub struct ResponseV {
    pub user_id: Seq<char>,
    pub access_token: Seq<char>,
    pub device_id: Seq<char>,
    pub well_known: Option<DiscoveryInfoV>,
    pub refresh_token: Option<Seq<char>>,
    pub expires_in: Option<u64>,
}

impl ResponseV {
    /// A lifetime that fits the wire's signed integer: what every decoded
    /// response satisfies, and what encoding needs.
    pub open spec fn wf(self) -> bool {
        match self.expires_in {
            Some(ms) => ms <= i64::MAX as u64,
            None => true,
        }
    }
}

impl View for Response {
    type V = ResponseV;

    open spec fn view(&self) -> ResponseV {
        ResponseV {
            user_id: self.user_id@,
            access_token: self.access_token@,
            device_id: self.device_id@,
            well_known: match &self.well_known {
                Some(d) => Some(d@),
                None => None,
            },
            refresh_token: match &self.refresh_token {
                Some(t) => Some(t@),
                None => None,
            },
            expires_in: self.expires_in,
        }
    }
}

/// The wire object of a response. Every absent optional field is omitted
/// entirely, the token lifetime included; the deprecated server-name field
/// of old wire data is never emitted.
pub open spec fn spec_encode_response(r: ResponseV) -> JsonV {
    JsonV::Obj(
        seq![
            ("user_id"@, JsonV::Str(r.user_id)),
            ("access_token"@, JsonV::Str(r.access_token)),
            ("device_id"@, JsonV::Str(r.device_id)),
        ] + opt_field(
            "well_known"@,
            match r.well_known {
                Some(d) => Some(spec_encode_discovery(d)),
                None => None,
            },
        ) + opt_field(
            "refresh_token"@,
            match r.refresh_token {
                Some(t) => Some(JsonV::Str(t)),
                None => None,
            },
        ) + opt_field(
            "expires_in_ms"@,
            match r.expires_in {
                Some(ms) => Some(JsonV::Int(ms as i64)),
                None => None,
            },
        ),
    )
}

/// The response a wire value decodes to, or the error that stops it. A
/// deprecated server-name field, like any other unknown field, is ignored,
/// so old wire data decodes without error.
pub open spec fn spec_decode_response(j: JsonV) -> Result<ResponseV, DecodeError> {
    match j {
        JsonV::Obj(fields) => match spec_req_str_field(fields, "user_id"@, FieldName::UserId) {
            Ok(uid) => match spec_req_str_field(fields, "access_token"@, FieldName::AccessToken) {
                Ok(at) => match spec_req_str_field(fields, "device_id"@, FieldName::DeviceId) {
                    Ok(dev) => match obj_lookup(fields, "well_known"@) {
                        Some(wkj) => match spec_decode_discovery(wkj) {
                            Ok(wk) => spec_decode_response_tail(fields, uid, at, dev, Some(wk)),
                            Err(f) => Err(DecodeError::MalformedEnvelope(f)),
                        },
                        None => spec_decode_response_tail(fields, uid, at, dev, None),
                    },
                    Err(f) => Err(DecodeError::MalformedEnvelope(f)),
                },
                Err(f) => Err(DecodeError::MalformedEnvelope(f)),
            },
            Err(f) => Err(DecodeError::MalformedEnvelope(f)),
        },
        _ => Err(DecodeError::NotAnObject),
    }
}

/// The scalar tail of a response decode: the refresh token and the token
/// lifetime, read after the mandatory fields.
pub open spec fn spec_decode_response_tail(
    fields: Seq<(Seq<char>, JsonV)>,
    uid: Seq<char>,
    at: Seq<char>,
    dev: Seq<char>,
    wk: Option<DiscoveryInfoV>,
) -> Result<ResponseV, DecodeError> {
    match spec_opt_str_field(fields, "refresh_token"@, FieldName::RefreshToken) {
        Ok(rt) => match obj_lookup(fields, "expires_in_ms"@) {
            Some(JsonV::Int(n)) => if n >= 0 {
                Ok(
                    ResponseV {
                        user_id: uid,
                        access_token: at,
                        device_id: dev,
                        well_known: wk,
                        refresh_token: rt,
                        expires_in: Some(n as u64),
                    },
                )
            } else {
                Err(DecodeError::MalformedEnvelope(FieldFault::Invalid(FieldName::ExpiresInMs)))
            },
            Some(_) => Err(
                DecodeError::MalformedEnvelope(FieldFault::Invalid(FieldName::ExpiresInMs)),
            ),
            None => Ok(
                ResponseV {
                    user_id: uid,
                    access_token: at,
                    device_id: dev,
                    well_known: wk,
                    refresh_token: rt,
                    expires_in: None,
                },
            ),
        },
        Err(f) => Err(DecodeError::MalformedEnvelope(f)),
    }
}

/// The model of a decoded response result.
pub open spec fn response_result_view(r: Result<Response, DecodeError>) -> Result<
    ResponseV,
    DecodeError,
> {
    match r {
        Ok(resp) => Ok(resp@),
        Err(e) => Err(e),
    }
}

impl Response {
    /// Creates a new `Response` with the given user ID, access token and
    /// device ID; every optional field starts absent.
    pub fn new(user_id: String, access_token: String, device_id: String) -> (r: Self)
        ensures
            r.user_id == user_id,
            r.access_token == access_token,
            r.device_id == device_id,
            r.well_known is None,
            r.refresh_token is None,
            r.expires_in is None,
            r@.wf(),
    {
        Response {
            user_id,
            access_token,
            device_id,
            well_known: None,
            refresh_token: None,
            expires_in: None,
        }
    }

    /// Encodes the response as its wire object. The lifetime must fit the
    /// wire's signed integer, which every decoded response does.
    pub fn encode(&self) -> (r: Json)
        requires
            self@.wf(),
        ensures
            r@ == spec_encode_response(self@),
    {
        proof {
            broadcast use lemma_fields_view_index;

        }
        let mut fields: Vec<(String, Json)> = Vec::new();
        fields.push((String::from_str("user_id"), Json::Str(self.user_id.clone())));
        fields.push((String::from_str("access_token"), Json::Str(self.access_token.clone())));
        fields.push((String::from_str("device_id"), Json::Str(self.device_id.clone())));
        let ghost s1 = seq![
            ("user_id"@, JsonV::Str(self.user_id@)),
            ("access_token"@, JsonV::Str(self.access_token@)),
            ("device_id"@, JsonV::Str(self.device_id@)),
        ];
        proof {
            assert(fields_view(fields@) =~= s1);
        }
        match &self.well_known {
            Some(d) => {
                let dj = d.encode();
                fields.push((String::from_str("well_known"), dj));
            },
            None => {},
        }
        let ghost s2 = s1 + opt_field(
            "well_known"@,
            match self@.well_known {
                Some(d) => Some(spec_encode_discovery(d)),
                None => None,
            },
        );
        proof {
            assert(fields_view(fields@) =~= s2);
        }
        match &self.refresh_token {
            Some(t) => {
                fields.push((String::from_str("refresh_token"), Json::Str(t.clone())));
            },
            None => {},
        }
        let ghost s3 = s2 + opt_field(
            "refresh_token"@,
            match self@.refresh_token {
                Some(t) => Some(JsonV::Str(t)),
                None => None,
            },
        );
        proof {
            assert(fields_view(fields@) =~= s3);
        }
        match &self.expires_in {
            Some(ms) => {
                fields.push((String::from_str("expires_in_ms"), Json::Int(*ms as i64)));
            },
            None => {},
        }
        let ghost s4 = s3 + opt_field(
            "expires_in_ms"@,
            match self@.expires_in {
                Some(ms) => Some(JsonV::Int(ms as i64)),
                None => None,
            },
        );
        let r = Json::Obj(fields);
        proof {
            assert(fields_view(fields@) =~= s4);
            assert(r@ =~~= spec_encode_response(self@));
        }
        r
    }

    /// Decodes a wire value into a response. Unknown fields, the deprecated
    /// server-name field among them, are ignored.
    pub fn decode(j: &Json) -> (r: Result<Response, DecodeError>)
        ensures
            response_result_view(r) == spec_decode_response(j@),
            r matches Ok(resp) ==> resp@.wf(),
    {
        match j {
            Json::Obj(fields) => match req_str_field(fields, "user_id", FieldName::UserId) {
                Ok(uid) => match req_str_field(fields, "access_token", FieldName::AccessToken) {
                    Ok(at) => match req_str_field(fields, "device_id", FieldName::DeviceId) {
                        Ok(dev) => {
                            let wk: Option<DiscoveryInfo> = match obj_get(fields, "well_known") {
                                Some(wkj) => match DiscoveryInfo::decode(wkj) {
                                    Ok(d) => Some(d),
                                    Err(f) => {
                                        return Err(DecodeError::MalformedEnvelope(f));
                                    },
                                },
                                None => None,
                            };
                            Self::decode_tail(fields, uid, at, dev, wk)
                        },
                        Err(f) => Err(DecodeError::MalformedEnvelope(f)),
                    },
                    Err(f) => Err(DecodeError::MalformedEnvelope(f)),
                },
                Err(f) => Err(DecodeError::MalformedEnvelope(f)),
            },
            _ => Err(DecodeError::NotAnObject),
        }
    }

    /// Reads the scalar tail of a response: refresh token and lifetime.
    fn decode_tail(
        fields: &Vec<(String, Json)>,
        user_id: String,
        access_token: String,
        device_id: String,
        well_known: Option<DiscoveryInfo>,
    ) -> (r: Result<Response, DecodeError>)
        ensures
            response_result_view(r) == spec_decode_response_tail(
                fields_view(fields@),
                user_id@,
                access_token@,
                device_id@,
                match well_known {
                    Some(d) => Some(d@),
                    None => None,
                },
            ),
            r matches Ok(resp) ==> resp@.wf(),
    {
        match opt_str_field(fields, "refresh_token", FieldName::RefreshToken) {
            Ok(rt) => match obj_get(fields, "expires_in_ms") {
                Some(Json::Int(n)) => if *n >= 0 {
                    Ok(
                        Response {
                            user_id,
                            access_token,
                            device_id,
                            well_known,
                            refresh_token: rt,
                            expires_in: Some(*n as u64),
                        },
                    )
                } else {
                    Err(DecodeError::MalformedEnvelope(FieldFault::Invalid(FieldName::ExpiresInMs)))
                },
                Some(_) => Err(
                    DecodeError::MalformedEnvelope(FieldFault::Invalid(FieldName::ExpiresInMs)),
                ),
                None => Ok(
                    Response {
                        user_id,
                        access_token,
                        device_id,
                        well_known,
                        refresh_token: rt,
                        expires_in: None,
                    },
                ),
            },
            Err(f) => Err(DecodeError::MalformedEnvelope(f)),
        }
    }
}

/// Law: absence of the lifetime field means "never expires", in both
/// directions. A response object without `expires_in_ms` decodes to a
/// response with no expiry, and a response with no expiry encodes to an
/// object from which the field is omitted entirely, not emitted as null.
pub proof fn lemma_response_expiry_optionality(fields: Seq<(Seq<char>, JsonV)>, r: ResponseV)
    ensures
        obj_lookup(fields, "expires_in_ms"@) is None ==> (spec_decode_response(
            JsonV::Obj(fields),
        ) matches Ok(resp) ==> resp.expires_in is None),
        r.expires_in is None ==> obj_lookup(spec_encode_response(r)->Obj_0, "expires_in_ms"@)
            is None,
{
    if r.expires_in is None {
        reveal_strlit("user_id");
        reveal_strlit("access_token");
        reveal_strlit("device_id");
        reveal_strlit("well_known");
        reveal_strlit("refresh_token");
        reveal_strlit("expires_in_ms");
        assert("user_id"@.len() == 7 && "access_token"@.len() == 12 && "device_id"@.len() == 9
            && "well_known"@.len() == 10 && "expires_in_ms"@.len() == 13);
        assert("refresh_token"@[0] == 'r' && "expires_in_ms"@[0] == 'e');
        let base = seq![
            ("user_id"@, JsonV::Str(r.user_id)),
            ("access_token"@, JsonV::Str(r.access_token)),
            ("device_id"@, JsonV::Str(r.device_id)),
        ];
        let wk = opt_field(
            "well_known"@,
            match r.well_known {
                Some(d) => Some(spec_encode_discovery(d)),
                None => None,
            },
        );
        let rt = opt_field(
            "refresh_token"@,
            match r.refresh_token {
                Some(t) => Some(JsonV::Str(t)),
                None => None,
            },
        );
        let efields = spec_encode_response(r)->Obj_0;
        assert(efields =~= base + wk + rt);
        assert(forall|i: int| 0 <= i < base.len() ==> base[i].0 != "expires_in_ms"@);
        assert(forall|i: int| 0 <= i < wk.len() ==> wk[i].0 != "expires_in_ms"@);
        assert(forall|i: int| 0 <= i < rt.len() ==> rt[i].0 != "expires_in_ms"@);
        assert(forall|i: int| 0 <= i < efields.len() ==> efields[i].0 != "expires_in_ms"@);
        lemma_obj_lookup_none(efields, "expires_in_ms"@);
    }
}

} // verus!
