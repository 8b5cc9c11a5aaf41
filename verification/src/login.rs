//! The authentication mechanism value type and its discriminated-union codec.
//!
//! Decoding is two-pass: the input arrives as a generic [`Json`] tree, the
//! `type` field is read first, and only then is the same tree projected into
//! the variant that the discriminator names. A discriminator that matches no
//! known mechanism never fails: it decodes to the catch-all variant, which
//! stores the discriminator and every remaining field verbatim.

use vstd::prelude::*;
use vstd::string::StringExecFns;

use crate::error::{DecodeError, FieldFault, FieldName, VariantKind};
use crate::identifier::{
    lemma_identifier_round_trip, spec_decode_identifier, spec_encode_identifier,
    spec_identifier_debug, UserIdentifier, UserIdentifierV,
};
use crate::json::{
    fields_view, keys_distinct, lemma_fields_view_index, lemma_obj_remove_permutes, obj_get,
    obj_lookup, obj_remove, obj_remove_fields, str_eq, Json, JsonV,
};

verus! {

/// An identifier and password supplied as authentication.
#[derive(Clone, PartialEq, Eq)]
pub struct Password {
    /// Identification information for the user.
    pub identifier: UserIdentifier,
    /// The password. Never shown by the diagnostic rendering.
    pub password: String,
}

/// The model of a [`Password`] payload.
#[verifier::ext_equal]
pub struct PasswordV {
    pub identifier: UserIdentifierV,
    pub password: Seq<char>,
}

/// A token supplied as authentication.
#[derive(Clone, PartialEq, Eq)]
pub struct Token {
    /// The token. Never shown by the diagnostic rendering.
    pub token: String,
}

/// The model of a [`Token`] payload.
#[verifier::ext_equal]
pub struct TokenV {
    pub token: Seq<char>,
}

/// An identifier supplied for application-service authentication.
#[derive(Clone, PartialEq, Eq)]
pub struct ApplicationService {
    /// Identification information for the user.
    pub identifier: UserIdentifier,
}

/// The model of an [`ApplicationService`] payload.
#[verifier::ext_equal]
pub struct ApplicationServiceV {
    pub identifier: UserIdentifierV,
}

/// An unrecognized mechanism: its discriminator and every other field of the
/// wire object, kept verbatim so that re-encoding reproduces the object.
///
/// Nothing stops a discriminator here from colliding with a known
/// mechanism's tag; such a value is legal wire-wise but meaningless, and the
/// codec neither rejects it nor upgrades it to the typed variant.
#[derive(Clone, PartialEq, Eq)]
pub struct CustomLoginInfo {
    /// The discriminator string.
    pub login_type: String,
    /// Every field of the wire object other than the discriminator.
    pub extra: Vec<(String, Json)>,
}

/// The model of a [`CustomLoginInfo`] payload.
#[verifier::ext_equal]
pub struct CustomLoginInfoV {
    pub login_type: Seq<char>,
    pub extra: Seq<(Seq<char>, JsonV)>,
}

/// A signed public key supplied as authentication.
#[derive(Clone, PartialEq, Eq)]
pub struct CaminoLoginInfo {
    /// Hex-encoded public key bytes.
    pub public_key: String,
    /// Hex-encoded signature for the public key bytes. Never shown by the
    /// diagnostic rendering.
    pub signature: String,
}

/// The model of a [`CaminoLoginInfo`] payload.
#[verifier::ext_equal]
pub struct CaminoLoginInfoV {
    pub public_key: Seq<char>,
    pub signature: Seq<char>,
}

/// The authentication mechanism: one of the known mechanisms, or the
/// catch-all for a discriminator unknown at compile time.
#[derive(Clone, PartialEq, Eq)]
pub enum LoginInfo {
    /// An identifier and password are supplied to authenticate.
    Password(Password),
    /// Token-based login.
    Token(Token),
    /// Application-service login.
    ApplicationService(ApplicationService),
    /// An unrecognized mechanism, kept verbatim.
    Custom(CustomLoginInfo),
    /// Signed public-key login.
    Camino(CaminoLoginInfo),
}

/// The model of a [`LoginInfo`].
#[verifier::ext_equal]
pub enum LoginInfoV {
    Password(PasswordV),
    Token(TokenV),
    ApplicationService(ApplicationServiceV),
    Custom(CustomLoginInfoV),
    Camino(CaminoLoginInfoV),
}

impl View for Password {
    type V = PasswordV;

    open spec fn view(&self) -> PasswordV {
        PasswordV { identifier: self.identifier@, password: self.password@ }
    }
}

impl View for Token {
    type V = TokenV;

    open spec fn view(&self) -> TokenV {
        TokenV { token: self.token@ }
    }
}

impl View for ApplicationService {
    type V = ApplicationServiceV;

    open spec fn view(&self) -> ApplicationServiceV {
        ApplicationServiceV { identifier: self.identifier@ }
    }
}

impl View for CustomLoginInfo {
    type V = CustomLoginInfoV;

    open spec fn view(&self) -> CustomLoginInfoV {
        CustomLoginInfoV { login_type: self.login_type@, extra: fields_view(self.extra@) }
    }
}

impl View for CaminoLoginInfo {
    type V = CaminoLoginInfoV;

    open spec fn view(&self) -> CaminoLoginInfoV {
        CaminoLoginInfoV { public_key: self.public_key@, signature: self.signature@ }
    }
}

impl View for LoginInfo {
    type V = LoginInfoV;

    open spec fn view(&self) -> LoginInfoV {
        match self {
            LoginInfo::Password(p) => LoginInfoV::Password(p@),
            LoginInfo::Token(t) => LoginInfoV::Token(t@),
            LoginInfo::ApplicationService(a) => LoginInfoV::ApplicationService(a@),
            LoginInfo::Custom(c) => LoginInfoV::Custom(c@),
            LoginInfo::Camino(c) => LoginInfoV::Camino(c@),
        }
    }
}

/// Whether a discriminator names a known mechanism.
pub open spec fn spec_known_tag(t: Seq<char>) -> bool {
    ||| t == "m.login.password"@
    ||| t == "m.login.token"@
    ||| t == "m.login.application_service"@
    ||| t == "m.login.camino"@
}

/// The typed projection of a wire object whose discriminator is the password
/// mechanism's tag.
pub open spec fn spec_parse_password(fields: Seq<(Seq<char>, JsonV)>) -> Result<
    LoginInfoV,
    DecodeError,
> {
    match obj_lookup(fields, "identifier"@) {
        Some(idj) => match spec_decode_identifier(idj) {
            Ok(id) => match obj_lookup(fields, "password"@) {
                Some(JsonV::Str(pw)) => Ok(
                    LoginInfoV::Password(PasswordV { identifier: id, password: pw }),
                ),
                Some(_) => Err(
                    DecodeError::MalformedVariant(
                        VariantKind::Password,
                        FieldFault::Invalid(FieldName::Password),
                    ),
                ),
                None => Err(
                    DecodeError::MalformedVariant(
                        VariantKind::Password,
                        FieldFault::Missing(FieldName::Password),
                    ),
                ),
            },
            Err(f) => Err(DecodeError::MalformedVariant(VariantKind::Password, f)),
        },
        None => Err(
            DecodeError::MalformedVariant(
                VariantKind::Password,
                FieldFault::Missing(FieldName::Identifier),
            ),
        ),
    }
}

/// The typed projection for the token mechanism.
pub open spec fn spec_parse_token(fields: Seq<(Seq<char>, JsonV)>) -> Result<
    LoginInfoV,
    DecodeError,
> {
    match obj_lookup(fields, "token"@) {
        Some(JsonV::Str(tok)) => Ok(LoginInfoV::Token(TokenV { token: tok })),
        Some(_) => Err(
            DecodeError::MalformedVariant(
                VariantKind::Token,
                FieldFault::Invalid(FieldName::Token),
            ),
        ),
        None => Err(
            DecodeError::MalformedVariant(
                VariantKind::Token,
                FieldFault::Missing(FieldName::Token),
            ),
        ),
    }
}

/// The typed projection for the application-service mechanism.
pub open spec fn spec_parse_application_service(fields: Seq<(Seq<char>, JsonV)>) -> Result<
    LoginInfoV,
    DecodeError,
> {
    match obj_lookup(fields, "identifier"@) {
        Some(idj) => match spec_decode_identifier(idj) {
            Ok(id) => Ok(
                LoginInfoV::ApplicationService(ApplicationServiceV { identifier: id }),
            ),
            Err(f) => Err(DecodeError::MalformedVariant(VariantKind::ApplicationService, f)),
        },
        None => Err(
            DecodeError::MalformedVariant(
                VariantKind::ApplicationService,
                FieldFault::Missing(FieldName::Identifier),
            ),
        ),
    }
}

/// The typed projection for the signed-key mechanism.
pub open spec fn spec_parse_camino(fields: Seq<(Seq<char>, JsonV)>) -> Result<
    LoginInfoV,
    DecodeError,
> {
    match obj_lookup(fields, "public_key"@) {
        Some(JsonV::Str(pk)) => match obj_lookup(fields, "signature"@) {
            Some(JsonV::Str(sig)) => Ok(
                LoginInfoV::Camino(CaminoLoginInfoV { public_key: pk, signature: sig }),
            ),
            Some(_) => Err(
                DecodeError::MalformedVariant(
                    VariantKind::Camino,
                    FieldFault::Invalid(FieldName::Signature),
                ),
            ),
            None => Err(
                DecodeError::MalformedVariant(
                    VariantKind::Camino,
                    FieldFault::Missing(FieldName::Signature),
                ),
            ),
        },
        Some(_) => Err(
            DecodeError::MalformedVariant(
                VariantKind::Camino,
                FieldFault::Invalid(FieldName::PublicKey),
            ),
        ),
        None => Err(
            DecodeError::MalformedVariant(
                VariantKind::Camino,
                FieldFault::Missing(FieldName::PublicKey),
            ),
        ),
    }
}

/// Dispatch on a discriminator that was already read from the object.
pub open spec fn spec_login_from_tag(t: Seq<char>, fields: Seq<(Seq<char>, JsonV)>, extra: Seq<
    (Seq<char>, JsonV),
>) -> Result<LoginInfoV, DecodeError> {
    if t == "m.login.password"@ {
        spec_parse_password(fields)
    } else if t == "m.login.token"@ {
        spec_parse_token(fields)
    } else if t == "m.login.application_service"@ {
        spec_parse_application_service(fields)
    } else if t == "m.login.camino"@ {
        spec_parse_camino(fields)
    } else {
        Ok(LoginInfoV::Custom(CustomLoginInfoV { login_type: t, extra }))
    }
}

/// The mechanism a generic wire value decodes to, or the error that stops
/// it. Reading the discriminator of anything but an object fails the same
/// way as a missing `type` field.
pub open spec fn spec_decode_login(j: JsonV) -> Result<LoginInfoV, DecodeError> {
    match j {
        JsonV::Obj(fields) => match obj_lookup(fields, "type"@) {
            Some(JsonV::Str(t)) => spec_login_from_tag(t, fields, obj_remove(fields, "type"@)),
            Some(_) => Err(DecodeError::MissingDiscriminator),
            None => Err(DecodeError::MissingDiscriminator),
        },
        _ => Err(DecodeError::MissingDiscriminator),
    }
}

/// The mechanism built from a discriminator given apart from the payload
/// object. An unknown discriminator keeps the payload verbatim, a known one
/// is projected into its typed variant.
pub open spec fn spec_login_new(t: Seq<char>, data: Seq<(Seq<char>, JsonV)>) -> Result<
    LoginInfoV,
    DecodeError,
> {
    spec_login_from_tag(t, data, data)
}

/// The wire object of a mechanism: the discriminator first, the variant's
/// own fields flattened beside it.
pub open spec fn spec_encode_login(li: LoginInfoV) -> JsonV {
    match li {
        LoginInfoV::Password(p) => JsonV::Obj(
            seq![
                ("type"@, JsonV::Str("m.login.password"@)),
                ("identifier"@, spec_encode_identifier(p.identifier)),
                ("password"@, JsonV::Str(p.password)),
            ],
        ),
        LoginInfoV::Token(t) => JsonV::Obj(
            seq![
                ("type"@, JsonV::Str("m.login.token"@)),
                ("token"@, JsonV::Str(t.token)),
            ],
        ),
        LoginInfoV::ApplicationService(a) => JsonV::Obj(
            seq![
                ("type"@, JsonV::Str("m.login.application_service"@)),
                ("identifier"@, spec_encode_identifier(a.identifier)),
            ],
        ),
        LoginInfoV::Custom(c) => JsonV::Obj(
            seq![("type"@, JsonV::Str(c.login_type))] + c.extra,
        ),
        LoginInfoV::Camino(c) => JsonV::Obj(
            seq![
                ("type"@, JsonV::Str("m.login.camino"@)),
                ("public_key"@, JsonV::Str(c.public_key)),
                ("signature"@, JsonV::Str(c.signature)),
            ],
        ),
    }
}

/// The model of a decoded mechanism result.
pub open spec fn login_result_view(r: Result<LoginInfo, DecodeError>) -> Result<
    LoginInfoV,
    DecodeError,
> {
    match r {
        Ok(li) => Ok(li@),
        Err(e) => Err(e),
    }
}

/// The diagnostic rendering of a password payload. It is a function of the
/// identifier alone: the password cannot reach it.
pub open spec fn spec_password_debug(id: UserIdentifierV) -> Seq<char> {
    "Password { identifier: "@ + spec_identifier_debug(id) + ", .. }"@
}

/// The diagnostic rendering of an application-service payload.
pub open spec fn spec_application_service_debug(id: UserIdentifierV) -> Seq<char> {
    "ApplicationService { identifier: "@ + spec_identifier_debug(id) + " }"@
}

/// The diagnostic rendering of a catch-all payload: a function of the
/// discriminator alone, so no stored field can reach it.
pub open spec fn spec_custom_debug(login_type: Seq<char>) -> Seq<char> {
    "CustomLoginInfo { login_type: \""@ + login_type + "\", .. }"@
}

/// The diagnostic rendering of a signed-key payload: a function of the
/// public key alone, so the signature cannot reach it.
pub open spec fn spec_camino_debug(public_key: Seq<char>) -> Seq<char> {
    "CaminoLoginInfo { public_key: \""@ + public_key + "\", .. }"@
}

/// The diagnostic rendering of a mechanism: each variant shows only its
/// non-secret fields.
pub open spec fn spec_login_debug(li: LoginInfoV) -> Seq<char> {
    match li {
        LoginInfoV::Password(p) => spec_password_debug(p.identifier),
        LoginInfoV::Token(_) => "Token { .. }"@,
        LoginInfoV::ApplicationService(a) => spec_application_service_debug(a.identifier),
        LoginInfoV::Custom(c) => spec_custom_debug(c.login_type),
        LoginInfoV::Camino(c) => spec_camino_debug(c.public_key),
    }
}

impl Password {
    /// Creates a new `Password` with the given identifier and password.
    pub fn new(identifier: UserIdentifier, password: String) -> (r: Self)
        ensures
            r.identifier == identifier,
            r.password == password,
    {
        Password { identifier, password }
    }

    /// Diagnostic rendering. Only the identifier appears; the contract ties
    /// the result to the identifier alone, so the password never does.
    pub fn debug_str(&self) -> (r: String)
        ensures
            r@ == spec_password_debug(self.identifier@),
    {
        let mut s = String::from_str("Password { identifier: ");
        let idd = self.identifier.debug_str();
        s.append(idd.as_str());
        s.append(", .. }");
        s
    }
}

impl Token {
    /// Creates a new `Token` with the given token.
    pub fn new(token: String) -> (r: Self)
        ensures
            r.token == token,
    {
        Token { token }
    }

    /// Diagnostic rendering. The result is one fixed string: the token never
    /// appears.
    pub fn debug_str(&self) -> (r: String)
        ensures
            r@ == "Token { .. }"@,
    {
        String::from_str("Token { .. }")
    }
}

impl ApplicationService {
    /// Creates a new `ApplicationService` with the given identifier.
    pub fn new(identifier: UserIdentifier) -> (r: Self)
        ensures
            r.identifier == identifier,
    {
        ApplicationService { identifier }
    }

    /// Diagnostic rendering; this payload has no secret field.
    pub fn debug_str(&self) -> (r: String)
        ensures
            r@ == spec_application_service_debug(self.identifier@),
    {
        let mut s = String::from_str("ApplicationService { identifier: ");
        let idd = self.identifier.debug_str();
        s.append(idd.as_str());
        s.append(" }");
        s
    }
}

impl CustomLoginInfo {
    /// Diagnostic rendering. Only the discriminator appears: the stored
    /// extra fields may carry anything, so none of them is shown.
    pub fn debug_str(&self) -> (r: String)
        ensures
            r@ == spec_custom_debug(self.login_type@),
    {
        let mut s = String::from_str("CustomLoginInfo { login_type: \"");
        s.append(self.login_type.as_str());
        s.append("\", .. }");
        s
    }
}

impl CaminoLoginInfo {
    /// Creates a new `CaminoLoginInfo` with the given public key and
    /// signature.
    pub fn new(public_key: String, signature: String) -> (r: Self)
        ensures
            r.public_key == public_key,
            r.signature == signature,
    {
        CaminoLoginInfo { public_key, signature }
    }

    /// Diagnostic rendering. The contract ties the result to the public key
    /// alone, so the signature never appears.
    pub fn debug_str(&self) -> (r: String)
        ensures
            r@ == spec_camino_debug(self.public_key@),
    {
        let mut s = String::from_str("CaminoLoginInfo { public_key: \"");
        s.append(self.public_key.as_str());
        s.append("\", .. }");
        s
    }
}

impl LoginInfo {
    /// Projects an object's fields into the password variant.
    fn parse_password(fields: &Vec<(String, Json)>) -> (r: Result<LoginInfo, DecodeError>)
        ensures
            login_result_view(r) == spec_parse_password(fields_view(fields@)),
    {
        match obj_get(fields, "identifier") {
            Some(idj) => match UserIdentifier::decode(idj) {
                Ok(id) => match obj_get(fields, "password") {
                    Some(Json::Str(pw)) => Ok(
                        LoginInfo::Password(Password { identifier: id, password: pw.clone() }),
                    ),
                    Some(_) => Err(
                        DecodeError::MalformedVariant(
                            VariantKind::Password,
                            FieldFault::Invalid(FieldName::Password),
                        ),
                    ),
                    None => Err(
                        DecodeError::MalformedVariant(
                            VariantKind::Password,
                            FieldFault::Missing(FieldName::Password),
                        ),
                    ),
                },
                Err(f) => Err(DecodeError::MalformedVariant(VariantKind::Password, f)),
            },
            None => Err(
                DecodeError::MalformedVariant(
                    VariantKind::Password,
                    FieldFault::Missing(FieldName::Identifier),
                ),
            ),
        }
    }

    /// Projects an object's fields into the token variant.
    fn parse_token(fields: &Vec<(String, Json)>) -> (r: Result<LoginInfo, DecodeError>)
        ensures
            login_result_view(r) == spec_parse_token(fields_view(fields@)),
    {
        match obj_get(fields, "token") {
            Some(Json::Str(tok)) => Ok(LoginInfo::Token(Token { token: tok.clone() })),
            Some(_) => Err(
                DecodeError::MalformedVariant(
                    VariantKind::Token,
                    FieldFault::Invalid(FieldName::Token),
                ),
            ),
            None => Err(
                DecodeError::MalformedVariant(
                    VariantKind::Token,
                    FieldFault::Missing(FieldName::Token),
                ),
            ),
        }
    }

    /// Projects an object's fields into the application-service variant.
    fn parse_application_service(fields: &Vec<(String, Json)>) -> (r: Result<
        LoginInfo,
        DecodeError,
    >)
        ensures
            login_result_view(r) == spec_parse_application_service(fields_view(fields@)),
    {
        match obj_get(fields, "identifier") {
            Some(idj) => match UserIdentifier::decode(idj) {
                Ok(id) => Ok(
                    LoginInfo::ApplicationService(ApplicationService { identifier: id }),
                ),
                Err(f) => Err(
                    DecodeError::MalformedVariant(VariantKind::ApplicationService, f),
                ),
            },
            None => Err(
                DecodeError::MalformedVariant(
                    VariantKind::ApplicationService,
                    FieldFault::Missing(FieldName::Identifier),
                ),
            ),
        }
    }

    /// Projects an object's fields into the signed-key variant.
    fn parse_camino(fields: &Vec<(String, Json)>) -> (r: Result<LoginInfo, DecodeError>)
        ensures
            login_result_view(r) == spec_parse_camino(fields_view(fields@)),
    {
        match obj_get(fields, "public_key") {
            Some(Json::Str(pk)) => match obj_get(fields, "signature") {
                Some(Json::Str(sig)) => Ok(
                    LoginInfo::Camino(
                        CaminoLoginInfo { public_key: pk.clone(), signature: sig.clone() },
                    ),
                ),
                Some(_) => Err(
                    DecodeError::MalformedVariant(
                        VariantKind::Camino,
                        FieldFault::Invalid(FieldName::Signature),
                    ),
                ),
                None => Err(
                    DecodeError::MalformedVariant(
                        VariantKind::Camino,
                        FieldFault::Missing(FieldName::Signature),
                    ),
                ),
            },
            Some(_) => Err(
                DecodeError::MalformedVariant(
                    VariantKind::Camino,
                    FieldFault::Invalid(FieldName::PublicKey),
                ),
            ),
            None => Err(
                DecodeError::MalformedVariant(
                    VariantKind::Camino,
                    FieldFault::Missing(FieldName::PublicKey),
                ),
            ),
        }
    }

    /// Decodes a generic wire value into the mechanism its discriminator
    /// names. An unrecognized discriminator never fails: the value decodes
    /// to the catch-all variant with every non-discriminator field kept.
    pub fn decode(j: &Json) -> (r: Result<LoginInfo, DecodeError>)
        ensures
            login_result_view(r) == spec_decode_login(j@),
    {
        match j {
            Json::Obj(fields) => match obj_get(fields, "type") {
                Some(Json::Str(t)) => if str_eq(t.as_str(), "m.login.password") {
                    Self::parse_password(fields)
                } else if str_eq(t.as_str(), "m.login.token") {
                    Self::parse_token(fields)
                } else if str_eq(t.as_str(), "m.login.application_service") {
                    Self::parse_application_service(fields)
                } else if str_eq(t.as_str(), "m.login.camino") {
                    Self::parse_camino(fields)
                } else {
                    let extra = obj_remove_fields(fields, "type");
                    Ok(LoginInfo::Custom(CustomLoginInfo { login_type: t.clone(), extra }))
                },
                Some(_) => Err(DecodeError::MissingDiscriminator),
                None => Err(DecodeError::MissingDiscriminator),
            },
            _ => Err(DecodeError::MissingDiscriminator),
        }
    }

    /// Creates a new `LoginInfo` from a discriminator string and a payload
    /// object given apart from it.
    ///
    /// Prefer the typed variants where possible: this constructor is meant
    /// for unsupported mechanisms, whose payload it keeps verbatim. A known
    /// discriminator is projected into its typed variant instead, and fails
    /// if the payload does not fit it.
    pub fn new(login_type: &str, data: Vec<(String, Json)>) -> (r: Result<LoginInfo, DecodeError>)
        ensures
            login_result_view(r) == spec_login_new(login_type@, fields_view(data@)),
    {
        if str_eq(login_type, "m.login.password") {
            Self::parse_password(&data)
        } else if str_eq(login_type, "m.login.token") {
            Self::parse_token(&data)
        } else if str_eq(login_type, "m.login.application_service") {
            Self::parse_application_service(&data)
        } else if str_eq(login_type, "m.login.camino") {
            Self::parse_camino(&data)
        } else {
            Ok(
                LoginInfo::Custom(
                    CustomLoginInfo { login_type: login_type.to_owned(), extra: data },
                ),
            )
        }
    }

    /// Encodes the mechanism as its wire object: the discriminator under
    /// `type` first, then the variant's own fields beside it. The catch-all
    /// variant reproduces its stored fields verbatim.
    pub fn encode(&self) -> (r: Json)
        ensures
            r@ == spec_encode_login(self@),
    {
        proof {
            broadcast use lemma_fields_view_index;

        }
        match self {
            LoginInfo::Password(p) => {
                let mut fields: Vec<(String, Json)> = Vec::new();
                fields.push(
                    (String::from_str("type"), Json::Str(String::from_str("m.login.password"))),
                );
                fields.push((String::from_str("identifier"), p.identifier.encode()));
                fields.push((String::from_str("password"), Json::Str(p.password.clone())));
                let r = Json::Obj(fields);
                proof {
                    let fv = fields_view(fields@);
                    assert(fv[0] == ("type"@, JsonV::Str("m.login.password"@)));
                    assert(fv[1] == ("identifier"@, spec_encode_identifier(p.identifier@)));
                    assert(fv[2] == ("password"@, JsonV::Str(p.password@)));
                    assert(fv =~= seq![
                        ("type"@, JsonV::Str("m.login.password"@)),
                        ("identifier"@, spec_encode_identifier(p.identifier@)),
                        ("password"@, JsonV::Str(p.password@)),
                    ]);
                    assert(r@ =~~= spec_encode_login(self@));
                }
                r
            },
            LoginInfo::Token(t) => {
                let mut fields: Vec<(String, Json)> = Vec::new();
                fields.push(
                    (String::from_str("type"), Json::Str(String::from_str("m.login.token"))),
                );
                fields.push((String::from_str("token"), Json::Str(t.token.clone())));
                let r = Json::Obj(fields);
                proof {
                    let fv = fields_view(fields@);
                    assert(fv[0] == ("type"@, JsonV::Str("m.login.token"@)));
                    assert(fv[1] == ("token"@, JsonV::Str(t.token@)));
                    assert(fv =~= seq![
                        ("type"@, JsonV::Str("m.login.token"@)),
                        ("token"@, JsonV::Str(t.token@)),
                    ]);
                    assert(r@ =~~= spec_encode_login(self@));
                }
                r
            },
            LoginInfo::ApplicationService(a) => {
                let mut fields: Vec<(String, Json)> = Vec::new();
                fields.push(
                    (
                        String::from_str("type"),
                        Json::Str(String::from_str("m.login.application_service")),
                    ),
                );
                fields.push((String::from_str("identifier"), a.identifier.encode()));
                let r = Json::Obj(fields);
                proof {
                    let fv = fields_view(fields@);
                    assert(fv[0] == ("type"@, JsonV::Str("m.login.application_service"@)));
                    assert(fv[1] == ("identifier"@, spec_encode_identifier(a.identifier@)));
                    assert(fv =~= seq![
                        ("type"@, JsonV::Str("m.login.application_service"@)),
                        ("identifier"@, spec_encode_identifier(a.identifier@)),
                    ]);
                    assert(r@ =~~= spec_encode_login(self@));
                }
                r
            },
            LoginInfo::Custom(c) => {
                let mut fields: Vec<(String, Json)> = Vec::new();
                fields.push((String::from_str("type"), Json::Str(c.login_type.clone())));
                proof {
                    assert(fields_view(fields@) =~= seq![("type"@, JsonV::Str(c.login_type@))]
                        + fields_view(c.extra@.take(0)));
                }
                let mut i: usize = 0;
                while i < c.extra.len()
                    invariant
                        i <= c.extra.len(),
                        fields_view(fields@) == seq![("type"@, JsonV::Str(c.login_type@))]
                            + fields_view(c.extra@.take(i as int)),
                    decreases c.extra.len() - i,
                {
                    let ghost pair = (c.extra@[i as int].0@, c.extra@[i as int].1@);
                    let name = c.extra[i].0.clone();
                    let value = c.extra[i].1.deep_clone();
                    fields.push((name, value));
                    proof {
                        broadcast use lemma_fields_view_index;

                        assert(c.extra@.take(i as int + 1) =~= c.extra@.take(i as int).push(
                            c.extra@[i as int],
                        ));
                        assert(fields_view(c.extra@.take(i as int + 1)) =~= fields_view(
                            c.extra@.take(i as int),
                        ).push(pair));
                        assert(fields_view(fields@) =~= fields_view(fields@.drop_last()).push(
                            pair,
                        ));
                        assert((seq![("type"@, JsonV::Str(c.login_type@))] + fields_view(
                            c.extra@.take(i as int),
                        )).push(pair) =~= seq![("type"@, JsonV::Str(c.login_type@))] + fields_view(
                            c.extra@.take(i as int),
                        ).push(pair));
                    }
                    i += 1;
                }
                let r = Json::Obj(fields);
                proof {
                    assert(c.extra@.take(c.extra@.len() as int) =~= c.extra@);
                    assert(r@ =~~= spec_encode_login(self@));
                }
                r
            },
            LoginInfo::Camino(c) => {
                let mut fields: Vec<(String, Json)> = Vec::new();
                fields.push(
                    (String::from_str("type"), Json::Str(String::from_str("m.login.camino"))),
                );
                fields.push((String::from_str("public_key"), Json::Str(c.public_key.clone())));
                fields.push((String::from_str("signature"), Json::Str(c.signature.clone())));
                let r = Json::Obj(fields);
                proof {
                    let fv = fields_view(fields@);
                    assert(fv[0] == ("type"@, JsonV::Str("m.login.camino"@)));
                    assert(fv[1] == ("public_key"@, JsonV::Str(c.public_key@)));
                    assert(fv[2] == ("signature"@, JsonV::Str(c.signature@)));
                    assert(fv =~= seq![
                        ("type"@, JsonV::Str("m.login.camino"@)),
                        ("public_key"@, JsonV::Str(c.public_key@)),
                        ("signature"@, JsonV::Str(c.signature@)),
                    ]);
                    assert(r@ =~~= spec_encode_login(self@));
                }
                r
            },
        }
    }

    /// Diagnostic rendering of the mechanism, dispatching to the variant's
    /// own rendering; every variant shows only its non-secret fields.
    pub fn debug_str(&self) -> (r: String)
        ensures
            r@ == spec_login_debug(self@),
    {
        match self {
            LoginInfo::Password(p) => p.debug_str(),
            LoginInfo::Token(t) => t.debug_str(),
            LoginInfo::ApplicationService(a) => a.debug_str(),
            LoginInfo::Custom(c) => c.debug_str(),
            LoginInfo::Camino(c) => c.debug_str(),
        }
    }
}

/// Law: decoding inverts encoding. Every known mechanism comes back from
/// its own wire object unchanged.
pub proof fn lemma_login_round_trip(li: LoginInfoV)
    requires
        !(li is Custom),
    ensures
        spec_decode_login(spec_encode_login(li)) == Ok::<LoginInfoV, DecodeError>(li),
{
    reveal_strlit("type");
    reveal_strlit("identifier");
    reveal_strlit("password");
    reveal_strlit("token");
    reveal_strlit("public_key");
    reveal_strlit("signature");
    reveal_strlit("m.login.password");
    reveal_strlit("m.login.token");
    reveal_strlit("m.login.application_service");
    reveal_strlit("m.login.camino");
    reveal_with_fuel(obj_lookup, 5);
    assert("type"@.len() == 4 && "identifier"@.len() == 10 && "password"@.len() == 8
        && "token"@.len() == 5 && "public_key"@.len() == 10 && "signature"@.len() == 9);
    assert("m.login.password"@.len() == 16 && "m.login.token"@.len() == 13
        && "m.login.application_service"@.len() == 27 && "m.login.camino"@.len() == 14);
    match li {
        LoginInfoV::Password(p) => {
            lemma_identifier_round_trip(p.identifier);
            let idj = spec_encode_identifier(p.identifier);
            let fields = seq![
                ("type"@, JsonV::Str("m.login.password"@)),
                ("identifier"@, idj),
                ("password"@, JsonV::Str(p.password)),
            ];
            assert(fields.drop_first() =~= seq![
                ("identifier"@, idj),
                ("password"@, JsonV::Str(p.password)),
            ]);
            assert(fields.drop_first().drop_first() =~= seq![
                ("password"@, JsonV::Str(p.password)),
            ]);
            assert(obj_lookup(fields, "type"@) == Some(JsonV::Str("m.login.password"@)));
            assert(obj_lookup(fields, "identifier"@) == Some(idj));
            assert(obj_lookup(fields, "password"@) == Some(JsonV::Str(p.password)));
            assert(p =~= PasswordV { identifier: p.identifier, password: p.password });
        },
        LoginInfoV::Token(t) => {
            let fields = seq![
                ("type"@, JsonV::Str("m.login.token"@)),
                ("token"@, JsonV::Str(t.token)),
            ];
            assert(fields.drop_first() =~= seq![("token"@, JsonV::Str(t.token))]);
            assert(obj_lookup(fields, "type"@) == Some(JsonV::Str("m.login.token"@)));
            assert(obj_lookup(fields, "token"@) == Some(JsonV::Str(t.token)));
            assert(t =~= TokenV { token: t.token });
        },
        LoginInfoV::ApplicationService(a) => {
            lemma_identifier_round_trip(a.identifier);
            let idj = spec_encode_identifier(a.identifier);
            let fields = seq![
                ("type"@, JsonV::Str("m.login.application_service"@)),
                ("identifier"@, idj),
            ];
            assert(fields.drop_first() =~= seq![("identifier"@, idj)]);
            assert(obj_lookup(fields, "type"@) == Some(
                JsonV::Str("m.login.application_service"@),
            ));
            assert(obj_lookup(fields, "identifier"@) == Some(idj));
            assert(a =~= ApplicationServiceV { identifier: a.identifier });
        },
        LoginInfoV::Custom(_) => {
        },
        LoginInfoV::Camino(c) => {
            let fields = seq![
                ("type"@, JsonV::Str("m.login.camino"@)),
                ("public_key"@, JsonV::Str(c.public_key)),
                ("signature"@, JsonV::Str(c.signature)),
            ];
            assert(fields.drop_first() =~= seq![
                ("public_key"@, JsonV::Str(c.public_key)),
                ("signature"@, JsonV::Str(c.signature)),
            ]);
            assert(fields.drop_first().drop_first() =~= seq![
                ("signature"@, JsonV::Str(c.signature)),
            ]);
            assert(obj_lookup(fields, "type"@) == Some(JsonV::Str("m.login.camino"@)));
            assert(obj_lookup(fields, "public_key"@) == Some(JsonV::Str(c.public_key)));
            assert(obj_lookup(fields, "signature"@) == Some(JsonV::Str(c.signature)));
            assert(c =~= CaminoLoginInfoV { public_key: c.public_key, signature: c.signature });
        },
    }
}

/// Law: an object whose discriminator is a string naming no known mechanism
/// always decodes, to the catch-all variant; re-encoding that variant
/// reproduces the original object's fields, order aside, whenever the
/// original's keys are distinct.
pub proof fn lemma_unknown_tag_round_trip(fields: Seq<(Seq<char>, JsonV)>, t: Seq<char>)
    requires
        obj_lookup(fields, "type"@) == Some(JsonV::Str(t)),
        !spec_known_tag(t),
    ensures
        spec_decode_login(JsonV::Obj(fields)) == Ok::<LoginInfoV, DecodeError>(
            LoginInfoV::Custom(
                CustomLoginInfoV { login_type: t, extra: obj_remove(fields, "type"@) },
            ),
        ),
        spec_encode_login(
            LoginInfoV::Custom(
                CustomLoginInfoV { login_type: t, extra: obj_remove(fields, "type"@) },
            ),
        ) == JsonV::Obj(seq![("type"@, JsonV::Str(t))] + obj_remove(fields, "type"@)),
        keys_distinct(fields) ==> (seq![("type"@, JsonV::Str(t))] + obj_remove(
            fields,
            "type"@,
        )).to_multiset() == fields.to_multiset(),
{
    if keys_distinct(fields) {
        lemma_obj_remove_permutes(fields, "type"@, JsonV::Str(t));
    }
}

/// Law: a value without a string `type` field fails with the
/// missing-discriminator error, whatever else it holds.
pub proof fn lemma_missing_discriminator(j: JsonV)
    requires
        match j {
            JsonV::Obj(fields) => !(obj_lookup(fields, "type"@) matches Some(JsonV::Str(_))),
            _ => true,
        },
    ensures
        spec_decode_login(j) == Err::<LoginInfoV, DecodeError>(DecodeError::MissingDiscriminator),
{
}

/// Law: a known discriminator never falls back to the catch-all variant; if
/// its payload does not fit, the decode fails with a malformed-variant
/// error, never silently.
pub proof fn lemma_known_tag_never_custom(fields: Seq<(Seq<char>, JsonV)>, t: Seq<char>)
    requires
        obj_lookup(fields, "type"@) == Some(JsonV::Str(t)),
        spec_known_tag(t),
    ensures
        spec_decode_login(JsonV::Obj(fields)) matches Ok(li) ==> !(li is Custom),
        spec_decode_login(JsonV::Obj(fields)) matches Err(e) ==> e matches DecodeError::MalformedVariant(_, _),
{
}

} // verus!
