use login_codec::{
    ApplicationService, CaminoLoginInfo, DecodeError, DiscoveryInfo, FieldFault, FieldName,
    HomeserverInfo, IdentityServerInfo, Json, LoginInfo, Password, Request, Response, Token,
    UserIdentifier, VariantKind,
};

fn s(v: &str) -> Json {
    Json::Str(v.to_string())
}

fn obj(pairs: Vec<(&str, Json)>) -> Json {
    Json::Obj(pairs.into_iter().map(|(k, v)| (k.to_string(), v)).collect())
}

fn field<'a>(j: &'a Json, key: &str) -> Option<&'a Json> {
    match j {
        Json::Obj(fields) => fields.iter().find(|(k, _)| k == key).map(|(_, v)| v),
        _ => None,
    }
}

#[test]
fn round_trip_password() {
    let li = LoginInfo::Password(Password::new(
        UserIdentifier::UserIdOrLocalpart("alice".to_owned()),
        "open sesame".to_owned(),
    ));
    assert!(LoginInfo::decode(&li.encode()).unwrap() == li);
}

#[test]
fn round_trip_token() {
    let li = LoginInfo::Token(Token::new("abcdef".to_owned()));
    assert!(LoginInfo::decode(&li.encode()).unwrap() == li);
}

#[test]
fn round_trip_application_service() {
    let li = LoginInfo::ApplicationService(ApplicationService::new(UserIdentifier::ThirdParty {
        medium: "email".to_owned(),
        address: "alice@example.com".to_owned(),
    }));
    assert!(LoginInfo::decode(&li.encode()).unwrap() == li);
}

#[test]
fn round_trip_camino() {
    let li = LoginInfo::Camino(CaminoLoginInfo::new("aa00".to_owned(), "bb11".to_owned()));
    assert!(LoginInfo::decode(&li.encode()).unwrap() == li);
}

#[test]
fn unknown_type_decodes_and_round_trips() {
    let wire = obj(vec![
        ("type", s("m.login.sso")),
        ("redirect_url", s("https://sso.example.com")),
        ("attempts", Json::Int(3)),
    ]);
    let li = LoginInfo::decode(&wire).unwrap();
    match &li {
        LoginInfo::Custom(c) => {
            assert_eq!(c.login_type, "m.login.sso");
            assert_eq!(c.extra.len(), 2);
        }
        _ => panic!("expected the catch-all variant"),
    }
    // The discriminator was first in the input, so re-encoding reproduces it
    // exactly, field order included.
    assert_eq!(li.encode(), wire);
}

#[test]
fn missing_discriminator_fails() {
    let no_type = obj(vec![("token", s("abc"))]);
    assert!(LoginInfo::decode(&no_type) == Err(DecodeError::MissingDiscriminator));
    let non_string_type = obj(vec![("type", Json::Int(7))]);
    assert!(LoginInfo::decode(&non_string_type) == Err(DecodeError::MissingDiscriminator));
    assert!(LoginInfo::decode(&Json::Null) == Err(DecodeError::MissingDiscriminator));
}

#[test]
fn known_tag_with_bad_payload_is_malformed_not_custom() {
    let wire = obj(vec![
        ("type", s("m.login.password")),
        (
            "identifier",
            obj(vec![("type", s("m.id.user")), ("user", s("cheeky_monkey"))]),
        ),
    ]);
    assert!(
        LoginInfo::decode(&wire)
            == Err(DecodeError::MalformedVariant(
                VariantKind::Password,
                FieldFault::Missing(FieldName::Password)
            ))
    );
}

#[test]
fn token_scenario_decodes_and_redacts() {
    let li = LoginInfo::decode(&obj(vec![
        ("type", s("m.login.token")),
        ("token", s("1234567890abcdef")),
    ]))
    .unwrap();
    match &li {
        LoginInfo::Token(t) => assert_eq!(t.token, "1234567890abcdef"),
        _ => panic!("expected the token variant"),
    }
    let shown = li.debug_str();
    assert!(!shown.contains("1234567890abcdef"));
    assert_eq!(shown, "Token { .. }");
}

#[test]
fn password_debug_redacts_the_password() {
    let p = Password::new(
        UserIdentifier::UserIdOrLocalpart("cheeky_monkey".to_owned()),
        "ilovebananas".to_owned(),
    );
    let shown = p.debug_str();
    assert!(!shown.contains("ilovebananas"));
    assert_eq!(
        shown,
        "Password { identifier: UserIdOrLocalpart(\"cheeky_monkey\"), .. }"
    );
    let shown = LoginInfo::Password(p).debug_str();
    assert!(!shown.contains("ilovebananas"));
}

#[test]
fn camino_debug_redacts_the_signature() {
    let c = CaminoLoginInfo::new("aa00".to_owned(), "deadbeef".to_owned());
    let shown = c.debug_str();
    assert!(!shown.contains("deadbeef"));
    assert_eq!(shown, "CaminoLoginInfo { public_key: \"aa00\", .. }");
}

#[test]
fn custom_debug_shows_only_the_discriminator() {
    let li = LoginInfo::decode(&obj(vec![
        ("type", s("m.login.sso")),
        ("secret", s("hunter2")),
    ]))
    .unwrap();
    let shown = li.debug_str();
    assert!(!shown.contains("hunter2"));
    assert_eq!(shown, "CustomLoginInfo { login_type: \"m.login.sso\", .. }");
}

#[test]
fn application_service_debug_shows_identifier() {
    let a = ApplicationService::new(UserIdentifier::ThirdParty {
        medium: "email".to_owned(),
        address: "a@b.example".to_owned(),
    });
    assert_eq!(
        a.debug_str(),
        "ApplicationService { identifier: ThirdParty { medium: \"email\", address: \"a@b.example\" } }"
    );
}

#[test]
fn login_info_new_dispatches_on_the_discriminator() {
    let li = LoginInfo::new(
        "m.login.token",
        vec![("token".to_owned(), s("abc"))],
    )
    .unwrap();
    assert!(li == LoginInfo::Token(Token::new("abc".to_owned())));

    let li = LoginInfo::new(
        "m.login.sso",
        vec![("redirect_url".to_owned(), s("https://sso.example.com"))],
    )
    .unwrap();
    match li {
        LoginInfo::Custom(c) => {
            assert_eq!(c.login_type, "m.login.sso");
            assert_eq!(c.extra.len(), 1);
        }
        _ => panic!("expected the catch-all variant"),
    }

    assert!(
        LoginInfo::new("m.login.password", vec![])
            == Err(DecodeError::MalformedVariant(
                VariantKind::Password,
                FieldFault::Missing(FieldName::Identifier)
            ))
    );
}

#[test]
fn token_encode_is_exact() {
    let li = LoginInfo::Token(Token::new("abc".to_owned()));
    assert_eq!(
        li.encode(),
        obj(vec![("type", s("m.login.token")), ("token", s("abc"))])
    );
}

#[test]
fn response_without_expiry_decodes_to_no_expiry_and_omits_the_field() {
    let wire = obj(vec![
        ("user_id", s("@alice:example.com")),
        ("access_token", s("tok")),
        ("device_id", s("DEV")),
    ]);
    let resp = Response::decode(&wire).unwrap();
    assert_eq!(resp.expires_in, None);
    let encoded = resp.encode();
    assert!(field(&encoded, "expires_in_ms").is_none());
    assert_eq!(encoded, wire);
}

#[test]
fn response_with_expiry_is_exact() {
    let wire = obj(vec![
        ("user_id", s("@alice:example.com")),
        ("access_token", s("tok")),
        ("device_id", s("DEV")),
        ("refresh_token", s("refresh")),
        ("expires_in_ms", Json::Int(120000)),
    ]);
    let resp = Response::decode(&wire).unwrap();
    assert_eq!(resp.expires_in, Some(120000));
    assert_eq!(resp.refresh_token.as_deref(), Some("refresh"));
    assert_eq!(resp.encode(), wire);
}

#[test]
fn response_rejects_a_bad_expiry() {
    let negative = obj(vec![
        ("user_id", s("@a:b")),
        ("access_token", s("t")),
        ("device_id", s("D")),
        ("expires_in_ms", Json::Int(-1)),
    ]);
    assert_eq!(
        Response::decode(&negative),
        Err(DecodeError::MalformedEnvelope(FieldFault::Invalid(
            FieldName::ExpiresInMs
        )))
    );
    let wrong_kind = obj(vec![
        ("user_id", s("@a:b")),
        ("access_token", s("t")),
        ("device_id", s("D")),
        ("expires_in_ms", s("soon")),
    ]);
    assert_eq!(
        Response::decode(&wrong_kind),
        Err(DecodeError::MalformedEnvelope(FieldFault::Invalid(
            FieldName::ExpiresInMs
        )))
    );
}

#[test]
fn response_tolerates_the_deprecated_server_name_field() {
    let wire = obj(vec![
        ("user_id", s("@alice:example.com")),
        ("access_token", s("tok")),
        ("device_id", s("DEV")),
        ("home_server", s("example.com")),
    ]);
    let resp = Response::decode(&wire).unwrap();
    assert_eq!(resp.user_id, "@alice:example.com");
    // Re-encoding never emits the deprecated field.
    assert!(field(&resp.encode(), "home_server").is_none());
}

#[test]
fn response_requires_its_mandatory_fields() {
    let wire = obj(vec![("user_id", s("@a:b")), ("device_id", s("D"))]);
    assert_eq!(
        Response::decode(&wire),
        Err(DecodeError::MalformedEnvelope(FieldFault::Missing(
            FieldName::AccessToken
        )))
    );
    assert_eq!(
        Response::decode(&Json::Int(2)),
        Err(DecodeError::NotAnObject)
    );
}

#[test]
fn response_new_defaults_every_optional_field() {
    let resp = Response::new("@a:b".to_owned(), "tok".to_owned(), "DEV".to_owned());
    assert_eq!(resp.user_id, "@a:b");
    assert_eq!(resp.access_token, "tok");
    assert_eq!(resp.device_id, "DEV");
    assert!(resp.well_known.is_none());
    assert!(resp.refresh_token.is_none());
    assert!(resp.expires_in.is_none());
}

#[test]
fn discovery_round_trips_with_and_without_identity_server() {
    let bare = DiscoveryInfo::new(HomeserverInfo::new("https://hs.example.com".to_owned()));
    let wire = bare.encode();
    assert_eq!(
        wire,
        obj(vec![(
            "m.homeserver",
            obj(vec![("base_url", s("https://hs.example.com"))]),
        )])
    );
    assert_eq!(DiscoveryInfo::decode(&wire).unwrap(), bare);

    let full = DiscoveryInfo {
        homeserver: HomeserverInfo::new("https://hs.example.com".to_owned()),
        identity_server: Some(IdentityServerInfo::new("https://id.example.com".to_owned())),
    };
    let wire = full.encode();
    assert_eq!(
        field(&wire, "m.identity_server"),
        Some(&obj(vec![("base_url", s("https://id.example.com"))]))
    );
    assert_eq!(DiscoveryInfo::decode(&wire).unwrap(), full);
}

#[test]
fn discovery_requires_a_homeserver() {
    assert_eq!(
        DiscoveryInfo::decode(&obj(vec![])),
        Err(FieldFault::Missing(FieldName::Homeserver))
    );
}

#[test]
fn response_carries_discovery_information() {
    let wire = obj(vec![
        ("user_id", s("@alice:example.com")),
        ("access_token", s("tok")),
        ("device_id", s("DEV")),
        (
            "well_known",
            obj(vec![(
                "m.homeserver",
                obj(vec![("base_url", s("https://hs.example.com"))]),
            )]),
        ),
    ]);
    let resp = Response::decode(&wire).unwrap();
    assert_eq!(
        resp.well_known.as_ref().unwrap().homeserver.base_url,
        "https://hs.example.com"
    );
    assert_eq!(resp.encode(), wire);
}

#[test]
fn request_round_trips_and_defaults_the_refresh_flag() {
    let wire = obj(vec![(
        "identifier",
        obj(vec![("type", s("m.id.user")), ("user", s("alice"))]),
    )]);
    let req = Request::decode(&wire).unwrap();
    assert!(!req.refresh_token_requested);
    assert!(req.auth.is_none());
    assert!(req.device_id.is_none());

    let full = Request {
        identifier: UserIdentifier::UserIdOrLocalpart("alice".to_owned()),
        auth: Some(obj(vec![("type", s("m.login.dummy"))])),
        device_id: Some("DEV".to_owned()),
        initial_device_display_name: Some("laptop".to_owned()),
        refresh_token_requested: true,
    };
    let encoded = full.encode();
    assert_eq!(Request::decode(&encoded).unwrap(), full);
}

#[test]
fn request_new_builds_the_common_case() {
    let auth = obj(vec![("type", s("m.login.dummy"))]);
    let req = Request::new("alice".to_owned(), auth.clone());
    assert_eq!(
        req.identifier,
        UserIdentifier::UserIdOrLocalpart("alice".to_owned())
    );
    assert_eq!(req.auth, Some(auth));
    assert!(req.device_id.is_none());
    assert!(req.initial_device_display_name.is_none());
    assert!(!req.refresh_token_requested);
}

#[test]
fn request_requires_an_identifier() {
    assert_eq!(
        Request::decode(&obj(vec![])),
        Err(DecodeError::MalformedEnvelope(FieldFault::Missing(
            FieldName::Identifier
        )))
    );
    assert_eq!(Request::decode(&s("nope")), Err(DecodeError::NotAnObject));
}

#[test]
fn request_rejects_a_bad_scalar_field() {
    let wire = obj(vec![
        (
            "identifier",
            obj(vec![("type", s("m.id.user")), ("user", s("alice"))]),
        ),
        ("device_id", Json::Int(5)),
    ]);
    assert_eq!(
        Request::decode(&wire),
        Err(DecodeError::MalformedEnvelope(FieldFault::Invalid(
            FieldName::DeviceId
        )))
    );
}

#[test]
fn identifier_debug_is_exact() {
    let id = UserIdentifier::UserIdOrLocalpart("bob".to_owned());
    assert_eq!(id.debug_str(), "UserIdOrLocalpart(\"bob\")");
}

#[test]
fn malformed_identifier_inside_password_payload() {
    let wire = obj(vec![
        ("type", s("m.login.password")),
        ("identifier", obj(vec![("type", s("m.id.user"))])),
        ("password", s("pw")),
    ]);
    assert!(
        LoginInfo::decode(&wire)
            == Err(DecodeError::MalformedVariant(
                VariantKind::Password,
                FieldFault::Missing(FieldName::User)
            ))
    );
}
