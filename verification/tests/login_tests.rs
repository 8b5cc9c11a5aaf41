use login_codec::{Json, LoginInfo, Request, UserIdentifier};

fn s(v: &str) -> Json {
    Json::Str(v.to_string())
}

fn obj(pairs: Vec<(&str, Json)>) -> Json {
    Json::Obj(pairs.into_iter().map(|(k, v)| (k.to_string(), v)).collect())
}

#[test]
fn deserialize_login_type() {
    let login = match LoginInfo::decode(&obj(vec![
        ("type", s("m.login.password")),
        (
            "identifier",
            obj(vec![("type", s("m.id.user")), ("user", s("cheeky_monkey"))]),
        ),
        ("password", s("ilovebananas")),
    ]))
    .unwrap()
    {
        LoginInfo::Password(login) => login,
        _ => panic!("expected the password variant"),
    };
    let user = match login.identifier {
        UserIdentifier::UserIdOrLocalpart(user) => user,
        _ => panic!("expected a bare user identifier"),
    };
    assert_eq!(user, "cheeky_monkey");
    assert_eq!(login.password, "ilovebananas");

    let token = match LoginInfo::decode(&obj(vec![
        ("type", s("m.login.token")),
        ("token", s("1234567890abcdef")),
    ]))
    .unwrap()
    {
        LoginInfo::Token(t) => t.token,
        _ => panic!("expected the token variant"),
    };
    assert_eq!(token, "1234567890abcdef");

    let login = match LoginInfo::decode(&obj(vec![
        ("type", s("m.login.camino")),
        (
            "public_key",
            s("0386837edd2d9f507b6684766ed9f657cadc7f27fb01a10dfbfae6196230294b4c9fd428d2"),
        ),
        ("signature", s("91cf6195a331f7d49609fe5b939d7d7d9767bfaeafa7a890d5a541891a8171d56e29ff46e933a03c113b6695bbd2ea95e4b5fa6eef1d019bd19283d08f46e9550076c36108")),
    ]))
    .unwrap()
    {
        LoginInfo::Camino(login) => login,
        _ => panic!("expected the signed-key variant"),
    };
    assert_eq!(
        login.public_key,
        "0386837edd2d9f507b6684766ed9f657cadc7f27fb01a10dfbfae6196230294b4c9fd428d2"
    );
    assert_eq!(login.signature, "91cf6195a331f7d49609fe5b939d7d7d9767bfaeafa7a890d5a541891a8171d56e29ff46e933a03c113b6695bbd2ea95e4b5fa6eef1d019bd19283d08f46e9550076c36108");
}

#[test]
fn serialize_login_request_body() {
    let req = Request {
        identifier: UserIdentifier::UserIdOrLocalpart("must be valid username".to_owned()),
        auth: Some(obj(vec![
            ("type", s("m.login.registration_token")),
            ("token", s("0xdeadbeef")),
            ("session", Json::Null),
        ])),
        device_id: None,
        initial_device_display_name: Some("test".to_owned()),
        refresh_token_requested: false,
    };
    assert_eq!(
        req.encode(),
        obj(vec![
            (
                "identifier",
                obj(vec![
                    ("type", s("m.id.user")),
                    ("user", s("must be valid username")),
                ]),
            ),
            (
                "auth",
                obj(vec![
                    ("type", s("m.login.registration_token")),
                    ("token", s("0xdeadbeef")),
                    ("session", Json::Null),
                ]),
            ),
            ("initial_device_display_name", s("test")),
            ("refresh_token", Json::Bool(false)),
        ])
    );

    let req = Request {
        identifier: UserIdentifier::ThirdParty {
            medium: "email".to_owned(),
            address: "hello@example.com".to_owned(),
        },
        auth: Some(obj(vec![
            ("type", s("m.login.password")),
            (
                "identifier",
                obj(vec![
                    ("type", s("m.id.thirdparty")),
                    ("medium", s("email")),
                    ("address", s("hello@example.com")),
                ]),
            ),
            ("password", s("deadbeef")),
            ("session", Json::Null),
        ])),
        device_id: None,
        initial_device_display_name: Some("test".to_owned()),
        refresh_token_requested: false,
    };
    assert_eq!(
        req.encode(),
        obj(vec![
            (
                "identifier",
                obj(vec![
                    ("type", s("m.id.thirdparty")),
                    ("medium", s("email")),
                    ("address", s("hello@example.com")),
                ]),
            ),
            (
                "auth",
                obj(vec![
                    ("type", s("m.login.password")),
                    (
                        "identifier",
                        obj(vec![
                            ("type", s("m.id.thirdparty")),
                            ("medium", s("email")),
                            ("address", s("hello@example.com")),
                        ]),
                    ),
                    ("password", s("deadbeef")),
                    ("session", Json::Null),
                ]),
            ),
            ("initial_device_display_name", s("test")),
            ("refresh_token", Json::Bool(false)),
        ])
    );

    let req = Request {
        identifier: UserIdentifier::UserIdOrLocalpart(
            "username derived from signature".to_owned(),
        ),
        auth: Some(obj(vec![
            ("type", s("m.login.camino")),
            ("signature", s("91cf6195a331f7d49609fe5b939d7d7d9767bfaeafa7a890d5a541891a8171d56e29ff46e933a03c113b6695bbd2ea95e4b5fa6eef1d019bd19283d08f46e9550076c36108")),
            ("session", Json::Null),
        ])),
        device_id: None,
        initial_device_display_name: Some("test".to_owned()),
        refresh_token_requested: false,
    };
    assert_eq!(
        req.encode(),
        obj(vec![
            (
                "identifier",
                obj(vec![
                    ("type", s("m.id.user")),
                    ("user", s("username derived from signature")),
                ]),
            ),
            (
                "auth",
                obj(vec![
                    ("type", s("m.login.camino")),
                    ("signature", s("91cf6195a331f7d49609fe5b939d7d7d9767bfaeafa7a890d5a541891a8171d56e29ff46e933a03c113b6695bbd2ea95e4b5fa6eef1d019bd19283d08f46e9550076c36108")),
                    ("session", Json::Null),
                ]),
            ),
            ("initial_device_display_name", s("test")),
            ("refresh_token", Json::Bool(false)),
        ])
    );
}
