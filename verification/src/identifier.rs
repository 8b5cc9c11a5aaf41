//! Identification of the account being authenticated, together with its wire
//! form: a tagged object with its own `type` discriminator (`m.id.user` for a
//! bare identifier, `m.id.thirdparty` for a medium and address pair).

use vstd::prelude::*;
use vstd::string::StringExecFns;

use crate::error::{FieldFault, FieldName};
use crate::json::{fields_view, obj_get, obj_lookup, str_eq, Json, JsonV};
use crate::json::lemma_fields_view_index;

verus! {

/// Identifies the account being authenticated: a bare user identifier, or a
/// third-party medium and address pair.
#[derive(Clone, Debug, PartialEq, Eq)]
pub enum UserIdentifier {
    /// A fully-qualified account identifier or a bare local part.
    UserIdOrLocalpart(String),
    /// An account known by a third-party medium (such as an email address).
    ThirdParty { medium: String, address: String },
}

/// The mathematical model of a [`UserIdentifier`].
#[verifier::ext_equal]
pub enum UserIdentifierV {
    UserIdOrLocalpart(Seq<char>),
    ThirdParty { medium: Seq<char>, address: Seq<char> },
}

impl View for UserIdentifier {
    type V = UserIdentifierV;

    open spec fn view(&self) -> UserIdentifierV {
        match self {
            UserIdentifier::UserIdOrLocalpart(u) => UserIdentifierV::UserIdOrLocalpart(u@),
            UserIdentifier::ThirdParty { medium, address } => UserIdentifierV::ThirdParty {
                medium: medium@,
                address: address@,
            },
        }
    }
}

/// The wire object of an identifier.
pub open spec fn spec_encode_identifier(id: UserIdentifierV) -> JsonV {
    match id {
        UserIdentifierV::UserIdOrLocalpart(u) => JsonV::Obj(
            seq![
                ("type"@, JsonV::Str("m.id.user"@)),
                ("user"@, JsonV::Str(u)),
            ],
        ),
        UserIdentifierV::ThirdParty { medium, address } => JsonV::Obj(
            seq![
                ("type"@, JsonV::Str("m.id.thirdparty"@)),
                ("medium"@, JsonV::Str(medium)),
                ("address"@, JsonV::Str(address)),
            ],
        ),
    }
}

/// The identifier a wire value decodes to, or the fault that stops it.
pub open spec fn spec_decode_identifier(j: JsonV) -> Result<UserIdentifierV, FieldFault> {
    match j {
        JsonV::Obj(fields) => match obj_lookup(fields, "type"@) {
            Some(JsonV::Str(t)) => if t == "m.id.user"@ {
                match obj_lookup(fields, "user"@) {
                    Some(JsonV::Str(u)) => Ok(UserIdentifierV::UserIdOrLocalpart(u)),
                    Some(_) => Err(FieldFault::Invalid(FieldName::User)),
                    None => Err(FieldFault::Missing(FieldName::User)),
                }
            } else if t == "m.id.thirdparty"@ {
                match obj_lookup(fields, "medium"@) {
                    Some(JsonV::Str(m)) => match obj_lookup(fields, "address"@) {
                        Some(JsonV::Str(a)) => Ok(
                            UserIdentifierV::ThirdParty { medium: m, address: a },
                        ),
                        Some(_) => Err(FieldFault::Invalid(FieldName::Address)),
                        None => Err(FieldFault::Missing(FieldName::Address)),
                    },
                    Some(_) => Err(FieldFault::Invalid(FieldName::Medium)),
                    None => Err(FieldFault::Missing(FieldName::Medium)),
                }
            } else {
                Err(FieldFault::Invalid(FieldName::Type))
            },
            Some(_) => Err(FieldFault::Invalid(FieldName::Type)),
            None => Err(FieldFault::Missing(FieldName::Type)),
        },
        _ => Err(FieldFault::Invalid(FieldName::Identifier)),
    }
}

/// The model of a decoded identifier result.
pub open spec fn identifier_result_view(r: Result<UserIdentifier, FieldFault>) -> Result<
    UserIdentifierV,
    FieldFault,
> {
    match r {
        Ok(id) => Ok(id@),
        Err(e) => Err(e),
    }
}

impl UserIdentifier {
    /// Encodes the identifier as its tagged wire object.
    pub fn encode(&self) -> (r: Json)
        ensures
            r@ == spec_encode_identifier(self@),
    {
        proof {
            broadcast use lemma_fields_view_index;

        }
        match self {
            UserIdentifier::UserIdOrLocalpart(u) => {
                let mut fields: Vec<(String, Json)> = Vec::new();
                fields.push((String::from_str("type"), Json::Str(String::from_str("m.id.user"))));
                fields.push((String::from_str("user"), Json::Str(u.clone())));
                let r = Json::Obj(fields);
                proof {
                    let fv = fields_view(fields@);
                    assert(fv[0] == ("type"@, JsonV::Str("m.id.user"@)));
                    assert(fv[1] == ("user"@, JsonV::Str(u@)));
                    assert(fv =~= seq![
                        ("type"@, JsonV::Str("m.id.user"@)),
                        ("user"@, JsonV::Str(u@)),
                    ]);
                    assert(r@ =~~= spec_encode_identifier(self@));
                }
                r
            },
            UserIdentifier::ThirdParty { medium, address } => {
                let mut fields: Vec<(String, Json)> = Vec::new();
                fields.push(
                    (String::from_str("type"), Json::Str(String::from_str("m.id.thirdparty"))),
                );
                fields.push((String::from_str("medium"), Json::Str(medium.clone())));
                fields.push((String::from_str("address"), Json::Str(address.clone())));
                let r = Json::Obj(fields);
                proof {
                    let fv = fields_view(fields@);
                    assert(fv[0] == ("type"@, JsonV::Str("m.id.thirdparty"@)));
                    assert(fv[1] == ("medium"@, JsonV::Str(medium@)));
                    assert(fv[2] == ("address"@, JsonV::Str(address@)));
                    assert(fv =~= seq![
                        ("type"@, JsonV::Str("m.id.thirdparty"@)),
                        ("medium"@, JsonV::Str(medium@)),
                        ("address"@, JsonV::Str(address@)),
                    ]);
                    assert(r@ =~~= spec_encode_identifier(self@));
                }
                r
            },
        }
    }

    /// Projects a generic wire value into an identifier, faulting on any
    /// shape mismatch.
    pub fn decode(j: &Json) -> (r: Result<UserIdentifier, FieldFault>)
        ensures
            identifier_result_view(r) == spec_decode_identifier(j@),
    {
        match j {
            Json::Obj(fields) => match obj_get(fields, "type") {
                Some(Json::Str(t)) => if str_eq(t.as_str(), "m.id.user") {
                    match obj_get(fields, "user") {
                        Some(Json::Str(u)) => Ok(UserIdentifier::UserIdOrLocalpart(u.clone())),
                        Some(_) => Err(FieldFault::Invalid(FieldName::User)),
                        None => Err(FieldFault::Missing(FieldName::User)),
                    }
                } else if str_eq(t.as_str(), "m.id.thirdparty") {
                    match obj_get(fields, "medium") {
                        Some(Json::Str(m)) => match obj_get(fields, "address") {
                            Some(Json::Str(a)) => Ok(
                                UserIdentifier::ThirdParty {
                                    medium: m.clone(),
                                    address: a.clone(),
                                },
                            ),
                            Some(_) => Err(FieldFault::Invalid(FieldName::Address)),
                            None => Err(FieldFault::Missing(FieldName::Address)),
                        },
                        Some(_) => Err(FieldFault::Invalid(FieldName::Medium)),
                        None => Err(FieldFault::Missing(FieldName::Medium)),
                    }
                } else {
                    Err(FieldFault::Invalid(FieldName::Type))
                },
                Some(_) => Err(FieldFault::Invalid(FieldName::Type)),
                None => Err(FieldFault::Missing(FieldName::Type)),
            },
            _ => Err(FieldFault::Invalid(FieldName::Identifier)),
        }
    }

    /// Diagnostic rendering. Identifiers carry no secret, so every field
    /// appears in full.
    pub fn debug_str(&self) -> (r: String)
        ensures
            r@ == spec_identifier_debug(self@),
    {
        match self {
            UserIdentifier::UserIdOrLocalpart(u) => {
                let mut s = String::from_str("UserIdOrLocalpart(\"");
                s.append(u.as_str());
                s.append("\")");
                s
            },
            UserIdentifier::ThirdParty { medium, address } => {
                let mut s = String::from_str("ThirdParty { medium: \"");
                s.append(medium.as_str());
                s.append("\", address: \"");
                s.append(address.as_str());
                s.append("\" }");
                s
            },
        }
    }
}

/// The diagnostic rendering of an identifier.
pub open spec fn spec_identifier_debug(id: UserIdentifierV) -> Seq<char> {
    match id {
        UserIdentifierV::UserIdOrLocalpart(u) => "UserIdOrLocalpart(\""@ + u + "\")"@,
        UserIdentifierV::ThirdParty { medium, address } => "ThirdParty { medium: \""@ + medium
            + "\", address: \""@ + address + "\" }"@,
    }
}

/// Decoding inverts encoding: every identifier comes back from its own wire
/// object unchanged.
pub proof fn lemma_identifier_round_trip(id: UserIdentifierV)
    ensures
        spec_decode_identifier(spec_encode_identifier(id)) == Ok::<UserIdentifierV, FieldFault>(id),
{
    reveal_strlit("type");
    reveal_strlit("user");
    reveal_strlit("medium");
    reveal_strlit("address");
    reveal_strlit("m.id.user");
    reveal_strlit("m.id.thirdparty");
    reveal_with_fuel(obj_lookup, 5);
    match id {
        UserIdentifierV::UserIdOrLocalpart(u) => {
            let fields = seq![("type"@, JsonV::Str("m.id.user"@)), ("user"@, JsonV::Str(u))];
            assert(obj_lookup(fields, "type"@) == Some(JsonV::Str("m.id.user"@)));
            assert(fields.drop_first() =~= seq![("user"@, JsonV::Str(u))]);
            assert("type"@[0] == 't' && "user"@[0] == 'u');
            assert("type"@ != "user"@);
            assert(obj_lookup(fields, "user"@) == Some(JsonV::Str(u)));
        },
        UserIdentifierV::ThirdParty { medium, address } => {
            let fields = seq![
                ("type"@, JsonV::Str("m.id.thirdparty"@)),
                ("medium"@, JsonV::Str(medium)),
                ("address"@, JsonV::Str(address)),
            ];
            assert(obj_lookup(fields, "type"@) == Some(JsonV::Str("m.id.thirdparty"@)));
            assert(fields.drop_first() =~= seq![
                ("medium"@, JsonV::Str(medium)),
                ("address"@, JsonV::Str(address)),
            ]);
            assert(fields.drop_first().drop_first() =~= seq![("address"@, JsonV::Str(address))]);
            assert("type"@.len() == 4 && "medium"@.len() == 6 && "address"@.len() == 7);
            assert("type"@ != "medium"@);
            assert("type"@ != "address"@);
            assert("medium"@ != "address"@);
            assert(obj_lookup(fields, "medium"@) == Some(JsonV::Str(medium)));
            assert(obj_lookup(fields, "address"@) == Some(JsonV::Str(address)));
            assert("m.id.user"@.len() == 9 && "m.id.thirdparty"@.len() == 15);
            assert("m.id.user"@ != "m.id.thirdparty"@);
        },
    }
}

} // verus!
