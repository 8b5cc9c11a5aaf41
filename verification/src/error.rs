//! The error taxonomy of the codec. A decode call either succeeds or reports
//! exactly one of these; unknown discriminators are never an error.

use vstd::prelude::*;

verus! {

/// A wire field that the codec reads or writes.
#[derive(Clone, Copy, Debug, PartialEq, Eq, Structural)]
pub enum FieldName {
    Type,
    Identifier,
    Password,
    Token,
    PublicKey,
    Signature,
    User,
    Medium,
    Address,
    Auth,
    DeviceId,
    InitialDeviceDisplayName,
    RefreshToken,
    UserId,
    AccessToken,
    WellKnown,
    ExpiresInMs,
    Homeserver,
    IdentityServer,
    BaseUrl,
}

/// How a single field failed to fit its expected shape.
#[derive(Clone, Copy, Debug, PartialEq, Eq, Structural)]
pub enum FieldFault {
    /// The field is absent.
    Missing(FieldName),
    /// The field is present but its value has the wrong shape.
    Invalid(FieldName),
}

/// The known authentication mechanisms, named for error reports.
#[derive(Clone, Copy, Debug, PartialEq, Eq, Structural)]
pub enum VariantKind {
    Password,
    Token,
    ApplicationService,
    Camino,
}

/// Why a decode call failed.
#[derive(Clone, Copy, Debug, PartialEq, Eq, Structural)]
pub enum DecodeError {
    /// The input has no `type` field holding a string, or is not an object.
    MissingDiscriminator,
    /// The discriminator names a known mechanism, but the payload does not
    /// fit that mechanism's field set. A known-but-malformed tag never falls
    /// back to the catch-all variant.
    MalformedVariant(VariantKind, FieldFault),
    /// A field of the request or response envelope does not fit.
    MalformedEnvelope(FieldFault),
    /// An envelope was decoded from a value that is not an object.
    NotAnObject,
}

} // verus!
