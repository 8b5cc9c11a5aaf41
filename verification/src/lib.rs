//! Verified codec for a polymorphic login exchange: an open-ended set of
//! authentication mechanisms represented as a closed value type, the wire
//! encoding/decoding of that type over a generic JSON-like tree, and the
//! request/response envelope that carries it.

pub mod envelope;
pub mod error;
pub mod identifier;
pub mod json;
pub mod login;

pub use envelope::{DiscoveryInfo, HomeserverInfo, IdentityServerInfo, Request, Response};
pub use error::{DecodeError, FieldFault, FieldName, VariantKind};
pub use identifier::{UserIdentifier, UserIdentifierV};
pub use json::{Json, JsonV};
pub use login::{
    ApplicationService, CaminoLoginInfo, CustomLoginInfo, LoginInfo, LoginInfoV, Password, Token,
};
