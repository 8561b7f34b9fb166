//! A native passkey (WebAuthn) bridge: mediates between a caller's
//! authentication requests and a platform credential provider, generating a
//! fresh random challenge per operation and returning a normalized
//! result/error envelope regardless of which provider variant backs it.

pub mod b64;
pub mod bridge;
pub mod challenge;
pub mod decimal;
pub mod domain;

pub use bridge::AdapterKind;
pub use bridge::AuthenticationResult;
pub use bridge::PasskeyBridge;
pub use bridge::RegistrationResult;
pub use bridge::SiteAuthConfig;
pub use challenge::Challenge;
pub use domain::BuildMode;
pub use domain::get_editing_domain;
