//! The passkey bridge: one stable contract over heterogeneous credential
//! providers. A bridge resolves the trust domain, generates a fresh challenge
//! per operation, delegates to the selected provider variant, and always
//! hands the caller a well-formed result envelope — success never carries an
//! error, failure always names one.

use vstd::prelude::*;
use crate::b64::b64_encode;
use crate::challenge::Challenge;
use crate::decimal::decimal_of;
use crate::decimal::u64_to_decimal;
use crate::domain::BuildMode;
use crate::domain::get_editing_domain;

verus! {

/// Site-scoped credential configuration: created by a successful
/// registration, read-only input to authentication, persisted by the caller.
/// The `credential_id` uniquely identifies the registered credential.
#[derive(Clone, Debug)]
pub struct SiteAuthConfig {
    pub public_key: String,
    pub credential_id: String,
    pub requires_auth: bool,
    pub user_display_name: Option<String>,
    pub registered_at: String,
}

/// Terminal value of an authentication attempt.
#[derive(Debug)]
pub struct AuthenticationResult {
    pub success: bool,
    pub error: Option<String>,
    pub credential_id: Option<String>,
}

/// Terminal value of a registration attempt.
#[derive(Debug)]
pub struct RegistrationResult {
    pub success: bool,
    pub auth_config: Option<SiteAuthConfig>,
    pub error: Option<String>,
}

impl AuthenticationResult {
    /// Never partially populated: success excludes an error, and failure
    /// always names one.
    pub open spec fn wf(&self) -> bool {
        &&& self.success ==> self.error is None
        &&& !self.success ==> self.error is Some
    }
}

impl RegistrationResult {
    /// Never partially populated: success excludes an error, and failure
    /// always names one.
    pub open spec fn wf(&self) -> bool {
        &&& self.success ==> self.error is None
        &&& !self.success ==> self.error is Some
    }
}

/// The credential provider variants, selected once at startup: `Available`
/// on platforms whose native credential API is present (its real ceremony is
/// not wired up yet and reports so), `SimulatedDevelopment` as the
/// development-build stand-in that fakes a successful ceremony, and
/// `Unsupported` where the platform has no credential API at all.
#[derive(Clone, Copy, Debug, PartialEq, Eq, Structural)]
pub enum AdapterKind {
    Available,
    SimulatedDevelopment,
    Unsupported,
}

/// The fixed error on platforms without a credential API.
pub open spec fn msg_not_supported() -> Seq<char> {
    "WebAuthn not supported on this platform"@
}

/// The error while the native authentication ceremony is not wired up.
pub open spec fn msg_auth_integration_pending() -> Seq<char> {
    "Native WebAuthn authentication requires ASAuthorizationController integration"@
}

/// The error while the native registration ceremony is not wired up.
pub open spec fn msg_register_integration_pending() -> Seq<char> {
    "Native WebAuthn registration requires ASAuthorizationController integration"@
}

/// The simulated authentication ceremony's latency, in milliseconds. The
/// bridge's logic is independent of pacing; an embedding that wants the
/// development stand-in to feel like a real prompt sleeps this long around
/// the call.
pub const SIMULATED_AUTH_DELAY_MS: u64 = 1500;

/// The simulated registration ceremony's latency, in milliseconds.
pub const SIMULATED_REGISTER_DELAY_MS: u64 = 2000;

/// Selects the provider variant for a platform, once at startup: platforms
/// with a native credential API get the development stand-in in development
/// builds and `Available` otherwise; all other platforms get `Unsupported`.
pub open spec fn spec_select_adapter(has_credential_api: bool, mode: BuildMode) -> AdapterKind {
    if !has_credential_api {
        AdapterKind::Unsupported
    } else if mode == BuildMode::Development {
        AdapterKind::SimulatedDevelopment
    } else {
        AdapterKind::Available
    }
}

/// Picks the provider variant for the given platform capability and build
/// mode; done once at startup, read-only afterwards.
pub fn select_adapter(has_credential_api: bool, mode: BuildMode) -> (r: AdapterKind)
    ensures
        r == spec_select_adapter(has_credential_api, mode),
{
    if !has_credential_api {
        AdapterKind::Unsupported
    } else {
        match mode {
            BuildMode::Development => AdapterKind::SimulatedDevelopment,
            BuildMode::Production => AdapterKind::Available,
        }
    }
}

impl AdapterKind {
    /// The provider's authentication ceremony. A real `Available` ceremony
    /// would bind the challenge and scope the lookup to `domain`; until it is
    /// wired up it reports the pending integration. The stand-in echoes the
    /// credential it was asked to check; `Unsupported` refuses with the fixed
    /// message.
    #[allow(unused_variables)]
    pub fn authenticate(
        &self,
        site_id: &str,
        auth_config: &SiteAuthConfig,
        domain: &str,
        challenge: &Challenge,
    ) -> (r: AuthenticationResult)
        ensures
            r.wf(),
            r.success == (*self == AdapterKind::SimulatedDevelopment),
            *self == AdapterKind::Unsupported ==> r.credential_id is None
                && (r.error matches Some(e) && e@ == msg_not_supported()),
            *self == AdapterKind::SimulatedDevelopment ==> (r.credential_id matches Some(c)
                && c@ == auth_config.credential_id@),
            *self == AdapterKind::Available ==> (r.credential_id matches Some(c)
                && c@ == auth_config.credential_id@) && (r.error matches Some(e)
                && e@ == msg_auth_integration_pending()),
    {
        match self {
            AdapterKind::Unsupported => AuthenticationResult {
                success: false,
                error: Some(String::from_str("WebAuthn not supported on this platform")),
                credential_id: None,
            },
            AdapterKind::SimulatedDevelopment => AuthenticationResult {
                success: true,
                error: None,
                credential_id: Some(auth_config.credential_id.clone()),
            },
            AdapterKind::Available => AuthenticationResult {
                success: false,
                error: Some(
                    String::from_str(
                        "Native WebAuthn authentication requires ASAuthorizationController integration",
                    ),
                ),
                credential_id: Some(auth_config.credential_id.clone()),
            },
        }
    }

    /// The provider's registration ceremony. The stand-in (and the pending
    /// `Available` variant) synthesizes a configuration whose `public_key`
    /// is derived from the fresh challenge, whose `credential_id` is derived
    /// from the site, and whose `registered_at` is the given Unix-seconds
    /// clock reading; only the stand-in reports success.
    #[allow(unused_variables)]
    pub fn register(
        &self,
        site_id: &str,
        site_name: &str,
        user_display_name: Option<String>,
        domain: &str,
        challenge: &Challenge,
        now_unix_secs: u64,
    ) -> (r: RegistrationResult)
        requires
            challenge.wf(),
        ensures
            r.wf(),
            r.success == (*self == AdapterKind::SimulatedDevelopment),
            *self == AdapterKind::Unsupported ==> r.auth_config is None
                && (r.error matches Some(e) && e@ == msg_not_supported()),
            *self == AdapterKind::SimulatedDevelopment ==> (r.auth_config matches Some(c)
                && c.public_key@ == "dev_public_key_"@ + b64_encode(challenge@)
                && c.credential_id@ == "dev_credential_id_"@ + site_id@
                && c.requires_auth
                && c.user_display_name == user_display_name
                && c.registered_at@ == decimal_of(now_unix_secs as nat)),
            *self == AdapterKind::Available ==> (r.auth_config matches Some(c)
                && c.public_key@ == "placeholder_public_key_"@ + b64_encode(challenge@)
                && c.credential_id@ == "placeholder_credential_id_"@ + site_id@
                && c.requires_auth
                && c.user_display_name == user_display_name
                && c.registered_at@ == decimal_of(now_unix_secs as nat)) && (
                r.error matches Some(e) && e@ == msg_register_integration_pending()),
    {
        match self {
            AdapterKind::Unsupported => RegistrationResult {
                success: false,
                auth_config: None,
                error: Some(String::from_str("WebAuthn not supported on this platform")),
            },
            AdapterKind::SimulatedDevelopment => {
                let mut public_key = String::from_str("dev_public_key_");
                let encoded = challenge.encode();
                public_key.append(encoded.as_str());
                let mut credential_id = String::from_str("dev_credential_id_");
                credential_id.append(site_id);
                RegistrationResult {
                    success: true,
                    auth_config: Some(
                        SiteAuthConfig {
                            public_key,
                            credential_id,
                            requires_auth: true,
                            user_display_name,
                            registered_at: u64_to_decimal(now_unix_secs),
                        },
                    ),
                    error: None,
                }
            },
            AdapterKind::Available => {
                let mut public_key = String::from_str("placeholder_public_key_");
                let encoded = challenge.encode();
                public_key.append(encoded.as_str());
                let mut credential_id = String::from_str("placeholder_credential_id_");
                credential_id.append(site_id);
                RegistrationResult {
                    success: false,
                    auth_config: Some(
                        SiteAuthConfig {
                            public_key,
                            credential_id,
                            requires_auth: true,
                            user_display_name,
                            registered_at: u64_to_decimal(now_unix_secs),
                        },
                    ),
                    error: Some(
                        String::from_str(
                            "Native WebAuthn registration requires ASAuthorizationController integration",
                        ),
                    ),
                }
            },
        }
    }
}

/// Relies on std::time::SystemTime: `now()` read once and converted to whole
/// seconds since the Unix epoch via `duration_since(UNIX_EPOCH)` and
/// `Duration::as_secs`; a clock before the epoch reads as zero.
#[verifier::external_body]
fn unix_now_secs() -> (r: u64) {
    match std::time::SystemTime::now().duration_since(std::time::UNIX_EPOCH) {
        Ok(d) => d.as_secs(),
        Err(_) => 0,
    }
}

/// The bridge: the provider variant and build mode are fixed at startup and
/// read-only afterwards; every operation is stateless end-to-end.
#[derive(Clone, Copy, Debug)]
pub struct PasskeyBridge {
    pub adapter: AdapterKind,
    pub mode: BuildMode,
}

impl PasskeyBridge {
    /// A bridge over the given provider variant, resolving domains for the
    /// given build mode.
    pub fn new(adapter: AdapterKind, mode: BuildMode) -> (b: PasskeyBridge)
        ensures
            b.adapter == adapter,
            b.mode == mode,
    {
        PasskeyBridge { adapter, mode }
    }

    /// A bridge whose provider variant is selected from the platform's
    /// capability and the build mode, as at application startup.
    pub fn for_platform(has_credential_api: bool, mode: BuildMode) -> (b: PasskeyBridge)
        ensures
            b.adapter == spec_select_adapter(has_credential_api, mode),
            b.mode == mode,
    {
        PasskeyBridge { adapter: select_adapter(has_credential_api, mode), mode }
    }

    /// Whether passkeys can work here: false exactly when the provider
    /// variant is `Unsupported`.
    pub fn is_webauthn_available(&self) -> (r: bool)
        ensures
            r == (self.adapter != AdapterKind::Unsupported),
    {
        match self.adapter {
            AdapterKind::Unsupported => false,
            _ => true,
        }
    }

    /// Authenticates the caller for a site: resolves the trust domain,
    /// generates a fresh challenge, and delegates to the provider. Always
    /// returns a well-formed envelope; it succeeds exactly on the
    /// development stand-in, echoing the credential that was checked, and
    /// otherwise names the reason in `error`.
    pub fn authenticate_passkey(
        &self,
        site_id: &str,
        auth_config: &SiteAuthConfig,
    ) -> (r: AuthenticationResult)
        ensures
            r.wf(),
            r.success == (self.adapter == AdapterKind::SimulatedDevelopment),
            self.adapter == AdapterKind::Unsupported ==> r.credential_id is None
                && (r.error matches Some(e) && e@ == msg_not_supported()),
            self.adapter == AdapterKind::SimulatedDevelopment ==> (r.credential_id matches Some(c)
                && c@ == auth_config.credential_id@),
            self.adapter == AdapterKind::Available ==> (r.credential_id matches Some(c)
                && c@ == auth_config.credential_id@) && (r.error matches Some(e)
                && e@ == msg_auth_integration_pending()),
    {
        let domain = get_editing_domain(self.mode);
        let challenge = Challenge::generate();
        self.adapter.authenticate(site_id, auth_config, domain.as_str(), &challenge)
    }

    /// Registers a new credential for a site: resolves the trust domain,
    /// generates a fresh challenge, reads the clock, and delegates to the
    /// provider. Always returns a well-formed envelope; it succeeds exactly
    /// on the development stand-in, whose synthesized configuration carries
    /// a `credential_id` derived from the site, a `public_key` derived from
    /// the fresh challenge, and the clock reading as `registered_at`.
    pub fn register_passkey(
        &self,
        site_id: &str,
        site_name: &str,
        user_display_name: Option<String>,
    ) -> (r: RegistrationResult)
        ensures
            r.wf(),
            r.success == (self.adapter == AdapterKind::SimulatedDevelopment),
            self.adapter == AdapterKind::Unsupported ==> r.auth_config is None
                && (r.error matches Some(e) && e@ == msg_not_supported()),
            self.adapter == AdapterKind::SimulatedDevelopment ==> (r.auth_config matches Some(c)
                && c.credential_id@ == "dev_credential_id_"@ + site_id@
                && c.requires_auth
                && c.user_display_name == user_display_name
                && (exists|ch: Seq<u8>, now: u64|
                    ch.len() == 32 && c.public_key@ == "dev_public_key_"@ + b64_encode(ch)
                        && c.registered_at@ == decimal_of(now as nat))),
            self.adapter == AdapterKind::Available ==> (r.auth_config matches Some(c)
                && c.credential_id@ == "placeholder_credential_id_"@ + site_id@
                && c.requires_auth
                && c.user_display_name == user_display_name
                && (exists|ch: Seq<u8>, now: u64|
                    ch.len() == 32 && c.public_key@ == "placeholder_public_key_"@ + b64_encode(ch)
                        && c.registered_at@ == decimal_of(now as nat))) && (
                r.error matches Some(e) && e@ == msg_register_integration_pending()),
    {
        let domain = get_editing_domain(self.mode);
        let challenge = Challenge::generate();
        let now: u64 = unix_now_secs();
        self.adapter.register(
            site_id,
            site_name,
            user_display_name,
            domain.as_str(),
            &challenge,
            now,
        )
    }
}

} // verus!
