//! Resolves the trust domain (relying-party origin) that credentials are
//! scoped to. The mapping is a pure function of the build mode, so callers
//! can rely on exactly one domain per mode.

use vstd::prelude::*;

verus! {

/// The deployment mode the application was built for, fixed at startup.
#[derive(Clone, Copy, Debug, PartialEq, Eq, Structural)]
pub enum BuildMode {
    Development,
    Production,
}

/// The domain a credential is scoped to in the given mode: a loopback
/// domain during development, the fixed production domain otherwise.
pub open spec fn spec_editing_domain(mode: BuildMode) -> Seq<char> {
    match mode {
        BuildMode::Development => "localhost"@,
        BuildMode::Production => "app.sparktype.org"@,
    }
}

/// Returns the editing domain for WebAuthn operations: `localhost` in
/// development, the configured production domain in production.
pub fn get_editing_domain(mode: BuildMode) -> (r: String)
    ensures
        r@ == spec_editing_domain(mode),
{
    match mode {
        BuildMode::Development => String::from_str("localhost"),
        BuildMode::Production => String::from_str("app.sparktype.org"),
    }
}

} // verus!
