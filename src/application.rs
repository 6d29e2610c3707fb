//! Process configuration, handed in once at start-up and read-only afterwards.

use vstd::prelude::*;

verus! {

/// Settings of the service.
#[derive(Clone, Debug, PartialEq, Eq)]
pub struct Config {
    pub port: u16,
    pub database_url: String,
    pub rust_log: String,
    /// The secret that signs and verifies every session token.
    pub jwt_secret: String,
}

/// The signing secret as handlers receive it.
#[derive(Clone, Debug, PartialEq, Eq)]
pub struct JwtExt {
    pub secret: String,
}

/// The service with its configuration.
pub struct Application {
    config: Config,
}

impl Application {
    pub closed spec fn spec_config(&self) -> Config {
        self.config
    }

    pub fn new(config: Config) -> (r: Self)
        ensures
            r.spec_config() == config,
    {
        Application { config }
    }

    pub fn config(&self) -> (r: &Config)
        ensures
            *r == self.spec_config(),
    {
        &self.config
    }

    /// The signing secret for the handlers.
    pub fn jwt_ext(&self) -> (r: JwtExt)
        ensures
            r.secret@ == self.spec_config().jwt_secret@,
    {
        JwtExt { secret: self.config.jwt_secret.clone() }
    }
}

} // verus!
