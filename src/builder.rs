use vstd::prelude::*;

use crate::backoff::BackoffPolicy;

verus! {

/// The default shortest wait between reconnect attempts, in milliseconds.
pub const DEFAULT_BACKOFF_MIN_MS: u64 = 100;

/// The default longest wait between reconnect attempts, in milliseconds.
pub const DEFAULT_BACKOFF_MAX_MS: u64 = 60_000;

/// The default number of reconnect attempts: as many as a `u32` counts.
pub const DEFAULT_MAX_RETRIES: u32 = 0xffff_ffff;

/// The default time, in milliseconds, that a reopened connection must stay open
/// to count as stable.
pub const DEFAULT_STABLE_TIMEOUT_MS: u64 = 90_000;

/// The largest duration, in milliseconds, that the timers can be armed with.
pub const MAX_TIMER_MS: u64 = 0xffff_ffff;

/// The settings of a socket, as a builder or a validated configuration holds them.
pub struct Settings {
    /// Where the transport is opened.
    pub url: Seq<char>,
    /// The shortest wait between reconnect attempts, in milliseconds.
    pub backoff_min: u64,
    /// The longest wait between reconnect attempts, in milliseconds, if any.
    pub backoff_max: Option<u64>,
    /// How many reconnect attempts are allowed.
    pub max_retries: u32,
    /// How long, in milliseconds, a reopened connection must stay open to
    /// count as stable. It is kept for the driver: the engine does not reset
    /// its count of attempts on its own.
    pub stable_timeout: u64,
}

/// Why a builder's settings were refused.
#[derive(Debug, Clone, Copy, PartialEq, Eq, Structural)]
pub enum ConfigError {
    /// The shortest wait is zero.
    BackoffMinZero,
    /// The longest wait is set above `u32::MAX` milliseconds.
    BackoffMaxTooLarge,
    /// No reconnect attempt is allowed.
    MaxRetriesZero,
    /// The stable timeout is above `u32::MAX` milliseconds.
    StableTimeoutTooLarge,
}

/// The first rule that the settings break, in the order the builder checks
/// them, or `None` when they are valid.
pub open spec fn settings_error(s: Settings) -> Option<ConfigError> {
    if s.backoff_min == 0 {
        Some(ConfigError::BackoffMinZero)
    } else if s.backoff_max matches Some(m) && m > MAX_TIMER_MS {
        Some(ConfigError::BackoffMaxTooLarge)
    } else if s.max_retries == 0 {
        Some(ConfigError::MaxRetriesZero)
    } else if s.stable_timeout > MAX_TIMER_MS {
        Some(ConfigError::StableTimeoutTooLarge)
    } else {
        None
    }
}

/// The text of each configuration error.
pub open spec fn config_message(e: ConfigError) -> Seq<char> {
    match e {
        ConfigError::BackoffMinZero => "backoff_min must be > 0"@,
        ConfigError::BackoffMaxTooLarge => "backoff_max must be <= u32::MAX millis"@,
        ConfigError::MaxRetriesZero => "backoff_retries must be > 0"@,
        ConfigError::StableTimeoutTooLarge => "stable_timeout must be <= u32::MAX millis"@,
    }
}

impl ConfigError {
    /// A sentence that says which setting is wrong.
    pub fn message(&self) -> (r: String)
        ensures
            r@ == config_message(*self),
    {
        match self {
            ConfigError::BackoffMinZero => String::from_str("backoff_min must be > 0"),
            ConfigError::BackoffMaxTooLarge => String::from_str(
                "backoff_max must be <= u32::MAX millis",
            ),
            ConfigError::MaxRetriesZero => String::from_str("backoff_retries must be > 0"),
            ConfigError::StableTimeoutTooLarge => String::from_str(
                "stable_timeout must be <= u32::MAX millis",
            ),
        }
    }
}

/// Builder for a reconnecting socket. Every setting starts at its default;
/// durations are in milliseconds.
#[derive(Debug)]
pub struct SocketBuilder {
    url: String,
    backoff_min: u64,
    backoff_max: Option<u64>,
    max_retries: u32,
    stable_timeout: u64,
}

impl View for SocketBuilder {
    type V = Settings;

    closed spec fn view(&self) -> Settings {
        Settings {
            url: self.url@,
            backoff_min: self.backoff_min,
            backoff_max: self.backoff_max,
            max_retries: self.max_retries,
            stable_timeout: self.stable_timeout,
        }
    }
}

impl SocketBuilder {
    /// A builder for the given url with every other setting at its default.
    pub fn new(url: String) -> (r: SocketBuilder)
        ensures
            r@.url == url@,
            r@.backoff_min == DEFAULT_BACKOFF_MIN_MS,
            r@.backoff_max == Some(DEFAULT_BACKOFF_MAX_MS),
            r@.max_retries == DEFAULT_MAX_RETRIES,
            r@.stable_timeout == DEFAULT_STABLE_TIMEOUT_MS,
    {
        SocketBuilder {
            url,
            backoff_min: DEFAULT_BACKOFF_MIN_MS,
            backoff_max: Some(DEFAULT_BACKOFF_MAX_MS),
            max_retries: DEFAULT_MAX_RETRIES,
            stable_timeout: DEFAULT_STABLE_TIMEOUT_MS,
        }
    }

    /// Replaces the url.
    pub fn set_url(self, url: String) -> (r: SocketBuilder)
        ensures
            r@ == (Settings { url: url@, ..self@ }),
    {
        SocketBuilder { url, ..self }
    }

    /// Replaces the shortest wait (valid when above zero).
    pub fn set_backoff_min(self, backoff_min: u64) -> (r: SocketBuilder)
        ensures
            r@ == (Settings { backoff_min, ..self@ }),
    {
        SocketBuilder { backoff_min, ..self }
    }

    /// Replaces the longest wait (valid when unset or at most `u32::MAX`).
    pub fn set_backoff_max(self, backoff_max: Option<u64>) -> (r: SocketBuilder)
        ensures
            r@ == (Settings { backoff_max, ..self@ }),
    {
        SocketBuilder { backoff_max, ..self }
    }

    /// Replaces the number of reconnect attempts (valid when above zero).
    pub fn set_max_retries(self, max_retries: u32) -> (r: SocketBuilder)
        ensures
            r@ == (Settings { max_retries, ..self@ }),
    {
        SocketBuilder { max_retries, ..self }
    }

    /// Replaces the stable timeout (valid when at most `u32::MAX`): how long a
    /// reopened connection must stay open to count as stable.
    pub fn set_stable_timeout(self, stable_timeout: u64) -> (r: SocketBuilder)
        ensures
            r@ == (Settings { stable_timeout, ..self@ }),
    {
        SocketBuilder { stable_timeout, ..self }
    }

    /// Validates the settings, before any connection is attempted. The first
    /// broken rule is reported; valid settings become a configuration.
    pub fn into_config(self) -> (r: Result<Config, ConfigError>)
        ensures
            r is Err <==> settings_error(self@) is Some,
            r matches Err(e) ==> settings_error(self@) == Some(e),
            r matches Ok(c) ==> c@ == self@,
    {
        if self.backoff_min == 0 {
            return Err(ConfigError::BackoffMinZero);
        }
        if let Some(m) = self.backoff_max {
            if m > MAX_TIMER_MS {
                return Err(ConfigError::BackoffMaxTooLarge);
            }
        }
        if self.max_retries == 0 {
            return Err(ConfigError::MaxRetriesZero);
        }
        if self.stable_timeout > MAX_TIMER_MS {
            return Err(ConfigError::StableTimeoutTooLarge);
        }
        Ok(
            Config {
                url: self.url,
                backoff_min: self.backoff_min,
                backoff_max: self.backoff_max,
                max_retries: self.max_retries,
                stable_timeout: self.stable_timeout,
            },
        )
    }
}

/// Settings that passed validation; immutable from then on.
#[derive(Debug)]
pub struct Config {
    url: String,
    backoff_min: u64,
    backoff_max: Option<u64>,
    max_retries: u32,
    stable_timeout: u64,
}

impl View for Config {
    type V = Settings;

    closed spec fn view(&self) -> Settings {
        Settings {
            url: self.url@,
            backoff_min: self.backoff_min,
            backoff_max: self.backoff_max,
            max_retries: self.max_retries,
            stable_timeout: self.stable_timeout,
        }
    }
}

impl Config {
    #[verifier::type_invariant]
    spec fn valid(self) -> bool {
        settings_error(self@) is None
    }

    /// The url to connect to.
    pub fn url(&self) -> (r: &str)
        ensures
            r@ == self@.url,
    {
        self.url.as_str()
    }

    /// The stable timeout, in milliseconds.
    pub fn stable_timeout_ms(&self) -> (r: u32)
        ensures
            r == self@.stable_timeout,
    {
        proof {
            use_type_invariant(self);
        }
        self.stable_timeout as u32
    }

    /// The backoff policy that the settings describe.
    pub fn policy(&self) -> (r: BackoffPolicy)
        ensures
            r.wf(),
            r.spec_min_ms() == self@.backoff_min,
            r.spec_max_ms() == self@.backoff_max,
            r.spec_max_retries() == self@.max_retries,
    {
        proof {
            use_type_invariant(self);
        }
        BackoffPolicy::new(self.max_retries, self.backoff_min, self.backoff_max)
    }

    /// Takes the url out of the configuration.
    pub fn into_url(self) -> (r: String)
        ensures
            r@ == self@.url,
    {
        self.url
    }
}

} // verus!
