use vstd::prelude::*;

use crate::config::{build_config, spec_config_for, spec_effective_level, Config};

verus! {

/// Why initialization was refused. Every failure here is fatal to startup:
/// the caller is expected to abort rather than run without logging.
#[derive(Clone, Copy, Debug, PartialEq, Eq, Structural)]
pub enum InitError {
    /// The supplied severity name is not recognized.
    InvalidLevel,
    /// A configuration was installed before; the backend accepts exactly one
    /// installation per process.
    AlreadyInitialized,
}

/// Tracks whether the process-wide logging configuration has been installed.
/// The slot can be claimed exactly once for the life of the process.
pub struct Initializer {
    pub initialized: bool,
}

impl Initializer {
    /// A fresh process starts with no configuration installed.
    pub fn new() -> (r: Initializer)
        ensures
            !r.initialized,
    {
        Initializer { initialized: false }
    }

    /// Resolves and assembles the configuration, then claims the single
    /// installation slot. Fails with `InvalidLevel` when the severity name
    /// does not parse — a bad name is reported before the slot is even
    /// consulted — and with `AlreadyInitialized` when the slot
    /// was claimed before; on either failure the state is unchanged, so a
    /// failed call never displaces an installed configuration.
    pub fn initialize(&mut self, log_file: Option<String>, log_level: Option<String>) -> (r:
        Result<Config, InitError>)
        ensures
            match spec_effective_level(log_level.deep_view()) {
                Option::None => {
                    &&& r == Err::<Config, InitError>(InitError::InvalidLevel)
                    &&& *final(self) == *old(self)
                },
                Option::Some(level) => {
                    if old(self).initialized {
                        &&& r == Err::<Config, InitError>(InitError::AlreadyInitialized)
                        &&& *final(self) == *old(self)
                    } else {
                        &&& final(self).initialized
                        &&& match r {
                            Result::Ok(c) => spec_config_for(c, log_file.deep_view(), level),
                            Result::Err(_) => false,
                        }
                    }
                },
            },
    {
        let config = match build_config(log_file, log_level) {
            Result::Ok(c) => c,
            Result::Err(e) => {
                return Err(e);
            },
        };
        if self.initialized {
            return Err(InitError::AlreadyInitialized);
        }
        self.initialized = true;
        Ok(config)
    }
}

} // verus!
