//! Configuration of the manager.

use vstd::prelude::*;

verus! {

/// The concurrency limit where none is chosen.
pub const DEFAULT_MAX_CONCURRENT: usize = 3;

/// How the manager runs downloads.
#[derive(Debug)]
pub struct DownloadManagerConfig {
    max_concurrent: usize,
}

/// A configuration in the making.
#[derive(Debug)]
pub struct DownloadManagerConfigBuilder {
    max_concurrent: Option<usize>,
}

/// Why a setting was refused.
#[derive(Debug, Clone, Copy, PartialEq, Eq, Structural)]
pub enum ConfigError {
    /// The concurrency limit must be greater than zero.
    ZeroMaxConcurrent,
}

impl ConfigError {
    /// The refusal in words.
    pub fn message(&self) -> (text: String)
        ensures
            text@ == "Max concurrent downloads must be greater than 0"@,
    {
        "Max concurrent downloads must be greater than 0".to_owned()
    }
}

impl DownloadManagerConfig {
    /// The limit is never zero.
    #[verifier::type_invariant]
    spec fn has_limit(self) -> bool {
        self.max_concurrent > 0
    }

    /// The largest number of downloads that may run at once.
    pub closed spec fn limit(self) -> nat {
        self.max_concurrent as nat
    }

    /// Start a configuration.
    pub fn builder() -> (builder: DownloadManagerConfigBuilder)
        ensures
            builder.chosen() is None,
    {
        DownloadManagerConfigBuilder::default()
    }

    /// The largest number of downloads that may run at once, which is never
    /// zero.
    pub fn max_concurrent(&self) -> (limit: usize)
        ensures
            limit == self.limit(),
            limit > 0,
    {
        proof {
            use_type_invariant(self);
        }
        self.max_concurrent
    }
}

impl Default for DownloadManagerConfig {
    fn default() -> (config: DownloadManagerConfig)
        ensures
            config.limit() == DEFAULT_MAX_CONCURRENT,
    {
        DownloadManagerConfigBuilder::default().build()
    }
}

impl Default for DownloadManagerConfigBuilder {
    fn default() -> (builder: DownloadManagerConfigBuilder)
        ensures
            builder.chosen() is None,
    {
        DownloadManagerConfigBuilder { max_concurrent: None }
    }
}

impl Clone for DownloadManagerConfigBuilder {
    fn clone(&self) -> (builder: DownloadManagerConfigBuilder)
        ensures
            builder == *self,
    {
        proof {
            use_type_invariant(self);
        }
        DownloadManagerConfigBuilder { max_concurrent: self.max_concurrent }
    }
}

impl DownloadManagerConfigBuilder {
    /// A limit, once chosen, is never zero.
    #[verifier::type_invariant]
    spec fn chose_limit(self) -> bool {
        self.max_concurrent matches Some(limit) ==> limit > 0
    }

    /// The limit chosen so far.
    pub closed spec fn chosen(self) -> Option<usize> {
        self.max_concurrent
    }

    /// Set the largest number of downloads that may run at once. Zero is
    /// refused and changes nothing.
    pub fn max_concurrent(&mut self, value: usize) -> (outcome: Result<&mut Self, ConfigError>)
        ensures
            match outcome {
                Ok(builder) => {
                    &&& value != 0
                    &&& builder.chosen() == Some(value)
                    &&& *final(self) == *final(builder)
                },
                Err(e) => {
                    &&& value == 0
                    &&& e == ConfigError::ZeroMaxConcurrent
                    &&& *final(self) == *old(self)
                },
            },
    {
        if value == 0 {
            return Err(ConfigError::ZeroMaxConcurrent);
        }
        self.max_concurrent = Some(value);
        Ok(self)
    }

    /// The finished configuration: the limit that was chosen, or the default.
    pub fn build(&self) -> (config: DownloadManagerConfig)
        ensures
            config.limit() == match self.chosen() {
                Some(limit) => limit as nat,
                None => DEFAULT_MAX_CONCURRENT as nat,
            },
    {
        proof {
            use_type_invariant(self);
        }
        DownloadManagerConfig {
            max_concurrent: match self.max_concurrent {
                Some(limit) => limit,
                None => DEFAULT_MAX_CONCURRENT,
            },
        }
    }
}

} // verus!
