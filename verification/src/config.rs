//! What one publishing run is configured with.

use vstd::prelude::*;

verus! {

/// Why a configuration is refused.
#[derive(Clone, Copy, Debug, PartialEq, Eq)]
pub enum ConfigError {
    /// A rate of zero messages per second has no period.
    ZeroRate,
}

/// The settings of one run, fixed for its lifetime.
#[derive(Clone, Debug)]
pub struct PublishConfig {
    /// The key expression that every message is published on.
    pub topic: String,
    /// Payload length in bytes.
    pub size: usize,
    /// Target cadence in messages per second.
    pub rate: usize,
}

impl PublishConfig {
    /// A configuration is usable when its rate has a period.
    pub open spec fn wf(self) -> bool {
        self.rate > 0
    }

    /// Checks the settings and bundles them; a zero rate is the one refusal.
    pub fn new(topic: String, size: usize, rate: usize) -> (made: Result<PublishConfig, ConfigError>)
        ensures
            rate == 0 ==> made == Err::<PublishConfig, ConfigError>(ConfigError::ZeroRate),
            rate > 0 ==> made == Ok::<PublishConfig, ConfigError>(
                (PublishConfig { topic, size, rate }),
            ),
            made is Ok ==> made.unwrap().wf(),
    {
        if rate == 0 {
            Err(ConfigError::ZeroRate)
        } else {
            Ok(PublishConfig { topic, size, rate })
        }
    }
}

} // verus!
