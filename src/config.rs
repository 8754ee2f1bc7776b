use vstd::prelude::*;

verus! {

/// A rule or an option that the administrative interface refuses. The
/// state it was meant for is left unchanged.
#[derive(Clone, Copy, Debug, PartialEq, Eq, Structural)]
pub enum ConfigError {
    /// A rule whose application name is empty.
    EmptyAppName,
    /// A shipping interval of zero.
    ZeroInterval,
    /// A buffer capacity of zero.
    ZeroCapacity,
    /// A first backoff delay of zero.
    ZeroBackoff,
    /// A backoff ceiling below the first backoff delay.
    CeilingBelowBackoff,
}

/// The options of the shipping loop, in time units of the caller's clock.
#[derive(Clone, Copy, Debug, PartialEq, Eq, Structural)]
pub struct ShippingConfig {
    /// Time between two ticks.
    pub interval: u64,
    /// Delay after the first failed delivery.
    pub initial_backoff: u64,
    /// The most any backoff delay may be.
    pub max_backoff: u64,
    /// Failed deliveries of one batch that are retried; one more drops it.
    pub max_retries: u32,
}

/// The default time between two ticks.
pub const DEFAULT_INTERVAL: u64 = 60;

/// The default delay after the first failed delivery.
pub const DEFAULT_INITIAL_BACKOFF: u64 = 1;

/// The default ceiling of backoff delays.
pub const DEFAULT_MAX_BACKOFF: u64 = 30;

/// The default number of retried deliveries.
pub const DEFAULT_MAX_RETRIES: u32 = 5;

/// The options are usable: a positive interval and first delay, and a
/// ceiling no lower than the first delay.
pub open spec fn config_valid(c: ShippingConfig) -> bool {
    &&& c.interval > 0
    &&& c.initial_backoff > 0
    &&& c.initial_backoff <= c.max_backoff
}

/// The first problem of `c`, if any.
pub open spec fn config_error(c: ShippingConfig) -> Option<ConfigError> {
    if c.interval == 0 {
        Some(ConfigError::ZeroInterval)
    } else if c.initial_backoff == 0 {
        Some(ConfigError::ZeroBackoff)
    } else if c.max_backoff < c.initial_backoff {
        Some(ConfigError::CeilingBelowBackoff)
    } else {
        None
    }
}

impl ShippingConfig {
    /// Options from their values, refused when unusable.
    pub fn new(interval: u64, initial_backoff: u64, max_backoff: u64, max_retries: u32) -> (r: Result<
        ShippingConfig,
        ConfigError,
    >)
        ensures
            ({
                let c = ShippingConfig { interval, initial_backoff, max_backoff, max_retries };
                match config_error(c) {
                    Some(e) => r == Err::<ShippingConfig, ConfigError>(e),
                    None => r == Ok::<ShippingConfig, ConfigError>(c) && config_valid(c),
                }
            }),
    {
        if interval == 0 {
            Err(ConfigError::ZeroInterval)
        } else if initial_backoff == 0 {
            Err(ConfigError::ZeroBackoff)
        } else if max_backoff < initial_backoff {
            Err(ConfigError::CeilingBelowBackoff)
        } else {
            Ok(ShippingConfig { interval, initial_backoff, max_backoff, max_retries })
        }
    }

    /// The default options.
    pub fn default_options() -> (r: ShippingConfig)
        ensures
            config_valid(r),
            r.interval == DEFAULT_INTERVAL,
            r.initial_backoff == DEFAULT_INITIAL_BACKOFF,
            r.max_backoff == DEFAULT_MAX_BACKOFF,
            r.max_retries == DEFAULT_MAX_RETRIES,
    {
        ShippingConfig {
            interval: DEFAULT_INTERVAL,
            initial_backoff: DEFAULT_INITIAL_BACKOFF,
            max_backoff: DEFAULT_MAX_BACKOFF,
            max_retries: DEFAULT_MAX_RETRIES,
        }
    }
}

} // verus!
