//! Configuration of how downloads are retried, and the rules that a directory
//! configuration has to meet before it is used.

use crate::err::Error;
use crate::retry::{duration_millis, RetryConfig};
use std::time::Duration;
use vstd::prelude::*;

verus! {

/// Configuration information for how exactly we download things from the
/// directory caches.
#[derive(Debug, Clone, Copy)]
pub struct DownloadScheduleConfig {
    /// Top-level configuration for how to retry our initial bootstrap attempt.
    retry_bootstrap: RetryConfig,
    /// Configuration for how to retry a consensus download.
    retry_consensus: RetryConfig,
    /// Configuration for how to retry an authority cert download.
    retry_certs: RetryConfig,
    /// Configuration for how to retry a microdescriptor download.
    retry_microdescs: RetryConfig,
    /// Number of microdescriptor downloads to attempt in parallel
    microdesc_parallelism: u8,
}

/// Default value for retry_bootstrap in DownloadScheduleConfig: 128 attempts,
/// one second apart at first.
pub fn default_retry_bootstrap() -> (r: RetryConfig)
    ensures
        r.spec_n_attempts() == 128,
        duration_millis(r.spec_initial_delay()) == 1000,
{
    RetryConfig::new(128, Duration::from_millis(1000))
}

/// Default value for microdesc_parallelism in DownloadScheduleConfig.
pub fn default_microdesc_parallelism() -> (r: u8)
    ensures
        r == 4,
{
    4
}

impl DownloadScheduleConfig {
    /// The configuration for retrying the bootstrap operation as a whole.
    pub closed spec fn spec_retry_bootstrap(&self) -> RetryConfig {
        self.retry_bootstrap
    }

    /// The configuration for retrying a consensus download.
    pub closed spec fn spec_retry_consensus(&self) -> RetryConfig {
        self.retry_consensus
    }

    /// The configuration for retrying an authority certificate download.
    pub closed spec fn spec_retry_certs(&self) -> RetryConfig {
        self.retry_certs
    }

    /// The configuration for retrying a microdescriptor download.
    pub closed spec fn spec_retry_microdescs(&self) -> RetryConfig {
        self.retry_microdescs
    }

    /// The number of parallel microdescriptor downloads as configured, which
    /// may be 0.
    pub closed spec fn spec_parallelism(&self) -> u8 {
        self.microdesc_parallelism
    }

    /// Put a configuration together from its parts.
    pub fn new(
        retry_bootstrap: RetryConfig,
        retry_consensus: RetryConfig,
        retry_certs: RetryConfig,
        retry_microdescs: RetryConfig,
        microdesc_parallelism: u8,
    ) -> (r: Self)
        ensures
            r.spec_retry_bootstrap() == retry_bootstrap,
            r.spec_retry_consensus() == retry_consensus,
            r.spec_retry_certs() == retry_certs,
            r.spec_retry_microdescs() == retry_microdescs,
            r.spec_parallelism() == microdesc_parallelism,
    {
        DownloadScheduleConfig {
            retry_bootstrap,
            retry_consensus,
            retry_certs,
            retry_microdescs,
            microdesc_parallelism,
        }
    }

    /// Return configuration for retrying our entire bootstrap
    /// operation at startup.
    pub fn retry_bootstrap(&self) -> (r: &RetryConfig)
        ensures
            *r == self.spec_retry_bootstrap(),
    {
        &self.retry_bootstrap
    }

    /// Return configuration for retrying a consensus download.
    pub fn retry_consensus(&self) -> (r: &RetryConfig)
        ensures
            *r == self.spec_retry_consensus(),
    {
        &self.retry_consensus
    }

    /// Return configuration for retrying an authority certificate download
    pub fn retry_certs(&self) -> (r: &RetryConfig)
        ensures
            *r == self.spec_retry_certs(),
    {
        &self.retry_certs
    }

    /// Return configuration for retrying a microdescriptor download
    pub fn retry_microdescs(&self) -> (r: &RetryConfig)
        ensures
            *r == self.spec_retry_microdescs(),
    {
        &self.retry_microdescs
    }

    /// Number of microdescriptor fetches to attempt in parallel: the
    /// configured number, and 1 where that is 0.
    pub fn microdesc_parallelism(&self) -> (r: usize)
        ensures
            r == (if self.spec_parallelism() == 0 {
                1usize
            } else {
                self.spec_parallelism() as usize
            }),
            1 <= r <= 255,
    {
        if self.microdesc_parallelism == 0 {
            1
        } else {
            self.microdesc_parallelism as usize
        }
    }
}

impl Default for DownloadScheduleConfig {
    fn default() -> (r: Self)
        ensures
            r.spec_retry_bootstrap().spec_n_attempts() == 128,
            duration_millis(r.spec_retry_bootstrap().spec_initial_delay()) == 1000,
            r.spec_retry_consensus().spec_n_attempts() == 3,
            duration_millis(r.spec_retry_consensus().spec_initial_delay()) == 1000,
            r.spec_retry_certs().spec_n_attempts() == 3,
            duration_millis(r.spec_retry_certs().spec_initial_delay()) == 1000,
            r.spec_retry_microdescs().spec_n_attempts() == 3,
            duration_millis(r.spec_retry_microdescs().spec_initial_delay()) == 1000,
            r.spec_parallelism() == 4,
    {
        DownloadScheduleConfig {
            retry_bootstrap: default_retry_bootstrap(),
            retry_consensus: RetryConfig::default(),
            retry_certs: RetryConfig::default(),
            retry_microdescs: RetryConfig::default(),
            microdesc_parallelism: default_microdesc_parallelism(),
        }
    }
}

/// What is wrong with a directory configuration, if anything: the first of
/// no cache path, no authorities, no fallback caches.
pub open spec fn network_config_problem(
    have_cache_path: bool,
    n_authorities: int,
    n_fallbacks: int,
) -> Option<&'static str> {
    if !have_cache_path {
        Some("No cache path configured")
    } else if n_authorities == 0 {
        Some("No authorities configured")
    } else if n_fallbacks == 0 {
        Some("No fallback caches configured")
    } else {
        None
    }
}

/// Decide whether a directory configuration can be used: it needs a cache
/// path, at least one authority and at least one fallback cache. The first of
/// these that is wanting is reported.
pub fn check_network_config(have_cache_path: bool, n_authorities: usize, n_fallbacks: usize) -> (r:
    Result<(), Error>)
    ensures
        match network_config_problem(have_cache_path, n_authorities as int, n_fallbacks as int) {
            Some(what) => r matches Err(Error::BadNetworkConfig(s)) && s == what,
            None => r is Ok,
        },
{
    if !have_cache_path {
        Err(Error::BadNetworkConfig("No cache path configured"))
    } else if n_authorities == 0 {
        Err(Error::BadNetworkConfig("No authorities configured"))
    } else if n_fallbacks == 0 {
        Err(Error::BadNetworkConfig("No fallback caches configured"))
    } else {
        Ok(())
    }
}

} // verus!
