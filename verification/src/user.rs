//! The mobile-user simulator's pieces that carry logic: its
//! configuration model — money in cents, data in megabytes — and the
//! performance counters it keeps over its requests.

use vstd::prelude::*;

use crate::clock::now_seconds;

verus! {

/// The user simulator's whole configuration.
#[derive(Clone, Debug)]
pub struct UserSimulatorConfig {
    pub server: ServerConfig,
    pub authentication: AuthConfig,
    pub phone: PhoneConfig,
    pub ui: UiConfig,
    pub logging: LoggingConfig,
    pub testing: TestingConfig,
    pub advanced: AdvancedConfig,
}

/// Where the gateway is reached, with reconnect behaviour.
#[derive(Clone, Debug)]
pub struct ServerConfig {
    pub host: String,
    pub port: u16,
    pub connection_timeout_ms: u64,
    pub reconnect_attempts: u32,
    pub keepalive_interval_ms: u64,
}

/// The credentials the simulated subscriber binds with.
#[derive(Clone, Debug)]
pub struct AuthConfig {
    pub system_id: String,
    pub password: String,
    pub system_type: String,
}

/// The simulated phone; balances are held in cents and megabytes.
#[derive(Clone, Debug)]
pub struct PhoneConfig {
    pub default_msisdn: String,
    pub operator_name: String,
    pub balance_cents: u64,
    pub data_balance_mb: u64,
    pub country_code: String,
    pub network_code: String,
}

/// Terminal presentation switches.
#[derive(Clone, Debug)]
pub struct UiConfig {
    pub animation_delay_ms: u64,
    pub auto_clear_screen: bool,
    pub show_debug_info: bool,
    pub show_performance_stats: bool,
    pub session_timeout_ms: u64,
    pub max_input_length: usize,
}

/// Logging switches; the library itself never writes a log.
#[derive(Clone, Debug)]
pub struct LoggingConfig {
    pub debug: bool,
    pub log_file: String,
    pub log_level: String,
    pub enable_file_logging: bool,
}

/// Scripted-test switches.
#[derive(Clone, Debug)]
pub struct TestingConfig {
    pub auto_test_on_startup: bool,
    pub test_scenarios_file: String,
    pub performance_test_enabled: bool,
    pub concurrent_sessions: u32,
}

/// Protocol tuning.
#[derive(Clone, Debug)]
pub struct AdvancedConfig {
    pub smpp_version: String,
    pub enquire_link_interval_ms: u64,
    pub pdu_timeout_ms: u64,
    pub max_concurrent_requests: u32,
}

/// The simulated handset; balances are held in cents and megabytes.
#[derive(Clone, Debug)]
pub struct MobilePhone {
    pub msisdn: String,
    pub operator: String,
    pub balance_cents: u64,
    pub data_balance_mb: u64,
}

impl MobilePhone {
    /// A handset with the given identity and balances.
    pub fn new(msisdn: &str, operator: &str, balance_cents: u64, data_balance_mb: u64) -> (r:
        MobilePhone)
        ensures
            r.msisdn@ == msisdn@,
            r.operator@ == operator@,
            r.balance_cents == balance_cents,
            r.data_balance_mb == data_balance_mb,
    {
        MobilePhone {
            msisdn: String::from_str(msisdn),
            operator: String::from_str(operator),
            balance_cents,
            data_balance_mb,
        }
    }
}

/// Counters over the requests a client has sent. The response-time
/// window keeps at most the last 1000 readings; an average for display
/// is a fraction of its sum and is left to presentation code.
#[derive(Clone, Debug)]
pub struct PerformanceStats {
    pub total_requests: u64,
    pub successful_requests: u64,
    pub failed_requests: u64,
    pub min_response_time_ms: u64,
    pub max_response_time_ms: u64,
    pub start_time: u64,
    pub last_request_time: Option<u64>,
    pub response_times: Vec<u64>,
}

impl PerformanceStats {
    /// Zeroed counters started at a given clock reading.
    pub fn new_at(now: u64) -> (r: PerformanceStats)
        ensures
            r.total_requests == 0,
            r.successful_requests == 0,
            r.failed_requests == 0,
            r.min_response_time_ms == u64::MAX,
            r.max_response_time_ms == 0,
            r.start_time == now,
            r.last_request_time is None,
            r.response_times@.len() == 0,
    {
        PerformanceStats {
            total_requests: 0,
            successful_requests: 0,
            failed_requests: 0,
            min_response_time_ms: u64::MAX,
            max_response_time_ms: 0,
            start_time: now,
            last_request_time: None,
            response_times: Vec::new(),
        }
    }

    /// Zeroed counters started at the wall clock.
    pub fn new() -> (r: PerformanceStats)
        ensures
            r.total_requests == 0,
            r.successful_requests == 0,
            r.failed_requests == 0,
            r.min_response_time_ms == u64::MAX,
            r.max_response_time_ms == 0,
            r.last_request_time is None,
            r.response_times@.len() == 0,
    {
        let now = now_seconds();
        Self::new_at(now)
    }

    /// Records one request at a given clock reading: counts it, keeps
    /// the reading window at 1000 entries, and tightens the extremes.
    pub fn record_request_at(&mut self, response_time_ms: u64, success: bool, now: u64)
        requires
            old(self).total_requests < u64::MAX,
            old(self).successful_requests < u64::MAX,
            old(self).failed_requests < u64::MAX,
        ensures
            final(self).total_requests == old(self).total_requests + 1,
            final(self).successful_requests == old(self).successful_requests + (if success {
                1int
            } else {
                0int
            }),
            final(self).failed_requests == old(self).failed_requests + (if success {
                0int
            } else {
                1int
            }),
            final(self).last_request_time == Some(now),
            final(self).min_response_time_ms == (if response_time_ms < old(
                self,
            ).min_response_time_ms {
                response_time_ms
            } else {
                old(self).min_response_time_ms
            }),
            final(self).max_response_time_ms == (if response_time_ms > old(
                self,
            ).max_response_time_ms {
                response_time_ms
            } else {
                old(self).max_response_time_ms
            }),
            final(self).response_times@ == (if old(self).response_times@.len() < 1000 {
                old(self).response_times@.push(response_time_ms)
            } else {
                old(self).response_times@.push(response_time_ms).drop_first()
            }),
            final(self).start_time == old(self).start_time,
    {
        self.total_requests = self.total_requests + 1;
        self.last_request_time = Some(now);
        if success {
            self.successful_requests = self.successful_requests + 1;
        } else {
            self.failed_requests = self.failed_requests + 1;
        }
        self.response_times.push(response_time_ms);
        if self.response_times.len() > 1000 {
            self.response_times.remove(0);
            proof {
                assert(self.response_times@ =~= old(self).response_times@.push(
                    response_time_ms,
                ).drop_first());
            }
        }
        if response_time_ms < self.min_response_time_ms {
            self.min_response_time_ms = response_time_ms;
        }
        if response_time_ms > self.max_response_time_ms {
            self.max_response_time_ms = response_time_ms;
        }
    }

    /// Records one request against the wall clock.
    pub fn record_request(&mut self, response_time_ms: u64, success: bool)
        requires
            old(self).total_requests < u64::MAX,
            old(self).successful_requests < u64::MAX,
            old(self).failed_requests < u64::MAX,
        ensures
            final(self).total_requests == old(self).total_requests + 1,
            final(self).successful_requests == old(self).successful_requests + (if success {
                1int
            } else {
                0int
            }),
            final(self).failed_requests == old(self).failed_requests + (if success {
                0int
            } else {
                1int
            }),
            final(self).response_times@ == (if old(self).response_times@.len() < 1000 {
                old(self).response_times@.push(response_time_ms)
            } else {
                old(self).response_times@.push(response_time_ms).drop_first()
            }),
            final(self).start_time == old(self).start_time,
    {
        let now = now_seconds();
        self.record_request_at(response_time_ms, success, now);
    }

    /// How long the counters have run by a given clock reading; a
    /// clock that moved backwards reads as no time at all.
    pub fn get_uptime_seconds_at(&self, now: u64) -> (r: u64)
        ensures
            r == (if now >= self.start_time {
                now - self.start_time
            } else {
                0int
            }),
    {
        if now >= self.start_time {
            now - self.start_time
        } else {
            0
        }
    }

    /// How long the counters have run by the wall clock.
    pub fn get_uptime_seconds(&self) -> (r: u64)
        ensures
            exists|now: u64|
                r == (if now >= self.start_time {
                    now - self.start_time
                } else {
                    0int
                }) && #[trigger] spec_uptime_reading(self.start_time, now, r),
    {
        let now = now_seconds();
        let r = self.get_uptime_seconds_at(now);
        proof {
            assert(spec_uptime_reading(self.start_time, now, r));
        }
        r
    }
}

/// An uptime reading `r` taken at `now` over a start time.
pub open spec fn spec_uptime_reading(start: u64, now: u64, r: u64) -> bool {
    r == (if now >= start {
        now - start
    } else {
        0int
    })
}

} // verus!
