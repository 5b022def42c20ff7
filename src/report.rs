//! The two composite endpoints: a best-effort health check, and a batch of
//! every metric in which the hostname and uptime are required.
use vstd::prelude::*;

use crate::error::{fails_with, ApiError, ErrorKind};
use crate::handlers::uptime_in_range;
use crate::outside::{format_hhmmss, hhmmss_text};
use crate::stats::{all_counted, counted_view, get_networks, get_networks_stats};
use crate::types::{
    interfaces_view, stats_view, CounterReading, Interface, NetworkResult, NetworkStats,
};

verus! {

/// The health report. Its `status` always reads `ok`; the uptime and
/// hostname are present only where they could be read.
#[derive(Clone, Debug, PartialEq, Eq)]
pub struct HealthCheckResponse {
    pub status: String,
    pub timestamp: String,
    pub uptime: Option<String>,
    pub hostname: Option<String>,
}

/// The batch report. `C` is the CPU temperature and `L` the load average, as
/// the caller represents them; the library only carries them. An optional
/// field is `None` where its query failed.
#[derive(Clone, Debug, PartialEq)]
pub struct SystemAllResponse<C, L> {
    pub timestamp: String,
    pub hostname: String,
    pub uptime: String,
    pub cpu_temp: Option<C>,
    pub load_average: Option<L>,
    pub networks: Option<NetworkResult>,
    pub net_stats: Option<Vec<NetworkStats>>,
}

/// The message of a batch report whose hostname could not be read.
pub open spec fn hostname_missing_message() -> Seq<char> {
    "Unable to get hostname"@
}

/// The message of a batch report whose uptime could not be read.
pub open spec fn uptime_missing_message() -> Seq<char> {
    "Unable to get uptime"@
}

/// The text of the health report's `status`.
pub open spec fn healthy_status() -> Seq<char> {
    "ok"@
}

/// The hostname, where the provider gave one that is valid text.
pub fn hostname_of(queried: Result<Option<String>, String>) -> (r: Option<String>)
    ensures
        match queried {
            Ok(Some(n)) => r == Some(n),
            _ => r is None,
        },
{
    match queried {
        Ok(Some(n)) => Some(n),
        _ => None,
    }
}

/// The health report taken at `timestamp`. It never fails: an uptime or
/// hostname that could not be read is left out.
pub fn health_check(
    timestamp: String,
    uptime: Result<u64, String>,
    hostname: Result<Option<String>, String>,
) -> (r: HealthCheckResponse)
    requires
        uptime_in_range(uptime),
    ensures
        r.status@ == healthy_status(),
        r.timestamp == timestamp,
        match uptime {
            Ok(s) => r.uptime is Some && r.uptime->Some_0@ == hhmmss_text(s as nat),
            Err(_) => r.uptime is None,
        },
        match hostname {
            Ok(Some(n)) => r.hostname == Some(n),
            _ => r.hostname is None,
        },
{
    let up = match uptime {
        Ok(s) => Some(format_hhmmss(s)),
        Err(_) => None,
    };
    HealthCheckResponse {
        status: "ok".to_string(),
        timestamp,
        uptime: up,
        hostname: hostname_of(hostname),
    }
}

/// The batch report taken at `timestamp`. The hostname is read first, then
/// the uptime; where either fails the whole report fails with `BadRequest`
/// and a message naming it. Every other field is present exactly where its
/// query succeeded.
pub fn system_all<C, L>(
    timestamp: String,
    hostname: Result<Option<String>, String>,
    uptime: Result<u64, String>,
    cpu_temp: Result<C, String>,
    load_average: Result<L, String>,
    networks: Result<Vec<Interface>, String>,
    net_stats: Result<Vec<CounterReading>, String>,
) -> (r: Result<SystemAllResponse<C, L>, ApiError>)
    requires
        uptime_in_range(uptime),
    ensures
        !(hostname matches Ok(Some(_))) ==> fails_with(
            r,
            ErrorKind::BadRequest,
            hostname_missing_message(),
        ),
        hostname matches Ok(Some(_)) && uptime is Err ==> fails_with(
            r,
            ErrorKind::BadRequest,
            uptime_missing_message(),
        ),
        hostname matches Ok(Some(_)) && uptime is Ok ==> {
            let rep = r->Ok_0;
            &&& r is Ok
            &&& rep.timestamp == timestamp
            &&& Some(rep.hostname) == hostname->Ok_0
            &&& rep.uptime@ == hhmmss_text(uptime->Ok_0 as nat)
            &&& rep.cpu_temp == match cpu_temp {
                Ok(t) => Some(t),
                Err(_) => None::<C>,
            }
            &&& rep.load_average == match load_average {
                Ok(l) => Some(l),
                Err(_) => None::<L>,
            }
            &&& match networks {
                Ok(ifs) => rep.networks is Some && rep.networks->Some_0@ == interfaces_view(ifs@),
                Err(_) => rep.networks is None,
            }
            &&& match net_stats {
                Ok(rs) => if all_counted(rs@) {
                    rep.net_stats is Some && stats_view(rep.net_stats->Some_0@) == counted_view(
                        rs@,
                    )
                } else {
                    rep.net_stats is None
                },
                Err(_) => rep.net_stats is None,
            }
        },
{
    let host = match hostname_of(hostname) {
        Some(n) => n,
        None => {
            let text = "Unable to get hostname".to_string();
            return Err(ApiError::new(ErrorKind::BadRequest, text));
        },
    };
    let up = match uptime {
        Ok(s) => format_hhmmss(s),
        Err(_) => {
            let text = "Unable to get uptime".to_string();
            return Err(ApiError::new(ErrorKind::BadRequest, text));
        },
    };
    let cpu = match cpu_temp {
        Ok(t) => Some(t),
        Err(_) => None,
    };
    let load = match load_average {
        Ok(l) => Some(l),
        Err(_) => None,
    };
    let nets = match get_networks(networks) {
        Ok(n) => Some(n),
        Err(_) => None,
    };
    let stats = match get_networks_stats(net_stats) {
        Ok(s) => Some(s),
        Err(_) => None,
    };
    Ok(
        SystemAllResponse {
            timestamp,
            hostname: host,
            uptime: up,
            cpu_temp: cpu,
            load_average: load,
            networks: nets,
            net_stats: stats,
        },
    )
}

} // verus!
