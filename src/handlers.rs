//! What the endpoints answer that is more than one facade call.
use vstd::prelude::*;

use crate::error::{fails_with, ApiError, ErrorKind};
use crate::outside::{format_hhmmss, hhmmss_text};
use crate::stats::{all_counted, counted_view, first_failure_at, get_network_stats, get_networks_stats};
use crate::types::{stats_view, CounterReading, InterfaceCounters, NetworkStatsResults};

verus! {

/// What the provider answered for the counters endpoint: for the one
/// interface asked for by name, or for every listed interface.
#[derive(Debug, PartialEq, Eq)]
pub enum NetStatsReading {
    One(String, Result<InterfaceCounters, String>),
    All(Result<Vec<CounterReading>, String>),
}

/// The uptime whole seconds fit the formatter.
pub open spec fn uptime_in_range(queried: Result<u64, String>) -> bool {
    queried is Ok ==> queried->Ok_0 <= i64::MAX
}

/// The uptime as `HH:MM:SS`; a failure is `NotFound`.
pub fn uptime_handler(queried: Result<u64, String>) -> (r: Result<String, ApiError>)
    requires
        uptime_in_range(queried),
    ensures
        match queried {
            Ok(s) => r is Ok && r->Ok_0@ == hhmmss_text(s as nat),
            Err(m) => fails_with(r, ErrorKind::NotFound, m@),
        },
{
    match queried {
        Ok(s) => Ok(format_hhmmss(s)),
        Err(m) => Err(ApiError::new(ErrorKind::NotFound, m)),
    }
}

/// The counters endpoint: a single record named as asked where a name was
/// given, every interface's record otherwise; failures are `NotFound`.
pub fn net_stats_handler(reading: NetStatsReading) -> (r: Result<NetworkStatsResults, ApiError>)
    ensures
        match reading {
            NetStatsReading::One(name, Ok(c)) => r is Ok && (r->Ok_0 is One && r->Ok_0->One_0@ == (
                name@,
                c,
            )),
            NetStatsReading::One(_, Err(m)) => fails_with(r, ErrorKind::NotFound, m@),
            NetStatsReading::All(Ok(rs)) => {
                &&& r is Ok <==> all_counted(rs@)
                &&& r is Ok ==> (r->Ok_0 is List && stats_view(r->Ok_0->List_0@) == counted_view(
                    rs@,
                ))
                &&& r is Err ==> exists|k: int|
                    first_failure_at(rs@, k) && fails_with(
                        r,
                        ErrorKind::NotFound,
                        rs@[k].counters->Err_0@,
                    )
            },
            NetStatsReading::All(Err(m)) => fails_with(r, ErrorKind::NotFound, m@),
        },
{
    match reading {
        NetStatsReading::One(name, q) => match get_network_stats(name, q) {
            Ok(s) => Ok(NetworkStatsResults::One(s)),
            Err(e) => Err(e),
        },
        NetStatsReading::All(q) => match get_networks_stats(q) {
            Ok(v) => Ok(NetworkStatsResults::List(v)),
            Err(e) => Err(e),
        },
    }
}

} // verus!
