//! One function per metric family: each takes what the provider answered and
//! returns the rendered record, or the failure filed under its kind.
use vstd::prelude::*;

use crate::error::{bad_request, fails_with, not_found, ApiError, ErrorKind};
use crate::outside::saturating_sub_bytes;
use crate::types::{
    interfaces_view, stats_view, CounterReading, Filesystem, Interface, InterfaceCounters, IpAddr,
    Memory, NetworkAddrsDetails, NetworkDetails, NetworkResult, NetworkStats,
};

verus! {

/// Every reading in `rs` holds counters.
pub open spec fn all_counted(rs: Seq<CounterReading>) -> bool {
    forall|i: int| 0 <= i < rs.len() ==> (#[trigger] rs[i]).counters is Ok
}

/// Reading `i` is the first in `rs` whose counters could not be read.
pub open spec fn first_failure_at(rs: Seq<CounterReading>, i: int) -> bool {
    &&& 0 <= i < rs.len()
    &&& rs[i].counters is Err
    &&& forall|j: int| 0 <= j < i ==> (#[trigger] rs[j]).counters is Ok
}

/// The rendered records of readings that all hold counters.
pub open spec fn counted_view(rs: Seq<CounterReading>) -> Seq<(Seq<char>, InterfaceCounters)> {
    rs.map_values(|c: CounterReading| (c.name@, c.counters->Ok_0))
}

/// `r` is the outcome owed for the readings `rs`: every record where all
/// readings hold counters, else the first failure's text under `NotFound`.
pub open spec fn stats_outcome(rs: Seq<CounterReading>, r: Result<Vec<NetworkStats>, ApiError>) -> bool {
    &&& r is Ok <==> all_counted(rs)
    &&& r is Ok ==> stats_view(r->Ok_0@) == counted_view(rs)
    &&& r is Err ==> exists|k: int|
        first_failure_at(rs, k) && fails_with(r, ErrorKind::NotFound, rs[k].counters->Err_0@)
}

/// The memory record of the given totals.
pub open spec fn memory_of(total: u64, free: u64) -> Memory {
    Memory { total, free, used: if free <= total { (total - free) as u64 } else { 0 } }
}

/// The message given when the host's name is not valid text.
pub open spec fn invalid_hostname_message() -> Seq<char> {
    "Unable to get hostname"@
}

/// The time since boot, in whole seconds; a failure is `NotFound`.
pub fn get_uptime(queried: Result<u64, String>) -> (r: Result<u64, ApiError>)
    ensures
        match queried {
            Ok(s) => r == Ok::<u64, ApiError>(s),
            Err(m) => fails_with(r, ErrorKind::NotFound, m@),
        },
{
    not_found(queried)
}

/// The addresses of one interface, each as a rendered record, in order.
pub fn get_network_addrs(addrs: &Vec<IpAddr>) -> (r: Vec<NetworkAddrsDetails>)
    ensures
        r@.map_values(|d: NetworkAddrsDetails| d.addr) == addrs@,
{
    let mut out: Vec<NetworkAddrsDetails> = Vec::new();
    let mut i: usize = 0;
    while i < addrs.len()
        invariant
            i <= addrs@.len(),
            out@.len() == i,
            forall|k: int| 0 <= k < i ==> (#[trigger] out@[k]).addr == addrs@[k],
        decreases addrs@.len() - i,
    {
        out.push(NetworkAddrsDetails { addr: addrs[i] });
        i = i + 1;
    }
    assert(out@.map_values(|d: NetworkAddrsDetails| d.addr) =~= addrs@);
    out
}

/// The interface list, in the provider's order, each interface with its
/// name and addresses; a failure is `NotFound`.
pub fn get_networks(queried: Result<Vec<Interface>, String>) -> (r: Result<NetworkResult, ApiError>)
    ensures
        match queried {
            Ok(ifs) => r is Ok && r->Ok_0@ == interfaces_view(ifs@),
            Err(m) => fails_with(r, ErrorKind::NotFound, m@),
        },
{
    let ifs = match not_found(queried) {
        Ok(ifs) => ifs,
        Err(e) => return Err(e),
    };
    let mut networks: Vec<NetworkDetails> = Vec::new();
    let mut i: usize = 0;
    while i < ifs.len()
        invariant
            i <= ifs@.len(),
            networks@.len() == i,
            forall|k: int| 0 <= k < i ==> (#[trigger] networks@[k])@ == ifs@[k]@,
        decreases ifs@.len() - i,
    {
        let details = NetworkDetails {
            name: ifs[i].name.clone(),
            addrs: get_network_addrs(&ifs[i].addrs),
        };
        networks.push(details);
        i = i + 1;
    }
    let r = NetworkResult { networks };
    assert(r@ =~= interfaces_view(ifs@));
    Ok(r)
}

/// The counters of the interface called `name`; a failure (an unknown name
/// among them) is `NotFound`.
pub fn get_network_stats(name: String, queried: Result<InterfaceCounters, String>) -> (r: Result<
    NetworkStats,
    ApiError,
>)
    ensures
        match queried {
            Ok(c) => r is Ok && r->Ok_0@ == (name@, c),
            Err(m) => fails_with(r, ErrorKind::NotFound, m@),
        },
{
    match not_found(queried) {
        Ok(c) => Ok(NetworkStats::from_counters(name, c)),
        Err(e) => Err(e),
    }
}

/// The counters of every listed interface, in the listing's order. A failed
/// listing is `NotFound`; so is the whole call where the counters of any one
/// interface could not be read, with the first such failure's text.
pub fn get_networks_stats(queried: Result<Vec<CounterReading>, String>) -> (r: Result<
    Vec<NetworkStats>,
    ApiError,
>)
    ensures
        match queried {
            Ok(rs) => stats_outcome(rs@, r),
            Err(m) => fails_with(r, ErrorKind::NotFound, m@),
        },
{
    let rs = match not_found(queried) {
        Ok(rs) => rs,
        Err(e) => return Err(e),
    };
    let mut out: Vec<NetworkStats> = Vec::new();
    let mut i: usize = 0;
    while i < rs.len()
        invariant
            queried == Ok::<Vec<CounterReading>, String>(rs),
            i <= rs@.len(),
            out@.len() == i,
            forall|k: int| 0 <= k < i ==> (#[trigger] rs@[k]).counters is Ok,
            forall|k: int|
                0 <= k < i ==> (#[trigger] out@[k])@ == (rs@[k].name@, rs@[k].counters->Ok_0),
        decreases rs@.len() - i,
    {
        match &rs[i].counters {
            Ok(c) => {
                out.push(NetworkStats::from_counters(rs[i].name.clone(), *c));
            },
            Err(m) => {
                assert(first_failure_at(rs@, i as int));
                return Err(ApiError::new(ErrorKind::NotFound, m.clone()));
            },
        }
        i = i + 1;
    }
    assert(stats_view(out@) =~= counted_view(rs@));
    Ok(out)
}

impl Memory {
    /// The record of the given totals, with `used` the saturating difference.
    pub fn from_totals(total: u64, free: u64) -> (r: Memory)
        ensures
            r == memory_of(total, free),
    {
        Memory { total, free, used: saturating_sub_bytes(total, free) }
    }
}

/// Memory totals from the provider's `(total, free)` in bytes; a failure is
/// `BadRequest`.
pub fn get_memory(queried: Result<(u64, u64), String>) -> (r: Result<Memory, ApiError>)
    ensures
        match queried {
            Ok((total, free)) => r == Ok::<Memory, ApiError>(memory_of(total, free)),
            Err(m) => fails_with(r, ErrorKind::BadRequest, m@),
        },
{
    match bad_request(queried) {
        Ok((total, free)) => Ok(Memory::from_totals(total, free)),
        Err(e) => Err(e),
    }
}

/// The mounted filesystems, one record each, in the provider's order; a
/// failure is `BadRequest`.
pub fn get_drives(queried: Result<Vec<Filesystem>, String>) -> (r: Result<Vec<Filesystem>, ApiError>)
    ensures
        match queried {
            Ok(v) => r == Ok::<Vec<Filesystem>, ApiError>(v),
            Err(m) => fails_with(r, ErrorKind::BadRequest, m@),
        },
{
    bad_request(queried)
}

/// The host's name. The provider answers with the name, `None` where the
/// name is not valid text, or a failure. Both failures are `BadRequest`.
pub fn get_hostname(queried: Result<Option<String>, String>) -> (r: Result<String, ApiError>)
    ensures
        match queried {
            Ok(Some(n)) => r == Ok::<String, ApiError>(n),
            Ok(None) => fails_with(r, ErrorKind::BadRequest, invalid_hostname_message()),
            Err(m) => fails_with(r, ErrorKind::BadRequest, m@),
        },
{
    match bad_request(queried) {
        Ok(Some(n)) => Ok(n),
        Ok(None) => {
            let text = "Unable to get hostname".to_string();
            Err(ApiError::new(ErrorKind::BadRequest, text))
        },
        Err(e) => Err(e),
    }
}

} // verus!
