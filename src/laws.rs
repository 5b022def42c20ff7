//! Properties that hold across the library's functions, stated over the
//! spec functions their contracts use.
use vstd::prelude::*;

use crate::error::{fails_with, kind_status, reply_status, ApiError, ErrorKind};
use crate::stats::{all_counted, counted_view, memory_of, stats_outcome};
use crate::types::{interfaces_view, stats_view, CounterReading, Interface, NetworkStats};

verus! {

/// A successful reply carries status 200; a failure carries the status of
/// its kind (404 for `NotFound`, 400 for `BadRequest`) and, as its body, the
/// provider's text unchanged.
pub proof fn reply_status_law<T>(r: Result<T, ApiError>, kind: ErrorKind, msg: Seq<char>)
    ensures
        r is Ok ==> reply_status(r) == 200,
        fails_with(r, kind, msg) ==> reply_status(r) == kind_status(kind) && r->Err_0.message@
            == msg,
        kind_status(ErrorKind::NotFound) == 404,
        kind_status(ErrorKind::BadRequest) == 400,
{
}

/// Memory in use is `total - free` whenever `free <= total`, and zero,
/// never a wrapped value, when `free` exceeds `total`.
pub proof fn memory_used_law(total: u64, free: u64)
    ensures
        memory_of(total, free).total == total,
        memory_of(total, free).free == free,
        free <= total ==> memory_of(total, free).used == total - free,
        free > total ==> memory_of(total, free).used == 0,
{
}

/// When the counters of every listed interface can be read, the counters
/// endpoint without a name answers with one record per interface that the
/// interface list shows, with the same names in the same order.
pub proof fn net_stats_cover_networks(ifs: Seq<Interface>, rs: Seq<CounterReading>)
    requires
        rs.len() == ifs.len(),
        forall|i: int| 0 <= i < rs.len() ==> (#[trigger] rs[i]).name@ == ifs[i].name@,
        all_counted(rs),
    ensures
        forall|r: Result<Vec<NetworkStats>, ApiError>| #[trigger]
            stats_outcome(rs, r) ==> {
                &&& r is Ok
                &&& stats_view(r->Ok_0@).len() == interfaces_view(ifs).len()
                &&& forall|i: int|
                    0 <= i < ifs.len() ==> (#[trigger] stats_view(r->Ok_0@)[i]).0 == interfaces_view(
                        ifs,
                    )[i].0
            },
{
    assert forall|r: Result<Vec<NetworkStats>, ApiError>| #[trigger]
        stats_outcome(rs, r) implies {
            &&& r is Ok
            &&& stats_view(r->Ok_0@).len() == interfaces_view(ifs).len()
            &&& forall|i: int|
                0 <= i < ifs.len() ==> (#[trigger] stats_view(r->Ok_0@)[i]).0 == interfaces_view(
                    ifs,
                )[i].0
        } by {
        assert(stats_view(r->Ok_0@) == counted_view(rs));
        assert forall|i: int| 0 <= i < ifs.len() implies (#[trigger] stats_view(r->Ok_0@)[i]).0
            == interfaces_view(ifs)[i].0 by {
            assert(counted_view(rs)[i].0 == rs[i].name@);
        }
    }
}

} // verus!
