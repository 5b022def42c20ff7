use vstd::prelude::*;

verus! {

/// An interface address as the provider reports it: none, a family this
/// service does not render, or an IPv4 / IPv6 address given by its octets /
/// 16-bit segments in network order.
#[derive(Clone, Copy, Debug, PartialEq, Eq)]
pub enum IpAddr {
    Empty,
    Unsupported,
    V4([u8; 4]),
    V6([u16; 8]),
}

/// One address of an interface, as rendered.
#[derive(Clone, Copy, Debug, PartialEq, Eq)]
pub struct NetworkAddrsDetails {
    pub addr: IpAddr,
}

/// One interface as the provider lists it: its name and addresses.
#[derive(Clone, Debug, PartialEq, Eq)]
pub struct Interface {
    pub name: String,
    pub addrs: Vec<IpAddr>,
}

/// One interface as rendered: its name and addresses.
#[derive(Clone, Debug, PartialEq, Eq)]
pub struct NetworkDetails {
    pub name: String,
    pub addrs: Vec<NetworkAddrsDetails>,
}

/// The interface list.
#[derive(Clone, Debug, PartialEq, Eq)]
pub struct NetworkResult {
    pub networks: Vec<NetworkDetails>,
}

/// Cumulative traffic counters of one interface, as the provider reports them.
#[derive(Clone, Copy, Debug, PartialEq, Eq)]
pub struct InterfaceCounters {
    pub rx_bytes: u64,
    pub tx_bytes: u64,
    pub rx_packets: u64,
    pub tx_packets: u64,
    pub rx_errors: u64,
    pub tx_errors: u64,
}

/// What the provider answered when asked for the counters of the interface
/// called `name`.
#[derive(Debug, PartialEq, Eq)]
pub struct CounterReading {
    pub name: String,
    pub counters: Result<InterfaceCounters, String>,
}

/// The counters of one interface, as rendered; the interface is named by
/// the field `name`.
#[derive(Clone, Debug, PartialEq, Eq)]
pub struct NetworkStats {
    pub name: String,
    pub rx_bytes: u64,
    pub tx_bytes: u64,
    pub rx_packets: u64,
    pub tx_packets: u64,
    pub rx_errors: u64,
    pub tx_errors: u64,
}

/// The answer of the counters endpoint: one interface when a name was
/// asked for, every interface otherwise.
#[derive(Clone, Debug, PartialEq, Eq)]
pub enum NetworkStatsResults {
    One(NetworkStats),
    List(Vec<NetworkStats>),
}

/// Memory totals in bytes; `used` is `total - free`, or zero where `free`
/// exceeds `total`.
#[derive(Clone, Copy, Debug, PartialEq, Eq)]
pub struct Memory {
    pub total: u64,
    pub free: u64,
    pub used: u64,
}

/// One mounted filesystem.
#[derive(Clone, Debug, PartialEq, Eq)]
pub struct Filesystem {
    pub files: usize,
    pub files_total: usize,
    pub files_avail: usize,
    pub free: u64,
    pub avail: u64,
    pub total: u64,
    pub name_max: usize,
    pub fs_type: String,
    pub fs_mounted_from: String,
    pub fs_mounted_on: String,
}

impl View for Interface {
    type V = (Seq<char>, Seq<IpAddr>);

    open spec fn view(&self) -> (Seq<char>, Seq<IpAddr>) {
        (self.name@, self.addrs@)
    }
}

impl View for NetworkDetails {
    type V = (Seq<char>, Seq<IpAddr>);

    open spec fn view(&self) -> (Seq<char>, Seq<IpAddr>) {
        (self.name@, self.addrs@.map_values(|d: NetworkAddrsDetails| d.addr))
    }
}

impl View for NetworkStats {
    type V = (Seq<char>, InterfaceCounters);

    open spec fn view(&self) -> (Seq<char>, InterfaceCounters) {
        (
            self.name@,
            InterfaceCounters {
                rx_bytes: self.rx_bytes,
                tx_bytes: self.tx_bytes,
                rx_packets: self.rx_packets,
                tx_packets: self.tx_packets,
                rx_errors: self.rx_errors,
                tx_errors: self.tx_errors,
            },
        )
    }
}

impl View for NetworkResult {
    type V = Seq<(Seq<char>, Seq<IpAddr>)>;

    open spec fn view(&self) -> Seq<(Seq<char>, Seq<IpAddr>)> {
        self.networks@.map_values(|d: NetworkDetails| d@)
    }
}

/// The rendered form of a listing of interfaces: each name and its addresses.
pub open spec fn interfaces_view(ifs: Seq<Interface>) -> Seq<(Seq<char>, Seq<IpAddr>)> {
    ifs.map_values(|i: Interface| i@)
}

/// The rendered form of a list of counter records.
pub open spec fn stats_view(s: Seq<NetworkStats>) -> Seq<(Seq<char>, InterfaceCounters)> {
    s.map_values(|n: NetworkStats| n@)
}

impl NetworkStats {
    /// The record for interface `name` with the given counters.
    pub fn from_counters(name: String, c: InterfaceCounters) -> (r: NetworkStats)
        ensures
            r@ == (name@, c),
    {
        NetworkStats {
            name,
            rx_bytes: c.rx_bytes,
            tx_bytes: c.tx_bytes,
            rx_packets: c.rx_packets,
            tx_packets: c.tx_packets,
            rx_errors: c.rx_errors,
            tx_errors: c.tx_errors,
        }
    }
}

} // verus!
