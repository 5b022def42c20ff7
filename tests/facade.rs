use host_stats::error::{bad_request, not_found, status_of, ApiError, ErrorKind};
use host_stats::handlers::{net_stats_handler, uptime_handler, NetStatsReading};
use host_stats::stats::{
    get_drives, get_hostname, get_memory, get_network_addrs, get_network_stats, get_networks,
    get_networks_stats, get_uptime,
};
use host_stats::types::{
    CounterReading, Filesystem, Interface, InterfaceCounters, IpAddr, Memory, NetworkStatsResults,
};

fn counters(seed: u64) -> InterfaceCounters {
    InterfaceCounters {
        rx_bytes: seed,
        tx_bytes: seed + 1,
        rx_packets: seed + 2,
        tx_packets: seed + 3,
        rx_errors: seed + 4,
        tx_errors: seed + 5,
    }
}

fn mount(on: &str) -> Filesystem {
    Filesystem {
        files: 10,
        files_total: 100,
        files_avail: 90,
        free: 1000,
        avail: 900,
        total: 4000,
        name_max: 255,
        fs_type: "ext4".to_string(),
        fs_mounted_from: "/dev/sda1".to_string(),
        fs_mounted_on: on.to_string(),
    }
}

#[test]
fn uptime_of_3661_seconds_reads_01_01_01() {
    assert_eq!(uptime_handler(Ok(3661)).unwrap(), "01:01:01");
}

#[test]
fn uptime_zero_and_long() {
    assert_eq!(uptime_handler(Ok(0)).unwrap(), "00:00:00");
    assert_eq!(uptime_handler(Ok(59)).unwrap(), "00:00:59");
    assert_eq!(uptime_handler(Ok(360_000)).unwrap(), "100:00:00");
}

#[test]
fn uptime_failure_is_not_found() {
    let e = uptime_handler(Err("no uptime".to_string())).unwrap_err();
    assert_eq!(e.kind, ErrorKind::NotFound);
    assert_eq!(e.message, "no uptime");
    assert_eq!(e.status_code(), 404);
    assert_eq!(get_uptime(Ok(12)).unwrap(), 12);
    assert_eq!(get_uptime(Err("x".to_string())).unwrap_err().kind, ErrorKind::NotFound);
}

#[test]
fn reply_statuses() {
    let ok: Result<u8, ApiError> = Ok(1);
    assert_eq!(status_of(&ok), 200);
    let nf: Result<u8, ApiError> = not_found(Err("gone".to_string()));
    assert_eq!(status_of(&nf), 404);
    assert_eq!(nf.unwrap_err().message, "gone");
    let br: Result<u8, ApiError> = bad_request(Err("bad".to_string()));
    assert_eq!(status_of(&br), 400);
    assert_eq!(br.unwrap_err().message, "bad");
    assert_eq!(ErrorKind::NotFound.status_code(), 404);
    assert_eq!(ErrorKind::BadRequest.status_code(), 400);
}

#[test]
fn memory_used_is_total_minus_free() {
    let m = get_memory(Ok((8_000, 3_000))).unwrap();
    assert_eq!(m, Memory { total: 8_000, free: 3_000, used: 5_000 });
    assert_eq!(Memory::from_totals(7, 7).used, 0);
    assert_eq!(Memory::from_totals(u64::MAX, 0).used, u64::MAX);
}

#[test]
fn memory_used_saturates_at_zero() {
    let m = get_memory(Ok((3_000, 8_000))).unwrap();
    assert_eq!(m.used, 0);
    assert_eq!(m.total, 3_000);
    assert_eq!(m.free, 8_000);
}

#[test]
fn memory_failure_is_bad_request() {
    let e = get_memory(Err("no meminfo".to_string())).unwrap_err();
    assert_eq!(e.kind, ErrorKind::BadRequest);
    assert_eq!(e.message, "no meminfo");
    assert_eq!(e.status_code(), 400);
}

#[test]
fn ipv4_address_keeps_its_octets_in_order() {
    let addrs = vec![IpAddr::V4([192, 168, 1, 1])];
    let out = get_network_addrs(&addrs);
    assert_eq!(out.len(), 1);
    assert_eq!(out[0].addr, IpAddr::V4([192, 168, 1, 1]));
    assert_ne!(out[0].addr, IpAddr::V4([1, 1, 168, 192]));
}

#[test]
fn networks_keep_names_addresses_and_order() {
    let ifs = vec![
        Interface {
            name: "eth0".to_string(),
            addrs: vec![IpAddr::V4([10, 0, 0, 2]), IpAddr::V6([0xfe80, 0, 0, 0, 0, 0, 0, 1])],
        },
        Interface { name: "lo".to_string(), addrs: vec![IpAddr::Empty, IpAddr::Unsupported] },
        Interface { name: "wg0".to_string(), addrs: vec![] },
    ];
    let r = get_networks(Ok(ifs)).unwrap();
    assert_eq!(r.networks.len(), 3);
    assert_eq!(r.networks[0].name, "eth0");
    assert_eq!(r.networks[0].addrs[0].addr, IpAddr::V4([10, 0, 0, 2]));
    assert_eq!(r.networks[0].addrs[1].addr, IpAddr::V6([0xfe80, 0, 0, 0, 0, 0, 0, 1]));
    assert_eq!(r.networks[1].name, "lo");
    assert_eq!(r.networks[1].addrs[0].addr, IpAddr::Empty);
    assert_eq!(r.networks[1].addrs[1].addr, IpAddr::Unsupported);
    assert_eq!(r.networks[2].name, "wg0");
    assert!(r.networks[2].addrs.is_empty());
}

#[test]
fn networks_failure_is_not_found() {
    let e = get_networks(Err("no ifaddrs".to_string())).unwrap_err();
    assert_eq!(e.kind, ErrorKind::NotFound);
    assert_eq!(e.message, "no ifaddrs");
}

#[test]
fn single_interface_stats_carry_the_name_asked_for() {
    let s = get_network_stats("eth0".to_string(), Ok(counters(10))).unwrap();
    assert_eq!(s.name, "eth0");
    assert_eq!(s.rx_bytes, 10);
    assert_eq!(s.tx_bytes, 11);
    assert_eq!(s.rx_packets, 12);
    assert_eq!(s.tx_packets, 13);
    assert_eq!(s.rx_errors, 14);
    assert_eq!(s.tx_errors, 15);
    match net_stats_handler(NetStatsReading::One("eth0".to_string(), Ok(counters(10)))).unwrap() {
        NetworkStatsResults::One(one) => assert_eq!(one, s),
        NetworkStatsResults::List(_) => panic!("expected a single record"),
    }
}

#[test]
fn unknown_interface_is_not_found() {
    let reading = NetStatsReading::One("nope0".to_string(), Err("No such device".to_string()));
    let e = net_stats_handler(reading).unwrap_err();
    assert_eq!(e.kind, ErrorKind::NotFound);
    assert_eq!(e.status_code(), 404);
    assert_eq!(e.message, "No such device");
}

#[test]
fn all_stats_match_the_interface_list() {
    let names = ["eth0", "lo", "wlan0"];
    let ifs: Vec<Interface> =
        names.iter().map(|n| Interface { name: n.to_string(), addrs: vec![] }).collect();
    let rs: Vec<CounterReading> = names
        .iter()
        .enumerate()
        .map(|(i, n)| CounterReading { name: n.to_string(), counters: Ok(counters(i as u64)) })
        .collect();
    let nets = get_networks(Ok(ifs)).unwrap();
    match net_stats_handler(NetStatsReading::All(Ok(rs))).unwrap() {
        NetworkStatsResults::List(list) => {
            assert_eq!(list.len(), nets.networks.len());
            for (s, n) in list.iter().zip(nets.networks.iter()) {
                assert_eq!(s.name, n.name);
            }
            assert_eq!(list[2].rx_bytes, 2);
        }
        NetworkStatsResults::One(_) => panic!("expected a list"),
    }
}

#[test]
fn one_unreadable_interface_fails_the_whole_list() {
    let rs = vec![
        CounterReading { name: "eth0".to_string(), counters: Ok(counters(1)) },
        CounterReading { name: "eth1".to_string(), counters: Err("first".to_string()) },
        CounterReading { name: "eth2".to_string(), counters: Err("second".to_string()) },
    ];
    let e = get_networks_stats(Ok(rs)).unwrap_err();
    assert_eq!(e.kind, ErrorKind::NotFound);
    assert_eq!(e.message, "first");
    let e = get_networks_stats(Err("listing".to_string())).unwrap_err();
    assert_eq!(e.message, "listing");
    assert!(get_networks_stats(Ok(vec![])).unwrap().is_empty());
}

#[test]
fn drives_keep_the_provider_order() {
    let d = get_drives(Ok(vec![mount("/"), mount("/home"), mount("/boot")])).unwrap();
    let on: Vec<&str> = d.iter().map(|f| f.fs_mounted_on.as_str()).collect();
    assert_eq!(on, vec!["/", "/home", "/boot"]);
    assert_eq!(d[0], mount("/"));
    let e = get_drives(Err("no mtab".to_string())).unwrap_err();
    assert_eq!(e.kind, ErrorKind::BadRequest);
    assert_eq!(e.message, "no mtab");
}

#[test]
fn hostname_outcomes() {
    assert_eq!(get_hostname(Ok(Some("box".to_string()))).unwrap(), "box");
    let e = get_hostname(Ok(None)).unwrap_err();
    assert_eq!(e.kind, ErrorKind::BadRequest);
    assert_eq!(e.message, "Unable to get hostname");
    let e = get_hostname(Err("uname failed".to_string())).unwrap_err();
    assert_eq!(e.kind, ErrorKind::BadRequest);
    assert_eq!(e.message, "uname failed");
}
