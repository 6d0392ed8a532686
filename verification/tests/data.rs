use nganjo::data::{bar, filled_cells, tenths_of, DiskSample, NetSample, ProcSample, Sample, SystemData};

fn iface(name: &str, up: bool) -> NetSample {
    NetSample {
        name: name.to_string(),
        ip: "10.0.0.1".to_string(),
        received: if up { 5 } else { 0 },
        transmitted: 0,
        total_sent: 7,
        total_recv: 9,
    }
}

fn proc_sample(pid: u32, cpu: u32, memory: u64) -> ProcSample {
    ProcSample { pid, name: format!("p{pid}"), cpu, memory, status: "Sleep".to_string(), user: "0".to_string() }
}

#[test]
fn shares_in_tenths_round_half_up() {
    assert_eq!(tenths_of(1, 3), 333);
    assert_eq!(tenths_of(2, 3), 667);
    assert_eq!(tenths_of(1, 2000), 1);
    assert_eq!(tenths_of(5, 0), 0);
    assert_eq!(tenths_of(u64::MAX, 1), u32::MAX);
}

#[test]
fn bars_fill_by_share() {
    assert_eq!(bar(500, 10), "█████░░░░░");
    assert_eq!(bar(0, 4), "░░░░");
    assert_eq!(bar(2000, 4), "████");
    assert_eq!(filled_cells(560, 8), 4);
    assert_eq!(filled_cells(570, 8), 5);
}

#[test]
fn a_sample_becomes_the_figures_shown() {
    let mut d = SystemData::new();
    assert_eq!(d.uptime_str(), "0h 0m");
    let sample = Sample {
        cpu_pct: 123,
        mem_used: 1500,
        mem_total: 2_000_000,
        uptime_secs: 3 * 3600 + 25 * 60 + 59,
        disks: vec![
            DiskSample { device: "/dev/a".to_string(), mount: "/boot".to_string(), fstype: "vfat".to_string(), total: 100, available: 50 },
            DiskSample { device: "/dev/b".to_string(), mount: "/".to_string(), fstype: "ext4".to_string(), total: 1000, available: 900 },
        ],
        procs: (0..250).map(|i| proc_sample(i, i % 7, 1000)).collect(),
        ifaces: vec![iface("lo", true), iface("eth0", true), iface("wlan0", false), iface("a", true), iface("b", true), iface("c", true)],
    };
    d.refresh(sample);
    assert_eq!(d.cpu_pct, 123);
    assert_eq!(d.mem_pct, 1);
    assert_eq!(d.disk_pct, 100);
    assert_eq!(d.disks.len(), 2);
    assert_eq!(d.disks[0].pct, 500);
    assert_eq!(d.procs.len(), 200);
    assert!(d.procs.windows(2).all(|w| w[0].cpu >= w[1].cpu));
    assert_eq!(d.procs[0].cpu, 6);
    assert_eq!(d.procs[0].pid, 6);
    assert_eq!(d.procs[0].mem, 1);
    let names: Vec<&str> = d.ifaces.iter().map(|i| i.name.as_str()).collect();
    assert_eq!(names, vec!["eth0", "wlan0", "a", "b"]);
    let ups: Vec<bool> = d.ifaces.iter().map(|i| i.up).collect();
    assert_eq!(ups, vec![true, false, true, true]);
    assert_eq!((d.ifaces[0].bytes_sent, d.ifaces[0].bytes_recv), (7, 9));
    assert_eq!(d.uptime_str(), "3h 25m");
    assert_eq!(d.mem_str(), "1.5 KB / 2.0 MB");
}

#[test]
fn root_use_is_kept_when_no_root_is_mounted() {
    let mut d = SystemData::new();
    let with_root = Sample {
        cpu_pct: 0, mem_used: 0, mem_total: 0, uptime_secs: 0,
        disks: vec![DiskSample { device: "r".to_string(), mount: "/".to_string(), fstype: "x".to_string(), total: 10, available: 5 }],
        procs: vec![], ifaces: vec![],
    };
    d.refresh(with_root);
    assert_eq!(d.disk_pct, 500);
    let without = Sample { cpu_pct: 0, mem_used: 0, mem_total: 0, uptime_secs: 0, disks: vec![], procs: vec![], ifaces: vec![] };
    d.refresh(without);
    assert_eq!(d.disk_pct, 500);
    assert_eq!(d.mem_str(), "0 B / 0 B");
}

#[test]
fn an_interface_is_up_when_it_sent_or_received() {
    let mut d = SystemData::new();
    let net = |r: u64, t: u64| NetSample { name: "e".to_string(), ip: String::new(), received: r, transmitted: t, total_sent: 0, total_recv: 0 };
    let sample = Sample {
        cpu_pct: 0, mem_used: 0, mem_total: 0, uptime_secs: 0, disks: vec![], procs: vec![],
        ifaces: vec![net(0, 0), net(0, 3), net(2, 0)],
    };
    d.refresh(sample);
    let ups: Vec<bool> = d.ifaces.iter().map(|i| i.up).collect();
    assert_eq!(ups, vec![false, true, true]);
}
