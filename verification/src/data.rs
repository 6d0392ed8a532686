//! System figures: what a sampling of the machine gives, reduced to what
//! the console shows.

use vstd::prelude::*;
use crate::outside::{byte_size, byte_size_text};
use crate::text::chars_of;
use crate::panels::disk::DiskInfo;
use crate::panels::procs::{proc_before, sort_procs, ProcInfo, SortBy};
use crate::sort::{reversed, stable_sorted};
use crate::text::{decimal, decimal_chars, extend, first_n, to_string};

verus! {

/// `part` as tenths of a percent of `whole`, rounded half up; 0 when
/// `whole` is 0.
pub open spec fn tenths(part: nat, whole: nat) -> nat {
    if whole == 0 {
        0
    } else {
        (2000 * part + whole) / (2 * whole)
    }
}

/// `part` as tenths of a percent of `whole` (see `tenths`), at most
/// `u32::MAX`.
pub fn tenths_of(part: u64, whole: u64) -> (r: u32)
    ensures
        tenths(part as nat, whole as nat) <= u32::MAX ==> r == tenths(part as nat, whole as nat),
        tenths(part as nat, whole as nat) > u32::MAX ==> r == u32::MAX,
{
    if whole == 0 {
        return 0;
    }
    let num: u128 = 2000 * (part as u128) + (whole as u128);
    let den: u128 = 2 * (whole as u128);
    let q = num / den;
    if q > 0xffff_ffffu128 {
        0xffff_ffffu32
    } else {
        q as u32
    }
}

/// The number of filled cells in a bar of `width` cells for a share of
/// `pct` tenths of a percent: the share of the width, rounded half up, at
/// most the width.
pub open spec fn bar_cells(pct: u32, width: nat) -> nat {
    let f = (2 * pct * width + 1000) / 2000;
    if f <= width {
        f as nat
    } else {
        width
    }
}

/// `n` copies of `c`.
pub open spec fn repeated(c: char, n: nat) -> Seq<char> {
    Seq::new(n, |i: int| c)
}

/// A bar of `width` cells: filled cells `█`, then empty cells `░`.
pub open spec fn bar_text(pct: u32, width: nat) -> Seq<char> {
    repeated('█', bar_cells(pct, width)) + repeated('░', (width - bar_cells(pct, width)) as nat)
}

/// The number of filled cells for `pct` in a bar of `width` cells.
pub fn filled_cells(pct: u32, width: usize) -> (r: usize)
    ensures
        r == bar_cells(pct, width as nat),
{
    let a = pct as u128;
    let b = width as u128;
    proof {
        assert(a * b <= 0xffff_ffffu128 * 0xffff_ffff_ffff_ffffu128) by (nonlinear_arith)
            requires
                a <= 0xffff_ffffu128,
                b <= 0xffff_ffff_ffff_ffffu128,
        ;
    }
    let prod = a * b;
    let f: u128 = (2 * prod + 1000) / 2000;
    proof {
        assert(2 * prod == 2 * pct * width) by (nonlinear_arith)
            requires
                prod == a * b,
                a == pct,
                b == width,
        ;
    }
    if f <= width as u128 {
        f as usize
    } else {
        width
    }
}

fn push_n(v: &mut Vec<char>, c: char, n: usize)
    ensures
        final(v)@ == old(v)@ + repeated(c, n as nat),
{
    let mut i: usize = 0;
    while i < n
        invariant
            i <= n,
            v@ == old(v)@ + repeated(c, i as nat),
        decreases n - i,
    {
        v.push(c);
        i = i + 1;
        proof {
            assert(v@ =~= old(v)@ + repeated(c, i as nat));
        }
    }
}

/// A bar of `width` cells for a share of `pct` tenths of a percent.
pub fn bar(pct: u32, width: usize) -> (s: String)
    ensures
        s@ == bar_text(pct, width as nat),
{
    let filled = filled_cells(pct, width);
    let mut v: Vec<char> = Vec::new();
    push_n(&mut v, '█', filled);
    push_n(&mut v, '░', width - filled);
    proof {
        assert(v@ =~= bar_text(pct, width as nat));
    }
    to_string(&v)
}

/// A network interface.
pub struct NetIface {
    pub name: String,
    pub ip: String,
    /// Whether it moved any bytes since the previous sample.
    pub up: bool,
    pub bytes_sent: u64,
    pub bytes_recv: u64,
}

/// A network interface as sampled.
pub struct NetSample {
    pub name: String,
    pub ip: String,
    /// Bytes received since the previous sample.
    pub received: u64,
    /// Bytes sent since the previous sample.
    pub transmitted: u64,
    /// Bytes sent in all.
    pub total_sent: u64,
    /// Bytes received in all.
    pub total_recv: u64,
}

/// The interface row for a sample: up when it moved any bytes since the
/// previous sample.
pub open spec fn iface_from_sample(n: NetSample) -> NetIface {
    NetIface {
        name: n.name,
        ip: n.ip,
        up: n.received > 0 || n.transmitted > 0,
        bytes_sent: n.total_sent,
        bytes_recv: n.total_recv,
    }
}

/// The interface rows for samples, one for one.
pub open spec fn ifaces_from_samples(v: Seq<NetSample>) -> Seq<NetIface> {
    v.map_values(|n: NetSample| iface_from_sample(n))
}

/// A file system as sampled.
pub struct DiskSample {
    pub device: String,
    pub mount: String,
    pub fstype: String,
    pub total: u64,
    pub available: u64,
}

/// A process as sampled.
pub struct ProcSample {
    pub pid: u32,
    pub name: String,
    /// CPU use in tenths of a percent of one core.
    pub cpu: u32,
    /// Resident memory in bytes.
    pub memory: u64,
    pub status: String,
    pub user: String,
}

/// One sampling of the machine.
pub struct Sample {
    /// Average CPU use over all cores, in tenths of a percent.
    pub cpu_pct: u32,
    pub mem_used: u64,
    pub mem_total: u64,
    pub uptime_secs: u64,
    pub disks: Vec<DiskSample>,
    pub procs: Vec<ProcSample>,
    pub ifaces: Vec<NetSample>,
}

/// The figures the console shows.
pub struct SystemData {
    /// Average CPU use, tenths of a percent.
    pub cpu_pct: u32,
    /// Memory in use, tenths of a percent.
    pub mem_pct: u32,
    pub mem_used: u64,
    pub mem_total: u64,
    /// Use of the root file system, tenths of a percent.
    pub disk_pct: u32,
    pub uptime_secs: u64,
    /// Up to `MAX_PROCS` processes, highest CPU use first.
    pub procs: Vec<ProcInfo>,
    pub disks: Vec<DiskInfo>,
    /// Up to four interfaces, loopback left out.
    pub ifaces: Vec<NetIface>,
}

/// The most processes kept from a sample.
pub const MAX_PROCS: usize = 200;

/// The most network interfaces shown.
pub const MAX_IFACES: usize = 4;

/// A number in `u32` range, or `u32::MAX` when above it.
pub open spec fn capped(n: nat) -> u32 {
    if n <= u32::MAX {
        n as u32
    } else {
        u32::MAX
    }
}

/// The interfaces among the first `n` whose name is not `lo`.
pub open spec fn named_ifaces(v: Seq<NetIface>, n: int) -> Seq<NetIface>
    decreases n,
{
    if n <= 0 {
        Seq::empty()
    } else if v[n - 1].name@ == "lo"@ {
        named_ifaces(v, n - 1)
    } else {
        named_ifaces(v, n - 1).push(v[n - 1])
    }
}

/// The interfaces shown for a sample: the first four that are not `lo`.
pub open spec fn shown_ifaces(v: Seq<NetIface>) -> Seq<NetIface> {
    first_n(named_ifaces(v, v.len() as int), MAX_IFACES as nat)
}

/// The use of the last file system mounted at `/` among the first `n`, or
/// `prev` when there is none.
pub open spec fn root_pct(disks: Seq<DiskInfo>, n: int, prev: u32) -> u32
    decreases n,
{
    if n <= 0 {
        prev
    } else if disks[n - 1].mount@ == "/"@ {
        disks[n - 1].pct
    } else {
        root_pct(disks, n - 1, prev)
    }
}

/// `p` is the process row for the sample `s` on a machine with
/// `mem_total` bytes of memory.
pub open spec fn proc_from_sample(p: ProcInfo, s: ProcSample, mem_total: u64) -> bool {
    &&& p.pid == s.pid
    &&& p.name == s.name
    &&& p.cpu == s.cpu
    &&& p.mem == capped(tenths(s.memory as nat, mem_total as nat))
    &&& p.status == s.status
    &&& p.user == s.user
}

/// `rows` are the process rows for the samples, one for one.
pub open spec fn proc_rows(rows: Seq<ProcInfo>, samples: Seq<ProcSample>, mem_total: u64) -> bool {
    &&& rows.len() == samples.len()
    &&& forall|i: int| 0 <= i < rows.len() ==> proc_from_sample(#[trigger] rows[i], samples[i], mem_total)
}

/// Highest CPU use first.
pub open spec fn by_cpu() -> spec_fn(ProcInfo, ProcInfo) -> bool {
    |a: ProcInfo, b: ProcInfo| proc_before(SortBy::Cpu, a, b)
}

/// `d` is the disk row for the sample `s`.
pub open spec fn disk_from_sample(d: DiskInfo, s: DiskSample) -> bool {
    &&& d.device == s.device
    &&& d.mount == s.mount
    &&& d.fstype == s.fstype
    &&& d.total == s.total
    &&& d.available == s.available
    &&& d.used == (if s.total >= s.available { s.total - s.available } else { 0 })
    &&& d.pct == capped(tenths(d.used as nat, s.total as nat))
}

/// The text of an uptime: whole hours, then minutes (`"<h>h <m>m"`).
pub open spec fn uptime_text(secs: u64) -> Seq<char> {
    decimal((secs / 3600) as nat) + "h "@ + decimal(((secs % 3600) / 60) as nat) + "m"@
}

/// The memory figure: used and total in human-readable units.
pub open spec fn mem_text(used: u64, total: u64) -> Seq<char> {
    byte_size_text(used) + " / "@ + byte_size_text(total)
}

fn ifaces_of(v: Vec<NetSample>) -> (r: Vec<NetIface>)
    ensures
        r@ == ifaces_from_samples(v@),
{
    let ghost orig = v@;
    let mut rest = reversed(v);
    let mut r: Vec<NetIface> = Vec::new();
    proof {
        assert(orig.subrange(0, orig.len() as int) =~= orig);
    }
    while rest.len() > 0
        invariant
            rest@ == orig.subrange(r.len() as int, orig.len() as int).reverse(),
            r.len() <= orig.len(),
            forall|k: int| 0 <= k < r.len() ==> #[trigger] r@[k] == iface_from_sample(orig[k]),
        decreases rest.len(),
    {
        proof {
            assert(rest@.last() == orig[r.len() as int]);
        }
        let n = rest.pop().unwrap();
        let up = n.received > 0 || n.transmitted > 0;
        r.push(NetIface { name: n.name, ip: n.ip, up, bytes_sent: n.total_sent, bytes_recv: n.total_recv });
        proof {
            assert(rest@ =~= orig.subrange(r.len() as int, orig.len() as int).reverse());
        }
    }
    proof {
        assert(r@ =~= ifaces_from_samples(orig));
    }
    r
}

fn select_ifaces(v: Vec<NetIface>) -> (r: Vec<NetIface>)
    ensures
        r@ == shown_ifaces(v@),
{
    let ghost orig = v@;
    let mut rest = reversed(v);
    proof {
        assert(orig.subrange(0, orig.len() as int) =~= orig);
    }
    let lo = chars_of("lo");
    let mut r: Vec<NetIface> = Vec::new();
    let ghost mut taken: int = 0;
    while rest.len() > 0 && r.len() < MAX_IFACES
        invariant
            rest@ == orig.subrange(taken, orig.len() as int).reverse(),
            0 <= taken <= orig.len(),
            rest.len() == orig.len() - taken,
            r@ == named_ifaces(orig, taken),
            r.len() <= MAX_IFACES,
            lo@ == "lo"@,
        decreases rest.len(),
    {
        let x = rest.pop().unwrap();
        proof {
            assert(x == orig[taken]);
            taken = taken + 1;
            assert(rest@ =~= orig.subrange(taken, orig.len() as int).reverse());
        }
        let name = chars_of(x.name.as_str());
        if !crate::text::same_chars(&name, &lo) {
            r.push(x);
        }
    }
    proof {
        lemma_named_grow(orig, taken, orig.len() as int);
        if r.len() >= MAX_IFACES {
            assert(named_ifaces(orig, orig.len() as int).subrange(0, MAX_IFACES as int) =~= r@);
        } else {
            assert(taken == orig.len());
        }
    }
    r
}

proof fn lemma_named_grow(v: Seq<NetIface>, m: int, n: int)
    requires
        0 <= m <= n,
    ensures
        named_ifaces(v, m).len() <= named_ifaces(v, n).len(),
        named_ifaces(v, n).subrange(0, named_ifaces(v, m).len() as int) == named_ifaces(v, m),
    decreases n - m,
{
    let a = named_ifaces(v, m);
    if m < n {
        lemma_named_grow(v, m, n - 1);
        let b = named_ifaces(v, n - 1);
        let c = named_ifaces(v, n);
        assert(c.subrange(0, b.len() as int) =~= b);
        assert(c.subrange(0, a.len() as int) =~= b.subrange(0, a.len() as int));
    } else {
        assert(a.subrange(0, a.len() as int) =~= a);
    }
}

/// `new` is `old` after taking in the sample `s`: CPU share, memory
/// figures and share, uptime, one disk row per disk sample and the root
/// disk's share (kept from `old` when no file system is mounted at `/`),
/// process rows sorted by CPU use and cut to `MAX_PROCS`, and the
/// interfaces to show.
pub open spec fn refreshed(old: SystemData, s: Sample, new: SystemData) -> bool {
    &&& new.cpu_pct == s.cpu_pct
    &&& new.mem_used == s.mem_used
    &&& new.mem_total == s.mem_total
    &&& new.mem_pct == capped(tenths(s.mem_used as nat, s.mem_total as nat))
    &&& new.uptime_secs == s.uptime_secs
    &&& new.disks@.len() == s.disks@.len()
    &&& forall|i: int| 0 <= i < s.disks@.len() ==> disk_from_sample(#[trigger] new.disks@[i], s.disks@[i])
    &&& new.disk_pct == root_pct(new.disks@, new.disks@.len() as int, old.disk_pct)
    &&& exists|rows: Seq<ProcInfo>, sorted: Seq<ProcInfo>|
        #![trigger proc_rows(rows, s.procs@, s.mem_total), stable_sorted(rows, sorted, by_cpu())]
        {
            &&& proc_rows(rows, s.procs@, s.mem_total)
            &&& stable_sorted(rows, sorted, by_cpu())
            &&& new.procs@ == first_n(sorted, MAX_PROCS as nat)
        }
    &&& new.ifaces@ == shown_ifaces(ifaces_from_samples(s.ifaces@))
}

impl SystemData {
    /// Figures before the first sample: all zero and empty.
    pub fn new() -> (d: SystemData)
        ensures
            d.cpu_pct == 0 && d.mem_pct == 0 && d.mem_used == 0 && d.mem_total == 0,
            d.disk_pct == 0 && d.uptime_secs == 0,
            d.procs@.len() == 0 && d.disks@.len() == 0 && d.ifaces@.len() == 0,
    {
        SystemData {
            cpu_pct: 0,
            mem_pct: 0,
            mem_used: 0,
            mem_total: 0,
            disk_pct: 0,
            uptime_secs: 0,
            procs: Vec::new(),
            disks: Vec::new(),
            ifaces: Vec::new(),
        }
    }

    /// Takes in a new sample: memory share, disk rows and the root disk's
    /// share (kept from before when no file system is mounted at `/`),
    /// process rows sorted by CPU use and cut to `MAX_PROCS`, and the
    /// interfaces to show.
    pub fn refresh(&mut self, s: Sample)
        ensures
            refreshed(*old(self), s, *final(self)),
    {
        let Sample { cpu_pct, mem_used, mem_total, uptime_secs, disks, procs, ifaces } = s;
        self.cpu_pct = cpu_pct;
        self.mem_total = mem_total;
        self.mem_used = mem_used;
        self.mem_pct = tenths_of(mem_used, mem_total);
        self.uptime_secs = uptime_secs;

        // disks, in order
        let ghost dsamples = disks@;
        let mut rest = reversed(disks);
        let mut rows: Vec<DiskInfo> = Vec::new();
        let mut root = self.disk_pct;
        let ghost prev = self.disk_pct;
        proof {
            assert(dsamples.subrange(0, dsamples.len() as int) =~= dsamples);
        }
        while rest.len() > 0
            invariant
                rest@ == dsamples.subrange(rows.len() as int, dsamples.len() as int).reverse(),
                rows.len() <= dsamples.len(),
                forall|k: int| 0 <= k < rows.len() ==> disk_from_sample(#[trigger] rows@[k], dsamples[k]),
                root == root_pct(rows@, rows.len() as int, prev),
            decreases rest.len(),
        {
            proof {
                assert(rest@.last() == dsamples[rows.len() as int]);
            }
            let d = rest.pop().unwrap();
            let info = DiskInfo::new(d.device, d.mount, d.fstype, d.total, d.available);
            if crate::text::same_chars(&chars_of(info.mount.as_str()), &chars_of("/")) {
                root = info.pct;
            }
            let ghost old_rows = rows@;
            rows.push(info);
            proof {
                assert(rows@.drop_last() =~= old_rows);
                lemma_root_pct_prefix(rows@, old_rows, prev);
                assert(rest@ =~= dsamples.subrange(rows.len() as int, dsamples.len() as int).reverse());
            }
        }
        self.disks = rows;
        self.disk_pct = root;

        // processes, in order
        let ghost psamples = procs@;
        let mut rest = reversed(procs);
        let mut prows: Vec<ProcInfo> = Vec::new();
        proof {
            assert(psamples.subrange(0, psamples.len() as int) =~= psamples);
        }
        while rest.len() > 0
            invariant
                rest@ == psamples.subrange(prows.len() as int, psamples.len() as int).reverse(),
                prows.len() <= psamples.len(),
                forall|k: int| 0 <= k < prows.len() ==> proc_from_sample(#[trigger] prows@[k], psamples[k], mem_total),
            decreases rest.len(),
        {
            proof {
                assert(rest@.last() == psamples[prows.len() as int]);
            }
            let p = rest.pop().unwrap();
            let mem = tenths_of(p.memory, mem_total);
            prows.push(ProcInfo { pid: p.pid, name: p.name, cpu: p.cpu, mem, status: p.status, user: p.user });
            proof {
                assert(rest@ =~= psamples.subrange(prows.len() as int, psamples.len() as int).reverse());
            }
        }
        let ghost unsorted = prows@;
        sort_procs(&mut prows, SortBy::Cpu);
        let ghost sorted = prows@;
        if prows.len() > MAX_PROCS {
            prows.truncate(MAX_PROCS);
        }
        proof {
            assert(prows@ =~= first_n(sorted, MAX_PROCS as nat));
            assert(proc_rows(unsorted, psamples, mem_total));
            assert(stable_sorted(unsorted, sorted, by_cpu()));
        }
        self.procs = prows;
        self.ifaces = select_ifaces(ifaces_of(ifaces));
    }

    /// The uptime as `"<h>h <m>m"`.
    pub fn uptime_str(&self) -> (s: String)
        ensures
            s@ == uptime_text(self.uptime_secs),
    {
        let h = self.uptime_secs / 3600;
        let m = (self.uptime_secs % 3600) / 60;
        let mut v = decimal_chars(h);
        extend(&mut v, &chars_of("h "));
        extend(&mut v, &decimal_chars(m));
        extend(&mut v, &chars_of("m"));
        to_string(&v)
    }

    /// The memory figure, used over total, in human-readable units.
    pub fn mem_str(&self) -> (s: String)
        ensures
            s@ == mem_text(self.mem_used, self.mem_total),
    {
        let mut v = chars_of(byte_size(self.mem_used).as_str());
        extend(&mut v, &chars_of(" / "));
        extend(&mut v, &chars_of(byte_size(self.mem_total).as_str()));
        to_string(&v)
    }
}

proof fn lemma_root_pct_prefix(rows: Seq<DiskInfo>, old_rows: Seq<DiskInfo>, prev: u32)
    requires
        rows.len() == old_rows.len() + 1,
        rows.drop_last() == old_rows,
    ensures
        root_pct(rows, rows.len() - 1, prev) == root_pct(old_rows, old_rows.len() as int, prev),
{
    lemma_root_pct_same(rows, old_rows, old_rows.len() as int, prev);
}

proof fn lemma_root_pct_same(a: Seq<DiskInfo>, b: Seq<DiskInfo>, n: int, prev: u32)
    requires
        0 <= n <= b.len(),
        n <= a.len(),
        forall|k: int| 0 <= k < n ==> a[k] == b[k],
    ensures
        root_pct(a, n, prev) == root_pct(b, n, prev),
    decreases n,
{
    if n > 0 {
        lemma_root_pct_same(a, b, n - 1, prev);
    }
}

} // verus!
