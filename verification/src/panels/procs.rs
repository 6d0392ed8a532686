//! The process panel: a snapshot of the process table in a chosen order.

use vstd::prelude::*;
use crate::effect::Effect;
use crate::text::chars_of;
use crate::panels::nav::{clamp, clamp_index, step_down, step_up};
use crate::sort::{lemma_lex_key_strict_weak, lex_less, lex_lt, sort_by, stable_sorted, strict_weak};
use crate::text::{decimal, decimal_chars, extend, first_lines, head_lines, to_string};

verus! {

/// A process.
pub struct ProcInfo {
    pub pid: u32,
    pub name: String,
    /// CPU use in tenths of a percent of one core.
    pub cpu: u32,
    /// Resident memory in tenths of a percent of the machine's memory.
    pub mem: u32,
    pub status: String,
    pub user: String,
}

impl ProcInfo {
    /// A copy of the row.
    pub fn copy(&self) -> (r: ProcInfo)
        ensures
            r == *self,
    {
        ProcInfo {
            pid: self.pid,
            name: self.name.clone(),
            cpu: self.cpu,
            mem: self.mem,
            status: self.status.clone(),
            user: self.user.clone(),
        }
    }
}

/// The order in which the panel lists processes.
#[derive(Clone, Copy, PartialEq, Eq, Debug, Structural)]
pub enum SortBy {
    /// Highest CPU use first.
    Cpu,
    /// Highest memory use first.
    Mem,
    /// Lowest process id first.
    Pid,
    /// By name.
    Name,
}

/// The process panel.
pub struct ProcPanel {
    pub idx: usize,
    pub procs: Vec<ProcInfo>,
    pub sort_by: SortBy,
}

/// Whether `a` is listed before `b` in the given order (ties keep the
/// order of the snapshot).
pub open spec fn proc_before(by: SortBy, a: ProcInfo, b: ProcInfo) -> bool {
    match by {
        SortBy::Cpu => a.cpu > b.cpu,
        SortBy::Mem => a.mem > b.mem,
        SortBy::Pid => a.pid < b.pid,
        SortBy::Name => lex_lt(a.name@, b.name@),
    }
}

/// The order that follows `by` when the sort key is cycled.
pub open spec fn next_sort(by: SortBy) -> SortBy {
    match by {
        SortBy::Cpu => SortBy::Mem,
        SortBy::Mem => SortBy::Pid,
        SortBy::Pid => SortBy::Name,
        SortBy::Name => SortBy::Cpu,
    }
}

/// The label of an order.
pub open spec fn sort_name(by: SortBy) -> Seq<char> {
    match by {
        SortBy::Cpu => "cpu"@,
        SortBy::Mem => "mem"@,
        SortBy::Pid => "pid"@,
        SortBy::Name => "name"@,
    }
}

proof fn lemma_proc_order(by: SortBy)
    ensures
        strict_weak(|a: ProcInfo, b: ProcInfo| proc_before(by, a, b)),
{
    let lt = |a: ProcInfo, b: ProcInfo| proc_before(by, a, b);
    if by == SortBy::Name {
        lemma_lex_key_strict_weak(|p: ProcInfo| p.name@);
        let f = |a: ProcInfo, b: ProcInfo| lex_lt((|p: ProcInfo| p.name@)(a), (|p: ProcInfo| p.name@)(b));
        assert(lt =~= f);
    }
}

fn cpu_first(a: &ProcInfo, b: &ProcInfo) -> (r: bool)
    ensures
        r == proc_before(SortBy::Cpu, *a, *b),
{
    a.cpu > b.cpu
}

fn mem_first(a: &ProcInfo, b: &ProcInfo) -> (r: bool)
    ensures
        r == proc_before(SortBy::Mem, *a, *b),
{
    a.mem > b.mem
}

fn pid_first(a: &ProcInfo, b: &ProcInfo) -> (r: bool)
    ensures
        r == proc_before(SortBy::Pid, *a, *b),
{
    a.pid < b.pid
}

fn name_first(a: &ProcInfo, b: &ProcInfo) -> (r: bool)
    ensures
        r == proc_before(SortBy::Name, *a, *b),
{
    lex_less(&chars_of(a.name.as_str()), &chars_of(b.name.as_str()))
}

/// Sorts processes stably in the given order.
pub fn sort_procs(procs: &mut Vec<ProcInfo>, by: SortBy)
    ensures
        stable_sorted(old(procs)@, final(procs)@, |a: ProcInfo, b: ProcInfo| proc_before(by, a, b)),
{
    proof {
        lemma_proc_order(by);
    }
    let ghost lt = |a: ProcInfo, b: ProcInfo| proc_before(by, a, b);
    match by {
        SortBy::Cpu => sort_by(procs, &cpu_first, Ghost(lt)),
        SortBy::Mem => sort_by(procs, &mem_first, Ghost(lt)),
        SortBy::Pid => sort_by(procs, &pid_first, Ghost(lt)),
        SortBy::Name => sort_by(procs, &name_first, Ghost(lt)),
    }
}

/// What the process information view shows: the first 20 lines of
/// `/proc/<pid>/status`, or a note when it could not be read.
pub open spec fn proc_status_report(pid: u32, content: Option<Seq<char>>) -> Seq<char> {
    match content {
        Some(c) => head_lines(c, 20),
        None => "PID "@ + decimal(pid as nat) + " — no /proc info"@,
    }
}

impl ProcPanel {
    /// An empty panel sorted by CPU use.
    pub fn new() -> (p: ProcPanel)
        ensures
            p.idx == 0,
            p.procs@.len() == 0,
            p.sort_by == SortBy::Cpu,
    {
        ProcPanel { idx: 0, procs: Vec::new(), sort_by: SortBy::Cpu }
    }

    /// Shows a fresh snapshot in the panel's order, keeping the cursor on
    /// the list.
    pub fn update(&mut self, procs: Vec<ProcInfo>)
        ensures
            stable_sorted(
                procs@,
                final(self).procs@,
                |a: ProcInfo, b: ProcInfo| proc_before(old(self).sort_by, a, b),
            ),
            final(self).idx == clamp(old(self).idx, procs@.len()),
            final(self).sort_by == old(self).sort_by,
    {
        let mut procs = procs;
        sort_procs(&mut procs, self.sort_by);
        self.procs = procs;
        self.idx = clamp_index(self.idx, self.procs.len());
    }

    /// Moves the cursor up one row, unless it is at the top.
    pub fn move_up(&mut self)
        ensures
            *final(self) == (ProcPanel { idx: step_up(old(self).idx), ..*old(self) }),
    {
        if self.idx > 0 {
            self.idx = self.idx - 1;
        }
    }

    /// Moves the cursor down one row, unless it is on the last.
    pub fn move_down(&mut self)
        ensures
            *final(self) == (ProcPanel { idx: step_down(old(self).idx, old(self).procs@.len()), ..*old(self) }),
    {
        if self.idx < self.procs.len() && self.idx + 1 < self.procs.len() {
            self.idx = self.idx + 1;
        }
    }

    /// The process under the cursor.
    pub fn current(&self) -> (r: Option<&ProcInfo>)
        ensures
            r matches Some(p) ==> self.idx < self.procs.len() && *p == self.procs@[self.idx as int],
            r is None ==> self.idx >= self.procs.len(),
    {
        if self.idx < self.procs.len() {
            Some(&self.procs[self.idx])
        } else {
            None
        }
    }

    /// Takes the process under the cursor off the list (it is being
    /// killed), keeping the cursor on the list; returns its pid, or `None`
    /// when the cursor is on no process.
    pub fn kill_current(&mut self) -> (r: Option<u32>)
        ensures
            old(self).idx < old(self).procs.len() ==> {
                &&& r == Some(old(self).procs@[old(self).idx as int].pid)
                &&& final(self).procs@ == old(self).procs@.remove(old(self).idx as int)
                &&& final(self).idx == clamp(old(self).idx, final(self).procs@.len())
                &&& final(self).sort_by == old(self).sort_by
            },
            old(self).idx >= old(self).procs.len() ==> r is None && *final(self) == *old(self),
    {
        if self.idx < self.procs.len() {
            let p = self.procs.remove(self.idx);
            self.idx = clamp_index(self.idx, self.procs.len());
            Some(p.pid)
        } else {
            None
        }
    }

    /// Switches to the next order: CPU, memory, pid, name, then CPU again.
    /// The list is reordered at the next snapshot.
    pub fn cycle_sort(&mut self)
        ensures
            *final(self) == (ProcPanel { sort_by: next_sort(old(self).sort_by), ..*old(self) }),
    {
        self.sort_by = match self.sort_by {
            SortBy::Cpu => SortBy::Mem,
            SortBy::Mem => SortBy::Pid,
            SortBy::Pid => SortBy::Name,
            SortBy::Name => SortBy::Cpu,
        };
    }

    /// The label of the panel's order.
    pub fn sort_label(&self) -> (s: &'static str)
        ensures
            s@ == sort_name(self.sort_by),
    {
        match self.sort_by {
            SortBy::Cpu => "cpu",
            SortBy::Mem => "mem",
            SortBy::Pid => "pid",
            SortBy::Name => "name",
        }
    }
}

impl ProcPanel {
    /// What the information view of process `pid` shows, given the text
    /// of its `/proc/<pid>/status` (`None` when it could not be read; see
    /// `proc_status_report`).
    pub fn proc_info(&self, pid: u32, content: Option<&str>) -> (r: String)
        ensures
            r@ == proc_status_report(
                pid,
                match content {
                    Some(c) => Some(c@),
                    None => None,
                },
            ),
    {
        match content {
            Some(c) => first_lines(c, 20),
            None => {
                let mut v = chars_of("PID ");
                extend(&mut v, &decimal_chars(pid as u64));
                extend(&mut v, &chars_of(" — no /proc info"));
                to_string(&v)
            },
        }
    }

    /// What renicing asks for: `renice <value> -p <pid>` on the process
    /// under the cursor; nothing when the cursor is on no process.
    pub fn renice(&self, value: String) -> (eff: Effect)
        ensures
            if self.idx < self.procs.len() {
                eff matches Effect::Renice { pid, value: v } && pid == self.procs@[self.idx as int].pid && v
                    == value
            } else {
                eff is Nothing
            },
    {
        if self.idx < self.procs.len() {
            Effect::Renice { pid: self.procs[self.idx].pid, value }
        } else {
            Effect::Nothing
        }
    }
}

/// Cycling the order four times comes back to the order one started from,
/// and visits four different orders on the way.
pub proof fn law_sort_cycle(by: SortBy)
    ensures
        next_sort(next_sort(next_sort(next_sort(by)))) == by,
        next_sort(by) != by,
        next_sort(next_sort(by)) != by,
        next_sort(next_sort(next_sort(by))) != by,
{
}

} // verus!
