//! The service panel: the units that `systemctl` lists, and what its
//! commands report.

use vstd::prelude::*;
use crate::effect::CommandOutput;
use crate::text::chars_of;
use crate::panels::nav::{clamp, clamp_index, step_down, step_up};
use crate::text::{
    extend, first_lines, first_n, head_lines, lines, lines_of, to_string, trim_end_matches,
    trim_suffix, views, words, words_of,
};
use vstd::string::StringExecFns;

verus! {

/// A line of `systemctl list-units` output.
pub struct ServiceEntry {
    /// The unit name without its `.service` suffix.
    pub name: String,
    /// The ACTIVE column.
    pub active: String,
    /// The SUB column.
    pub sub: String,
}

/// The service panel.
pub struct ServicePanel {
    pub idx: usize,
    pub services: Vec<ServiceEntry>,
}

/// The most units the panel shows.
pub const MAX_SERVICES: usize = 80;

/// The (name, active, sub) of a service entry.
pub open spec fn service_view(e: ServiceEntry) -> (Seq<char>, Seq<char>, Seq<char>) {
    (e.name@, e.active@, e.sub@)
}

/// The views of a list of service entries.
pub open spec fn service_views(v: Seq<ServiceEntry>) -> Seq<(Seq<char>, Seq<char>, Seq<char>)> {
    v.map_values(|e: ServiceEntry| service_view(e))
}

/// The service a listing line describes: when it has at least four words,
/// the first without trailing `.service` suffixes, the third and the
/// fourth.
pub open spec fn service_of_line(line: Seq<char>) -> Option<(Seq<char>, Seq<char>, Seq<char>)> {
    let w = words(line);
    if w.len() >= 4 {
        Some((trim_suffix(w[0], ".service"@), w[2], w[3]))
    } else {
        None
    }
}

/// The services described by the first `n` lines, in order.
pub open spec fn services_in(ls: Seq<Seq<char>>, n: int) -> Seq<(Seq<char>, Seq<char>, Seq<char>)>
    decreases n,
{
    if n <= 0 {
        Seq::empty()
    } else {
        let before = services_in(ls, n - 1);
        match service_of_line(ls[n - 1]) {
            Some(e) => before.push(e),
            None => before,
        }
    }
}

/// The services of a `systemctl list-units` listing: one per line that has
/// at least four words, at most `MAX_SERVICES`.
pub open spec fn services_listed(out: Seq<char>) -> Seq<(Seq<char>, Seq<char>, Seq<char>)> {
    first_n(services_in(lines(out), lines(out).len() as int), MAX_SERVICES as nat)
}

proof fn lemma_services_in_grows(ls: Seq<Seq<char>>, m: int, n: int)
    requires
        0 <= m <= n,
    ensures
        services_in(ls, m).len() <= services_in(ls, n).len(),
        services_in(ls, n).subrange(0, services_in(ls, m).len() as int) == services_in(ls, m),
    decreases n - m,
{
    if m < n {
        lemma_services_in_grows(ls, m, n - 1);
        let a = services_in(ls, n - 1);
        let b = services_in(ls, n);
        assert(b.subrange(0, a.len() as int) =~= a);
        assert(b.subrange(0, services_in(ls, m).len() as int) =~= a.subrange(
            0,
            services_in(ls, m).len() as int,
        ));
    } else {
        assert(services_in(ls, n).subrange(0, services_in(ls, n).len() as int) =~= services_in(ls, n));
    }
}

fn service_from_line(line: &Vec<char>, suffix: &Vec<char>) -> (r: Option<ServiceEntry>)
    requires
        suffix@ == ".service"@,
    ensures
        match r {
            Some(e) => service_of_line(line@) == Some(service_view(e)),
            None => service_of_line(line@) is None,
        },
{
    let w = words_of(line);
    if w.len() >= 4 {
        proof {
            assert(suffix@.len() > 0) by {
                reveal_strlit(".service");
            }
        }
        let name = trim_end_matches(&w[0], suffix);
        Some(ServiceEntry { name: to_string(&name), active: to_string(&w[2]), sub: to_string(&w[3]) })
    } else {
        None
    }
}

/// The services of a `systemctl list-units` listing.
pub fn parse_services(out: &str) -> (r: Vec<ServiceEntry>)
    ensures
        service_views(r@) == services_listed(out@),
{
    let text = chars_of(out);
    let ls = lines_of(&text);
    let ghost lv = views(ls@);
    let suffix = chars_of(".service");
    let mut r: Vec<ServiceEntry> = Vec::new();
    let mut i: usize = 0;
    while i < ls.len() && r.len() < MAX_SERVICES
        invariant
            i <= ls.len(),
            lv == views(ls@),
            lv == lines(out@),
            suffix@ == ".service"@,
            service_views(r@) == services_in(lv, i as int),
            r.len() <= MAX_SERVICES,
        decreases ls.len() - i,
    {
        let ghost before = service_views(r@);
        match service_from_line(&ls[i], &suffix) {
            Some(e) => {
                r.push(e);
                proof {
                    assert(service_views(r@) =~= before.push(service_view(e)));
                }
            },
            None => {},
        }
        i = i + 1;
    }
    proof {
        let all = services_in(lv, lv.len() as int);
        lemma_services_in_grows(lv, i as int, lv.len() as int);
        if r.len() >= MAX_SERVICES {
            assert(service_views(r@).len() == MAX_SERVICES);
            assert(all.subrange(0, MAX_SERVICES as int) =~= service_views(r@));
        } else {
            assert(i == ls.len());
        }
    }
    r
}

/// What `systemctl <action> <name>.service` reports: its output, else its
/// error output, else `"<action> <name>: done"`; the error's text when it
/// could not run.
pub open spec fn action_report(name: Seq<char>, action: Seq<char>, out: CommandOutput) -> Seq<char> {
    match out {
        CommandOutput::Finished { stdout, stderr } => if stdout@.len() > 0 {
            stdout@
        } else if stderr@.len() > 0 {
            stderr@
        } else {
            action + " "@ + name + ": done"@
        },
        CommandOutput::Failed { error } => error@,
    }
}

/// What a status query shows: the first 25 lines of its output, or the
/// error's text when it could not run.
pub open spec fn status_report(out: CommandOutput) -> Seq<char> {
    match out {
        CommandOutput::Finished { stdout, stderr } => head_lines(stdout@, 25),
        CommandOutput::Failed { error } => error@,
    }
}

impl ServicePanel {
    /// A panel holding the services of a listing, cursor on the first.
    pub fn new(listing: &str) -> (p: ServicePanel)
        ensures
            service_views(p.services@) == services_listed(listing@),
            p.idx == 0,
    {
        let mut p = ServicePanel { idx: 0, services: Vec::new() };
        p.load(listing);
        p
    }

    /// Replaces the services by those of a new listing, keeping the cursor
    /// on the list.
    pub fn load(&mut self, listing: &str)
        ensures
            service_views(final(self).services@) == services_listed(listing@),
            final(self).idx == clamp(old(self).idx, final(self).services@.len()),
    {
        self.services = parse_services(listing);
        self.idx = clamp_index(self.idx, self.services.len());
    }

    /// Moves the cursor up one row, unless it is at the top.
    pub fn move_up(&mut self)
        ensures
            *final(self) == (ServicePanel { idx: step_up(old(self).idx), ..*old(self) }),
    {
        if self.idx > 0 {
            self.idx = self.idx - 1;
        }
    }

    /// Moves the cursor down one row, unless it is on the last.
    pub fn move_down(&mut self)
        ensures
            *final(self) == (ServicePanel { idx: step_down(old(self).idx, old(self).services@.len()), ..*old(self) }),
    {
        if self.idx < self.services.len() && self.idx + 1 < self.services.len() {
            self.idx = self.idx + 1;
        }
    }

    /// The service under the cursor.
    pub fn current(&self) -> (r: Option<&ServiceEntry>)
        ensures
            r matches Some(e) ==> self.idx < self.services.len() && *e == self.services@[self.idx as int],
            r is None ==> self.idx >= self.services.len(),
    {
        if self.idx < self.services.len() {
            Some(&self.services[self.idx])
        } else {
            None
        }
    }
}

impl ServicePanel {
    /// After `systemctl <action> <name>.service` gave `out`: the services
    /// of the new `listing`, and the report of the command (see
    /// `action_report`).
    pub fn do_action(&mut self, name: &str, action: &str, out: &CommandOutput, listing: &str) -> (r: String)
        ensures
            r@ == action_report(name@, action@, *out),
            service_views(final(self).services@) == services_listed(listing@),
            final(self).idx == clamp(old(self).idx, final(self).services@.len()),
    {
        self.load(listing);
        match out {
            CommandOutput::Finished { stdout, stderr } => {
                if stdout.as_str().unicode_len() > 0 {
                    stdout.clone()
                } else if stderr.as_str().unicode_len() > 0 {
                    stderr.clone()
                } else {
                    let mut v = chars_of(action);
                    extend(&mut v, &chars_of(" "));
                    extend(&mut v, &chars_of(name));
                    extend(&mut v, &chars_of(": done"));
                    to_string(&v)
                }
            },
            CommandOutput::Failed { error } => error.clone(),
        }
    }

    /// What the status view of a service shows, given what `systemctl
    /// status` gave (see `status_report`).
    pub fn status_of(&self, out: &CommandOutput) -> (r: String)
        ensures
            r@ == status_report(*out),
    {
        match out {
            CommandOutput::Finished { stdout, stderr } => first_lines(stdout.as_str(), 25),
            CommandOutput::Failed { error } => error.clone(),
        }
    }
}

} // verus!
