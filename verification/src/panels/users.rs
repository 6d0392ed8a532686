//! The user panel: accounts read from `/etc/passwd` with their groups from
//! `/etc/group`, and the reports of the account commands.

use vstd::prelude::*;
use crate::effect::{CommandOutput, UserCommand};
use crate::text::chars_of;
use crate::panels::nav::{clamp, clamp_index, step_down, step_up};
use crate::sort::{lemma_int_key_strict_weak, lemma_stable_sorted_map, sort_by, stable_sorted};
use crate::text::{
    after_last, extend, first_n, join, last_piece, lines, lines_of, parse_u32, parse_u32_spec,
    split_at, split_char, to_string, views, join_first,
};

verus! {

/// An account.
pub struct UserEntry {
    pub name: String,
    pub uid: u32,
    pub home: String,
    /// The login shell's file name (after the last `/`).
    pub shell: String,
    /// The first four supplementary groups, separated by `", "`.
    pub groups: String,
}

/// The user panel.
pub struct UserPanel {
    pub idx: usize,
    pub users: Vec<UserEntry>,
}

/// The (name, uid, home, shell, groups) of an account.
pub open spec fn user_view(u: UserEntry) -> (Seq<char>, u32, Seq<char>, Seq<char>, Seq<char>) {
    (u.name@, u.uid, u.home@, u.shell@, u.groups@)
}

/// The views of a list of accounts.
pub open spec fn user_views(v: Seq<UserEntry>) -> Seq<(Seq<char>, u32, Seq<char>, Seq<char>, Seq<char>)> {
    v.map_values(|u: UserEntry| user_view(u))
}

/// How many times `name` appears among the non-empty members of a group.
pub open spec fn member_count(members: Seq<Seq<char>>, name: Seq<char>) -> nat {
    members.filter(|m: Seq<char>| m.len() > 0 && m == name).len()
}

/// The groups that list `name` as a member in the first `n` group lines,
/// in order, a group once for each time it lists the name; lines with
/// fewer than four `:`-separated fields are skipped.
pub open spec fn groups_listing(glines: Seq<Seq<char>>, name: Seq<char>, n: int) -> Seq<Seq<char>>
    decreases n,
{
    if n <= 0 {
        Seq::empty()
    } else {
        let before = groups_listing(glines, name, n - 1);
        let p = split_at(glines[n - 1], ':');
        if p.len() >= 4 {
            before + Seq::new(member_count(split_at(p[3], ','), name), |i: int| p[0])
        } else {
            before
        }
    }
}

/// The groups column for `name`: its first four groups joined with
/// `", "`.
pub open spec fn groups_text(group_file: Seq<char>, name: Seq<char>) -> Seq<char> {
    let gl = lines(group_file);
    join(first_n(groups_listing(gl, name, gl.len() as int), 4), ", "@)
}

/// The account a `/etc/passwd` line describes, when it has at least seven
/// `:`-separated fields, its third field is a number, and that uid is 0
/// or at least 1000.
pub open spec fn user_of_line(line: Seq<char>, group_file: Seq<char>) -> Option<
    (Seq<char>, u32, Seq<char>, Seq<char>, Seq<char>),
> {
    let p = split_at(line, ':');
    if p.len() < 7 {
        None
    } else {
        match parse_u32_spec(p[2], 10) {
            Some(uid) => if uid >= 1000 || uid == 0 {
                Some((p[0], uid, p[5], last_piece(p[6], '/'), groups_text(group_file, p[0])))
            } else {
                None
            },
            None => None,
        }
    }
}

/// The accounts described by the first `n` passwd lines, in file order.
pub open spec fn users_in(
    plines: Seq<Seq<char>>,
    group_file: Seq<char>,
    n: int,
) -> Seq<(Seq<char>, u32, Seq<char>, Seq<char>, Seq<char>)>
    decreases n,
{
    if n <= 0 {
        Seq::empty()
    } else {
        let before = users_in(plines, group_file, n - 1);
        match user_of_line(plines[n - 1], group_file) {
            Some(u) => before.push(u),
            None => before,
        }
    }
}

/// Orders accounts by uid.
pub open spec fn by_uid(a: (Seq<char>, u32, Seq<char>, Seq<char>, Seq<char>), b: (Seq<char>, u32, Seq<char>, Seq<char>, Seq<char>)) -> bool {
    a.1 < b.1
}

/// `users` is what the panel shows for these files: the accounts of the
/// passwd file, sorted stably by uid.
pub open spec fn users_listed(
    group_file: Seq<char>,
    passwd_file: Seq<char>,
    users: Seq<(Seq<char>, u32, Seq<char>, Seq<char>, Seq<char>)>,
) -> bool {
    let pl = lines(passwd_file);
    stable_sorted(users_in(pl, group_file, pl.len() as int), users, |a, b| by_uid(a, b))
}

struct GroupLine {
    name: Vec<char>,
    members: Vec<Vec<char>>,
}

/// The groups of `name` from the first `m` parsed group lines.
spec fn groups_kept(g: Seq<GroupLine>, name: Seq<char>, m: int) -> Seq<Seq<char>>
    decreases m,
{
    if m <= 0 {
        Seq::empty()
    } else {
        groups_kept(g, name, m - 1) + Seq::new(
            member_count(views(g[m - 1].members@), name),
            |i: int| g[m - 1].name@,
        )
    }
}

fn parse_groups(group_file: &str) -> (r: Vec<GroupLine>)
    ensures
        forall|name: Seq<char>|
            groups_kept(r@, name, r@.len() as int) == groups_listing(
                lines(group_file@),
                name,
                lines(group_file@).len() as int,
            ),
{
    let text = chars_of(group_file);
    let ls = lines_of(&text);
    let ghost gl = views(ls@);
    let mut r: Vec<GroupLine> = Vec::new();
    let mut i: usize = 0;
    while i < ls.len()
        invariant
            i <= ls.len(),
            gl == views(ls@),
            gl == lines(group_file@),
            forall|name: Seq<char>|
                groups_kept(r@, name, r@.len() as int) == groups_listing(gl, name, i as int),
        decreases ls.len() - i,
    {
        let parts = split_char(&ls[i], ':');
        let ghost p = split_at(gl[i as int], ':');
        proof {
            assert(ls@[i as int]@ == gl[i as int]);
            assert(views(parts@) == p);
        }
        let ghost old_r = r@;
        if parts.len() >= 4 {
            let name = crate::text::slice(&parts[0], 0, parts[0].len());
            let members = split_char(&parts[3], ',');
            proof {
                assert(parts@[0]@ == p[0]);
                assert(parts@[3]@ == p[3]);
                assert(name@ =~= p[0]);
                assert(views(members@) == split_at(p[3], ','));
            }
            r.push(GroupLine { name, members });
            proof {
                assert(r@.drop_last() =~= old_r);
                assert forall|nm: Seq<char>|
                    groups_kept(r@, nm, r@.len() as int) == groups_listing(gl, nm, i + 1) by {
                    assert(groups_kept(old_r, nm, old_r.len() as int) == groups_listing(gl, nm, i as int));
                    lemma_groups_kept_prefix(r@, old_r, nm, old_r.len() as int);
                    let cnt = member_count(views(r@.last().members@), nm);
                    assert(Seq::new(cnt, |k: int| r@[old_r.len() as int].name@) =~= Seq::new(
                        cnt,
                        |k: int| p[0],
                    ));
                }
            }
        } else {
            proof {
                assert forall|nm: Seq<char>|
                    groups_kept(r@, nm, r@.len() as int) == groups_listing(gl, nm, i + 1) by {
                    assert(groups_kept(r@, nm, r@.len() as int) == groups_listing(gl, nm, i as int));
                }
            }
        }
        i = i + 1;
    }
    r
}

proof fn lemma_groups_kept_prefix(a: Seq<GroupLine>, b: Seq<GroupLine>, name: Seq<char>, m: int)
    requires
        0 <= m <= b.len(),
        b.len() <= a.len(),
        forall|j: int| 0 <= j < b.len() ==> a[j] == b[j],
    ensures
        groups_kept(a, name, m) == groups_kept(b, name, m),
    decreases m,
{
    if m > 0 {
        lemma_groups_kept_prefix(a, b, name, m - 1);
    }
}

/// Every name occurrence counted: how many of `members` equal `name` and
/// are not empty.
fn count_member(members: &Vec<Vec<char>>, name: &Vec<char>) -> (r: usize)
    ensures
        r == member_count(views(members@), name@),
{
    let ghost mv = views(members@);
    let mut c: usize = 0;
    let mut i: usize = 0;
    proof {
        assert(mv.subrange(0, 0).filter(|m: Seq<char>| m.len() > 0 && m == name@) =~= Seq::<Seq<char>>::empty());
    }
    while i < members.len()
        invariant
            i <= members.len(),
            mv == views(members@),
            c == mv.subrange(0, i as int).filter(|m: Seq<char>| m.len() > 0 && m == name@).len(),
            c <= i,
        decreases members.len() - i,
    {
        proof {
            assert(mv.subrange(0, i + 1).drop_last() =~= mv.subrange(0, i as int));
            reveal_with_fuel(Seq::filter, 1);
        }
        if members[i].len() > 0 && crate::text::same_chars(&members[i], name) {
            c = c + 1;
        }
        i = i + 1;
    }
    proof {
        assert(mv.subrange(0, members.len() as int) =~= mv);
    }
    c
}

fn groups_column(g: &Vec<GroupLine>, name: &Vec<char>) -> (r: Vec<char>)
    ensures
        r@ == join(first_n(groups_kept(g@, name@, g@.len() as int), 4), ", "@),
{
    let mut found: Vec<Vec<char>> = Vec::new();
    let mut j: usize = 0;
    while j < g.len() && found.len() < 4
        invariant
            j <= g.len(),
            views(found@) == first_n(groups_kept(g@, name@, j as int), 4),
            found.len() <= 4,
        decreases g.len() - j,
    {
        let n = count_member(&g[j].members, name);
        let mut k: usize = 0;
        let ghost before = groups_kept(g@, name@, j as int);
        let ghost next = groups_kept(g@, name@, j + 1);
        proof {
            assert(next == before + Seq::new(n as nat, |i: int| g@[j as int].name@));
        }
        while k < n && found.len() < 4
            invariant
                j < g.len(),
                k <= n,
                found.len() <= 4,
                next == before + Seq::new(n as nat, |i: int| g@[j as int].name@),
                views(found@) == first_n(before + Seq::new(k as nat, |i: int| g@[j as int].name@), 4),
            decreases n - k,
        {
            let ghost old_f = views(found@);
            let nm = crate::text::slice(&g[j].name, 0, g[j].name.len());
            proof {
                assert(nm@ =~= g@[j as int].name@);
            }
            found.push(nm);
            proof {
                let s0 = before + Seq::new(k as nat, |i: int| g@[j as int].name@);
                let s1 = before + Seq::new((k + 1) as nat, |i: int| g@[j as int].name@);
                assert(s1 =~= s0.push(g@[j as int].name@));
                assert(views(found@) =~= old_f.push(g@[j as int].name@));
                assert(views(found@) =~= first_n(s1, 4));
            }
            k = k + 1;
        }
        proof {
            let s0 = before + Seq::new(k as nat, |i: int| g@[j as int].name@);
            if k == n {
                assert(s0 =~= next);
            } else {
                assert(found.len() == 4);
                assert(first_n(next, 4) =~= first_n(s0, 4));
            }
        }
        j = j + 1;
    }
    proof {
        if j < g.len() {
            lemma_groups_kept_grows(g@, name@, j as int, g@.len() as int);
            assert(first_n(groups_kept(g@, name@, g@.len() as int), 4) =~= first_n(
                groups_kept(g@, name@, j as int),
                4,
            ));
        }
    }
    let sep = chars_of(", ");
    let k = found.len();
    proof {
        assert(views(found@).subrange(0, k as int) =~= views(found@));
    }
    join_first(&found, k, &sep)
}

proof fn lemma_groups_kept_grows(g: Seq<GroupLine>, name: Seq<char>, m: int, n: int)
    requires
        0 <= m <= n,
    ensures
        groups_kept(g, name, m).len() <= groups_kept(g, name, n).len(),
        groups_kept(g, name, n).subrange(0, groups_kept(g, name, m).len() as int) == groups_kept(
            g,
            name,
            m,
        ),
    decreases n - m,
{
    let a = groups_kept(g, name, m);
    if m < n {
        lemma_groups_kept_grows(g, name, m, n - 1);
        let b = groups_kept(g, name, n - 1);
        let c = groups_kept(g, name, n);
        assert(c.subrange(0, b.len() as int) =~= b);
        assert(c.subrange(0, a.len() as int) =~= b.subrange(0, a.len() as int));
    } else {
        assert(a.subrange(0, a.len() as int) =~= a);
    }
}

fn user_from_line(line: &Vec<char>, g: &Vec<GroupLine>, Ghost(group_file): Ghost<Seq<char>>) -> (r: Option<UserEntry>)
    requires
        forall|name: Seq<char>|
            groups_kept(g@, name, g@.len() as int) == groups_listing(
                lines(group_file),
                name,
                lines(group_file).len() as int,
            ),
    ensures
        match r {
            Some(u) => user_of_line(line@, group_file) == Some(user_view(u)),
            None => user_of_line(line@, group_file) is None,
        },
{
    let p = split_char(line, ':');
    if p.len() < 7 {
        return None;
    }
    let ghost pv = views(p@);
    match parse_u32(&p[2], 10) {
        Some(uid) => {
            if uid >= 1000 || uid == 0 {
                let groups = groups_column(g, &p[0]);
                let shell = after_last(&p[6], '/');
                proof {
                    assert(p@[0]@ == pv[0]);
                    assert(p@[6]@ == pv[6]);
                }
                Some(UserEntry {
                    name: to_string(&p[0]),
                    uid,
                    home: to_string(&p[5]),
                    shell: to_string(&shell),
                    groups: to_string(&groups),
                })
            } else {
                None
            }
        },
        None => None,
    }
}

/// The accounts of a passwd file with their groups from a group file,
/// sorted stably by uid.
pub fn parse_users(group_file: &str, passwd_file: &str) -> (r: Vec<UserEntry>)
    ensures
        users_listed(group_file@, passwd_file@, user_views(r@)),
{
    let g = parse_groups(group_file);
    let text = chars_of(passwd_file);
    let ls = lines_of(&text);
    let ghost pl = views(ls@);
    let mut r: Vec<UserEntry> = Vec::new();
    let mut i: usize = 0;
    while i < ls.len()
        invariant
            i <= ls.len(),
            pl == views(ls@),
            pl == lines(passwd_file@),
            forall|name: Seq<char>|
                groups_kept(g@, name, g@.len() as int) == groups_listing(
                    lines(group_file@),
                    name,
                    lines(group_file@).len() as int,
                ),
            user_views(r@) == users_in(pl, group_file@, i as int),
        decreases ls.len() - i,
    {
        let ghost before = user_views(r@);
        match user_from_line(&ls[i], &g, Ghost(group_file@)) {
            Some(u) => {
                r.push(u);
                proof {
                    assert(user_views(r@) =~= before.push(user_view(u)));
                }
            },
            None => {},
        }
        i = i + 1;
    }
    let ghost unsorted = r@;
    proof {
        lemma_int_key_strict_weak(|u: UserEntry| u.uid as int);
        assert(crate::sort::strict_weak(|a: UserEntry, b: UserEntry| a.uid < b.uid)) by {
            assert((|a: UserEntry, b: UserEntry| a.uid < b.uid) =~= (|a: UserEntry, b: UserEntry| (|u: UserEntry| u.uid as int)(a) < (|u: UserEntry| u.uid as int)(b)));
        }
    }
    sort_by(&mut r, &uid_less, Ghost(|a: UserEntry, b: UserEntry| a.uid < b.uid));
    proof {
        lemma_stable_sorted_map(
            unsorted,
            r@,
            |a: UserEntry, b: UserEntry| a.uid < b.uid,
            |u: UserEntry| user_view(u),
            |a, b| by_uid(a, b),
        );
        assert(unsorted.map_values(|u: UserEntry| user_view(u)) == user_views(unsorted));
    }
    r
}

fn uid_less(a: &UserEntry, b: &UserEntry) -> (r: bool)
    ensures
        r == (a.uid < b.uid),
{
    a.uid < b.uid
}

impl UserPanel {
    /// A panel holding the accounts of the passwd file, cursor on the first.
    pub fn new(group_file: &str, passwd_file: &str) -> (p: UserPanel)
        ensures
            users_listed(group_file@, passwd_file@, user_views(p.users@)),
            p.idx == 0,
    {
        let mut p = UserPanel { idx: 0, users: Vec::new() };
        p.load(group_file, passwd_file);
        p
    }

    /// Reads the accounts again, keeping the cursor on the list.
    pub fn load(&mut self, group_file: &str, passwd_file: &str)
        ensures
            users_listed(group_file@, passwd_file@, user_views(final(self).users@)),
            final(self).idx == clamp(old(self).idx, final(self).users@.len()),
    {
        self.users = parse_users(group_file, passwd_file);
        self.idx = clamp_index(self.idx, self.users.len());
    }

    /// Moves the cursor up one row, unless it is at the top.
    pub fn move_up(&mut self)
        ensures
            *final(self) == (UserPanel { idx: step_up(old(self).idx), ..*old(self) }),
    {
        if self.idx > 0 {
            self.idx = self.idx - 1;
        }
    }

    /// Moves the cursor down one row, unless it is on the last.
    pub fn move_down(&mut self)
        ensures
            *final(self) == (UserPanel { idx: step_down(old(self).idx, old(self).users@.len()), ..*old(self) }),
    {
        if self.idx < self.users.len() && self.idx + 1 < self.users.len() {
            self.idx = self.idx + 1;
        }
    }

    /// The account under the cursor.
    pub fn current(&self) -> (r: Option<&UserEntry>)
        ensures
            r matches Some(u) ==> self.idx < self.users.len() && *u == self.users@[self.idx as int],
            r is None ==> self.idx >= self.users.len(),
    {
        if self.idx < self.users.len() {
            Some(&self.users[self.idx])
        } else {
            None
        }
    }
}

/// What a `pkexec` command printed: its output, or when that is empty its
/// error output; the error's text when it could not run.
pub open spec fn pkexec_text(out: CommandOutput) -> Seq<char> {
    match out {
        CommandOutput::Finished { stdout, stderr } => if stdout@.len() > 0 {
            stdout@
        } else {
            stderr@
        },
        CommandOutput::Failed { error } => error@,
    }
}

/// The report of an account command that printed `out`: what it printed,
/// or the sentence `done` when it printed nothing.
pub open spec fn report_or(out: CommandOutput, done: Seq<char>) -> Seq<char> {
    if pkexec_text(out).len() > 0 {
        pkexec_text(out)
    } else {
        done
    }
}

/// The sentence saying what an account command did.
pub open spec fn done_sentence(cmd: UserCommand) -> Seq<char> {
    match cmd {
        UserCommand::Add { name } => "Created user "@ + name@,
        UserCommand::Delete { name } => "Deleted user "@ + name@,
        UserCommand::AddToGroup { name, group } => "Added "@ + name@ + " to "@ + group@,
        UserCommand::Lock { name } => "Locked "@ + name@,
        UserCommand::Unlock { name } => "Unlocked "@ + name@,
    }
}

/// The report of an account command: what it printed, or when it printed
/// nothing a sentence saying what was done.
pub open spec fn user_report(cmd: UserCommand, out: CommandOutput) -> Seq<char> {
    report_or(out, done_sentence(cmd))
}

/// The report of a command that printed `out`, or `done`.
fn report(out: &CommandOutput, done: Vec<char>) -> (r: String)
    ensures
        r@ == report_or(*out, done@),
{
    let t: &String = match out {
        CommandOutput::Finished { stdout, stderr } => if stdout.as_str().unicode_len() > 0 {
            stdout
        } else {
            stderr
        },
        CommandOutput::Failed { error } => error,
    };
    if t.as_str().unicode_len() > 0 {
        t.clone()
    } else {
        to_string(&done)
    }
}

impl UserPanel {
    /// After `pkexec useradd -m <name>` printed `out`: the accounts read
    /// again from the given files, and the report.
    pub fn add_user(&mut self, name: &str, out: &CommandOutput, group_file: &str, passwd_file: &str) -> (r: String)
        ensures
            users_listed(group_file@, passwd_file@, user_views(final(self).users@)),
            final(self).idx == clamp(old(self).idx, final(self).users@.len()),
            r@ == report_or(*out, "Created user "@ + name@),
    {
        self.load(group_file, passwd_file);
        report(out, crate::text::concat("Created user ", name))
    }

    /// After `pkexec userdel -r <name>` printed `out`: the accounts read
    /// again from the given files, and the report.
    pub fn del_user(&mut self, name: &str, out: &CommandOutput, group_file: &str, passwd_file: &str) -> (r: String)
        ensures
            users_listed(group_file@, passwd_file@, user_views(final(self).users@)),
            final(self).idx == clamp(old(self).idx, final(self).users@.len()),
            r@ == report_or(*out, "Deleted user "@ + name@),
    {
        self.load(group_file, passwd_file);
        report(out, crate::text::concat("Deleted user ", name))
    }

    /// After `pkexec usermod -aG <group> <name>` for the account under the
    /// cursor printed `out`: the accounts read again and the report;
    /// `Nothing selected`, with the panel unchanged, when the cursor is on
    /// no account.
    pub fn add_to_group(&mut self, group: &str, out: &CommandOutput, group_file: &str, passwd_file: &str) -> (r: String)
        ensures
            old(self).idx < old(self).users.len() ==> {
                &&& users_listed(group_file@, passwd_file@, user_views(final(self).users@))
                &&& final(self).idx == clamp(old(self).idx, final(self).users@.len())
                &&& r@ == report_or(*out, "Added "@ + old(self).users@[old(self).idx as int].name@ + " to "@ + group@)
            },
            old(self).idx >= old(self).users.len() ==> *final(self) == *old(self) && r@ == "Nothing selected"@,
    {
        if self.idx >= self.users.len() {
            return String::from_str("Nothing selected");
        }
        let mut done = crate::text::concat("Added ", self.users[self.idx].name.as_str());
        extend(&mut done, &crate::text::concat(" to ", group));
        self.load(group_file, passwd_file);
        report(out, done)
    }

    /// After `pkexec usermod -L <name>` for the account under the cursor
    /// printed `out`: the report; `Nothing selected` when the cursor is on
    /// no account.
    pub fn lock_user(&self, out: &CommandOutput) -> (r: String)
        ensures
            self.idx < self.users.len() ==> r@ == report_or(*out, "Locked "@ + self.users@[self.idx as int].name@),
            self.idx >= self.users.len() ==> r@ == "Nothing selected"@,
    {
        if self.idx < self.users.len() {
            report(out, crate::text::concat("Locked ", self.users[self.idx].name.as_str()))
        } else {
            String::from_str("Nothing selected")
        }
    }

    /// After `pkexec usermod -U <name>` for the account under the cursor
    /// printed `out`: the report; `Nothing selected` when the cursor is on
    /// no account.
    pub fn unlock_user(&self, out: &CommandOutput) -> (r: String)
        ensures
            self.idx < self.users.len() ==> r@ == report_or(*out, "Unlocked "@ + self.users@[self.idx as int].name@),
            self.idx >= self.users.len() ==> r@ == "Nothing selected"@,
    {
        if self.idx < self.users.len() {
            report(out, crate::text::concat("Unlocked ", self.users[self.idx].name.as_str()))
        } else {
            String::from_str("Nothing selected")
        }
    }
}

/// The report of an account command (see `user_report`).
pub fn command_report(cmd: &UserCommand, out: &CommandOutput) -> (r: String)
    ensures
        r@ == user_report(*cmd, *out),
{
    let done = match cmd {
        UserCommand::Add { name } => crate::text::concat("Created user ", name.as_str()),
        UserCommand::Delete { name } => crate::text::concat("Deleted user ", name.as_str()),
        UserCommand::AddToGroup { name, group } => {
            let mut v = crate::text::concat("Added ", name.as_str());
            extend(&mut v, &crate::text::concat(" to ", group.as_str()));
            v
        },
        UserCommand::Lock { name } => crate::text::concat("Locked ", name.as_str()),
        UserCommand::Unlock { name } => crate::text::concat("Unlocked ", name.as_str()),
    };
    report(out, done)
}

} // verus!
