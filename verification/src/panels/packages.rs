//! The package panel: a front end to whichever of pacman, apt, dnf or
//! zypper is installed.

use vstd::prelude::*;
use crate::text::chars_of;
use crate::panels::nav::{step_down, step_up};
use crate::text::{
    after_last, blank, extend, first_n, first_word, has_prefix, is_blank, last_piece, lines,
    lines_of, starts_with, to_string, views, words_of,
};
use vstd::string::StringExecFns;

verus! {

/// A package manager the panel knows how to drive.
#[derive(Clone, Copy, PartialEq, Eq, Debug, Structural)]
pub enum PackageManager {
    Pacman,
    Apt,
    Dnf,
    Zypper,
}

/// The program name of a package manager.
pub open spec fn manager_name(pm: PackageManager) -> Seq<char> {
    match pm {
        PackageManager::Pacman => "pacman"@,
        PackageManager::Apt => "apt"@,
        PackageManager::Dnf => "dnf"@,
        PackageManager::Zypper => "zypper"@,
    }
}

/// The search command line for a query: the template with `{q}` replaced
/// by the query.
pub open spec fn search_line(pm: PackageManager, q: Seq<char>) -> Seq<char> {
    match pm {
        PackageManager::Pacman => "pacman -Ss "@ + q,
        PackageManager::Apt => "apt search "@ + q + " 2>/dev/null"@,
        PackageManager::Dnf => "dnf search "@ + q + " 2>/dev/null"@,
        PackageManager::Zypper => "zypper search "@ + q,
    }
}

/// The install command line for a package.
pub open spec fn install_line(pm: PackageManager, pkg: Seq<char>) -> Seq<char> {
    match pm {
        PackageManager::Pacman => "pkexec pacman -S --noconfirm "@ + pkg,
        PackageManager::Apt => "pkexec apt install -y "@ + pkg,
        PackageManager::Dnf => "pkexec dnf install -y "@ + pkg,
        PackageManager::Zypper => "pkexec zypper install -y "@ + pkg,
    }
}

/// The remove command line for a package.
pub open spec fn remove_line(pm: PackageManager, pkg: Seq<char>) -> Seq<char> {
    match pm {
        PackageManager::Pacman => "pkexec pacman -R --noconfirm "@ + pkg,
        PackageManager::Apt => "pkexec apt remove -y "@ + pkg,
        PackageManager::Dnf => "pkexec dnf remove -y "@ + pkg,
        PackageManager::Zypper => "pkexec zypper remove -y "@ + pkg,
    }
}

/// The command line that lists installed packages.
pub open spec fn list_line(pm: PackageManager) -> Seq<char> {
    match pm {
        PackageManager::Pacman => "pacman -Q"@,
        PackageManager::Apt => "apt list --installed 2>/dev/null"@,
        PackageManager::Dnf => "dnf list installed"@,
        PackageManager::Zypper => "zypper packages --installed-only"@,
    }
}

/// The first of pacman, apt, dnf, zypper (in that order) that was found.
pub open spec fn first_found(pacman: bool, apt: bool, dnf: bool, zypper: bool) -> Option<PackageManager> {
    if pacman {
        Some(PackageManager::Pacman)
    } else if apt {
        Some(PackageManager::Apt)
    } else if dnf {
        Some(PackageManager::Dnf)
    } else if zypper {
        Some(PackageManager::Zypper)
    } else {
        None
    }
}

impl PackageManager {
    /// The program name.
    pub fn name(self) -> (s: &'static str)
        ensures
            s@ == manager_name(self),
    {
        match self {
            PackageManager::Pacman => "pacman",
            PackageManager::Apt => "apt",
            PackageManager::Dnf => "dnf",
            PackageManager::Zypper => "zypper",
        }
    }

    /// The manager to use given which programs were found: the first of
    /// pacman, apt, dnf, zypper.
    pub fn first_of(pacman: bool, apt: bool, dnf: bool, zypper: bool) -> (r: Option<PackageManager>)
        ensures
            r == first_found(pacman, apt, dnf, zypper),
    {
        if pacman {
            Some(PackageManager::Pacman)
        } else if apt {
            Some(PackageManager::Apt)
        } else if dnf {
            Some(PackageManager::Dnf)
        } else if zypper {
            Some(PackageManager::Zypper)
        } else {
            None
        }
    }

    /// The search command line for a query.
    pub fn search_command(self, q: &str) -> (r: String)
        ensures
            r@ == search_line(self, q@),
    {
        let (pre, post) = match self {
            PackageManager::Pacman => ("pacman -Ss ", ""),
            PackageManager::Apt => ("apt search ", " 2>/dev/null"),
            PackageManager::Dnf => ("dnf search ", " 2>/dev/null"),
            PackageManager::Zypper => ("zypper search ", ""),
        };
        let mut v = chars_of(pre);
        extend(&mut v, &chars_of(q));
        extend(&mut v, &chars_of(post));
        proof {
            reveal_strlit("");
            assert(q@ + ""@ =~= q@);
            assert(v@ =~= search_line(self, q@));
        }
        to_string(&v)
    }

    /// The install command line for a package.
    pub fn install_command(self, pkg: &str) -> (r: String)
        ensures
            r@ == install_line(self, pkg@),
    {
        let pre = match self {
            PackageManager::Pacman => "pkexec pacman -S --noconfirm ",
            PackageManager::Apt => "pkexec apt install -y ",
            PackageManager::Dnf => "pkexec dnf install -y ",
            PackageManager::Zypper => "pkexec zypper install -y ",
        };
        let mut v = chars_of(pre);
        extend(&mut v, &chars_of(pkg));
        to_string(&v)
    }

    /// The remove command line for a package.
    pub fn remove_command(self, pkg: &str) -> (r: String)
        ensures
            r@ == remove_line(self, pkg@),
    {
        let pre = match self {
            PackageManager::Pacman => "pkexec pacman -R --noconfirm ",
            PackageManager::Apt => "pkexec apt remove -y ",
            PackageManager::Dnf => "pkexec dnf remove -y ",
            PackageManager::Zypper => "pkexec zypper remove -y ",
        };
        let mut v = chars_of(pre);
        extend(&mut v, &chars_of(pkg));
        to_string(&v)
    }

    /// The command line that lists installed packages.
    pub fn list_command(self) -> (r: String)
        ensures
            r@ == list_line(self),
    {
        let s = match self {
            PackageManager::Pacman => "pacman -Q",
            PackageManager::Apt => "apt list --installed 2>/dev/null",
            PackageManager::Dnf => "dnf list installed",
            PackageManager::Zypper => "zypper packages --installed-only",
        };
        String::from_str(s)
    }
}

/// The most search results kept.
pub const MAX_SEARCH_RESULTS: usize = 60;

/// The most installed packages kept.
pub const MAX_INSTALLED: usize = 100;

/// Whether a search output line names a package: it is not blank and does
/// not begin with a space (descriptions are indented).
pub open spec fn names_found_package(l: Seq<char>) -> bool {
    !is_blank(l) && !(l.len() > 0 && l[0] == ' ')
}

/// Whether a listing line names a package: it is not blank and is not the
/// `Listing...` header.
pub open spec fn names_installed_package(l: Seq<char>) -> bool {
    !is_blank(l) && !has_prefix(l, "Listing"@)
}

/// Whether a line of an installed listing (`installed`) or of search
/// output names a package.
pub open spec fn keeps_line(installed: bool, l: Seq<char>) -> bool {
    if installed {
        names_installed_package(l)
    } else {
        names_found_package(l)
    }
}

/// The first words of the lines among the first `n` that name packages.
pub open spec fn first_words_where(ls: Seq<Seq<char>>, installed: bool, n: int) -> Seq<Seq<char>>
    decreases n,
{
    if n <= 0 {
        Seq::empty()
    } else {
        let before = first_words_where(ls, installed, n - 1);
        if keeps_line(installed, ls[n - 1]) && first_word(ls[n - 1]) is Some {
            before.push(first_word(ls[n - 1])->0)
        } else {
            before
        }
    }
}

/// The package names in a search output: the first word of each line that
/// names a package, at most `MAX_SEARCH_RESULTS` of them.
pub open spec fn search_results(out: Seq<char>) -> Seq<Seq<char>> {
    first_n(
        first_words_where(lines(out), false, lines(out).len() as int),
        MAX_SEARCH_RESULTS as nat,
    )
}

/// The package names in a listing of installed packages: the first word
/// of each line that names one, at most `MAX_INSTALLED` of them.
pub open spec fn installed_results(out: Seq<char>) -> Seq<Seq<char>> {
    first_n(
        first_words_where(lines(out), true, lines(out).len() as int),
        MAX_INSTALLED as nat,
    )
}

proof fn lemma_first_words_grow(ls: Seq<Seq<char>>, installed: bool, m: int, n: int)
    requires
        0 <= m <= n,
    ensures
        first_words_where(ls, installed, m).len() <= first_words_where(ls, installed, n).len(),
        first_words_where(ls, installed, n).subrange(0, first_words_where(ls, installed, m).len() as int)
            == first_words_where(ls, installed, m),
    decreases n - m,
{
    let a = first_words_where(ls, installed, m);
    if m < n {
        lemma_first_words_grow(ls, installed, m, n - 1);
        let b = first_words_where(ls, installed, n - 1);
        let c = first_words_where(ls, installed, n);
        assert(c.subrange(0, b.len() as int) =~= b);
        assert(c.subrange(0, a.len() as int) =~= b.subrange(0, a.len() as int));
    } else {
        assert(a.subrange(0, a.len() as int) =~= a);
    }
}

/// The first word of a line, if it has one.
fn first_word_of(line: &Vec<char>) -> (r: Option<Vec<char>>)
    ensures
        match r {
            Some(w) => first_word(line@) == Some(w@),
            None => first_word(line@) is None,
        },
{
    let mut ws = words_of(line);
    if ws.len() > 0 {
        let ghost all = views(ws@);
        let mut rest = ws.split_off(1);
        let w = ws.pop().unwrap();
        proof {
            assert(w@ == all[0]);
        }
        Some(w)
    } else {
        None
    }
}

/// The first words of the lines of `out` that name packages, at most
/// `limit` of them.
fn collect_names(out: &str, installed: bool, limit: usize) -> (r: Vec<String>)
    ensures
        text_views(r@) == first_n(
            first_words_where(lines(out@), installed, lines(out@).len() as int),
            limit as nat,
        ),
{
    let text = chars_of(out);
    let ls = lines_of(&text);
    let ghost lv = views(ls@);
    let listing = chars_of("Listing");
    let mut r: Vec<String> = Vec::new();
    let mut i: usize = 0;
    while i < ls.len() && r.len() < limit
        invariant
            i <= ls.len(),
            lv == views(ls@),
            lv == lines(out@),
            listing@ == "Listing"@,
            text_views(r@) == first_words_where(lv, installed, i as int),
            r.len() <= limit,
        decreases ls.len() - i,
    {
        let line = &ls[i];
        let accepted = if blank(line) {
            false
        } else if installed {
            !starts_with(line, &listing)
        } else {
            !(line.len() > 0 && line[0] == ' ')
        };
        proof {
            assert(line@ == lv[i as int]);
            assert(accepted == keeps_line(installed, lv[i as int]));
        }
        let ghost before = text_views(r@);
        if accepted {
            match first_word_of(line) {
                Some(w) => {
                    let s = to_string(&w);
                    r.push(s);
                    proof {
                        assert(text_views(r@) =~= before.push(w@));
                    }
                },
                None => {},
            }
        }
        i = i + 1;
    }
    proof {
        let all = first_words_where(lv, installed, lv.len() as int);
        lemma_first_words_grow(lv, installed, i as int, lv.len() as int);
        if r.len() >= limit {
            assert(all.subrange(0, limit as int) =~= text_views(r@));
        } else {
            assert(i == ls.len());
        }
    }
    r
}

/// The package named by a result line: after the last `/` (a repository
/// prefix such as `core/`), its first word; the whole line when that part
/// has no word.
pub open spec fn package_of(s: Seq<char>) -> Seq<char> {
    match first_word(last_piece(s, '/')) {
        Some(w) => w,
        None => s,
    }
}

/// The package panel.
pub struct PackagePanel {
    /// The package manager driven, if one was found.
    pub pm: Option<PackageManager>,
    pub idx: usize,
    pub results: Vec<String>,
    /// What the results are for: a query, `[installed]`, or `—` at first.
    pub query_label: String,
}

/// The views of a vector of strings.
pub open spec fn text_views(v: Seq<String>) -> Seq<Seq<char>> {
    v.map_values(|s: String| s@)
}

impl PackagePanel {
    /// A panel driving the first package manager found on this machine,
    /// given whether pacman, apt, dnf and zypper were found on the search
    /// path, with no results yet.
    pub fn new(pacman: bool, apt: bool, dnf: bool, zypper: bool) -> (p: PackagePanel)
        ensures
            p.manager() == first_found(pacman, apt, dnf, zypper),
            p.idx == 0,
            p.results@.len() == 0,
            p.query_label@ == "—"@,
    {
        PackagePanel::with_manager(PackageManager::first_of(pacman, apt, dnf, zypper))
    }

    /// A panel driving `pm`, with no results yet.
    pub fn with_manager(pm: Option<PackageManager>) -> (p: PackagePanel)
        ensures
            p.manager() == pm,
            p.idx == 0,
            p.results@.len() == 0,
            p.query_label@ == "—"@,
    {
        PackagePanel { pm, idx: 0, results: Vec::new(), query_label: String::from_str("—") }
    }

    /// The package manager in use.
    pub open spec fn manager(&self) -> Option<PackageManager> {
        self.pm
    }

    /// The package manager in use.
    pub fn pm(&self) -> (r: Option<PackageManager>)
        ensures
            r == self.manager(),
    {
        self.pm
    }

    /// Moves the cursor up one row, unless it is at the top.
    pub fn move_up(&mut self)
        ensures
            *final(self) == (PackagePanel { idx: step_up(old(self).idx), ..*old(self) }),
    {
        if self.idx > 0 {
            self.idx = self.idx - 1;
        }
    }

    /// Moves the cursor down one row, unless it is on the last.
    pub fn move_down(&mut self)
        ensures
            *final(self) == (PackagePanel {
                idx: step_down(old(self).idx, old(self).results@.len()),
                ..*old(self)
            }),
    {
        if self.idx < self.results.len() && self.idx + 1 < self.results.len() {
            self.idx = self.idx + 1;
        }
    }

    /// The name of the package manager in use, or `none`.
    pub fn pm_name(&self) -> (s: &'static str)
        ensures
            s@ == match self.manager() {
                Some(pm) => manager_name(pm),
                None => "none"@,
            },
    {
        match self.pm {
            Some(pm) => pm.name(),
            None => "none",
        }
    }

    /// The command line that searches for `q`, or `None` when there is no
    /// package manager (and nothing happens).
    pub fn search(&self, q: &str) -> (r: Option<String>)
        ensures
            match self.manager() {
                Some(pm) => r matches Some(c) && c@ == search_line(pm, q@),
                None => r is None,
            },
    {
        match self.pm {
            Some(pm) => Some(pm.search_command(q)),
            None => None,
        }
    }

    /// Shows the results of searching for `q`, given the search output.
    pub fn apply_search(&mut self, q: &str, out: &str)
        ensures
            final(self).query_label@ == q@,
            text_views(final(self).results@) == search_results(out@),
            final(self).idx == 0,
            final(self).manager() == old(self).manager(),
    {
        self.query_label = String::from_str(q);
        self.results = collect_names(out, false, MAX_SEARCH_RESULTS);
        self.idx = 0;
    }

    /// The command line that lists installed packages, or `None` when
    /// there is no package manager (and nothing happens).
    pub fn list_installed(&self) -> (r: Option<String>)
        ensures
            match self.manager() {
                Some(pm) => r matches Some(c) && c@ == list_line(pm),
                None => r is None,
            },
    {
        match self.pm {
            Some(pm) => Some(pm.list_command()),
            None => None,
        }
    }

    /// Shows the installed packages, given the listing output.
    pub fn apply_installed(&mut self, out: &str)
        ensures
            final(self).query_label@ == "[installed]"@,
            text_views(final(self).results@) == installed_results(out@),
            final(self).idx == 0,
            final(self).manager() == old(self).manager(),
    {
        self.query_label = String::from_str("[installed]");
        self.results = collect_names(out, true, MAX_INSTALLED);
        self.idx = 0;
    }

    /// The package on the result line under the cursor (see `package_of`).
    pub fn current_pkg(&self) -> (r: Option<String>)
        ensures
            self.idx < self.results.len() ==> (r matches Some(p) && p@ == package_of(
                self.results@[self.idx as int]@,
            )),
            self.idx >= self.results.len() ==> r is None,
    {
        if self.idx < self.results.len() {
            let s = chars_of(self.results[self.idx].as_str());
            let tail = after_last(&s, '/');
            match first_word_of(&tail) {
                Some(w) => Some(to_string(&w)),
                None => Some(self.results[self.idx].clone()),
            }
        } else {
            None
        }
    }

    /// The command line that installs `pkg`, or `None` when there is no
    /// package manager (reported as "No package manager").
    pub fn install(&self, pkg: &str) -> (r: Option<String>)
        ensures
            match self.manager() {
                Some(pm) => r matches Some(c) && c@ == install_line(pm, pkg@),
                None => r is None,
            },
    {
        match self.pm {
            Some(pm) => Some(pm.install_command(pkg)),
            None => None,
        }
    }

    /// The command line that removes `pkg`, or `None` when there is no
    /// package manager (reported as "No package manager").
    pub fn remove(&self, pkg: &str) -> (r: Option<String>)
        ensures
            match self.manager() {
                Some(pm) => r matches Some(c) && c@ == remove_line(pm, pkg@),
                None => r is None,
            },
    {
        match self.pm {
            Some(pm) => Some(pm.remove_command(pkg)),
            None => None,
        }
    }
}

} // verus!
