//! The six panels of the console and the order in which Tab visits them.

use vstd::prelude::*;

verus! {

/// A panel of the console.
#[derive(Clone, Copy, PartialEq, Eq, Debug, Structural)]
pub enum Tab {
    Files,
    Procs,
    Services,
    Packages,
    Disks,
    Users,
}

/// How many panels there are.
pub const TAB_COUNT: usize = 6;

/// The position of a panel in the tab bar, from 0 (Files) to 5 (Users).
pub open spec fn tab_index(t: Tab) -> int {
    match t {
        Tab::Files => 0,
        Tab::Procs => 1,
        Tab::Services => 2,
        Tab::Packages => 3,
        Tab::Disks => 4,
        Tab::Users => 5,
    }
}

/// The panel at a position of the tab bar (positions are taken modulo 6).
pub open spec fn tab_at(i: int) -> Tab {
    let k = i % 6;
    if k == 0 {
        Tab::Files
    } else if k == 1 {
        Tab::Procs
    } else if k == 2 {
        Tab::Services
    } else if k == 3 {
        Tab::Packages
    } else if k == 4 {
        Tab::Disks
    } else {
        Tab::Users
    }
}

/// The panel after `t` in the tab bar; Files follows Users.
pub open spec fn next_tab(t: Tab) -> Tab {
    tab_at(tab_index(t) + 1)
}

/// The panel before `t` in the tab bar; Users precedes Files.
pub open spec fn prev_tab(t: Tab) -> Tab {
    tab_at(tab_index(t) + 5)
}

/// The heading shown for a panel.
pub open spec fn tab_label(t: Tab) -> Seq<char> {
    match t {
        Tab::Files => "FILES"@,
        Tab::Procs => "PROCS"@,
        Tab::Services => "SERVICES"@,
        Tab::Packages => "PACKAGES"@,
        Tab::Disks => "DISKS"@,
        Tab::Users => "USERS"@,
    }
}

impl Tab {
    /// The heading shown for the panel.
    pub fn label(self) -> (s: &'static str)
        ensures
            s@ == tab_label(self),
    {
        match self {
            Tab::Files => "FILES",
            Tab::Procs => "PROCS",
            Tab::Services => "SERVICES",
            Tab::Packages => "PACKAGES",
            Tab::Disks => "DISKS",
            Tab::Users => "USERS",
        }
    }

    /// The position of the panel in the tab bar.
    pub fn index(self) -> (i: usize)
        ensures
            i == tab_index(self),
    {
        match self {
            Tab::Files => 0,
            Tab::Procs => 1,
            Tab::Services => 2,
            Tab::Packages => 3,
            Tab::Disks => 4,
            Tab::Users => 5,
        }
    }

    /// The panel at position `i` of the tab bar.
    pub fn at(i: usize) -> (t: Tab)
        requires
            i < TAB_COUNT,
        ensures
            t == tab_at(i as int),
            tab_index(t) == i,
    {
        if i == 0 {
            Tab::Files
        } else if i == 1 {
            Tab::Procs
        } else if i == 2 {
            Tab::Services
        } else if i == 3 {
            Tab::Packages
        } else if i == 4 {
            Tab::Disks
        } else {
            Tab::Users
        }
    }

    /// The panel that Tab moves to: the next one, after Users Files again.
    pub fn next(self) -> (t: Tab)
        ensures
            t == next_tab(self),
    {
        Tab::at((self.index() + 1) % TAB_COUNT)
    }

    /// The panel that BackTab moves to: the previous one, before Files
    /// Users.
    pub fn prev(self) -> (t: Tab)
        ensures
            t == prev_tab(self),
    {
        Tab::at((self.index() + TAB_COUNT - 1) % TAB_COUNT)
    }
}

/// Every panel sits at its own position of the tab bar.
pub proof fn lemma_tab_at_index(t: Tab)
    ensures
        tab_at(tab_index(t)) == t,
        0 <= tab_index(t) < 6,
{
}

/// Tab and BackTab undo each other: moving forward then back, or back then
/// forward, returns to the panel one started from.
pub proof fn law_next_prev_inverse(t: Tab)
    ensures
        prev_tab(next_tab(t)) == t,
        next_tab(prev_tab(t)) == t,
{
}

/// Pressing Tab six times visits every panel once and comes back to the
/// panel one started from.
pub proof fn law_tab_cycle(t: Tab)
    ensures
        next_tab(next_tab(next_tab(next_tab(next_tab(next_tab(t)))))) == t,
        next_tab(t) != t,
        next_tab(next_tab(t)) != t,
        next_tab(next_tab(next_tab(t))) != t,
        next_tab(next_tab(next_tab(next_tab(t)))) != t,
        next_tab(next_tab(next_tab(next_tab(next_tab(t))))) != t,
{
}

} // verus!
