//! The console's state and what each key does to it.
//!
//! `App::handle_key` is the whole key map: it changes the state and returns
//! the `Effect` that the program around the library must carry out. The
//! `App` methods named in `Effect` take the results back in.

use vstd::prelude::*;
use crate::effect::{CommandOutput, Effect, PackageCommand, PreviewSource, UserCommand};
use crate::modal::{ConfirmAction, InputAction, Modal, ModalKind};
use crate::notify::{fresh_notice, ticked, NotifKind, Notification, NOTIF_TICKS};
use crate::outside::{file_name_of, path_file_name, path_parent, pop_char, push_char};
use crate::text::chars_of;
use crate::panels::disk::{disk_usage_report, umount_report, DiskInfo, DiskPanel};
use crate::panels::files::{archive_kind, preview_text, previewable, target_name, string_views, targets_of, ClipOp, FileEntry, FilePanel, listing_of};
use crate::panels::nav::{clamp, step_down, step_up};
use crate::data::{refreshed, Sample, SystemData};
use crate::panels::packages::{installed_results, search_results, text_views, PackagePanel};
use crate::panels::procs::{proc_status_report, ProcInfo, ProcPanel, next_sort};
use crate::panels::services::{action_report, service_views, services_listed, status_report, ServicePanel};
use crate::panels::users::{command_report, report_or, user_report, user_views, users_listed, UserPanel};
use crate::tab::{next_tab, prev_tab, Tab};
use crate::view::{one_decimal, one_decimal_chars};
use crate::text::{decimal, decimal_chars, extend, first_n, join, to_string};
use vstd::string::StringExecFns;

verus! {

/// A key press, as far as the console tells keys apart.
#[derive(Clone, Copy, PartialEq, Eq, Debug, Structural)]
pub enum Key {
    Char(char),
    Enter,
    Backspace,
    Esc,
    Tab,
    BackTab,
    Up,
    Down,
    /// A function key, `F(5)` for F5.
    F(u8),
    /// Any other key.
    Other,
}

/// The console.
pub struct App {
    pub active_tab: Tab,
    pub should_quit: bool,
    pub notif: Option<Notification>,
    pub modal: Option<Modal>,
    pub files: FilePanel,
    pub procs: ProcPanel,
    pub services: ServicePanel,
    pub packages: PackagePanel,
    pub disks: DiskPanel,
    pub users: UserPanel,
}

// ───────────────────────────── texts ──────────────────────────────────

/// The summary Enter shows for a process.
pub open spec fn proc_summary(p: ProcInfo) -> Seq<char> {
    "PID "@ + decimal(p.pid as nat) + "  "@ + p.name@ + "  CPU "@ + one_decimal(p.cpu) + "%  MEM "@
        + one_decimal(p.mem) + "%"@
}

/// The question asked before deleting files: the names of the first three
/// targets.
pub open spec fn delete_question(targets: Seq<Seq<char>>) -> Seq<char> {
    "Delete: "@ + join(first_n(targets.map_values(|t: Seq<char>| target_name(t)), 3), ", "@) + "?"@
}

// ───────────────────────────── state predicates ───────────────────────

/// `new` is `old` with only the notification changed, to a fresh one with
/// this text and tone.
pub open spec fn notified(old: App, new: App, text: Seq<char>, kind: NotifKind) -> bool {
    &&& new == App { notif: new.notif, ..old }
    &&& fresh_notice(new.notif, text, kind)
}

/// `new` is `old` with a dialog opened.
pub open spec fn opened(old: App, new: App, m: Modal) -> bool {
    new == App { modal: Some(m), ..old }
}

/// `new` is `old` with a confirmation dialog asking `q`.
pub open spec fn asks(old: App, new: App, q: Seq<char>) -> bool {
    &&& new == App { modal: new.modal, ..old }
    &&& new.modal matches Some(m) && m.kind == ModalKind::Confirm && m.title@ == " CONFIRM"@
        && m.body@ == q && m.input@.len() == 0 && m.on_confirm is Some && m.on_input is None
}

/// What the confirmation dialog of `a` does on Enter.
pub open spec fn on_confirm(a: App) -> ConfirmAction {
    a.modal->0.on_confirm->0
}

/// `new` is `old` with an input dialog titled `prompt`, its line starting
/// as `default`, doing `a`.
pub open spec fn prompts(old: App, new: App, prompt: Seq<char>, default: Seq<char>, a: InputAction) -> bool {
    &&& new == App { modal: new.modal, ..old }
    &&& new.modal matches Some(m) && m.kind == ModalKind::Input && m.title@ == prompt && m.body@.len()
        == 0 && m.input@ == default && m.on_confirm is None && m.on_input == Some(a)
}

/// `new` is `old` with a message dialog.
pub open spec fn shows(old: App, new: App, title: Seq<char>, body: Seq<char>) -> bool {
    &&& new == App { modal: new.modal, ..old }
    &&& new.modal matches Some(m) && m.kind == ModalKind::Message && m.title@ == title && m.body@
        == body && m.input@.len() == 0 && m.on_confirm is None && m.on_input is None
}

/// Up: the cursor of the active panel moves up.
pub open spec fn moved_up(old: App, new: App) -> bool {
    match old.active_tab {
        Tab::Files => new == App {
            files: FilePanel {
                idx: if old.files.entries@.len() > 0 { step_up(old.files.idx) } else { old.files.idx },
                ..old.files
            },
            ..old
        },
        Tab::Procs => new == App { procs: ProcPanel { idx: step_up(old.procs.idx), ..old.procs }, ..old },
        Tab::Services => new == App {
            services: ServicePanel { idx: step_up(old.services.idx), ..old.services },
            ..old
        },
        Tab::Packages => new == App {
            packages: PackagePanel { idx: step_up(old.packages.idx), ..old.packages },
            ..old
        },
        Tab::Disks => new == App { disks: DiskPanel { idx: step_up(old.disks.idx), ..old.disks }, ..old },
        Tab::Users => new == App { users: UserPanel { idx: step_up(old.users.idx), ..old.users }, ..old },
    }
}

/// Down: the cursor of the active panel moves down.
pub open spec fn moved_down(old: App, new: App) -> bool {
    match old.active_tab {
        Tab::Files => new == App {
            files: FilePanel { idx: step_down(old.files.idx, old.files.entries@.len()), ..old.files },
            ..old
        },
        Tab::Procs => new == App {
            procs: ProcPanel { idx: step_down(old.procs.idx, old.procs.procs@.len()), ..old.procs },
            ..old
        },
        Tab::Services => new == App {
            services: ServicePanel {
                idx: step_down(old.services.idx, old.services.services@.len()),
                ..old.services
            },
            ..old
        },
        Tab::Packages => new == App {
            packages: PackagePanel {
                idx: step_down(old.packages.idx, old.packages.results@.len()),
                ..old.packages
            },
            ..old
        },
        Tab::Disks => new == App {
            disks: DiskPanel { idx: step_down(old.disks.idx, old.disks.disks@.len()), ..old.disks },
            ..old
        },
        Tab::Users => new == App {
            users: UserPanel { idx: step_down(old.users.idx, old.users.users@.len()), ..old.users },
            ..old
        },
    }
}

/// What a frame does: the notification ticks; a snapshot, when there is
/// one, replaces the processes (in the panel's order) and the disks, each
/// cursor kept on its list.
pub open spec fn framed(old: App, snapshot: Option<(Vec<ProcInfo>, Vec<DiskInfo>)>, new: App) -> bool {
    &&& new.notif == ticked(old.notif)
    &&& match snapshot {
        None => new == App { notif: new.notif, ..old },
        Some((procs, disks)) => {
            &&& crate::sort::stable_sorted(
                procs@,
                new.procs.procs@,
                |a: ProcInfo, b: ProcInfo| crate::panels::procs::proc_before(old.procs.sort_by, a, b),
            )
            &&& new.procs.idx == clamp(old.procs.idx, procs@.len())
            &&& new.procs.sort_by == old.procs.sort_by
            &&& new.disks.disks == disks
            &&& new.disks.idx == clamp(old.disks.idx, disks@.len())
            &&& new == App { notif: new.notif, procs: new.procs, disks: new.disks, ..old }
        },
    }
}

impl App {
    /// The console on its Files panel, with no notification and no dialog,
    /// holding the given panels and empty process and disk panels.
    pub fn new(files: FilePanel, services: ServicePanel, packages: PackagePanel, users: UserPanel) -> (a: App)
        ensures
            a.active_tab == Tab::Files,
            !a.should_quit,
            a.notif is None,
            a.modal is None,
            a.files == files,
            a.services == services,
            a.packages == packages,
            a.users == users,
            a.procs.idx == 0 && a.procs.procs@.len() == 0 && a.procs.sort_by
                == crate::panels::procs::SortBy::Cpu,
            a.disks.idx == 0 && a.disks.disks@.len() == 0,
    {
        App {
            active_tab: Tab::Files,
            should_quit: false,
            notif: None,
            modal: None,
            files,
            procs: ProcPanel::new(),
            services,
            packages,
            disks: DiskPanel::new(),
            users,
        }
    }

    /// Posts a notification for `NOTIF_TICKS` ticks, replacing any other.
    pub fn notify(&mut self, text: String, kind: NotifKind)
        ensures
            *final(self) == (App {
                notif: Some(Notification { text: text, kind: kind, ticks: NOTIF_TICKS }),
                ..*old(self)
            }),
    {
        self.notif = Some(Notification { text, kind, ticks: NOTIF_TICKS });
    }

    /// One frame passes for the notification: a tick is taken, or the
    /// notification goes when none were left.
    pub fn tick_notif(&mut self)
        ensures
            *final(self) == (App { notif: ticked(old(self).notif), ..*old(self) }),
    {
        let n = self.notif.take();
        match n {
            Some(x) => {
                if x.ticks == 0 {
                    self.notif = None;
                } else {
                    self.notif = Some(Notification { ticks: x.ticks - 1, ..x });
                }
            },
            None => {},
        }
    }

    /// What each frame does before drawing: show the latest process and
    /// disk snapshot, when there is one, then tick the notification.
    pub fn frame(&mut self, snapshot: Option<(Vec<ProcInfo>, Vec<DiskInfo>)>)
        ensures
            framed(*old(self), snapshot, *final(self)),
    {
        match snapshot {
            Some((procs, disks)) => {
                self.procs.update(procs);
                self.disks.update(disks);
            },
            None => {},
        }
        self.tick_notif();
    }

    /// Whether the key quits the console: `q` with no modifier, while no
    /// dialog is open.
    pub fn is_quit_key(&self, key: Key, no_modifiers: bool) -> (b: bool)
        ensures
            b == (key == Key::Char('q') && no_modifiers && self.modal is None),
    {
        key == Key::Char('q') && no_modifiers && self.modal.is_none()
    }

    fn nav_up(&mut self)
        ensures
            moved_up(*old(self), *final(self)),
    {
        match self.active_tab {
            Tab::Files => self.files.move_up(),
            Tab::Procs => self.procs.move_up(),
            Tab::Services => self.services.move_up(),
            Tab::Packages => self.packages.move_up(),
            Tab::Disks => self.disks.move_up(),
            Tab::Users => self.users.move_up(),
        }
    }

    fn nav_down(&mut self)
        ensures
            moved_down(*old(self), *final(self)),
    {
        match self.active_tab {
            Tab::Files => self.files.move_down(),
            Tab::Procs => self.procs.move_down(),
            Tab::Services => self.services.move_down(),
            Tab::Packages => self.packages.move_down(),
            Tab::Disks => self.disks.move_down(),
            Tab::Users => self.users.move_down(),
        }
    }

    fn say(&mut self, text: &str, kind: NotifKind)
        ensures
            notified(*old(self), *final(self), text@, kind),
    {
        self.notify(String::from_str(text), kind);
    }
}

/// The effect of Enter on the file panel: list the directory under the
/// cursor, open the file under it, or nothing.
pub open spec fn enter_effect(f: FilePanel, eff: Effect) -> bool {
    if f.idx < f.entries@.len() {
        if f.entries@[f.idx as int].is_dir {
            eff matches Effect::ListDir { dir } && dir@ == f.entries@[f.idx as int].path@
        } else {
            eff matches Effect::OpenFile { path } && path@ == f.entries@[f.idx as int].path@
        }
    } else {
        eff is Nothing
    }
}

/// Enter: open on Files, a summary of the process on Procs.
pub open spec fn entered(old: App, new: App, eff: Effect) -> bool {
    match old.active_tab {
        Tab::Files => new == old && enter_effect(old.files, eff),
        Tab::Procs => eff is Nothing && if old.procs.idx < old.procs.procs@.len() {
            notified(old, new, proc_summary(old.procs.procs@[old.procs.idx as int]), NotifKind::Info)
        } else {
            new == old
        },
        _ => new == old && eff is Nothing,
    }
}

/// Backspace: on Files, list the parent directory.
pub open spec fn went_back(old: App, new: App, eff: Effect) -> bool {
    &&& new == old
    &&& if old.active_tab == Tab::Files {
        match path_parent(old.files.path@) {
            Some(d) => eff matches Effect::ListDir { dir } && dir@ == d,
            None => eff is Nothing,
        }
    } else {
        eff is Nothing
    }
}

/// Space: on Files, select or unselect the entry and move down.
pub open spec fn toggled(old: App, new: App) -> bool {
    if old.active_tab == Tab::Files {
        &&& new == App { files: new.files, ..old }
        &&& new.files.selected@ == if old.files.selected@.contains(old.files.idx) {
            old.files.selected@.remove(old.files.idx)
        } else {
            old.files.selected@.insert(old.files.idx)
        }
        &&& new.files.idx == step_down(old.files.idx, old.files.entries@.len())
        &&& new.files.path == old.files.path
        &&& new.files.entries == old.files.entries
        &&& new.files.clipboard == old.files.clipboard
    } else {
        new == old
    }
}

/// `c` or `x`: on Files, the targets go on the clipboard (when there are
/// any) with the given operation, and a notification says so.
pub open spec fn clipped(old: App, new: App, op: ClipOp, text: Seq<char>, kind: NotifKind) -> bool {
    if old.active_tab == Tab::Files {
        &&& new == App { files: new.files, notif: new.notif, ..old }
        &&& new.files == FilePanel { clipboard: new.files.clipboard, ..old.files }
        &&& targets_of(old.files).len() > 0 ==> (new.files.clipboard matches Some(c) && c.op == op
            && string_views(c.paths@) == targets_of(old.files))
        &&& targets_of(old.files).len() == 0 ==> new.files.clipboard == old.files.clipboard
        &&& fresh_notice(new.notif, text, kind)
    } else {
        new == old
    }
}

/// `v`: on Files, paste what the clipboard holds into the directory shown,
/// or report that it is empty.
pub open spec fn pasting(old: App, new: App, eff: Effect) -> bool {
    if old.active_tab == Tab::Files {
        match old.files.clipboard {
            Some(c) => new == old && (eff matches Effect::Paste { paths, cut, dest } && paths@ == c.paths@
                && cut == (c.op == ClipOp::Cut) && dest@ == old.files.path@),
            None => notified(old, new, "Clipboard empty"@, NotifKind::Failure) && eff is Nothing,
        }
    } else {
        new == old && eff is Nothing
    }
}

impl App {
    fn act_enter(&mut self) -> (eff: Effect)
        ensures
            entered(*old(self), *final(self), eff),
    {
        match self.active_tab {
            Tab::Files => self.files.enter(),
            Tab::Procs => {
                if self.procs.idx < self.procs.procs.len() {
                    let p = &self.procs.procs[self.procs.idx];
                    let mut v = chars_of("PID ");
                    extend(&mut v, &decimal_chars(p.pid as u64));
                    extend(&mut v, &chars_of("  "));
                    extend(&mut v, &chars_of(p.name.as_str()));
                    extend(&mut v, &chars_of("  CPU "));
                    extend(&mut v, &one_decimal_chars(p.cpu));
                    extend(&mut v, &chars_of("%  MEM "));
                    extend(&mut v, &one_decimal_chars(p.mem));
                    extend(&mut v, &chars_of("%"));
                    let text = to_string(&v);
                    self.notify(text, NotifKind::Info);
                }
                Effect::Nothing
            },
            _ => Effect::Nothing,
        }
    }

    fn act_back(&mut self) -> (eff: Effect)
        ensures
            went_back(*old(self), *final(self), eff),
    {
        if self.active_tab == Tab::Files {
            match self.files.go_back() {
                Some(d) => Effect::ListDir { dir: d },
                None => Effect::Nothing,
            }
        } else {
            Effect::Nothing
        }
    }

    fn act_space(&mut self)
        ensures
            toggled(*old(self), *final(self)),
    {
        if self.active_tab == Tab::Files {
            self.files.toggle_select();
        }
    }

    fn act_copy(&mut self)
        ensures
            clipped(*old(self), *final(self), ClipOp::Copy, "Copied to clipboard"@, NotifKind::Success),
    {
        if self.active_tab == Tab::Files {
            self.files.copy_files();
            self.say("Copied to clipboard", NotifKind::Success);
        }
    }

    fn act_cut(&mut self)
        ensures
            clipped(*old(self), *final(self), ClipOp::Cut, "Cut to clipboard"@, NotifKind::Warn),
    {
        if self.active_tab == Tab::Files {
            self.files.cut_files();
            self.say("Cut to clipboard", NotifKind::Warn);
        }
    }

    fn act_paste(&mut self) -> (eff: Effect)
        ensures
            pasting(*old(self), *final(self), eff),
    {
        if self.active_tab == Tab::Files {
            match self.files.paste_files() {
                Ok(eff) => eff,
                Err(e) => {
                    self.notify(e, NotifKind::Failure);
                    Effect::Nothing
                },
            }
        } else {
            Effect::Nothing
        }
    }
}

/// The verb of a service number key: 1 start, 2 stop, 3 restart, 4
/// enable, 5 disable.
pub open spec fn service_verb(c: char) -> Option<Seq<char>> {
    if c == '1' {
        Some("start"@)
    } else if c == '2' {
        Some("stop"@)
    } else if c == '3' {
        Some("restart"@)
    } else if c == '4' {
        Some("enable"@)
    } else if c == '5' {
        Some("disable"@)
    } else {
        None
    }
}

/// `d`: confirm deleting the file targets, or the account under the
/// cursor.
pub open spec fn deleting(old: App, new: App) -> bool {
    match old.active_tab {
        Tab::Files => if targets_of(old.files).len() > 0 {
            asks(old, new, delete_question(targets_of(old.files))) && on_confirm(new)
                == ConfirmAction::DeleteFiles
        } else {
            new == old
        },
        Tab::Users => if old.users.idx < old.users.users@.len() {
            let u = old.users.users@[old.users.idx as int];
            asks(old, new, "Delete user: "@ + u.name@ + "?"@) && on_confirm(new)
                == ConfirmAction::DeleteUser { name: u.name }
        } else {
            new == old
        },
        _ => new == old,
    }
}

/// `r`: on Files, ask for a new name for the first target, starting from
/// its current name.
pub open spec fn renaming(old: App, new: App) -> bool {
    let t = targets_of(old.files);
    if old.active_tab == Tab::Files && t.len() > 0 && path_file_name(t[0]) is Some {
        prompts(old, new, "Rename to:"@, path_file_name(t[0])->0, InputAction::Rename)
    } else {
        new == old
    }
}

/// `n`: ask for a folder name on Files, a new nice value on Procs, a
/// user name on Users.
pub open spec fn naming(old: App, new: App) -> bool {
    match old.active_tab {
        Tab::Files => prompts(old, new, "New folder name:"@, Seq::empty(), InputAction::NewFolder),
        Tab::Procs => prompts(old, new, "Renice value (-20 to 19):"@, Seq::empty(), InputAction::Renice),
        Tab::Users => prompts(old, new, "New username:"@, Seq::empty(), InputAction::AddUser),
        _ => new == old,
    }
}

/// `p`: on Files, preview the first target, or say nothing is selected.
pub open spec fn previewing(old: App, new: App, eff: Effect) -> bool {
    if old.active_tab == Tab::Files {
        let t = targets_of(old.files);
        if t.len() > 0 {
            new == old && (eff matches Effect::Preview { path } && path@ == t[0])
        } else {
            shows(old, new, "Preview"@, "Nothing selected."@) && eff is Nothing
        }
    } else {
        new == old && eff is Nothing
    }
}

/// A key that opens an input dialog on Files only.
pub open spec fn files_prompt(old: App, new: App, prompt: Seq<char>, a: InputAction) -> bool {
    if old.active_tab == Tab::Files {
        prompts(old, new, prompt, Seq::empty(), a)
    } else {
        new == old
    }
}

/// `e`: on Files, unpack the first target when its name shows an archive,
/// then list the directory again.
pub open spec fn extracting(old: App, new: App, eff: Effect) -> bool {
    &&& new == old
    &&& if old.active_tab == Tab::Files {
        let t = targets_of(old.files);
        eff matches Effect::Extract { archive, dir } && dir@ == old.files.path@ && if t.len() > 0
            && archive_kind(t[0]) is Some {
            archive matches Some((p, k)) && p@ == t[0] && k == archive_kind(t[0])->0
        } else {
            archive is None
        }
    } else {
        eff is Nothing
    }
}

/// `k`: confirm killing the process or unmounting the disk under the
/// cursor; on Users, ask whether to lock or unlock.
pub open spec fn killing(old: App, new: App) -> bool {
    match old.active_tab {
        Tab::Procs => if old.procs.idx < old.procs.procs@.len() {
            let p = old.procs.procs@[old.procs.idx as int];
            asks(old, new, "Kill PID "@ + decimal(p.pid as nat) + " ("@ + p.name@ + ")?"@) && on_confirm(
                new,
            ) == ConfirmAction::KillProcess { name: p.name }
        } else {
            new == old
        },
        Tab::Disks => if old.disks.idx < old.disks.disks@.len() {
            let d = old.disks.disks@[old.disks.idx as int];
            asks(old, new, "Unmount "@ + d.mount@ + "?"@) && on_confirm(new)
                == ConfirmAction::Unmount { mount: d.mount }
        } else {
            new == old
        },
        Tab::Users => prompts(old, new, "lock or unlock?"@, Seq::empty(), InputAction::LockOrUnlock),
        _ => new == old,
    }
}

/// `i`: details of the service, disk or process under the cursor; on
/// Users, ask for a group.
pub open spec fn informing(old: App, new: App, eff: Effect) -> bool {
    match old.active_tab {
        Tab::Services => new == old && if old.services.idx < old.services.services@.len() {
            eff matches Effect::ServiceStatus { name } && name
                == old.services.services@[old.services.idx as int].name
        } else {
            eff is Nothing
        },
        Tab::Disks => new == old && if old.disks.idx < old.disks.disks@.len() {
            eff matches Effect::DiskUsage { mount } && mount == old.disks.disks@[old.disks.idx as int].mount
        } else {
            eff is Nothing
        },
        Tab::Procs => new == old && if old.procs.idx < old.procs.procs@.len() {
            eff matches Effect::ProcStatus { pid, name } && pid == old.procs.procs@[old.procs.idx as int].pid
                && name == old.procs.procs@[old.procs.idx as int].name
        } else {
            eff is Nothing
        },
        Tab::Users => prompts(old, new, "Add to group:"@, Seq::empty(), InputAction::AddToGroup)
            && eff is Nothing,
        _ => new == old && eff is Nothing,
    }
}

/// `t`: on Procs, switch to the next order.
pub open spec fn resorted(old: App, new: App) -> bool {
    if old.active_tab == Tab::Procs {
        new == App { procs: ProcPanel { sort_by: next_sort(old.procs.sort_by), ..old.procs }, ..old }
    } else {
        new == old
    }
}

/// `l`: on Packages, list the installed packages (reported when they
/// arrive); with no package manager, only the report.
pub open spec fn listing(old: App, new: App, eff: Effect) -> bool {
    if old.active_tab == Tab::Packages {
        match old.packages.pm {
            Some(pm) => new == old && (eff matches Effect::Shell { command, purpose } && command@
                == crate::panels::packages::list_line(pm) && purpose is ListInstalled),
            None => notified(old, new, "Listed installed packages"@, NotifKind::Success) && eff is Nothing,
        }
    } else {
        new == old && eff is Nothing
    }
}

/// F5: sample the machine now on Procs, reload services or users, and
/// say so.
pub open spec fn refreshing(old: App, new: App, eff: Effect) -> bool {
    &&& notified(old, new, "Refreshed"@, NotifKind::Success)
    &&& match old.active_tab {
        Tab::Procs => eff is SampleNow,
        Tab::Services => eff is ListServices,
        Tab::Users => eff is ReadUsers,
        _ => eff is Nothing,
    }
}

/// `1`..`5`: on Services confirm start, stop, restart, enable or disable
/// of the service under the cursor; on Packages, `1` confirms installing
/// and `2` removing the package under the cursor.
pub open spec fn numbered(old: App, new: App, c: char) -> bool {
    match old.active_tab {
        Tab::Services => if old.services.idx < old.services.services@.len() && service_verb(c) is Some {
            let sv = old.services.services@[old.services.idx as int];
            let verb = service_verb(c)->0;
            asks(old, new, verb + " service: "@ + sv.name@ + "?"@) && (on_confirm(new) matches ConfirmAction::ServiceAction { name, action } && name == sv.name && action@ == verb)
        } else {
            new == old
        },
        Tab::Packages => if old.packages.idx < old.packages.results@.len() && (c == '1' || c == '2') {
            let pkg = crate::panels::packages::package_of(old.packages.results@[old.packages.idx as int]@);
            if c == '1' {
                asks(old, new, "Install: "@ + pkg + "?"@) && (on_confirm(new) matches ConfirmAction::Install { pkg: p } && p@ == pkg)
            } else {
                asks(old, new, "Remove: "@ + pkg + "?"@) && (on_confirm(new) matches ConfirmAction::Remove { pkg: p } && p@ == pkg)
            }
        } else {
            new == old
        },
        _ => new == old,
    }
}

/// The name of the first target, if it has one.
fn first_target_name(t: &Vec<String>) -> (r: Option<String>)
    requires
        t.len() > 0,
    ensures
        match r {
            Some(n) => path_file_name(t@[0]@) == Some(n@),
            None => path_file_name(t@[0]@) is None,
        },
{
    file_name_of(t[0].as_str())
}

/// The question asked before deleting the targets.
fn delete_question_text(t: &Vec<String>) -> (r: String)
    ensures
        r@ == delete_question(string_views(t@)),
{
    let n = if t.len() < 3 { t.len() } else { 3 };
    let mut names: Vec<Vec<char>> = Vec::new();
    let mut i: usize = 0;
    let ghost all = string_views(t@).map_values(|x: Seq<char>| target_name(x));
    while i < n
        invariant
            n <= t.len(),
            i <= n,
            all == string_views(t@).map_values(|x: Seq<char>| target_name(x)),
            crate::text::views(names@) == all.subrange(0, i as int),
        decreases n - i,
    {
        let nm = match file_name_of(t[i].as_str()) {
            Some(x) => chars_of(x.as_str()),
            None => Vec::new(),
        };
        proof {
            assert(nm@ == all[i as int]);
        }
        let ghost before = crate::text::views(names@);
        names.push(nm);
        i = i + 1;
        proof {
            assert(crate::text::views(names@) =~= before.push(nm@));
            assert(crate::text::views(names@) =~= all.subrange(0, i as int));
        }
    }
    let sep = chars_of(", ");
    let mut v = chars_of("Delete: ");
    let joined = crate::text::join_first(&names, n, &sep);
    extend(&mut v, &joined);
    extend(&mut v, &chars_of("?"));
    proof {
        assert(crate::text::views(names@).subrange(0, n as int) =~= first_n(all, 3));
    }
    to_string(&v)
}

impl App {
    fn ask(&mut self, question: Vec<char>, action: ConfirmAction)
        ensures
            asks(*old(self), *final(self), question@),
            on_confirm(*final(self)) == action,
    {
        self.modal = Some(Modal::confirm(to_string(&question), action));
    }

    fn prompt(&mut self, prompt: &str, default: String, action: InputAction)
        ensures
            prompts(*old(self), *final(self), prompt@, default@, action),
    {
        self.modal = Some(Modal::input(String::from_str(prompt), default, action));
    }

    fn act_delete(&mut self)
        ensures
            deleting(*old(self), *final(self)),
    {
        match self.active_tab {
            Tab::Files => {
                let t = self.files.targets();
                if t.len() > 0 {
                    let q = delete_question_text(&t);
                    self.ask(chars_of(q.as_str()), ConfirmAction::DeleteFiles);
                }
            },
            Tab::Users => {
                if self.users.idx < self.users.users.len() {
                    let name = self.users.users[self.users.idx].name.clone();
                    let mut q = chars_of("Delete user: ");
                    extend(&mut q, &chars_of(name.as_str()));
                    extend(&mut q, &chars_of("?"));
                    self.ask(q, ConfirmAction::DeleteUser { name });
                }
            },
            _ => {},
        }
    }

    fn act_rename(&mut self)
        ensures
            renaming(*old(self), *final(self)),
    {
        if self.active_tab == Tab::Files {
            let t = self.files.targets();
            if t.len() > 0 {
                match first_target_name(&t) {
                    Some(cur) => self.prompt("Rename to:", cur, InputAction::Rename),
                    None => {},
                }
            }
        }
    }

    fn act_new(&mut self)
        ensures
            naming(*old(self), *final(self)),
    {
        match self.active_tab {
            Tab::Files => self.prompt("New folder name:", String::new(), InputAction::NewFolder),
            Tab::Procs => self.prompt("Renice value (-20 to 19):", String::new(), InputAction::Renice),
            Tab::Users => self.prompt("New username:", String::new(), InputAction::AddUser),
            _ => {},
        }
    }

    fn act_preview(&mut self) -> (eff: Effect)
        ensures
            previewing(*old(self), *final(self), eff),
    {
        if self.active_tab == Tab::Files {
            let eff = self.files.preview();
            if let Effect::Nothing = eff {
                self.modal = Some(Modal::message(String::from_str("Preview"), String::from_str("Nothing selected.")));
            }
            eff
        } else {
            Effect::Nothing
        }
    }

    fn act_chmod(&mut self)
        ensures
            files_prompt(*old(self), *final(self), "Chmod (octal, e.g. 755):"@, InputAction::Chmod),
    {
        if self.active_tab == Tab::Files {
            self.prompt("Chmod (octal, e.g. 755):", String::new(), InputAction::Chmod);
        }
    }

    fn act_compress(&mut self)
        ensures
            files_prompt(
                *old(self),
                *final(self),
                "Archive name (e.g. backup.tar.gz or backup.zip):"@,
                InputAction::Compress,
            ),
    {
        if self.active_tab == Tab::Files {
            self.prompt("Archive name (e.g. backup.tar.gz or backup.zip):", String::new(), InputAction::Compress);
        }
    }

    fn act_extract(&mut self) -> (eff: Effect)
        ensures
            extracting(*old(self), *final(self), eff),
    {
        if self.active_tab == Tab::Files {
            self.files.extract()
        } else {
            Effect::Nothing
        }
    }

    fn act_open_with(&mut self)
        ensures
            files_prompt(*old(self), *final(self), "Open with (command):"@, InputAction::OpenWith),
    {
        if self.active_tab == Tab::Files {
            self.prompt("Open with (command):", String::new(), InputAction::OpenWith);
        }
    }

    fn act_kill(&mut self)
        ensures
            killing(*old(self), *final(self)),
    {
        match self.active_tab {
            Tab::Procs => {
                if self.procs.idx < self.procs.procs.len() {
                    let pid = self.procs.procs[self.procs.idx].pid;
                    let name = self.procs.procs[self.procs.idx].name.clone();
                    let mut q = chars_of("Kill PID ");
                    extend(&mut q, &decimal_chars(pid as u64));
                    extend(&mut q, &chars_of(" ("));
                    extend(&mut q, &chars_of(name.as_str()));
                    extend(&mut q, &chars_of(")?"));
                    self.ask(q, ConfirmAction::KillProcess { name });
                }
            },
            Tab::Disks => {
                if self.disks.idx < self.disks.disks.len() {
                    let mount = self.disks.disks[self.disks.idx].mount.clone();
                    let mut q = chars_of("Unmount ");
                    extend(&mut q, &chars_of(mount.as_str()));
                    extend(&mut q, &chars_of("?"));
                    self.ask(q, ConfirmAction::Unmount { mount });
                }
            },
            Tab::Users => self.prompt("lock or unlock?", String::new(), InputAction::LockOrUnlock),
            _ => {},
        }
    }

    fn act_info(&mut self) -> (eff: Effect)
        ensures
            informing(*old(self), *final(self), eff),
    {
        match self.active_tab {
            Tab::Services => {
                if self.services.idx < self.services.services.len() {
                    Effect::ServiceStatus { name: self.services.services[self.services.idx].name.clone() }
                } else {
                    Effect::Nothing
                }
            },
            Tab::Disks => {
                if self.disks.idx < self.disks.disks.len() {
                    Effect::DiskUsage { mount: self.disks.disks[self.disks.idx].mount.clone() }
                } else {
                    Effect::Nothing
                }
            },
            Tab::Procs => {
                if self.procs.idx < self.procs.procs.len() {
                    Effect::ProcStatus {
                        pid: self.procs.procs[self.procs.idx].pid,
                        name: self.procs.procs[self.procs.idx].name.clone(),
                    }
                } else {
                    Effect::Nothing
                }
            },
            Tab::Users => {
                self.prompt("Add to group:", String::new(), InputAction::AddToGroup);
                Effect::Nothing
            },
            _ => Effect::Nothing,
        }
    }

    fn act_search(&mut self)
        ensures
            (if old(self).active_tab == Tab::Packages {
                prompts(*old(self), *final(self), "Search packages:"@, Seq::empty(), InputAction::Search)
            } else {
                *final(self) == *old(self)
            }),
    {
        if self.active_tab == Tab::Packages {
            self.prompt("Search packages:", String::new(), InputAction::Search);
        }
    }

    fn act_sort(&mut self)
        ensures
            resorted(*old(self), *final(self)),
    {
        if self.active_tab == Tab::Procs {
            self.procs.cycle_sort();
        }
    }

    fn act_list(&mut self) -> (eff: Effect)
        ensures
            listing(*old(self), *final(self), eff),
    {
        if self.active_tab == Tab::Packages {
            match self.packages.list_installed() {
                Some(cmd) => Effect::Shell { command: cmd, purpose: PackageCommand::ListInstalled },
                None => {
                    self.say("Listed installed packages", NotifKind::Success);
                    Effect::Nothing
                },
            }
        } else {
            Effect::Nothing
        }
    }

    fn act_refresh(&mut self) -> (eff: Effect)
        ensures
            refreshing(*old(self), *final(self), eff),
    {
        let eff = match self.active_tab {
            Tab::Procs => Effect::SampleNow,
            Tab::Services => Effect::ListServices,
            Tab::Users => Effect::ReadUsers,
            _ => Effect::Nothing,
        };
        self.say("Refreshed", NotifKind::Success);
        eff
    }

    fn act_number(&mut self, c: char)
        ensures
            numbered(*old(self), *final(self), c),
    {
        match self.active_tab {
            Tab::Services => {
                if self.services.idx < self.services.services.len() {
                    let verb: &str = if c == '1' {
                        "start"
                    } else if c == '2' {
                        "stop"
                    } else if c == '3' {
                        "restart"
                    } else if c == '4' {
                        "enable"
                    } else if c == '5' {
                        "disable"
                    } else {
                        return ;
                    };
                    let name = self.services.services[self.services.idx].name.clone();
                    let mut q = chars_of(verb);
                    extend(&mut q, &chars_of(" service: "));
                    extend(&mut q, &chars_of(name.as_str()));
                    extend(&mut q, &chars_of("?"));
                    self.ask(q, ConfirmAction::ServiceAction { name, action: String::from_str(verb) });
                }
            },
            Tab::Packages => {
                if c == '1' || c == '2' {
                    match self.packages.current_pkg() {
                        Some(pkg) => {
                            let mut q = chars_of(if c == '1' { "Install: " } else { "Remove: " });
                            extend(&mut q, &chars_of(pkg.as_str()));
                            extend(&mut q, &chars_of("?"));
                            if c == '1' {
                                self.ask(q, ConfirmAction::Install { pkg });
                            } else {
                                self.ask(q, ConfirmAction::Remove { pkg });
                            }
                        },
                        None => {},
                    }
                }
            },
            _ => {},
        }
    }
}

// ───────────────────────────── accepted dialogs ───────────────────────

/// The arguments of a `pkexec` command.
pub open spec fn args_are(args: Vec<String>, expected: Seq<Seq<char>>) -> bool {
    string_views(args@) == expected
}

/// What Enter on a confirmation dialog doing `a` does (the dialog already
/// closed in `old`).
pub open spec fn confirmed(old: App, a: ConfirmAction, new: App, eff: Effect) -> bool {
    match a {
        ConfirmAction::DeleteFiles => new == old && (eff matches Effect::DeleteFiles { paths, dir }
            && string_views(paths@) == targets_of(old.files) && dir@ == old.files.path@),
        ConfirmAction::DeleteUser { name } => new == old && (eff matches Effect::Pkexec {
            args,
            reload,
            done,
        } && args_are(args, seq!["userdel"@, "-r"@, name@]) && reload && done
            == UserCommand::Delete { name }),
        ConfirmAction::KillProcess { name } => {
            &&& new == App { procs: new.procs, notif: new.notif, ..old }
            &&& fresh_notice(new.notif, "Killed "@ + name@, NotifKind::Warn)
            &&& if old.procs.idx < old.procs.procs@.len() {
                &&& eff matches Effect::Kill { pid } && pid == old.procs.procs@[old.procs.idx as int].pid
                &&& new.procs.procs@ == old.procs.procs@.remove(old.procs.idx as int)
                &&& new.procs.idx == crate::panels::nav::clamp(old.procs.idx, new.procs.procs@.len())
                &&& new.procs.sort_by == old.procs.sort_by
            } else {
                eff is Nothing && new.procs == old.procs
            }
        },
        ConfirmAction::Unmount { mount } => new == old && (eff matches Effect::Unmount { mount: m }
            && m == mount),
        ConfirmAction::ServiceAction { name, action } => new == old && (eff matches Effect::ServiceAction {
            name: n,
            action: act,
        } && n == name && act == action),
        ConfirmAction::Install { pkg } => match old.packages.pm {
            Some(pm) => new == old && (eff matches Effect::Shell { command, purpose } && command@
                == crate::panels::packages::install_line(pm, pkg@) && purpose is Install),
            None => notified(old, new, "No package manager"@, NotifKind::Success) && eff is Nothing,
        },
        ConfirmAction::Remove { pkg } => match old.packages.pm {
            Some(pm) => new == old && (eff matches Effect::Shell { command, purpose } && command@
                == crate::panels::packages::remove_line(pm, pkg@) && purpose is Remove),
            None => notified(old, new, "No package manager"@, NotifKind::Warn) && eff is Nothing,
        },
    }
}

/// What Enter on an input dialog doing `a` does with the line `val` (the
/// dialog already closed in `old`).
pub open spec fn accepted(old: App, a: InputAction, val: String, new: App, eff: Effect) -> bool {
    let t = targets_of(old.files);
    match a {
        InputAction::Rename => new == old && (eff matches Effect::Rename { from, dir, to } && to == val
            && dir@ == old.files.path@ && if t.len() > 0 {
            from matches Some(f) && f@ == t[0]
        } else {
            from is None
        }),
        InputAction::NewFolder => new == old && (eff matches Effect::NewFolder { dir, name } && dir@
            == old.files.path@ && name == val),
        InputAction::AddUser => new == old && (eff matches Effect::Pkexec { args, reload, done }
            && args_are(args, seq!["useradd"@, "-m"@, val@]) && reload && done == UserCommand::Add {
            name: val,
        }),
        InputAction::Chmod => notified(old, new, "chmod "@ + val@ + " applied"@, NotifKind::Success)
            && match crate::text::parse_u32_spec(val@, 8) {
            Some(m) => eff matches Effect::Chmod { paths, mode } && string_views(paths@) == t && mode == m,
            None => eff is Nothing,
        },
        InputAction::Compress => if t.len() > 0 {
            new == old && (eff matches Effect::Compress { paths, dir, name, zip } && string_views(paths@)
                == t && dir@ == old.files.path@ && name == val && zip == crate::text::has_suffix(
                val@,
                ".zip"@,
            ))
        } else {
            notified(old, new, "Compressed to "@ + val@, NotifKind::Success) && eff is Nothing
        },
        InputAction::OpenWith => notified(old, new, "Opened with "@ + val@, NotifKind::Info) && if t.len()
            > 0 {
            eff matches Effect::OpenWith { program, path } && program == val && path@ == t[0]
        } else {
            eff is Nothing
        },
        InputAction::LockOrUnlock => if old.users.idx < old.users.users@.len() {
            let name = old.users.users@[old.users.idx as int].name;
            new == old && if crate::text::trim(val@) == "lock"@ {
                eff matches Effect::Pkexec { args, reload, done } && args_are(
                    args,
                    seq!["usermod"@, "-L"@, name@],
                ) && !reload && done == UserCommand::Lock { name }
            } else {
                eff matches Effect::Pkexec { args, reload, done } && args_are(
                    args,
                    seq!["usermod"@, "-U"@, name@],
                ) && !reload && done == UserCommand::Unlock { name }
            }
        } else {
            notified(old, new, "Nothing selected"@, NotifKind::Warn) && eff is Nothing
        },
        InputAction::AddToGroup => if old.users.idx < old.users.users@.len() {
            let name = old.users.users@[old.users.idx as int].name;
            new == old && (eff matches Effect::Pkexec { args, reload, done } && args_are(
                args,
                seq!["usermod"@, "-aG"@, val@, name@],
            ) && reload && done == UserCommand::AddToGroup { name, group: val })
        } else {
            notified(old, new, "Nothing selected"@, NotifKind::Success) && eff is Nothing
        },
        InputAction::Search => match old.packages.pm {
            Some(pm) => new == old && (eff matches Effect::Shell { command, purpose } && command@
                == crate::panels::packages::search_line(pm, val@) && purpose == PackageCommand::Search {
                query: val,
            }),
            None => notified(
                old,
                new,
                "Found "@ + decimal(old.packages.results@.len()) + " packages"@,
                NotifKind::Success,
            ) && eff is Nothing,
        },
        InputAction::Renice => notified(old, new, "Reniced to "@ + val@, NotifKind::Success) && if old.procs.idx
            < old.procs.procs@.len() {
            eff matches Effect::Renice { pid, value } && pid == old.procs.procs@[old.procs.idx as int].pid
                && value == val
        } else {
            eff is Nothing
        },
    }
}

/// A vector of strings from string slices.
fn strings(parts: &Vec<&str>) -> (r: Vec<String>)
    ensures
        string_views(r@) == parts@.map_values(|s: &str| s@),
{
    let mut r: Vec<String> = Vec::new();
    let mut i: usize = 0;
    while i < parts.len()
        invariant
            i <= parts.len(),
            r.len() == i,
            forall|k: int| 0 <= k < i ==> #[trigger] r@[k]@ == parts@[k]@,
        decreases parts.len() - i,
    {
        let s = String::from_str(parts[i]);
        r.push(s);
        i = i + 1;
    }
    proof {
        assert(string_views(r@) =~= parts@.map_values(|s: &str| s@));
    }
    r
}

impl App {
    fn run_confirm(&mut self, a: ConfirmAction) -> (eff: Effect)
        ensures
            confirmed(*old(self), a, *final(self), eff),
    {
        match a {
            ConfirmAction::DeleteFiles => self.files.delete_files(),
            ConfirmAction::DeleteUser { name } => {
                let args = strings(&vec!["userdel", "-r", name.as_str()]);
                proof {
                    assert(string_views(args@) =~= seq!["userdel"@, "-r"@, name@]);
                }
                Effect::Pkexec { args, reload: true, done: UserCommand::Delete { name } }
            },
            ConfirmAction::KillProcess { name } => {
                let killed = self.procs.kill_current();
                let text = to_string(&crate::text::concat("Killed ", name.as_str()));
                self.notify(text, NotifKind::Warn);
                match killed {
                    Some(pid) => Effect::Kill { pid },
                    None => Effect::Nothing,
                }
            },
            ConfirmAction::Unmount { mount } => Effect::Unmount { mount },
            ConfirmAction::ServiceAction { name, action } => Effect::ServiceAction { name, action },
            ConfirmAction::Install { pkg } => match self.packages.install(pkg.as_str()) {
                Some(cmd) => Effect::Shell { command: cmd, purpose: PackageCommand::Install },
                None => {
                    self.say("No package manager", NotifKind::Success);
                    Effect::Nothing
                },
            },
            ConfirmAction::Remove { pkg } => match self.packages.remove(pkg.as_str()) {
                Some(cmd) => Effect::Shell { command: cmd, purpose: PackageCommand::Remove },
                None => {
                    self.say("No package manager", NotifKind::Warn);
                    Effect::Nothing
                },
            },
        }
    }

    fn run_input(&mut self, a: InputAction, val: String) -> (eff: Effect)
        ensures
            accepted(*old(self), a, val, *final(self), eff),
    {
        match a {
            InputAction::Rename => self.files.rename_file(val),
            InputAction::NewFolder => self.files.new_folder(val),
            InputAction::AddUser => {
                let args = strings(&vec!["useradd", "-m", val.as_str()]);
                proof {
                    assert(string_views(args@) =~= seq!["useradd"@, "-m"@, val@]);
                }
                Effect::Pkexec { args, reload: true, done: UserCommand::Add { name: val } }
            },
            InputAction::Chmod => {
                let eff = self.files.chmod_file(val.as_str());
                let mut msg = chars_of("chmod ");
                extend(&mut msg, &chars_of(val.as_str()));
                extend(&mut msg, &chars_of(" applied"));
                self.notify(to_string(&msg), NotifKind::Success);
                eff
            },
            InputAction::Compress => {
                let msg = crate::text::concat("Compressed to ", val.as_str());
                let eff = self.files.compress(val);
                if let Effect::Nothing = eff {
                    self.notify(to_string(&msg), NotifKind::Success);
                }
                eff
            },
            InputAction::OpenWith => {
                let msg = crate::text::concat("Opened with ", val.as_str());
                let eff = self.files.open_with(val);
                self.notify(to_string(&msg), NotifKind::Info);
                eff
            },
            InputAction::LockOrUnlock => {
                if self.users.idx < self.users.users.len() {
                    let name = self.users.users[self.users.idx].name.clone();
                    let line = crate::text::trimmed(&chars_of(val.as_str()));
                    if crate::text::same_chars(&line, &chars_of("lock")) {
                        let args = strings(&vec!["usermod", "-L", name.as_str()]);
                        proof {
                            assert(string_views(args@) =~= seq!["usermod"@, "-L"@, name@]);
                        }
                        Effect::Pkexec { args, reload: false, done: UserCommand::Lock { name } }
                    } else {
                        let args = strings(&vec!["usermod", "-U", name.as_str()]);
                        proof {
                            assert(string_views(args@) =~= seq!["usermod"@, "-U"@, name@]);
                        }
                        Effect::Pkexec { args, reload: false, done: UserCommand::Unlock { name } }
                    }
                } else {
                    self.say("Nothing selected", NotifKind::Warn);
                    Effect::Nothing
                }
            },
            InputAction::AddToGroup => {
                if self.users.idx < self.users.users.len() {
                    let name = self.users.users[self.users.idx].name.clone();
                    let args = strings(&vec!["usermod", "-aG", val.as_str(), name.as_str()]);
                    proof {
                        assert(string_views(args@) =~= seq!["usermod"@, "-aG"@, val@, name@]);
                    }
                    Effect::Pkexec {
                        args,
                        reload: true,
                        done: UserCommand::AddToGroup { name, group: val },
                    }
                } else {
                    self.say("Nothing selected", NotifKind::Success);
                    Effect::Nothing
                }
            },
            InputAction::Search => match self.packages.search(val.as_str()) {
                Some(cmd) => Effect::Shell { command: cmd, purpose: PackageCommand::Search { query: val } },
                None => {
                    let mut msg = chars_of("Found ");
                    extend(&mut msg, &decimal_chars(self.packages.results.len() as u64));
                    extend(&mut msg, &chars_of(" packages"));
                    self.notify(to_string(&msg), NotifKind::Success);
                    Effect::Nothing
                },
            },
            InputAction::Renice => {
                let msg = crate::text::concat("Reniced to ", val.as_str());
                let eff = self.procs.renice(val);
                self.notify(to_string(&msg), NotifKind::Success);
                eff
            },
        }
    }
}

// ───────────────────────────── key map ────────────────────────────────

/// `old` with its dialog closed.
pub open spec fn closed(old: App) -> App {
    App { modal: None, ..old }
}

/// What a key does while a dialog is open: any key closes a message;
/// Enter accepts and Esc closes a confirmation or an input dialog; in an
/// input dialog a character is typed and Backspace takes the last one off.
pub open spec fn modal_key_handled(old: App, key: Key, new: App, eff: Effect) -> bool {
    let m = old.modal->0;
    match m.kind {
        ModalKind::Message => new == closed(old) && eff is Nothing,
        ModalKind::Confirm => match key {
            Key::Enter => match m.on_confirm {
                Some(a) => confirmed(closed(old), a, new, eff),
                None => new == closed(old) && eff is Nothing,
            },
            Key::Esc => new == closed(old) && eff is Nothing,
            _ => new == old && eff is Nothing,
        },
        ModalKind::Input => match key {
            Key::Char(c) => eff is Nothing && new == App { modal: new.modal, ..old } && (new.modal matches Some(n)
                && n == Modal { input: n.input, ..m } && n.input@ == m.input@.push(c)),
            Key::Backspace => eff is Nothing && new == App { modal: new.modal, ..old } && (new.modal matches Some(n)
                && n == Modal { input: n.input, ..m } && n.input@ == if m.input@.len() > 0 {
                m.input@.drop_last()
            } else {
                m.input@
            }),
            Key::Enter => match m.on_input {
                Some(a) => accepted(closed(old), a, m.input, new, eff),
                None => new == closed(old) && eff is Nothing,
            },
            Key::Esc => new == closed(old) && eff is Nothing,
            _ => new == old && eff is Nothing,
        },
    }
}

/// What a character key does with no dialog open.
pub open spec fn char_handled(old: App, c: char, new: App, eff: Effect) -> bool {
    if c == ' ' {
        toggled(old, new) && eff is Nothing
    } else if c == 'c' {
        clipped(old, new, ClipOp::Copy, "Copied to clipboard"@, NotifKind::Success) && eff is Nothing
    } else if c == 'x' {
        clipped(old, new, ClipOp::Cut, "Cut to clipboard"@, NotifKind::Warn) && eff is Nothing
    } else if c == 'v' {
        pasting(old, new, eff)
    } else if c == 'd' {
        deleting(old, new) && eff is Nothing
    } else if c == 'r' {
        renaming(old, new) && eff is Nothing
    } else if c == 'n' {
        naming(old, new) && eff is Nothing
    } else if c == 'p' {
        previewing(old, new, eff)
    } else if c == 'm' {
        files_prompt(old, new, "Chmod (octal, e.g. 755):"@, InputAction::Chmod) && eff is Nothing
    } else if c == 'z' {
        files_prompt(old, new, "Archive name (e.g. backup.tar.gz or backup.zip):"@, InputAction::Compress)
            && eff is Nothing
    } else if c == 'e' {
        extracting(old, new, eff)
    } else if c == 'o' {
        files_prompt(old, new, "Open with (command):"@, InputAction::OpenWith) && eff is Nothing
    } else if c == 'k' {
        killing(old, new) && eff is Nothing
    } else if c == 'i' {
        informing(old, new, eff)
    } else if c == 's' {
        eff is Nothing && if old.active_tab == Tab::Packages {
            prompts(old, new, "Search packages:"@, Seq::empty(), InputAction::Search)
        } else {
            new == old
        }
    } else if c == 't' {
        resorted(old, new) && eff is Nothing
    } else if c == 'l' {
        listing(old, new, eff)
    } else if '1' <= c && c <= '5' {
        numbered(old, new, c) && eff is Nothing
    } else {
        new == old && eff is Nothing
    }
}

/// The key map: a dialog takes every key while it is open; otherwise Tab
/// and Shift-Tab cycle the panels, the arrows move the cursor, and the
/// other keys act on the active panel.
pub open spec fn key_handled(old: App, key: Key, new: App, eff: Effect) -> bool {
    if old.modal is Some {
        modal_key_handled(old, key, new, eff)
    } else {
        match key {
            Key::Tab => new == App { active_tab: next_tab(old.active_tab), ..old } && eff is Nothing,
            Key::BackTab => new == App { active_tab: prev_tab(old.active_tab), ..old } && eff is Nothing,
            Key::Up => moved_up(old, new) && eff is Nothing,
            Key::Down => moved_down(old, new) && eff is Nothing,
            Key::Enter => entered(old, new, eff),
            Key::Backspace => went_back(old, new, eff),
            Key::F(n) => if n == 5 {
                refreshing(old, new, eff)
            } else {
                new == old && eff is Nothing
            },
            Key::Char(c) => char_handled(old, c, new, eff),
            _ => new == old && eff is Nothing,
        }
    }
}

impl App {
    fn handle_modal_key(&mut self, key: Key) -> (eff: Effect)
        requires
            old(self).modal is Some,
        ensures
            modal_key_handled(*old(self), key, *final(self), eff),
    {
        let kind = match &self.modal {
            Some(m) => m.kind,
            None => ModalKind::Message,
        };
        match kind {
            ModalKind::Message => {
                self.modal = None;
                Effect::Nothing
            },
            ModalKind::Confirm => match key {
                Key::Enter => {
                    let m = self.modal.take();
                    match m {
                        Some(m) => match m.on_confirm {
                            Some(a) => self.run_confirm(a),
                            None => Effect::Nothing,
                        },
                        None => Effect::Nothing,
                    }
                },
                Key::Esc => {
                    self.modal = None;
                    Effect::Nothing
                },
                _ => Effect::Nothing,
            },
            ModalKind::Input => match key {
                Key::Char(c) => {
                    let m = self.modal.take();
                    match m {
                        Some(mut m) => {
                            push_char(&mut m.input, c);
                            self.modal = Some(m);
                        },
                        None => {},
                    }
                    Effect::Nothing
                },
                Key::Backspace => {
                    let m = self.modal.take();
                    match m {
                        Some(mut m) => {
                            pop_char(&mut m.input);
                            self.modal = Some(m);
                        },
                        None => {},
                    }
                    Effect::Nothing
                },
                Key::Enter => {
                    let m = self.modal.take();
                    match m {
                        Some(m) => match m.on_input {
                            Some(a) => self.run_input(a, m.input),
                            None => Effect::Nothing,
                        },
                        None => Effect::Nothing,
                    }
                },
                Key::Esc => {
                    self.modal = None;
                    Effect::Nothing
                },
                _ => Effect::Nothing,
            },
        }
    }

    fn handle_char(&mut self, c: char) -> (eff: Effect)
        requires
            old(self).modal is None,
        ensures
            char_handled(*old(self), c, *final(self), eff),
    {
        if c == ' ' {
            self.act_space();
            Effect::Nothing
        } else if c == 'c' {
            self.act_copy();
            Effect::Nothing
        } else if c == 'x' {
            self.act_cut();
            Effect::Nothing
        } else if c == 'v' {
            self.act_paste()
        } else if c == 'd' {
            self.act_delete();
            Effect::Nothing
        } else if c == 'r' {
            self.act_rename();
            Effect::Nothing
        } else if c == 'n' {
            self.act_new();
            Effect::Nothing
        } else if c == 'p' {
            self.act_preview()
        } else if c == 'm' {
            self.act_chmod();
            Effect::Nothing
        } else if c == 'z' {
            self.act_compress();
            Effect::Nothing
        } else if c == 'e' {
            self.act_extract()
        } else if c == 'o' {
            self.act_open_with();
            Effect::Nothing
        } else if c == 'k' {
            self.act_kill();
            Effect::Nothing
        } else if c == 'i' {
            self.act_info()
        } else if c == 's' {
            self.act_search();
            Effect::Nothing
        } else if c == 't' {
            self.act_sort();
            Effect::Nothing
        } else if c == 'l' {
            self.act_list()
        } else if '1' <= c && c <= '5' {
            self.act_number(c);
            Effect::Nothing
        } else {
            Effect::Nothing
        }
    }

    /// Handles one key press and returns the work it asks for.
    pub fn handle_key(&mut self, key: Key) -> (eff: Effect)
        ensures
            key_handled(*old(self), key, *final(self), eff),
    {
        if self.modal.is_some() {
            return self.handle_modal_key(key);
        }
        match key {
            Key::Tab => {
                self.active_tab = self.active_tab.next();
                Effect::Nothing
            },
            Key::BackTab => {
                self.active_tab = self.active_tab.prev();
                Effect::Nothing
            },
            Key::Up => {
                self.nav_up();
                Effect::Nothing
            },
            Key::Down => {
                self.nav_down();
                Effect::Nothing
            },
            Key::Enter => self.act_enter(),
            Key::Backspace => self.act_back(),
            Key::F(n) => if n == 5 {
                self.act_refresh()
            } else {
                Effect::Nothing
            },
            Key::Char(c) => self.handle_char(c),
            _ => Effect::Nothing,
        }
    }
}

// ───────────────────────────── results coming back ────────────────────

/// `new` is `old` with the file panel showing the listing of its own
/// directory read as `items` (cursor at the top, nothing selected, the
/// clipboard as it was) and a fresh notification.
pub open spec fn relisted(old: App, new: App, items: Seq<FileEntry>, text: Seq<char>, kind: NotifKind) -> bool {
    &&& new == App { files: new.files, notif: new.notif, ..old }
    &&& new.files.path@ == old.files.path@
    &&& listing_of(old.files.path@, items, new.files.entries@)
    &&& new.files.idx == 0
    &&& new.files.selected@ == Set::<usize>::empty()
    &&& new.files.clipboard == old.files.clipboard
    &&& fresh_notice(new.notif, text, kind)
}

/// `old` with the clipboard emptied when it held a cut.
pub open spec fn after_paste(old: App) -> App {
    match old.files.clipboard {
        Some(c) => if c.op == ClipOp::Cut {
            App { files: FilePanel { clipboard: None, ..old.files }, ..old }
        } else {
            old
        },
        None => old,
    }
}

/// `new` is `old` with the accounts read again from these files and a
/// fresh notification.
pub open spec fn users_reread(old: App, new: App, group_file: Seq<char>, passwd_file: Seq<char>, text: Seq<char>, kind: NotifKind) -> bool {
    &&& new == App { users: new.users, notif: new.notif, ..old }
    &&& users_listed(group_file, passwd_file, user_views(new.users.users@))
    &&& new.users.idx == clamp(old.users.idx, new.users.users@.len())
    &&& fresh_notice(new.notif, text, kind)
}

/// What the end of an account command does: read the accounts again when
/// the files were read, and report.
pub open spec fn user_command_finished(
    old: App,
    done: UserCommand,
    out: CommandOutput,
    files: Option<(String, String)>,
    new: App,
) -> bool {
    let cur = old.users.idx < old.users.users@.len();
    let name = old.users.users@[old.users.idx as int].name@;
    match done {
        UserCommand::Add { name: n } => match files {
            Some((g, p)) => users_reread(old, new, g@, p@, report_or(out, "Created user "@ + n@), NotifKind::Success),
            None => notified(old, new, user_report(done, out), NotifKind::Success),
        },
        UserCommand::Delete { name: n } => match files {
            Some((g, p)) => users_reread(old, new, g@, p@, report_or(out, "Deleted user "@ + n@), NotifKind::Warn),
            None => notified(old, new, user_report(done, out), NotifKind::Warn),
        },
        UserCommand::AddToGroup { name: n, group } => match files {
            Some((g, p)) => if cur {
                users_reread(old, new, g@, p@, report_or(out, "Added "@ + name + " to "@ + group@), NotifKind::Success)
            } else {
                notified(old, new, "Nothing selected"@, NotifKind::Success)
            },
            None => notified(old, new, user_report(done, out), NotifKind::Success),
        },
        UserCommand::Lock { name: n } => if cur {
            notified(old, new, report_or(out, "Locked "@ + name), NotifKind::Warn)
        } else {
            notified(old, new, "Nothing selected"@, NotifKind::Warn)
        },
        UserCommand::Unlock { name: n } => if cur {
            notified(old, new, report_or(out, "Unlocked "@ + name), NotifKind::Warn)
        } else {
            notified(old, new, "Nothing selected"@, NotifKind::Warn)
        },
    }
}

/// What the end of a package-manager command does: show search results or
/// the installed packages and say how many, or report the output of an
/// installation or removal.
pub open spec fn package_finished(old: App, purpose: PackageCommand, out: Seq<char>, new: App) -> bool {
    match purpose {
        PackageCommand::Search { query } => {
            &&& new == App { packages: new.packages, notif: new.notif, ..old }
            &&& new.packages.query_label@ == query@
            &&& text_views(new.packages.results@) == search_results(out)
            &&& new.packages.idx == 0
            &&& new.packages.pm == old.packages.pm
            &&& fresh_notice(new.notif, "Found "@ + decimal(new.packages.results@.len()) + " packages"@, NotifKind::Success)
        },
        PackageCommand::ListInstalled => {
            &&& new == App { packages: new.packages, notif: new.notif, ..old }
            &&& new.packages.query_label@ == "[installed]"@
            &&& text_views(new.packages.results@) == installed_results(out)
            &&& new.packages.idx == 0
            &&& new.packages.pm == old.packages.pm
            &&& fresh_notice(new.notif, "Listed installed packages"@, NotifKind::Success)
        },
        PackageCommand::Install => notified(old, new, out, NotifKind::Success),
        PackageCommand::Remove => notified(old, new, out, NotifKind::Warn),
    }
}

impl App {
    /// Shows the listing of the file panel's own directory, read as `items`.
    fn relist(&mut self, items: Vec<FileEntry>)
        ensures
            *final(self) == (App { files: final(self).files, ..*old(self) }),
            final(self).files.path@ == old(self).files.path@,
            listing_of(old(self).files.path@, items@, final(self).files.entries@),
            final(self).files.idx == 0,
            final(self).files.selected@ == Set::<usize>::empty(),
            final(self).files.clipboard == old(self).files.clipboard,
    {
        let dir = self.files.path.clone();
        self.files.load(dir, items);
    }

    fn relist_and_say(&mut self, items: Vec<FileEntry>, text: String, kind: NotifKind)
        ensures
            relisted(*old(self), *final(self), items@, text@, kind),
    {
        self.relist(items);
        self.notify(text, kind);
    }

    /// The file panel shows `dir`, whose entries were read as `items`.
    pub fn dir_listed(&mut self, dir: String, items: Vec<FileEntry>)
        ensures
            *final(self) == (App { files: final(self).files, ..*old(self) }),
            final(self).files.path@ == dir@,
            listing_of(dir@, items@, final(self).files.entries@),
            final(self).files.idx == 0,
            final(self).files.selected@ == Set::<usize>::empty(),
            final(self).files.clipboard == old(self).files.clipboard,
    {
        self.files.load(dir, items);
    }

    /// A paste ended: with the new listing of the directory, the clipboard
    /// is emptied after a cut and success reported; with an error, its
    /// text is reported.
    pub fn paste_finished(&mut self, result: Result<Vec<FileEntry>, String>)
        ensures
            match result {
                Ok(items) => relisted(after_paste(*old(self)), *final(self), items@, "Pasted successfully"@, NotifKind::Success),
                Err(e) => notified(*old(self), *final(self), e@, NotifKind::Failure),
            },
    {
        match result {
            Ok(items) => {
                let cut = match &self.files.clipboard {
                    Some(c) => c.op == ClipOp::Cut,
                    None => false,
                };
                if cut {
                    self.files.clipboard = None;
                }
                self.relist_and_say(items, String::from_str("Pasted successfully"), NotifKind::Success);
            },
            Err(e) => self.notify(e, NotifKind::Failure),
        }
    }

    /// The targets were deleted; the directory now lists as `items`.
    pub fn files_deleted(&mut self, items: Vec<FileEntry>)
        ensures
            relisted(*old(self), *final(self), items@, "Deleted"@, NotifKind::Warn),
    {
        self.relist_and_say(items, String::from_str("Deleted"), NotifKind::Warn);
    }

    /// A target was renamed to `to`; the directory now lists as `items`.
    pub fn file_renamed(&mut self, to: &str, items: Vec<FileEntry>)
        ensures
            relisted(*old(self), *final(self), items@, "Renamed to "@ + to@, NotifKind::Success),
    {
        let text = to_string(&crate::text::concat("Renamed to ", to));
        self.relist_and_say(items, text, NotifKind::Success);
    }

    /// The folder `name` was created; the directory now lists as `items`.
    pub fn folder_created(&mut self, name: &str, items: Vec<FileEntry>)
        ensures
            relisted(*old(self), *final(self), items@, "Created "@ + name@, NotifKind::Success),
    {
        let text = to_string(&crate::text::concat("Created ", name));
        self.relist_and_say(items, text, NotifKind::Success);
    }

    /// The archive `name` was written; the directory now lists as `items`.
    pub fn compressed(&mut self, name: &str, items: Vec<FileEntry>)
        ensures
            relisted(*old(self), *final(self), items@, "Compressed to "@ + name@, NotifKind::Success),
    {
        let text = to_string(&crate::text::concat("Compressed to ", name));
        self.relist_and_say(items, text, NotifKind::Success);
    }

    /// An archive was unpacked; the directory now lists as `items`.
    pub fn extracted(&mut self, items: Vec<FileEntry>)
        ensures
            relisted(*old(self), *final(self), items@, "Extracted"@, NotifKind::Success),
    {
        self.relist_and_say(items, String::from_str("Extracted"), NotifKind::Success);
    }

    /// Shows the preview of `path`, given what was found there.
    pub fn preview_ready(&mut self, path: &str, src: PreviewSource)
        requires
            previewable(src),
        ensures
            shows(*old(self), *final(self), "Preview"@, preview_text(path@, src)),
    {
        let body = crate::panels::files::preview_body(path, &src);
        self.modal = Some(Modal::message(String::from_str("Preview"), body));
    }

    /// Shows the status of process `pid`, given its `/proc/<pid>/status`
    /// text (`None` when it could not be read).
    pub fn proc_status_ready(&mut self, pid: u32, name: &str, content: Option<String>)
        ensures
            shows(
                *old(self),
                *final(self),
                "Process: "@ + name@,
                proc_status_report(
                    pid,
                    match content {
                        Some(c) => Some(c@),
                        None => None,
                    },
                ),
            ),
    {
        let body = match &content {
            Some(c) => self.procs.proc_info(pid, Some(c.as_str())),
            None => self.procs.proc_info(pid, None),
        };
        let title = to_string(&crate::text::concat("Process: ", name));
        self.modal = Some(Modal::message(title, body));
    }

    /// Shows the status of the service, given what `systemctl status`
    /// gave.
    pub fn service_status_ready(&mut self, name: &str, out: CommandOutput)
        ensures
            shows(*old(self), *final(self), "Service: "@ + name@, status_report(out)),
    {
        let body = self.services.status_of(&out);
        let title = to_string(&crate::text::concat("Service: ", name));
        self.modal = Some(Modal::message(title, body));
    }

    /// Shows the disk usage under `mount`, given the output of `du`
    /// (`None` when it could not run).
    pub fn disk_usage_ready(&mut self, mount: &str, out: Option<String>)
        ensures
            shows(
                *old(self),
                *final(self),
                "Disk usage: "@ + mount@,
                disk_usage_report(
                    match out {
                        Some(o) => Some(o@),
                        None => None,
                    },
                ),
            ),
    {
        let body = self.disks.du_top(out);
        let title = to_string(&crate::text::concat("Disk usage: ", mount));
        self.modal = Some(Modal::message(title, body));
    }

    /// Reports the end of unmounting `mount`.
    pub fn unmounted(&mut self, mount: &str, out: CommandOutput)
        ensures
            notified(*old(self), *final(self), umount_report(mount@, out), NotifKind::Warn),
    {
        let msg = self.disks.umount(mount, &out);
        self.notify(msg, NotifKind::Warn);
    }

    /// A service command ended: the services of the new `listing` are
    /// shown and the command's report posted.
    pub fn service_action_done(&mut self, name: &str, action: &str, out: CommandOutput, listing: &str)
        ensures
            *final(self) == (App { services: final(self).services, notif: final(self).notif, ..*old(self) }),
            service_views(final(self).services.services@) == services_listed(listing@),
            final(self).services.idx == clamp(old(self).services.idx, final(self).services.services@.len()),
            fresh_notice(final(self).notif, action_report(name@, action@, out), NotifKind::Success),
    {
        let msg = self.services.do_action(name, action, &out, listing);
        self.notify(msg, NotifKind::Success);
    }

    /// The services of a new `listing` are shown.
    pub fn services_loaded(&mut self, listing: &str)
        ensures
            *final(self) == (App { services: final(self).services, ..*old(self) }),
            service_views(final(self).services.services@) == services_listed(listing@),
            final(self).services.idx == clamp(old(self).services.idx, final(self).services.services@.len()),
    {
        self.services.load(listing);
    }

    /// The accounts of the given files are shown.
    pub fn users_read(&mut self, group_file: &str, passwd_file: &str)
        ensures
            *final(self) == (App { users: final(self).users, ..*old(self) }),
            users_listed(group_file@, passwd_file@, user_views(final(self).users.users@)),
            final(self).users.idx == clamp(old(self).users.idx, final(self).users.users@.len()),
    {
        self.users.load(group_file, passwd_file);
    }

    /// An account command ended with `out`; `files` holds the group and
    /// passwd files when they were read again.
    pub fn user_command_done(&mut self, done: UserCommand, out: CommandOutput, files: Option<(String, String)>)
        ensures
            user_command_finished(*old(self), done, out, files, *final(self)),
    {
        match done {
            UserCommand::Add { name } => match &files {
                Some((g, p)) => {
                    let msg = self.users.add_user(name.as_str(), &out, g.as_str(), p.as_str());
                    self.notify(msg, NotifKind::Success);
                },
                None => {
                    let msg = command_report(&UserCommand::Add { name }, &out);
                    self.notify(msg, NotifKind::Success);
                },
            },
            UserCommand::Delete { name } => match &files {
                Some((g, p)) => {
                    let msg = self.users.del_user(name.as_str(), &out, g.as_str(), p.as_str());
                    self.notify(msg, NotifKind::Warn);
                },
                None => {
                    let msg = command_report(&UserCommand::Delete { name }, &out);
                    self.notify(msg, NotifKind::Warn);
                },
            },
            UserCommand::AddToGroup { name, group } => match &files {
                Some((g, p)) => {
                    let msg = self.users.add_to_group(group.as_str(), &out, g.as_str(), p.as_str());
                    self.notify(msg, NotifKind::Success);
                },
                None => {
                    let msg = command_report(&UserCommand::AddToGroup { name, group }, &out);
                    self.notify(msg, NotifKind::Success);
                },
            },
            UserCommand::Lock { name } => {
                let msg = self.users.lock_user(&out);
                self.notify(msg, NotifKind::Warn);
            },
            UserCommand::Unlock { name } => {
                let msg = self.users.unlock_user(&out);
                self.notify(msg, NotifKind::Warn);
            },
        }
    }

    /// A package-manager command for `purpose` ended with output `out`.
    pub fn package_done(&mut self, purpose: PackageCommand, out: String)
        ensures
            package_finished(*old(self), purpose, out@, *final(self)),
    {
        match purpose {
            PackageCommand::Search { query } => {
                self.packages.apply_search(query.as_str(), out.as_str());
                let mut msg = chars_of("Found ");
                extend(&mut msg, &decimal_chars(self.packages.results.len() as u64));
                extend(&mut msg, &chars_of(" packages"));
                self.notify(to_string(&msg), NotifKind::Success);
            },
            PackageCommand::ListInstalled => {
                self.packages.apply_installed(out.as_str());
                self.say("Listed installed packages", NotifKind::Success);
            },
            PackageCommand::Install => self.notify(out, NotifKind::Success),
            PackageCommand::Remove => self.notify(out, NotifKind::Warn),
        }
    }
}


/// `new` is `old` with the process and disk panels showing the figures
/// `data`: the processes in the panel's order, every cursor kept on its
/// list.
pub open spec fn took_sample(old: App, data: SystemData, new: App) -> bool {
    &&& crate::sort::stable_sorted(
        data.procs@,
        new.procs.procs@,
        |a: ProcInfo, b: ProcInfo| crate::panels::procs::proc_before(old.procs.sort_by, a, b),
    )
    &&& new.procs.idx == clamp(old.procs.idx, data.procs@.len())
    &&& new.procs.sort_by == old.procs.sort_by
    &&& new.disks.disks@ == data.disks@
    &&& new.disks.idx == clamp(old.disks.idx, data.disks@.len())
    &&& new == App { procs: new.procs, disks: new.disks, ..old }
}

fn copy_procs(v: &Vec<ProcInfo>) -> (r: Vec<ProcInfo>)
    ensures
        r@ == v@,
{
    let mut r: Vec<ProcInfo> = Vec::new();
    let mut i: usize = 0;
    while i < v.len()
        invariant
            i <= v.len(),
            r@ == v@.subrange(0, i as int),
        decreases v.len() - i,
    {
        r.push(v[i].copy());
        i = i + 1;
        proof {
            assert(r@ =~= v@.subrange(0, i as int));
        }
    }
    proof {
        assert(v@.subrange(0, v.len() as int) =~= v@);
    }
    r
}

fn copy_disks(v: &Vec<DiskInfo>) -> (r: Vec<DiskInfo>)
    ensures
        r@ == v@,
{
    let mut r: Vec<DiskInfo> = Vec::new();
    let mut i: usize = 0;
    while i < v.len()
        invariant
            i <= v.len(),
            r@ == v@.subrange(0, i as int),
        decreases v.len() - i,
    {
        r.push(v[i].copy());
        i = i + 1;
        proof {
            assert(r@ =~= v@.subrange(0, i as int));
        }
    }
    proof {
        assert(v@.subrange(0, v.len() as int) =~= v@);
    }
    r
}

impl App {
    /// F5 on Procs took the sample `s`: the shared figures take it in, and
    /// the process and disk panels show the new figures at once.
    pub fn system_sampled(&mut self, data: &mut SystemData, s: Sample)
        ensures
            refreshed(*old(data), s, *final(data)),
            took_sample(*old(self), *final(data), *final(self)),
    {
        data.refresh(s);
        self.procs.update(copy_procs(&data.procs));
        self.disks.update(copy_disks(&data.disks));
    }
}

} // verus!
