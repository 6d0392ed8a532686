//! Properties of the console that span several keys or several kinds of
//! event, proved from the contracts of `App`.

use vstd::prelude::*;
use crate::app::{after_paste, framed, took_sample, key_handled, package_finished, relisted, user_command_finished, App, Key};
use crate::effect::{CommandOutput, Effect, PackageCommand, UserCommand};
use crate::modal::{ConfirmAction, ModalKind};
use crate::notify::{fresh_notice, NotifKind};
use crate::outside::path_parent;
use crate::data::{refreshed, uptime_text, Sample, SystemData};
use crate::panels::disk::DiskInfo;
use crate::panels::files::{listed_before, listing_of, string_views, targets_of, ClipOp, FileEntry};
use crate::panels::procs::{proc_before, ProcInfo, SortBy};
use crate::panels::users::users_listed;
use crate::sort::{lemma_lex_order, lex_lt};
use crate::text::{decimal, lemma_decimal_digits, lemma_decimal_injective};
use crate::panels::files::perms;
use crate::panels::packages::{install_line, remove_line, PackageManager};
use crate::tab::{law_next_prev_inverse, Tab};

verus! {

/// A cursor on a list of `len` rows: on a row, or at 0 on an empty list.
pub open spec fn cursor_ok(idx: usize, len: nat) -> bool {
    idx < len || idx == 0
}

/// Every panel's cursor is on its list.
pub open spec fn cursors_in_range(a: App) -> bool {
    &&& cursor_ok(a.files.idx, a.files.entries@.len())
    &&& cursor_ok(a.procs.idx, a.procs.procs@.len())
    &&& cursor_ok(a.services.idx, a.services.services@.len())
    &&& cursor_ok(a.packages.idx, a.packages.results@.len())
    &&& cursor_ok(a.disks.idx, a.disks.disks@.len())
    &&& cursor_ok(a.users.idx, a.users.users@.len())
}

/// No key moves a cursor off its list.
pub proof fn law_keys_keep_cursors(old: App, key: Key, new: App, eff: Effect)
    requires
        cursors_in_range(old),
        key_handled(old, key, new, eff),
    ensures
        cursors_in_range(new),
{
}

/// With no dialog open, Shift-Tab after Tab comes back to the panel one
/// started from, with nothing else changed.
pub proof fn law_tab_then_back_tab(old: App, mid: App, new: App, e1: Effect, e2: Effect)
    requires
        old.modal is None,
        key_handled(old, Key::Tab, mid, e1),
        key_handled(mid, Key::BackTab, new, e2),
    ensures
        new == old,
        e1 is Nothing,
        e2 is Nothing,
{
    law_next_prev_inverse(old.active_tab);
}

/// Esc closes an open question or input dialog and changes nothing else;
/// any key closes a message.
pub proof fn law_escape_closes(old: App, key: Key, new: App, eff: Effect)
    requires
        old.modal is Some,
        key == Key::Esc || old.modal->0.kind == ModalKind::Message,
        key_handled(old, key, new, eff),
    ensures
        new == (App { modal: None, ..old }),
        eff is Nothing,
{
}

/// In an input dialog, Backspace after typing a character gives back the
/// line as it was, and nothing else changes.
pub proof fn law_type_then_erase(old: App, c: char, mid: App, new: App, e1: Effect, e2: Effect)
    requires
        old.modal matches Some(m) && m.kind == ModalKind::Input,
        key_handled(old, Key::Char(c), mid, e1),
        key_handled(mid, Key::Backspace, new, e2),
    ensures
        new.modal matches Some(n) && n.input@ == old.modal->0.input@ && n.kind == old.modal->0.kind
            && n.title == old.modal->0.title && n.body == old.modal->0.body && n.on_confirm
            == old.modal->0.on_confirm && n.on_input == old.modal->0.on_input,
        new == (App { modal: new.modal, ..old }),
        e1 is Nothing,
        e2 is Nothing,
{
    assert(mid.modal->0.input@.drop_last() =~= old.modal->0.input@);
}

/// On the file panel, `v` after `c` pastes exactly the paths that `c`
/// took, as copies, into the directory shown.
pub proof fn law_copy_then_paste(old: App, mid: App, new: App, e1: Effect, e2: Effect)
    requires
        old.modal is None,
        old.active_tab == Tab::Files,
        targets_of(old.files).len() > 0,
        key_handled(old, Key::Char('c'), mid, e1),
        key_handled(mid, Key::Char('v'), new, e2),
    ensures
        e2 matches Effect::Paste { paths, cut, dest } && string_views(paths@) == targets_of(old.files)
            && !cut && dest@ == old.files.path@,
{
}

/// On the file panel, `v` after `x` moves exactly the paths that `x` took
/// into the directory shown.
pub proof fn law_cut_then_paste(old: App, mid: App, new: App, e1: Effect, e2: Effect)
    requires
        old.modal is None,
        old.active_tab == Tab::Files,
        targets_of(old.files).len() > 0,
        key_handled(old, Key::Char('x'), mid, e1),
        key_handled(mid, Key::Char('v'), new, e2),
    ensures
        e2 matches Effect::Paste { paths, cut, dest } && string_views(paths@) == targets_of(old.files)
            && cut && dest@ == old.files.path@,
{
}

/// On the file panel, `d` asks before deleting, and Enter then deletes
/// exactly the targets that were asked about.
pub proof fn law_delete_asks_first(old: App, mid: App, new: App, e1: Effect, e2: Effect)
    requires
        old.modal is None,
        old.active_tab == Tab::Files,
        targets_of(old.files).len() > 0,
        key_handled(old, Key::Char('d'), mid, e1),
        key_handled(mid, Key::Enter, new, e2),
    ensures
        e1 is Nothing,
        mid.modal matches Some(m) && m.kind == ModalKind::Confirm && m.on_confirm == Some(ConfirmAction::DeleteFiles),
        e2 matches Effect::DeleteFiles { paths, dir } && string_views(paths@) == targets_of(old.files)
            && dir@ == old.files.path@,
        new == (App { modal: None, ..old }),
{
}

/// No frame moves a cursor off its list, whatever snapshot it shows.
pub proof fn law_frames_keep_cursors(old: App, snapshot: Option<(Vec<ProcInfo>, Vec<DiskInfo>)>, new: App)
    requires
        cursors_in_range(old),
        framed(old, snapshot, new),
    ensures
        cursors_in_range(new),
{
}

/// The accounts are listed by increasing uid.
pub proof fn law_users_by_uid(
    group_file: Seq<char>,
    passwd_file: Seq<char>,
    users: Seq<(Seq<char>, u32, Seq<char>, Seq<char>, Seq<char>)>,
)
    requires
        users_listed(group_file, passwd_file, users),
    ensures
        forall|i: int, j: int| 0 <= i < j < users.len() ==> #[trigger] users[i].1 <= #[trigger] users[j].1,
{
}

/// After a frame with a snapshot, no process is listed after one that the
/// panel's order puts behind it: by CPU or memory use, highest first; by
/// pid, lowest first; by name, in character order.
pub proof fn law_procs_in_order(old: App, snapshot: Option<(Vec<ProcInfo>, Vec<DiskInfo>)>, new: App)
    requires
        framed(old, snapshot, new),
        snapshot is Some,
    ensures
        forall|i: int, j: int|
            0 <= i < j < new.procs.procs@.len() ==> !proc_before(
                new.procs.sort_by,
                #[trigger] new.procs.procs@[j],
                #[trigger] new.procs.procs@[i],
            ),
{
    assert forall|a: ProcInfo, b: ProcInfo| #[trigger] proc_before(new.procs.sort_by, a, b) implies !proc_before(
        new.procs.sort_by,
        b,
        a,
    ) by {
        if new.procs.sort_by == SortBy::Name {
            lemma_lex_order(a.name@, b.name@, b.name@);
        }
    }
}

/// A listing shows directories before files: after the parent entry, no
/// file comes before a directory.
pub proof fn law_directories_first(dir: Seq<char>, items: Seq<FileEntry>, entries: Seq<FileEntry>)
    requires
        listing_of(dir, items, entries),
    ensures
        forall|i: int, j: int|
            (if path_parent(dir) is Some {
                1int
            } else {
                0int
            }) <= i < j < entries.len() ==> !(#[trigger] entries[i].is_dir == false && #[trigger] entries[j].is_dir),
{
    let first: int = if path_parent(dir) is Some { 1 } else { 0 };
    let sorted = if path_parent(dir) is Some { entries.drop_first() } else { entries };
    assert forall|i: int, j: int| first <= i < j < entries.len() implies !(#[trigger] entries[i].is_dir == false
        && #[trigger] entries[j].is_dir) by {
        assert(entries[i] == sorted[i - first]);
        assert(entries[j] == sorted[j - first]);
        if !entries[i].is_dir && entries[j].is_dir {
            assert(listed_before(sorted[j - first], sorted[i - first]));
        }
    }
}

/// A new listing of the directory shown keeps every cursor on its list.
pub proof fn law_listings_keep_cursors(old: App, new: App, items: Seq<FileEntry>, text: Seq<char>, kind: NotifKind)
    requires
        cursors_in_range(old),
        relisted(old, new, items, text, kind),
    ensures
        cursors_in_range(new),
{
}

/// The end of an account command keeps every cursor on its list, whether
/// or not the accounts were read again.
pub proof fn law_account_results_keep_cursors(
    old: App,
    done: UserCommand,
    out: CommandOutput,
    files: Option<(String, String)>,
    new: App,
)
    requires
        cursors_in_range(old),
        user_command_finished(old, done, out, files, new),
    ensures
        cursors_in_range(new),
{
}

/// The end of a package-manager command keeps every cursor on its list.
pub proof fn law_package_results_keep_cursors(old: App, purpose: PackageCommand, out: Seq<char>, new: App)
    requires
        cursors_in_range(old),
        package_finished(old, purpose, out, new),
    ensures
        cursors_in_range(new),
{
}

/// What was cut is pasted once: after a paste of a cut succeeds, `v`
/// finds the clipboard empty, pastes nothing and says so.
pub proof fn law_cut_pastes_once(
    old: App,
    items: Seq<FileEntry>,
    mid: App,
    new: App,
    eff: Effect,
)
    requires
        old.modal is None,
        old.active_tab == Tab::Files,
        old.files.clipboard matches Some(c) && c.op == ClipOp::Cut,
        relisted(after_paste(old), mid, items, "Pasted successfully"@, NotifKind::Success),
        key_handled(mid, Key::Char('v'), new, eff),
    ensures
        eff is Nothing,
        fresh_notice(new.notif, "Clipboard empty"@, NotifKind::Failure),
        mid.files.clipboard is None,
{
}


/// Showing a sample taken on the spot keeps every cursor on its list.
pub proof fn law_samples_keep_cursors(old: App, data: SystemData, new: App)
    requires
        cursors_in_range(old),
        took_sample(old, data, new),
    ensures
        cursors_in_range(new),
{
}


proof fn lemma_hm_text_unique(h: nat, m: nat, h2: nat, m2: nat)
    requires
        decimal(h) + "h "@ + decimal(m) + "m"@ == decimal(h2) + "h "@ + decimal(m2) + "m"@,
    ensures
        h == h2,
        m == m2,
{
    reveal_strlit("h ");
    reveal_strlit("m");
    lemma_decimal_digits(h);
    lemma_decimal_digits(h2);
    lemma_decimal_digits(m);
    lemma_decimal_digits(m2);
    let t1 = decimal(h) + "h "@ + decimal(m) + "m"@;
    let t2 = decimal(h2) + "h "@ + decimal(m2) + "m"@;
    let l1 = decimal(h).len() as int;
    let l2 = decimal(h2).len() as int;
    if l1 < l2 {
        assert(t1[l1] == 'h');
        assert(t2[l1] == decimal(h2)[l1]);
        assert(false);
    }
    if l2 < l1 {
        assert(t2[l2] == 'h');
        assert(t1[l2] == decimal(h)[l2]);
        assert(false);
    }
    assert(t1.subrange(0, l1) =~= decimal(h));
    assert(t2.subrange(0, l1) =~= decimal(h2));
    lemma_decimal_injective(h, h2);
    assert(t1.subrange(l1 + 2, t1.len() - 1) =~= decimal(m));
    assert(t2.subrange(l1 + 2, t2.len() - 1) =~= decimal(m2));
    lemma_decimal_injective(m, m2);
}

/// The uptime shown reads back to the uptime, to the minute: whatever
/// hours `h` and minutes `m` the text shows, `m` is below 60 and the
/// uptime lies in that very minute.
pub proof fn law_uptime_reads_back(secs: u64, h: nat, m: nat)
    requires
        uptime_text(secs) == decimal(h) + "h "@ + decimal(m) + "m"@,
    ensures
        m < 60,
        h * 3600 + m * 60 <= secs < h * 3600 + m * 60 + 60,
{
    lemma_hm_text_unique(h, m, (secs / 3600) as nat, ((secs % 3600) / 60) as nat);
}

/// Each of the nine permission characters shows its own mode bit, from
/// the owner's read bit (0o400) down to the others' execute bit (0o001):
/// `r`, `w` or `x` in turn when the bit is set, `-` when it is clear.
pub proof fn law_perms_show_each_bit(mode: u32)
    ensures
        perms(mode).len() == 9,
        forall|i: int|
            0 <= i < 9 ==> (#[trigger] perms(mode)[i] != '-' <==> (mode >> ((8 - i) as u32)) & 1u32 == 1u32),
        forall|i: int|
            0 <= i < 9 && #[trigger] perms(mode)[i] != '-' ==> perms(mode)[i] == seq!['r', 'w', 'x'][i % 3],
{
    assert(((mode >> 6u32) & 4u32 != 0u32) == ((mode >> 8u32) & 1u32 == 1u32)) by (bit_vector);
    assert(((mode >> 6u32) & 2u32 != 0u32) == ((mode >> 7u32) & 1u32 == 1u32)) by (bit_vector);
    assert(((mode >> 6u32) & 1u32 != 0u32) == ((mode >> 6u32) & 1u32 == 1u32)) by (bit_vector);
    assert(((mode >> 3u32) & 4u32 != 0u32) == ((mode >> 5u32) & 1u32 == 1u32)) by (bit_vector);
    assert(((mode >> 3u32) & 2u32 != 0u32) == ((mode >> 4u32) & 1u32 == 1u32)) by (bit_vector);
    assert(((mode >> 3u32) & 1u32 != 0u32) == ((mode >> 3u32) & 1u32 == 1u32)) by (bit_vector);
    assert(((mode >> 0u32) & 4u32 != 0u32) == ((mode >> 2u32) & 1u32 == 1u32)) by (bit_vector);
    assert(((mode >> 0u32) & 2u32 != 0u32) == ((mode >> 1u32) & 1u32 == 1u32)) by (bit_vector);
    assert(((mode >> 0u32) & 1u32 != 0u32) == ((mode >> 0u32) & 1u32 == 1u32)) by (bit_vector);
    assert forall|i: int| 0 <= i < 9 implies (#[trigger] perms(mode)[i] != '-' <==> (mode >> ((8 - i) as u32)) & 1u32
        == 1u32) && (perms(mode)[i] != '-' ==> perms(mode)[i] == seq!['r', 'w', 'x'][i % 3]) by {
        if i == 0 {
            assert((8 - i) as u32 == 8u32);
        } else if i == 1 {
            assert((8 - i) as u32 == 7u32);
        } else if i == 2 {
            assert((8 - i) as u32 == 6u32);
        } else if i == 3 {
            assert((8 - i) as u32 == 5u32);
        } else if i == 4 {
            assert((8 - i) as u32 == 4u32);
        } else if i == 5 {
            assert((8 - i) as u32 == 3u32);
        } else if i == 6 {
            assert((8 - i) as u32 == 2u32);
        } else if i == 7 {
            assert((8 - i) as u32 == 1u32);
        } else {
            assert((8 - i) as u32 == 0u32);
        }
    }
}

/// Installing and removing are different commands for every manager and
/// package, and each is the manager's own command line run through
/// `pkexec`: pacman `-S`/`-R` without confirmation, apt, dnf and zypper
/// `install -y`/`remove -y`.
pub proof fn law_install_is_not_remove(pm: PackageManager, p: Seq<char>)
    ensures
        install_line(pm, p) != remove_line(pm, p),
        install_line(pm, p) == match pm {
            PackageManager::Pacman => "pkexec pacman -S --noconfirm "@ + p,
            PackageManager::Apt => "pkexec apt install -y "@ + p,
            PackageManager::Dnf => "pkexec dnf install -y "@ + p,
            PackageManager::Zypper => "pkexec zypper install -y "@ + p,
        },
        remove_line(pm, p) == match pm {
            PackageManager::Pacman => "pkexec pacman -R --noconfirm "@ + p,
            PackageManager::Apt => "pkexec apt remove -y "@ + p,
            PackageManager::Dnf => "pkexec dnf remove -y "@ + p,
            PackageManager::Zypper => "pkexec zypper remove -y "@ + p,
        },
{
    reveal_strlit("pkexec pacman -S --noconfirm ");
    reveal_strlit("pkexec pacman -R --noconfirm ");
    reveal_strlit("pkexec apt install -y ");
    reveal_strlit("pkexec apt remove -y ");
    reveal_strlit("pkexec dnf install -y ");
    reveal_strlit("pkexec dnf remove -y ");
    reveal_strlit("pkexec zypper install -y ");
    reveal_strlit("pkexec zypper remove -y ");
    let k: int = match pm {
        PackageManager::Pacman => 15,
        PackageManager::Apt => 11,
        PackageManager::Dnf => 11,
        PackageManager::Zypper => 14,
    };
    assert(install_line(pm, p)[k] != remove_line(pm, p)[k]);
}

/// On the service panel, number key `c` (1 to 5) asks to start, stop,
/// restart, enable or disable the service under the cursor, and Enter
/// then runs exactly that action on that service.
pub proof fn law_service_keys(old: App, c: char, mid: App, new: App, e1: Effect, e2: Effect)
    requires
        old.modal is None,
        old.active_tab == Tab::Services,
        old.services.idx < old.services.services@.len(),
        '1' <= c <= '5',
        key_handled(old, Key::Char(c), mid, e1),
        key_handled(mid, Key::Enter, new, e2),
    ensures
        mid.modal matches Some(m) && m.body@ == seq!["start"@, "stop"@, "restart"@, "enable"@, "disable"@][c as int
            - '1' as int] + " service: "@
            + old.services.services@[old.services.idx as int].name@ + "?"@,
        e2 matches Effect::ServiceAction { name, action } && name == old.services.services@[old.services.idx as int].name
            && action@ == seq!["start"@, "stop"@, "restart"@, "enable"@, "disable"@][c as int
            - '1' as int],
{
}

/// Sorted by CPU or memory use, the process list never goes up in that
/// field; sorted by pid it never goes down; sorted by name no name comes
/// after a later one in character order.
pub proof fn law_procs_sorted_by_field(by: SortBy, snap: Seq<ProcInfo>, shown: Seq<ProcInfo>)
    requires
        crate::sort::stable_sorted(snap, shown, |a: ProcInfo, b: ProcInfo| proc_before(by, a, b)),
    ensures
        shown.len() == snap.len(),
        by == SortBy::Cpu ==> forall|i: int, j: int|
            0 <= i < j < shown.len() ==> #[trigger] shown[i].cpu >= #[trigger] shown[j].cpu,
        by == SortBy::Mem ==> forall|i: int, j: int|
            0 <= i < j < shown.len() ==> #[trigger] shown[i].mem >= #[trigger] shown[j].mem,
        by == SortBy::Pid ==> forall|i: int, j: int|
            0 <= i < j < shown.len() ==> #[trigger] shown[i].pid <= #[trigger] shown[j].pid,
        by == SortBy::Name ==> forall|i: int, j: int|
            0 <= i < j < shown.len() ==> !lex_lt(#[trigger] shown[j].name@, #[trigger] shown[i].name@),
{
    let lt = |a: ProcInfo, b: ProcInfo| proc_before(by, a, b);
    let p = choose|p: Seq<int>|
        {
            &&& crate::sort::is_perm(p, snap.len())
            &&& shown.len() == snap.len()
            &&& forall|k: int| 0 <= k < shown.len() ==> #[trigger] shown[k] == snap[p[k]]
            &&& forall|k: int, l: int|
                0 <= k < l < shown.len() ==> crate::sort::before(lt, #[trigger] shown[k], p[k], #[trigger] shown[l], p[l])
        };
    assert forall|i: int, j: int| 0 <= i < j < shown.len() implies !proc_before(by, shown[j], shown[i]) by {
        assert(crate::sort::before(lt, shown[i], p[i], shown[j], p[j]));
        if by == SortBy::Name {
            lemma_lex_order(shown[i].name@, shown[j].name@, shown[j].name@);
        }
    }
    if by == SortBy::Name {
        assert forall|i: int, j: int| 0 <= i < j < shown.len() implies !lex_lt(
            #[trigger] shown[j].name@,
            #[trigger] shown[i].name@,
        ) by {
            assert(!proc_before(by, shown[j], shown[i]));
        }
    }
}

/// After a sample is taken in, the processes run from the highest CPU use
/// down.
pub proof fn law_sample_by_cpu(old: SystemData, s: Sample, new: SystemData)
    requires
        refreshed(old, s, new),
    ensures
        forall|i: int, j: int| 0 <= i < j < new.procs@.len() ==> #[trigger] new.procs@[i].cpu >= #[trigger] new.procs@[j].cpu,
{
    let (rows, sorted) = choose|rows: Seq<ProcInfo>, sorted: Seq<ProcInfo>|
        {
            &&& crate::data::proc_rows(rows, s.procs@, s.mem_total)
            &&& crate::sort::stable_sorted(rows, sorted, crate::data::by_cpu())
            &&& new.procs@ == crate::text::first_n(sorted, crate::data::MAX_PROCS as nat)
        };
    assert(crate::data::by_cpu() == |a: ProcInfo, b: ProcInfo| proc_before(SortBy::Cpu, a, b));
    law_procs_sorted_by_field(SortBy::Cpu, rows, sorted);
    assert forall|i: int, j: int| 0 <= i < j < new.procs@.len() implies #[trigger] new.procs@[i].cpu
        >= #[trigger] new.procs@[j].cpu by {
        assert(new.procs@[i] == sorted[i] && new.procs@[j] == sorted[j]);
    }
}

} // verus!
