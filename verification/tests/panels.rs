use nganjo::effect::{CommandOutput, Effect};
use nganjo::panels::disk::{DiskInfo, DiskPanel};
use nganjo::panels::packages::{PackageManager, PackagePanel};
use nganjo::panels::procs::{ProcInfo, ProcPanel, SortBy};
use nganjo::panels::services::{parse_services, ServicePanel};
use nganjo::panels::users::{command_report, parse_users, UserPanel};
use nganjo::effect::UserCommand;

fn finished(stdout: &str, stderr: &str) -> CommandOutput {
    CommandOutput::Finished { stdout: stdout.to_string(), stderr: stderr.to_string() }
}

fn p(pid: u32, name: &str, cpu: u32, mem: u32) -> ProcInfo {
    ProcInfo { pid, name: name.to_string(), cpu, mem, status: String::new(), user: String::new() }
}

#[test]
fn services_are_parsed_from_the_unit_listing() {
    let out = "sshd.service loaded active running OpenSSH Daemon\nshort line\n\nnginx.service.service loaded inactive dead web\n";
    let s = parse_services(out);
    assert_eq!(s.len(), 2);
    assert_eq!((s[0].name.as_str(), s[0].active.as_str(), s[0].sub.as_str()), ("sshd", "active", "running"));
    assert_eq!((s[1].name.as_str(), s[1].active.as_str(), s[1].sub.as_str()), ("nginx", "inactive", "dead"));
}

#[test]
fn at_most_eighty_services_are_kept() {
    let out: String = (0..100).map(|i| format!("u{i}.service loaded active running x\n")).collect();
    let panel = ServicePanel::new(&out);
    assert_eq!(panel.services.len(), 80);
    assert_eq!(panel.services[79].name, "u79");
}

#[test]
fn reloading_services_keeps_the_cursor_on_the_list() {
    let out: String = (0..5).map(|i| format!("u{i} l a r\n")).collect();
    let mut panel = ServicePanel::new(&out);
    for _ in 0..4 {
        panel.move_down();
    }
    assert_eq!(panel.idx, 4);
    panel.load("a l a r\nb l a r\n");
    assert_eq!(panel.idx, 1);
    assert_eq!(panel.current().unwrap().name, "b");
}

#[test]
fn service_action_reports() {
    let mut panel = ServicePanel::new("");
    assert_eq!(panel.do_action("sshd", "stop", &finished("out", "err"), ""), "out");
    assert_eq!(panel.do_action("sshd", "stop", &finished("", "err"), ""), "err");
    assert_eq!(panel.do_action("sshd", "stop", &finished("", ""), "x l a r\n"), "stop sshd: done");
    assert_eq!(panel.services.len(), 1);
    let failed = CommandOutput::Failed { error: "not found".to_string() };
    assert_eq!(panel.do_action("sshd", "stop", &failed, ""), "not found");
}

#[test]
fn service_status_shows_twenty_five_lines() {
    let panel = ServicePanel::new("");
    let out: String = (0..30).map(|i| format!("l{i}\r\n")).collect();
    let expected: Vec<String> = (0..25).map(|i| format!("l{i}")).collect();
    assert_eq!(panel.status_of(&finished(&out, "")), expected.join("\n"));
    assert_eq!(panel.status_of(&CommandOutput::Failed { error: "e".to_string() }), "e");
}

#[test]
fn package_manager_is_the_first_found() {
    assert_eq!(PackageManager::first_of(false, true, true, false), Some(PackageManager::Apt));
    assert_eq!(PackageManager::first_of(true, true, true, true), Some(PackageManager::Pacman));
    assert_eq!(PackageManager::first_of(false, false, false, true), Some(PackageManager::Zypper));
    assert_eq!(PackageManager::first_of(false, false, false, false), None);
    let panel = PackagePanel::new(false, true, true, false);
    assert_eq!(panel.pm(), Some(PackageManager::Apt));
    assert_eq!(panel.pm_name(), "apt");
    assert_eq!(panel.query_label, "—");
    assert!(panel.results.is_empty());
    assert_eq!(PackagePanel::new(true, true, false, false).pm_name(), "pacman");
    assert_eq!(PackagePanel::new(false, false, false, false).pm_name(), "none");
}

#[test]
fn package_manager_command_lines() {
    assert_eq!(PackageManager::Apt.search_command("vim"), "apt search vim 2>/dev/null");
    assert_eq!(PackageManager::Dnf.install_command("git"), "pkexec dnf install -y git");
    assert_eq!(PackageManager::Zypper.remove_command("git"), "pkexec zypper remove -y git");
    assert_eq!(PackageManager::Pacman.list_command(), "pacman -Q");
    assert_eq!(PackageManager::Apt.name(), "apt");
}

#[test]
fn package_panel_without_a_manager_does_nothing() {
    let panel = PackagePanel::with_manager(None);
    assert_eq!(panel.pm_name(), "none");
    assert_eq!(panel.search("x"), None);
    assert_eq!(panel.list_installed(), None);
    assert_eq!(panel.install("x"), None);
    assert_eq!(panel.remove("x"), None);
    assert_eq!(panel.current_pkg(), None);
}

#[test]
fn search_results_are_first_words_of_unindented_lines() {
    let mut panel = PackagePanel::with_manager(Some(PackageManager::Apt));
    assert_eq!(panel.search("vim"), Some("apt search vim 2>/dev/null".to_string()));
    panel.apply_search("vim", "Sorting...\nvim/jammy 2:8.2 amd64\n  Vi IMproved\n\n   \nneovim/jammy 0.6\n");
    assert_eq!(panel.results, vec!["Sorting...", "vim/jammy", "neovim/jammy"]);
    assert_eq!(panel.query_label, "vim");
    assert_eq!(panel.idx, 0);
    panel.move_down();
    assert_eq!(panel.current_pkg(), Some("jammy".to_string()));
}

#[test]
fn current_package_drops_the_repository() {
    let mut panel = PackagePanel::with_manager(Some(PackageManager::Pacman));
    panel.apply_search("v", "core/vim 9.0\nplain\n");
    assert_eq!(panel.current_pkg(), Some("vim".to_string()));
    panel.move_down();
    assert_eq!(panel.current_pkg(), Some("plain".to_string()));
    assert_eq!(panel.install("vim"), Some("pkexec pacman -S --noconfirm vim".to_string()));
    assert_eq!(panel.remove("vim"), Some("pkexec pacman -R --noconfirm vim".to_string()));
}

#[test]
fn search_keeps_sixty_and_installed_keeps_a_hundred() {
    let mut panel = PackagePanel::with_manager(Some(PackageManager::Dnf));
    let out: String = (0..150).map(|i| format!("p{i} 1.0\n")).collect();
    panel.apply_search("p", &out);
    assert_eq!(panel.results.len(), 60);
    panel.apply_installed(&format!("Listing... Done\n{out}"));
    assert_eq!(panel.results.len(), 100);
    assert_eq!(panel.results[0], "p0");
    assert_eq!(panel.query_label, "[installed]");
}

const GROUP: &str = "wheel:x:10:alice,bob\naudio:x:11:alice\nvideo:x:12:alice\nusb:x:13:alice\nlp:x:14:alice\nbad line\n";
const PASSWD: &str = "bob:x:1001:1001::/home/bob:/bin/bash\nroot:x:0:0:root:/root:/bin/sh\ndaemon:x:2:2::/:/sbin/nologin\nalice:x:1000:1000::/home/alice:zsh\nshort:x:1\nodd:x:notanumber:0::/:/bin/sh\n";

#[test]
fn accounts_are_root_and_people_sorted_by_uid() {
    let users = parse_users(GROUP, PASSWD);
    let names: Vec<&str> = users.iter().map(|u| u.name.as_str()).collect();
    assert_eq!(names, vec!["root", "alice", "bob"]);
    assert_eq!(users[1].uid, 1000);
    assert_eq!(users[1].home, "/home/alice");
    assert_eq!(users[1].shell, "zsh");
    assert_eq!(users[1].groups, "wheel, audio, video, usb");
    assert_eq!(users[2].groups, "wheel");
    assert_eq!(users[0].groups, "");
    assert_eq!(users[0].shell, "sh");
}

#[test]
fn account_commands_report_what_they_did() {
    let mut panel = UserPanel::new(GROUP, PASSWD);
    assert_eq!(panel.add_user("eve", &finished("", ""), GROUP, PASSWD), "Created user eve");
    assert_eq!(panel.del_user("eve", &finished("", "no such user"), GROUP, PASSWD), "no such user");
    panel.move_down();
    assert_eq!(panel.add_to_group("lp", &finished("", ""), GROUP, PASSWD), "Added alice to lp");
    assert_eq!(panel.lock_user(&finished("", "")), "Locked alice");
    assert_eq!(panel.unlock_user(&finished("done\n", "")), "done\n");
    let mut empty = UserPanel::new("", "");
    assert_eq!(empty.add_to_group("lp", &finished("", ""), GROUP, PASSWD), "Nothing selected");
    assert!(empty.users.is_empty());
    assert_eq!(empty.lock_user(&finished("", "")), "Nothing selected");
    assert_eq!(empty.unlock_user(&finished("", "")), "Nothing selected");
    let cmd = UserCommand::AddToGroup { name: "a".to_string(), group: "g".to_string() };
    assert_eq!(command_report(&cmd, &finished("", "")), "Added a to g");
}

#[test]
fn processes_are_ordered_by_the_chosen_key() {
    let mut panel = ProcPanel::new();
    let snap = vec![p(3, "b", 10, 50), p(1, "c", 30, 10), p(2, "a", 30, 20)];
    panel.update(snap.iter().map(|x| p(x.pid, &x.name, x.cpu, x.mem)).collect());
    let pids: Vec<u32> = panel.procs.iter().map(|x| x.pid).collect();
    assert_eq!(pids, vec![1, 2, 3]);
    assert_eq!(panel.sort_label(), "cpu");
    panel.cycle_sort();
    assert_eq!(panel.sort_by, SortBy::Mem);
    assert_eq!(panel.sort_label(), "mem");
    panel.update(snap.iter().map(|x| p(x.pid, &x.name, x.cpu, x.mem)).collect());
    let pids: Vec<u32> = panel.procs.iter().map(|x| x.pid).collect();
    assert_eq!(pids, vec![3, 2, 1]);
    panel.cycle_sort();
    assert_eq!(panel.sort_label(), "pid");
    panel.update(snap.iter().map(|x| p(x.pid, &x.name, x.cpu, x.mem)).collect());
    assert_eq!(panel.procs[0].pid, 1);
    panel.cycle_sort();
    assert_eq!(panel.sort_label(), "name");
    panel.update(snap.iter().map(|x| p(x.pid, &x.name, x.cpu, x.mem)).collect());
    assert_eq!(panel.procs[0].name, "a");
    panel.cycle_sort();
    assert_eq!(panel.sort_by, SortBy::Cpu);
}

#[test]
fn killing_takes_the_process_off_the_list() {
    let mut panel = ProcPanel::new();
    panel.update(vec![p(1, "a", 3, 0), p(2, "b", 2, 0)]);
    panel.move_down();
    assert_eq!(panel.kill_current(), Some(2));
    assert_eq!(panel.procs.len(), 1);
    assert_eq!(panel.idx, 0);
    assert_eq!(panel.kill_current(), Some(1));
    assert_eq!(panel.kill_current(), None);
}

#[test]
fn process_information_and_renice() {
    let mut panel = ProcPanel::new();
    assert!(matches!(panel.renice("5".to_string()), Effect::Nothing));
    panel.update(vec![p(9, "x", 0, 0)]);
    assert!(matches!(panel.renice("5".to_string()), Effect::Renice { pid: 9, value } if value == "5"));
    let status: String = (0..30).map(|i| format!("k{i}\n")).collect();
    let expected: Vec<String> = (0..20).map(|i| format!("k{i}")).collect();
    assert_eq!(panel.proc_info(9, Some(&status)), expected.join("\n"));
    assert_eq!(panel.proc_info(9, None), "PID 9 — no /proc info");
}

#[test]
fn disk_figures_and_reports() {
    let d = DiskInfo::new("/dev/sda1".to_string(), "/".to_string(), "ext4".to_string(), 2000, 500);
    assert_eq!(d.used, 1500);
    assert_eq!(d.pct, 750);
    assert_eq!(d.pct_bar(8), "██████░░");
    let full = DiskInfo::new("x".to_string(), "/x".to_string(), "t".to_string(), 10, 20);
    assert_eq!(full.used, 0);
    let empty = DiskInfo::new("x".to_string(), "/x".to_string(), "t".to_string(), 0, 0);
    assert_eq!(empty.pct, 0);
    let mut panel = DiskPanel::new();
    panel.load();
    panel.update(vec![d]);
    assert_eq!(panel.current().unwrap().mount, "/");
    assert_eq!(panel.umount("/mnt", &finished("", "")), "Unmounted /mnt");
    assert_eq!(panel.umount("/mnt", &finished("", "busy")), "busy");
    assert_eq!(panel.du_top(Some("4.0K /mnt/a\n".to_string())), "4.0K /mnt/a\n");
    assert_eq!(panel.du_top(None), "No data");
}
