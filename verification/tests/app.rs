use nganjo::app::{App, Key};
use nganjo::effect::{CommandOutput, Effect, PackageCommand, PreviewSource, UserCommand};
use nganjo::modal::ModalKind;
use nganjo::notify::NotifKind;
use nganjo::data::{ProcSample, Sample, SystemData};
use nganjo::panels::disk::DiskInfo;
use nganjo::panels::files::{FileEntry, FilePanel};
use nganjo::panels::packages::{PackageManager, PackagePanel};
use nganjo::panels::procs::{ProcInfo, SortBy};
use nganjo::panels::services::ServicePanel;
use nganjo::panels::users::UserPanel;
use nganjo::tab::Tab;

const GROUP: &str = "wheel:x:10:alice,bob\naudio:x:11:alice\n";
const PASSWD: &str = "root:x:0:0:root:/root:/bin/bash\nalice:x:1000:1000::/home/alice:/usr/bin/zsh\ndaemon:x:2:2::/:/sbin/nologin\n";
const UNITS: &str = "sshd.service loaded active running OpenSSH\ncron.service loaded failed failed Cron\n";

fn entry(path: &str, is_dir: bool) -> FileEntry {
    FileEntry { path: path.to_string(), is_dir, size: 1, mode: 0o644 }
}

fn proc_info(pid: u32, name: &str, cpu: u32, mem: u32) -> ProcInfo {
    ProcInfo { pid, name: name.to_string(), cpu, mem, status: "Run".to_string(), user: "1000".to_string() }
}

fn app_with(pm: Option<PackageManager>) -> App {
    let files = FilePanel::new(
        "/home/u".to_string(),
        vec![entry("/home/u/a.txt", false), entry("/home/u/docs", true)],
    );
    App::new(files, ServicePanel::new(UNITS), PackagePanel::with_manager(pm), UserPanel::new(GROUP, PASSWD))
}

fn app() -> App {
    app_with(None)
}

fn notice(a: &App) -> (String, NotifKind) {
    let n = a.notif.as_ref().expect("a notification");
    (n.text.clone(), n.kind)
}

fn typed(a: &mut App, text: &str) {
    for c in text.chars() {
        assert!(matches!(a.handle_key(Key::Char(c)), Effect::Nothing));
    }
}

#[test]
fn starts_on_the_file_panel_with_nothing_open() {
    let a = app();
    assert_eq!(a.active_tab, Tab::Files);
    assert!(!a.should_quit);
    assert!(a.notif.is_none());
    assert!(a.modal.is_none());
    assert_eq!(a.procs.sort_by, SortBy::Cpu);
    assert!(a.procs.procs.is_empty());
    assert!(a.disks.disks.is_empty());
}

#[test]
fn tab_visits_every_panel_and_back_tab_reverses() {
    let mut a = app();
    let order = [Tab::Procs, Tab::Services, Tab::Packages, Tab::Disks, Tab::Users, Tab::Files];
    for t in order {
        a.handle_key(Key::Tab);
        assert_eq!(a.active_tab, t);
    }
    a.handle_key(Key::BackTab);
    assert_eq!(a.active_tab, Tab::Users);
    a.handle_key(Key::Tab);
    assert_eq!(a.active_tab, Tab::Files);
}

#[test]
fn q_quits_only_without_a_dialog_or_modifier() {
    let mut a = app();
    assert!(a.is_quit_key(Key::Char('q'), true));
    assert!(!a.is_quit_key(Key::Char('q'), false));
    assert!(!a.is_quit_key(Key::Char('x'), true));
    a.handle_key(Key::Char('n'));
    assert!(!a.is_quit_key(Key::Char('q'), true));
}

#[test]
fn arrows_move_the_active_panels_cursor() {
    let mut a = app();
    a.handle_key(Key::Down);
    assert_eq!(a.files.idx, 1);
    a.handle_key(Key::Down);
    a.handle_key(Key::Down);
    assert_eq!(a.files.idx, 2);
    a.handle_key(Key::Up);
    assert_eq!(a.files.idx, 1);
    a.handle_key(Key::Tab);
    a.handle_key(Key::Tab);
    a.handle_key(Key::Down);
    assert_eq!(a.services.idx, 1);
    assert_eq!(a.files.idx, 1);
}

#[test]
fn enter_on_a_process_posts_its_summary() {
    let mut a = app();
    a.frame(Some((vec![proc_info(42, "bash", 125, 30)], vec![])));
    a.handle_key(Key::Tab);
    assert!(matches!(a.handle_key(Key::Enter), Effect::Nothing));
    assert_eq!(notice(&a), ("PID 42  bash  CPU 12.5%  MEM 3.0%".to_string(), NotifKind::Info));
}

#[test]
fn enter_and_backspace_on_files_ask_for_listings() {
    let mut a = app();
    a.handle_key(Key::Down);
    assert!(matches!(a.handle_key(Key::Enter), Effect::ListDir { dir } if dir == "/home/u/docs"));
    assert!(matches!(a.handle_key(Key::Backspace), Effect::ListDir { dir } if dir == "/home"));
    a.dir_listed("/home/u/docs".to_string(), vec![entry("/home/u/docs/x", false)]);
    assert_eq!(a.files.path, "/home/u/docs");
    assert_eq!(a.files.entries.len(), 2);
    assert_eq!(a.files.idx, 0);
}

#[test]
fn delete_asks_then_deletes_the_targets() {
    let mut a = app();
    a.handle_key(Key::Down);
    a.handle_key(Key::Down);
    assert!(matches!(a.handle_key(Key::Char('d')), Effect::Nothing));
    let m = a.modal.as_ref().unwrap();
    assert_eq!(m.kind, ModalKind::Confirm);
    assert_eq!(m.title, " CONFIRM");
    assert_eq!(m.body, "Delete: a.txt?");
    match a.handle_key(Key::Enter) {
        Effect::DeleteFiles { paths, dir } => {
            assert_eq!(paths, vec!["/home/u/a.txt"]);
            assert_eq!(dir, "/home/u");
        }
        _ => panic!("expected a deletion"),
    }
    assert!(a.modal.is_none());
    a.files_deleted(vec![entry("/home/u/docs", true)]);
    assert_eq!(notice(&a), ("Deleted".to_string(), NotifKind::Warn));
    assert_eq!(a.files.entries.len(), 2);
}

#[test]
fn delete_question_names_at_most_three_targets() {
    let files = FilePanel::new(
        "/x/d".to_string(),
        vec![entry("/x/d/1", false), entry("/x/d/2", false), entry("/x/d/3", false), entry("/x/d/4", false)],
    );
    let mut a = App::new(files, ServicePanel::new(""), PackagePanel::with_manager(None), UserPanel::new("", ""));
    for _ in 0..5 {
        a.handle_key(Key::Char(' '));
    }
    a.handle_key(Key::Char('d'));
    assert_eq!(a.modal.as_ref().unwrap().body, "Delete: x, 1, 2?");
}

#[test]
fn escape_closes_a_dialog_without_acting() {
    let mut a = app();
    a.handle_key(Key::Down);
    a.handle_key(Key::Char('d'));
    assert!(matches!(a.handle_key(Key::Char('x')), Effect::Nothing));
    assert!(a.modal.is_some());
    assert!(matches!(a.handle_key(Key::Esc), Effect::Nothing));
    assert!(a.modal.is_none());
    assert!(a.notif.is_none());
}

#[test]
fn typing_in_a_dialog_and_accepting_it() {
    let mut a = app();
    a.handle_key(Key::Char('n'));
    assert_eq!(a.modal.as_ref().unwrap().title, "New folder name:");
    typed(&mut a, "abcq");
    a.handle_key(Key::Backspace);
    a.handle_key(Key::Backspace);
    assert_eq!(a.modal.as_ref().unwrap().input, "ab");
    match a.handle_key(Key::Enter) {
        Effect::NewFolder { dir, name } => {
            assert_eq!(dir, "/home/u");
            assert_eq!(name, "ab");
        }
        _ => panic!("expected a new folder"),
    }
    a.folder_created("ab", vec![]);
    assert_eq!(notice(&a), ("Created ab".to_string(), NotifKind::Success));
}

#[test]
fn backspace_on_an_empty_line_does_nothing() {
    let mut a = app();
    a.handle_key(Key::Char('m'));
    a.handle_key(Key::Backspace);
    assert_eq!(a.modal.as_ref().unwrap().input, "");
}

#[test]
fn a_message_closes_on_any_key() {
    let mut a = app();
    a.preview_ready("/home/u/a.txt", PreviewSource::Binary { size: 3 });
    let m = a.modal.as_ref().unwrap();
    assert_eq!(m.kind, ModalKind::Message);
    assert_eq!(m.title, "Preview");
    assert_eq!(m.body, "[Binary file]\n3 bytes");
    a.handle_key(Key::Char('z'));
    assert!(a.modal.is_none());
}

#[test]
fn rename_prompt_starts_from_the_current_name() {
    let mut a = app();
    a.handle_key(Key::Down);
    a.handle_key(Key::Down);
    a.handle_key(Key::Char('r'));
    assert_eq!(a.modal.as_ref().unwrap().input, "a.txt");
    typed(&mut a, "2");
    assert!(matches!(a.handle_key(Key::Enter),
        Effect::Rename { from: Some(f), to, .. } if f == "/home/u/a.txt" && to == "a.txt2"));
    a.file_renamed("a.txt2", vec![]);
    assert_eq!(notice(&a).0, "Renamed to a.txt2");
}

#[test]
fn chmod_reports_even_when_the_mode_is_not_octal() {
    let mut a = app();
    a.handle_key(Key::Down);
    a.handle_key(Key::Char('m'));
    typed(&mut a, "9z");
    assert!(matches!(a.handle_key(Key::Enter), Effect::Nothing));
    assert_eq!(notice(&a), ("chmod 9z applied".to_string(), NotifKind::Success));
    a.handle_key(Key::Char('m'));
    typed(&mut a, "640");
    assert!(matches!(a.handle_key(Key::Enter), Effect::Chmod { mode: 0o640, .. }));
}

#[test]
fn copy_cut_and_paste_on_files() {
    let mut a = app();
    a.handle_key(Key::Down);
    a.handle_key(Key::Char('c'));
    assert_eq!(notice(&a), ("Copied to clipboard".to_string(), NotifKind::Success));
    assert!(matches!(a.handle_key(Key::Char('v')), Effect::Paste { cut: false, .. }));
    a.handle_key(Key::Char('x'));
    assert_eq!(notice(&a), ("Cut to clipboard".to_string(), NotifKind::Warn));
    assert!(matches!(a.handle_key(Key::Char('v')), Effect::Paste { cut: true, .. }));
    a.paste_finished(Ok(vec![]));
    assert_eq!(notice(&a), ("Pasted successfully".to_string(), NotifKind::Success));
    assert!(a.files.clipboard.is_none());
    assert!(matches!(a.handle_key(Key::Char('v')), Effect::Nothing));
    assert_eq!(notice(&a), ("Clipboard empty".to_string(), NotifKind::Failure));
}

#[test]
fn a_failed_paste_reports_the_error_and_keeps_the_clipboard() {
    let mut a = app();
    a.handle_key(Key::Down);
    a.handle_key(Key::Char('x'));
    a.paste_finished(Err("permission denied".to_string()));
    assert_eq!(notice(&a), ("permission denied".to_string(), NotifKind::Failure));
    assert!(a.files.clipboard.is_some());
}

#[test]
fn kill_asks_then_removes_the_process() {
    let mut a = app();
    a.frame(Some((vec![proc_info(7, "top", 10, 10), proc_info(42, "bash", 900, 10)], vec![])));
    a.handle_key(Key::Tab);
    assert_eq!(a.procs.procs[0].pid, 42);
    a.handle_key(Key::Char('k'));
    assert_eq!(a.modal.as_ref().unwrap().body, "Kill PID 42 (bash)?");
    assert!(matches!(a.handle_key(Key::Enter), Effect::Kill { pid: 42 }));
    assert_eq!(a.procs.procs.len(), 1);
    assert_eq!(notice(&a), ("Killed bash".to_string(), NotifKind::Warn));
}

#[test]
fn sort_key_cycles_on_the_process_panel() {
    let mut a = app();
    a.handle_key(Key::Tab);
    a.handle_key(Key::Char('t'));
    assert_eq!(a.procs.sort_by, SortBy::Mem);
    a.handle_key(Key::Tab);
    a.handle_key(Key::Char('t'));
    assert_eq!(a.procs.sort_by, SortBy::Mem);
}

#[test]
fn service_number_keys_confirm_then_act() {
    let mut a = app();
    a.handle_key(Key::Tab);
    a.handle_key(Key::Tab);
    a.handle_key(Key::Char('3'));
    assert_eq!(a.modal.as_ref().unwrap().body, "restart service: sshd?");
    match a.handle_key(Key::Enter) {
        Effect::ServiceAction { name, action } => {
            assert_eq!(name, "sshd");
            assert_eq!(action, "restart");
        }
        _ => panic!("expected a service action"),
    }
    let out = CommandOutput::Finished { stdout: String::new(), stderr: String::new() };
    a.service_action_done("sshd", "restart", out, UNITS);
    assert_eq!(notice(&a), ("restart sshd: done".to_string(), NotifKind::Success));
}

#[test]
fn service_info_shows_its_status() {
    let mut a = app();
    a.handle_key(Key::Tab);
    a.handle_key(Key::Tab);
    assert!(matches!(a.handle_key(Key::Char('i')), Effect::ServiceStatus { name } if name == "sshd"));
    let out = CommandOutput::Finished { stdout: "line1\nline2\n".to_string(), stderr: String::new() };
    a.service_status_ready("sshd", out);
    let m = a.modal.as_ref().unwrap();
    assert_eq!(m.title, "Service: sshd");
    assert_eq!(m.body, "line1\nline2");
}

#[test]
fn refresh_reloads_services_and_says_so() {
    let mut a = app();
    a.handle_key(Key::Tab);
    a.handle_key(Key::Tab);
    assert!(matches!(a.handle_key(Key::F(5)), Effect::ListServices));
    assert_eq!(notice(&a), ("Refreshed".to_string(), NotifKind::Success));
    a.services_loaded("");
    assert!(a.services.services.is_empty());
    assert_eq!(a.services.idx, 0);
    assert!(matches!(a.handle_key(Key::F(4)), Effect::Nothing));
}

#[test]
fn package_search_runs_the_managers_command() {
    let mut a = app_with(Some(PackageManager::Pacman));
    for _ in 0..3 {
        a.handle_key(Key::Tab);
    }
    a.handle_key(Key::Char('s'));
    typed(&mut a, "vim");
    match a.handle_key(Key::Enter) {
        Effect::Shell { command, purpose: PackageCommand::Search { query } } => {
            assert_eq!(command, "pacman -Ss vim");
            assert_eq!(query, "vim");
        }
        _ => panic!("expected a search"),
    }
    a.package_done(
        PackageCommand::Search { query: "vim".to_string() },
        "extra/vim 9.1-1\n    Vi Improved\nextra/gvim 9.1-1\n".to_string(),
    );
    assert_eq!(a.packages.results, vec!["extra/vim", "extra/gvim"]);
    assert_eq!(notice(&a), ("Found 2 packages".to_string(), NotifKind::Success));
    a.handle_key(Key::Char('1'));
    assert_eq!(a.modal.as_ref().unwrap().body, "Install: vim?");
    assert!(matches!(a.handle_key(Key::Enter),
        Effect::Shell { command, purpose: PackageCommand::Install } if command == "pkexec pacman -S --noconfirm vim"));
}

#[test]
fn package_keys_without_a_manager() {
    let mut a = app();
    for _ in 0..3 {
        a.handle_key(Key::Tab);
    }
    assert!(matches!(a.handle_key(Key::Char('l')), Effect::Nothing));
    assert_eq!(notice(&a), ("Listed installed packages".to_string(), NotifKind::Success));
    a.handle_key(Key::Char('s'));
    typed(&mut a, "x");
    assert!(matches!(a.handle_key(Key::Enter), Effect::Nothing));
    assert_eq!(notice(&a).0, "Found 0 packages");
}

#[test]
fn user_commands_and_their_reports() {
    let mut a = app();
    for _ in 0..5 {
        a.handle_key(Key::Tab);
    }
    assert_eq!(a.active_tab, Tab::Users);
    a.handle_key(Key::Char('n'));
    typed(&mut a, "bob");
    match a.handle_key(Key::Enter) {
        Effect::Pkexec { args, reload, done } => {
            assert_eq!(args, vec!["useradd", "-m", "bob"]);
            assert!(reload);
            let out = CommandOutput::Finished { stdout: String::new(), stderr: String::new() };
            let passwd = format!("{PASSWD}bob:x:1001:1001::/home/bob:/bin/sh\n");
            a.user_command_done(done, out, Some((GROUP.to_string(), passwd)));
        }
        _ => panic!("expected pkexec"),
    }
    assert_eq!(notice(&a), ("Created user bob".to_string(), NotifKind::Success));
    assert_eq!(a.users.users.len(), 3);
    a.handle_key(Key::Down);
    a.handle_key(Key::Char('k'));
    typed(&mut a, " lock ");
    match a.handle_key(Key::Enter) {
        Effect::Pkexec { args, reload, done } => {
            assert_eq!(args, vec!["usermod", "-L", "alice"]);
            assert!(!reload);
            let out = CommandOutput::Failed { error: "no pkexec".to_string() };
            a.user_command_done(done, out, None);
        }
        _ => panic!("expected pkexec"),
    }
    assert_eq!(notice(&a), ("no pkexec".to_string(), NotifKind::Warn));
    a.handle_key(Key::Char('i'));
    typed(&mut a, "audio");
    assert!(matches!(a.handle_key(Key::Enter),
        Effect::Pkexec { args, done: UserCommand::AddToGroup { .. }, .. } if args == vec!["usermod", "-aG", "audio", "alice"]));
}

#[test]
fn disk_keys_unmount_and_show_usage() {
    let mut a = app();
    let d = DiskInfo::new("/dev/sdb1".to_string(), "/mnt".to_string(), "ext4".to_string(), 1000, 250);
    a.frame(Some((vec![], vec![d])));
    for _ in 0..4 {
        a.handle_key(Key::Tab);
    }
    a.handle_key(Key::Char('k'));
    assert_eq!(a.modal.as_ref().unwrap().body, "Unmount /mnt?");
    assert!(matches!(a.handle_key(Key::Enter), Effect::Unmount { mount } if mount == "/mnt"));
    a.unmounted("/mnt", CommandOutput::Finished { stdout: String::new(), stderr: String::new() });
    assert_eq!(notice(&a), ("Unmounted /mnt".to_string(), NotifKind::Warn));
    assert!(matches!(a.handle_key(Key::Char('i')), Effect::DiskUsage { mount } if mount == "/mnt"));
    a.disk_usage_ready("/mnt", None);
    assert_eq!(a.modal.as_ref().unwrap().title, "Disk usage: /mnt");
    assert_eq!(a.modal.as_ref().unwrap().body, "No data");
}

#[test]
fn process_info_reads_proc_status() {
    let mut a = app();
    a.frame(Some((vec![proc_info(5, "sh", 0, 0)], vec![])));
    a.handle_key(Key::Tab);
    assert!(matches!(a.handle_key(Key::Char('i')), Effect::ProcStatus { pid: 5, name } if name == "sh"));
    a.proc_status_ready(5, "sh", None);
    assert_eq!(a.modal.as_ref().unwrap().title, "Process: sh");
    assert_eq!(a.modal.as_ref().unwrap().body, "PID 5 — no /proc info");
}

#[test]
fn a_notification_lasts_twelve_frames_then_goes() {
    let mut a = app();
    a.notify("hi".to_string(), NotifKind::Info);
    for left in (0..12).rev() {
        a.frame(None);
        assert_eq!(a.notif.as_ref().unwrap().ticks, left);
    }
    a.frame(None);
    assert!(a.notif.is_none());
}

#[test]
fn frames_keep_the_cursor_on_the_list() {
    let mut a = app();
    a.frame(Some((vec![proc_info(1, "a", 1, 0), proc_info(2, "b", 5, 0), proc_info(3, "c", 3, 0)], vec![])));
    let pids: Vec<u32> = a.procs.procs.iter().map(|p| p.pid).collect();
    assert_eq!(pids, vec![2, 3, 1]);
    a.handle_key(Key::Tab);
    a.handle_key(Key::Down);
    a.handle_key(Key::Down);
    assert_eq!(a.procs.idx, 2);
    a.frame(Some((vec![proc_info(9, "z", 0, 0)], vec![])));
    assert_eq!(a.procs.idx, 0);
    a.frame(Some((vec![], vec![])));
    assert_eq!(a.procs.idx, 0);
}

#[test]
fn n_on_processes_asks_for_a_nice_value_and_renices() {
    let mut a = app();
    a.frame(Some((vec![proc_info(42, "bash", 10, 10)], vec![])));
    a.handle_key(Key::Tab);
    assert!(matches!(a.handle_key(Key::Char('n')), Effect::Nothing));
    let m = a.modal.as_ref().unwrap();
    assert_eq!(m.kind, ModalKind::Input);
    assert_eq!(m.title, "Renice value (-20 to 19):");
    typed(&mut a, "5");
    assert!(matches!(a.handle_key(Key::Enter), Effect::Renice { pid: 42, value } if value == "5"));
    assert_eq!(notice(&a), ("Reniced to 5".to_string(), NotifKind::Success));
}

#[test]
fn f5_on_processes_samples_at_once() {
    let mut a = app();
    a.handle_key(Key::Tab);
    assert!(matches!(a.handle_key(Key::F(5)), Effect::SampleNow));
    assert_eq!(notice(&a), ("Refreshed".to_string(), NotifKind::Success));
    let mut data = SystemData::new();
    let ps = |pid: u32, cpu: u32| ProcSample { pid, name: format!("p{pid}"), cpu, memory: 0, status: String::new(), user: String::new() };
    let s = Sample {
        cpu_pct: 50, mem_used: 1, mem_total: 2, uptime_secs: 60, disks: vec![],
        procs: vec![ps(1, 5), ps(2, 9)], ifaces: vec![],
    };
    a.system_sampled(&mut data, s);
    assert_eq!(data.cpu_pct, 50);
    let pids: Vec<u32> = a.procs.procs.iter().map(|p| p.pid).collect();
    assert_eq!(pids, vec![2, 1]);
    assert_eq!(a.procs.idx, 0);
    assert_eq!(a.notif.as_ref().unwrap().text, "Refreshed");
}
