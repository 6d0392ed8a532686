use nganjo::data::{NetIface, SystemData};
use nganjo::modal::{InputAction, Modal};
use nganjo::notify::{NotifKind, Notification};
use nganjo::panels::disk::{DiskInfo, DiskPanel};
use nganjo::panels::files::{FileEntry, FilePanel};
use nganjo::panels::packages::{PackageManager, PackagePanel};
use nganjo::panels::procs::{ProcInfo, ProcPanel};
use nganjo::panels::services::ServicePanel;
use nganjo::panels::users::UserPanel;
use nganjo::tab::Tab;
use nganjo::view::{
    brand_lines, colored_bar, dialog_body, dialog_rect, dialog_title, disk_footer, disk_rows, file_footer,
    file_path_line, file_rows, header_stats, help_lines, network_lines, notice_line, package_header,
    package_rows, panel_title, proc_header, proc_rows, scroll_window, service_rows, system_lines, tab_bar,
    user_footer, user_rows, Piece, Tone,
};

fn texts(v: &[Piece]) -> Vec<String> {
    v.iter().map(|p| p.text.clone()).collect()
}

fn tones(v: &[Piece]) -> Vec<Tone> {
    v.iter().map(|p| p.tone).collect()
}

#[test]
fn the_list_scrolls_to_keep_the_cursor_in_view() {
    assert_eq!(scroll_window(0, 5, 20), (0, 5));
    assert_eq!(scroll_window(4, 5, 20), (0, 5));
    assert_eq!(scroll_window(10, 5, 20), (6, 5));
    assert_eq!(scroll_window(19, 5, 20), (15, 5));
    assert_eq!(scroll_window(2, 10, 3), (0, 3));
    assert_eq!(scroll_window(0, 0, 3), (0, 0));
}

#[test]
fn the_tab_bar_highlights_the_active_panel() {
    let bar = tab_bar(Tab::Disks);
    assert_eq!(bar.len(), 12);
    assert_eq!(bar[8].text, "  DISKS  ");
    assert_eq!(bar[8].back, Some(Tone::Yellow));
    assert_eq!(bar[8].tone, Tone::Bg2);
    assert!(bar[8].bold);
    assert_eq!(bar[0].text, "  FILES  ");
    assert_eq!(bar[0].back, None);
    assert_eq!(bar[0].tone, Tone::Dim);
    assert_eq!(bar[1].text, " ");
    assert_eq!(bar.iter().filter(|p| p.back.is_some()).count(), 1);
}

#[test]
fn file_rows_mark_selection_cursor_and_kind() {
    let mut p = FilePanel::new(
        "/home/u".to_string(),
        vec![
            FileEntry { path: "/home/u/d".to_string(), is_dir: true, size: 0, mode: 0o755 },
            FileEntry { path: "/home/u/f".to_string(), is_dir: false, size: 12, mode: 0o640 },
        ],
    );
    p.move_down();
    p.toggle_select();
    let rows = file_rows(&p, 10);
    assert_eq!(rows.len(), 3);
    assert_eq!(rows[1].pieces[0].text, format!(" ✓  {:<34}", "d"));
    assert_eq!(rows[1].pieces[0].tone, Tone::Yellow);
    assert_eq!(rows[0].pieces[0].tone, Tone::Sky);
    assert_eq!(rows[0].pieces[0].text, format!("    {:<34}", "home"));
    assert!(rows[2].current);
    assert!(rows[2].pieces[0].bold);
    assert_eq!(rows[2].pieces[0].tone, Tone::Blue);
    assert_eq!(texts(&file_footer(&p)), vec![" rw-r-----  12 B"]);
    p.copy_files();
    assert_eq!(texts(&file_footer(&p)), vec![" rw-r-----  12 B", "  clip(copy): 1 item(s)"]);
    assert_eq!(file_path_line(&p).text, " /home/u");
    assert_eq!(file_rows(&p, 2).len(), 2);
    assert!(file_rows(&p, 2)[1].current);
}

#[test]
fn process_rows_show_shares_with_one_decimal() {
    let mut p = ProcPanel::new();
    p.update(vec![ProcInfo {
        pid: 4242,
        name: "a-very-long-process-name".to_string(),
        cpu: 655,
        mem: 12,
        status: String::new(),
        user: String::new(),
    }]);
    let rows = proc_rows(&p, 5);
    assert_eq!(texts(&rows[0].pieces), vec!["   65.5%", "   1.2%", "   4242", " a-very-long-proces"]);
    assert_eq!(tones(&rows[0].pieces), vec![Tone::Red, Tone::Muted, Tone::Dim, Tone::Text]);
    assert_eq!(proc_header(&p).text, "   CPU     MEM    PID   NAME   (sort: cpu)");
}

#[test]
fn service_rows_mark_the_state() {
    let p = ServicePanel::new("a l active running\nb l failed failed\nc l inactive dead\n");
    let rows = service_rows(&p, 10);
    assert_eq!(texts(&rows[0].pieces), vec![" ", "●", " running    ", "a"]);
    assert_eq!(rows[0].pieces[1].tone, Tone::Green);
    assert_eq!(rows[1].pieces[1].tone, Tone::Red);
    assert_eq!(rows[2].pieces[1].text, "○");
    assert_eq!(rows[2].pieces[2].tone, Tone::Dim);
}

#[test]
fn package_rows_or_the_hint() {
    let mut p = PackagePanel::with_manager(Some(PackageManager::Pacman));
    let hint = package_rows(&p, 5);
    assert_eq!(hint.len(), 2);
    assert_eq!(hint[0].pieces[0].text, "  S = search");
    p.apply_search("v", "vim x\nvi y\n");
    let rows = package_rows(&p, 5);
    assert_eq!(rows[1].pieces[0].text, "  vi");
    assert!(rows[0].current);
    assert_eq!(texts(&package_header(&p)), vec![" Query: ", "v", "  (2)"]);
    assert_eq!(texts(&panel_title(Tab::Packages, &p)), vec![" PACKAGES", " (pacman)"]);
}

#[test]
fn disk_rows_and_footer() {
    let mut p = DiskPanel::new();
    p.update(vec![DiskInfo::new("/dev/sda1".to_string(), "/".to_string(), "ext4".to_string(), 2_000_000, 200_000)]);
    let rows = disk_rows(&p);
    assert_eq!(
        texts(&rows[0].pieces),
        vec![format!(" {:<14}", "/dev/sda1"), format!("{:<16}", "/"), "███████".to_string(), "░".to_string(), "  90%".to_string()]
    );
    assert_eq!(rows[0].pieces[2].tone, Tone::Red);
    assert_eq!(texts(&disk_footer(&p)), vec![" 1.8 MB / 2.0 MB  [ext4]"]);
}

#[test]
fn user_rows_and_footer() {
    let p = UserPanel::new("", "root:x:0:0::/root:/bin/bash\nann:x:1000:1000::/home/ann:/bin/zsh\n");
    let rows = user_rows(&p);
    assert_eq!(texts(&rows[0].pieces), vec![" 0      ", "root            ", "bash"]);
    assert_eq!(rows[0].pieces[0].tone, Tone::Yellow);
    assert_eq!(rows[1].pieces[0].tone, Tone::Muted);
    let foot = user_footer(&p);
    assert_eq!(texts(&foot[0]), vec![" home: ", "/root"]);
    assert_eq!(texts(&foot[1]), vec![" groups: ", "—"]);
}

#[test]
fn help_lists_the_panels_keys() {
    let lines = help_lines(Tab::Services);
    assert_eq!(lines.len(), 1 + 8 + 3);
    assert_eq!(lines[0][0].text, "SERVICES");
    assert_eq!(lines[0][0].tone, Tone::Purple);
    assert_eq!(texts(&lines[2]), vec!["1      ", "start"]);
    assert_eq!(texts(&lines[11]), vec!["Q      ", "quit"]);
    assert_eq!(help_lines(Tab::Files).len(), 1 + 15 + 3);
}

#[test]
fn notification_bar_shows_the_notice_or_the_motto() {
    assert_eq!(notice_line(&None).text, " Ng'anjo OS v2.0 — More power than any GUI.");
    let n = Some(Notification { text: "x".to_string(), kind: NotifKind::Failure, ticks: 3 });
    assert_eq!(notice_line(&n).tone, Tone::Red);
}

#[test]
fn sidebar_and_header_blocks() {
    let mut d = SystemData::new();
    d.cpu_pct = 255;
    d.uptime_secs = 7200;
    d.ifaces = vec![NetIface { name: "eth0".to_string(), ip: "1.2.3.4".to_string(), up: false, bytes_sent: 0, bytes_recv: 0 }];
    let sys = system_lines(Some(&d));
    assert_eq!(sys.len(), 5);
    assert_eq!(texts(&sys[1]), vec!["  CPU  ", "███", "░░░░░░░", "  26%"]);
    assert_eq!(texts(&sys[4]), vec!["  UP   ", "2h 0m"]);
    assert_eq!(system_lines(None).len(), 1);
    let net = network_lines(Some(&d));
    assert_eq!(texts(&net[1]), vec!["  ", "●", format!(" {:<10}", "eth0").as_str(), format!("{:<16}", "1.2.3.4").as_str()]);
    assert_eq!(net[1][1].tone, Tone::Red);
    d.ifaces = vec![];
    assert_eq!(texts(&network_lines(Some(&d))[1]), vec!["  No interfaces"]);
    assert_eq!(texts(&header_stats(Some(&d))[2]), vec!["DSK ", "", "░░░░░░░░░░", "   0%"]);
    let brand = brand_lines("12:00:00", "Mon 01 Jan 2024");
    assert_eq!(texts(&brand[1]), vec![" 12:00:00", "  Mon 01 Jan 2024"]);
    assert_eq!(texts(&colored_bar(1000, 2)), vec!["██", ""]);
}

#[test]
fn dialogs_are_centred_and_sized_by_kind() {
    let q = Modal::confirm("Sure?".to_string(), nganjo::modal::ConfirmAction::DeleteFiles);
    assert_eq!(dialog_rect(&q, 80, 24), (9, 9, 62, 6));
    assert_eq!(dialog_title(&q).text, "  CONFIRM ");
    assert_eq!(dialog_title(&q).tone, Tone::Yellow);
    assert_eq!(texts(&dialog_body(&q)[2]), vec!["ENTER = Yes    ESC = No"]);
    let i = Modal::input("Name:".to_string(), "ab".to_string(), InputAction::Rename);
    assert_eq!(dialog_rect(&i, 30, 10), (2, 1, 26, 7));
    assert_eq!(texts(&dialog_body(&i)[0]), vec!["ab_"]);
    let m = Modal::message("T".to_string(), "a\nb\nc".to_string());
    assert_eq!(dialog_rect(&m, 80, 24), (9, 8, 62, 8));
    assert_eq!(dialog_rect(&m, 80, 10), (9, 2, 62, 6));
    let body = dialog_body(&m);
    assert_eq!(body.len(), 4);
    assert_eq!(texts(&body[3]), vec!["Any key to close"]);
}
