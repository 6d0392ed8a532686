use nganjo::effect::{ArchiveKind, Effect, PreviewSource};
use nganjo::panels::files::{archive_kind_of, order_by_keys, preview_body, with_parent, start_dir, start_dir_from, ClipOp, FileEntry, FilePanel};

fn file(path: &str, size: u64) -> FileEntry {
    FileEntry { path: path.to_string(), is_dir: false, size, mode: 0o100644 }
}

fn dir(path: &str) -> FileEntry {
    FileEntry { path: path.to_string(), is_dir: true, size: 4096, mode: 0o40755 }
}

fn home_panel() -> FilePanel {
    FilePanel::new(
        "/home/u".to_string(),
        vec![file("/home/u/b.txt", 10), dir("/home/u/Docs"), file("/home/u/A.txt", 20), dir("/home/u/apps")],
    )
}

fn paths(p: &FilePanel) -> Vec<String> {
    p.entries.iter().map(|e| e.path.clone()).collect()
}

#[test]
fn listing_puts_parent_then_directories_then_files_by_lowercase_name() {
    let p = home_panel();
    assert_eq!(
        paths(&p),
        vec!["/home", "/home/u/apps", "/home/u/Docs", "/home/u/A.txt", "/home/u/b.txt"]
    );
    let parent = &p.entries[0];
    assert!(parent.is_dir);
    assert_eq!(parent.size, 0);
    assert_eq!(parent.mode, 0o755);
    assert_eq!(p.idx, 0);
    assert!(p.selected.is_empty());
    assert!(p.clipboard.is_none());
    assert_eq!(p.path, "/home/u");
}

#[test]
fn root_listing_has_no_parent_entry() {
    let p = FilePanel::new("/".to_string(), vec![file("/z", 1), dir("/etc")]);
    assert_eq!(paths(&p), vec!["/etc", "/z"]);
}

#[test]
fn equal_names_keep_the_order_read() {
    let p = FilePanel::new("/".to_string(), vec![file("/X", 1), file("/x", 2)]);
    assert_eq!(p.entries[0].size, 1);
    assert_eq!(p.entries[1].size, 2);
}

#[test]
fn entry_name_and_permissions() {
    let e = file("/x/y.rs", 3);
    assert_eq!(e.name(), "y.rs");
    assert_eq!(e.perms_str(), "rw-r--r--");
    assert_eq!(dir("/x/bin").perms_str(), "rwxr-xr-x");
    assert_eq!(FileEntry { path: "/".to_string(), is_dir: true, size: 0, mode: 0o700 }.name(), "?");
    assert_eq!(FileEntry { path: "/".to_string(), is_dir: true, size: 0, mode: 0o000 }.perms_str(), "---------");
}

#[test]
fn cursor_stops_at_both_ends() {
    let mut p = home_panel();
    p.move_up();
    assert_eq!(p.idx, 0);
    for _ in 0..10 {
        p.move_down();
    }
    assert_eq!(p.idx, 4);
    assert_eq!(p.current().unwrap().path, "/home/u/b.txt");
    p.move_up();
    assert_eq!(p.idx, 3);
}

#[test]
fn empty_listing_keeps_cursor_at_zero() {
    let mut p = FilePanel::new("/".to_string(), vec![]);
    p.move_down();
    p.move_up();
    assert_eq!(p.idx, 0);
    assert!(p.current().is_none());
    assert!(p.targets().is_empty());
    assert!(matches!(p.enter(), Effect::Nothing));
}

#[test]
fn space_selects_and_moves_down() {
    let mut p = home_panel();
    p.move_down();
    p.toggle_select();
    assert!(p.selected.contains(&1));
    assert_eq!(p.idx, 2);
    p.move_up();
    p.toggle_select();
    assert!(!p.selected.contains(&1));
}

#[test]
fn targets_are_the_selection_in_order_or_the_entry_under_the_cursor() {
    let mut p = home_panel();
    assert_eq!(p.targets(), vec!["/home"]);
    p.move_down();
    p.move_down();
    p.move_down();
    assert_eq!(p.targets(), vec!["/home/u/A.txt"]);
    p.toggle_select();
    p.move_up();
    p.move_up();
    p.toggle_select();
    assert_eq!(p.targets(), vec!["/home/u/Docs", "/home/u/A.txt"]);
}

#[test]
fn the_root_itself_is_never_a_target() {
    let p = FilePanel::new("/".to_string(), vec![dir("/")]);
    assert!(p.targets().is_empty());
}

#[test]
fn copy_and_cut_fill_the_clipboard_and_paste_carries_it() {
    let mut p = home_panel();
    p.move_down();
    p.copy_files();
    let c = p.clipboard.as_ref().unwrap();
    assert_eq!(c.op, ClipOp::Copy);
    assert_eq!(c.paths, vec!["/home/u/apps"]);
    match p.paste_files() {
        Ok(Effect::Paste { paths, cut, dest }) => {
            assert_eq!(paths, vec!["/home/u/apps"]);
            assert!(!cut);
            assert_eq!(dest, "/home/u");
        }
        _ => panic!("expected a paste"),
    }
    p.move_down();
    p.cut_files();
    match p.paste_files() {
        Ok(Effect::Paste { paths, cut, .. }) => {
            assert_eq!(paths, vec!["/home/u/Docs"]);
            assert!(cut);
        }
        _ => panic!("expected a paste"),
    }
}

#[test]
fn paste_with_empty_clipboard_is_an_error() {
    let p = home_panel();
    match p.paste_files() {
        Err(e) => assert_eq!(e, "Clipboard empty"),
        Ok(_) => panic!("expected an error"),
    }
}

#[test]
fn chmod_reads_octal_or_does_nothing() {
    let mut p = home_panel();
    p.move_down();
    match p.chmod_file("755") {
        Effect::Chmod { paths, mode } => {
            assert_eq!(mode, 0o755);
            assert_eq!(paths, vec!["/home/u/apps"]);
        }
        _ => panic!("expected chmod"),
    }
    assert!(matches!(p.chmod_file("9x"), Effect::Nothing));
    assert!(matches!(p.chmod_file(""), Effect::Nothing));
    assert!(matches!(p.chmod_file("+7"), Effect::Chmod { mode: 7, .. }));
}

#[test]
fn compress_picks_zip_by_name() {
    let mut p = home_panel();
    p.move_down();
    match p.compress("out.zip".to_string()) {
        Effect::Compress { paths, dir, name, zip } => {
            assert_eq!(paths, vec!["/home/u/apps"]);
            assert_eq!(dir, "/home/u");
            assert_eq!(name, "out.zip");
            assert!(zip);
        }
        _ => panic!("expected compress"),
    }
    assert!(matches!(p.compress("b.tar.gz".to_string()), Effect::Compress { zip: false, .. }));
    let empty = FilePanel::new("/".to_string(), vec![]);
    assert!(matches!(empty.compress("x.zip".to_string()), Effect::Nothing));
}

#[test]
fn extract_recognises_archives_case_blind() {
    let p = FilePanel::new("/d".to_string(), vec![file("/d/A.TAR.GZ", 1), file("/d/b.Zip", 1), file("/d/c.txt", 1)]);
    let mut p = p;
    p.move_down();
    match p.extract() {
        Effect::Extract { archive: Some((path, kind)), dir } => {
            assert_eq!(path, "/d/A.TAR.GZ");
            assert_eq!(kind, ArchiveKind::TarGz);
            assert_eq!(dir, "/d");
        }
        _ => panic!("expected an archive"),
    }
    p.move_down();
    assert!(matches!(p.extract(), Effect::Extract { archive: Some((_, ArchiveKind::Zip)), .. }));
    p.move_down();
    assert!(matches!(p.extract(), Effect::Extract { archive: None, .. }));
}

#[test]
fn going_back_lists_the_parent() {
    let p = home_panel();
    assert_eq!(p.go_back(), Some("/home".to_string()));
    let root = FilePanel::new("/".to_string(), vec![]);
    assert_eq!(root.go_back(), None);
}

#[test]
fn enter_lists_a_directory_or_opens_a_file() {
    let mut p = home_panel();
    p.move_down();
    assert!(matches!(p.enter(), Effect::ListDir { dir } if dir == "/home/u/apps"));
    p.move_down();
    p.move_down();
    assert!(matches!(p.enter(), Effect::OpenFile { path } if path == "/home/u/A.txt"));
}

#[test]
fn rename_new_folder_delete_and_open_with_carry_the_targets() {
    let mut p = home_panel();
    p.move_down();
    assert!(matches!(p.rename_file("z".to_string()),
        Effect::Rename { from: Some(f), dir, to } if f == "/home/u/apps" && dir == "/home/u" && to == "z"));
    assert!(matches!(p.new_folder("n".to_string()), Effect::NewFolder { dir, name } if dir == "/home/u" && name == "n"));
    assert!(matches!(p.delete_files(), Effect::DeleteFiles { paths, dir } if paths == vec!["/home/u/apps"] && dir == "/home/u"));
    assert!(matches!(p.open_with("vim".to_string()),
        Effect::OpenWith { program, path } if program == "vim" && path == "/home/u/apps"));
    assert!(matches!(p.preview(), Effect::Preview { path } if path == "/home/u/apps"));
    let empty = FilePanel::new("/".to_string(), vec![]);
    assert!(matches!(empty.rename_file("z".to_string()), Effect::Rename { from: None, .. }));
    assert!(matches!(empty.open_with("vim".to_string()), Effect::Nothing));
    assert!(matches!(empty.preview(), Effect::Nothing));
}

#[test]
fn preview_of_a_directory_shows_twenty_entries() {
    let entries: Vec<String> = (0..25).map(|i| format!("e{i}")).collect();
    let text = preview_body("/home/u/stuff", &PreviewSource::Directory { entries });
    let expected_items: Vec<String> = (0..20).map(|i| format!("  e{i}")).collect();
    assert_eq!(text, format!("stuff/\n{}", expected_items.join("\n")));
    let empty = preview_body("/home/u/none", &PreviewSource::Directory { entries: vec![] });
    assert_eq!(empty, "none/\n");
}

#[test]
fn preview_of_text_shows_its_first_1200_bytes() {
    let text = preview_body("/a/notes.txt", &PreviewSource::Text { content: "hello\nworld".to_string() });
    assert_eq!(text, format!("notes.txt\n{}\nhello\nworld", "─".repeat(40)));
    let long = "x".repeat(1500);
    let cut = preview_body("/a/long.txt", &PreviewSource::Text { content: long });
    assert_eq!(cut, format!("long.txt\n{}\n{}", "─".repeat(40), "x".repeat(1200)));
    let wide = "é".repeat(700);
    let cut2 = preview_body("/a/w.txt", &PreviewSource::Text { content: wide });
    assert_eq!(cut2, format!("w.txt\n{}\n{}", "─".repeat(40), "é".repeat(600)));
}

#[test]
fn preview_of_a_binary_file_shows_its_size() {
    assert_eq!(preview_body("/a/b.bin", &PreviewSource::Binary { size: 2048 }), "[Binary file]\n2048 bytes");
}

#[test]
fn start_directory_is_home_or_root() {
    assert_eq!(start_dir_from(None), "/");
    assert_eq!(start_dir_from(Some("/home/z".to_string())), "/home/z");
    assert!(!start_dir().is_empty());
}

#[test]
fn archive_kinds_by_lowered_name() {
    assert_eq!(archive_kind_of("a.tar.gz"), Some(ArchiveKind::TarGz));
    assert_eq!(archive_kind_of("a.tgz"), Some(ArchiveKind::TarGz));
    assert_eq!(archive_kind_of("a.zip"), Some(ArchiveKind::Zip));
    assert_eq!(archive_kind_of("a.ZIP"), None);
    assert_eq!(archive_kind_of("zip"), None);
    assert_eq!(archive_kind_of(".gz"), None);
}

#[test]
fn entries_are_ordered_by_the_keys_given() {
    let items = vec![file("/a", 1), dir("/b"), file("/c", 3), dir("/d")];
    let keys = vec!["z".to_string(), "y".to_string(), "a".to_string(), "y".to_string()];
    let sorted = order_by_keys(items, keys);
    let got: Vec<&str> = sorted.iter().map(|e| e.path.as_str()).collect();
    assert_eq!(got, vec!["/b", "/d", "/c", "/a"]);
}

#[test]
fn a_listing_starts_with_the_parent_when_there_is_one() {
    let l = with_parent(Some("/up".to_string()), vec![file("/up/x/a", 1)]);
    assert_eq!(l.len(), 2);
    assert_eq!(l[0].path, "/up");
    assert!(l[0].is_dir);
    assert_eq!(l[0].mode, 0o755);
    assert_eq!(l[1].path, "/up/x/a");
    assert_eq!(with_parent(None, vec![file("/a", 1)]).len(), 1);
}
