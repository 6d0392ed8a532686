//! What the screen shows, as data: pieces of text with a tone of the
//! palette, grouped in lines and list rows. The program around the library
//! lays them out and paints them.

use vstd::prelude::*;
use vstd::string::StringExecFns;
use crate::data::{bar_cells, filled_cells, repeated, uptime_text, NetIface, SystemData};
use crate::notify::{NotifKind, Notification};
use crate::modal::{Modal, ModalKind};
use crate::outside::{byte_size, byte_size_text};
use crate::text::chars_of;
use crate::panels::disk::DiskPanel;
use crate::panels::users::UserPanel;
use crate::tab::{lemma_tab_at_index, tab_at, tab_index, tab_label, Tab};
use crate::panels::files::{entry_name, perms, ClipOp, FilePanel};
use crate::panels::packages::{manager_name, PackagePanel};
use crate::panels::procs::{sort_name, ProcPanel};
use crate::panels::services::ServicePanel;
use crate::text::{
    byte_prefix, cuts_at_boundary, decimal, decimal_chars, digit_char, extend, first_n, lines, lines_of,
    pad_left, pad_right, padded_left, padded_right, prefix_bytes, same_chars, to_string, views,
};

verus! {

broadcast use {vstd::laws_eq::group_laws_eq, vstd::std_specs::btree::group_btree_axioms};

/// A colour of the console's palette; `Plain` is the terminal's own.
#[derive(Clone, Copy, PartialEq, Eq, Debug, Structural)]
pub enum Tone {
    Plain,
    /// The darkest background (tab and notification bars).
    Bg2,
    /// The raised background (the row under the cursor, empty bar cells).
    Bg3,
    Dim,
    Muted,
    Text,
    Blue,
    Red,
    Green,
    Yellow,
    Purple,
    Orange,
    Sky,
}

/// A piece of text: its tone, whether it is bold, and its background when
/// it has one of its own.
pub struct Piece {
    pub text: String,
    pub tone: Tone,
    pub bold: bool,
    pub back: Option<Tone>,
}

/// A row of a list: its pieces, and whether the cursor is on it (drawn on
/// the raised background).
pub struct Row {
    pub pieces: Vec<Piece>,
    pub current: bool,
}

/// A piece as plain values.
pub open spec fn piece_view(p: Piece) -> (Seq<char>, Tone, bool, Option<Tone>) {
    (p.text@, p.tone, p.bold, p.back)
}

/// A line of pieces as plain values.
pub open spec fn line_view(v: Seq<Piece>) -> Seq<(Seq<char>, Tone, bool, Option<Tone>)> {
    v.map_values(|p: Piece| piece_view(p))
}

/// Lines of pieces as plain values.
pub open spec fn lines_view(v: Seq<Vec<Piece>>) -> Seq<Seq<(Seq<char>, Tone, bool, Option<Tone>)>> {
    v.map_values(|l: Vec<Piece>| line_view(l@))
}

/// A row as plain values.
pub open spec fn row_view(r: Row) -> (Seq<(Seq<char>, Tone, bool, Option<Tone>)>, bool) {
    (line_view(r.pieces@), r.current)
}

/// Rows as plain values.
pub open spec fn rows_view(v: Seq<Row>) -> Seq<(Seq<(Seq<char>, Tone, bool, Option<Tone>)>, bool)> {
    v.map_values(|r: Row| row_view(r))
}

/// Text in a tone.
pub open spec fn plain(text: Seq<char>, tone: Tone) -> (Seq<char>, Tone, bool, Option<Tone>) {
    (text, tone, false, None)
}

/// Bold text in a tone.
pub open spec fn strong(text: Seq<char>, tone: Tone) -> (Seq<char>, Tone, bool, Option<Tone>) {
    (text, tone, true, None)
}

fn piece(text: &Vec<char>, tone: Tone) -> (p: Piece)
    ensures
        piece_view(p) == plain(text@, tone),
{
    Piece { text: to_string(text), tone, bold: false, back: None }
}

fn piece_of(text: &str, tone: Tone) -> (p: Piece)
    ensures
        piece_view(p) == plain(text@, tone),
{
    Piece { text: String::from_str(text), tone, bold: false, back: None }
}

fn bold_piece(text: &Vec<char>, tone: Tone) -> (p: Piece)
    ensures
        piece_view(p) == strong(text@, tone),
{
    Piece { text: to_string(text), tone, bold: true, back: None }
}

/// The colour of a panel.
pub open spec fn tab_tone(t: Tab) -> Tone {
    match t {
        Tab::Files => Tone::Blue,
        Tab::Procs => Tone::Red,
        Tab::Services => Tone::Purple,
        Tab::Packages => Tone::Green,
        Tab::Disks => Tone::Yellow,
        Tab::Users => Tone::Orange,
    }
}

/// The colour of a panel.
pub fn tab_color(t: Tab) -> (c: Tone)
    ensures
        c == tab_tone(t),
{
    match t {
        Tab::Files => Tone::Blue,
        Tab::Procs => Tone::Red,
        Tab::Services => Tone::Purple,
        Tab::Packages => Tone::Green,
        Tab::Disks => Tone::Yellow,
        Tab::Users => Tone::Orange,
    }
}

/// The colour of a use level (tenths of a percent): red above 80%, yellow
/// above 50%, else green.
pub open spec fn level_tone(pct: u32) -> Tone {
    if pct > 800 {
        Tone::Red
    } else if pct > 500 {
        Tone::Yellow
    } else {
        Tone::Green
    }
}

/// The colour of a use level (see `level_tone`).
pub fn bar_color(pct: u32) -> (c: Tone)
    ensures
        c == level_tone(pct),
{
    if pct > 800 {
        Tone::Red
    } else if pct > 500 {
        Tone::Yellow
    } else {
        Tone::Green
    }
}

/// A bar of `width` cells for a use level: the filled cells in the level's
/// colour, then the empty cells.
pub open spec fn meter(pct: u32, width: nat) -> Seq<(Seq<char>, Tone, bool, Option<Tone>)> {
    seq![
        plain(repeated('█', bar_cells(pct, width)), level_tone(pct)),
        plain(repeated('░', (width - bar_cells(pct, width)) as nat), Tone::Bg3),
    ]
}

fn run(c: char, n: usize) -> (r: Vec<char>)
    ensures
        r@ == repeated(c, n as nat),
{
    let mut r: Vec<char> = Vec::new();
    let mut i: usize = 0;
    while i < n
        invariant
            i <= n,
            r@ == repeated(c, i as nat),
        decreases n - i,
    {
        r.push(c);
        i = i + 1;
        proof {
            assert(r@ =~= repeated(c, i as nat));
        }
    }
    r
}

/// A bar of `width` cells for a use level (see `meter`).
pub fn colored_bar(pct: u32, width: usize) -> (r: Vec<Piece>)
    ensures
        line_view(r@) == meter(pct, width as nat),
{
    let filled = filled_cells(pct, width);
    let mut r: Vec<Piece> = Vec::new();
    r.push(piece(&run('█', filled), bar_color(pct)));
    r.push(piece(&run('░', width - filled), Tone::Bg3));
    proof {
        assert(line_view(r@) =~= meter(pct, width as nat));
    }
    r
}

/// A share in tenths of a percent with one decimal (`{:.1}`).
pub open spec fn one_decimal(t: u32) -> Seq<char> {
    decimal((t / 10) as nat) + "."@ + seq![digit_char((t % 10) as nat)]
}

/// A share in tenths of a percent as a whole percent, rounded half up
/// (as `{:.0}` rounds, except that it rounds an exact half to even).
pub open spec fn whole_percent(t: u32) -> Seq<char> {
    decimal(((t as nat + 5) / 10) as nat)
}

/// A share with one decimal (see `one_decimal`).
pub fn one_decimal_chars(t: u32) -> (r: Vec<char>)
    ensures
        r@ == one_decimal(t),
{
    let mut v = decimal_chars((t / 10) as u64);
    v.push('.');
    let d = ((t % 10) as u8 + 48) as char;
    v.push(d);
    proof {
        reveal_strlit(".");
        assert(v@ =~= one_decimal(t));
    }
    v
}

/// A share as a whole percent (see `whole_percent`).
pub fn whole_percent_chars(t: u32) -> (r: Vec<char>)
    ensures
        r@ == whole_percent(t),
{
    decimal_chars(((t as u64) + 5) / 10)
}

/// The percentage after a bar: a space, the whole percent right-aligned in
/// three places, and `%` (` {:3.0}%`).
pub open spec fn percent_label(t: u32) -> Seq<char> {
    " "@ + pad_left(whole_percent(t), 3) + "%"@
}

fn percent_piece(t: u32) -> (p: Piece)
    ensures
        piece_view(p) == plain(percent_label(t), Tone::Text),
{
    let mut v = chars_of(" ");
    extend(&mut v, &padded_left(&whole_percent_chars(t), 3));
    extend(&mut v, &chars_of("%"));
    piece(&v, Tone::Text)
}

/// The colour of a notification's tone.
pub open spec fn notice_tone(k: NotifKind) -> Tone {
    match k {
        NotifKind::Success => Tone::Green,
        NotifKind::Warn => Tone::Yellow,
        NotifKind::Failure => Tone::Red,
        NotifKind::Info => Tone::Muted,
    }
}

/// What the notification bar shows: the notification, or the motto.
pub open spec fn notice_view(n: Option<Notification>) -> (Seq<char>, Tone, bool, Option<Tone>) {
    match n {
        Some(x) => plain(x.text@, notice_tone(x.kind)),
        None => plain(" Ng'anjo OS v2.0 — More power than any GUI."@, Tone::Dim),
    }
}

/// What the notification bar shows (see `notice_view`).
pub fn notice_line(n: &Option<Notification>) -> (p: Piece)
    ensures
        piece_view(p) == notice_view(*n),
{
    match n {
        Some(x) => {
            let tone = match x.kind {
                NotifKind::Success => Tone::Green,
                NotifKind::Warn => Tone::Yellow,
                NotifKind::Failure => Tone::Red,
                NotifKind::Info => Tone::Muted,
            };
            Piece { text: x.text.clone(), tone, bold: false, back: None }
        },
        None => piece_of(" Ng'anjo OS v2.0 — More power than any GUI.", Tone::Dim),
    }
}

/// The tab bar: each panel's heading between two spaces on each side, the
/// active one bold on its colour, the others dim, each followed by a
/// space.
pub open spec fn tab_bar_view(active: Tab) -> Seq<(Seq<char>, Tone, bool, Option<Tone>)> {
    Seq::new(
        12,
        |i: int|
            if i % 2 == 1 {
                plain(" "@, Tone::Plain)
            } else {
                let t = tab_at(i / 2);
                let text = "  "@ + tab_label(t) + "  "@;
                if t == active {
                    (text, Tone::Bg2, true, Some(tab_tone(t)))
                } else {
                    plain(text, Tone::Dim)
                }
            },
    )
}

/// The tab bar (see `tab_bar_view`).
pub fn tab_bar(active: Tab) -> (r: Vec<Piece>)
    ensures
        line_view(r@) == tab_bar_view(active),
{
    let mut r: Vec<Piece> = Vec::new();
    let mut i: usize = 0;
    while i < 6
        invariant
            i <= 6,
            r.len() == 2 * i,
            forall|k: int| 0 <= k < 2 * i ==> #[trigger] piece_view(r@[k]) == tab_bar_view(active)[k],
        decreases 6 - i,
    {
        let t = Tab::at(i);
        let mut text = chars_of("  ");
        extend(&mut text, &chars_of(t.label()));
        extend(&mut text, &chars_of("  "));
        if t == active {
            r.push(Piece { text: to_string(&text), tone: Tone::Bg2, bold: true, back: Some(tab_color(t)) });
        } else {
            r.push(piece(&text, Tone::Dim));
        }
        r.push(piece_of(" ", Tone::Plain));
        proof {
            assert((2 * i) as int % 2 == 0);
            assert(((2 * i) as int) / 2 == i);
            assert((2 * i + 1) as int % 2 == 1);
        }
        i = i + 1;
    }
    proof {
        assert(line_view(r@) =~= tab_bar_view(active));
    }
    r
}

// ───────────────────────────── scrolling lists ────────────────────────

/// The first row shown of a list drawn in `h` lines with the cursor on
/// row `idx`: the list scrolls just enough to keep the cursor in view.
pub open spec fn scroll_start(idx: nat, h: nat) -> nat {
    if h > 0 && idx >= h {
        (idx - h + 1) as nat
    } else {
        0
    }
}

/// How many rows of a list of `len` rows are shown in `h` lines with the
/// cursor on row `idx`.
pub open spec fn shown_count(len: nat, idx: nat, h: nat) -> nat {
    let s = scroll_start(idx, h);
    if s >= len {
        0
    } else if len - s < h {
        (len - s) as nat
    } else {
        h
    }
}

/// The first row shown and the number of rows shown (see `scroll_start`
/// and `shown_count`).
pub fn scroll_window(idx: usize, h: usize, len: usize) -> (r: (usize, usize))
    ensures
        r.0 == scroll_start(idx as nat, h as nat),
        r.1 == shown_count(len as nat, idx as nat, h as nat),
{
    let s = if h > 0 && idx >= h { idx - (h - 1) } else { 0 };
    let n = if s >= len {
        0
    } else if len - s < h {
        len - s
    } else {
        h
    };
    (s, n)
}

/// The row under the cursor is among the rows shown, whenever the list
/// has a row there and at least one line to draw it in.
pub proof fn law_cursor_shown(len: nat, idx: nat, h: nat)
    requires
        idx < len,
        h > 0,
    ensures
        scroll_start(idx, h) <= idx < scroll_start(idx, h) + shown_count(len, idx, h),
        shown_count(len, idx, h) <= h,
        scroll_start(idx, h) + shown_count(len, idx, h) <= len,
{
}

// ───────────────────────────── files ──────────────────────────────────

/// A row of the file list: a check mark when selected, the name padded to
/// 34 characters (`..` for an entry that is the directory itself), in blue
/// and bold under the cursor, else yellow when selected, sky for a
/// directory, muted for a file.
pub open spec fn file_row(p: FilePanel, i: int) -> (Seq<(Seq<char>, Tone, bool, Option<Tone>)>, bool) {
    let e = p.entries@[i];
    let sel = p.selected@.contains(i as usize);
    let cur = i == p.idx;
    let name = if e.path@ == p.path@ {
        ".."@
    } else {
        entry_name(e.path@)
    };
    let check = if sel {
        "✓ "@
    } else {
        "  "@
    };
    let tone = if cur {
        Tone::Blue
    } else if sel {
        Tone::Yellow
    } else if e.is_dir {
        Tone::Sky
    } else {
        Tone::Muted
    };
    (seq![(" "@ + check + " "@ + pad_right(name, 34), tone, cur, None)], cur)
}

/// The rows of the file list shown in `h` lines.
pub open spec fn file_rows_view(p: FilePanel, h: nat) -> Seq<(Seq<(Seq<char>, Tone, bool, Option<Tone>)>, bool)> {
    Seq::new(
        shown_count(p.entries@.len(), p.idx as nat, h),
        |j: int| file_row(p, scroll_start(p.idx as nat, h) + j),
    )
}

/// The rows of the file list shown in `h` lines (see `file_row`).
pub fn file_rows(p: &FilePanel, h: usize) -> (r: Vec<Row>)
    ensures
        rows_view(r@) == file_rows_view(*p, h as nat),
{
    let (start, n) = scroll_window(p.idx, h, p.entries.len());
    let mut r: Vec<Row> = Vec::new();
    let mut j: usize = 0;
    while j < n
        invariant
            start == scroll_start(p.idx as nat, h as nat),
            n == shown_count(p.entries@.len(), p.idx as nat, h as nat),
            n == 0 || start + n <= p.entries.len(),
            j <= n,
            r.len() == j,
            forall|k: int| 0 <= k < j ==> #[trigger] row_view(r@[k]) == file_row(*p, start + k),
        decreases n - j,
    {
        let i = start + j;
        let e = &p.entries[i];
        let sel = p.selected.contains(&i);
        let cur = i == p.idx;
        let name = if e.path == p.path {
            chars_of("..")
        } else {
            chars_of(e.name().as_str())
        };
        let mut text = chars_of(" ");
        extend(&mut text, &chars_of(if sel { "✓ " } else { "  " }));
        extend(&mut text, &chars_of(" "));
        extend(&mut text, &padded_right(&name, 34));
        let tone = if cur {
            Tone::Blue
        } else if sel {
            Tone::Yellow
        } else if e.is_dir {
            Tone::Sky
        } else {
            Tone::Muted
        };
        let mut pieces: Vec<Piece> = Vec::new();
        pieces.push(Piece { text: to_string(&text), tone, bold: cur, back: None });
        r.push(Row { pieces, current: cur });
        proof {
            assert(line_view(r@[j as int].pieces@) =~= file_row(*p, i as int).0);
        }
        j = j + 1;
    }
    proof {
        assert(rows_view(r@) =~= file_rows_view(*p, h as nat));
    }
    r
}

/// The line over the file list: the directory shown, its first 50 bytes.
pub open spec fn file_path_view(p: FilePanel) -> Seq<char> {
    " "@ + byte_prefix(p.path@, 50)
}

/// The line over the file list (see `file_path_view`).
pub fn file_path_line(p: &FilePanel) -> (r: Piece)
    requires
        cuts_at_boundary(p.path@, 50),
    ensures
        piece_view(r) == plain(file_path_view(*p), Tone::Dim),
{
    let mut v = chars_of(" ");
    extend(&mut v, &prefix_bytes(&chars_of(p.path.as_str()), 50));
    piece(&v, Tone::Dim)
}

/// The line under the file list: the permissions of the entry under the
/// cursor and `(dir)` or its size, then what the clipboard holds; nothing
/// when the cursor is on no entry.
pub open spec fn file_footer_view(p: FilePanel) -> Seq<(Seq<char>, Tone, bool, Option<Tone>)> {
    if p.idx < p.entries@.len() {
        let e = p.entries@[p.idx as int];
        let info = if e.is_dir {
            " "@ + perms(e.mode) + "  (dir)"@
        } else {
            " "@ + perms(e.mode) + "  "@ + decimal(e.size as nat) + " B"@
        };
        match p.clipboard {
            Some(c) => seq![
                plain(info, Tone::Dim),
                plain(
                    "  clip("@ + (if c.op == ClipOp::Copy {
                        "copy"@
                    } else {
                        "cut"@
                    }) + "): "@ + decimal(c.paths@.len()) + " item(s)"@,
                    Tone::Dim,
                ),
            ],
            None => seq![plain(info, Tone::Dim)],
        }
    } else {
        Seq::empty()
    }
}

/// The line under the file list (see `file_footer_view`).
pub fn file_footer(p: &FilePanel) -> (r: Vec<Piece>)
    ensures
        line_view(r@) == file_footer_view(*p),
{
    let mut r: Vec<Piece> = Vec::new();
    if p.idx < p.entries.len() {
        let e = &p.entries[p.idx];
        let mut info = chars_of(" ");
        extend(&mut info, &chars_of(e.perms_str().as_str()));
        if e.is_dir {
            extend(&mut info, &chars_of("  (dir)"));
        } else {
            extend(&mut info, &chars_of("  "));
            extend(&mut info, &decimal_chars(e.size));
            extend(&mut info, &chars_of(" B"));
        }
        r.push(piece(&info, Tone::Dim));
        match &p.clipboard {
            Some(c) => {
                let mut t = chars_of("  clip(");
                extend(&mut t, &chars_of(if c.op == ClipOp::Copy { "copy" } else { "cut" }));
                extend(&mut t, &chars_of("): "));
                extend(&mut t, &decimal_chars(c.paths.len() as u64));
                extend(&mut t, &chars_of(" item(s)"));
                r.push(piece(&t, Tone::Dim));
            },
            None => {},
        }
    }
    proof {
        assert(line_view(r@) =~= file_footer_view(*p));
    }
    r
}

// ───────────────────────────── processes ──────────────────────────────

/// The colour of a process's CPU or memory share: red above 50%, yellow
/// above 10%, else muted.
pub open spec fn load_tone(t: u32) -> Tone {
    if t > 500 {
        Tone::Red
    } else if t > 100 {
        Tone::Yellow
    } else {
        Tone::Muted
    }
}

fn load_color(t: u32) -> (c: Tone)
    ensures
        c == load_tone(t),
{
    if t > 500 {
        Tone::Red
    } else if t > 100 {
        Tone::Yellow
    } else {
        Tone::Muted
    }
}

/// The line over the process list: the columns and the order.
pub open spec fn proc_header_view(p: ProcPanel) -> Seq<char> {
    "   CPU     MEM    PID   NAME   (sort: "@ + sort_name(p.sort_by) + ")"@
}

/// The line over the process list (see `proc_header_view`).
pub fn proc_header(p: &ProcPanel) -> (r: Piece)
    ensures
        piece_view(r) == plain(proc_header_view(*p), Tone::Dim),
{
    let mut v = chars_of("   CPU     MEM    PID   NAME   (sort: ");
    extend(&mut v, &chars_of(p.sort_label()));
    extend(&mut v, &chars_of(")"));
    piece(&v, Tone::Dim)
}

/// A row of the process list: CPU and memory shares with one decimal, the
/// pid, and the first 18 bytes of the name.
pub open spec fn proc_row(p: ProcPanel, i: int) -> (Seq<(Seq<char>, Tone, bool, Option<Tone>)>, bool) {
    let q = p.procs@[i];
    (
        seq![
            plain(" "@ + pad_left(one_decimal(q.cpu), 6) + "%"@, load_tone(q.cpu)),
            plain(" "@ + pad_left(one_decimal(q.mem), 5) + "%"@, load_tone(q.mem)),
            plain(" "@ + pad_left(decimal(q.pid as nat), 6), Tone::Dim),
            plain(" "@ + pad_right(byte_prefix(q.name@, 18), 18), Tone::Text),
        ],
        i == p.idx,
    )
}

/// The rows of the process list shown in `h` lines.
pub open spec fn proc_rows_view(p: ProcPanel, h: nat) -> Seq<(Seq<(Seq<char>, Tone, bool, Option<Tone>)>, bool)> {
    Seq::new(
        shown_count(p.procs@.len(), p.idx as nat, h),
        |j: int| proc_row(p, scroll_start(p.idx as nat, h) + j),
    )
}

/// The names of the processes shown in `h` lines can be cut after 18
/// bytes.
pub open spec fn proc_names_cut(p: ProcPanel, h: nat) -> bool {
    forall|i: int|
        scroll_start(p.idx as nat, h) <= i < scroll_start(p.idx as nat, h) + shown_count(
            p.procs@.len(),
            p.idx as nat,
            h,
        ) ==> cuts_at_boundary(#[trigger] p.procs@[i].name@, 18)
}

/// The rows of the process list shown in `h` lines (see `proc_row`).
pub fn proc_rows(p: &ProcPanel, h: usize) -> (r: Vec<Row>)
    requires
        proc_names_cut(*p, h as nat),
    ensures
        rows_view(r@) == proc_rows_view(*p, h as nat),
{
    let (start, n) = scroll_window(p.idx, h, p.procs.len());
    let mut r: Vec<Row> = Vec::new();
    let mut j: usize = 0;
    while j < n
        invariant
            start == scroll_start(p.idx as nat, h as nat),
            n == shown_count(p.procs@.len(), p.idx as nat, h as nat),
            n == 0 || start + n <= p.procs.len(),
            proc_names_cut(*p, h as nat),
            j <= n,
            r.len() == j,
            forall|k: int| 0 <= k < j ==> #[trigger] row_view(r@[k]) == proc_row(*p, start + k),
        decreases n - j,
    {
        let i = start + j;
        let q = &p.procs[i];
        let mut pieces: Vec<Piece> = Vec::new();
        let mut a = chars_of(" ");
        extend(&mut a, &padded_left(&one_decimal_chars(q.cpu), 6));
        extend(&mut a, &chars_of("%"));
        pieces.push(piece(&a, load_color(q.cpu)));
        let mut b = chars_of(" ");
        extend(&mut b, &padded_left(&one_decimal_chars(q.mem), 5));
        extend(&mut b, &chars_of("%"));
        pieces.push(piece(&b, load_color(q.mem)));
        let mut c = chars_of(" ");
        extend(&mut c, &padded_left(&decimal_chars(q.pid as u64), 6));
        pieces.push(piece(&c, Tone::Dim));
        let mut d = chars_of(" ");
        proof {
            assert(cuts_at_boundary(p.procs@[i as int].name@, 18));
        }
        extend(&mut d, &padded_right(&prefix_bytes(&chars_of(q.name.as_str()), 18), 18));
        pieces.push(piece(&d, Tone::Text));
        r.push(Row { pieces, current: i == p.idx });
        proof {
            assert(line_view(r@[j as int].pieces@) =~= proc_row(*p, i as int).0);
        }
        j = j + 1;
    }
    proof {
        assert(rows_view(r@) =~= proc_rows_view(*p, h as nat));
    }
    r
}

// ───────────────────────────── services ───────────────────────────────

/// The mark and colour of a service's ACTIVE state: a green dot when
/// active, a red dot when failed, else a dim circle.
pub open spec fn state_mark(active: Seq<char>) -> (Seq<char>, Tone) {
    if active == "active"@ {
        ("●"@, Tone::Green)
    } else if active == "failed"@ {
        ("●"@, Tone::Red)
    } else {
        ("○"@, Tone::Dim)
    }
}

/// A row of the service list: the state mark, the SUB state padded to 11
/// characters in the mark's colour, and the name.
pub open spec fn service_row(p: ServicePanel, i: int) -> (Seq<(Seq<char>, Tone, bool, Option<Tone>)>, bool) {
    let sv = p.services@[i];
    let (mark, tone) = state_mark(sv.active@);
    (
        seq![
            plain(" "@, Tone::Plain),
            plain(mark, tone),
            plain(" "@ + pad_right(sv.sub@, 11), tone),
            plain(sv.name@, Tone::Text),
        ],
        i == p.idx,
    )
}

/// The rows of the service list shown in `h` lines.
pub open spec fn service_rows_view(p: ServicePanel, h: nat) -> Seq<(Seq<(Seq<char>, Tone, bool, Option<Tone>)>, bool)> {
    Seq::new(
        shown_count(p.services@.len(), p.idx as nat, h),
        |j: int| service_row(p, scroll_start(p.idx as nat, h) + j),
    )
}

/// The rows of the service list shown in `h` lines (see `service_row`).
pub fn service_rows(p: &ServicePanel, h: usize) -> (r: Vec<Row>)
    ensures
        rows_view(r@) == service_rows_view(*p, h as nat),
{
    let (start, n) = scroll_window(p.idx, h, p.services.len());
    let active = chars_of("active");
    let failed = chars_of("failed");
    let mut r: Vec<Row> = Vec::new();
    let mut j: usize = 0;
    while j < n
        invariant
            start == scroll_start(p.idx as nat, h as nat),
            n == shown_count(p.services@.len(), p.idx as nat, h as nat),
            n == 0 || start + n <= p.services.len(),
            active@ == "active"@,
            failed@ == "failed"@,
            j <= n,
            r.len() == j,
            forall|k: int| 0 <= k < j ==> #[trigger] row_view(r@[k]) == service_row(*p, start + k),
        decreases n - j,
    {
        let i = start + j;
        let sv = &p.services[i];
        let state = chars_of(sv.active.as_str());
        let (mark, tone) = if same_chars(&state, &active) {
            ("●", Tone::Green)
        } else if same_chars(&state, &failed) {
            ("●", Tone::Red)
        } else {
            ("○", Tone::Dim)
        };
        let mut pieces: Vec<Piece> = Vec::new();
        pieces.push(piece_of(" ", Tone::Plain));
        pieces.push(piece_of(mark, tone));
        let mut sub = chars_of(" ");
        extend(&mut sub, &padded_right(&chars_of(sv.sub.as_str()), 11));
        pieces.push(piece(&sub, tone));
        pieces.push(piece_of(sv.name.as_str(), Tone::Text));
        r.push(Row { pieces, current: i == p.idx });
        proof {
            assert(line_view(r@[j as int].pieces@) =~= service_row(*p, i as int).0);
        }
        j = j + 1;
    }
    proof {
        assert(rows_view(r@) =~= service_rows_view(*p, h as nat));
    }
    r
}

// ───────────────────────────── packages ───────────────────────────────

/// The line over the package list: the query and the number of results.
pub open spec fn package_header_view(p: PackagePanel) -> Seq<(Seq<char>, Tone, bool, Option<Tone>)> {
    seq![
        plain(" Query: "@, Tone::Dim),
        plain(p.query_label@, Tone::Text),
        plain("  ("@ + decimal(p.results@.len()) + ")"@, Tone::Dim),
    ]
}

/// The line over the package list (see `package_header_view`).
pub fn package_header(p: &PackagePanel) -> (r: Vec<Piece>)
    ensures
        line_view(r@) == package_header_view(*p),
{
    let mut r: Vec<Piece> = Vec::new();
    r.push(piece_of(" Query: ", Tone::Dim));
    r.push(piece_of(p.query_label.as_str(), Tone::Text));
    let mut n = chars_of("  (");
    extend(&mut n, &decimal_chars(p.results.len() as u64));
    extend(&mut n, &chars_of(")"));
    r.push(piece(&n, Tone::Dim));
    proof {
        assert(line_view(r@) =~= package_header_view(*p));
    }
    r
}

/// The rows of the package list shown in `h` lines: each result indented
/// by two spaces; with no results, how to get some.
pub open spec fn package_rows_view(p: PackagePanel, h: nat) -> Seq<(Seq<(Seq<char>, Tone, bool, Option<Tone>)>, bool)> {
    if p.results@.len() == 0 {
        seq![
            (seq![plain("  S = search"@, Tone::Dim)], false),
            (seq![plain("  L = list installed"@, Tone::Dim)], false),
        ]
    } else {
        Seq::new(
            shown_count(p.results@.len(), p.idx as nat, h),
            |j: int|
                {
                    let i = scroll_start(p.idx as nat, h) + j;
                    (seq![plain("  "@ + p.results@[i]@, Tone::Text)], i == p.idx)
                },
        )
    }
}

/// The rows of the package list shown in `h` lines (see
/// `package_rows_view`).
pub fn package_rows(p: &PackagePanel, h: usize) -> (r: Vec<Row>)
    ensures
        rows_view(r@) == package_rows_view(*p, h as nat),
{
    let mut r: Vec<Row> = Vec::new();
    if p.results.len() == 0 {
        let mut a: Vec<Piece> = Vec::new();
        a.push(piece_of("  S = search", Tone::Dim));
        let mut b: Vec<Piece> = Vec::new();
        b.push(piece_of("  L = list installed", Tone::Dim));
        r.push(Row { pieces: a, current: false });
        r.push(Row { pieces: b, current: false });
        proof {
            assert(line_view(r@[0].pieces@) =~= seq![plain("  S = search"@, Tone::Dim)]);
            assert(line_view(r@[1].pieces@) =~= seq![plain("  L = list installed"@, Tone::Dim)]);
            assert(rows_view(r@) =~= package_rows_view(*p, h as nat));
        }
        return r;
    }
    let (start, n) = scroll_window(p.idx, h, p.results.len());
    let mut j: usize = 0;
    while j < n
        invariant
            p.results@.len() > 0,
            start == scroll_start(p.idx as nat, h as nat),
            n == shown_count(p.results@.len(), p.idx as nat, h as nat),
            n == 0 || start + n <= p.results.len(),
            j <= n,
            r.len() == j,
            forall|k: int|
                0 <= k < j ==> #[trigger] row_view(r@[k]) == package_rows_view(*p, h as nat)[k],
        decreases n - j,
    {
        let i = start + j;
        let mut pieces: Vec<Piece> = Vec::new();
        let mut t = chars_of("  ");
        extend(&mut t, &chars_of(p.results[i].as_str()));
        pieces.push(piece(&t, Tone::Text));
        r.push(Row { pieces, current: i == p.idx });
        proof {
            assert(line_view(r@[j as int].pieces@) =~= package_rows_view(*p, h as nat)[j as int].0);
        }
        j = j + 1;
    }
    proof {
        assert(rows_view(r@) =~= package_rows_view(*p, h as nat));
    }
    r
}

// ───────────────────────────── disks ──────────────────────────────────

/// A row of the disk list: device, mount point, an eight-cell bar and the
/// percentage.
pub open spec fn disk_row(p: DiskPanel, i: int) -> (Seq<(Seq<char>, Tone, bool, Option<Tone>)>, bool) {
    let d = p.disks@[i];
    let c = bar_cells(d.pct, 8);
    (
        seq![
            plain(" "@ + pad_right(d.device@, 14), Tone::Sky),
            plain(pad_right(d.mount@, 16), Tone::Dim),
            plain(repeated('█', c), level_tone(d.pct)),
            plain(repeated('░', (8 - c) as nat), Tone::Bg3),
            plain(percent_label(d.pct), Tone::Text),
        ],
        i == p.idx,
    )
}

/// The rows of the disk list: every file system.
pub open spec fn disk_rows_view(p: DiskPanel) -> Seq<(Seq<(Seq<char>, Tone, bool, Option<Tone>)>, bool)> {
    Seq::new(p.disks@.len(), |i: int| disk_row(p, i))
}

/// The rows of the disk list (see `disk_row`).
pub fn disk_rows(p: &DiskPanel) -> (r: Vec<Row>)
    ensures
        rows_view(r@) == disk_rows_view(*p),
{
    let mut r: Vec<Row> = Vec::new();
    let mut i: usize = 0;
    while i < p.disks.len()
        invariant
            i <= p.disks.len(),
            r.len() == i,
            forall|k: int| 0 <= k < i ==> #[trigger] row_view(r@[k]) == disk_row(*p, k),
        decreases p.disks.len() - i,
    {
        let d = &p.disks[i];
        let filled = filled_cells(d.pct, 8);
        let mut pieces: Vec<Piece> = Vec::new();
        let mut dev = chars_of(" ");
        extend(&mut dev, &padded_right(&chars_of(d.device.as_str()), 14));
        pieces.push(piece(&dev, Tone::Sky));
        pieces.push(piece(&padded_right(&chars_of(d.mount.as_str()), 16), Tone::Dim));
        pieces.push(piece(&run('█', filled), bar_color(d.pct)));
        pieces.push(piece(&run('░', 8 - filled), Tone::Bg3));
        pieces.push(percent_piece(d.pct));
        r.push(Row { pieces, current: i == p.idx });
        proof {
            assert(line_view(r@[i as int].pieces@) =~= disk_row(*p, i as int).0);
        }
        i = i + 1;
    }
    proof {
        assert(rows_view(r@) =~= disk_rows_view(*p));
    }
    r
}

/// The line under the disk list: use and size of the file system under
/// the cursor in human-readable units, and its type; nothing when the
/// cursor is on none.
pub open spec fn disk_footer_view(p: DiskPanel) -> Seq<(Seq<char>, Tone, bool, Option<Tone>)> {
    if p.idx < p.disks@.len() {
        let d = p.disks@[p.idx as int];
        seq![
            plain(
                " "@ + byte_size_text(d.used) + " / "@ + byte_size_text(d.total) + "  ["@ + d.fstype@
                    + "]"@,
                Tone::Dim,
            ),
        ]
    } else {
        Seq::empty()
    }
}

/// The line under the disk list (see `disk_footer_view`).
pub fn disk_footer(p: &DiskPanel) -> (r: Vec<Piece>)
    ensures
        line_view(r@) == disk_footer_view(*p),
{
    let mut r: Vec<Piece> = Vec::new();
    if p.idx < p.disks.len() {
        let d = &p.disks[p.idx];
        let mut t = chars_of(" ");
        extend(&mut t, &chars_of(byte_size(d.used).as_str()));
        extend(&mut t, &chars_of(" / "));
        extend(&mut t, &chars_of(byte_size(d.total).as_str()));
        extend(&mut t, &chars_of("  ["));
        extend(&mut t, &chars_of(d.fstype.as_str()));
        extend(&mut t, &chars_of("]"));
        r.push(piece(&t, Tone::Dim));
    }
    proof {
        assert(line_view(r@) =~= disk_footer_view(*p));
    }
    r
}

// ───────────────────────────── users ──────────────────────────────────

/// A row of the account list: the uid padded to 7 (yellow for root), the
/// name padded to 16, and the shell.
pub open spec fn user_row(p: UserPanel, i: int) -> (Seq<(Seq<char>, Tone, bool, Option<Tone>)>, bool) {
    let u = p.users@[i];
    (
        seq![
            plain(
                " "@ + pad_right(decimal(u.uid as nat), 7),
                if u.uid == 0 {
                    Tone::Yellow
                } else {
                    Tone::Muted
                },
            ),
            plain(pad_right(u.name@, 16), Tone::Text),
            plain(u.shell@, Tone::Dim),
        ],
        i == p.idx,
    )
}

/// The rows of the account list: every account.
pub open spec fn user_rows_view(p: UserPanel) -> Seq<(Seq<(Seq<char>, Tone, bool, Option<Tone>)>, bool)> {
    Seq::new(p.users@.len(), |i: int| user_row(p, i))
}

/// The rows of the account list (see `user_row`).
pub fn user_rows(p: &UserPanel) -> (r: Vec<Row>)
    ensures
        rows_view(r@) == user_rows_view(*p),
{
    let mut r: Vec<Row> = Vec::new();
    let mut i: usize = 0;
    while i < p.users.len()
        invariant
            i <= p.users.len(),
            r.len() == i,
            forall|k: int| 0 <= k < i ==> #[trigger] row_view(r@[k]) == user_row(*p, k),
        decreases p.users.len() - i,
    {
        let u = &p.users[i];
        let mut pieces: Vec<Piece> = Vec::new();
        let mut uid = chars_of(" ");
        extend(&mut uid, &padded_right(&decimal_chars(u.uid as u64), 7));
        pieces.push(piece(&uid, if u.uid == 0 { Tone::Yellow } else { Tone::Muted }));
        pieces.push(piece(&padded_right(&chars_of(u.name.as_str()), 16), Tone::Text));
        pieces.push(piece_of(u.shell.as_str(), Tone::Dim));
        r.push(Row { pieces, current: i == p.idx });
        proof {
            assert(line_view(r@[i as int].pieces@) =~= user_row(*p, i as int).0);
        }
        i = i + 1;
    }
    proof {
        assert(rows_view(r@) =~= user_rows_view(*p));
    }
    r
}

/// The lines under the account list: home and groups (`—` when none) of
/// the account under the cursor; nothing when the cursor is on none.
pub open spec fn user_footer_view(p: UserPanel) -> Seq<Seq<(Seq<char>, Tone, bool, Option<Tone>)>> {
    if p.idx < p.users@.len() {
        let u = p.users@[p.idx as int];
        seq![
            seq![plain(" home: "@, Tone::Dim), plain(u.home@, Tone::Sky)],
            seq![
                plain(" groups: "@, Tone::Dim),
                plain(
                    if u.groups@.len() == 0 {
                        "—"@
                    } else {
                        u.groups@
                    },
                    Tone::Muted,
                ),
            ],
        ]
    } else {
        Seq::empty()
    }
}

/// The lines under the account list (see `user_footer_view`).
pub fn user_footer(p: &UserPanel) -> (r: Vec<Vec<Piece>>)
    ensures
        lines_view(r@) == user_footer_view(*p),
{
    let mut r: Vec<Vec<Piece>> = Vec::new();
    if p.idx < p.users.len() {
        let u = &p.users[p.idx];
        let mut a: Vec<Piece> = Vec::new();
        a.push(piece_of(" home: ", Tone::Dim));
        a.push(piece_of(u.home.as_str(), Tone::Sky));
        let mut b: Vec<Piece> = Vec::new();
        b.push(piece_of(" groups: ", Tone::Dim));
        if u.groups.as_str().unicode_len() == 0 {
            b.push(piece_of("—", Tone::Muted));
        } else {
            b.push(piece_of(u.groups.as_str(), Tone::Muted));
        }
        r.push(a);
        r.push(b);
        proof {
            assert(line_view(r@[0]@) =~= user_footer_view(*p)[0]);
            assert(line_view(r@[1]@) =~= user_footer_view(*p)[1]);
        }
    }
    proof {
        assert(lines_view(r@) =~= user_footer_view(*p));
    }
    r
}

// ───────────────────────────── titles and help ────────────────────────

/// The title of the active panel; the package panel names its package
/// manager (`none` without one).
pub open spec fn title_view(t: Tab, pm: Seq<char>) -> Seq<(Seq<char>, Tone, bool, Option<Tone>)> {
    match t {
        Tab::Files => seq![strong(" FILES"@, Tone::Muted), plain(" [FOCUS]"@, Tone::Blue)],
        Tab::Procs => seq![strong(" PROCESSES"@, Tone::Muted), plain(" [FOCUS]"@, Tone::Red)],
        Tab::Services => seq![strong(" SERVICES [FOCUS]"@, Tone::Purple)],
        Tab::Packages => seq![strong(" PACKAGES"@, Tone::Green), plain(" ("@ + pm + ")"@, Tone::Dim)],
        Tab::Disks => seq![strong(" DISKS [FOCUS]"@, Tone::Yellow)],
        Tab::Users => seq![strong(" USERS [FOCUS]"@, Tone::Orange)],
    }
}

fn strong_of(text: &str, tone: Tone) -> (p: Piece)
    ensures
        piece_view(p) == strong(text@, tone),
{
    Piece { text: String::from_str(text), tone, bold: true, back: None }
}

/// The title of the active panel (see `title_view`).
pub fn panel_title(t: Tab, packages: &PackagePanel) -> (r: Vec<Piece>)
    ensures
        line_view(r@) == title_view(
            t,
            match packages.manager() {
                Some(pm) => manager_name(pm),
                None => "none"@,
            },
        ),
{
    let mut r: Vec<Piece> = Vec::new();
    match t {
        Tab::Files => {
            r.push(strong_of(" FILES", Tone::Muted));
            r.push(piece_of(" [FOCUS]", Tone::Blue));
        },
        Tab::Procs => {
            r.push(strong_of(" PROCESSES", Tone::Muted));
            r.push(piece_of(" [FOCUS]", Tone::Red));
        },
        Tab::Services => r.push(strong_of(" SERVICES [FOCUS]", Tone::Purple)),
        Tab::Packages => {
            r.push(strong_of(" PACKAGES", Tone::Green));
            let mut v = chars_of(" (");
            extend(&mut v, &chars_of(packages.pm_name()));
            extend(&mut v, &chars_of(")"));
            r.push(piece(&v, Tone::Dim));
        },
        Tab::Disks => r.push(strong_of(" DISKS [FOCUS]", Tone::Yellow)),
        Tab::Users => r.push(strong_of(" USERS [FOCUS]", Tone::Orange)),
    }
    proof {
        assert(line_view(r@) =~= title_view(
            t,
            match packages.manager() {
                Some(pm) => manager_name(pm),
                None => "none"@,
            },
        ));
    }
    r
}

/// The keys listed in the help column of a panel, with what they do.
pub open spec fn help_keys(t: Tab) -> Seq<(Seq<char>, Seq<char>)> {
    match t {
        Tab::Files => seq![
            ("↑↓"@, "navigate"@),
            ("ENTER"@, "open/enter"@),
            ("BSP"@, "go back"@),
            ("SPACE"@, "select"@),
            ("C"@, "copy"@),
            ("X"@, "cut"@),
            ("V"@, "paste"@),
            ("D"@, "delete"@),
            ("R"@, "rename"@),
            ("N"@, "new folder"@),
            ("P"@, "preview"@),
            ("M"@, "chmod"@),
            ("Z"@, "compress"@),
            ("E"@, "extract"@),
            ("O"@, "open with"@),
        ],
        Tab::Procs => seq![
            ("↑↓"@, "navigate"@),
            ("K"@, "kill"@),
            ("N"@, "renice"@),
            ("T"@, "cycle sort"@),
            ("I"@, "/proc info"@),
            ("ENTER"@, "summary"@),
            ("F5"@, "refresh"@),
        ],
        Tab::Services => seq![
            ("↑↓"@, "navigate"@),
            ("1"@, "start"@),
            ("2"@, "stop"@),
            ("3"@, "restart"@),
            ("4"@, "enable"@),
            ("5"@, "disable"@),
            ("I"@, "status"@),
            ("F5"@, "refresh"@),
        ],
        Tab::Packages => seq![
            ("↑↓"@, "navigate"@),
            ("S"@, "search"@),
            ("L"@, "installed"@),
            ("1"@, "install"@),
            ("2"@, "remove"@),
        ],
        Tab::Disks => seq![("↑↓"@, "navigate"@), ("I"@, "du breakdown"@), ("K"@, "unmount"@), ("F5"@, "refresh"@)],
        Tab::Users => seq![
            ("↑↓"@, "navigate"@),
            ("N"@, "add user"@),
            ("D"@, "delete"@),
            ("K"@, "lock/unlock"@),
            ("I"@, "add to group"@),
        ],
    }
}

/// The help column: the panel's heading in its colour, each key padded to
/// seven characters with what it does, a rule, and the keys that work
/// everywhere.
pub open spec fn help_view(t: Tab) -> Seq<Seq<(Seq<char>, Tone, bool, Option<Tone>)>> {
    seq![seq![strong(tab_label(t), tab_tone(t))]] + help_keys(t).map_values(
        |kv: (Seq<char>, Seq<char>)| seq![plain(pad_right(kv.0, 7), Tone::Dim), plain(kv.1, Tone::Muted)],
    ) + seq![
        seq![plain("──────"@, Tone::Bg3)],
        seq![plain("TAB    "@, Tone::Dim), plain("next panel"@, Tone::Muted)],
        seq![plain("Q      "@, Tone::Dim), plain("quit"@, Tone::Muted)],
    ]
}

fn key_list(t: Tab) -> (r: Vec<(&'static str, &'static str)>)
    ensures
        r@.map_values(|kv: (&str, &str)| (kv.0@, kv.1@)) == help_keys(t),
{
    let r = match t {
        Tab::Files => vec![
            ("↑↓", "navigate"),
            ("ENTER", "open/enter"),
            ("BSP", "go back"),
            ("SPACE", "select"),
            ("C", "copy"),
            ("X", "cut"),
            ("V", "paste"),
            ("D", "delete"),
            ("R", "rename"),
            ("N", "new folder"),
            ("P", "preview"),
            ("M", "chmod"),
            ("Z", "compress"),
            ("E", "extract"),
            ("O", "open with"),
        ],
        Tab::Procs => vec![
            ("↑↓", "navigate"),
            ("K", "kill"),
            ("N", "renice"),
            ("T", "cycle sort"),
            ("I", "/proc info"),
            ("ENTER", "summary"),
            ("F5", "refresh"),
        ],
        Tab::Services => vec![
            ("↑↓", "navigate"),
            ("1", "start"),
            ("2", "stop"),
            ("3", "restart"),
            ("4", "enable"),
            ("5", "disable"),
            ("I", "status"),
            ("F5", "refresh"),
        ],
        Tab::Packages => vec![
            ("↑↓", "navigate"),
            ("S", "search"),
            ("L", "installed"),
            ("1", "install"),
            ("2", "remove"),
        ],
        Tab::Disks => vec![("↑↓", "navigate"), ("I", "du breakdown"), ("K", "unmount"), ("F5", "refresh")],
        Tab::Users => vec![
            ("↑↓", "navigate"),
            ("N", "add user"),
            ("D", "delete"),
            ("K", "lock/unlock"),
            ("I", "add to group"),
        ],
    };
    proof {
        assert(r@.map_values(|kv: (&str, &str)| (kv.0@, kv.1@)) =~= help_keys(t));
    }
    r
}

/// The help column (see `help_view`).
pub fn help_lines(t: Tab) -> (r: Vec<Vec<Piece>>)
    ensures
        lines_view(r@) == help_view(t),
{
    let keys = key_list(t);
    let ghost kv = help_keys(t);
    let mut r: Vec<Vec<Piece>> = Vec::new();
    let mut head: Vec<Piece> = Vec::new();
    head.push(bold_piece(&chars_of(t.label()), tab_color(t)));
    r.push(head);
    let mut i: usize = 0;
    while i < keys.len()
        invariant
            kv == help_keys(t),
            keys@.map_values(|kv: (&str, &str)| (kv.0@, kv.1@)) == kv,
            i <= keys.len(),
            r.len() == i + 1,
            line_view(r@[0]@) == seq![strong(tab_label(t), tab_tone(t))],
            forall|k: int|
                0 <= k < i ==> #[trigger] line_view(r@[k + 1]@) == seq![
                    plain(pad_right(kv[k].0, 7), Tone::Dim),
                    plain(kv[k].1, Tone::Muted),
                ],
        decreases keys.len() - i,
    {
        let (k, v) = keys[i];
        proof {
            assert(kv[i as int] == (k@, v@));
        }
        let mut line: Vec<Piece> = Vec::new();
        line.push(piece(&padded_right(&chars_of(k), 7), Tone::Dim));
        line.push(piece_of(v, Tone::Muted));
        r.push(line);
        proof {
            assert(line_view(r@[i + 1]@) =~= seq![plain(pad_right(kv[i as int].0, 7), Tone::Dim), plain(kv[i as int].1, Tone::Muted)]);
        }
        i = i + 1;
    }
    let mut rule: Vec<Piece> = Vec::new();
    rule.push(piece_of("──────", Tone::Bg3));
    r.push(rule);
    let mut tab_line: Vec<Piece> = Vec::new();
    tab_line.push(piece_of("TAB    ", Tone::Dim));
    tab_line.push(piece_of("next panel", Tone::Muted));
    r.push(tab_line);
    let mut q_line: Vec<Piece> = Vec::new();
    q_line.push(piece_of("Q      ", Tone::Dim));
    q_line.push(piece_of("quit", Tone::Muted));
    r.push(q_line);
    proof {
        let n = keys.len() as int;
        assert(line_view(r@[n + 1]@) =~= seq![plain("──────"@, Tone::Bg3)]);
        assert(line_view(r@[n + 2]@) =~= seq![plain("TAB    "@, Tone::Dim), plain("next panel"@, Tone::Muted)]);
        assert(line_view(r@[n + 3]@) =~= seq![plain("Q      "@, Tone::Dim), plain("quit"@, Tone::Muted)]);
        let hv = help_view(t);
        assert(hv.len() == n + 4);
        let head_line = seq![seq![strong(tab_label(t), tab_tone(t))]];
        let mid = kv.map_values(
            |kv: (Seq<char>, Seq<char>)| seq![plain(pad_right(kv.0, 7), Tone::Dim), plain(kv.1, Tone::Muted)],
        );
        let tail = seq![
            seq![plain("──────"@, Tone::Bg3)],
            seq![plain("TAB    "@, Tone::Dim), plain("next panel"@, Tone::Muted)],
            seq![plain("Q      "@, Tone::Dim), plain("quit"@, Tone::Muted)],
        ];
        assert(hv == head_line + mid + tail);
        assert forall|j: int| 0 <= j < n + 4 implies #[trigger] lines_view(r@)[j] == hv[j] by {
            assert(lines_view(r@)[j] == line_view(r@[j]@));
            if j == 0 {
                assert(hv[j] == head_line[0]);
            } else if j <= n {
                assert(hv[j] == (head_line + mid)[j]);
                assert((head_line + mid)[j] == mid[j - 1]);
                assert(line_view(r@[(j - 1) + 1]@) == seq![
                    plain(pad_right(kv[j - 1].0, 7), Tone::Dim),
                    plain(kv[j - 1].1, Tone::Muted),
                ]);
            } else {
                assert(hv[j] == tail[j - n - 1]);
            }
        }
        assert(lines_view(r@) =~= help_view(t));
    }
    r
}

// ───────────────────────────── sidebar and header ─────────────────────

/// A use figure: its label, a ten-cell bar and the percentage.
pub open spec fn stat_view(label: Seq<char>, pct: u32) -> Seq<(Seq<char>, Tone, bool, Option<Tone>)> {
    seq![plain(label, Tone::Dim)] + meter(pct, 10) + seq![plain(percent_label(pct), Tone::Text)]
}

fn stat_line(label: &str, pct: u32) -> (r: Vec<Piece>)
    ensures
        line_view(r@) == stat_view(label@, pct),
{
    let mut r: Vec<Piece> = Vec::new();
    r.push(piece_of(label, Tone::Dim));
    let filled = filled_cells(pct, 10);
    r.push(piece(&run('█', filled), bar_color(pct)));
    r.push(piece(&run('░', 10 - filled), Tone::Bg3));
    r.push(percent_piece(pct));
    proof {
        assert(line_view(r@) =~= stat_view(label@, pct));
    }
    r
}

/// The system block of the sidebar: its heading, then, when there are
/// figures, CPU, memory and disk use and the uptime.
pub open spec fn system_view(d: Option<SystemData>) -> Seq<Seq<(Seq<char>, Tone, bool, Option<Tone>)>> {
    seq![seq![strong(" SYSTEM"@, Tone::Muted)]] + match d {
        Some(x) => seq![
            stat_view("  CPU  "@, x.cpu_pct),
            stat_view("  RAM  "@, x.mem_pct),
            stat_view("  DISK "@, x.disk_pct),
            seq![plain("  UP   "@, Tone::Dim), plain(uptime_text(x.uptime_secs), Tone::Muted)],
        ],
        None => Seq::empty(),
    }
}

/// The system block of the sidebar (see `system_view`).
pub fn system_lines(d: Option<&SystemData>) -> (r: Vec<Vec<Piece>>)
    ensures
        lines_view(r@) == system_view(
            match d {
                Some(x) => Some(*x),
                None => None,
            },
        ),
{
    let mut r: Vec<Vec<Piece>> = Vec::new();
    let mut head: Vec<Piece> = Vec::new();
    head.push(strong_of(" SYSTEM", Tone::Muted));
    r.push(head);
    match d {
        Some(x) => {
            r.push(stat_line("  CPU  ", x.cpu_pct));
            r.push(stat_line("  RAM  ", x.mem_pct));
            r.push(stat_line("  DISK ", x.disk_pct));
            let mut up: Vec<Piece> = Vec::new();
            up.push(piece_of("  UP   ", Tone::Dim));
            up.push(Piece { text: x.uptime_str(), tone: Tone::Muted, bold: false, back: None });
            r.push(up);
            proof {
                assert(line_view(r@[4]@) =~= seq![plain("  UP   "@, Tone::Dim), plain(uptime_text(x.uptime_secs), Tone::Muted)]);
            }
        },
        None => {},
    }
    proof {
        assert(line_view(r@[0]@) =~= seq![strong(" SYSTEM"@, Tone::Muted)]);
        assert(lines_view(r@) =~= system_view(
            match d {
                Some(x) => Some(*x),
                None => None,
            },
        ));
    }
    r
}

/// A line of the network block: a green dot for an interface that moved
/// data since the last sample (red otherwise), its name padded to 10 and
/// its address padded to 16.
pub open spec fn iface_view(i: NetIface) -> Seq<(Seq<char>, Tone, bool, Option<Tone>)> {
    seq![
        plain("  "@, Tone::Plain),
        plain(
            "●"@,
            if i.up {
                Tone::Green
            } else {
                Tone::Red
            },
        ),
        plain(" "@ + pad_right(i.name@, 10), Tone::Text),
        plain(pad_right(i.ip@, 16), Tone::Dim),
    ]
}

/// The network block of the sidebar: its heading, then, when there are
/// figures, the first four interfaces, or a note that there are none.
pub open spec fn network_view(d: Option<SystemData>) -> Seq<Seq<(Seq<char>, Tone, bool, Option<Tone>)>> {
    seq![seq![strong(" NETWORK"@, Tone::Muted)]] + match d {
        Some(x) => if x.ifaces@.len() == 0 {
            seq![seq![plain("  No interfaces"@, Tone::Dim)]]
        } else {
            first_n(x.ifaces@, 4).map_values(|i: NetIface| iface_view(i))
        },
        None => Seq::empty(),
    }
}

/// The network block of the sidebar (see `network_view`).
pub fn network_lines(d: Option<&SystemData>) -> (r: Vec<Vec<Piece>>)
    ensures
        lines_view(r@) == network_view(
            match d {
                Some(x) => Some(*x),
                None => None,
            },
        ),
{
    let mut r: Vec<Vec<Piece>> = Vec::new();
    let mut head: Vec<Piece> = Vec::new();
    head.push(strong_of(" NETWORK", Tone::Muted));
    r.push(head);
    let ghost dv = match d {
        Some(x) => Some(*x),
        None => None,
    };
    match d {
        Some(x) => {
            if x.ifaces.len() == 0 {
                let mut none: Vec<Piece> = Vec::new();
                none.push(piece_of("  No interfaces", Tone::Dim));
                r.push(none);
                proof {
                    assert(line_view(r@[1]@) =~= seq![plain("  No interfaces"@, Tone::Dim)]);
                }
            } else {
                let n = if x.ifaces.len() < 4 { x.ifaces.len() } else { 4 };
                let mut i: usize = 0;
                while i < n
                    invariant
                        n <= x.ifaces.len(),
                        i <= n,
                        r.len() == i + 1,
                        line_view(r@[0]@) == seq![strong(" NETWORK"@, Tone::Muted)],
                        forall|k: int| 0 <= k < i ==> #[trigger] line_view(r@[k + 1]@) == iface_view(x.ifaces@[k]),
                    decreases n - i,
                {
                    let f = &x.ifaces[i];
                    let mut line: Vec<Piece> = Vec::new();
                    line.push(piece_of("  ", Tone::Plain));
                    line.push(piece_of("●", if f.up { Tone::Green } else { Tone::Red }));
                    let mut name = chars_of(" ");
                    extend(&mut name, &padded_right(&chars_of(f.name.as_str()), 10));
                    line.push(piece(&name, Tone::Text));
                    line.push(piece(&padded_right(&chars_of(f.ip.as_str()), 16), Tone::Dim));
                    r.push(line);
                    proof {
                        assert(line_view(r@[i + 1]@) =~= iface_view(x.ifaces@[i as int]));
                    }
                    i = i + 1;
                }
                proof {
                    let nv = network_view(dv);
                    let tail = first_n(x.ifaces@, 4).map_values(|i: NetIface| iface_view(i));
                    assert(nv == seq![seq![strong(" NETWORK"@, Tone::Muted)]] + tail);
                    assert(tail.len() == n);
                    assert forall|j: int| 0 <= j < n + 1 implies #[trigger] lines_view(r@)[j] == nv[j] by {
                        assert(lines_view(r@)[j] == line_view(r@[j]@));
                        if j > 0 {
                            assert(nv[j] == tail[j - 1]);
                            assert(line_view(r@[(j - 1) + 1]@) == iface_view(x.ifaces@[j - 1]));
                        }
                    }
                }
            }
        },
        None => {},
    }
    proof {
        assert(line_view(r@[0]@) =~= seq![strong(" NETWORK"@, Tone::Muted)]);
        assert(lines_view(r@) =~= network_view(dv));
    }
    r
}

/// The brand block of the header: the name and version, then the clock
/// and the date as given.
pub open spec fn brand_view(time: Seq<char>, date: Seq<char>) -> Seq<Seq<(Seq<char>, Tone, bool, Option<Tone>)>> {
    seq![
        seq![strong(" NG'ANJO OS"@, Tone::Blue), plain(" v2.0"@, Tone::Dim)],
        seq![strong(" "@ + time, Tone::Text), plain("  "@ + date, Tone::Dim)],
    ]
}

/// The brand block of the header (see `brand_view`); `time` and `date` are
/// the current local time and date, already formatted.
pub fn brand_lines(time: &str, date: &str) -> (r: Vec<Vec<Piece>>)
    ensures
        lines_view(r@) == brand_view(time@, date@),
{
    let mut a: Vec<Piece> = Vec::new();
    a.push(strong_of(" NG'ANJO OS", Tone::Blue));
    a.push(piece_of(" v2.0", Tone::Dim));
    let mut b: Vec<Piece> = Vec::new();
    b.push(bold_piece(&crate::text::concat(" ", time), Tone::Text));
    b.push(piece(&crate::text::concat("  ", date), Tone::Dim));
    let mut r: Vec<Vec<Piece>> = Vec::new();
    r.push(a);
    r.push(b);
    proof {
        assert(line_view(r@[0]@) =~= brand_view(time@, date@)[0]);
        assert(line_view(r@[1]@) =~= brand_view(time@, date@)[1]);
        assert(lines_view(r@) =~= brand_view(time@, date@));
    }
    r
}

/// The figures block of the header: CPU, memory and disk use, when there
/// are figures.
pub open spec fn header_stats_view(d: Option<SystemData>) -> Seq<Seq<(Seq<char>, Tone, bool, Option<Tone>)>> {
    match d {
        Some(x) => seq![stat_view("CPU "@, x.cpu_pct), stat_view("RAM "@, x.mem_pct), stat_view("DSK "@, x.disk_pct)],
        None => Seq::empty(),
    }
}

/// The figures block of the header (see `header_stats_view`).
pub fn header_stats(d: Option<&SystemData>) -> (r: Vec<Vec<Piece>>)
    ensures
        lines_view(r@) == header_stats_view(
            match d {
                Some(x) => Some(*x),
                None => None,
            },
        ),
{
    let mut r: Vec<Vec<Piece>> = Vec::new();
    match d {
        Some(x) => {
            r.push(stat_line("CPU ", x.cpu_pct));
            r.push(stat_line("RAM ", x.mem_pct));
            r.push(stat_line("DSK ", x.disk_pct));
        },
        None => {},
    }
    proof {
        assert(lines_view(r@) =~= header_stats_view(
            match d {
                Some(x) => Some(*x),
                None => None,
            },
        ));
    }
    r
}

// ───────────────────────────── dialogs ────────────────────────────────

/// The height of a dialog drawn over an area `area_h` lines high: 7 for
/// input, 6 for a question, and for a message its lines plus five, at most
/// the area's height less four.
pub open spec fn dialog_height(m: Modal, area_h: nat) -> nat {
    match m.kind {
        ModalKind::Input => 7,
        ModalKind::Confirm => 6,
        ModalKind::Message => {
            let want = lines(m.body@).len() + 5;
            let room = (area_h - 4) as nat;
            if want <= room {
                want
            } else {
                room
            }
        },
    }
}

/// The box of a dialog (x, y, width, height) centred in an area of
/// `area_w` by `area_h` cells: at most 62 cells wide and four narrower
/// than the area.
pub open spec fn dialog_box(m: Modal, area_w: nat, area_h: nat) -> (nat, nat, nat, nat) {
    let w = if area_w >= 4 {
        let a = (area_w - 4) as nat;
        if a < 62 {
            a
        } else {
            62nat
        }
    } else {
        0nat
    };
    let h = dialog_height(m, area_h);
    let x = if area_w >= w {
        ((area_w - w) as nat) / 2
    } else {
        0
    };
    let y = if area_h >= h {
        ((area_h - h) as nat) / 2
    } else {
        0
    };
    (x, y, w, h)
}

/// Whether a dialog can be laid out over an area `area_h` lines high: a
/// message needs an area at least four lines high and fewer than 65531
/// lines.
pub open spec fn dialog_fits(m: Modal, area_h: nat) -> bool {
    m.kind == ModalKind::Message ==> area_h >= 4 && lines(m.body@).len() <= 65530
}

/// The box of a dialog (see `dialog_box`).
pub fn dialog_rect(m: &Modal, area_w: u16, area_h: u16) -> (r: (u16, u16, u16, u16))
    requires
        dialog_fits(*m, area_h as nat),
    ensures
        (r.0 as nat, r.1 as nat, r.2 as nat, r.3 as nat) == dialog_box(*m, area_w as nat, area_h as nat),
{
    let a = if area_w >= 4 { area_w - 4 } else { 0 };
    let w: u16 = if a < 62 { a } else { 62 };
    let h: u16 = match m.kind {
        ModalKind::Input => 7,
        ModalKind::Confirm => 6,
        ModalKind::Message => {
            let n = lines_of(&chars_of(m.body.as_str())).len();
            proof {
                assert(n == lines(m.body@).len());
            }
            let want = (n as u16) + 5;
            let room = area_h - 4;
            if want <= room { want } else { room }
        },
    };
    let x = if area_w >= w { (area_w - w) / 2 } else { 0 };
    let y = if area_h >= h { (area_h - h) / 2 } else { 0 };
    (x, y, w, h)
}

/// The title of a dialog: between spaces, bold, yellow for a question and
/// blue otherwise.
pub open spec fn dialog_title_view(m: Modal) -> (Seq<char>, Tone, bool, Option<Tone>) {
    strong(
        " "@ + m.title@ + " "@,
        if m.kind == ModalKind::Confirm {
            Tone::Yellow
        } else {
            Tone::Blue
        },
    )
}

/// The title of a dialog (see `dialog_title_view`).
pub fn dialog_title(m: &Modal) -> (r: Piece)
    ensures
        piece_view(r) == dialog_title_view(*m),
{
    let mut t = chars_of(" ");
    extend(&mut t, &chars_of(m.title.as_str()));
    extend(&mut t, &chars_of(" "));
    bold_piece(&t, if m.kind == ModalKind::Confirm { Tone::Yellow } else { Tone::Blue })
}

/// The inside of a dialog: a message's lines and how to close it; a
/// question, an empty line and the answers; or the line typed so far with
/// a cursor, and the answers.
pub open spec fn dialog_body_view(m: Modal) -> Seq<Seq<(Seq<char>, Tone, bool, Option<Tone>)>> {
    match m.kind {
        ModalKind::Message => lines(m.body@).map_values(|l: Seq<char>| seq![plain(l, Tone::Text)]) + seq![
            seq![plain("Any key to close"@, Tone::Dim)],
        ],
        ModalKind::Confirm => seq![
            seq![plain(m.body@, Tone::Text)],
            seq![plain(""@, Tone::Plain)],
            seq![plain("ENTER = Yes    ESC = No"@, Tone::Dim)],
        ],
        ModalKind::Input => seq![
            seq![plain(m.input@ + "_"@, Tone::Text)],
            seq![plain("ENTER = confirm    ESC = cancel"@, Tone::Dim)],
        ],
    }
}

/// The inside of a dialog (see `dialog_body_view`).
pub fn dialog_body(m: &Modal) -> (r: Vec<Vec<Piece>>)
    ensures
        lines_view(r@) == dialog_body_view(*m),
{
    let mut r: Vec<Vec<Piece>> = Vec::new();
    match m.kind {
        ModalKind::Message => {
            let ls = lines_of(&chars_of(m.body.as_str()));
            let ghost lv = views(ls@);
            let mut i: usize = 0;
            while i < ls.len()
                invariant
                    lv == views(ls@),
                    i <= ls.len(),
                    r.len() == i,
                    forall|k: int| 0 <= k < i ==> #[trigger] line_view(r@[k]@) == seq![plain(lv[k], Tone::Text)],
                decreases ls.len() - i,
            {
                let mut line: Vec<Piece> = Vec::new();
                line.push(piece(&ls[i], Tone::Text));
                r.push(line);
                proof {
                    assert(line_view(r@[i as int]@) =~= seq![plain(lv[i as int], Tone::Text)]);
                }
                i = i + 1;
            }
            let mut close: Vec<Piece> = Vec::new();
            close.push(piece_of("Any key to close", Tone::Dim));
            r.push(close);
            proof {
                let n = ls.len() as int;
                assert(line_view(r@[n]@) =~= seq![plain("Any key to close"@, Tone::Dim)]);
                assert(lines_view(r@) =~= dialog_body_view(*m));
            }
        },
        ModalKind::Confirm => {
            let mut a: Vec<Piece> = Vec::new();
            a.push(piece_of(m.body.as_str(), Tone::Text));
            let mut b: Vec<Piece> = Vec::new();
            b.push(piece_of("", Tone::Plain));
            let mut c: Vec<Piece> = Vec::new();
            c.push(piece_of("ENTER = Yes    ESC = No", Tone::Dim));
            r.push(a);
            r.push(b);
            r.push(c);
            proof {
                assert(line_view(r@[0]@) =~= dialog_body_view(*m)[0]);
                assert(line_view(r@[1]@) =~= dialog_body_view(*m)[1]);
                assert(line_view(r@[2]@) =~= dialog_body_view(*m)[2]);
                assert(lines_view(r@) =~= dialog_body_view(*m));
            }
        },
        ModalKind::Input => {
            let mut t = chars_of(m.input.as_str());
            t.push('_');
            let mut a: Vec<Piece> = Vec::new();
            a.push(piece(&t, Tone::Text));
            let mut b: Vec<Piece> = Vec::new();
            b.push(piece_of("ENTER = confirm    ESC = cancel", Tone::Dim));
            r.push(a);
            r.push(b);
            proof {
                reveal_strlit("_");
                assert(t@ =~= m.input@ + "_"@);
                assert(line_view(r@[0]@) =~= dialog_body_view(*m)[0]);
                assert(line_view(r@[1]@) =~= dialog_body_view(*m)[1]);
                assert(lines_view(r@) =~= dialog_body_view(*m));
            }
        },
    }
    r
}

/// The tab bar highlights the active panel and no other: exactly one
/// piece has a background of its own, the active panel's heading, on the
/// panel's colour.
pub proof fn law_one_active_tab(active: Tab)
    ensures
        tab_bar_view(active).len() == 12,
        forall|i: int|
            0 <= i < 12 ==> ((#[trigger] tab_bar_view(active)[i]).3 is Some <==> i == 2 * tab_index(active)),
        tab_bar_view(active)[2 * tab_index(active)] == ("  "@ + tab_label(active) + "  "@, Tone::Bg2, true, Some(
            tab_tone(active),
        )),
{
    lemma_tab_at_index(active);
    assert forall|i: int| 0 <= i < 12 implies ((#[trigger] tab_bar_view(active)[i]).3 is Some <==> i == 2
        * tab_index(active)) by {
        if i % 2 == 0 && tab_at(i / 2) == active {
            assert(i / 2 == tab_index(active));
        }
    }
    assert((2 * tab_index(active)) % 2 == 0);
    assert((2 * tab_index(active)) / 2 == tab_index(active));
}

/// Each list marks the row under the cursor and no other.
pub proof fn law_cursor_row_marked(f: FilePanel, p: ProcPanel, s: ServicePanel, d: DiskPanel, u: UserPanel, h: nat)
    ensures
        forall|j: int|
            0 <= j < file_rows_view(f, h).len() ==> ((#[trigger] file_rows_view(f, h)[j]).1 <==> scroll_start(
                f.idx as nat,
                h,
            ) + j == f.idx),
        forall|j: int|
            0 <= j < proc_rows_view(p, h).len() ==> ((#[trigger] proc_rows_view(p, h)[j]).1 <==> scroll_start(
                p.idx as nat,
                h,
            ) + j == p.idx),
        forall|j: int|
            0 <= j < service_rows_view(s, h).len() ==> ((#[trigger] service_rows_view(s, h)[j]).1
                <==> scroll_start(s.idx as nat, h) + j == s.idx),
        forall|j: int| 0 <= j < disk_rows_view(d).len() ==> ((#[trigger] disk_rows_view(d)[j]).1 <==> j == d.idx),
        forall|j: int| 0 <= j < user_rows_view(u).len() ==> ((#[trigger] user_rows_view(u)[j]).1 <==> j == u.idx),
{
}

} // verus!
