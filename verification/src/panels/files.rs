//! The file manager panel: a directory listing, a cursor, a selection and
//! a clipboard.

use vstd::prelude::*;
use std::collections::BTreeSet;
use crate::effect::{ArchiveKind, Effect, PreviewSource};
use crate::outside::{file_name_of, home_dir, lowercase, parent_of, path_file_name, path_parent, to_lower};
use crate::text::chars_of;
use crate::sort::{reversed, lex_less, lex_lt, lemma_lex_order, lemma_stable_sorted_map, sort_by, stable_sorted, strict_weak, is_perm};
use crate::panels::nav::{step_down, step_up};
use crate::text::{
    byte_prefix, copy_strings, cuts_at_boundary, decimal, decimal_chars, ends_with, extend, first_n, has_suffix,
    join, join_first, parse_u32, parse_u32_spec, prefix_bytes, to_string, views,
};
use vstd::string::StringExecFns;

verus! {

broadcast use {vstd::laws_cmp::group_laws_cmp, vstd::std_specs::btree::group_btree_axioms};

/// An entry of a directory listing.
pub struct FileEntry {
    pub path: String,
    pub is_dir: bool,
    pub size: u64,
    /// Unix permission bits (and file type bits) as `st_mode` gives them.
    pub mode: u32,
}

/// The name shown for a path: its final component, or `?` when it has
/// none.
pub open spec fn entry_name(path: Seq<char>) -> Seq<char> {
    match path_file_name(path) {
        Some(n) => n,
        None => "?"@,
    }
}

/// One character of an `rwx` triple: `c` when the bit `bit` of
/// `mode >> shift` is set, else `-`.
pub open spec fn perm_char(mode: u32, shift: u32, bit: u32, c: char) -> char {
    if (mode >> shift) & bit != 0 {
        c
    } else {
        '-'
    }
}

/// The nine-character `rwxrwxrwx` form of the owner, group and other
/// permission bits.
pub open spec fn perms(mode: u32) -> Seq<char> {
    seq![
        perm_char(mode, 6, 4, 'r'),
        perm_char(mode, 6, 2, 'w'),
        perm_char(mode, 6, 1, 'x'),
        perm_char(mode, 3, 4, 'r'),
        perm_char(mode, 3, 2, 'w'),
        perm_char(mode, 3, 1, 'x'),
        perm_char(mode, 0, 4, 'r'),
        perm_char(mode, 0, 2, 'w'),
        perm_char(mode, 0, 1, 'x'),
    ]
}

fn perm_exec(mode: u32, shift: u32, bit: u32, c: char) -> (r: char)
    requires
        shift < 32,
    ensures
        r == perm_char(mode, shift, bit, c),
{
    if (mode >> shift) & bit != 0 {
        c
    } else {
        '-'
    }
}

impl FileEntry {
    /// The name shown for the entry: the final component of its path, or
    /// `?`.
    pub fn name(&self) -> (r: String)
        ensures
            r@ == entry_name(self.path@),
    {
        match file_name_of(self.path.as_str()) {
            Some(n) => n,
            None => String::from_str("?"),
        }
    }

    /// The permission bits as `rwxrwxrwx`, with `-` for each bit not set.
    pub fn perms_str(&self) -> (r: String)
        ensures
            r@ == perms(self.mode),
    {
        let m = self.mode;
        let mut s: Vec<char> = Vec::new();
        s.push(perm_exec(m, 6, 4, 'r'));
        s.push(perm_exec(m, 6, 2, 'w'));
        s.push(perm_exec(m, 6, 1, 'x'));
        s.push(perm_exec(m, 3, 4, 'r'));
        s.push(perm_exec(m, 3, 2, 'w'));
        s.push(perm_exec(m, 3, 1, 'x'));
        s.push(perm_exec(m, 0, 4, 'r'));
        s.push(perm_exec(m, 0, 2, 'w'));
        s.push(perm_exec(m, 0, 1, 'x'));
        proof {
            assert(s@ =~= perms(m));
        }
        to_string(&s)
    }

    /// A copy of the entry.
    pub fn copy(&self) -> (r: FileEntry)
        ensures
            r == *self,
    {
        FileEntry { path: self.path.clone(), is_dir: self.is_dir, size: self.size, mode: self.mode }
    }
}

/// The text by which entries are ordered: the lower-cased name.
pub open spec fn sort_name(e: FileEntry) -> Seq<char> {
    lowercase(entry_name(e.path@))
}

/// The order of a listing: directories first, then by lower-cased name.
pub open spec fn listed_before(a: FileEntry, b: FileEntry) -> bool {
    (a.is_dir && !b.is_dir) || (a.is_dir == b.is_dir && lex_lt(sort_name(a), sort_name(b)))
}

/// The entry that stands for the parent directory `par` at the top of a
/// listing.
pub open spec fn is_parent_entry(e: FileEntry, par: Seq<char>) -> bool {
    e.path@ == par && e.is_dir && e.size == 0 && e.mode == 0o755
}

/// `entries` is the listing of `dir` built from the entries `items` that
/// reading it gave: the parent directory first when `dir` has one, then the
/// items sorted stably, directories before files and by lower-cased name.
pub open spec fn listing_of(dir: Seq<char>, items: Seq<FileEntry>, entries: Seq<FileEntry>) -> bool {
    match path_parent(dir) {
        Some(par) => entries.len() >= 1 && is_parent_entry(entries[0], par) && stable_sorted(
            items,
            entries.drop_first(),
            |a: FileEntry, b: FileEntry| listed_before(a, b),
        ),
        None => stable_sorted(items, entries, |a: FileEntry, b: FileEntry| listed_before(a, b)),
    }
}

/// Whether a clipboard operation moves (cut) or duplicates (copy).
#[derive(Clone, Copy, PartialEq, Eq, Debug, Structural)]
pub enum ClipOp {
    Copy,
    Cut,
}

/// Paths copied or cut, waiting to be pasted.
pub struct Clipboard {
    pub op: ClipOp,
    pub paths: Vec<String>,
}

/// The file manager panel.
pub struct FilePanel {
    /// The directory shown.
    pub path: String,
    pub entries: Vec<FileEntry>,
    /// The cursor.
    pub idx: usize,
    /// Positions of the selected entries.
    pub selected: BTreeSet<usize>,
    pub clipboard: Option<Clipboard>,
}

/// The paths that file operations act on: the selected entries (in order of
/// position, leaving out the directory itself); with nothing selected, the
/// entry under the cursor unless it is the root.
pub open spec fn targets_of(p: FilePanel) -> Seq<Seq<char>> {
    if !p.selected@.is_empty() {
        selected_paths(p.entries@, p.selected@, p.path@, p.entries@.len() as int)
    } else if p.idx < p.entries@.len() && path_parent(p.entries@[p.idx as int].path@) is Some {
        seq![p.entries@[p.idx as int].path@]
    } else {
        Seq::empty()
    }
}

/// The paths of the selected entries among the first `n`, in order,
/// leaving out entries whose path is `dir`.
pub open spec fn selected_paths(
    entries: Seq<FileEntry>,
    sel: Set<usize>,
    dir: Seq<char>,
    n: int,
) -> Seq<Seq<char>>
    decreases n,
{
    if n <= 0 {
        Seq::empty()
    } else {
        let before = selected_paths(entries, sel, dir, n - 1);
        let e = entries[n - 1];
        if sel.contains((n - 1) as usize) && e.path@ != dir {
            before.push(e.path@)
        } else {
            before
        }
    }
}

/// The views of a vector of strings.
pub open spec fn string_views(v: Seq<String>) -> Seq<Seq<char>> {
    v.map_values(|s: String| s@)
}

struct Keyed {
    entry: FileEntry,
    key: Vec<char>,
}

spec fn keyed_before(a: Keyed, b: Keyed) -> bool {
    (a.entry.is_dir && !b.entry.is_dir) || (a.entry.is_dir == b.entry.is_dir && lex_lt(a.key@, b.key@))
}

proof fn lemma_keyed_strict_weak()
    ensures
        strict_weak(|a: Keyed, b: Keyed| keyed_before(a, b)),
{
    let lt = |a: Keyed, b: Keyed| keyed_before(a, b);
    assert forall|a: Keyed| !#[trigger] lt(a, a) by {
        lemma_lex_order(a.key@, a.key@, a.key@);
    }
    assert forall|a: Keyed, b: Keyed, c: Keyed| #[trigger] lt(a, b) && #[trigger] lt(b, c) implies lt(a, c) by {
        lemma_lex_order(a.key@, b.key@, c.key@);
    }
    assert forall|a: Keyed, b: Keyed, c: Keyed|
        #![trigger lt(a, b), lt(b, c)]
        !lt(a, b) && !lt(b, a) && !lt(b, c) && !lt(c, b) implies !lt(a, c) && !lt(c, a) by {
        lemma_lex_order(a.key@, b.key@, c.key@);
        lemma_lex_order(b.key@, a.key@, c.key@);
        lemma_lex_order(b.key@, c.key@, a.key@);
        lemma_lex_order(c.key@, b.key@, a.key@);
        lemma_lex_order(a.key@, c.key@, b.key@);
    }
}

fn keyed_less(a: &Keyed, b: &Keyed) -> (r: bool)
    ensures
        r == keyed_before(*a, *b),
{
    (a.entry.is_dir && !b.entry.is_dir) || (a.entry.is_dir == b.entry.is_dir && lex_less(&a.key, &b.key))
}

spec fn entries_of(v: Seq<Keyed>) -> Seq<FileEntry> {
    v.map_values(|k: Keyed| k.entry)
}

spec fn keyed_view(k: Keyed) -> (FileEntry, Seq<char>) {
    (k.entry, k.key@)
}

/// Listing order for entries that come with the text they are ordered
/// by: directories first, then by that text.
pub open spec fn keyed_listed_before(a: (FileEntry, Seq<char>), b: (FileEntry, Seq<char>)) -> bool {
    (a.0.is_dir && !b.0.is_dir) || (a.0.is_dir == b.0.is_dir && lex_lt(a.1, b.1))
}

/// Listing order by keys, as a relation.
pub open spec fn by_keys() -> spec_fn((FileEntry, Seq<char>), (FileEntry, Seq<char>)) -> bool {
    |a: (FileEntry, Seq<char>), b: (FileEntry, Seq<char>)| keyed_listed_before(a, b)
}

/// Each entry paired with its key.
pub open spec fn with_keys(items: Seq<FileEntry>, keys: Seq<Seq<char>>) -> Seq<(FileEntry, Seq<char>)> {
    Seq::new(items.len(), |i: int| (items[i], keys[i]))
}

/// `r` is `items` in listing order by the given keys: directories first,
/// then by key, entries that tie in the order given.
pub open spec fn ordered_by_keys(items: Seq<FileEntry>, keys: Seq<Seq<char>>, r: Seq<FileEntry>) -> bool {
    exists|s: Seq<(FileEntry, Seq<char>)>|
        #[trigger] stable_sorted(
            with_keys(items, keys),
            s,
            by_keys(),
        ) && r == s.map_values(|x: (FileEntry, Seq<char>)| x.0)
}

proof fn lemma_sorted_entries(old: Seq<(FileEntry, Seq<char>)>, new: Seq<(FileEntry, Seq<char>)>)
    requires
        forall|i: int| 0 <= i < old.len() ==> (#[trigger] old[i]).1 == sort_name(old[i].0),
        stable_sorted(
            old,
            new,
            by_keys(),
        ),
    ensures
        stable_sorted(
            old.map_values(|x: (FileEntry, Seq<char>)| x.0),
            new.map_values(|x: (FileEntry, Seq<char>)| x.0),
            |a: FileEntry, b: FileEntry| listed_before(a, b),
        ),
{
    let klt = by_keys();
    let elt = |a: FileEntry, b: FileEntry| listed_before(a, b);
    let p = choose|p: Seq<int>|
        {
            &&& is_perm(p, old.len())
            &&& new.len() == old.len()
            &&& forall|k: int| 0 <= k < new.len() ==> #[trigger] new[k] == old[p[k]]
            &&& forall|k: int, l: int|
                0 <= k < l < new.len() ==> crate::sort::before(
                    klt,
                    #[trigger] new[k],
                    p[k],
                    #[trigger] new[l],
                    p[l],
                )
        };
    let eo = old.map_values(|x: (FileEntry, Seq<char>)| x.0);
    let en = new.map_values(|x: (FileEntry, Seq<char>)| x.0);
    assert forall|k: int| 0 <= k < en.len() implies #[trigger] en[k] == eo[p[k]] by {
        assert(new[k] == old[p[k]]);
    }
    assert forall|k: int, l: int| 0 <= k < l < en.len() implies crate::sort::before(
        elt,
        #[trigger] en[k],
        p[k],
        #[trigger] en[l],
        p[l],
    ) by {
        assert(crate::sort::before(klt, new[k], p[k], new[l], p[l]));
        assert(new[k] == old[p[k]] && new[l] == old[p[l]]);
        assert(new[k].1 == sort_name(new[k].0));
        assert(new[l].1 == sort_name(new[l].0));
        assert(klt(new[k], new[l]) == elt(en[k], en[l]));
        assert(klt(new[l], new[k]) == elt(en[l], en[k]));
    }
    assert(is_perm(p, eo.len()));
    assert(en.len() == eo.len());
}

/// Sorts entries stably into listing order by the given keys, one for
/// each entry in the same order (see `ordered_by_keys`).
pub fn order_by_keys(items: Vec<FileEntry>, keys: Vec<String>) -> (r: Vec<FileEntry>)
    requires
        items.len() == keys.len(),
    ensures
        ordered_by_keys(items@, string_views(keys@), r@),
{
    let ghost orig = items@;
    let ghost kviews = string_views(keys@);
    let mut rev = reversed(items);
    let mut keyed: Vec<Keyed> = Vec::new();
    while rev.len() > 0
        invariant
            rev@ == orig.subrange(keyed.len() as int, orig.len() as int).reverse(),
            keyed.len() <= orig.len(),
            orig.len() == keys.len(),
            kviews == string_views(keys@),
            forall|i: int| 0 <= i < keyed.len() ==> #[trigger] keyed_view(keyed@[i]) == (orig[i], kviews[i]),
        decreases rev.len(),
    {
        let e = rev.pop().unwrap();
        let i = keyed.len();
        let key = chars_of(keys[i].as_str());
        proof {
            assert(e == orig[i as int]);
        }
        keyed.push(Keyed { entry: e, key });
        proof {
            assert(rev@ =~= orig.subrange(keyed.len() as int, orig.len() as int).reverse());
        }
    }
    proof {
        lemma_keyed_strict_weak();
    }
    let ghost before_sort = keyed@;
    sort_by(&mut keyed, &keyed_less, Ghost(|a: Keyed, b: Keyed| keyed_before(a, b)));
    let ghost sorted = keyed@;
    proof {
        lemma_stable_sorted_map(
            before_sort,
            sorted,
            |a: Keyed, b: Keyed| keyed_before(a, b),
            |k: Keyed| keyed_view(k),
            by_keys(),
        );
        assert(before_sort.map_values(|k: Keyed| keyed_view(k)) =~= with_keys(orig, kviews));
    }
    let mut back = reversed(keyed);
    let mut r: Vec<FileEntry> = Vec::new();
    while back.len() > 0
        invariant
            back@ == sorted.subrange(r.len() as int, sorted.len() as int).reverse(),
            r@ == entries_of(sorted).subrange(0, r.len() as int),
            r.len() <= sorted.len(),
        decreases back.len(),
    {
        let k = back.pop().unwrap();
        proof {
            assert(k == sorted[r.len() as int]);
        }
        r.push(k.entry);
        proof {
            assert(r@ =~= entries_of(sorted).subrange(0, r.len() as int));
            assert(back@ =~= sorted.subrange(r.len() as int, sorted.len() as int).reverse());
        }
    }
    proof {
        let s = sorted.map_values(|k: Keyed| keyed_view(k));
        assert(entries_of(sorted).subrange(0, sorted.len() as int) =~= entries_of(sorted));
        assert(r@ =~= s.map_values(|x: (FileEntry, Seq<char>)| x.0));
    }
    r
}

/// Sorts directory entries into listing order.
fn sort_listing(items: Vec<FileEntry>) -> (r: Vec<FileEntry>)
    ensures
        stable_sorted(items@, r@, |a: FileEntry, b: FileEntry| listed_before(a, b)),
{
    let mut keys: Vec<String> = Vec::new();
    let mut i: usize = 0;
    while i < items.len()
        invariant
            i <= items.len(),
            keys.len() == i,
            forall|k: int| 0 <= k < i ==> #[trigger] keys@[k]@ == sort_name(items@[k]),
        decreases items.len() - i,
    {
        keys.push(to_lower(items[i].name().as_str()));
        i = i + 1;
    }
    let ghost orig = items@;
    let ghost kviews = string_views(keys@);
    let r = order_by_keys(items, keys);
    proof {
        let pairs = with_keys(orig, kviews);
        let s = choose|s: Seq<(FileEntry, Seq<char>)>|
            #[trigger] stable_sorted(
                pairs,
                s,
                by_keys(),
            ) && r@ == s.map_values(|x: (FileEntry, Seq<char>)| x.0);
        assert forall|i: int| 0 <= i < pairs.len() implies (#[trigger] pairs[i]).1 == sort_name(pairs[i].0) by {
            assert(kviews[i] == keys@[i]@);
        }
        lemma_sorted_entries(pairs, s);
        assert(pairs.map_values(|x: (FileEntry, Seq<char>)| x.0) =~= orig);
    }
    r
}

/// A listing: the entries `sorted` behind the entry for `parent`, the
/// parent directory of the one listed, when there is one.
pub fn with_parent(parent: Option<String>, sorted: Vec<FileEntry>) -> (r: Vec<FileEntry>)
    ensures
        match parent {
            Some(par) => r@.len() >= 1 && is_parent_entry(r@[0], par@) && r@.drop_first() == sorted@,
            None => r@ == sorted@,
        },
{
    let mut entries: Vec<FileEntry> = Vec::new();
    let has = parent.is_some();
    match parent {
        Some(par) => {
            entries.push(FileEntry { path: par, is_dir: true, size: 0, mode: 0o755 });
        },
        None => {},
    }
    let ghost head = entries@;
    let mut i: usize = 0;
    while i < sorted.len()
        invariant
            i <= sorted.len(),
            entries@ == head + sorted@.subrange(0, i as int),
        decreases sorted.len() - i,
    {
        entries.push(sorted[i].copy());
        i = i + 1;
        proof {
            assert(entries@ =~= head + sorted@.subrange(0, i as int));
        }
    }
    proof {
        assert(sorted@.subrange(0, sorted.len() as int) =~= sorted@);
        if has {
            assert((head + sorted@).drop_first() =~= sorted@);
        } else {
            assert(head + sorted@ =~= sorted@);
        }
    }
    entries
}

/// The directory the file panel starts in: the home directory, or `/`
/// when there is none.
pub fn start_dir() -> (dir: String) {
    start_dir_from(home_dir())
}

/// The directory the file panel starts in, given the home directory if
/// there is one: that directory, or `/`.
pub fn start_dir_from(home: Option<String>) -> (dir: String)
    ensures
        match home {
            Some(h) => dir == h,
            None => dir@ == "/"@,
        },
{
    match home {
        Some(h) => h,
        None => String::from_str("/"),
    }
}

impl FilePanel {
    /// A panel showing the listing of `dir`, read as `items`, with an empty
    /// clipboard.
    pub fn new(dir: String, items: Vec<FileEntry>) -> (p: FilePanel)
        ensures
            p.path@ == dir@,
            listing_of(dir@, items@, p.entries@),
            p.idx == 0,
            p.selected@ == Set::<usize>::empty(),
            p.clipboard is None,
    {
        let mut p = FilePanel {
            path: String::new(),
            entries: Vec::new(),
            idx: 0,
            selected: BTreeSet::new(),
            clipboard: None,
        };
        p.load(dir, items);
        p
    }

    /// Shows the listing of `dir`, read as `items`: the parent first when
    /// there is one, then the items with directories first and by
    /// lower-cased name; the cursor goes to the top and the selection is
    /// cleared.
    pub fn load(&mut self, dir: String, items: Vec<FileEntry>)
        ensures
            final(self).path@ == dir@,
            listing_of(dir@, items@, final(self).entries@),
            final(self).idx == 0,
            final(self).selected@ == Set::<usize>::empty(),
            final(self).clipboard == old(self).clipboard,
    {
        let sorted = sort_listing(items);
        let entries = with_parent(parent_of(dir.as_str()), sorted);
        self.path = dir;
        self.entries = entries;
        self.idx = 0;
        self.selected = BTreeSet::new();
    }

    /// Moves the cursor up one entry, unless it is at the top.
    pub fn move_up(&mut self)
        ensures
            *final(self) == (FilePanel {
                idx: if old(self).entries.len() > 0 { step_up(old(self).idx) } else { old(self).idx },
                ..*old(self)
            }),
    {
        if self.entries.len() > 0 && self.idx > 0 {
            self.idx = self.idx - 1;
        }
    }

    /// Moves the cursor down one entry, unless it is on the last one.
    pub fn move_down(&mut self)
        ensures
            *final(self) == (FilePanel { idx: step_down(old(self).idx, old(self).entries@.len()), ..*old(self) }),
    {
        if self.idx < self.entries.len() && self.idx + 1 < self.entries.len() {
            self.idx = self.idx + 1;
        }
    }

    /// The entry under the cursor.
    pub fn current(&self) -> (r: Option<&FileEntry>)
        ensures
            r matches Some(e) ==> self.idx < self.entries.len() && *e == self.entries@[self.idx as int],
            r is None ==> self.idx >= self.entries.len(),
    {
        if self.idx < self.entries.len() {
            Some(&self.entries[self.idx])
        } else {
            None
        }
    }

    /// What Enter does on the entry under the cursor: list a directory,
    /// open a file, nothing when there is no entry.
    pub fn enter(&self) -> (eff: Effect)
        ensures
            self.idx < self.entries.len() && self.entries@[self.idx as int].is_dir ==> (eff matches Effect::ListDir { dir } && dir@ == self.entries@[self.idx as int].path@),
            self.idx < self.entries.len() && !self.entries@[self.idx as int].is_dir ==> (eff matches Effect::OpenFile { path } && path@ == self.entries@[self.idx as int].path@),
            self.idx >= self.entries.len() ==> eff is Nothing,
    {
        if self.idx < self.entries.len() {
            let e = &self.entries[self.idx];
            if e.is_dir {
                Effect::ListDir { dir: e.path.clone() }
            } else {
                Effect::OpenFile { path: e.path.clone() }
            }
        } else {
            Effect::Nothing
        }
    }

    /// The directory that Backspace goes to: the parent of the one shown.
    pub fn go_back(&self) -> (r: Option<String>)
        ensures
            match r {
                Some(d) => path_parent(self.path@) == Some(d@),
                None => path_parent(self.path@) is None,
            },
    {
        parent_of(self.path.as_str())
    }

    /// Selects the entry under the cursor, or unselects it when it was
    /// selected, then moves the cursor down.
    pub fn toggle_select(&mut self)
        ensures
            final(self).selected@ == if old(self).selected@.contains(old(self).idx) {
                old(self).selected@.remove(old(self).idx)
            } else {
                old(self).selected@.insert(old(self).idx)
            },
            final(self).idx == step_down(old(self).idx, old(self).entries@.len()),
            final(self).path == old(self).path,
            final(self).entries == old(self).entries,
            final(self).clipboard == old(self).clipboard,
    {
        let i = self.idx;
        if self.selected.contains(&i) {
            self.selected.remove(&i);
        } else {
            self.selected.insert(i);
        }
        self.move_down();
    }

    /// The paths that file operations act on (see `targets_of`).
    pub fn targets(&self) -> (r: Vec<String>)
        ensures
            string_views(r@) == targets_of(*self),
    {
        if !self.selected.is_empty() {
            let mut r: Vec<String> = Vec::new();
            let mut i: usize = 0;
            while i < self.entries.len()
                invariant
                    i <= self.entries.len(),
                    string_views(r@) == selected_paths(
                        self.entries@,
                        self.selected@,
                        self.path@,
                        i as int,
                    ),
                decreases self.entries.len() - i,
            {
                let ghost old_r = string_views(r@);
                if self.selected.contains(&i) && self.entries[i].path != self.path {
                    r.push(self.entries[i].path.clone());
                    proof {
                        assert(string_views(r@) =~= old_r.push(self.entries@[i as int].path@));
                    }
                }
                i = i + 1;
            }
            r
        } else {
            let mut r: Vec<String> = Vec::new();
            if self.idx < self.entries.len() {
                let p = &self.entries[self.idx].path;
                if parent_of(p.as_str()).is_some() {
                    r.push(p.clone());
                    proof {
                        assert(string_views(r@) =~= seq![self.entries@[self.idx as int].path@]);
                    }
                }
            }
            proof {
                if string_views(r@).len() == 0 {
                    assert(string_views(r@) =~= Seq::<Seq<char>>::empty());
                }
            }
            r
        }
    }

    /// Puts the targets on the clipboard to be copied, unless there are
    /// none.
    pub fn copy_files(&mut self)
        ensures
            targets_of(*old(self)).len() > 0 ==> (final(self).clipboard matches Some(c) && c.op
                == ClipOp::Copy && string_views(c.paths@) == targets_of(*old(self))),
            targets_of(*old(self)).len() == 0 ==> final(self).clipboard == old(self).clipboard,
            *final(self) == (FilePanel { clipboard: final(self).clipboard, ..*old(self) }),
    {
        let t = self.targets();
        if t.len() > 0 {
            self.clipboard = Some(Clipboard { op: ClipOp::Copy, paths: t });
        }
    }

    /// Puts the targets on the clipboard to be moved, unless there are
    /// none.
    pub fn cut_files(&mut self)
        ensures
            targets_of(*old(self)).len() > 0 ==> (final(self).clipboard matches Some(c) && c.op
                == ClipOp::Cut && string_views(c.paths@) == targets_of(*old(self))),
            targets_of(*old(self)).len() == 0 ==> final(self).clipboard == old(self).clipboard,
            *final(self) == (FilePanel { clipboard: final(self).clipboard, ..*old(self) }),
    {
        let t = self.targets();
        if t.len() > 0 {
            self.clipboard = Some(Clipboard { op: ClipOp::Cut, paths: t });
        }
    }
}

/// The archive kind that an already lower-cased name shows: `.tar.gz` or
/// `.tgz` for a gzipped tar, `.zip` for a zip, else none.
pub open spec fn lower_archive_kind(l: Seq<char>) -> Option<ArchiveKind> {
    if has_suffix(l, ".tar.gz"@) || has_suffix(l, ".tgz"@) {
        Some(ArchiveKind::TarGz)
    } else if has_suffix(l, ".zip"@) {
        Some(ArchiveKind::Zip)
    } else {
        None
    }
}

/// The archive kind a path's lower-cased name shows, if any.
pub open spec fn archive_kind(p: Seq<char>) -> Option<ArchiveKind> {
    lower_archive_kind(lowercase(p))
}

/// The archive kind that an already lower-cased name shows (see
/// `lower_archive_kind`).
pub fn archive_kind_of(lowered: &str) -> (r: Option<ArchiveKind>)
    ensures
        r == lower_archive_kind(lowered@),
{
    let low = chars_of(lowered);
    if ends_with(&low, &chars_of(".tar.gz")) || ends_with(&low, &chars_of(".tgz")) {
        Some(ArchiveKind::TarGz)
    } else if ends_with(&low, &chars_of(".zip")) {
        Some(ArchiveKind::Zip)
    } else {
        None
    }
}

/// The archive kind a path's lower-cased name shows.
fn archive_of(p: &String) -> (r: Option<ArchiveKind>)
    ensures
        r == archive_kind(p@),
{
    archive_kind_of(to_lower(p.as_str()).as_str())
}

impl FilePanel {
    /// What `v` asks for: copy the clipboard's paths into the directory
    /// shown, moving them when they were cut; an error when the clipboard
    /// is empty.
    pub fn paste_files(&self) -> (r: Result<Effect, String>)
        ensures
            match self.clipboard {
                Some(c) => r matches Ok(Effect::Paste { paths, cut, dest }) && paths@ == c.paths@ && cut
                    == (c.op == ClipOp::Cut) && dest@ == self.path@,
                None => r matches Err(e) && e@ == "Clipboard empty"@,
            },
    {
        match &self.clipboard {
            Some(c) => Ok(
                Effect::Paste {
                    paths: copy_strings(&c.paths),
                    cut: c.op == ClipOp::Cut,
                    dest: self.path.clone(),
                },
            ),
            None => Err(String::from_str("Clipboard empty")),
        }
    }

    /// What deleting asks for: remove the targets, then list the directory
    /// shown again.
    pub fn delete_files(&self) -> (eff: Effect)
        ensures
            eff matches Effect::DeleteFiles { paths, dir } && string_views(paths@) == targets_of(*self)
                && dir@ == self.path@,
    {
        Effect::DeleteFiles { paths: self.targets(), dir: self.path.clone() }
    }

    /// What renaming asks for: give the first target the name `new_name`
    /// inside the directory shown (nothing to rename when there is no
    /// target), then list the directory again.
    pub fn rename_file(&self, new_name: String) -> (eff: Effect)
        ensures
            eff matches Effect::Rename { from, dir, to } && to == new_name && dir@ == self.path@ && if targets_of(
                *self,
            ).len() > 0 {
                from matches Some(f) && f@ == targets_of(*self)[0]
            } else {
                from is None
            },
    {
        let t = self.targets();
        let from = if t.len() > 0 {
            Some(t[0].clone())
        } else {
            None
        };
        Effect::Rename { from, dir: self.path.clone(), to: new_name }
    }

    /// What a new folder asks for: create `name` inside the directory
    /// shown, then list it again.
    pub fn new_folder(&self, name: String) -> (eff: Effect)
        ensures
            eff matches Effect::NewFolder { dir, name: n } && dir@ == self.path@ && n == name,
    {
        Effect::NewFolder { dir: self.path.clone(), name }
    }

    /// What chmod asks for: set the permission bits written in octal on
    /// the targets; nothing when the text is no octal `u32`.
    pub fn chmod_file(&self, mode_str: &str) -> (eff: Effect)
        ensures
            match parse_u32_spec(mode_str@, 8) {
                Some(m) => eff matches Effect::Chmod { paths, mode } && string_views(paths@) == targets_of(*self)
                    && mode == m,
                None => eff is Nothing,
            },
    {
        match parse_u32(&chars_of(mode_str), 8) {
            Some(m) => Effect::Chmod { paths: self.targets(), mode: m },
            None => Effect::Nothing,
        }
    }

    /// What compressing asks for: pack the targets into the archive `name`
    /// inside the directory shown, with `zip` when the name ends in
    /// `.zip`, else as a gzipped tar; nothing when there is no target.
    pub fn compress(&self, name: String) -> (eff: Effect)
        ensures
            if targets_of(*self).len() > 0 {
                eff matches Effect::Compress { paths, dir, name: n, zip } && string_views(paths@) == targets_of(
                    *self,
                ) && dir@ == self.path@ && n == name && zip == has_suffix(name@, ".zip"@)
            } else {
                eff is Nothing
            },
    {
        let t = self.targets();
        if t.len() > 0 {
            let zip = ends_with(&chars_of(name.as_str()), &chars_of(".zip"));
            Effect::Compress { paths: t, dir: self.path.clone(), name, zip }
        } else {
            Effect::Nothing
        }
    }

    /// What extracting asks for: unpack the first target into the
    /// directory shown when its name shows an archive, then list the
    /// directory again.
    pub fn extract(&self) -> (eff: Effect)
        ensures
            eff matches Effect::Extract { archive, dir } && dir@ == self.path@ && if targets_of(*self).len() > 0
                && archive_kind(targets_of(*self)[0]) is Some {
                archive matches Some((p, k)) && p@ == targets_of(*self)[0] && k == archive_kind(
                    targets_of(*self)[0],
                )->0
            } else {
                archive is None
            },
    {
        let t = self.targets();
        let archive = if t.len() > 0 {
            match archive_of(&t[0]) {
                Some(k) => Some((t[0].clone(), k)),
                None => None,
            }
        } else {
            None
        };
        Effect::Extract { archive, dir: self.path.clone() }
    }

    /// What a preview asks for: inspect the first target; nothing when
    /// there is none.
    pub fn preview(&self) -> (eff: Effect)
        ensures
            if targets_of(*self).len() > 0 {
                eff matches Effect::Preview { path } && path@ == targets_of(*self)[0]
            } else {
                eff is Nothing
            },
    {
        let t = self.targets();
        if t.len() > 0 {
            Effect::Preview { path: t[0].clone() }
        } else {
            Effect::Nothing
        }
    }

    /// What opening with a program asks for: start `program` on the first
    /// target; nothing when there is none.
    pub fn open_with(&self, program: String) -> (eff: Effect)
        ensures
            if targets_of(*self).len() > 0 {
                eff matches Effect::OpenWith { program: p, path } && p == program && path@ == targets_of(*self)[0]
            } else {
                eff is Nothing
            },
    {
        let t = self.targets();
        if t.len() > 0 {
            Effect::OpenWith { program, path: t[0].clone() }
        } else {
            Effect::Nothing
        }
    }
}

/// The name a path is shown by in a question or a preview: its final
/// component, or nothing.
pub open spec fn target_name(p: Seq<char>) -> Seq<char> {
    match path_file_name(p) {
        Some(n) => n,
        None => Seq::empty(),
    }
}

/// The longest text a preview shows of a file, in bytes.
pub const PREVIEW_BYTES: usize = 1200;

/// The most entries a preview shows of a directory.
pub const PREVIEW_ENTRIES: usize = 20;

/// What a preview of `path` shows: for a directory its name, a slash and
/// its first twenty entries, indented; for text its name, a rule of forty
/// `─` and its first 1200 bytes; else a note and the size.
pub open spec fn preview_text(path: Seq<char>, src: PreviewSource) -> Seq<char> {
    match src {
        PreviewSource::Directory { entries } => target_name(path) + "/\n"@ + join(
            first_n(entries@.map_values(|e: String| "  "@ + e@), PREVIEW_ENTRIES as nat),
            "\n"@,
        ),
        PreviewSource::Text { content } => target_name(path) + "\n"@ + Seq::new(40, |i: int| '─') + "\n"@
            + byte_prefix(content@, PREVIEW_BYTES as nat),
        PreviewSource::Binary { size } => "[Binary file]\n"@ + decimal(size as nat) + " bytes"@,
    }
}

/// Whether a preview can be made of what was found: the first 1200 bytes
/// of a text must end on a character boundary.
pub open spec fn previewable(src: PreviewSource) -> bool {
    match src {
        PreviewSource::Text { content } => cuts_at_boundary(content@, PREVIEW_BYTES as nat),
        _ => true,
    }
}

/// The text of a preview of `path` (see `preview_text`).
pub fn preview_body(path: &str, src: &PreviewSource) -> (r: String)
    requires
        previewable(*src),
    ensures
        r@ == preview_text(path@, *src),
{
    let name = match file_name_of(path) {
        Some(n) => chars_of(n.as_str()),
        None => Vec::new(),
    };
    match src {
        PreviewSource::Directory { entries } => {
            let n = if entries.len() < PREVIEW_ENTRIES { entries.len() } else { PREVIEW_ENTRIES };
            let ghost all = entries@.map_values(|e: String| "  "@ + e@);
            let mut lines: Vec<Vec<char>> = Vec::new();
            let mut i: usize = 0;
            while i < n
                invariant
                    n <= entries.len(),
                    i <= n,
                    all == entries@.map_values(|e: String| "  "@ + e@),
                    lines.len() == i,
                    forall|k: int| 0 <= k < i ==> #[trigger] lines@[k]@ == all[k],
                decreases n - i,
            {
                lines.push(crate::text::concat("  ", entries[i].as_str()));
                i = i + 1;
            }
            let mut v = name;
            extend(&mut v, &chars_of("/\n"));
            extend(&mut v, &join_first(&lines, n, &chars_of("\n")));
            proof {
                assert(views(lines@).subrange(0, n as int) =~= first_n(all, PREVIEW_ENTRIES as nat));
            }
            to_string(&v)
        },
        PreviewSource::Text { content } => {
            let mut v = name;
            extend(&mut v, &chars_of("\n"));
            let mut rule: Vec<char> = Vec::new();
            let mut i: usize = 0;
            while i < 40
                invariant
                    i <= 40,
                    rule@ == Seq::new(i as nat, |k: int| '─'),
                decreases 40 - i,
            {
                rule.push('─');
                i = i + 1;
                proof {
                    assert(rule@ =~= Seq::new(i as nat, |k: int| '─'));
                }
            }
            extend(&mut v, &rule);
            extend(&mut v, &chars_of("\n"));
            extend(&mut v, &prefix_bytes(&chars_of(content.as_str()), PREVIEW_BYTES));
            to_string(&v)
        },
        PreviewSource::Binary { size } => {
            let mut v = chars_of("[Binary file]\n");
            extend(&mut v, &decimal_chars(*size));
            extend(&mut v, &chars_of(" bytes"));
            to_string(&v)
        },
    }
}

} // verus!
