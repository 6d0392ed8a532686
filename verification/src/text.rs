//! Text handling over character sequences: lines, fields, words, numbers.
//!
//! Every executable function here works on `Vec<char>` and is specified by a
//! spec function over `Seq<char>` that states the meaning of the operation
//! directly (splitting at a separator, dropping empty pieces, and so on).

use vstd::prelude::*;
use crate::outside::push_char;
use vstd::utf8::{encode_scalar, encode_utf8};

verus! {

/// The characters of a string slice, in order (`s.chars().collect()`).
pub fn chars_of(s: &str) -> (v: Vec<char>)
    ensures
        v@ == s@,
{
    broadcast use vstd::string::axiom_spec_iter;

    let mut v: Vec<char> = Vec::new();
    for c in it: s.chars()
        invariant
            v@ == it.seq().take(it.index() as int),
            it.seq() == s@,
    {
        v.push(c);
    }
    v
}

// ───────────────────────────── characters ─────────────────────────────

/// Unicode `White_Space` code points: exactly the characters for which
/// `char::is_whitespace` holds, and those that `str::trim` and
/// `str::split_whitespace` treat as blanks.
pub open spec fn is_ws(c: char) -> bool {
    let u = c as u32;
    ||| 0x09 <= u <= 0x0d
    ||| u == 0x20
    ||| u == 0x85
    ||| u == 0xa0
    ||| u == 0x1680
    ||| 0x2000 <= u <= 0x200a
    ||| u == 0x2028
    ||| u == 0x2029
    ||| u == 0x202f
    ||| u == 0x205f
    ||| u == 0x3000
}

/// Whether `c` is Unicode white space.
pub fn is_whitespace(c: char) -> (b: bool)
    ensures
        b == is_ws(c),
{
    let u = c as u32;
    (0x09 <= u && u <= 0x0d) || u == 0x20 || u == 0x85 || u == 0xa0 || u == 0x1680 || (0x2000
        <= u && u <= 0x200a) || u == 0x2028 || u == 0x2029 || u == 0x202f || u == 0x205f || u
        == 0x3000
}

/// A string whose `trim()` is empty: every character is white space.
pub open spec fn is_blank(s: Seq<char>) -> bool {
    forall|i: int| 0 <= i < s.len() ==> is_ws(#[trigger] s[i])
}

/// Whether every character of `v` is white space.
pub fn blank(v: &Vec<char>) -> (b: bool)
    ensures
        b == is_blank(v@),
{
    let mut i: usize = 0;
    while i < v.len()
        invariant
            i <= v.len(),
            forall|j: int| 0 <= j < i ==> is_ws(#[trigger] v@[j]),
        decreases v.len() - i,
    {
        if !is_whitespace(v[i]) {
            return false;
        }
        i = i + 1;
    }
    true
}

// ───────────────────────────── splitting ──────────────────────────────

/// The pieces of `s` between occurrences of the separator `c`, as
/// `str::split(c)` yields them: `k` separators give `k + 1` pieces, some
/// of which may be empty.
pub open spec fn split_at(s: Seq<char>, c: char) -> Seq<Seq<char>>
    decreases s.len(),
{
    if s.len() == 0 {
        seq![Seq::<char>::empty()]
    } else if s[0] == c {
        seq![Seq::<char>::empty()] + split_at(s.drop_first(), c)
    } else {
        let rest = split_at(s.drop_first(), c);
        rest.update(0, seq![s[0]] + rest[0])
    }
}

/// The pieces of `s` between white-space characters (some may be empty).
pub open spec fn split_ws(s: Seq<char>) -> Seq<Seq<char>>
    decreases s.len(),
{
    if s.len() == 0 {
        seq![Seq::<char>::empty()]
    } else if is_ws(s[0]) {
        seq![Seq::<char>::empty()] + split_ws(s.drop_first())
    } else {
        let rest = split_ws(s.drop_first());
        rest.update(0, seq![s[0]] + rest[0])
    }
}

/// The words of `s`, as `str::split_whitespace` yields them: the non-empty
/// runs of non-blank characters.
pub open spec fn words(s: Seq<char>) -> Seq<Seq<char>> {
    split_ws(s).filter(|w: Seq<char>| w.len() > 0)
}

/// The first word of `s`, as `s.split_whitespace().next()` gives it.
pub open spec fn first_word(s: Seq<char>) -> Option<Seq<char>> {
    if words(s).len() > 0 {
        Some(words(s)[0])
    } else {
        None
    }
}

proof fn lemma_split_at_len(s: Seq<char>, c: char)
    ensures
        split_at(s, c).len() >= 1,
    decreases s.len(),
{
    if s.len() > 0 {
        lemma_split_at_len(s.drop_first(), c);
    }
}

proof fn lemma_split_ws_len(s: Seq<char>)
    ensures
        split_ws(s).len() >= 1,
    decreases s.len(),
{
    if s.len() > 0 {
        lemma_split_ws_len(s.drop_first());
    }
}

/// Splitting the tail `s[i..]`, where `s[i]` is not the separator, puts
/// `s[i]` in front of the first piece of `s[i+1..]`.
proof fn lemma_split_at_step(s: Seq<char>, c: char, i: int)
    requires
        0 <= i < s.len(),
    ensures
        s[i] == c ==> split_at(s.subrange(i, s.len() as int), c) == seq![Seq::<char>::empty()]
            + split_at(s.subrange(i + 1, s.len() as int), c),
        s[i] != c ==> split_at(s.subrange(i, s.len() as int), c) == split_at(
            s.subrange(i + 1, s.len() as int),
            c,
        ).update(0, seq![s[i]] + split_at(s.subrange(i + 1, s.len() as int), c)[0]),
{
    let t = s.subrange(i, s.len() as int);
    assert(t.drop_first() =~= s.subrange(i + 1, s.len() as int));
    assert(t[0] == s[i]);
}

proof fn lemma_split_ws_step(s: Seq<char>, i: int)
    requires
        0 <= i < s.len(),
    ensures
        is_ws(s[i]) ==> split_ws(s.subrange(i, s.len() as int)) == seq![Seq::<char>::empty()]
            + split_ws(s.subrange(i + 1, s.len() as int)),
        !is_ws(s[i]) ==> split_ws(s.subrange(i, s.len() as int)) == split_ws(
            s.subrange(i + 1, s.len() as int),
        ).update(0, seq![s[i]] + split_ws(s.subrange(i + 1, s.len() as int))[0]),
{
    let t = s.subrange(i, s.len() as int);
    assert(t.drop_first() =~= s.subrange(i + 1, s.len() as int));
    assert(t[0] == s[i]);
}

/// `split_at` with the first piece extended by a prefix `cur`.
pub open spec fn with_head(cur: Seq<char>, pieces: Seq<Seq<char>>) -> Seq<Seq<char>> {
    pieces.update(0, cur + pieces[0])
}

/// The views of a vector of character vectors.
pub open spec fn views(v: Seq<Vec<char>>) -> Seq<Seq<char>> {
    v.map_values(|x: Vec<char>| x@)
}

/// A copy of `v[start..end]`.
pub fn slice(v: &Vec<char>, start: usize, end: usize) -> (r: Vec<char>)
    requires
        start <= end <= v.len(),
    ensures
        r@ == v@.subrange(start as int, end as int),
{
    let mut r: Vec<char> = Vec::new();
    let mut i = start;
    while i < end
        invariant
            start <= i <= end <= v.len(),
            r@ == v@.subrange(start as int, i as int),
        decreases end - i,
    {
        r.push(v[i]);
        i = i + 1;
        assert(r@ =~= v@.subrange(start as int, i as int));
    }
    r
}

/// The pieces of `v` between occurrences of `c` (`str::split`).
pub fn split_char(v: &Vec<char>, c: char) -> (r: Vec<Vec<char>>)
    ensures
        views(r@) == split_at(v@, c),
{
    let mut done: Vec<Vec<char>> = Vec::new();
    let mut start: usize = 0;
    let mut i: usize = 0;
    let n = v.len();
    proof {
        lemma_split_at_len(v@, c);
        assert(v@.subrange(0, n as int) =~= v@);
        assert(v@.subrange(0, 0) =~= Seq::<char>::empty());
        assert(with_head(Seq::<char>::empty(), split_at(v@, c)) =~= split_at(v@, c));
        assert(views(done@) + split_at(v@, c) =~= split_at(v@, c));
    }
    while i < n
        invariant
            n == v.len(),
            start <= i <= n,
            views(done@) + with_head(
                v@.subrange(start as int, i as int),
                split_at(v@.subrange(i as int, n as int), c),
            ) == split_at(v@, c),
        decreases n - i,
    {
        let ghost cur = v@.subrange(start as int, i as int);
        let ghost tail = split_at(v@.subrange(i as int + 1, n as int), c);
        proof {
            lemma_split_at_step(v@, c, i as int);
            lemma_split_at_len(v@.subrange(i as int + 1, n as int), c);
        }
        if v[i] == c {
            let piece = slice(v, start, i);
            let ghost old_done = views(done@);
            done.push(piece);
            proof {
                assert(views(done@) =~= old_done.push(cur));
                assert(with_head(cur, seq![Seq::<char>::empty()] + tail) =~= seq![cur] + tail);
                assert(v@.subrange(i as int + 1, i as int + 1) =~= Seq::<char>::empty());
                assert(with_head(Seq::<char>::empty(), tail) =~= tail);
                assert(old_done + (seq![cur] + tail) =~= old_done.push(cur) + tail);
            }
            start = i + 1;
        } else {
            proof {
                assert(v@.subrange(start as int, i as int + 1) =~= cur.push(v@[i as int]));
                assert(cur + (seq![v@[i as int]] + tail[0]) =~= cur.push(v@[i as int]) + tail[0]);
                assert(with_head(cur, tail.update(0, seq![v@[i as int]] + tail[0])) =~= with_head(
                    cur.push(v@[i as int]),
                    tail,
                ));
            }
        }
        i = i + 1;
    }
    let last = slice(v, start, n);
    proof {
        assert(v@.subrange(n as int, n as int) =~= Seq::<char>::empty());
    }
    let ghost old_done = views(done@);
    done.push(last);
    proof {
        assert(views(done@) =~= old_done.push(last@));
        assert(with_head(last@, seq![Seq::<char>::empty()]) =~= seq![last@]);
        assert(old_done + seq![last@] =~= old_done.push(last@));
    }
    done
}

/// The pieces of `v` between white-space characters, empty ones included.
pub fn split_blank(v: &Vec<char>) -> (r: Vec<Vec<char>>)
    ensures
        views(r@) == split_ws(v@),
{
    let mut done: Vec<Vec<char>> = Vec::new();
    let mut start: usize = 0;
    let mut i: usize = 0;
    let n = v.len();
    proof {
        lemma_split_ws_len(v@);
        assert(v@.subrange(0, n as int) =~= v@);
        assert(v@.subrange(0, 0) =~= Seq::<char>::empty());
        assert(with_head(Seq::<char>::empty(), split_ws(v@)) =~= split_ws(v@));
        assert(views(done@) + split_ws(v@) =~= split_ws(v@));
    }
    while i < n
        invariant
            n == v.len(),
            start <= i <= n,
            views(done@) + with_head(
                v@.subrange(start as int, i as int),
                split_ws(v@.subrange(i as int, n as int)),
            ) == split_ws(v@),
        decreases n - i,
    {
        let ghost cur = v@.subrange(start as int, i as int);
        let ghost tail = split_ws(v@.subrange(i as int + 1, n as int));
        proof {
            lemma_split_ws_step(v@, i as int);
            lemma_split_ws_len(v@.subrange(i as int + 1, n as int));
        }
        if is_whitespace(v[i]) {
            let piece = slice(v, start, i);
            let ghost old_done = views(done@);
            done.push(piece);
            proof {
                assert(views(done@) =~= old_done.push(cur));
                assert(with_head(cur, seq![Seq::<char>::empty()] + tail) =~= seq![cur] + tail);
                assert(v@.subrange(i as int + 1, i as int + 1) =~= Seq::<char>::empty());
                assert(with_head(Seq::<char>::empty(), tail) =~= tail);
                assert(old_done + (seq![cur] + tail) =~= old_done.push(cur) + tail);
            }
            start = i + 1;
        } else {
            proof {
                assert(v@.subrange(start as int, i as int + 1) =~= cur.push(v@[i as int]));
                assert(cur + (seq![v@[i as int]] + tail[0]) =~= cur.push(v@[i as int]) + tail[0]);
                assert(with_head(cur, tail.update(0, seq![v@[i as int]] + tail[0])) =~= with_head(
                    cur.push(v@[i as int]),
                    tail,
                ));
            }
        }
        i = i + 1;
    }
    let last = slice(v, start, n);
    proof {
        assert(v@.subrange(n as int, n as int) =~= Seq::<char>::empty());
    }
    let ghost old_done = views(done@);
    done.push(last);
    proof {
        assert(views(done@) =~= old_done.push(last@));
        assert(with_head(last@, seq![Seq::<char>::empty()]) =~= seq![last@]);
        assert(old_done + seq![last@] =~= old_done.push(last@));
    }
    done
}

/// The words of `v` (`str::split_whitespace`).
pub fn words_of(v: &Vec<char>) -> (r: Vec<Vec<char>>)
    ensures
        views(r@) == words(v@),
{
    let pieces = split_blank(v);
    let ghost all = views(pieces@);
    let mut r: Vec<Vec<char>> = Vec::new();
    let mut i: usize = 0;
    proof {
        assert(all.subrange(0, 0).filter(|w: Seq<char>| w.len() > 0) =~= Seq::<Seq<char>>::empty());
    }
    while i < pieces.len()
        invariant
            i <= pieces.len(),
            all == views(pieces@),
            all == split_ws(v@),
            views(r@) == all.subrange(0, i as int).filter(|w: Seq<char>| w.len() > 0),
        decreases pieces.len() - i,
    {
        proof {
            assert(all.subrange(0, i as int + 1).drop_last() =~= all.subrange(0, i as int));
            reveal_with_fuel(Seq::filter, 1);
        }
        if pieces[i].len() > 0 {
            let w = slice(&pieces[i], 0, pieces[i].len());
            proof {
                assert(w@ =~= all[i as int]);
            }
            let ghost old_r = views(r@);
            r.push(w);
            proof {
                assert(views(r@) =~= old_r.push(all[i as int]));
            }
        }
        i = i + 1;
    }
    proof {
        assert(all.subrange(0, pieces.len() as int) =~= all);
    }
    r
}

// ───────────────────────────── lines ──────────────────────────────────

/// A line with one trailing carriage return removed.
pub open spec fn strip_cr(l: Seq<char>) -> Seq<char> {
    if l.len() > 0 && l.last() == '\r' {
        l.drop_last()
    } else {
        l
    }
}

/// The lines of `s`, as `str::lines` yields them: pieces ended by `\n`
/// (with a `\r` right before the `\n` removed), then the unterminated rest
/// if it is not empty.
pub open spec fn lines(s: Seq<char>) -> Seq<Seq<char>> {
    let p = split_at(s, '\n');
    let init = p.drop_last().map_values(|l: Seq<char>| strip_cr(l));
    if p.last().len() == 0 {
        init
    } else {
        init.push(p.last())
    }
}

/// The lines of `v` (`str::lines`).
pub fn lines_of(v: &Vec<char>) -> (r: Vec<Vec<char>>)
    ensures
        views(r@) == lines(v@),
{
    let pieces = split_char(v, '\n');
    let ghost p = views(pieces@);
    proof {
        lemma_split_at_len(v@, '\n');
    }
    let k = pieces.len() - 1;
    let mut r: Vec<Vec<char>> = Vec::new();
    let mut i: usize = 0;
    while i < k
        invariant
            k + 1 == pieces.len(),
            p == views(pieces@),
            i <= k,
            views(r@) == p.subrange(0, i as int).map_values(|l: Seq<char>| strip_cr(l)),
        decreases k - i,
    {
        let len = pieces[i].len();
        let end = if len > 0 && pieces[i][len - 1] == '\r' { len - 1 } else { len };
        let line = slice(&pieces[i], 0, end);
        proof {
            assert(p[i as int] == pieces@[i as int]@);
            assert(line@ =~= strip_cr(p[i as int]));
        }
        let ghost old_r = views(r@);
        r.push(line);
        i = i + 1;
        proof {
            assert(views(r@) =~= old_r.push(line@));
            assert(p.subrange(0, i as int).map_values(|l: Seq<char>| strip_cr(l)) =~= p.subrange(
                0,
                i - 1,
            ).map_values(|l: Seq<char>| strip_cr(l)).push(strip_cr(p[i - 1])));
        }
    }
    proof {
        assert(p.subrange(0, k as int) =~= p.drop_last());
    }
    if pieces[k].len() > 0 {
        let last = slice(&pieces[k], 0, pieces[k].len());
        let ghost old_r = views(r@);
        r.push(last);
        proof {
            assert(last@ =~= p.last());
            assert(views(r@) =~= old_r.push(p.last()));
        }
    }
    r
}

// ───────────────────────────── prefixes and suffixes ──────────────────

/// Whether `s` begins with `p`.
pub open spec fn has_prefix(s: Seq<char>, p: Seq<char>) -> bool {
    p.len() <= s.len() && s.subrange(0, p.len() as int) == p
}

/// Whether `s` ends with `p`.
pub open spec fn has_suffix(s: Seq<char>, p: Seq<char>) -> bool {
    p.len() <= s.len() && s.subrange(s.len() - p.len(), s.len() as int) == p
}

/// Whether `v` begins with `p`.
pub fn starts_with(v: &Vec<char>, p: &Vec<char>) -> (b: bool)
    ensures
        b == has_prefix(v@, p@),
{
    if p.len() > v.len() {
        return false;
    }
    let mut i: usize = 0;
    while i < p.len()
        invariant
            p.len() <= v.len(),
            i <= p.len(),
            forall|j: int| 0 <= j < i ==> v@[j] == p@[j],
        decreases p.len() - i,
    {
        if v[i] != p[i] {
            proof {
                assert(v@.subrange(0, p.len() as int)[i as int] != p@[i as int]);
            }
            return false;
        }
        i = i + 1;
    }
    proof {
        assert(v@.subrange(0, p.len() as int) =~= p@);
    }
    true
}

/// Whether `v` ends with `p`.
pub fn ends_with(v: &Vec<char>, p: &Vec<char>) -> (b: bool)
    ensures
        b == has_suffix(v@, p@),
{
    if p.len() > v.len() {
        return false;
    }
    let off = v.len() - p.len();
    let mut i: usize = 0;
    while i < p.len()
        invariant
            p.len() <= v.len(),
            off == v.len() - p.len(),
            i <= p.len(),
            forall|j: int| 0 <= j < i ==> v@[off + j] == p@[j],
        decreases p.len() - i,
    {
        if v[off + i] != p[i] {
            proof {
                assert(v@.subrange(off as int, v.len() as int)[i as int] != p@[i as int]);
            }
            return false;
        }
        i = i + 1;
    }
    proof {
        assert(v@.subrange(off as int, v.len() as int) =~= p@);
    }
    true
}

/// `s` with every trailing copy of `p` removed (`str::trim_end_matches`
/// with a non-empty string pattern).
pub open spec fn trim_suffix(s: Seq<char>, p: Seq<char>) -> Seq<char>
    decreases s.len(),
{
    if p.len() > 0 && has_suffix(s, p) {
        trim_suffix(s.subrange(0, s.len() - p.len()), p)
    } else {
        s
    }
}

/// `v` with every trailing copy of the non-empty `p` removed.
pub fn trim_end_matches(v: &Vec<char>, p: &Vec<char>) -> (r: Vec<char>)
    requires
        p.len() > 0,
    ensures
        r@ == trim_suffix(v@, p@),
{
    let mut end = v.len();
    let mut cur = slice(v, 0, end);
    proof {
        assert(cur@ =~= v@);
    }
    while ends_with(&cur, p)
        invariant
            p.len() > 0,
            end <= v.len(),
            cur@ == v@.subrange(0, end as int),
            trim_suffix(cur@, p@) == trim_suffix(v@, p@),
        decreases end,
    {
        end = end - p.len();
        let next = slice(v, 0, end);
        proof {
            assert(next@ =~= cur@.subrange(0, cur@.len() - p@.len()));
        }
        cur = next;
    }
    cur
}

/// The last piece of `s` split at `c` (`s.split(c).last()`, which is
/// also `s.rsplit(c).next()`).
pub open spec fn last_piece(s: Seq<char>, c: char) -> Seq<char> {
    split_at(s, c).last()
}

/// The characters after the last `c` in `v`, or all of `v` when it holds
/// no `c`.
pub fn after_last(v: &Vec<char>, c: char) -> (r: Vec<char>)
    ensures
        r@ == last_piece(v@, c),
{
    let pieces = split_char(v, c);
    proof {
        lemma_split_at_len(v@, c);
    }
    let k = pieces.len() - 1;
    let r = slice(&pieces[k], 0, pieces[k].len());
    proof {
        assert(r@ =~= views(pieces@)[k as int]);
    }
    r
}

// ───────────────────────────── joining ────────────────────────────────

/// The pieces of `parts` with `sep` between consecutive ones
/// (`[&str]::join`).
pub open spec fn join(parts: Seq<Seq<char>>, sep: Seq<char>) -> Seq<char>
    decreases parts.len(),
{
    if parts.len() == 0 {
        Seq::empty()
    } else if parts.len() == 1 {
        parts[0]
    } else {
        join(parts.drop_last(), sep) + sep + parts.last()
    }
}

/// Appends the characters of `src` to `dst`.
pub fn extend(dst: &mut Vec<char>, src: &Vec<char>)
    ensures
        final(dst)@ == old(dst)@ + src@,
{
    let mut i: usize = 0;
    while i < src.len()
        invariant
            i <= src.len(),
            dst@ == old(dst)@ + src@.subrange(0, i as int),
        decreases src.len() - i,
    {
        dst.push(src[i]);
        i = i + 1;
        proof {
            assert(dst@ =~= old(dst)@ + src@.subrange(0, i as int));
        }
    }
    proof {
        assert(src@.subrange(0, src.len() as int) =~= src@);
    }
}

/// The first `n` pieces of `parts` joined with `sep`.
pub fn join_first(parts: &Vec<Vec<char>>, n: usize, sep: &Vec<char>) -> (r: Vec<char>)
    requires
        n <= parts.len(),
    ensures
        r@ == join(views(parts@).subrange(0, n as int), sep@),
{
    let ghost all = views(parts@);
    let mut r: Vec<char> = Vec::new();
    let mut i: usize = 0;
    proof {
        assert(all.subrange(0, 0).len() == 0);
    }
    while i < n
        invariant
            n <= parts.len(),
            all == views(parts@),
            i <= n,
            r@ == join(all.subrange(0, i as int), sep@),
        decreases n - i,
    {
        if i > 0 {
            extend(&mut r, sep);
        }
        extend(&mut r, &parts[i]);
        i = i + 1;
        proof {
            let sub = all.subrange(0, i as int);
            assert(sub.drop_last() =~= all.subrange(0, i - 1));
            assert(sub.last() == parts@[i - 1]@);
            if i == 1 {
                assert(r@ =~= sub[0]);
            }
        }
    }
    r
}

// ───────────────────────────── numbers ────────────────────────────────

/// The ASCII digit for a value below ten.
pub open spec fn digit_char(d: nat) -> char {
    ((d + 48) as u32) as char
}

/// Decimal digits of a natural number, most significant first, without
/// leading zeros (`0` is written `"0"`).
pub open spec fn decimal(n: nat) -> Seq<char>
    decreases n,
{
    if n < 10 {
        seq![digit_char(n)]
    } else {
        decimal(n / 10).push(digit_char(n % 10))
    }
}

/// The value of a digit character in the given radix, if it is one.
pub open spec fn digit_value(c: char, radix: nat) -> Option<nat> {
    let u = c as u32;
    if 48 <= u <= 57 && ((u - 48) as nat) < radix {
        Some((u - 48) as nat)
    } else {
        None
    }
}

/// Whether every character of `s` is a digit in `radix`.
pub open spec fn all_digits(s: Seq<char>, radix: nat) -> bool {
    forall|i: int| 0 <= i < s.len() ==> (#[trigger] digit_value(s[i], radix)) is Some
}

/// The value of a string of digits in `radix`, most significant first.
pub open spec fn digits_value(s: Seq<char>, radix: nat) -> nat
    decreases s.len(),
{
    if s.len() == 0 {
        0
    } else {
        digits_value(s.drop_last(), radix) * radix + digit_value(s.last(), radix).unwrap()
    }
}

/// The digits of an unsigned number's text: the text itself, or the text
/// after one leading `+`.
pub open spec fn unsigned_digits(s: Seq<char>) -> Seq<char> {
    if s.len() > 0 && s[0] == '+' {
        s.drop_first()
    } else {
        s
    }
}

/// What `u32::from_str_radix(s, radix)` returns, for radix 8 or 10: the
/// value when `s` is an optional `+` and then at least one digit, and the
/// value fits in 32 bits.
pub open spec fn parse_u32_spec(s: Seq<char>, radix: nat) -> Option<u32> {
    let d = unsigned_digits(s);
    if d.len() > 0 && all_digits(d, radix) && digits_value(d, radix) <= u32::MAX {
        Some(digits_value(d, radix) as u32)
    } else {
        None
    }
}

proof fn lemma_digits_value_mono(s: Seq<char>, radix: nat, i: int)
    requires
        0 <= i <= s.len(),
        radix >= 1,
        all_digits(s, radix),
    ensures
        digits_value(s.subrange(0, i), radix) <= digits_value(s, radix),
    decreases s.len() - i,
{
    if i < s.len() {
        lemma_digits_value_mono(s, radix, i + 1);
        let a = s.subrange(0, i + 1);
        assert(a.drop_last() =~= s.subrange(0, i));
        assert(a.last() == s[i]);
        let x = digits_value(s.subrange(0, i), radix);
        assert(x * radix >= x) by (nonlinear_arith)
            requires
                radix >= 1,
        ;
    } else {
        assert(s.subrange(0, i) =~= s);
    }
}

/// `u32::from_str_radix(s, radix)` for radix 8 or 10, as an `Option`.
pub fn parse_u32(v: &Vec<char>, radix: u32) -> (r: Option<u32>)
    requires
        radix == 8 || radix == 10,
    ensures
        r == parse_u32_spec(v@, radix as nat),
{
    let start: usize = if v.len() > 0 && v[0] == '+' { 1 } else { 0 };
    let ghost d = unsigned_digits(v@);
    proof {
        assert(d =~= v@.subrange(start as int, v.len() as int));
    }
    if start >= v.len() {
        proof {
            assert(d.len() == 0);
        }
        return None;
    }
    let mut acc: u64 = 0;
    let mut i = start;
    while i < v.len()
        invariant
            start <= i <= v.len(),
            start < v.len(),
            radix == 8 || radix == 10,
            d == v@.subrange(start as int, v.len() as int),
            d == unsigned_digits(v@),
            all_digits(d.subrange(0, i - start), radix as nat),
            acc as nat == digits_value(d.subrange(0, i - start), radix as nat),
            acc <= u32::MAX,
        decreases v.len() - i,
    {
        let c = v[i];
        let u = c as u32;
        let ghost pre = d.subrange(0, i - start);
        let ghost next = d.subrange(0, i - start + 1);
        proof {
            assert(next.drop_last() =~= pre);
            assert(next.last() == c);
        }
        if !(48 <= u && u <= 57 && u - 48 < radix) {
            proof {
                assert(digit_value(d[i - start], radix as nat) is None);
                assert(!all_digits(d, radix as nat));
                assert(unsigned_digits(v@) == d);
                assert(parse_u32_spec(v@, radix as nat) is None);
            }
            return None;
        }
        let dv = (u - 48) as u64;
        proof {
            assert(acc * (radix as u64) <= 0xffff_ffffu64 * 10) by (nonlinear_arith)
                requires
                    acc <= 0xffff_ffffu64,
                    radix <= 10,
            ;
        }
        let nacc = acc * (radix as u64) + dv;
        proof {
            assert(all_digits(next, radix as nat));
            assert(nacc as nat == digits_value(next, radix as nat));
        }
        if nacc > 0xffff_ffffu64 {
            proof {
                assert(all_digits(d, radix as nat)
                    ==> digits_value(d, radix as nat) >= nacc as nat) by {
                    if all_digits(d, radix as nat) {
                        lemma_digits_value_mono(d, radix as nat, i - start + 1);
                        assert(d.subrange(0, i - start + 1) == next);
                    }
                }
                if all_digits(d, radix as nat) {
                    assert(digits_value(d, radix as nat) >= nacc as nat);
                    assert(digits_value(d, radix as nat) > u32::MAX);
                }
                assert(parse_u32_spec(v@, radix as nat) is None);
            }
            return None;
        }
        acc = nacc;
        i = i + 1;
    }
    proof {
        assert(d.subrange(0, v.len() - start) =~= d);
    }
    Some(acc as u32)
}

/// The decimal text of `n`.
pub fn decimal_chars(n: u64) -> (r: Vec<char>)
    ensures
        r@ == decimal(n as nat),
    decreases n,
{
    if n < 10 {
        let c = ((n as u8) + 48) as char;
        let mut r: Vec<char> = Vec::new();
        r.push(c);
        proof {
            assert(r@ =~= seq![digit_char(n as nat)]);
        }
        r
    } else {
        let mut r = decimal_chars(n / 10);
        let c = (((n % 10) as u8) + 48) as char;
        r.push(c);
        r
    }
}

// ───────────────────────────── prefixes of sequences ───────────────────

/// The first `n` items of `s`, or all of them when there are fewer
/// (`Iterator::take`).
pub open spec fn first_n<T>(s: Seq<T>, n: nat) -> Seq<T> {
    if s.len() <= n {
        s
    } else {
        s.subrange(0, n as int)
    }
}

/// The first `n` lines of `text` joined with newlines
/// (`text.lines().take(n).collect::<Vec<_>>().join("\n")`).
pub open spec fn head_lines(text: Seq<char>, n: nat) -> Seq<char> {
    join(first_n(lines(text), n), seq!['\n'])
}

/// The first `n` lines of `text` joined with newlines.
pub fn first_lines(text: &str, n: usize) -> (r: String)
    ensures
        r@ == head_lines(text@, n as nat),
{
    let v = chars_of(text);
    let ls = lines_of(&v);
    let k = if ls.len() <= n { ls.len() } else { n };
    let mut sep: Vec<char> = Vec::new();
    sep.push('\n');
    let joined = join_first(&ls, k, &sep);
    proof {
        assert(sep@ =~= seq!['\n']);
        if ls.len() <= n {
            assert(views(ls@).subrange(0, k as int) =~= views(ls@));
        }
    }
    to_string(&joined)
}

/// A `String` holding the characters of `v`.
pub fn to_string(v: &Vec<char>) -> (s: String)
    ensures
        s@ == v@,
{
    let mut s = String::new();
    let mut i: usize = 0;
    while i < v.len()
        invariant
            i <= v.len(),
            s@ == v@.subrange(0, i as int),
        decreases v.len() - i,
    {
        push_char(&mut s, v[i]);
        i = i + 1;
        proof {
            assert(s@ =~= v@.subrange(0, i as int));
        }
    }
    proof {
        assert(v@.subrange(0, v.len() as int) =~= v@);
    }
    s
}

/// The characters of a string followed by those of another.
pub fn concat(a: &str, b: &str) -> (v: Vec<char>)
    ensures
        v@ == a@ + b@,
{
    let mut v = chars_of(a);
    let w = chars_of(b);
    extend(&mut v, &w);
    v
}

/// Whether two character vectors hold the same characters.
pub fn same_chars(a: &Vec<char>, b: &Vec<char>) -> (r: bool)
    ensures
        r == (a@ == b@),
{
    if a.len() != b.len() {
        return false;
    }
    let mut i: usize = 0;
    while i < a.len()
        invariant
            a.len() == b.len(),
            i <= a.len(),
            forall|j: int| 0 <= j < i ==> a@[j] == b@[j],
        decreases a.len() - i,
    {
        if a[i] != b[i] {
            return false;
        }
        i = i + 1;
    }
    proof {
        assert(a@ =~= b@);
    }
    true
}

/// `s` without leading white space.
pub open spec fn trim_start(s: Seq<char>) -> Seq<char>
    decreases s.len(),
{
    if s.len() > 0 && is_ws(s[0]) {
        trim_start(s.drop_first())
    } else {
        s
    }
}

/// `s` without trailing white space.
pub open spec fn trim_end(s: Seq<char>) -> Seq<char>
    decreases s.len(),
{
    if s.len() > 0 && is_ws(s.last()) {
        trim_end(s.drop_last())
    } else {
        s
    }
}

/// `s` without leading or trailing white space (`str::trim`).
pub open spec fn trim(s: Seq<char>) -> Seq<char> {
    trim_end(trim_start(s))
}

/// `v` without leading or trailing white space.
pub fn trimmed(v: &Vec<char>) -> (r: Vec<char>)
    ensures
        r@ == trim(v@),
{
    let mut a: usize = 0;
    proof {
        assert(v@.subrange(0, v.len() as int) =~= v@);
    }
    while a < v.len() && is_whitespace(v[a])
        invariant
            a <= v.len(),
            trim_start(v@) == trim_start(v@.subrange(a as int, v.len() as int)),
        decreases v.len() - a,
    {
        proof {
            assert(v@.subrange(a as int, v.len() as int).drop_first() =~= v@.subrange(a + 1, v.len() as int));
        }
        a = a + 1;
    }
    let mut b: usize = v.len();
    proof {
        assert(trim_start(v@) == v@.subrange(a as int, v.len() as int));
    }
    while b > a && is_whitespace(v[b - 1])
        invariant
            a <= b <= v.len(),
            trim(v@) == trim_end(v@.subrange(a as int, b as int)),
        decreases b,
    {
        proof {
            assert(v@.subrange(a as int, b as int).drop_last() =~= v@.subrange(a as int, b - 1));
        }
        b = b - 1;
    }
    slice(v, a, b)
}

/// A copy of a list of strings.
pub fn copy_strings(v: &Vec<String>) -> (r: Vec<String>)
    ensures
        r@ == v@,
{
    let mut r: Vec<String> = Vec::new();
    let mut i: usize = 0;
    while i < v.len()
        invariant
            i <= v.len(),
            r@ == v@.subrange(0, i as int),
        decreases v.len() - i,
    {
        r.push(v[i].clone());
        i = i + 1;
        proof {
            assert(r@ =~= v@.subrange(0, i as int));
        }
    }
    proof {
        assert(v@.subrange(0, v.len() as int) =~= v@);
    }
    r
}

// ───────────────────────────── UTF-8 lengths ──────────────────────────

/// The number of bytes of the UTF-8 encoding of `s` (`str::len`).
pub open spec fn utf8_len(s: Seq<char>) -> nat {
    encode_utf8(s).len()
}

/// Byte `limit` of the encoding of `s` starts a character or lies at or
/// past its end (`str::is_char_boundary`, or beyond the string).
pub open spec fn cuts_at_boundary(s: Seq<char>, limit: nat) -> bool {
    utf8_len(s) <= limit || exists|k: int| 0 <= k <= s.len() && #[trigger] utf8_len(s.take(k)) == limit
}

/// The prefix of `s` held by its first `limit` bytes (`&s[..s.len().min(limit)]`),
/// for a `limit` that `cuts_at_boundary`.
pub open spec fn byte_prefix(s: Seq<char>, limit: nat) -> Seq<char> {
    if utf8_len(s) <= limit {
        s
    } else {
        s.take(choose|k: int| 0 <= k <= s.len() && #[trigger] utf8_len(s.take(k)) == limit)
    }
}

proof fn lemma_encode_push(a: Seq<char>, c: char)
    ensures
        encode_utf8(a.push(c)) =~= encode_utf8(a) + encode_scalar(c as u32),
    decreases a.len(),
{
    let e = encode_scalar(c as u32);
    if a.len() == 0 {
        assert(a.push(c).drop_first() =~= Seq::<char>::empty());
        assert(encode_utf8(a.push(c)) == e + encode_utf8(Seq::<char>::empty()));
        assert(encode_utf8(a) =~= Seq::<u8>::empty());
        assert(e + Seq::<u8>::empty() =~= Seq::<u8>::empty() + e);
    } else {
        let h = encode_scalar(a[0] as u32);
        assert(a.push(c).drop_first() =~= a.drop_first().push(c));
        assert(a.push(c)[0] == a[0]);
        lemma_encode_push(a.drop_first(), c);
        assert(encode_utf8(a.push(c)) == h + encode_utf8(a.drop_first().push(c)));
        assert(encode_utf8(a) == h + encode_utf8(a.drop_first()));
        assert(h + (encode_utf8(a.drop_first()) + e) =~= (h + encode_utf8(a.drop_first())) + e);
    }
}

proof fn lemma_utf8_take(s: Seq<char>, i: int)
    requires
        0 <= i < s.len(),
    ensures
        utf8_len(s.take(i + 1)) == utf8_len(s.take(i)) + encode_scalar(s[i] as u32).len(),
        encode_scalar(s[i] as u32).len() >= 1,
{
    assert(s.take(i + 1) =~= s.take(i).push(s[i]));
    lemma_encode_push(s.take(i), s[i]);
}

proof fn lemma_utf8_grows(s: Seq<char>, j: int, k: int)
    requires
        0 <= j < k <= s.len(),
    ensures
        utf8_len(s.take(j)) < utf8_len(s.take(k)),
    decreases k - j,
{
    lemma_utf8_take(s, k - 1);
    if j < k - 1 {
        lemma_utf8_grows(s, j, k - 1);
    }
}

/// The number of bytes of the UTF-8 encoding of `c` (`char::len_utf8`).
fn utf8_width(c: char) -> (w: usize)
    ensures
        w == encode_scalar(c as u32).len(),
{
    broadcast use vstd::utf8::char_is_scalar;

    let v = c as u32;
    if v <= 0x7F {
        1
    } else if v <= 0x7FF {
        2
    } else if v <= 0xFFFF {
        3
    } else {
        4
    }
}

/// The characters held by the first `limit` bytes of the encoding of `v`
/// (all of them when it is shorter).
pub fn prefix_bytes(v: &Vec<char>, limit: usize) -> (r: Vec<char>)
    requires
        cuts_at_boundary(v@, limit as nat),
    ensures
        r@ == byte_prefix(v@, limit as nat),
{
    let mut r: Vec<char> = Vec::new();
    let mut bytes: usize = 0;
    let mut i: usize = 0;
    while i < v.len() && bytes < limit
        invariant
            i <= v.len(),
            r@ == v@.take(i as int),
            bytes == utf8_len(v@.take(i as int)),
            bytes <= limit,
            cuts_at_boundary(v@, limit as nat),
        decreases v.len() - i,
    {
        let w = utf8_width(v[i]);
        proof {
            lemma_utf8_take(v@, i as int);
            if bytes + w > limit {
                if utf8_len(v@) <= limit {
                    if i + 1 < v.len() {
                        lemma_utf8_grows(v@, i + 1, v.len() as int);
                    }
                    assert(v@.take(v.len() as int) =~= v@);
                } else {
                    let k = choose|k: int| 0 <= k <= v@.len() && #[trigger] utf8_len(v@.take(k)) == limit;
                    if k <= i {
                        if k < i {
                            lemma_utf8_grows(v@, k, i as int);
                        }
                    } else if k > i + 1 {
                        lemma_utf8_grows(v@, i + 1, k);
                    }
                }
            }
        }
        bytes = bytes + w;
        r.push(v[i]);
        i = i + 1;
        proof {
            assert(r@ =~= v@.take(i as int));
        }
    }
    proof {
        assert(v@.take(v.len() as int) =~= v@);
        if utf8_len(v@) > limit {
            if i == v.len() {
                assert(false);
            }
            let k = choose|k: int| 0 <= k <= v@.len() && #[trigger] utf8_len(v@.take(k)) == limit;
            assert(bytes == limit);
            if k < i {
                lemma_utf8_grows(v@, k, i as int);
            } else if k > i {
                lemma_utf8_grows(v@, i as int, k);
            }
            assert(k == i);
        } else if i < v.len() {
            lemma_utf8_grows(v@, i as int, v.len() as int);
        }
    }
    r
}

// ───────────────────────────── padding ────────────────────────────────

/// `n` spaces.
pub open spec fn spaces(n: nat) -> Seq<char> {
    Seq::new(n, |i: int| ' ')
}

/// `s` followed by spaces up to `n` characters (`{:<n}`).
pub open spec fn pad_right(s: Seq<char>, n: nat) -> Seq<char> {
    if s.len() < n {
        s + spaces((n - s.len()) as nat)
    } else {
        s
    }
}

/// `s` preceded by spaces up to `n` characters (`{:>n}`, the default for
/// numbers).
pub open spec fn pad_left(s: Seq<char>, n: nat) -> Seq<char> {
    if s.len() < n {
        spaces((n - s.len()) as nat) + s
    } else {
        s
    }
}

fn space_run(n: usize) -> (r: Vec<char>)
    ensures
        r@ == spaces(n as nat),
{
    let mut r: Vec<char> = Vec::new();
    let mut i: usize = 0;
    while i < n
        invariant
            i <= n,
            r@ == spaces(i as nat),
        decreases n - i,
    {
        r.push(' ');
        i = i + 1;
        proof {
            assert(r@ =~= spaces(i as nat));
        }
    }
    r
}

/// `v` padded with spaces on the right to `n` characters.
pub fn padded_right(v: &Vec<char>, n: usize) -> (r: Vec<char>)
    ensures
        r@ == pad_right(v@, n as nat),
{
    let mut r = v.clone();
    proof {
        assert(r@ =~= v@);
    }
    if v.len() < n {
        extend(&mut r, &space_run(n - v.len()));
    }
    r
}

/// `v` padded with spaces on the left to `n` characters.
pub fn padded_left(v: &Vec<char>, n: usize) -> (r: Vec<char>)
    ensures
        r@ == pad_left(v@, n as nat),
{
    if v.len() < n {
        let mut r = space_run(n - v.len());
        extend(&mut r, v);
        r
    } else {
        let r = v.clone();
        proof {
            assert(r@ =~= v@);
        }
        r
    }
}


/// Every character of `decimal(n)` is a decimal digit, and there is at
/// least one; there is just one exactly when `n < 10`.
pub proof fn lemma_decimal_digits(n: nat)
    ensures
        decimal(n).len() >= 1,
        decimal(n).len() == 1 <==> n < 10,
        forall|i: int| 0 <= i < decimal(n).len() ==> '0' <= #[trigger] decimal(n)[i] <= '9',
    decreases n,
{
    if n >= 10 {
        lemma_decimal_digits(n / 10);
    }
}

/// Different numbers have different decimal forms.
pub proof fn lemma_decimal_injective(a: nat, b: nat)
    requires
        decimal(a) == decimal(b),
    ensures
        a == b,
    decreases a,
{
    lemma_decimal_digits(a);
    lemma_decimal_digits(b);
    if a >= 10 && b >= 10 {
        let da = decimal(a);
        assert(da.drop_last() == decimal(a / 10));
        assert(decimal(b).drop_last() == decimal(b / 10));
        lemma_decimal_injective(a / 10, b / 10);
        assert(da.last() == digit_char(a % 10));
        assert(decimal(b).last() == digit_char(b % 10));
        assert(digit_char(a % 10) as u32 == a % 10 + 48);
        assert(digit_char(b % 10) as u32 == b % 10 + 48);
    } else if a < 10 && b < 10 {
        assert(decimal(a)[0] == digit_char(a));
        assert(decimal(b)[0] == digit_char(b));
        assert(digit_char(a) as u32 == a + 48);
        assert(digit_char(b) as u32 == b + 48);
    }
}

} // verus!
