//! Stable sorting, as `slice::sort_by` and `slice::sort_by_key` do it.
//!
//! A stable sort by a strict weak order `lt` puts `a` before `b` when
//! `lt(a, b)`, and keeps the input order of elements that neither precedes.
//! `stable_sorted` states exactly that of an input and an output sequence;
//! it determines the output uniquely.

use vstd::prelude::*;

verus! {

/// `lt` is a strict weak order: irreflexive, transitive, and with
/// transitive incomparability.
pub open spec fn strict_weak<T>(lt: spec_fn(T, T) -> bool) -> bool {
    &&& forall|a: T| !#[trigger] lt(a, a)
    &&& forall|a: T, b: T, c: T| #[trigger] lt(a, b) && #[trigger] lt(b, c) ==> lt(a, c)
    &&& forall|a: T, b: T, c: T|
        #![trigger lt(a, b), lt(b, c)]
        !lt(a, b) && !lt(b, a) && !lt(b, c) && !lt(c, b) ==> !lt(a, c) && !lt(c, a)
}

/// `a` (from input position `pa`) comes before `b` (from position `pb`) in
/// a stable sort by `lt`.
pub open spec fn before<T>(lt: spec_fn(T, T) -> bool, a: T, pa: int, b: T, pb: int) -> bool {
    lt(a, b) || (!lt(b, a) && pa < pb)
}

/// `p` maps positions `0..n` one to one onto positions `0..n`.
pub open spec fn is_perm(p: Seq<int>, n: nat) -> bool {
    &&& p.len() == n
    &&& forall|k: int| 0 <= k < n ==> 0 <= #[trigger] p[k] < n
    &&& forall|k: int, l: int| 0 <= k < l < n ==> #[trigger] p[k] != #[trigger] p[l]
}

/// `new` is `old` sorted stably by `lt`: a rearrangement of `old` in which
/// every earlier element comes before every later one, by `lt` first and by
/// input position among elements that `lt` does not separate.
pub open spec fn stable_sorted<T>(old: Seq<T>, new: Seq<T>, lt: spec_fn(T, T) -> bool) -> bool {
    exists|p: Seq<int>|
        {
            &&& is_perm(p, old.len())
            &&& new.len() == old.len()
            &&& forall|k: int| 0 <= k < new.len() ==> #[trigger] new[k] == old[p[k]]
            &&& forall|k: int, l: int|
                0 <= k < l < new.len() ==> before(lt, #[trigger] new[k], p[k], #[trigger] new[l], p[l])
        }
}

proof fn lemma_before_trans<T>(
    lt: spec_fn(T, T) -> bool,
    a: T,
    pa: int,
    b: T,
    pb: int,
    c: T,
    pc: int,
)
    requires
        strict_weak(lt),
        before(lt, a, pa, b, pb),
        before(lt, b, pb, c, pc),
    ensures
        before(lt, a, pa, c, pc),
{
    if lt(a, b) && lt(b, c) {
        assert(lt(a, c));
    } else if lt(a, b) {
        // b and c are incomparable
        if !lt(a, c) {
            if lt(c, a) {
                assert(lt(c, b));
            } else {
                assert(lt(a, b) == false);
            }
        }
    } else if lt(b, c) {
        // a and b are incomparable
        if !lt(a, c) {
            if lt(c, a) {
                assert(lt(b, a));
            } else {
                assert(lt(b, c) == false);
            }
        }
    } else {
        assert(lt(a, c) == false && lt(c, a) == false);
    }
}

/// Sorts `v` stably by `less`, whose results are those of the strict weak
/// order `lt`.
pub fn sort_by<T, F: Fn(&T, &T) -> bool>(
    v: &mut Vec<T>,
    less: &F,
    Ghost(lt): Ghost<spec_fn(T, T) -> bool>,
)
    requires
        forall|a: &T, b: &T| #[trigger] less.requires((a, b)),
        forall|a: &T, b: &T, r: bool| less.ensures((a, b), r) ==> r == lt(*a, *b),
        strict_weak(lt),
    ensures
        stable_sorted(old(v)@, final(v)@, lt),
{
    let ghost orig = v@;
    let n = v.len();
    let ghost mut p: Seq<int> = Seq::new(n as nat, |k: int| k);
    let mut i: usize = 0;
    while i < n
        invariant
            n == v.len(),
            orig.len() == n,
            i <= n,
            p.len() == n,
            forall|a: &T, b: &T| #[trigger] less.requires((a, b)),
            forall|a: &T, b: &T, r: bool| less.ensures((a, b), r) ==> r == lt(*a, *b),
            strict_weak(lt),
            forall|k: int| 0 <= k < n ==> #[trigger] v@[k] == orig[p[k]],
            forall|k: int| 0 <= k < i ==> 0 <= #[trigger] p[k] < i,
            forall|k: int| i <= k < n ==> #[trigger] p[k] == k,
            forall|k: int, l: int| 0 <= k < l < i ==> #[trigger] p[k] != #[trigger] p[l],
            forall|k: int, l: int|
                0 <= k < l < i ==> before(lt, #[trigger] v@[k], p[k], #[trigger] v@[l], p[l]),
        decreases n - i,
    {
        let mut j = i;
        while j > 0 && less(&v[i], &v[j - 1])
            invariant
                n == v.len(),
                i < n,
                j <= i,
                forall|a: &T, b: &T| #[trigger] less.requires((a, b)),
                forall|a: &T, b: &T, r: bool| less.ensures((a, b), r) ==> r == lt(*a, *b),
                forall|l: int| j <= l < i ==> #[trigger] lt(v@[i as int], v@[l]),
            decreases j,
        {
            j = j - 1;
        }
        let ghost pre = v@;
        let ghost pre_p = p;
        let x = v.remove(i);
        v.insert(j, x);
        proof {
            // the element from position i now sits at j; those in j..i moved one right
            let src = |m: int|
                if m < j {
                    m
                } else if m == j {
                    i as int
                } else if m <= i {
                    m - 1
                } else {
                    m
                };
            p = Seq::new(n as nat, |m: int| pre_p[src(m)]);
            assert forall|m: int| 0 <= m < n implies #[trigger] v@[m] == pre[src(m)] by {
                if m < j {
                } else if m == j {
                } else if m <= i {
                } else {
                }
            }
            assert forall|k: int| 0 <= k < n implies #[trigger] v@[k] == orig[p[k]] by {
                assert(v@[k] == pre[src(k)]);
            }
            assert forall|k: int| 0 <= k < i + 1 implies 0 <= #[trigger] p[k] < i + 1 by {
                assert(p[k] == pre_p[src(k)]);
            }
            assert forall|k: int| i + 1 <= k < n implies #[trigger] p[k] == k by {
                assert(p[k] == pre_p[src(k)]);
            }
            assert forall|k: int, l: int| 0 <= k < l < i + 1 implies #[trigger] p[k] != #[trigger] p[l] by {
                assert(p[k] == pre_p[src(k)]);
                assert(p[l] == pre_p[src(l)]);
                assert(src(k) != src(l));
            }
            let xv = pre[i as int];
            assert forall|k: int, l: int| 0 <= k < l < i + 1 implies before(
                lt,
                #[trigger] v@[k],
                p[k],
                #[trigger] v@[l],
                p[l],
            ) by {
                assert(v@[k] == pre[src(k)] && p[k] == pre_p[src(k)]);
                assert(v@[l] == pre[src(l)] && p[l] == pre_p[src(l)]);
                if k == j {
                    assert(lt(xv, pre[l - 1]));
                } else if l == j {
                    assert(!lt(xv, pre[j - 1]));
                    assert(before(lt, pre[j - 1], pre_p[j - 1], xv, pre_p[i as int]));
                    if k < j - 1 {
                        lemma_before_trans(
                            lt,
                            pre[k],
                            pre_p[k],
                            pre[j - 1],
                            pre_p[j - 1],
                            xv,
                            pre_p[i as int],
                        );
                    }
                } else {
                    assert(src(k) < src(l));
                }
            }
        }
        i = i + 1;
    }
    proof {
        assert(is_perm(p, orig.len()));
    }
}

// ───────────────────────────── text order ─────────────────────────────

/// Lexicographic order of character sequences by code point, a proper
/// prefix coming first. On `String`s this is the order of `Ord`, which
/// compares UTF-8 bytes: UTF-8 keeps the order of code points.
pub open spec fn lex_lt(a: Seq<char>, b: Seq<char>) -> bool
    decreases a.len(),
{
    if b.len() == 0 {
        false
    } else if a.len() == 0 {
        true
    } else if a[0] != b[0] {
        (a[0] as u32) < (b[0] as u32)
    } else {
        lex_lt(a.drop_first(), b.drop_first())
    }
}

/// `lex_lt` is irreflexive, transitive, and total on distinct sequences.
pub proof fn lemma_lex_order(a: Seq<char>, b: Seq<char>, c: Seq<char>)
    ensures
        !lex_lt(a, a),
        lex_lt(a, b) && lex_lt(b, c) ==> lex_lt(a, c),
        a != b ==> lex_lt(a, b) || lex_lt(b, a),
        lex_lt(a, b) ==> !lex_lt(b, a),
    decreases a.len(),
{
    if a.len() > 0 {
        lemma_lex_order(a.drop_first(), a.drop_first(), a.drop_first());
    }
    if a.len() > 0 && b.len() > 0 && c.len() > 0 {
        lemma_lex_order(a.drop_first(), b.drop_first(), c.drop_first());
    }
    if a.len() > 0 && b.len() > 0 {
        lemma_lex_order(a.drop_first(), b.drop_first(), b.drop_first());
        if a != b && a[0] == b[0] {
            assert(a.drop_first() != b.drop_first()) by {
                if a.drop_first() == b.drop_first() {
                    assert(a =~= seq![a[0]] + a.drop_first());
                    assert(b =~= seq![b[0]] + b.drop_first());
                }
            }
        }
    }
    if a.len() == 0 && b.len() == 0 {
        assert(a =~= b);
    }
    if a.len() > 0 && b.len() > 0 && (a[0] as u32) == (b[0] as u32) {
        vstd::utf8::char_u32_cast(a[0], a[0] as u32);
        vstd::utf8::char_u32_cast(b[0], b[0] as u32);
    }
}

/// Ordering values by a text key with `lex_lt` is a strict weak order.
pub proof fn lemma_lex_key_strict_weak<T>(key: spec_fn(T) -> Seq<char>)
    ensures
        strict_weak(|a: T, b: T| lex_lt(key(a), key(b))),
{
    let lt = |a: T, b: T| lex_lt(key(a), key(b));
    assert forall|a: T| !#[trigger] lt(a, a) by {
        lemma_lex_order(key(a), key(a), key(a));
    }
    assert forall|a: T, b: T, c: T| #[trigger] lt(a, b) && #[trigger] lt(b, c) implies lt(a, c) by {
        lemma_lex_order(key(a), key(b), key(c));
    }
    assert forall|a: T, b: T, c: T|
        #![trigger lt(a, b), lt(b, c)]
        !lt(a, b) && !lt(b, a) && !lt(b, c) && !lt(c, b) implies !lt(a, c) && !lt(c, a) by {
        lemma_lex_order(key(a), key(b), key(c));
        lemma_lex_order(key(b), key(a), key(c));
        lemma_lex_order(key(b), key(c), key(a));
    }
}

/// Whether `a` comes before `b` in `lex_lt` order.
pub fn lex_less(a: &Vec<char>, b: &Vec<char>) -> (r: bool)
    ensures
        r == lex_lt(a@, b@),
{
    let mut i: usize = 0;
    proof {
        assert(a@.skip(0) =~= a@);
        assert(b@.skip(0) =~= b@);
    }
    while i < a.len() && i < b.len() && a[i] == b[i]
        invariant
            i <= a.len(),
            i <= b.len(),
            lex_lt(a@, b@) == lex_lt(a@.skip(i as int), b@.skip(i as int)),
        decreases a.len() - i,
    {
        proof {
            assert(a@.skip(i as int).drop_first() =~= a@.skip(i + 1));
            assert(b@.skip(i as int).drop_first() =~= b@.skip(i + 1));
        }
        i = i + 1;
    }
    if i == b.len() {
        false
    } else if i == a.len() {
        true
    } else {
        (a[i] as u32) < (b[i] as u32)
    }
}

/// Stable sorting commutes with a map that keeps the order: sorting values
/// by `lt_a` and then mapping them is sorting their images by `lt_b`.
pub proof fn lemma_stable_sorted_map<A, B>(
    old: Seq<A>,
    new: Seq<A>,
    lt_a: spec_fn(A, A) -> bool,
    f: spec_fn(A) -> B,
    lt_b: spec_fn(B, B) -> bool,
)
    requires
        stable_sorted(old, new, lt_a),
        forall|a: A, b: A| #[trigger] lt_a(a, b) == lt_b(f(a), f(b)),
    ensures
        stable_sorted(old.map_values(f), new.map_values(f), lt_b),
{
    let p = choose|p: Seq<int>|
        {
            &&& is_perm(p, old.len())
            &&& new.len() == old.len()
            &&& forall|k: int| 0 <= k < new.len() ==> #[trigger] new[k] == old[p[k]]
            &&& forall|k: int, l: int|
                0 <= k < l < new.len() ==> before(lt_a, #[trigger] new[k], p[k], #[trigger] new[l], p[l])
        };
    let mo = old.map_values(f);
    let mn = new.map_values(f);
    assert forall|k: int| 0 <= k < mn.len() implies #[trigger] mn[k] == mo[p[k]] by {
        assert(new[k] == old[p[k]]);
    }
    assert forall|k: int, l: int| 0 <= k < l < mn.len() implies before(
        lt_b,
        #[trigger] mn[k],
        p[k],
        #[trigger] mn[l],
        p[l],
    ) by {
        assert(before(lt_a, new[k], p[k], new[l], p[l]));
        assert(lt_a(new[k], new[l]) == lt_b(f(new[k]), f(new[l])));
        assert(lt_a(new[l], new[k]) == lt_b(f(new[l]), f(new[k])));
    }
    assert(is_perm(p, mo.len()));
}

/// Ordering values by a number key is a strict weak order.
pub proof fn lemma_int_key_strict_weak<T>(key: spec_fn(T) -> int)
    ensures
        strict_weak(|a: T, b: T| key(a) < key(b)),
{
}

/// The items of `v` in reverse order; popping them then yields them in
/// their first order.
pub fn reversed<T>(v: Vec<T>) -> (r: Vec<T>)
    ensures
        r@ == v@.reverse(),
{
    let mut v = v;
    let ghost orig = v@;
    let mut r: Vec<T> = Vec::new();
    while v.len() > 0
        invariant
            v@ == orig.subrange(0, v.len() as int),
            r@ == orig.subrange(v.len() as int, orig.len() as int).reverse(),
            v.len() <= orig.len(),
        decreases v.len(),
    {
        let x = v.pop().unwrap();
        r.push(x);
        proof {
            assert(v@ =~= orig.subrange(0, v.len() as int));
            assert(r@ =~= orig.subrange(v.len() as int, orig.len() as int).reverse());
        }
    }
    proof {
        assert(orig.subrange(0, orig.len() as int) =~= orig);
    }
    r
}

} // verus!
