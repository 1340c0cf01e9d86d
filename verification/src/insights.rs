//! Summaries built from activity rows: recent typing, durations, per-app
//! keystroke totals.
use vstd::prelude::*;
use crate::text::{chars_eq, chars_of, decimal, push_i64, push_str, push_usize, string_of, utf8_len};

verus! {

// ---------------------------------------------------------------------------
// Durations
// ---------------------------------------------------------------------------

/// "Ns" below a minute, "Nm" below an hour, else "Nh Mm" (whole units, rounded down).
pub open spec fn format_secs_spec(secs: int) -> Seq<char> {
    if secs < 60 {
        decimal(secs) + seq!['s']
    } else if secs < 3600 {
        decimal(secs / 60) + seq!['m']
    } else {
        decimal(secs / 3600) + seq!['h', ' '] + decimal((secs % 3600) / 60) + seq!['m']
    }
}

/// A duration in seconds as short human-readable text (see `format_secs_spec`).
pub fn format_secs(secs: i64) -> (r: String)
    ensures
        r@ == format_secs_spec(secs as int),
{
    let mut v: Vec<char> = Vec::new();
    if secs < 60 {
        push_i64(&mut v, secs);
        v.push('s');
    } else if secs < 3600 {
        push_i64(&mut v, secs / 60);
        v.push('m');
    } else {
        let h = secs / 3600;
        let m = (secs % 3600) / 60;
        push_i64(&mut v, h);
        v.push('h');
        v.push(' ');
        push_i64(&mut v, m);
        v.push('m');
    }
    assert(v@ =~= format_secs_spec(secs as int));
    string_of(v.as_slice())
}

// ---------------------------------------------------------------------------
// Recent keystrokes
// ---------------------------------------------------------------------------

pub open spec fn pair_view(p: (String, String)) -> (Seq<char>, Seq<char>) {
    (p.0@, p.1@)
}

pub open spec fn pairs_of(v: Seq<(String, String)>) -> Seq<(Seq<char>, Seq<char>)> {
    v.map_values(|p: (String, String)| pair_view(p))
}

/// Newest-first rows taken until their text reaches `limit` bytes
/// (`total` counts the bytes taken so far): the row that reaches the limit is
/// included, and all rows are taken if it is never reached.
pub open spec fn take_until_limit(
    rows: Seq<(Seq<char>, Seq<char>)>,
    limit: int,
    total: int,
) -> Seq<(Seq<char>, Seq<char>)>
    decreases rows.len(),
{
    if rows.len() == 0 {
        seq![]
    } else {
        let t = total + utf8_len(rows[0].1);
        if t >= limit {
            seq![rows[0]]
        } else {
            seq![rows[0]] + take_until_limit(rows.drop_first(), limit, t)
        }
    }
}

/// The recent-typing window: from newest-first (app, chars) rows, those
/// taken until `limit` bytes are reached, put back in chronological order.
pub open spec fn recent_window_spec(rows: Seq<(Seq<char>, Seq<char>)>, limit: int) -> Seq<
    (Seq<char>, Seq<char>),
> {
    take_until_limit(rows, limit, 0).reverse()
}

proof fn lemma_take_until_unfold(rows: Seq<(Seq<char>, Seq<char>)>, limit: int, total: int, i: int)
    requires
        0 <= i < rows.len(),
    ensures
        ({
            let t = total + utf8_len(rows[i].1);
            let rest = rows.skip(i);
            take_until_limit(rest, limit, total) == if t >= limit {
                seq![rows[i]]
            } else {
                seq![rows[i]] + take_until_limit(rows.skip(i + 1), limit, t)
            }
        }),
{
    let rest = rows.skip(i);
    assert(rest[0] == rows[i]);
    assert(rest.drop_first() =~= rows.skip(i + 1));
}

/// The bytes of the typed text of `rows`.
pub open spec fn total_bytes(rows: Seq<(Seq<char>, Seq<char>)>) -> int
    decreases rows.len(),
{
    if rows.len() == 0 {
        0
    } else {
        utf8_len(rows[0].1) + total_bytes(rows.drop_first())
    }
}

proof fn lemma_take_until_limit(rows: Seq<(Seq<char>, Seq<char>)>, limit: int, total: int)
    ensures
        ({
            let w = take_until_limit(rows, limit, total);
            &&& w.len() <= rows.len()
            &&& w == rows.take(w.len() as int)
            &&& rows.len() > 0 ==> w.len() > 0
            &&& w.len() < rows.len() ==> total + total_bytes(w) >= limit
            &&& (w.len() > 0 && total < limit) ==> total + total_bytes(w.drop_last()) < limit
        }),
    decreases rows.len(),
{
    let w = take_until_limit(rows, limit, total);
    if rows.len() > 0 {
        let t = total + utf8_len(rows[0].1);
        if t >= limit {
            assert(w == rows.take(1));
            assert(w.drop_last() =~= seq![]);
            assert(total_bytes(w.drop_first()) == 0);
        } else {
            let rest = rows.drop_first();
            lemma_take_until_limit(rest, limit, t);
            let w2 = take_until_limit(rest, limit, t);
            assert(w == seq![rows[0]] + w2);
            assert(w =~= rows.take(w.len() as int));
            assert(w.drop_first() =~= w2);
            if w2.len() > 0 {
                assert(w.drop_last() =~= seq![rows[0]] + w2.drop_last());
                assert((seq![rows[0]] + w2.drop_last()).drop_first() =~= w2.drop_last());
            } else {
                assert(w.drop_last() =~= seq![]);
            }
        }
    }
}

/// The recent-typing window (newest first, before it is put back in
/// chronological order) is the newest rows, back to the one whose text
/// reaches `limit` bytes: it is a prefix of the rows; it holds a row whenever
/// there is one; unless it holds every row, its text reaches `limit` bytes;
/// and, for a positive limit, without its oldest row it would stay below it.
/// For a limit of 0 or less the window is the newest row alone.
pub proof fn lemma_recent_window(rows: Seq<(Seq<char>, Seq<char>)>, limit: int)
    ensures
        ({
            let w = take_until_limit(rows, limit, 0);
            &&& recent_window_spec(rows, limit) == w.reverse()
            &&& w == rows.take(w.len() as int)
            &&& rows.len() > 0 ==> w.len() > 0
            &&& w.len() < rows.len() ==> total_bytes(w) >= limit
            &&& (w.len() > 0 && limit > 0) ==> total_bytes(w.drop_last()) < limit
        }),
        (rows.len() > 0 && limit <= 0) ==> recent_window_spec(rows, limit) == seq![rows[0]],
{
    lemma_take_until_limit(rows, limit, 0);
    if rows.len() > 0 && limit <= 0 {
        lemma_take_until_unfold(rows, limit, 0, 0);
        assert(rows.skip(0) =~= rows);
        assert(seq![rows[0]].reverse() =~= seq![rows[0]]);
    }
}

/// Chooses the recent-typing window from newest-first (app, chars) rows
/// (see `recent_window_spec`).
pub fn recent_window(rows: &Vec<(String, String)>, limit: i64) -> (r: Vec<(String, String)>)
    ensures
        pairs_of(r@) == recent_window_spec(pairs_of(rows@), limit as int),
{
    let ghost all = pairs_of(rows@);
    let mut taken: Vec<(String, String)> = Vec::new();
    let mut total: i64 = 0;
    let mut i: usize = 0;
    let mut done = false;
    assert(all.skip(0) =~= all);
    assert(pairs_of(taken@) + take_until_limit(all, limit as int, 0) =~= take_until_limit(
        all,
        limit as int,
        0,
    ));
    while i < rows.len() && !done
        invariant
            all == pairs_of(rows@),
            i <= rows@.len(),
            0 <= total,
            !done ==> take_until_limit(all, limit as int, 0) == pairs_of(taken@) + take_until_limit(
                all.skip(i as int),
                limit as int,
                total as int,
            ),
            done ==> take_until_limit(all, limit as int, 0) == pairs_of(taken@),
        decreases rows@.len() - i,
    {
        let n = rows[i].1.as_str().as_bytes().len();
        proof {
            lemma_take_until_unfold(all, limit as int, total as int, i as int);
        }
        let ghost old_taken = taken@;
        let ghost exact = total + utf8_len(all[i as int].1);
        assert(all[i as int] == pair_view(rows@[i as int]));
        assert(n == utf8_len(all[i as int].1));
        let new_total: i64 = if n as u64 > (i64::MAX - total) as u64 {
            i64::MAX
        } else {
            total + n as i64
        };
        taken.push((rows[i].0.clone(), rows[i].1.clone()));
        assert(pairs_of(taken@) =~= pairs_of(old_taken).push(all[i as int]));
        if new_total >= limit {
            done = true;
            assert(exact >= limit);
            assert(pairs_of(old_taken) + seq![all[i as int]] =~= pairs_of(taken@));
        } else {
            assert(exact < limit);
            assert(pairs_of(old_taken) + (seq![all[i as int]] + take_until_limit(
                all.skip(i + 1),
                limit as int,
                exact,
            )) =~= pairs_of(taken@) + take_until_limit(all.skip(i + 1), limit as int, exact));
        }
        total = new_total;
        i = i + 1;
    }
    if !done {
        assert(all.skip(i as int).len() == 0);
        assert(pairs_of(taken@) + seq![] =~= pairs_of(taken@));
    }
    let mut out: Vec<(String, String)> = Vec::new();
    let mut k: usize = taken.len();
    while k > 0
        invariant
            k <= taken@.len(),
            pairs_of(out@) == pairs_of(taken@).subrange(k as int, taken@.len() as int).reverse(),
        decreases k,
    {
        k = k - 1;
        let ghost before = out@;
        let ghost tv = pairs_of(taken@);
        out.push((taken[k].0.clone(), taken[k].1.clone()));
        assert(pairs_of(out@) =~= pairs_of(before).push(tv[k as int]));
        assert(tv.subrange(k as int, taken@.len() as int).reverse() =~= tv.subrange(
            k + 1,
            taken@.len() as int,
        ).reverse().push(tv[k as int]));
    }
    assert(pairs_of(taken@).subrange(0, taken@.len() as int) =~= pairs_of(taken@));
    out
}

// ---------------------------------------------------------------------------
// Keystroke summary
// ---------------------------------------------------------------------------

/// Typed bytes per app, in order of first appearance.
pub open spec fn app_totals(rows: Seq<(Seq<char>, Seq<char>)>) -> Seq<(Seq<char>, int)>
    decreases rows.len(),
{
    if rows.len() == 0 {
        seq![]
    } else {
        add_to_totals(app_totals(rows.drop_last()), rows.last().0, utf8_len(rows.last().1) as int)
    }
}

/// `a + b`, held at `usize::MAX` when larger.
pub open spec fn sat_add(a: int, b: int) -> int {
    if a + b > usize::MAX {
        usize::MAX as int
    } else {
        a + b
    }
}

/// Adds `n` to the total of `app` (held at `usize::MAX`), appending the app if it is new.
pub open spec fn add_to_totals(totals: Seq<(Seq<char>, int)>, app: Seq<char>, n: int) -> Seq<
    (Seq<char>, int),
>
    decreases totals.len(),
{
    if totals.len() == 0 {
        seq![(app, n)]
    } else if totals[0].0 == app {
        seq![(app, sat_add(totals[0].1, n))] + totals.drop_first()
    } else {
        seq![totals[0]] + add_to_totals(totals.drop_first(), app, n)
    }
}

/// Inserts an entry before the first entry with a smaller count.
pub open spec fn insert_desc(sorted: Seq<(Seq<char>, int)>, x: (Seq<char>, int)) -> Seq<
    (Seq<char>, int),
>
    decreases sorted.len(),
{
    if sorted.len() == 0 {
        seq![x]
    } else if sorted[0].1 < x.1 {
        seq![x] + sorted
    } else {
        seq![sorted[0]] + insert_desc(sorted.drop_first(), x)
    }
}

/// Stable sort by count, largest first.
pub open spec fn sort_desc(s: Seq<(Seq<char>, int)>) -> Seq<(Seq<char>, int)>
    decreases s.len(),
{
    if s.len() == 0 {
        seq![]
    } else {
        insert_desc(sort_desc(s.drop_last()), s.last())
    }
}

/// Adjacent rows whose apps differ.
pub open spec fn app_switches(rows: Seq<(Seq<char>, Seq<char>)>) -> int
    decreases rows.len(),
{
    if rows.len() <= 1 {
        0
    } else {
        app_switches(rows.drop_last()) + if rows[rows.len() - 2].0 != rows.last().0 {
            1int
        } else {
            0int
        }
    }
}

/// One summary line per app: "- N chars in APP\n".
pub open spec fn summary_lines(entries: Seq<(Seq<char>, int)>) -> Seq<char>
    decreases entries.len(),
{
    if entries.len() == 0 {
        seq![]
    } else {
        summary_lines(entries.drop_last()) + seq!['-', ' '] + decimal(entries.last().1) + " chars in "@
            + entries.last().0 + seq!['\n']
    }
}

/// The keystroke summary of chronological (app, chars) rows: per-app byte
/// counts, largest first, then the number of app switches.
pub open spec fn keystroke_summary_spec(rows: Seq<(Seq<char>, Seq<char>)>) -> Seq<char> {
    if rows.len() == 0 {
        "No recent keystrokes recorded."@
    } else {
        summary_lines(sort_desc(app_totals(rows))) + seq!['-', ' '] + decimal(app_switches(rows))
            + " app switches"@
    }
}

/// `s` holds an entry for `app`.
pub open spec fn has_app(s: Seq<(Seq<char>, int)>, app: Seq<char>) -> bool {
    exists|i: int| 0 <= i < s.len() && #[trigger] s[i].0 == app
}

/// No app has two entries.
pub open spec fn apps_once(s: Seq<(Seq<char>, int)>) -> bool {
    forall|i: int, j: int| 0 <= i < j < s.len() ==> #[trigger] s[i].0 != #[trigger] s[j].0
}

/// Counts never grow along `s`.
pub open spec fn counts_descending(s: Seq<(Seq<char>, int)>) -> bool {
    forall|i: int, j: int| 0 <= i < j < s.len() ==> #[trigger] s[i].1 >= #[trigger] s[j].1
}

/// Some row was typed in `app`.
pub open spec fn typed_in(rows: Seq<(Seq<char>, Seq<char>)>, app: Seq<char>) -> bool {
    exists|k: int| 0 <= k < rows.len() && #[trigger] rows[k].0 == app
}

proof fn lemma_add_to_totals(t: Seq<(Seq<char>, int)>, app: Seq<char>, n: int)
    requires
        apps_once(t),
    ensures
        apps_once(add_to_totals(t, app, n)),
        forall|a: Seq<char>| #[trigger] has_app(add_to_totals(t, app, n), a) <==> (has_app(t, a) || a == app),
    decreases t.len(),
{
    let r = add_to_totals(t, app, n);
    if t.len() == 0 {
        assert(r[0].0 == app);
        assert forall|a: Seq<char>| has_app(r, a) <==> (has_app(t, a) || a == app) by {
            if a == app {
                assert(r[0].0 == a);
            }
        }
    } else if t[0].0 == app {
        assert forall|i: int, j: int| 0 <= i < j < r.len() implies #[trigger] r[i].0 != #[trigger] r[j].0 by {
            assert(r[j] == t[j]);
            if i > 0 {
                assert(r[i] == t[i]);
            }
        }
        assert forall|a: Seq<char>| has_app(r, a) <==> (has_app(t, a) || a == app) by {
            if has_app(t, a) {
                let i = choose|i: int| 0 <= i < t.len() && #[trigger] t[i].0 == a;
                assert(r[i].0 == a);
            }
            if has_app(r, a) {
                let i = choose|i: int| 0 <= i < r.len() && #[trigger] r[i].0 == a;
                assert(r[i].0 == t[i].0);
            }
        }
    } else {
        let rest = t.drop_first();
        assert(apps_once(rest)) by {
            assert forall|i: int, j: int| 0 <= i < j < rest.len() implies #[trigger] rest[i].0
                != #[trigger] rest[j].0 by {
                assert(rest[i] == t[i + 1] && rest[j] == t[j + 1]);
            }
        }
        lemma_add_to_totals(rest, app, n);
        let r2 = add_to_totals(rest, app, n);
        assert(r == seq![t[0]] + r2);
        assert(!has_app(r2, t[0].0)) by {
            if has_app(r2, t[0].0) {
                assert(has_app(rest, t[0].0));
                let i = choose|i: int| 0 <= i < rest.len() && #[trigger] rest[i].0 == t[0].0;
                assert(t[i + 1].0 == t[0].0);
            }
        }
        assert forall|i: int, j: int| 0 <= i < j < r.len() implies #[trigger] r[i].0 != #[trigger] r[j].0 by {
            assert(r[j] == r2[j - 1]);
            if i == 0 {
                if r2[j - 1].0 == t[0].0 {
                    assert(has_app(r2, t[0].0));
                }
            } else {
                assert(r[i] == r2[i - 1]);
            }
        }
        assert forall|a: Seq<char>| has_app(r, a) <==> (has_app(t, a) || a == app) by {
            if has_app(t, a) {
                let i = choose|i: int| 0 <= i < t.len() && #[trigger] t[i].0 == a;
                if i == 0 {
                    assert(r[0].0 == a);
                } else {
                    assert(rest[i - 1].0 == a);
                    assert(has_app(rest, a));
                    assert(has_app(r2, a));
                    let m = choose|m: int| 0 <= m < r2.len() && #[trigger] r2[m].0 == a;
                    assert(r[m + 1].0 == a);
                }
            }
            if a == app {
                assert(has_app(r2, a));
                let m = choose|m: int| 0 <= m < r2.len() && #[trigger] r2[m].0 == a;
                assert(r[m + 1].0 == a);
            }
            if has_app(r, a) {
                let i = choose|i: int| 0 <= i < r.len() && #[trigger] r[i].0 == a;
                if i == 0 {
                    assert(t[0].0 == a);
                } else {
                    assert(r2[i - 1].0 == a);
                    assert(has_app(r2, a));
                    if has_app(rest, a) {
                        let m = choose|m: int| 0 <= m < rest.len() && #[trigger] rest[m].0 == a;
                        assert(t[m + 1].0 == a);
                    }
                }
            }
        }
    }
}

proof fn lemma_app_totals(rows: Seq<(Seq<char>, Seq<char>)>)
    ensures
        apps_once(app_totals(rows)),
        forall|a: Seq<char>| #[trigger] has_app(app_totals(rows), a) <==> typed_in(rows, a),
    decreases rows.len(),
{
    if rows.len() > 0 {
        let prev = rows.drop_last();
        lemma_app_totals(prev);
        lemma_add_to_totals(app_totals(prev), rows.last().0, utf8_len(rows.last().1) as int);
        assert forall|a: Seq<char>| typed_in(rows, a) <==> (typed_in(prev, a) || a == rows.last().0) by {
            if typed_in(rows, a) {
                let k = choose|k: int| 0 <= k < rows.len() && #[trigger] rows[k].0 == a;
                if k < rows.len() - 1 {
                    assert(prev[k].0 == a);
                }
            }
            if typed_in(prev, a) {
                let k = choose|k: int| 0 <= k < prev.len() && #[trigger] prev[k].0 == a;
                assert(rows[k].0 == a);
            }
            if a == rows.last().0 {
                assert(rows[rows.len() - 1].0 == a);
            }
        }
    }
}

proof fn lemma_insert_desc(s: Seq<(Seq<char>, int)>, x: (Seq<char>, int))
    ensures
        insert_desc(s, x).len() == s.len() + 1,
        forall|y: (Seq<char>, int)| #[trigger] insert_desc(s, x).contains(y) <==> (s.contains(y) || y == x),
        counts_descending(s) ==> counts_descending(insert_desc(s, x)),
        (apps_once(s) && !has_app(s, x.0)) ==> apps_once(insert_desc(s, x)),
        forall|a: Seq<char>| #[trigger] has_app(insert_desc(s, x), a) <==> (has_app(s, a) || a == x.0),
    decreases s.len(),
{
    let r = insert_desc(s, x);
    if s.len() == 0 {
        assert(r =~= seq![x]);
        assert forall|y: (Seq<char>, int)| r.contains(y) <==> (s.contains(y) || y == x) by {
            if y == x {
                assert(r[0] == y);
            }
        }
        assert forall|a: Seq<char>| has_app(r, a) <==> (has_app(s, a) || a == x.0) by {
            if a == x.0 {
                assert(r[0].0 == a);
            }
        }
    } else if s[0].1 < x.1 {
        assert(r =~= seq![x] + s);
        assert forall|y: (Seq<char>, int)| r.contains(y) <==> (s.contains(y) || y == x) by {
            if s.contains(y) {
                let i = choose|i: int| 0 <= i < s.len() && s[i] == y;
                assert(r[i + 1] == y);
            }
            if y == x {
                assert(r[0] == y);
            }
            if r.contains(y) {
                let i = choose|i: int| 0 <= i < r.len() && r[i] == y;
                if i > 0 {
                    assert(s[i - 1] == y);
                }
            }
        }
        if counts_descending(s) {
            assert forall|i: int, j: int| 0 <= i < j < r.len() implies #[trigger] r[i].1 >= #[trigger] r[j].1 by {
                assert(r[j] == s[j - 1]);
                if i > 0 {
                    assert(r[i] == s[i - 1]);
                } else {
                    assert(s[0].1 >= s[j - 1].1);
                }
            }
        }
        if apps_once(s) && !has_app(s, x.0) {
            assert forall|i: int, j: int| 0 <= i < j < r.len() implies #[trigger] r[i].0 != #[trigger] r[j].0 by {
                assert(r[j] == s[j - 1]);
                if i > 0 {
                    assert(r[i] == s[i - 1]);
                }
            }
        }
        assert forall|a: Seq<char>| has_app(r, a) <==> (has_app(s, a) || a == x.0) by {
            if has_app(s, a) {
                let i = choose|i: int| 0 <= i < s.len() && #[trigger] s[i].0 == a;
                assert(r[i + 1].0 == a);
            }
            if a == x.0 {
                assert(r[0].0 == a);
            }
            if has_app(r, a) {
                let i = choose|i: int| 0 <= i < r.len() && #[trigger] r[i].0 == a;
                if i > 0 {
                    assert(s[i - 1].0 == a);
                }
            }
        }
    } else {
        let rest = s.drop_first();
        lemma_insert_desc(rest, x);
        let r2 = insert_desc(rest, x);
        assert(r == seq![s[0]] + r2);
        assert forall|y: (Seq<char>, int)| r.contains(y) <==> (s.contains(y) || y == x) by {
            if s.contains(y) {
                let i = choose|i: int| 0 <= i < s.len() && s[i] == y;
                if i == 0 {
                    assert(r[0] == y);
                } else {
                    assert(rest[i - 1] == y);
                    assert(rest.contains(y));
                    assert(r2.contains(y));
                    let m = choose|m: int| 0 <= m < r2.len() && r2[m] == y;
                    assert(r[m + 1] == y);
                }
            }
            if y == x {
                assert(r2.contains(y));
                let m = choose|m: int| 0 <= m < r2.len() && r2[m] == y;
                assert(r[m + 1] == y);
            }
            if r.contains(y) {
                let i = choose|i: int| 0 <= i < r.len() && r[i] == y;
                if i == 0 {
                    assert(s[0] == y);
                } else {
                    assert(r2[i - 1] == y);
                    assert(r2.contains(y));
                    if rest.contains(y) {
                        let m = choose|m: int| 0 <= m < rest.len() && rest[m] == y;
                        assert(s[m + 1] == y);
                    }
                }
            }
        }
        if counts_descending(s) {
            assert(counts_descending(rest)) by {
                assert forall|i: int, j: int| 0 <= i < j < rest.len() implies #[trigger] rest[i].1
                    >= #[trigger] rest[j].1 by {
                    assert(rest[i] == s[i + 1] && rest[j] == s[j + 1]);
                }
            }
            assert forall|i: int, j: int| 0 <= i < j < r.len() implies #[trigger] r[i].1 >= #[trigger] r[j].1 by {
                assert(r[j] == r2[j - 1]);
                if i > 0 {
                    assert(r[i] == r2[i - 1]);
                } else {
                    assert(r2.contains(r2[j - 1]));
                    if rest.contains(r2[j - 1]) {
                        let m = choose|m: int| 0 <= m < rest.len() && rest[m] == r2[j - 1];
                        assert(s[m + 1] == rest[m]);
                    }
                }
            }
        }
        assert forall|a: Seq<char>| has_app(r, a) <==> (has_app(s, a) || a == x.0) by {
            if has_app(s, a) {
                let i = choose|i: int| 0 <= i < s.len() && #[trigger] s[i].0 == a;
                if i == 0 {
                    assert(r[0].0 == a);
                } else {
                    assert(rest[i - 1].0 == a);
                    assert(has_app(rest, a));
                    assert(has_app(r2, a));
                    let m = choose|m: int| 0 <= m < r2.len() && #[trigger] r2[m].0 == a;
                    assert(r[m + 1].0 == a);
                }
            }
            if a == x.0 {
                assert(has_app(r2, a));
                let m = choose|m: int| 0 <= m < r2.len() && #[trigger] r2[m].0 == a;
                assert(r[m + 1].0 == a);
            }
            if has_app(r, a) {
                let i = choose|i: int| 0 <= i < r.len() && #[trigger] r[i].0 == a;
                if i == 0 {
                    assert(s[0].0 == a);
                } else {
                    assert(r2[i - 1].0 == a);
                    assert(has_app(r2, a));
                    if has_app(rest, a) {
                        let m = choose|m: int| 0 <= m < rest.len() && #[trigger] rest[m].0 == a;
                        assert(s[m + 1].0 == a);
                    }
                }
            }
        }
        if apps_once(s) && !has_app(s, x.0) {
            assert(apps_once(rest)) by {
                assert forall|i: int, j: int| 0 <= i < j < rest.len() implies #[trigger] rest[i].0
                    != #[trigger] rest[j].0 by {
                    assert(rest[i] == s[i + 1] && rest[j] == s[j + 1]);
                }
            }
            assert(!has_app(rest, x.0)) by {
                if has_app(rest, x.0) {
                    let m = choose|m: int| 0 <= m < rest.len() && #[trigger] rest[m].0 == x.0;
                    assert(s[m + 1].0 == x.0);
                }
            }
            assert(!has_app(r2, s[0].0)) by {
                if has_app(r2, s[0].0) {
                    if has_app(rest, s[0].0) {
                        let m = choose|m: int| 0 <= m < rest.len() && #[trigger] rest[m].0 == s[0].0;
                        assert(s[m + 1].0 == s[0].0);
                    } else {
                        assert(s[0].0 == x.0);
                    }
                }
            }
            assert forall|i: int, j: int| 0 <= i < j < r.len() implies #[trigger] r[i].0 != #[trigger] r[j].0 by {
                assert(r[j] == r2[j - 1]);
                if i > 0 {
                    assert(r[i] == r2[i - 1]);
                } else if r2[j - 1].0 == s[0].0 {
                    assert(has_app(r2, s[0].0));
                }
            }
        }
    }
}

proof fn lemma_sort_desc(s: Seq<(Seq<char>, int)>)
    ensures
        counts_descending(sort_desc(s)),
        sort_desc(s).len() == s.len(),
        apps_once(s) ==> apps_once(sort_desc(s)),
        forall|a: Seq<char>| #[trigger] has_app(sort_desc(s), a) <==> has_app(s, a),
        forall|y: (Seq<char>, int)| #[trigger] sort_desc(s).contains(y) <==> s.contains(y),
    decreases s.len(),
{
    if s.len() > 0 {
        let prev = s.drop_last();
        lemma_sort_desc(prev);
        lemma_insert_desc(sort_desc(prev), s.last());
        assert forall|y: (Seq<char>, int)| s.contains(y) <==> (prev.contains(y) || y == s.last()) by {
            if s.contains(y) {
                let i = choose|i: int| 0 <= i < s.len() && s[i] == y;
                if i < s.len() - 1 {
                    assert(prev[i] == y);
                }
            }
            if prev.contains(y) {
                let i = choose|i: int| 0 <= i < prev.len() && prev[i] == y;
                assert(s[i] == y);
            }
            if y == s.last() {
                assert(s[s.len() - 1] == y);
            }
        }
        assert forall|a: Seq<char>| has_app(s, a) <==> (has_app(prev, a) || a == s.last().0) by {
            if has_app(s, a) {
                let i = choose|i: int| 0 <= i < s.len() && #[trigger] s[i].0 == a;
                if i < s.len() - 1 {
                    assert(prev[i].0 == a);
                }
            }
            if has_app(prev, a) {
                let i = choose|i: int| 0 <= i < prev.len() && #[trigger] prev[i].0 == a;
                assert(s[i].0 == a);
            }
            if a == s.last().0 {
                assert(s[s.len() - 1].0 == a);
            }
        }
        if apps_once(s) {
            assert(apps_once(prev)) by {
                assert forall|i: int, j: int| 0 <= i < j < prev.len() implies #[trigger] prev[i].0
                    != #[trigger] prev[j].0 by {
                    assert(prev[i] == s[i] && prev[j] == s[j]);
                }
            }
            assert(!has_app(prev, s.last().0)) by {
                if has_app(prev, s.last().0) {
                    let i = choose|i: int| 0 <= i < prev.len() && #[trigger] prev[i].0 == s.last().0;
                    assert(s[i].0 == s[s.len() - 1].0);
                }
            }
        }
    }
}

/// The keystroke summary lists every app that was typed in, and only those,
/// each exactly once, largest byte count first.
pub proof fn lemma_summary_entries(rows: Seq<(Seq<char>, Seq<char>)>)
    ensures
        counts_descending(sort_desc(app_totals(rows))),
        apps_once(sort_desc(app_totals(rows))),
        forall|a: Seq<char>| has_app(sort_desc(app_totals(rows)), a) <==> typed_in(rows, a),
{
    lemma_app_totals(rows);
    lemma_sort_desc(app_totals(rows));
}

pub open spec fn totals_view(v: Seq<(String, usize)>) -> Seq<(Seq<char>, int)> {
    v.map_values(|p: (String, usize)| (p.0@, p.1 as int))
}

/// Adds `n` bytes to `app`'s total (see `add_to_totals`).
fn add_total(totals: &mut Vec<(String, usize)>, app: &String, n: usize)
    ensures
        totals_view(final(totals)@) == add_to_totals(totals_view(old(totals)@), app@, n as int),
{
    let ghost t0 = totals_view(totals@);
    let app_chars = chars_of(app.as_str());
    let mut i: usize = 0;
    assert(t0.skip(0) =~= t0);
    assert(t0.subrange(0, 0) + add_to_totals(t0, app@, n as int) =~= add_to_totals(t0, app@, n as int));
    while i < totals.len()
        invariant
            totals@ == old(totals)@,
            t0 == totals_view(totals@),
            app_chars@ == app@,
            i <= totals@.len(),
            forall|j: int| 0 <= j < i ==> totals@[j].0@ != app@,
            add_to_totals(t0, app@, n as int) == t0.subrange(0, i as int) + add_to_totals(
                t0.skip(i as int),
                app@,
                n as int,
            ),
        decreases totals@.len() - i,
    {
        let entry_name: &String = &totals[i].0;
        assert(entry_name@ == totals@[i as int].0@);
        let name = chars_of(entry_name.as_str());
        assert(name@ == totals@[i as int].0@);
        assert(app_chars@ == app@);
        let ghost rest = t0.skip(i as int);
        assert(rest[0] == t0[i as int]);
        assert(t0[i as int] == (totals@[i as int].0@, totals@[i as int].1 as int));
        if chars_eq(&name, &app_chars) {
            assert(rest[0].0 == app@);
            assert(rest.drop_first() =~= t0.skip(i + 1));
            let t = totals[i].1;
            let count: usize = if n > usize::MAX - t {
                usize::MAX
            } else {
                t + n
            };
            let name_s = totals[i].0.clone();
            totals.set(i, (name_s, count));
            assert(add_to_totals(rest, app@, n as int) == seq![(app@, sat_add(rest[0].1, n as int))]
                + rest.drop_first());
            assert(totals_view(totals@) =~= t0.subrange(0, i as int) + add_to_totals(
                rest,
                app@,
                n as int,
            ));
            return;
        }
        assert(totals@[i as int].0@ != app@);
        assert(rest.drop_first() =~= t0.skip(i + 1));
        assert(t0.subrange(0, i as int) + (seq![t0[i as int]] + add_to_totals(
            t0.skip(i + 1),
            app@,
            n as int,
        )) =~= t0.subrange(0, i + 1) + add_to_totals(t0.skip(i + 1), app@, n as int));
        i = i + 1;
    }
    totals.push((app.clone(), n));
    assert(totals_view(totals@) =~= t0.subrange(0, i as int) + add_to_totals(
        t0.skip(i as int),
        app@,
        n as int,
    ));
}


/// Inserts `x` before the first entry with a smaller count (see `insert_desc`).
fn insert_sorted(sorted: &mut Vec<(String, usize)>, x: (String, usize))
    ensures
        totals_view(final(sorted)@) == insert_desc(totals_view(old(sorted)@), (x.0@, x.1 as int)),
{
    let ghost s0 = totals_view(sorted@);
    let ghost xv = (x.0@, x.1 as int);
    let mut j: usize = 0;
    assert(s0.skip(0) =~= s0);
    assert(s0.subrange(0, 0) + insert_desc(s0, xv) =~= insert_desc(s0, xv));
    while j < sorted.len() && sorted[j].1 >= x.1
        invariant
            sorted@ == old(sorted)@,
            s0 == totals_view(sorted@),
            xv == (x.0@, x.1 as int),
            j <= sorted@.len(),
            insert_desc(s0, xv) == s0.subrange(0, j as int) + insert_desc(s0.skip(j as int), xv),
        decreases sorted@.len() - j,
    {
        let ghost rest = s0.skip(j as int);
        assert(rest[0] == s0[j as int]);
        assert(rest.drop_first() =~= s0.skip(j + 1));
        assert(s0.subrange(0, j as int) + (seq![s0[j as int]] + insert_desc(s0.skip(j + 1), xv))
            =~= s0.subrange(0, j + 1) + insert_desc(s0.skip(j + 1), xv));
        j = j + 1;
    }
    let ghost rest = s0.skip(j as int);
    assert(rest.len() == 0 || rest[0] == s0[j as int]);
    sorted.insert(j, x);
    assert(totals_view(sorted@) =~= s0.subrange(0, j as int) + (seq![xv] + rest));
}

/// Stable sort by count, largest first (see `sort_desc`).
fn sort_totals(v: &Vec<(String, usize)>) -> (r: Vec<(String, usize)>)
    ensures
        totals_view(r@) == sort_desc(totals_view(v@)),
{
    let ghost tv = totals_view(v@);
    let mut sorted: Vec<(String, usize)> = Vec::new();
    let mut i: usize = 0;
    assert(tv.take(0) =~= seq![]);
    while i < v.len()
        invariant
            tv == totals_view(v@),
            i <= v@.len(),
            totals_view(sorted@) == sort_desc(tv.take(i as int)),
        decreases v@.len() - i,
    {
        let x = (v[i].0.clone(), v[i].1);
        insert_sorted(&mut sorted, x);
        assert(tv.take(i + 1).drop_last() =~= tv.take(i as int));
        assert(tv.take(i + 1).last() == tv[i as int]);
        i = i + 1;
    }
    assert(tv.take(i as int) =~= tv);
    sorted
}

/// The keystroke summary of chronological (app, chars) rows (see
/// `keystroke_summary_spec`).
pub fn keystroke_summary(rows: &Vec<(String, String)>) -> (r: String)
    ensures
        r@ == keystroke_summary_spec(pairs_of(rows@)),
{
    let ghost pv = pairs_of(rows@);
    if rows.len() == 0 {
        return "No recent keystrokes recorded.".to_string();
    }
    let mut totals: Vec<(String, usize)> = Vec::new();
    let mut switches: usize = 0;
    let mut i: usize = 0;
    assert(pv.take(0) =~= seq![]);
    while i < rows.len()
        invariant
            pv == pairs_of(rows@),
            i <= rows@.len(),
            switches <= i,
            totals_view(totals@) == app_totals(pv.take(i as int)),
            switches == app_switches(pv.take(i as int)),
        decreases rows@.len() - i,
    {
        let app = &rows[i].0;
        let n = rows[i].1.as_str().as_bytes().len();
        assert(pv[i as int] == pair_view(rows@[i as int]));
        add_total(&mut totals, app, n);
        if i > 0 {
            let a = chars_of(rows[i - 1].0.as_str());
            let b = chars_of(app.as_str());
            assert(pv[i - 1] == pair_view(rows@[i - 1]));
            if !chars_eq(&a, &b) {
                switches = switches + 1;
            }
        }
        let ghost t = pv.take(i + 1);
        assert(t.drop_last() =~= pv.take(i as int));
        assert(t.last() == pv[i as int]);
        assert(i > 0 ==> t[t.len() - 2] == pv[i - 1]);
        i = i + 1;
    }
    assert(pv.take(i as int) =~= pv);
    let sorted = sort_totals(&totals);
    let mut out: Vec<char> = Vec::new();
    let mut k: usize = 0;
    let ghost entries = totals_view(sorted@);
    assert(entries.take(0) =~= seq![]);
    while k < sorted.len()
        invariant
            entries == totals_view(sorted@),
            k <= sorted@.len(),
            out@ == summary_lines(entries.take(k as int)),
        decreases sorted@.len() - k,
    {
        out.push('-');
        out.push(' ');
        push_usize(&mut out, sorted[k].1);
        push_str(&mut out, " chars in ");
        push_str(&mut out, sorted[k].0.as_str());
        out.push('\n');
        let ghost t = entries.take(k + 1);
        assert(t.drop_last() =~= entries.take(k as int));
        assert(t.last() == entries[k as int]);
        assert(out@ =~= summary_lines(t));
        k = k + 1;
    }
    assert(entries.take(k as int) =~= entries);
    out.push('-');
    out.push(' ');
    push_usize(&mut out, switches);
    push_str(&mut out, " app switches");
    assert(out@ =~= keystroke_summary_spec(pv));
    string_of(out.as_slice())
}

} // verus!
