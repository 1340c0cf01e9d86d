//! The activity digest appended to the AI system prompt.
use vstd::prelude::*;
use crate::insights::{format_secs, format_secs_spec};
use crate::records::{Project, ProjectRule, ProjectSummary, TextCount, UntaggedSummaryRow};
use crate::text::{decimal, push_i64, push_str, string_of};

verus! {

/// `list` joined with `sep` between items.
pub open spec fn join(list: Seq<Seq<char>>, sep: Seq<char>) -> Seq<char>
    decreases list.len(),
{
    if list.len() == 0 {
        seq![]
    } else if list.len() == 1 {
        list[0]
    } else {
        join(list.drop_last(), sep) + sep + list.last()
    }
}

/// "- NAME — N keys, D active\n" per project.
pub open spec fn summary_section(s: Seq<ProjectSummary>) -> Seq<char>
    decreases s.len(),
{
    if s.len() == 0 {
        seq![]
    } else {
        summary_section(s.drop_last()) + seq!['-', ' '] + s.last().name@ + " — "@ + decimal(
            s.last().keystroke_count as int,
        ) + " keys, "@ + format_secs_spec(s.last().active_secs as int) + " active\n"@
    }
}

/// The expressions of the rules that belong to project `id`, in order.
pub open spec fn rules_of(rules: Seq<ProjectRule>, id: i64) -> Seq<Seq<char>>
    decreases rules.len(),
{
    if rules.len() == 0 {
        seq![]
    } else if rules.last().project_id == id {
        rules_of(rules.drop_last(), id).push(rules.last().expression@)
    } else {
        rules_of(rules.drop_last(), id)
    }
}

/// The rules listed for a project are exactly its own: the expressions of
/// the rules whose `project_id` is the project's id, every one of them, in
/// the order given, and no other.
pub proof fn lemma_rules_of(rules: Seq<ProjectRule>, id: i64)
    ensures
        rules_of(rules, id) == rules.filter(|r: ProjectRule| r.project_id == id).map_values(
            |r: ProjectRule| r.expression@,
        ),
    decreases rules.len(),
{
    reveal_with_fuel(Seq::filter, 1);
    let pred = |r: ProjectRule| r.project_id == id;
    let ex = |r: ProjectRule| r.expression@;
    if rules.len() > 0 {
        lemma_rules_of(rules.drop_last(), id);
        let sub = rules.drop_last().filter(pred);
        if pred(rules.last()) {
            assert(sub.push(rules.last()).map_values(ex) =~= sub.map_values(ex).push(
                rules.last().expression@,
            ));
        }
    } else {
        assert(rules.filter(pred).map_values(ex) =~= Seq::<Seq<char>>::empty());
    }
}

/// "- NAME: E1 | E2\n" per project that has rules.
pub open spec fn rules_section(projects: Seq<Project>, rules: Seq<ProjectRule>) -> Seq<char>
    decreases projects.len(),
{
    if projects.len() == 0 {
        seq![]
    } else {
        let p = projects.last();
        let prs = rules_of(rules, p.id);
        rules_section(projects.drop_last(), rules) + if prs.len() > 0 {
            seq!['-', ' '] + p.name@ + seq![':', ' '] + join(prs, " | "@) + seq!['\n']
        } else {
            seq![]
        }
    }
}

/// "APP (N)" for each untagged app.
pub open spec fn untagged_labels(apps: Seq<UntaggedSummaryRow>) -> Seq<Seq<char>> {
    apps.map_values(|r: UntaggedSummaryRow| r.app_name@ + " ("@ + decimal(r.total as int) + ")"@)
}

/// "- APP — D\n" per app.
pub open spec fn top_apps_section(w: Seq<TextCount>) -> Seq<char>
    decreases w.len(),
{
    if w.len() == 0 {
        seq![]
    } else {
        top_apps_section(w.drop_last()) + seq!['-', ' '] + w.last().0@ + " — "@ + format_secs_spec(
            w.last().1 as int,
        ) + seq!['\n']
    }
}

/// The project-stats part of the digest.
pub open spec fn ctx_summaries(summaries: Seq<ProjectSummary>) -> Seq<char> {
    if summaries.len() > 0 {
        "\nProjects (today's stats):\n"@ + summary_section(summaries)
    } else {
        "\nNo projects configured yet.\n"@
    }
}

/// The tagging-rules part of the digest.
pub open spec fn ctx_rules(projects: Seq<Project>, rules: Seq<ProjectRule>) -> Seq<char> {
    if rules.len() > 0 {
        "\nTagging rules:\n"@ + rules_section(projects, rules)
    } else {
        seq![]
    }
}

/// The untagged-activity part of the digest (top ten apps).
pub open spec fn ctx_untagged(untagged_total: i64, untagged_apps: Seq<UntaggedSummaryRow>) -> Seq<
    char,
> {
    if untagged_total > 0 {
        "\nUntagged activities: "@ + decimal(untagged_total as int) + " total\n"@
            + "Top untagged apps: "@ + join(
            untagged_labels(untagged_apps.take(min_len(untagged_apps.len(), 10))),
            ", "@,
        ) + seq!['\n']
    } else {
        seq![]
    }
}

/// The top-apps part of the digest (ten apps).
pub open spec fn ctx_top(top_windows: Seq<TextCount>) -> Seq<char> {
    if top_windows.len() > 0 {
        "\nTop apps today (by time):\n"@ + top_apps_section(
            top_windows.take(min_len(top_windows.len(), 10)),
        )
    } else {
        seq![]
    }
}

/// The activity digest: today's project stats, the tagging rules of each
/// project, untagged totals with the top ten untagged apps, and the ten apps
/// used longest today.
pub open spec fn chat_context_spec(
    summaries: Seq<ProjectSummary>,
    projects: Seq<Project>,
    rules: Seq<ProjectRule>,
    untagged_total: i64,
    untagged_apps: Seq<UntaggedSummaryRow>,
    top_windows: Seq<TextCount>,
) -> Seq<char> {
    "\n\n--- User's Activity Data ---\n"@ + ctx_summaries(summaries) + ctx_rules(projects, rules)
        + ctx_untagged(untagged_total, untagged_apps) + ctx_top(top_windows)
        + "--- End Activity Data ---\n"@
}

pub open spec fn min_len(n: nat, m: int) -> int {
    if n < m {
        n as int
    } else {
        m
    }
}

/// Appends `list` joined with `sep`.
fn push_joined(out: &mut Vec<char>, list: &Vec<Vec<char>>, sep: &str)
    ensures
        final(out)@ == old(out)@ + join(list@.map_values(|x: Vec<char>| x@), sep@),
{
    let ghost lv = list@.map_values(|x: Vec<char>| x@);
    let mut i: usize = 0;
    assert(lv.take(0) =~= seq![]);
    assert(out@ =~= old(out)@ + join(lv.take(0), sep@));
    while i < list.len()
        invariant
            lv == list@.map_values(|x: Vec<char>| x@),
            i <= list@.len(),
            out@ == old(out)@ + join(lv.take(i as int), sep@),
        decreases list@.len() - i,
    {
        if i > 0 {
            push_str(out, sep);
        }
        crate::text::push_all(out, list[i].as_slice());
        let ghost t = lv.take(i + 1);
        assert(t.drop_last() =~= lv.take(i as int));
        assert(t.last() == list@[i as int]@);
        if i == 0 {
            assert(t =~= seq![list@[0]@]);
        }
        i = i + 1;
    }
    assert(lv.take(i as int) =~= lv);
}

/// The expressions of the rules of project `id` (see `rules_of`).
fn rule_exprs(rules: &Vec<ProjectRule>, id: i64) -> (r: Vec<Vec<char>>)
    ensures
        r@.map_values(|x: Vec<char>| x@) == rules_of(rules@, id),
{
    let mut out: Vec<Vec<char>> = Vec::new();
    let mut i: usize = 0;
    assert(rules@.take(0) =~= seq![]);
    while i < rules.len()
        invariant
            i <= rules@.len(),
            out@.map_values(|x: Vec<char>| x@) == rules_of(rules@.take(i as int), id),
        decreases rules@.len() - i,
    {
        let ghost before = out@.map_values(|x: Vec<char>| x@);
        if rules[i].project_id == id {
            out.push(crate::text::chars_of(rules[i].expression.as_str()));
            assert(out@.map_values(|x: Vec<char>| x@) =~= before.push(rules@[i as int].expression@));
        }
        let ghost t = rules@.take(i + 1);
        assert(t.drop_last() =~= rules@.take(i as int));
        assert(t.last() == rules@[i as int]);
        i = i + 1;
    }
    assert(rules@.take(i as int) =~= rules@);
    out
}

fn summaries_part(summaries: &Vec<ProjectSummary>) -> (r: Vec<char>)
    ensures
        r@ == summary_section(summaries@),
{
    let mut out: Vec<char> = Vec::new();
    let mut i: usize = 0;
    assert(summaries@.take(0) =~= seq![]);
    while i < summaries.len()
        invariant
            i <= summaries@.len(),
            out@ == summary_section(summaries@.take(i as int)),
        decreases summaries@.len() - i,
    {
        let s = &summaries[i];
        out.push('-');
        out.push(' ');
        push_str(&mut out, s.name.as_str());
        push_str(&mut out, " — ");
        push_i64(&mut out, s.keystroke_count);
        push_str(&mut out, " keys, ");
        let d = format_secs(s.active_secs);
        push_str(&mut out, d.as_str());
        push_str(&mut out, " active\n");
        let ghost t = summaries@.take(i + 1);
        assert(t.drop_last() =~= summaries@.take(i as int));
        assert(t.last() == summaries@[i as int]);
        assert(out@ =~= summary_section(t));
        i = i + 1;
    }
    assert(summaries@.take(i as int) =~= summaries@);
    out
}

fn rules_part(projects: &Vec<Project>, rules: &Vec<ProjectRule>) -> (r: Vec<char>)
    ensures
        r@ == rules_section(projects@, rules@),
{
    let mut out: Vec<char> = Vec::new();
    let mut i: usize = 0;
    assert(projects@.take(0) =~= seq![]);
    while i < projects.len()
        invariant
            i <= projects@.len(),
            out@ == rules_section(projects@.take(i as int), rules@),
        decreases projects@.len() - i,
    {
        let p = &projects[i];
        let prs = rule_exprs(rules, p.id);
        if prs.len() > 0 {
            out.push('-');
            out.push(' ');
            push_str(&mut out, p.name.as_str());
            out.push(':');
            out.push(' ');
            push_joined(&mut out, &prs, " | ");
            out.push('\n');
        }
        let ghost t = projects@.take(i + 1);
        assert(t.drop_last() =~= projects@.take(i as int));
        assert(t.last() == projects@[i as int]);
        assert(out@ =~= rules_section(t, rules@));
        i = i + 1;
    }
    assert(projects@.take(i as int) =~= projects@);
    out
}

fn untagged_part(untagged_apps: &Vec<UntaggedSummaryRow>) -> (r: Vec<char>)
    ensures
        r@ == join(
            untagged_labels(untagged_apps@.take(min_len(untagged_apps@.len(), 10))),
            ", "@,
        ),
{
    let n: usize = if untagged_apps.len() < 10 {
        untagged_apps.len()
    } else {
        10
    };
    let ghost shown = untagged_apps@.take(n as int);
    let mut labels: Vec<Vec<char>> = Vec::new();
    let mut i: usize = 0;
    assert(untagged_labels(shown.take(0)) =~= seq![]);
    while i < n
        invariant
            n <= untagged_apps@.len(),
            shown == untagged_apps@.take(n as int),
            i <= n,
            labels@.map_values(|x: Vec<char>| x@) == untagged_labels(shown.take(i as int)),
        decreases n - i,
    {
        let a = &untagged_apps[i];
        let mut l: Vec<char> = crate::text::chars_of(a.app_name.as_str());
        push_str(&mut l, " (");
        push_i64(&mut l, a.total);
        push_str(&mut l, ")");
        let ghost before = labels@.map_values(|x: Vec<char>| x@);
        labels.push(l);
        assert(shown[i as int] == untagged_apps@[i as int]);
        assert(l@ == untagged_apps@[i as int].app_name@ + " ("@ + decimal(
            untagged_apps@[i as int].total as int,
        ) + ")"@);
        assert(untagged_labels(shown.take(i + 1)) =~= untagged_labels(shown.take(i as int)).push(
            l@,
        ));
        assert(labels@.map_values(|x: Vec<char>| x@) =~= before.push(l@));
        i = i + 1;
    }
    assert(shown.take(n as int) =~= shown);
    let mut out: Vec<char> = Vec::new();
    push_joined(&mut out, &labels, ", ");
    assert(out@ =~= join(untagged_labels(shown), ", "@));
    out
}

fn top_part(top_windows: &Vec<TextCount>) -> (r: Vec<char>)
    ensures
        r@ == top_apps_section(top_windows@.take(min_len(top_windows@.len(), 10))),
{
    let n: usize = if top_windows.len() < 10 {
        top_windows.len()
    } else {
        10
    };
    let ghost shown = top_windows@.take(n as int);
    let mut out: Vec<char> = Vec::new();
    let mut i: usize = 0;
    assert(shown.take(0) =~= seq![]);
    while i < n
        invariant
            n <= top_windows@.len(),
            shown == top_windows@.take(n as int),
            i <= n,
            out@ == top_apps_section(shown.take(i as int)),
        decreases n - i,
    {
        let w = &top_windows[i];
        out.push('-');
        out.push(' ');
        push_str(&mut out, w.0.as_str());
        push_str(&mut out, " — ");
        let d = format_secs(w.1);
        push_str(&mut out, d.as_str());
        out.push('\n');
        let ghost t = shown.take(i + 1);
        assert(t.drop_last() =~= shown.take(i as int));
        assert(t.last() == top_windows@[i as int]);
        assert(out@ =~= top_apps_section(t));
        i = i + 1;
    }
    assert(shown.take(n as int) =~= shown);
    out
}

fn summaries_block(summaries: &Vec<ProjectSummary>) -> (r: Vec<char>)
    ensures
        r@ == ctx_summaries(summaries@),
{
    if summaries.len() > 0 {
        let mut out = crate::text::chars_of("\nProjects (today's stats):\n");
        let part = summaries_part(summaries);
        crate::text::push_all(&mut out, part.as_slice());
        out
    } else {
        crate::text::chars_of("\nNo projects configured yet.\n")
    }
}

fn rules_block(projects: &Vec<Project>, rules: &Vec<ProjectRule>) -> (r: Vec<char>)
    ensures
        r@ == ctx_rules(projects@, rules@),
{
    if rules.len() > 0 {
        let mut out = crate::text::chars_of("\nTagging rules:\n");
        let part = rules_part(projects, rules);
        crate::text::push_all(&mut out, part.as_slice());
        out
    } else {
        Vec::new()
    }
}

fn untagged_block(untagged_total: i64, untagged_apps: &Vec<UntaggedSummaryRow>) -> (r: Vec<char>)
    ensures
        r@ == ctx_untagged(untagged_total, untagged_apps@),
{
    if untagged_total > 0 {
        let mut out = crate::text::chars_of("\nUntagged activities: ");
        push_i64(&mut out, untagged_total);
        push_str(&mut out, " total\n");
        push_str(&mut out, "Top untagged apps: ");
        let part = untagged_part(untagged_apps);
        crate::text::push_all(&mut out, part.as_slice());
        out.push('\n');
        out
    } else {
        Vec::new()
    }
}

fn top_block(top_windows: &Vec<TextCount>) -> (r: Vec<char>)
    ensures
        r@ == ctx_top(top_windows@),
{
    if top_windows.len() > 0 {
        let mut out = crate::text::chars_of("\nTop apps today (by time):\n");
        let part = top_part(top_windows);
        crate::text::push_all(&mut out, part.as_slice());
        out
    } else {
        Vec::new()
    }
}

/// The activity digest (see `chat_context_spec`).
pub fn chat_context_text(
    summaries: &Vec<ProjectSummary>,
    projects: &Vec<Project>,
    rules: &Vec<ProjectRule>,
    untagged_total: i64,
    untagged_apps: &Vec<UntaggedSummaryRow>,
    top_windows: &Vec<TextCount>,
) -> (r: String)
    ensures
        r@ == chat_context_spec(
            summaries@,
            projects@,
            rules@,
            untagged_total,
            untagged_apps@,
            top_windows@,
        ),
{
    let mut out: Vec<char> = crate::text::chars_of("\n\n--- User's Activity Data ---\n");
    let a = summaries_block(summaries);
    crate::text::push_all(&mut out, a.as_slice());
    let b = rules_block(projects, rules);
    crate::text::push_all(&mut out, b.as_slice());
    let c = untagged_block(untagged_total, untagged_apps);
    crate::text::push_all(&mut out, c.as_slice());
    let d = top_block(top_windows);
    crate::text::push_all(&mut out, d.as_slice());
    push_str(&mut out, "--- End Activity Data ---\n");
    string_of(out.as_slice())
}

} // verus!
