//! Project suggestions derived from window activity: VS Code workspaces,
//! one Slack project, and apps used for a long time, never repeating a name
//! that is already taken (compared in lowercase).
use vstd::prelude::*;
use crate::records::ProjectSuggestion;
use crate::text::{
    chars_eq, chars_of, find, find_chars, lemma_rfind_below_props, matches_at, push_all, push_str,
    rfind, rfind_chars, slice_chars, string_of, to_lowercase, trim, trim_chars, unicode_lowercase,
};

verus! {

/// A suggestion as plain values: (name, rules).
pub type SuggestionView = (Seq<char>, Seq<Seq<char>>);

pub open spec fn suggestion_view(s: ProjectSuggestion) -> SuggestionView {
    (s.name@, strings_view(s.rules@))
}

pub open spec fn suggestions_view(v: Seq<ProjectSuggestion>) -> Seq<SuggestionView> {
    v.map_values(|s: ProjectSuggestion| suggestion_view(s))
}

pub open spec fn strings_view(v: Seq<String>) -> Seq<Seq<char>> {
    v.map_values(|s: String| s@)
}

/// `s` with every `"` preceded by a backslash.
pub open spec fn escape_quotes(s: Seq<char>) -> Seq<char>
    decreases s.len(),
{
    if s.len() == 0 {
        seq![]
    } else {
        escape_quotes(s.drop_last()) + if s.last() == '"' {
            seq!['\\', '"']
        } else {
            seq![s.last()]
        }
    }
}

pub open spec fn vscode_marker() -> Seq<char> {
    " - Visual Studio Code"@
}

pub open spec fn dash_separator() -> Seq<char> {
    " - "@
}

/// The workspace named by a VS Code title "file - workspace - Visual Studio Code":
/// the trimmed text between the last " - " and the last " - Visual Studio Code".
pub open spec fn vscode_workspace(title: Seq<char>) -> Option<Seq<char>> {
    match rfind(title, vscode_marker()) {
        Some(pos) => {
            let prefix = title.take(pos);
            match rfind(prefix, dash_separator()) {
                Some(d) => Some(trim(prefix.skip(d + 3))),
                None => None,
            }
        },
        None => None,
    }
}

pub open spec fn vscode_rule(ws: Seq<char>) -> Seq<char> {
    "app_name = \"Code\" and $contains(window_title, \""@ + escape_quotes(ws) + "\")"@
}

pub open spec fn slack_rule() -> Seq<char> {
    "$contains($lowercase(app_name), \"slack\")"@
}

pub open spec fn app_rule(app: Seq<char>) -> Seq<char> {
    "app_name = \""@ + escape_quotes(app) + "\""@
}

/// Suggestion state: lowercase names taken so far, and the suggestions made.
pub type SuggestState = (Seq<Seq<char>>, Seq<SuggestionView>);

/// One VS Code title: a new non-empty workspace becomes a suggestion.
pub open spec fn vscode_step(st: SuggestState, title: Seq<char>) -> SuggestState {
    match vscode_workspace(title) {
        Some(ws) => {
            let key = unicode_lowercase(ws);
            if ws.len() > 0 && !st.0.contains(key) {
                (st.0.push(key), st.1.push((ws, seq![vscode_rule(ws)])))
            } else {
                st
            }
        },
        None => st,
    }
}

pub open spec fn vscode_fold(st: SuggestState, titles: Seq<Seq<char>>) -> SuggestState
    decreases titles.len(),
{
    if titles.len() == 0 {
        st
    } else {
        vscode_step(vscode_fold(st, titles.drop_last()), titles.last())
    }
}

/// Slack activity adds one "Slack" project unless "slack" is taken.
pub open spec fn slack_step(st: SuggestState, has_slack: bool) -> SuggestState {
    if has_slack && !st.0.contains("slack"@) {
        (st.0.push("slack"@), st.1.push(("Slack"@, seq![slack_rule()])))
    } else {
        st
    }
}

/// An app is a candidate unless its lowercase name mentions "code" or
/// "slack" or is taken.
pub open spec fn app_candidate(taken: Seq<Seq<char>>, app: Seq<char>) -> bool {
    let lower = unicode_lowercase(app);
    &&& find(lower, "code"@) is None
    &&& find(lower, "slack"@) is None
    &&& !taken.contains(lower)
}

/// The candidate apps, each name once, in order of first appearance.
pub open spec fn app_candidates(taken: Seq<Seq<char>>, apps: Seq<Seq<char>>) -> Seq<Seq<char>>
    decreases apps.len(),
{
    if apps.len() == 0 {
        seq![]
    } else {
        let prev = app_candidates(taken, apps.drop_last());
        let a = apps.last();
        if app_candidate(taken, a) && !prev.contains(a) {
            prev.push(a)
        } else {
            prev
        }
    }
}

/// All suggestions for the given existing project names, VS Code titles,
/// whether Slack was used, and long-used apps.
pub open spec fn suggestions_spec(
    existing: Seq<Seq<char>>,
    vscode_titles: Seq<Seq<char>>,
    has_slack: bool,
    apps: Seq<Seq<char>>,
) -> Seq<SuggestionView> {
    let seen0 = existing.map_values(|n: Seq<char>| unicode_lowercase(n));
    let st = slack_step(vscode_fold((seen0, seq![]), vscode_titles), has_slack);
    st.1 + app_candidates(st.0, apps).map_values(|a: Seq<char>| (a, seq![app_rule(a)]))
}

/// `s` with every `"` escaped (see `escape_quotes`).
pub fn push_escaped(out: &mut Vec<char>, s: &Vec<char>)
    ensures
        final(out)@ == old(out)@ + escape_quotes(s@),
{
    let mut i: usize = 0;
    assert(s@.take(0) =~= seq![]);
    while i < s.len()
        invariant
            i <= s@.len(),
            out@ == old(out)@ + escape_quotes(s@.take(i as int)),
        decreases s@.len() - i,
    {
        let c = s[i];
        if c == '"' {
            out.push('\\');
            out.push('"');
        } else {
            out.push(c);
        }
        let ghost t = s@.take(i + 1);
        assert(t.drop_last() =~= s@.take(i as int));
        i = i + 1;
    }
    assert(s@.take(i as int) =~= s@);
}

/// Whether `keys` holds `k`.
fn holds(keys: &Vec<Vec<char>>, k: &Vec<char>) -> (r: bool)
    ensures
        r == keys@.map_values(|x: Vec<char>| x@).contains(k@),
{
    let ghost kv = keys@.map_values(|x: Vec<char>| x@);
    let mut i: usize = 0;
    while i < keys.len()
        invariant
            kv == keys@.map_values(|x: Vec<char>| x@),
            i <= keys@.len(),
            forall|j: int| 0 <= j < i ==> kv[j] != k@,
        decreases keys@.len() - i,
    {
        if chars_eq(&keys[i], k) {
            assert(kv[i as int] == k@);
            return true;
        }
        i = i + 1;
    }
    false
}

pub open spec fn keys_view(keys: Seq<Vec<char>>) -> Seq<Seq<char>> {
    keys.map_values(|x: Vec<char>| x@)
}

fn lowercase_chars(s: &Vec<char>) -> (r: Vec<char>)
    ensures
        r@ == unicode_lowercase(s@),
{
    let st = string_of(s.as_slice());
    let low = to_lowercase(st.as_str());
    chars_of(low.as_str())
}

fn one_rule(rule: Vec<char>) -> (r: Vec<String>)
    ensures
        strings_view(r@) == seq![rule@],
{
    let mut v: Vec<String> = Vec::new();
    v.push(string_of(rule.as_slice()));
    assert(strings_view(v@) =~= seq![rule@]);
    v
}

/// The workspace of a VS Code title (see `vscode_workspace`).
pub fn workspace_of(title: &Vec<char>) -> (r: Option<Vec<char>>)
    ensures
        r matches Some(w) ==> vscode_workspace(title@) == Some(w@),
        r is None ==> vscode_workspace(title@) is None,
{
    let marker = chars_of(" - Visual Studio Code");
    let dash = chars_of(" - ");
    let pos = match rfind_chars(title, &marker) {
        Some(p) => p,
        None => {
            return None;
        },
    };
    proof {
        lemma_rfind_below_props(title@, vscode_marker(), title@.len() - vscode_marker().len());
    }
    let prefix = slice_chars(title, 0, pos);
    assert(prefix@ == title@.take(pos as int));
    let d = match rfind_chars(&prefix, &dash) {
        Some(d) => d,
        None => {
            return None;
        },
    };
    proof {
        lemma_rfind_below_props(prefix@, dash_separator(), prefix@.len() - dash_separator().len());
        reveal_strlit(" - ");
    }
    let plen = prefix.len();
    let rest = slice_chars(&prefix, d + 3, plen);
    assert(rest@ == prefix@.skip(d + 3));
    Some(trim_chars(&rest))
}

/// Project suggestions (see `suggestions_spec`) from the existing project
/// names, the VS Code window titles, whether any Slack window was seen, and
/// the apps used longest.
pub fn suggestions_from_activity(
    existing: &Vec<String>,
    vscode_titles: &Vec<String>,
    has_slack: bool,
    apps: &Vec<String>,
) -> (r: Vec<ProjectSuggestion>)
    ensures
        suggestions_view(r@) == suggestions_spec(
            strings_view(existing@),
            strings_view(vscode_titles@),
            has_slack,
            strings_view(apps@),
        ),
{
    let ghost ex = strings_view(existing@);
    let ghost titles = strings_view(vscode_titles@);
    let ghost appv = strings_view(apps@);
    let ghost seen0 = ex.map_values(|n: Seq<char>| unicode_lowercase(n));
    // Lowercase names of existing projects.
    let mut seen: Vec<Vec<char>> = Vec::new();
    let mut i: usize = 0;
    while i < existing.len()
        invariant
            ex == strings_view(existing@),
            seen0 == ex.map_values(|n: Seq<char>| unicode_lowercase(n)),
            i <= existing@.len(),
            keys_view(seen@) == seen0.take(i as int),
        decreases existing@.len() - i,
    {
        let low = to_lowercase(existing[i].as_str());
        assert(ex[i as int] == existing@[i as int]@);
        let lc = chars_of(low.as_str());
        assert(lc@ == seen0[i as int]);
        let ghost before = keys_view(seen@);
        seen.push(lc);
        assert(keys_view(seen@) =~= before.push(seen0[i as int]));
        assert(keys_view(seen@) =~= seen0.take(i + 1));
        i = i + 1;
    }
    assert(seen0.take(i as int) =~= seen0);
    // VS Code workspaces.
    let mut out: Vec<ProjectSuggestion> = Vec::new();
    let mut k: usize = 0;
    assert(titles.take(0) =~= seq![]);
    assert(suggestions_view(out@) =~= seq![]);
    while k < vscode_titles.len()
        invariant
            titles == strings_view(vscode_titles@),
            k <= vscode_titles@.len(),
            vscode_fold((seen0, seq![]), titles.take(k as int)) == (
                keys_view(seen@),
                suggestions_view(out@),
            ),
        decreases vscode_titles@.len() - k,
    {
        let ghost st = (keys_view(seen@), suggestions_view(out@));
        let title = chars_of(vscode_titles[k].as_str());
        assert(title@ == titles[k as int]);
        assert(titles.take(k + 1).drop_last() =~= titles.take(k as int));
        assert(titles.take(k + 1).last() == titles[k as int]);
        if let Some(ws) = workspace_of(&title) {
            let key = lowercase_chars(&ws);
            if ws.len() > 0 && !holds(&seen, &key) {
                let mut rule: Vec<char> = chars_of("app_name = \"Code\" and $contains(window_title, \"");
                push_escaped(&mut rule, &ws);
                push_str(&mut rule, "\")");
                assert(rule@ =~= vscode_rule(ws@));
                let rules = one_rule(rule);
                let name = string_of(ws.as_slice());
                seen.push(key);
                out.push(ProjectSuggestion { name, rules });
                assert(keys_view(seen@) =~= st.0.push(unicode_lowercase(ws@)));
                assert(suggestions_view(out@) =~= st.1.push((ws@, seq![vscode_rule(ws@)])));
            }
        }
        k = k + 1;
    }
    assert(titles.take(k as int) =~= titles);
    // Slack.
    let slack_key = chars_of("slack");
    if has_slack && !holds(&seen, &slack_key) {
        let ghost st = (keys_view(seen@), suggestions_view(out@));
        let rules = one_rule(chars_of("$contains($lowercase(app_name), \"slack\")"));
        seen.push(slack_key);
        out.push(ProjectSuggestion { name: "Slack".to_string(), rules });
        assert(keys_view(seen@) =~= st.0.push("slack"@));
        assert(suggestions_view(out@) =~= st.1.push(("Slack"@, seq![slack_rule()])));
    }
    let ghost taken = keys_view(seen@);
    let ghost base = suggestions_view(out@);
    // Long-used apps, each name once.
    let code = chars_of("code");
    let slack = chars_of("slack");
    let mut chosen: Vec<Vec<char>> = Vec::new();
    let mut m: usize = 0;
    assert(appv.take(0) =~= seq![]);
    while m < apps.len()
        invariant
            appv == strings_view(apps@),
            taken == keys_view(seen@),
            code@ == "code"@,
            slack@ == "slack"@,
            m <= apps@.len(),
            keys_view(chosen@) == app_candidates(taken, appv.take(m as int)),
        decreases apps@.len() - m,
    {
        let app = chars_of(apps[m].as_str());
        assert(app@ == appv[m as int]);
        assert(appv.take(m + 1).drop_last() =~= appv.take(m as int));
        assert(appv.take(m + 1).last() == appv[m as int]);
        let lower = lowercase_chars(&app);
        let skip = find_chars(&lower, &code).is_some() || find_chars(&lower, &slack).is_some()
            || holds(&seen, &lower) || holds(&chosen, &app);
        if !skip {
            let ghost before = keys_view(chosen@);
            chosen.push(app);
            assert(keys_view(chosen@) =~= before.push(appv[m as int]));
        }
        m = m + 1;
    }
    assert(appv.take(m as int) =~= appv);
    let ghost cands = keys_view(chosen@);
    let mut j: usize = 0;
    while j < chosen.len()
        invariant
            cands == keys_view(chosen@),
            j <= chosen@.len(),
            suggestions_view(out@) == base + cands.take(j as int).map_values(
                |a: Seq<char>| (a, seq![app_rule(a)]),
            ),
        decreases chosen@.len() - j,
    {
        let ghost before = suggestions_view(out@);
        let mut rule: Vec<char> = chars_of("app_name = \"");
        push_escaped(&mut rule, &chosen[j]);
        rule.push('"');
        proof {
            reveal_strlit("\"");
        }
        assert(chosen@[j as int]@ == cands[j as int]);
        assert(rule@ =~= app_rule(cands[j as int]));
        let rules = one_rule(rule);
        let name = string_of(chosen[j].as_slice());
        let ghost name_v = name@;
        let ghost rules_v = strings_view(rules@);
        out.push(ProjectSuggestion { name, rules });
        assert(name_v == cands[j as int]);
        assert(rules_v == seq![app_rule(cands[j as int])]);
        assert(suggestion_view(out@.last()) == (name_v, rules_v));
        assert(suggestions_view(out@) =~= before.push((name_v, rules_v)));
        assert(cands.take(j + 1) =~= cands.take(j as int).push(cands[j as int]));
        assert(suggestions_view(out@) =~= base + cands.take(j + 1).map_values(
            |a: Seq<char>| (a, seq![app_rule(a)]),
        ));
        j = j + 1;
    }
    assert(cands.take(j as int) =~= cands);
    out
}


// ---------------------------------------------------------------------------
// No suggested name is repeated or already taken
// ---------------------------------------------------------------------------

pub open spec fn lower_name(s: SuggestionView) -> Seq<char> {
    unicode_lowercase(s.0)
}

/// No two suggestions share a lowercase name.
pub open spec fn distinct_lower_names(s: Seq<SuggestionView>) -> bool {
    forall|i: int, j: int|
        0 <= i < j < s.len() ==> lower_name(#[trigger] s[i]) != lower_name(#[trigger] s[j])
}

/// No suggestion's lowercase name is among `taken`.
pub open spec fn avoids(s: Seq<SuggestionView>, taken: Seq<Seq<char>>) -> bool {
    forall|i: int| 0 <= i < s.len() ==> !taken.contains(lower_name(#[trigger] s[i]))
}

/// App names that differ also differ in lowercase.
pub open spec fn case_distinct(apps: Seq<Seq<char>>) -> bool {
    forall|i: int, j: int|
        0 <= i < apps.len() && 0 <= j < apps.len() && apps[i] != apps[j] ==> unicode_lowercase(
            #[trigger] apps[i],
        ) != unicode_lowercase(#[trigger] apps[j])
}

/// The taken names are the initial ones followed by the suggestions' lowercase names.
pub open spec fn state_inv(seen0: Seq<Seq<char>>, st: SuggestState) -> bool {
    &&& st.0 == seen0 + st.1.map_values(|s: SuggestionView| lower_name(s))
    &&& distinct_lower_names(st.1)
    &&& avoids(st.1, seen0)
}

proof fn lemma_add_keeps_inv(seen0: Seq<Seq<char>>, st: SuggestState, sv: SuggestionView)
    requires
        state_inv(seen0, st),
        !st.0.contains(lower_name(sv)),
    ensures
        state_inv(seen0, (st.0.push(lower_name(sv)), st.1.push(sv))),
{
    let ks = st.1.map_values(|s: SuggestionView| lower_name(s));
    let n1 = st.1.push(sv);
    assert(n1.map_values(|s: SuggestionView| lower_name(s)) =~= ks.push(lower_name(sv)));
    assert(st.0.push(lower_name(sv)) =~= seen0 + n1.map_values(|s: SuggestionView| lower_name(s)));
    assert forall|i: int| 0 <= i < st.1.len() implies st.0.contains(lower_name(#[trigger] st.1[i])) by {
        assert(st.0[seen0.len() + i] == ks[i]);
    }
    assert forall|i: int| 0 <= i < seen0.len() implies st.0.contains(#[trigger] seen0[i]) by {
        assert(st.0[i] == seen0[i]);
    }
    assert forall|i: int, j: int| 0 <= i < j < n1.len() implies lower_name(#[trigger] n1[i])
        != lower_name(#[trigger] n1[j]) by {
        if j == st.1.len() {
            assert(n1[i] == st.1[i]);
        } else {
            assert(n1[i] == st.1[i] && n1[j] == st.1[j]);
        }
    }
    assert forall|i: int| 0 <= i < n1.len() implies !seen0.contains(lower_name(#[trigger] n1[i])) by {
        if i < st.1.len() {
            assert(n1[i] == st.1[i]);
        }
    }
}

proof fn lemma_vscode_fold_inv(seen0: Seq<Seq<char>>, titles: Seq<Seq<char>>)
    ensures
        state_inv(seen0, vscode_fold((seen0, seq![]), titles)),
    decreases titles.len(),
{
    if titles.len() == 0 {
        let e: Seq<SuggestionView> = seq![];
        assert(seen0 + e.map_values(|s: SuggestionView| lower_name(s)) =~= seen0);
    } else {
        lemma_vscode_fold_inv(seen0, titles.drop_last());
        let st = vscode_fold((seen0, seq![]), titles.drop_last());
        match vscode_workspace(titles.last()) {
            Some(ws) => {
                let key = unicode_lowercase(ws);
                if ws.len() > 0 && !st.0.contains(key) {
                    lemma_add_keeps_inv(seen0, st, (ws, seq![vscode_rule(ws)]));
                }
            },
            None => {},
        }
    }
}

proof fn lemma_candidates_props(taken: Seq<Seq<char>>, apps: Seq<Seq<char>>)
    ensures
        app_candidates(taken, apps).no_duplicates(),
        forall|i: int|
            0 <= i < app_candidates(taken, apps).len() ==> apps.contains(
                #[trigger] app_candidates(taken, apps)[i],
            ) && app_candidate(taken, app_candidates(taken, apps)[i]),
    decreases apps.len(),
{
    if apps.len() > 0 {
        lemma_candidates_props(taken, apps.drop_last());
        let prev = app_candidates(taken, apps.drop_last());
        assert forall|i: int| 0 <= i < prev.len() implies apps.contains(#[trigger] prev[i]) by {
            let k = choose|k: int| 0 <= k < apps.drop_last().len() && apps.drop_last()[k] == prev[i];
            assert(apps[k] == prev[i]);
        }
        assert(apps[apps.len() - 1] == apps.last());
    }
}

/// Suggestions never repeat a name, compared in lowercase, and never take
/// the lowercase name of an existing project; this holds when app names that
/// differ also differ in lowercase (and "Slack" lowercases to "slack").
pub proof fn lemma_suggestions_unique(
    existing: Seq<Seq<char>>,
    vscode_titles: Seq<Seq<char>>,
    has_slack: bool,
    apps: Seq<Seq<char>>,
)
    requires
        case_distinct(apps),
        unicode_lowercase("Slack"@) == "slack"@,
    ensures
        distinct_lower_names(suggestions_spec(existing, vscode_titles, has_slack, apps)),
        avoids(
            suggestions_spec(existing, vscode_titles, has_slack, apps),
            existing.map_values(|n: Seq<char>| unicode_lowercase(n)),
        ),
{
    let seen0 = existing.map_values(|n: Seq<char>| unicode_lowercase(n));
    lemma_vscode_fold_inv(seen0, vscode_titles);
    let st1 = vscode_fold((seen0, seq![]), vscode_titles);
    let st = slack_step(st1, has_slack);
    if has_slack && !st1.0.contains("slack"@) {
        lemma_add_keeps_inv(seen0, st1, ("Slack"@, seq![slack_rule()]));
    }
    assert(state_inv(seen0, st));
    let cands = app_candidates(st.0, apps);
    lemma_candidates_props(st.0, apps);
    let tail = cands.map_values(|a: Seq<char>| (a, seq![app_rule(a)]));
    let all = st.1 + tail;
    assert(all == suggestions_spec(existing, vscode_titles, has_slack, apps));
    assert forall|i: int| 0 <= i < st.1.len() implies st.0.contains(lower_name(#[trigger] st.1[i])) by {
        assert(st.0[seen0.len() + i] == lower_name(st.1[i]));
    }
    assert forall|i: int| 0 <= i < seen0.len() implies st.0.contains(#[trigger] seen0[i]) by {
        assert(st.0[i] == seen0[i]);
    }
    assert forall|i: int, j: int| 0 <= i < j < all.len() implies lower_name(#[trigger] all[i])
        != lower_name(#[trigger] all[j]) by {
        if j < st.1.len() {
            assert(all[i] == st.1[i] && all[j] == st.1[j]);
        } else if i < st.1.len() {
            assert(all[i] == st.1[i]);
            assert(all[j] == tail[j - st.1.len()]);
            assert(app_candidate(st.0, cands[j - st.1.len()]));
        } else {
            let a = cands[i - st.1.len()];
            let b = cands[j - st.1.len()];
            assert(all[i] == tail[i - st.1.len()]);
            assert(all[j] == tail[j - st.1.len()]);
            assert(a != b);
            assert(apps.contains(a) && apps.contains(b));
            let ia = choose|k: int| 0 <= k < apps.len() && apps[k] == a;
            let ib = choose|k: int| 0 <= k < apps.len() && apps[k] == b;
            assert(unicode_lowercase(apps[ia]) != unicode_lowercase(apps[ib]));
        }
    }
    assert forall|i: int| 0 <= i < all.len() implies !seen0.contains(lower_name(#[trigger] all[i])) by {
        if i < st.1.len() {
            assert(all[i] == st.1[i]);
        } else {
            assert(all[i] == tail[i - st.1.len()]);
            assert(app_candidate(st.0, cands[i - st.1.len()]));
            if seen0.contains(lower_name(all[i])) {
                let k = choose|k: int| 0 <= k < seen0.len() && seen0[k] == lower_name(all[i]);
                assert(st.0.contains(seen0[k]));
            }
        }
    }
}

} // verus!
