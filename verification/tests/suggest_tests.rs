use aihelper::suggest::suggestions_from_activity;

fn strings(v: &[&str]) -> Vec<String> {
    v.iter().map(|s| s.to_string()).collect()
}

fn names_and_rules(v: &[aihelper::records::ProjectSuggestion]) -> Vec<(String, Vec<String>)> {
    v.iter().map(|s| (s.name.clone(), s.rules.clone())).collect()
}

#[test]
fn suggestions_from_vscode_slack_and_apps() {
    let existing = strings(&["MyProj"]);
    let titles = strings(&[
        "main.rs - myproj - Visual Studio Code",
        "lib.rs - Other \"Q\" - Visual Studio Code",
        "no marker at all",
        "x - Visual Studio Code",
        "a -   spaced  - Visual Studio Code",
    ]);
    let apps = strings(&["Firefox", "Code", "Slack", "Other \"Q\"", "Firefox", "Terminal"]);
    let r = suggestions_from_activity(&existing, &titles, true, &apps);
    assert_eq!(
        names_and_rules(&r),
        vec![
            (
                "Other \"Q\"".to_string(),
                strings(&["app_name = \"Code\" and $contains(window_title, \"Other \\\"Q\\\"\")"])
            ),
            (
                "spaced".to_string(),
                strings(&["app_name = \"Code\" and $contains(window_title, \"spaced\")"])
            ),
            ("Slack".to_string(), strings(&["$contains($lowercase(app_name), \"slack\")"])),
            ("Firefox".to_string(), strings(&["app_name = \"Firefox\""])),
            ("Terminal".to_string(), strings(&["app_name = \"Terminal\""])),
        ]
    );
}

#[test]
fn no_slack_suggestion_when_taken_or_unused() {
    let r = suggestions_from_activity(&strings(&["SLACK"]), &Vec::new(), true, &Vec::new());
    assert!(r.is_empty());
    let r = suggestions_from_activity(&Vec::new(), &Vec::new(), false, &strings(&["Slack"]));
    assert!(r.is_empty());
}

#[test]
fn apps_mentioning_code_are_skipped() {
    let r = suggestions_from_activity(&Vec::new(), &Vec::new(), false, &strings(&["Xcode", "MySlackApp", "Zed"]));
    assert_eq!(names_and_rules(&r), vec![("Zed".to_string(), strings(&["app_name = \"Zed\""]))]);
}

#[test]
fn suggestion_names_are_distinct_ignoring_case() {
    let titles = strings(&["f - Proj - Visual Studio Code", "g - proj - Visual Studio Code"]);
    let apps = strings(&["Proj", "Notes", "Notes"]);
    let r = suggestions_from_activity(&Vec::new(), &titles, true, &apps);
    let lower: Vec<String> = r.iter().map(|s| s.name.to_lowercase()).collect();
    for i in 0..lower.len() {
        for j in (i + 1)..lower.len() {
            assert_ne!(lower[i], lower[j]);
        }
    }
    assert_eq!(lower, strings(&["proj", "slack", "notes"]));
}
