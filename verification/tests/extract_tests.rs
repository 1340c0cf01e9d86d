use aihelper::extract::{extract_json_array, json_fence_unsliceable};

#[test]
fn extract_plain_array_is_trimmed() {
    let r = extract_json_array("  [1, 2, 3]  \n");
    assert_eq!(r, Ok("[1, 2, 3]".to_string()));
}

#[test]
fn extract_from_json_fence() {
    let text = "Here you go:\n```json\n[{\"name\": \"A\"}]\n```\nThanks";
    assert_eq!(extract_json_array(text), Ok("[{\"name\": \"A\"}]".to_string()));
}

#[test]
fn extract_from_fence_without_language_tag() {
    let text = "```\n  [\"x\"]  \n```";
    assert_eq!(extract_json_array(text), Ok("[\"x\"]".to_string()));
}

#[test]
fn extract_by_brackets_when_fence_holds_no_array() {
    let text = "Answer ```\nnot an array\n``` and also [1, [2]] done";
    assert_eq!(extract_json_array(text), Ok("[1, [2]]".to_string()));
}

#[test]
fn extract_by_brackets_in_prose() {
    assert_eq!(
        extract_json_array("The list is [\"a\", \"b\"]."),
        Ok("[\"a\", \"b\"]".to_string())
    );
}

#[test]
fn extract_fails_without_array() {
    let msg = "Could not find JSON array in AI response".to_string();
    assert_eq!(extract_json_array("no brackets here"), Err(msg.clone()));
    assert_eq!(extract_json_array("closing ] before opening ["), Err(msg.clone()));
    assert_eq!(extract_json_array(""), Err(msg));
}

#[test]
fn extract_is_idempotent_on_its_result() {
    let text = "Sure!\n```json\n[1, 2]\n```";
    let once = extract_json_array(text).unwrap();
    let twice = extract_json_array(&once).unwrap();
    assert_eq!(once, twice);
}

#[test]
fn fence_without_newline_at_end_is_unsliceable() {
    assert!(json_fence_unsliceable("text ```"));
    assert!(!json_fence_unsliceable("text ```x"));
    assert!(!json_fence_unsliceable("[1]"));
    assert!(!json_fence_unsliceable("no fence"));
}

#[test]
fn fence_without_newline_is_skipped_by_one_char() {
    // The language tag is skipped up to the newline; with none, one character is skipped.
    assert_eq!(extract_json_array("```x[5]```"), Ok("[5]".to_string()));
    assert_eq!(extract_json_array("```[5]```"), Ok("[5]".to_string()));
}
