use chalmers_thesis::resolve::resolve_label;
use chalmers_thesis::hostio::resolve_label_json;

fn log(entries: &[&str]) -> Vec<String> {
    entries.iter().map(|e| e.to_string()).collect()
}

#[test]
fn heading_then_label_resolves_chapter_number() {
    let l = log(&["h1", "label/x"]);
    assert_eq!(resolve_label(&l, "x"), "1");
}

#[test]
fn figure_after_subsection_resolves_chapter_dot_figure() {
    let l = log(&["h1", "h2", "fig", "label/f"]);
    assert_eq!(resolve_label(&l, "f"), "1.1");
}

#[test]
fn second_figure_in_chapter_counts_two() {
    let l = log(&["h1", "fig", "fig", "label/f"]);
    assert_eq!(resolve_label(&l, "f"), "1.2");
}

#[test]
fn figure_counter_restarts_at_new_chapter() {
    let l = log(&["h1", "fig", "label/a", "h1", "fig", "label/b"]);
    assert_eq!(resolve_label(&l, "a"), "1.1");
    assert_eq!(resolve_label(&l, "b"), "2.1");
}

#[test]
fn table_counter_restarts_at_new_chapter() {
    let l = log(&["h1", "tab", "label/a", "h1", "tab", "tab", "label/b"]);
    assert_eq!(resolve_label(&l, "a"), "1.1");
    assert_eq!(resolve_label(&l, "b"), "2.2");
}

#[test]
fn second_level_heading_counts_within_chapter() {
    let l = log(&["h1", "h2", "h2", "label/x"]);
    assert_eq!(resolve_label(&l, "x"), "1.2");
}

#[test]
fn new_chapter_resets_section_counter() {
    let l = log(&["h1", "h2", "h2", "h1", "h2", "label/x"]);
    assert_eq!(resolve_label(&l, "x"), "2.1");
}

#[test]
fn deep_heading_prefix_joins_with_dots() {
    let l = log(&["h1", "h2", "h3", "label/x"]);
    assert_eq!(resolve_label(&l, "x"), "1.1.1");
}

#[test]
fn resolving_twice_returns_the_same_string() {
    let l = log(&["h1", "fig", "label/f", "h2", "label/s"]);
    let first = resolve_label(&l, "f");
    let second = resolve_label(&l, "f");
    assert_eq!(first, second);
    assert_eq!(resolve_label(&l, "s"), resolve_label(&l, "s"));
}

#[test]
fn absent_label_resolves_to_empty_string() {
    let l = log(&["h1", "fig", "tab", "h2", "label/other"]);
    assert_eq!(resolve_label(&l, "missing"), "");
    assert_eq!(resolve_label(&log(&[]), "missing"), "");
}

#[test]
fn label_before_any_structure_resolves_to_empty_string() {
    let l = log(&["label/x"]);
    assert_eq!(resolve_label(&l, "x"), "");
    let l2 = log(&["label/y", "label/x", "h1"]);
    assert_eq!(resolve_label(&l2, "x"), "");
}

#[test]
fn first_occurrence_of_a_repeated_label_wins() {
    let l = log(&["h1", "label/x", "h1", "label/x"]);
    assert_eq!(resolve_label(&l, "x"), "1");
}

#[test]
fn figure_before_any_heading_counts_in_chapter_zero() {
    let l = log(&["fig", "label/f"]);
    assert_eq!(resolve_label(&l, "f"), "0.1");
}

#[test]
fn unknown_entries_are_ignored() {
    let l = log(&["h1", "something-else", "h9", "label/x"]);
    assert_eq!(resolve_label(&l, "x"), "1");
}

#[test]
fn level_six_heading_carries_no_number() {
    let l = log(&["h1", "fig", "h6", "label/x"]);
    assert_eq!(resolve_label(&l, "x"), "1");
}

#[test]
fn label_name_may_contain_the_prefix() {
    let l = log(&["h1", "label/label/x"]);
    assert_eq!(resolve_label(&l, "label/x"), "1");
    assert_eq!(resolve_label(&l, "x"), "");
}

#[test]
fn json_log_resolves_like_the_list() {
    let out = resolve_label_json("[\"h1\",\"h2\",\"fig\",\"label/f\"]", "f");
    assert_eq!(out, Some("1.1".to_string()));
}

#[test]
fn json_that_is_no_string_list_is_refused() {
    assert_eq!(resolve_label_json("not json", "x"), None);
    assert_eq!(resolve_label_json("{\"a\":1}", "x"), None);
    assert_eq!(resolve_label_json("[1,2]", "x"), None);
}

#[test]
fn empty_json_log_resolves_to_empty_string() {
    assert_eq!(resolve_label_json("[]", "x"), Some(String::new()));
}
