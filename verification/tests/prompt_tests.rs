use page_summary::prompt::compose_prompt;

#[test]
fn token_replaced_by_content() {
    assert_eq!(compose_prompt("Summarize: {content}", "X"), "Summarize: X");
}

#[test]
fn template_without_token_unchanged() {
    assert_eq!(compose_prompt("Summarize this page.", "X"), "Summarize this page.");
}

#[test]
fn every_occurrence_replaced() {
    assert_eq!(compose_prompt("{content} and {content}", "A"), "A and A");
}

#[test]
fn substituted_content_not_rescanned() {
    assert_eq!(compose_prompt("{content}", "{content}"), "{content}");
}

#[test]
fn empty_content_leaves_surroundings() {
    assert_eq!(compose_prompt("a{content}b", ""), "ab");
}
