use page_summary::sanitize::sanitize_markup;

#[test]
fn tags_collapse_to_single_spaces() {
    assert_eq!(sanitize_markup("<p>Hello <b>world</b></p>"), "Hello world");
}

#[test]
fn script_content_excluded() {
    let html = "<p>A</p><script>var x = 1;\nalert(x);</script><p>B</p>";
    assert_eq!(sanitize_markup(html), "A B");
}

#[test]
fn style_content_excluded() {
    let html = "<div>A</div><style>\nbody { color: red; }\n</style><div>B</div>";
    assert_eq!(sanitize_markup(html), "A B");
}

#[test]
fn exclusion_is_case_insensitive() {
    let html = "<p>A</p><SCRIPT>hidden()</SCRIPT><p>B</p><StYlE>h2{}</StYlE>C";
    assert_eq!(sanitize_markup(html), "A B C");
}

#[test]
fn unterminated_script_suppresses_rest() {
    let html = "<p>A</p><script>var x; <p>never seen</p>";
    assert_eq!(sanitize_markup(html), "A");
}

#[test]
fn whitespace_runs_collapse() {
    assert_eq!(sanitize_markup("  a\n\t b \r\n c  "), "a b c");
}

#[test]
fn output_is_length_bounded() {
    let mut big = String::new();
    for _ in 0..30000 {
        big.push('a');
    }
    let out = sanitize_markup(&big);
    assert_eq!(out.chars().count(), 10000);

    let mut tagged = String::from("<p>");
    for _ in 0..20000 {
        tagged.push_str("word ");
    }
    tagged.push_str("</p>");
    assert!(sanitize_markup(&tagged).chars().count() <= 10000);
}

#[test]
fn void_tags_treated_like_any_tag() {
    assert_eq!(sanitize_markup("one<br/>two<img>three"), "one two three");
}
