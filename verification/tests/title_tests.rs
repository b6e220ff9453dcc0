use page_summary::entities::decode_entities;
use page_summary::title::extract_title;

#[test]
fn title_with_entities() {
    let html = "<html><head><title>Hello &amp; World</title></head></html>";
    assert_eq!(extract_title(html, "https://x.example/"), "Hello & World");
}

#[test]
fn title_case_insensitive_and_trimmed() {
    let html = "<TITLE  id=\"x\">  Spaced  </TITLE>";
    assert_eq!(extract_title(html, "https://x.example/"), "Spaced");
}

#[test]
fn host_fallback_without_title() {
    let html = "<p>nothing here</p>";
    assert_eq!(extract_title(html, "https://example.com/path"), "example.com");
}

#[test]
fn unparseable_url_returned_verbatim() {
    let html = "<p>nothing here</p>";
    assert_eq!(extract_title(html, "not a url at all"), "not a url at all");
}

#[test]
fn unclosed_title_falls_back() {
    let html = "<title>never closed";
    assert_eq!(extract_title(html, "https://example.com/a"), "example.com");
}

#[test]
fn whitespace_only_title_falls_back() {
    let html = "<title>   </title>";
    assert_eq!(extract_title(html, "https://example.com/a"), "example.com");
}

#[test]
fn nested_angle_bracket_in_title() {
    let html = "<title>a < b</title>";
    assert_eq!(extract_title(html, "https://example.com/"), "a < b");
}

#[test]
fn non_empty_for_non_empty_url() {
    assert!(!extract_title("", "x").is_empty());
    assert!(!extract_title("<title></title>", "https://example.com").is_empty());
}

#[test]
fn repeated_extraction_is_stable() {
    let html = "<html><title>Fixed</title><body>text</body></html>";
    let url = "https://example.org/page";
    let first = extract_title(html, url);
    let second = extract_title(html, url);
    assert_eq!(first, second);
    let third = extract_title(html, url);
    assert_eq!(second, third);
}

#[test]
fn decodes_each_reference() {
    assert_eq!(decode_entities("&amp;"), "&");
    assert_eq!(decode_entities("&lt;"), "<");
    assert_eq!(decode_entities("&gt;"), ">");
    assert_eq!(decode_entities("&quot;"), "\"");
    assert_eq!(decode_entities("&#39;"), "'");
    assert_eq!(decode_entities("&nbsp;"), " ");
}

#[test]
fn unknown_reference_untouched() {
    assert_eq!(decode_entities("&copy; 2020"), "&copy; 2020");
}

#[test]
fn decoded_output_not_rescanned() {
    assert_eq!(decode_entities("&amp;lt;"), "&lt;");
}
