use mdow::render::add_syntax_highlighting_containers;
use mdow::render::convert_markdown_to_html;
use mdow::render::render_markdown;
use mdow::text::find_first;
use mdow::text::replace;
use mdow::text::str_equal;

fn count_occurrences(haystack: &str, needle: &str) -> usize {
    let mut count = 0;
    let mut rest = haystack;
    while let Some(pos) = rest.find(needle) {
        count += 1;
        rest = &rest[pos + needle.len()..];
    }
    count
}

#[test]
fn rendering_is_deterministic() {
    let input = "# Title\n\nSome *markdown* with a | table | cell |\n";
    let first = convert_markdown_to_html(input);
    let second = convert_markdown_to_html(input);
    assert_eq!(first, second);
}

#[test]
fn rendering_full_pipeline_is_deterministic() {
    let input = "hello <script>alert(1)</script> *world*";
    let first = render_markdown(input);
    let second = render_markdown(input);
    assert_eq!(first, second);
}

#[test]
fn heading_markdown_becomes_heading_html() {
    let html = convert_markdown_to_html("# Hello");
    assert!(html.contains("<h1>Hello</h1>"));
    assert_ne!(html, "# Hello");
}

#[test]
fn code_block_pre_is_wrapped_exactly_once() {
    let html = convert_markdown_to_html("```\ncode\n```");
    assert_eq!(count_occurrences(&html, "<pre>"), 1);
    assert_eq!(count_occurrences(&html, "<div class=\"highlighter-rouge\"><pre>"), 1);
    assert_eq!(count_occurrences(&html, "</pre></div>"), 1);
}

#[test]
fn strikethrough_extension_is_enabled() {
    let html = convert_markdown_to_html("~~gone~~");
    assert!(html.contains("<del>gone</del>"));
}

#[test]
fn table_extension_is_enabled() {
    let html = convert_markdown_to_html("| a | b |\n|---|---|\n| 1 | 2 |\n");
    assert!(html.contains("<table>"));
}

#[test]
fn tasklist_extension_is_enabled() {
    let html = convert_markdown_to_html("- [x] done\n- [ ] open\n");
    assert!(html.contains("checkbox"));
}

#[test]
fn wrapping_is_a_plain_text_transform() {
    let wrapped = add_syntax_highlighting_containers(String::from("<pre>x</pre>"));
    assert_eq!(wrapped, "<div class=\"highlighter-rouge\"><pre>x</pre></div>");
}

#[test]
fn wrapping_leaves_other_text_alone() {
    let wrapped = add_syntax_highlighting_containers(String::from("<p>no code here</p>"));
    assert_eq!(wrapped, "<p>no code here</p>");
}

#[test]
fn replace_is_leftmost_and_non_overlapping() {
    assert_eq!(replace("aaa", "aa", "b"), "ba");
    assert_eq!(replace("abcabc", "b", "xy"), "axycaxyc");
    assert_eq!(replace("abc", "zz", "q"), "abc");
    assert_eq!(replace("", "zz", "q"), "");
}

#[test]
fn replace_handles_multibyte_characters() {
    assert_eq!(replace("héllo héllo", "héllo", "ok"), "ok ok");
}

#[test]
fn find_first_returns_leftmost_index() {
    assert_eq!(find_first("xyzxy", "xy"), Some(0));
    assert_eq!(find_first("abxy", "xy"), Some(2));
    assert_eq!(find_first("abc", "xy"), None);
}

#[test]
fn str_equal_compares_characters() {
    assert!(str_equal("abc", "abc"));
    assert!(!str_equal("abc", "abd"));
    assert!(!str_equal("abc", "ab"));
    assert!(str_equal("", ""));
}
