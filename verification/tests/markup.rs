use cokacdir::markup::{
    html_escape, markdown_to_telegram_html, normalize_empty_lines, truncate_str,
};

#[test]
fn html_special_characters_are_escaped() {
    assert_eq!(html_escape("a < b && c > d"), "a &lt; b &amp;&amp; c &gt; d");
    assert_eq!(html_escape("&lt;"), "&amp;lt;");
    assert_eq!(html_escape(""), "");
    assert_eq!(html_escape("plain ünï"), "plain ünï");
}

#[test]
fn empty_lines_are_squeezed() {
    assert_eq!(normalize_empty_lines("a\n\n\n\nb"), "a\n\nb");
    assert_eq!(normalize_empty_lines("a\nb"), "a\nb");
    assert_eq!(normalize_empty_lines("a\n\nb\n\n\nc\n"), "a\n\nb\n\nc");
    assert_eq!(normalize_empty_lines("\n\na"), "\n\na");
    assert_eq!(normalize_empty_lines("a\r\n\r\n\r\nb"), "a\n\nb");
    assert_eq!(normalize_empty_lines(""), "");
    assert_eq!(normalize_empty_lines("a\n \nb"), "a\n \nb");
}

#[test]
fn truncation_keeps_whole_lines_and_characters() {
    assert_eq!(truncate_str("hello", 10), "hello");
    assert_eq!(truncate_str("hello", 5), "hello");
    assert_eq!(truncate_str("hello world", 5), "hello");
    assert_eq!(truncate_str("line one\nline two\nline three", 20), "line one\nline two");
    assert_eq!(truncate_str("line one\nline two", 9), "line one");
    assert_eq!(truncate_str("日本語", 4), "日");
    assert_eq!(truncate_str("日本語", 2), "");
    assert_eq!(truncate_str("\nabc", 2), "");
}

#[test]
fn headings_become_bold() {
    assert_eq!(markdown_to_telegram_html("# Title"), "<b>Title</b>");
    assert_eq!(markdown_to_telegram_html("###### Deep"), "<b>Deep</b>");
    assert_eq!(markdown_to_telegram_html("####### Seven"), "####### Seven");
    assert_eq!(markdown_to_telegram_html("#NoSpace"), "#NoSpace");
    assert_eq!(markdown_to_telegram_html("  ##   Indented"), "<b>Indented</b>");
    assert_eq!(markdown_to_telegram_html("# a < b"), "<b>a &lt; b</b>");
}

#[test]
fn lists_get_bullets() {
    assert_eq!(markdown_to_telegram_html("- one\n- two"), "• one\n• two");
    assert_eq!(markdown_to_telegram_html("* star"), "• star");
    assert_eq!(markdown_to_telegram_html("  - nested"), "• nested");
    assert_eq!(markdown_to_telegram_html("-no"), "-no");
}

#[test]
fn inline_marks_become_elements() {
    assert_eq!(markdown_to_telegram_html("a **bold** b"), "a <b>bold</b> b");
    assert_eq!(markdown_to_telegram_html("an *italic* word"), "an <i>italic</i> word");
    assert_eq!(markdown_to_telegram_html("use `x < 1` here"), "use <code>x &lt; 1</code> here");
    assert_eq!(markdown_to_telegram_html("`**not bold**`"), "<code>**not bold**</code>");
    assert_eq!(markdown_to_telegram_html("**bold** and `code` and *it*"),
               "<b>bold</b> and <code>code</code> and <i>it</i>");
    assert_eq!(markdown_to_telegram_html("lonely * star"), "lonely * star");
    assert_eq!(markdown_to_telegram_html("**open"), "**open");
    assert_eq!(markdown_to_telegram_html("one ` tick"), "one ` tick");
    assert_eq!(markdown_to_telegram_html("****"), "<i>**</i>");
    assert_eq!(markdown_to_telegram_html("2 * 3 * 4"), "2 <i> 3 </i> 4");
}

#[test]
fn code_blocks_become_pre() {
    assert_eq!(
        markdown_to_telegram_html("before\n```rust\nlet a = 1 < 2;\n```\nafter"),
        "before\n<pre>let a = 1 &lt; 2;</pre>\nafter"
    );
    assert_eq!(markdown_to_telegram_html("```\n**x**\n# y\n```"), "<pre>**x**\n# y</pre>");
    // a block left open runs to the end
    assert_eq!(markdown_to_telegram_html("```\nopen\nstill"), "<pre>open\nstill</pre>");
    // an empty block leaves a line only
    assert_eq!(markdown_to_telegram_html("a\n```\n```\nb"), "a\n\nb");
    assert_eq!(markdown_to_telegram_html("```\ncode  \n\n```"), "<pre>code</pre>");
}

#[test]
fn trailing_space_is_removed() {
    assert_eq!(markdown_to_telegram_html("text\n\n\n"), "text");
    assert_eq!(markdown_to_telegram_html(""), "");
    assert_eq!(markdown_to_telegram_html("a\n\nb"), "a\n\nb");
}
