use komo::gui::md::{neutralize, to_html, Piece};

#[test]
fn renders_basic_markdown() {
    let html = to_html("**bold** and `code`");
    assert!(html.contains("<strong>bold</strong>"));
    assert!(html.contains("<code>code</code>"));
}

#[test]
fn raw_html_is_escaped_not_passed_through() {
    let html = to_html("<script>alert(1)</script>\n\nhi");
    assert!(
        !html.contains("<script>"),
        "raw HTML must not reach the webview: {html}"
    );
    assert!(html.contains("&lt;script&gt;"));
}

#[test]
fn inline_html_is_escaped() {
    let html = to_html("a <img src=x onerror=alert(1)> b");
    assert!(
        !html.contains("<img"),
        "inline HTML must be escaped: {html}"
    );
}

#[test]
fn tables_and_strikethrough_are_rendered() {
    assert!(to_html("~~gone~~").contains("<del>gone</del>"));
    assert!(to_html("|a|\n|-|\n|b|\n").contains("<table>"));
}

#[test]
fn only_raw_html_is_turned_into_text() {
    let pieces = vec![
        Piece::Html("<p>".to_string()),
        Piece::Markdown,
        Piece::InlineHtml("<b>".to_string()),
        Piece::Text("x".to_string()),
    ];
    assert_eq!(
        neutralize(pieces),
        vec![
            Piece::Text("<p>".to_string()),
            Piece::Markdown,
            Piece::Text("<b>".to_string()),
            Piece::Text("x".to_string()),
        ]
    );
}

#[test]
fn a_document_without_raw_html_renders_whole() {
    assert_eq!(
        to_html("# Title\n\na *b* [c](http://d) & e\n"),
        "<h1>Title</h1>\n<p>a <em>b</em> <a href=\"http://d\">c</a> &amp; e</p>\n"
    );
}
