use haushalt_frontend::markdown::markdown_to_html;

#[test]
fn markdown_is_rendered_to_html() {
    assert_eq!(markdown_to_html("hello\n=====\n\n* alpha\n* beta\n"), "<h1>hello</h1>\n<ul>\n<li>alpha</li>\n<li>beta</li>\n</ul>\n");
    assert_eq!(markdown_to_html("**bold**"), "<p><strong>bold</strong></p>\n");
    assert_eq!(markdown_to_html(""), "");
}
