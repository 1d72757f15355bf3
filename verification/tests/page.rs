use blog_generator::page::{
    content_or_default, find_content, find_title, page_content, page_title, title_or_default,
    CONTENT_SELECTOR, DEFAULT_CONTENT, DEFAULT_TITLE, MAX_DOCUMENT_BYTES, TITLE_SELECTOR,
};

const PAGE: &str = "<!DOCTYPE html><html><head><title>Docs</title></head><body>\
<h1>Content <em>Overview</em></h1>\
<div class=\"documentation__content\"><p>Zola uses the <code>content</code> directory.</p>\
<p>Sections &amp; pages.</p></div>\
<h1>Second heading</h1>\
</body></html>";

#[test]
fn the_selectors_and_defaults_are_fixed() {
    assert_eq!(TITLE_SELECTOR, "h1");
    assert_eq!(CONTENT_SELECTOR, "div.documentation__content");
    assert_eq!(DEFAULT_TITLE, "Content Overview");
    assert_eq!(DEFAULT_CONTENT, "Default content");
}

#[test]
fn the_title_is_the_inner_html_of_the_first_heading() {
    assert_eq!(find_title(PAGE), Some("Content <em>Overview</em>".to_string()));
    assert_eq!(page_title(PAGE), "Content <em>Overview</em>");
}

#[test]
fn the_content_is_the_text_below_the_content_element() {
    assert_eq!(
        find_content(PAGE),
        Some("Zola uses the content directory.Sections & pages.".to_string())
    );
    assert_eq!(page_content(PAGE), "Zola uses the content directory.Sections & pages.");
}

#[test]
fn a_page_without_the_elements_gets_the_defaults() {
    let page = "<html><body><h2>Not a title</h2><div class=\"other\">text</div></body></html>";
    assert_eq!(find_title(page), None);
    assert_eq!(find_content(page), None);
    assert_eq!(page_title(page), "Content Overview");
    assert_eq!(page_content(page), "Default content");
}

#[test]
fn an_empty_page_gets_the_defaults() {
    assert_eq!(page_title(""), "Content Overview");
    assert_eq!(page_content(""), "Default content");
}

#[test]
fn an_empty_heading_is_an_empty_title() {
    let page = "<h1></h1><div class=\"documentation__content\"></div>";
    assert_eq!(find_title(page), Some(String::new()));
    assert_eq!(page_title(page), "");
    assert_eq!(page_content(page), "");
}

#[test]
fn markup_in_the_title_is_escaped_as_html() {
    assert_eq!(page_title("<h1>Tips & tricks</h1>"), "Tips &amp; tricks");
}

#[test]
fn the_content_element_is_found_by_its_class() {
    let page = "<div class=\"documentation__content wide\">first</div>\
<div class=\"documentation__content\">second</div>";
    assert_eq!(page_content(page), "first");
    let span = "<span class=\"documentation__content\">not a div</span>";
    assert_eq!(page_content(span), "Default content");
}

#[test]
fn what_was_found_is_kept_and_what_was_not_is_replaced() {
    assert_eq!(title_or_default(Some("A title".to_string())), "A title");
    assert_eq!(title_or_default(Some(String::new())), "");
    assert_eq!(title_or_default(None), "Content Overview");
    assert_eq!(content_or_default(Some("A body".to_string())), "A body");
    assert_eq!(content_or_default(Some(String::new())), "");
    assert_eq!(content_or_default(None), "Default content");
}

#[test]
fn a_document_beyond_the_limit_is_not_parsed() {
    assert_eq!(MAX_DOCUMENT_BYTES, 268_435_456);
    let head = "<h1>Title</h1><div class=\"documentation__content\">Body</div>";
    assert_eq!(find_title(head), Some("Title".to_string()));
    assert_eq!(find_content(head), Some("Body".to_string()));
    let mut page = String::from(head);
    page.push_str(&" ".repeat(MAX_DOCUMENT_BYTES + 1 - head.len()));
    assert_eq!(page.len(), MAX_DOCUMENT_BYTES + 1);
    assert_eq!(find_title(&page), None);
    assert_eq!(find_content(&page), None);
    assert_eq!(page_title(&page), "Content Overview");
    assert_eq!(page_content(&page), "Default content");
}
