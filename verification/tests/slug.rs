use blog_generator::slug::{post_file, slug, slug_char, slug_from_lowercase};

#[test]
fn a_slug_is_lowercase_with_hyphens_for_spaces() {
    assert_eq!(slug("Content Overview"), "content-overview");
    assert_eq!(slug("Hello World"), "hello-world");
}

#[test]
fn a_slug_drops_what_is_not_a_letter_a_number_or_a_hyphen() {
    assert_eq!(slug("Tips & Tricks: 2nd Edition!"), "tips--tricks-2nd-edition");
    assert_eq!(slug("Content <em>Overview</em>"), "content-emoverviewem");
    assert_eq!(slug("a_b.c/d"), "abcd");
    assert_eq!(slug("tab\there"), "tabhere");
}

#[test]
fn a_slug_keeps_hyphens_and_every_space() {
    assert_eq!(slug("well-known  facts"), "well-known--facts");
    assert_eq!(slug(" lead and trail "), "-lead-and-trail-");
}

#[test]
fn a_slug_keeps_letters_and_numbers_of_any_script() {
    assert_eq!(slug("Über Straße 42"), "über-straße-42");
    assert_eq!(slug("ÉCOLE"), "école");
    assert_eq!(slug("日本語 ガイド"), "日本語-ガイド");
}

#[test]
fn the_slug_of_nothing_is_nothing() {
    assert_eq!(slug(""), "");
    assert_eq!(slug("!?"), "");
}

#[test]
fn the_slug_of_a_lowercase_title_changes_no_letter() {
    assert_eq!(slug_from_lowercase("content overview"), "content-overview");
    assert_eq!(slug_from_lowercase("Content Overview"), "Content-Overview");
    assert_eq!(slug_from_lowercase(""), "");
}

#[test]
fn each_character_is_kept_replaced_or_dropped() {
    assert_eq!(slug_char(' ', false), Some('-'));
    assert_eq!(slug_char(' ', true), Some('-'));
    assert_eq!(slug_char('-', false), Some('-'));
    assert_eq!(slug_char('a', true), Some('a'));
    assert_eq!(slug_char('7', true), Some('7'));
    assert_eq!(slug_char('!', false), None);
    assert_eq!(slug_char('_', false), None);
}

#[test]
fn a_post_lies_in_the_blog_directory() {
    assert_eq!(post_file("content-overview"), "../content/blog/content-overview.md");
    assert_eq!(post_file(""), "../content/blog/.md");
}
