use blog_generator::sections::{
    excerpt, generate_beginner_explanation, generate_step_by_step_guide, speech_text,
    EXCERPT_CHARS,
};

#[test]
fn the_explanation_wraps_the_content() {
    assert_eq!(
        generate_beginner_explanation("Zola uses the content directory."),
        "[Generated beginner-friendly explanation for: Zola uses the content directory.]"
    );
    assert_eq!(
        generate_beginner_explanation(""),
        "[Generated beginner-friendly explanation for: ]"
    );
}

#[test]
fn the_guide_wraps_the_content() {
    assert_eq!(
        generate_step_by_step_guide("Zola uses the content directory."),
        "[Generated step-by-step guide for: Zola uses the content directory.]"
    );
    assert_eq!(generate_step_by_step_guide(""), "[Generated step-by-step guide for: ]");
}

#[test]
fn the_spoken_text_joins_its_parts_with_empty_lines() {
    assert_eq!(speech_text("Title", "first", "second"), "Title\n\nfirst\n\nsecond");
}

#[test]
fn the_spoken_text_takes_empty_parts_as_they_are() {
    assert_eq!(speech_text("", "", ""), "\n\n\n\n");
    assert_eq!(speech_text("Title", "", "second"), "Title\n\n\n\nsecond");
}

#[test]
fn an_excerpt_has_at_most_fifty_characters() {
    assert_eq!(EXCERPT_CHARS, 50);
    let long = "0123456789".repeat(6);
    assert_eq!(excerpt(&long), "01234567890123456789012345678901234567890123456789");
    let exact = "0123456789".repeat(5);
    assert_eq!(excerpt(&exact), exact);
    assert_eq!(excerpt("short"), "short");
    assert_eq!(excerpt(""), "");
}

#[test]
fn an_excerpt_counts_characters_not_bytes() {
    let long = "é".repeat(60);
    assert_eq!(excerpt(&long), "é".repeat(50));
}
