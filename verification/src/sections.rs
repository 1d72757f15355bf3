//! The two generated sections of a post and the text that is spoken.

use vstd::prelude::*;
use vstd::string::*;

verus! {

/// The number of characters of the spoken text that a log line shows.
pub const EXCERPT_CHARS: usize = 50;

/// The beginner-friendly explanation generated for `content`.
pub open spec fn beginner_explanation_text(content: Seq<char>) -> Seq<char> {
    "[Generated beginner-friendly explanation for: "@ + content + "]"@
}

/// The step-by-step guide generated for `content`.
pub open spec fn step_by_step_guide_text(content: Seq<char>) -> Seq<char> {
    "[Generated step-by-step guide for: "@ + content + "]"@
}

/// The text that is spoken: the title and the two sections, with an empty
/// line between them.
pub open spec fn speech_text_of(title: Seq<char>, beginner: Seq<char>, guide: Seq<char>) -> Seq<
    char,
> {
    title + "\n\n"@ + beginner + "\n\n"@ + guide
}

/// The beginning of `text`: its first `EXCERPT_CHARS` characters, or all of
/// it if it has fewer.
pub open spec fn excerpt_of(text: Seq<char>) -> Seq<char> {
    if text.len() <= EXCERPT_CHARS {
        text
    } else {
        text.take(EXCERPT_CHARS as int)
    }
}

/// Generates the beginner-friendly explanation of `content`.
pub fn generate_beginner_explanation(content: &str) -> (text: String)
    ensures
        text@ == beginner_explanation_text(content@),
{
    let mut text = String::from_str("[Generated beginner-friendly explanation for: ");
    text.append(content);
    text.append("]");
    text
}

/// Generates the step-by-step guide for `content`.
pub fn generate_step_by_step_guide(content: &str) -> (text: String)
    ensures
        text@ == step_by_step_guide_text(content@),
{
    let mut text = String::from_str("[Generated step-by-step guide for: ");
    text.append(content);
    text.append("]");
    text
}

/// Assembles the text that is spoken from the title and the two sections.
/// Empty parts are taken as they are.
pub fn speech_text(title: &str, beginner: &str, guide: &str) -> (speech: String)
    ensures
        speech@ == speech_text_of(title@, beginner@, guide@),
{
    let mut speech = String::from_str(title);
    speech.append("\n\n");
    speech.append(beginner);
    speech.append("\n\n");
    speech.append(guide);
    speech
}

/// The beginning of `text`, short enough for a log line.
pub fn excerpt(text: &str) -> (head: String)
    ensures
        head@ == excerpt_of(text@),
{
    let length = text.unicode_len();
    if length <= EXCERPT_CHARS {
        String::from_str(text)
    } else {
        assert(text@.take(EXCERPT_CHARS as int) =~= text@.subrange(0, EXCERPT_CHARS as int));
        String::from_str(text.substring_char(0, EXCERPT_CHARS))
    }
}

} // verus!
