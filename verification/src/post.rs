//! The post: what is taken from the page, and the document that is written.

use crate::assets::{reference_of, AudioArtifact, AudioReference};
use crate::mime::mime_of;
use crate::page::{
    content_found_in, content_from, page_content, page_title, title_found_in, title_from,
};
use crate::sections::{
    beginner_explanation_text, generate_beginner_explanation, generate_step_by_step_guide,
    speech_text, speech_text_of, step_by_step_guide_text,
};
use crate::slug::{lowercase_of, post_file, post_file_of, slug, slug_of};
use vstd::prelude::*;
use vstd::string::*;

verus! {

/// What a page gives to its post before any audio exists.
#[derive(Clone, Debug, PartialEq, Eq)]
pub struct Draft {
    /// The title of the page.
    pub title: String,
    /// The beginner-friendly explanation of the body of the page.
    pub beginner_explanation: String,
    /// The step-by-step guide for the body of the page.
    pub step_by_step_guide: String,
    /// The text that is spoken.
    pub speech: String,
    /// The file that the post is written to.
    pub file: String,
}

/// A post that is ready to be written.
#[derive(Clone, Debug, PartialEq, Eq)]
pub struct Post {
    /// The title of the post.
    pub title: String,
    /// The date of the post, as the front matter shows it.
    pub date: String,
    /// The address of the page that the post was generated from.
    pub source_url: String,
    /// The beginner-friendly explanation.
    pub beginner_explanation: String,
    /// The step-by-step guide.
    pub step_by_step_guide: String,
    /// The spoken rendition, if there is one.
    pub audio: Option<AudioArtifact>,
}

/// The front matter of a post.
pub open spec fn front_matter(title: Seq<char>, date: Seq<char>) -> Seq<char> {
    "+++\ntitle = \""@ + title + "\"\ndate = "@ + date + "\n+++\n"@
}

/// The line that names the page that a post was generated from.
pub open spec fn source_note(source_url: Seq<char>) -> Seq<char> {
    "\n[Generated from "@ + source_url + "]\n"@
}

/// A section of a post: its heading and its body.
pub open spec fn section(heading: Seq<char>, body: Seq<char>) -> Seq<char> {
    "\n## "@ + heading + "\n"@ + body + "\n"@
}

/// The player that embeds the audio file at `path`, under the MIME type
/// that goes with the extension of `path`.
pub open spec fn audio_player(path: Seq<char>) -> Seq<char> {
    "<audio controls><source src=\"/"@ + path + "\" type=\""@ + mime_of(path) + "\"></audio>"@
}

/// The body of the audio section: the player if there is audio, and a note
/// that there is none otherwise.
pub open spec fn audio_body(audio: Option<AudioReference>) -> Seq<char> {
    match audio {
        Some(reference) => audio_player(reference.path),
        None => "*Audio not available - Text-to-speech failed*"@,
    }
}

/// The document of a post: the front matter, the source note, the two
/// generated sections and the audio section.
pub open spec fn document_of(
    title: Seq<char>,
    date: Seq<char>,
    source_url: Seq<char>,
    beginner: Seq<char>,
    guide: Seq<char>,
    audio: Option<AudioReference>,
) -> Seq<char> {
    front_matter(title, date) + source_note(source_url) + section(
        "Beginner's Explanation"@,
        beginner,
    ) + section("Step-by-Step Guide"@, guide) + section("Audio Version"@, audio_body(audio))
}

/// Appends a section to a document.
fn append_section(document: &mut String, heading: &str, body: &str)
    ensures
        final(document)@ == old(document)@ + section(heading@, body@),
{
    document.append("\n## ");
    document.append(heading);
    document.append("\n");
    document.append(body);
    document.append("\n");
    assert(document@ =~= old(document)@ + section(heading@, body@));
}

/// The body of the audio section for `audio`.
fn render_audio_body(audio: &Option<AudioArtifact>) -> (body: String)
    ensures
        body@ == audio_body(reference_of(*audio)),
{
    match audio {
        Some(artifact) => {
            let mut body = String::from_str("<audio controls><source src=\"/");
            body.append(artifact.path());
            body.append("\" type=\"");
            body.append(artifact.mime());
            body.append("\"></audio>");
            body
        },
        None => String::from_str("*Audio not available - Text-to-speech failed*"),
    }
}

impl Draft {
    /// Takes from the page `page` what its post needs: the title, the two
    /// sections generated from the body, the text that is spoken, and the
    /// file of the post, which is named by the slug of the title. A page
    /// that is too long to be parsed gives the default title and body.
    pub fn from_page(page: &str) -> (draft: Draft)
        ensures
            draft.title@ == title_from(title_found_in(page)),
            draft.beginner_explanation@ == beginner_explanation_text(
                content_from(content_found_in(page)),
            ),
            draft.step_by_step_guide@ == step_by_step_guide_text(
                content_from(content_found_in(page)),
            ),
            draft.speech@ == speech_text_of(
                draft.title@,
                draft.beginner_explanation@,
                draft.step_by_step_guide@,
            ),
            draft.file@ == post_file_of(slug_of(lowercase_of(draft.title@))),
    {
        Draft::from_fields(page_title(page), page_content(page))
    }

    /// The draft of the post on a page with the title `title` and the body
    /// `content`.
    pub fn from_fields(title: String, content: String) -> (draft: Draft)
        ensures
            draft.title@ == title@,
            draft.beginner_explanation@ == beginner_explanation_text(content@),
            draft.step_by_step_guide@ == step_by_step_guide_text(content@),
            draft.speech@ == speech_text_of(
                title@,
                beginner_explanation_text(content@),
                step_by_step_guide_text(content@),
            ),
            draft.file@ == post_file_of(slug_of(lowercase_of(title@))),
    {
        let beginner_explanation = generate_beginner_explanation(content.as_str());
        let step_by_step_guide = generate_step_by_step_guide(content.as_str());
        let speech = speech_text(
            title.as_str(),
            beginner_explanation.as_str(),
            step_by_step_guide.as_str(),
        );
        let file = post_file(slug(title.as_str()).as_str());
        Draft { title, beginner_explanation, step_by_step_guide, speech, file }
    }

    /// The post that the draft becomes, dated `date`, generated from the
    /// page at `source_url`, with the spoken rendition `audio`.
    pub fn publish(self, date: &str, source_url: &str, audio: Option<AudioArtifact>) -> (post: Post)
        ensures
            post.title@ == self.title@,
            post.date@ == date@,
            post.source_url@ == source_url@,
            post.beginner_explanation@ == self.beginner_explanation@,
            post.step_by_step_guide@ == self.step_by_step_guide@,
            post.audio == audio,
    {
        Post {
            title: self.title,
            date: String::from_str(date),
            source_url: String::from_str(source_url),
            beginner_explanation: self.beginner_explanation,
            step_by_step_guide: self.step_by_step_guide,
            audio,
        }
    }
}

impl Post {
    /// The document of the post.
    pub open spec fn document(&self) -> Seq<char> {
        document_of(
            self.title@,
            self.date@,
            self.source_url@,
            self.beginner_explanation@,
            self.step_by_step_guide@,
            reference_of(self.audio),
        )
    }

    /// Writes the post out as a document.
    pub fn render(&self) -> (document: String)
        ensures
            document@ == self.document(),
    {
        let mut document = String::from_str("+++\ntitle = \"");
        document.append(self.title.as_str());
        document.append("\"\ndate = ");
        document.append(self.date.as_str());
        document.append("\n+++\n");
        document.append("\n[Generated from ");
        document.append(self.source_url.as_str());
        document.append("]\n");
        assert(document@ =~= front_matter(self.title@, self.date@) + source_note(
            self.source_url@,
        ));
        append_section(&mut document, "Beginner's Explanation", self.beginner_explanation.as_str());
        append_section(&mut document, "Step-by-Step Guide", self.step_by_step_guide.as_str());
        let audio = render_audio_body(&self.audio);
        append_section(&mut document, "Audio Version", audio.as_str());
        document
    }
}

} // verus!
