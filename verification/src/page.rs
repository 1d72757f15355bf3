//! The fields that a post takes from the fetched page.

use vstd::prelude::*;
use vstd::string::*;

verus! {

/// The selector of the element that holds the title of the page.
pub const TITLE_SELECTOR: &'static str = "h1";

/// The selector of the element that holds the body of the page.
pub const CONTENT_SELECTOR: &'static str = "div.documentation__content";

/// The title of a page that has no title element.
pub const DEFAULT_TITLE: &'static str = "Content Overview";

/// The body of a page that has no content element.
pub const DEFAULT_CONTENT: &'static str = "Default content";

/// The longest document, in bytes, that is handed to the parser.
///
/// The parser keeps each text in a buffer that cannot grow beyond two to
/// the power of 31 bytes, and panics where one would. A text in the tree can
/// be three times as long as the document, since a NUL byte can become a
/// replacement character of three bytes. The limit is an eighth of that
/// bound.
pub const MAX_DOCUMENT_BYTES: usize = 0x1000_0000;

/// The inner HTML of the element of the HTML document `document` that
/// matches the CSS selector group `selector` and is the first to do so in
/// the order in which the parser created the elements, as `scraper` parses,
/// selects and serialises. `None` when no element matches or `selector` is
/// not a selector group.
pub uninterp spec fn first_inner_html(document: Seq<char>, selector: Seq<char>) -> Option<
    Seq<char>,
>;

/// The text nodes, joined in the order of the tree, below the element of
/// the HTML document `document` that matches the CSS selector group
/// `selector` and is the first to do so in the order in which the parser
/// created the elements, as `scraper` parses and selects. `None` when no
/// element matches or `selector` is not a selector group.
pub uninterp spec fn first_text(document: Seq<char>, selector: Seq<char>) -> Option<Seq<char>>;

/// The characters of a string that may be absent.
pub open spec fn text_of(found: Option<String>) -> Option<Seq<char>> {
    match found {
        Some(text) => Some(text@),
        None => None,
    }
}

/// Whether `document` is short enough to be handed to the parser.
pub open spec fn is_parsable(document: &str) -> bool {
    document.spec_bytes().len() as usize <= MAX_DOCUMENT_BYTES
}

/// What the title element of `document` holds. A document that is too long
/// to be parsed counts as one without a title element.
pub open spec fn title_found_in(document: &str) -> Option<Seq<char>> {
    if is_parsable(document) {
        first_inner_html(document@, TITLE_SELECTOR@)
    } else {
        None
    }
}

/// The text that the content element of `document` holds. A document that
/// is too long to be parsed counts as one without a content element.
pub open spec fn content_found_in(document: &str) -> Option<Seq<char>> {
    if is_parsable(document) {
        first_text(document@, CONTENT_SELECTOR@)
    } else {
        None
    }
}

/// The title of a page whose title element holds `found`.
pub open spec fn title_from(found: Option<Seq<char>>) -> Seq<char> {
    match found {
        Some(title) => title,
        None => DEFAULT_TITLE@,
    }
}

/// The body of a page whose content element holds `found`.
pub open spec fn content_from(found: Option<Seq<char>>) -> Seq<char> {
    match found {
        Some(content) => content,
        None => DEFAULT_CONTENT@,
    }
}

/// Calls `scraper`: `Selector::parse` on `selector`, `Html::parse_document`
/// on `document`, `Html::select` for the first match and
/// `ElementRef::inner_html` on it. Parsing a document never fails, and the
/// result depends on the two texts alone, so it is given the name
/// `first_inner_html`; a selector that does not parse gives `None`. The
/// parser panics on a document whose text outgrows its buffers, so only a
/// document of at most `MAX_DOCUMENT_BYTES` bytes is admitted.
#[verifier::external_body]
fn select_inner_html(document: &str, selector: &str) -> (found: Option<String>)
    requires
        document.spec_bytes().len() as usize <= MAX_DOCUMENT_BYTES,
    ensures
        text_of(found) == first_inner_html(document@, selector@),
{
    let parsed = scraper::Selector::parse(selector).ok()?;
    let html = scraper::Html::parse_document(document);
    let element = html.select(&parsed).next()?;
    Some(element.inner_html())
}

/// Calls `scraper`: `Selector::parse` on `selector`, `Html::parse_document`
/// on `document`, `Html::select` for the first match and `ElementRef::text`
/// on it, whose pieces are joined. The result depends on the two texts
/// alone, so it is given the name `first_text`; a selector that does not
/// parse gives `None`. The parser panics on a document whose text outgrows
/// its buffers, so only a document of at most `MAX_DOCUMENT_BYTES` bytes is
/// admitted.
#[verifier::external_body]
fn select_text(document: &str, selector: &str) -> (found: Option<String>)
    requires
        document.spec_bytes().len() as usize <= MAX_DOCUMENT_BYTES,
    ensures
        text_of(found) == first_text(document@, selector@),
{
    let parsed = scraper::Selector::parse(selector).ok()?;
    let html = scraper::Html::parse_document(document);
    let element = html.select(&parsed).next()?;
    Some(element.text().collect())
}

/// The inner HTML of the title element of `document`, if it has one. A
/// document of more than `MAX_DOCUMENT_BYTES` bytes is not parsed and has
/// none.
pub fn find_title(document: &str) -> (found: Option<String>)
    ensures
        document.spec_bytes().len() as usize <= MAX_DOCUMENT_BYTES ==> text_of(found)
            == first_inner_html(document@, TITLE_SELECTOR@),
        document.spec_bytes().len() as usize > MAX_DOCUMENT_BYTES ==> found is None,
        text_of(found) == title_found_in(document),
{
    if document.len() > MAX_DOCUMENT_BYTES {
        return None;
    }
    select_inner_html(document, TITLE_SELECTOR)
}

/// The text of the content element of `document`, if it has one. A document
/// of more than `MAX_DOCUMENT_BYTES` bytes is not parsed and has none.
pub fn find_content(document: &str) -> (found: Option<String>)
    ensures
        document.spec_bytes().len() as usize <= MAX_DOCUMENT_BYTES ==> text_of(found)
            == first_text(document@, CONTENT_SELECTOR@),
        document.spec_bytes().len() as usize > MAX_DOCUMENT_BYTES ==> found is None,
        text_of(found) == content_found_in(document),
{
    if document.len() > MAX_DOCUMENT_BYTES {
        return None;
    }
    select_text(document, CONTENT_SELECTOR)
}

/// The title of a page whose title element holds `found`: what was found,
/// or the default title.
pub fn title_or_default(found: Option<String>) -> (title: String)
    ensures
        title@ == title_from(text_of(found)),
{
    match found {
        Some(title) => title,
        None => String::from_str(DEFAULT_TITLE),
    }
}

/// The body of a page whose content element holds `found`: what was found,
/// or the default body.
pub fn content_or_default(found: Option<String>) -> (content: String)
    ensures
        content@ == content_from(text_of(found)),
{
    match found {
        Some(content) => content,
        None => String::from_str(DEFAULT_CONTENT),
    }
}

/// The title of the page `document`: what its title element holds, or the
/// default title where it has none or is too long to be parsed.
pub fn page_title(document: &str) -> (title: String)
    ensures
        title@ == title_from(title_found_in(document)),
{
    title_or_default(find_title(document))
}

/// The body of the page `document`: the text that its content element
/// holds, or the default body where it has none or is too long to be parsed.
pub fn page_content(document: &str) -> (content: String)
    ensures
        content@ == content_from(content_found_in(document)),
{
    content_or_default(find_content(document))
}

} // verus!
