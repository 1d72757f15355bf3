//! The slug of a post, and the file that the post is written to.

use crate::chars::{chars_of, push_char};
use vstd::prelude::*;
use vstd::string::*;

verus! {

/// The directory of the posts, as seen from the directory in which the
/// generator runs.
pub const POST_DIRECTORY: &'static str = "../content/blog/";

/// The extension of a post.
pub const POST_EXTENSION: &'static str = ".md";

/// The lowercase form of `text`, as `str::to_lowercase` of the standard
/// library gives it.
pub uninterp spec fn lowercase_of(text: Seq<char>) -> Seq<char>;

/// Whether `c` is a letter or a number, as `char::is_alphanumeric` of the
/// standard library tells.
pub uninterp spec fn is_alphanumeric(c: char) -> bool;

/// A space becomes a hyphen; every other character stays.
pub open spec fn hyphenated(c: char) -> char {
    if c == ' ' {
        '-'
    } else {
        c
    }
}

/// A slug keeps letters, numbers and hyphens.
pub open spec fn kept_in_slug(c: char) -> bool {
    is_alphanumeric(c) || c == '-'
}

/// The slug of a title whose lowercase form is `lower`: spaces become
/// hyphens, and then everything but letters, numbers and hyphens is dropped.
pub open spec fn slug_of(lower: Seq<char>) -> Seq<char> {
    lower.map_values(|c: char| hyphenated(c)).filter(|c: char| kept_in_slug(c))
}

/// The file of the post with the slug `slug`.
pub open spec fn post_file_of(slug: Seq<char>) -> Seq<char> {
    POST_DIRECTORY@ + slug + POST_EXTENSION@
}

/// Calls `str::to_lowercase`, whose result depends on `text` alone and is
/// given the name `lowercase_of`.
#[verifier::external_body]
fn to_lowercase(text: &str) -> (lower: String)
    ensures
        lower@ == lowercase_of(text@),
{
    text.to_lowercase()
}

/// Calls `char::is_alphanumeric`, whose result depends on `c` alone and is
/// given the name `is_alphanumeric`.
#[verifier::external_body]
fn char_is_alphanumeric(c: char) -> (alphanumeric: bool)
    ensures
        alphanumeric == is_alphanumeric(c),
{
    c.is_alphanumeric()
}

/// What the character `c` of a lowercase title contributes to the slug,
/// given whether `c` is a letter or a number: a hyphen for a space, `c`
/// itself if it is a letter, a number or a hyphen, and nothing otherwise.
pub fn slug_char(c: char, alphanumeric: bool) -> (kept: Option<char>)
    ensures
        kept == (if c == ' ' {
            Some('-')
        } else if alphanumeric || c == '-' {
            Some(c)
        } else {
            None
        }),
{
    if c == ' ' {
        Some('-')
    } else if alphanumeric || c == '-' {
        Some(c)
    } else {
        None
    }
}

/// The slug of a title whose lowercase form is `lower`.
pub fn slug_from_lowercase(lower: &str) -> (slug: String)
    ensures
        slug@ == slug_of(lower@),
{
    let chars = chars_of(lower);
    let mut slug = String::new();
    let ghost hyphenate = |c: char| hyphenated(c);
    let ghost keep = |c: char| kept_in_slug(c);
    let mut i: usize = 0;
    assert(chars@.take(0) =~= Seq::<char>::empty());
    while i < chars.len()
        invariant
            i <= chars.len(),
            chars@ == lower@,
            hyphenate == |c: char| hyphenated(c),
            keep == |c: char| kept_in_slug(c),
            slug@ == chars@.take(i as int).map_values(hyphenate).filter(keep),
        decreases chars.len() - i,
    {
        let c = chars[i];
        proof {
            let seen = chars@.take(i as int);
            assert(chars@.take(i + 1) =~= seen.push(c));
            assert(seen.push(c).map_values(hyphenate) =~= seen.map_values(hyphenate).push(
                hyphenated(c),
            ));
            seen.map_values(hyphenate).lemma_filter_push(hyphenated(c), keep);
        }
        match slug_char(c, char_is_alphanumeric(c)) {
            Some(kept) => push_char(&mut slug, kept),
            None => {},
        }
        i += 1;
    }
    assert(chars@.take(chars.len() as int) =~= chars@);
    slug
}

/// The slug of the post with the title `title`: the title in lowercase,
/// with hyphens for spaces and without anything else that is not a letter,
/// a number or a hyphen.
pub fn slug(title: &str) -> (slug: String)
    ensures
        slug@ == slug_of(lowercase_of(title@)),
{
    let lower = to_lowercase(title);
    slug_from_lowercase(lower.as_str())
}

/// The file that the post with the slug `slug` is written to.
pub fn post_file(slug: &str) -> (path: String)
    ensures
        path@ == post_file_of(slug@),
{
    let mut path = String::from_str(POST_DIRECTORY);
    path.append(slug);
    path.append(POST_EXTENSION);
    path
}

} // verus!
