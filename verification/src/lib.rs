//! Turns one documentation page into a blog post with a spoken rendition.
//!
//! The library holds every decision of that pipeline: which fields are read
//! from the page, how the text to be spoken is assembled, in which order the
//! text-to-speech backends are tried and when one of them is accepted, and
//! what the finished post looks like. Fetching the page, running the
//! backends and writing files are left to the caller.

pub mod assets;
pub mod cascade;
pub mod chars;
pub mod guarantees;
pub mod invocation;
pub mod mime;
pub mod page;
pub mod post;
pub mod runs;
pub mod sections;
pub mod slug;
pub mod synthesis;
