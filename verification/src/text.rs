//! Cached text content of a component.

use crate::error::ContentError;
use crate::picture::Picture;
use vstd::prelude::*;

verus! {

/// A text cached on the display server.
///
/// The glyphs are shaped and rendered by the text renderer at the executing
/// edge; the bar keeps only the resulting server-side picture and its
/// measured size.
#[derive(Clone, Copy, Debug, Eq, Hash, PartialEq, Structural)]
pub struct Text {
    /// The pre-rendered glyph picture.
    pub picture: Picture,
}

impl Text {
    /// Record a rendered text.
    ///
    /// It is not possible to create an empty text: an empty `content` is
    /// rejected with a [`ContentError`] instead of being drawn as nothing.
    pub fn new(content: &str, picture: Picture) -> (r: Result<Self, ContentError>)
        ensures
            content@.len() == 0 <==> r is Err,
            r matches Ok(t) ==> t.picture == picture,
            r matches Err(e) ==> e is EmptyText,
    {
        if content.is_empty() {
            Err(ContentError::EmptyText)
        } else {
            Ok(Text { picture })
        }
    }
}

} // verus!
