//! Foreground of a component.

use crate::alignment::Alignment;
use crate::text::Text;
use vstd::prelude::*;

verus! {

/// Foreground of a component: its text, the text's alignment, and an
/// optional vertical offset overriding the bar's default.
#[derive(Clone, Copy, Debug)]
pub struct Foreground {
    /// The rendered text, if any.
    pub text: Option<Text>,
    /// Alignment of the text inside the component.
    pub alignment: Alignment,
    /// Vertical text offset; `None` falls back to the bar's default.
    pub yoffset: Option<i16>,
}

impl Foreground {
    /// Create a new empty foreground.
    pub fn new() -> (r: Self)
        ensures
            r.text is None,
            r.yoffset is None,
            r.alignment is CENTER,
    {
        Foreground { text: None, yoffset: None, alignment: Alignment::CENTER }
    }

    /// Set the text of the foreground.
    pub fn text(self, text: Text) -> (r: Self)
        ensures
            r == (Foreground { text: Some(text), ..self }),
    {
        Foreground { text: Some(text), ..self }
    }

    /// Set the alignment of the text inside the component.
    pub fn alignment(self, alignment: Alignment) -> (r: Self)
        ensures
            r == (Foreground { alignment, ..self }),
    {
        Foreground { alignment, ..self }
    }

    /// Offset the text vertically. Increasing this offset moves the text
    /// down from the center.
    pub fn yoffset(self, yoffset: i16) -> (r: Self)
        ensures
            r == (Foreground { yoffset: Some(yoffset), ..self }),
    {
        Foreground { yoffset: Some(yoffset), ..self }
    }
}

impl From<Text> for Foreground {
    /// A foreground that is just this text.
    fn from(text: Text) -> (r: Foreground)
        ensures
            r == (Foreground { text: Some(text), yoffset: None, alignment: Alignment::CENTER }),
    {
        Foreground { yoffset: None, text: Some(text), alignment: Alignment::CENTER }
    }
}

impl vstd::std_specs::convert::FromSpecImpl<Text> for Foreground {
    open spec fn obeys_from_spec() -> bool {
        true
    }

    open spec fn from_spec(text: Text) -> Foreground {
        Foreground { text: Some(text), yoffset: None, alignment: Alignment::CENTER }
    }
}

impl Default for Foreground {
    /// Same as [`Foreground::new`]: no text at all.
    fn default() -> (r: Self)
        ensures
            r.text is None,
            r.yoffset is None,
            r.alignment is CENTER,
    {
        Foreground::new()
    }
}

} // verus!
