//! Width policy of a component.
//!
//! A policy can pin a component to a fixed width or impose minimum and
//! maximum restraints on the width its content would otherwise get.

use vstd::prelude::*;

verus! {

/// Width policy of a component.
///
/// This can override the width set by text or background, or impose
/// restraints on the component's size.
#[derive(Clone, Copy, Debug)]
pub struct Width {
    pub fixed: Option<u16>,
    pub min: u16,
    pub max: u16,
    pub ignore_background: bool,
    pub ignore_foreground: bool,
}

impl Width {
    /// Create a new width policy without any size restrictions.
    pub fn new() -> (r: Self)
        ensures
            r.fixed is None,
            r.min == 0,
            r.max == u16::MAX,
            !r.ignore_background,
            !r.ignore_foreground,
    {
        Width {
            fixed: None,
            min: 0,
            max: u16::MAX,
            ignore_foreground: false,
            ignore_background: false,
        }
    }

    /// Pin the component to a fixed width. This overrides min, max,
    /// background and text width.
    pub fn fixed(self, fixed: u16) -> (r: Self)
        ensures
            r == (Width { fixed: Some(fixed), ..self }),
    {
        Width { fixed: Some(fixed), ..self }
    }

    /// Set the minimum width of a component.
    pub fn min(self, min: u16) -> (r: Self)
        ensures
            r == (Width { min, ..self }),
    {
        Width { min, ..self }
    }

    /// Set the maximum width of a component.
    pub fn max(self, max: u16) -> (r: Self)
        ensures
            r == (Width { max, ..self }),
    {
        Width { max, ..self }
    }

    /// Ignore the width of the background when sizing the component.
    /// Useful to fit a background image to the width of the text.
    pub fn ignore_background(self) -> (r: Self)
        ensures
            r == (Width { ignore_background: true, ..self }),
    {
        Width { ignore_background: true, ..self }
    }

    /// Ignore the width of the foreground when sizing the component.
    /// Useful to fit text to the width of the background; this will usually
    /// lead to text being cut off.
    pub fn ignore_foreground(self) -> (r: Self)
        ensures
            r == (Width { ignore_foreground: true, ..self }),
    {
        Width { ignore_foreground: true, ..self }
    }
}

impl Default for Width {
    /// Same as [`Width::new`]: no restrictions at all.
    fn default() -> (r: Self)
        ensures
            r.fixed is None,
            r.min == 0,
            r.max == u16::MAX,
            !r.ignore_background,
            !r.ignore_foreground,
    {
        Width::new()
    }
}

} // verus!
