//! The bar configuration builder.

use crate::color::Color;
use vstd::prelude::*;
use vstd::string::StringExecFns;

verus! {

/// The bar configuration.
///
/// Collects everything the connection provider needs to create the bar's
/// window: colors, the optional background image, the output, name, font,
/// height and default text offset. The decoded background image passes
/// through untouched; the executing edge uploads it when the bar is
/// spawned.
pub struct BarBuilder {
    /// The bar-wide background image, if any.
    pub background_image: Option<image::DynamicImage>,
    /// The bar's background color.
    pub background_color: Color,
    /// The default foreground color.
    pub foreground_color: Color,
    /// The output the bar goes to; `None` picks the primary output.
    pub output: Option<String>,
    /// The default font for component texts.
    pub font: Option<String>,
    /// The window name the window manager sees.
    pub name: String,
    /// Height of the bar in pixels.
    pub height: u16,
    /// The default vertical text offset.
    pub text_yoffset: i16,
}

impl BarBuilder {
    /// Create a builder with the default parameters: black background,
    /// white foreground, no image, primary output, default font, height
    /// 30, no text offset.
    pub fn new() -> (r: Self)
        ensures
            r.background_image is None,
            r.background_color == (Color { red: 0u8, green: 0u8, blue: 0u8, alpha: 255u8 }),
            r.foreground_color == (Color {
                red: 255u8,
                green: 255u8,
                blue: 255u8,
                alpha: 255u8,
            }),
            r.output is None,
            r.font is None,
            r.name@ == "leechbar"@,
            r.height == 30,
            r.text_yoffset == 0,
    {
        BarBuilder {
            background_image: None,
            background_color: Color::new(0, 0, 0, 255),
            foreground_color: Color::new(255, 255, 255, 255),
            output: None,
            name: String::from_str("leechbar"),
            font: None,
            height: 30,
            text_yoffset: 0,
        }
    }

    /// Change the default foreground color.
    pub fn foreground_color(self, color: Color) -> (r: Self)
        ensures
            r == (BarBuilder { foreground_color: color, ..self }),
    {
        BarBuilder { foreground_color: color, ..self }
    }

    /// Change the background color.
    pub fn background_color(self, color: Color) -> (r: Self)
        ensures
            r == (BarBuilder { background_color: color, ..self }),
    {
        BarBuilder { background_color: color, ..self }
    }

    /// Set a background image for the whole bar. The image is not resized
    /// or modified in any way.
    pub fn background_image(self, image: image::DynamicImage) -> (r: Self)
        ensures
            r == (BarBuilder { background_image: Some(image), ..self }),
    {
        BarBuilder { background_image: Some(image), ..self }
    }

    /// Change the name the window manager sees.
    pub fn name(self, name: String) -> (r: Self)
        ensures
            r == (BarBuilder { name, ..self }),
    {
        BarBuilder { name, ..self }
    }

    /// Change the default font of the bar.
    pub fn font(self, font: String) -> (r: Self)
        ensures
            r == (BarBuilder { font: Some(font), ..self }),
    {
        BarBuilder { font: Some(font), ..self }
    }

    /// Change the height of the bar in pixels.
    pub fn height(self, height: u16) -> (r: Self)
        ensures
            r == (BarBuilder { height, ..self }),
    {
        BarBuilder { height, ..self }
    }

    /// Pin the bar to a named output instead of the primary one.
    pub fn output(self, output: String) -> (r: Self)
        ensures
            r == (BarBuilder { output: Some(output), ..self }),
    {
        BarBuilder { output: Some(output), ..self }
    }

    /// Change the default vertical text offset. Positive values move text
    /// downwards.
    pub fn text_yoffset(self, text_yoffset: i16) -> (r: Self)
        ensures
            r == (BarBuilder { text_yoffset, ..self }),
    {
        BarBuilder { text_yoffset, ..self }
    }
}

impl Default for BarBuilder {
    /// Same as [`BarBuilder::new`].
    fn default() -> (r: Self)
        ensures
            r.background_image is None,
            r.background_color == (Color { red: 0u8, green: 0u8, blue: 0u8, alpha: 255u8 }),
            r.foreground_color == (Color {
                red: 255u8,
                green: 255u8,
                blue: 255u8,
                alpha: 255u8,
            }),
            r.output is None,
            r.font is None,
            r.name@ == "leechbar"@,
            r.height == 30,
            r.text_yoffset == 0,
    {
        BarBuilder::new()
    }
}

} // verus!
