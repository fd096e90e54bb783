//! Background of a component.

use crate::alignment::Alignment;
use crate::color::Color;
use crate::img::Image;
use vstd::prelude::*;

verus! {

/// Background of a component: an optional flood-fill color and any number
/// of image layers, later layers drawn on top of earlier ones.
#[derive(Clone, Debug)]
pub struct Background {
    /// Image layers in declared order.
    pub images: Vec<Image>,
    /// The flood-fill color under the images, if any.
    pub color: Option<Color>,
    /// Alignment used for image layers.
    pub alignment: Alignment,
}

impl Background {
    /// Create a new empty background.
    pub fn new() -> (r: Self)
        ensures
            r.images@ =~= Seq::<Image>::empty(),
            r.color is None,
            r.alignment is CENTER,
    {
        Background { color: None, images: Vec::new(), alignment: Alignment::CENTER }
    }

    /// Add an image to the background. This can be called multiple times to
    /// layer images above each other.
    pub fn image(self, image: Image) -> (r: Self)
        ensures
            r.images@ =~= self.images@.push(image),
            r.color == self.color,
            r.alignment == self.alignment,
    {
        let mut images = self.images;
        images.push(image);
        Background { images, ..self }
    }

    /// Set the background color.
    pub fn color(self, color: Color) -> (r: Self)
        ensures
            r.images@ == self.images@,
            r.color == Some(color),
            r.alignment == self.alignment,
    {
        Background { color: Some(color), ..self }
    }

    /// Set the alignment of the background images.
    pub fn alignment(self, alignment: Alignment) -> (r: Self)
        ensures
            r.images@ == self.images@,
            r.color == self.color,
            r.alignment == alignment,
    {
        Background { alignment, ..self }
    }
}

impl From<Image> for Background {
    /// A background that is just this image.
    fn from(image: Image) -> (r: Background)
        ensures
            r.images@ =~= seq![image],
            r.color is None,
            r.alignment is CENTER,
    {
        let mut images: Vec<Image> = Vec::new();
        images.push(image);
        Background { color: None, images, alignment: Alignment::CENTER }
    }
}

impl From<Color> for Background {
    /// A background that is just this fill color.
    fn from(color: Color) -> (r: Background)
        ensures
            r.images@ =~= Seq::<Image>::empty(),
            r.color == Some(color),
            r.alignment is CENTER,
    {
        Background { color: Some(color), images: Vec::new(), alignment: Alignment::CENTER }
    }
}

// A background holds a vector, which specification code cannot construct,
// so `from_spec` has no usable witness here: the conversions state what
// they build in their own postconditions instead.
impl vstd::std_specs::convert::FromSpecImpl<Image> for Background {
    open spec fn obeys_from_spec() -> bool {
        false
    }

    open spec fn from_spec(image: Image) -> Background {
        arbitrary()
    }
}

impl vstd::std_specs::convert::FromSpecImpl<Color> for Background {
    open spec fn obeys_from_spec() -> bool {
        false
    }

    open spec fn from_spec(color: Color) -> Background {
        arbitrary()
    }
}

impl Default for Background {
    /// Same as [`Background::new`]: no color and no images.
    fn default() -> (r: Self)
        ensures
            r.images@ =~= Seq::<Image>::empty(),
            r.color is None,
            r.alignment is CENTER,
    {
        Background::new()
    }
}

} // verus!
