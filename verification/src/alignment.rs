//! Alignment buckets and the x-offsets they give to content.

use vstd::prelude::*;

verus! {

/// Alignment inside a container: one of the three horizontal buckets of the
/// bar, and likewise the placement of a picture inside a component.
#[derive(Clone, Copy, Debug, Eq, Hash, Ord, PartialEq, PartialOrd, Structural)]
pub enum Alignment {
    LEFT,
    CENTER,
    RIGHT,
}

/// Index of an alignment bucket: left is 0, center 1, right 2. Component
/// ids carry this index as their remainder modulo 3.
pub open spec fn spec_bucket_index(a: Alignment) -> int {
    match a {
        Alignment::LEFT => 0,
        Alignment::CENTER => 1,
        Alignment::RIGHT => 2,
    }
}

/// Where content of width `width` starts inside a span of width
/// `comp_width`: flush left, centered (rounding toward the left edge), or
/// flush right. Center division truncates toward zero, as the executable
/// cast does.
pub open spec fn spec_x_offset(a: Alignment, comp_width: u16, width: u16) -> int {
    match a {
        Alignment::LEFT => 0,
        Alignment::CENTER => if comp_width >= width {
            (comp_width - width) / 2
        } else {
            -((width - comp_width) / 2)
        },
        Alignment::RIGHT => comp_width - width,
    }
}

impl Alignment {
    /// The x-offset of content of width `width` aligned inside a span of
    /// width `comp_width`.
    pub fn x_offset(&self, comp_width: u16, width: u16) -> (r: i16)
        requires
            *self is RIGHT ==> width <= comp_width && comp_width - width <= 32767,
        ensures
            r == spec_x_offset(*self, comp_width, width),
    {
        match *self {
            Alignment::LEFT => 0,
            Alignment::CENTER => {
                if comp_width >= width {
                    ((comp_width - width) / 2) as i16
                } else {
                    let d: u16 = (width - comp_width) / 2;
                    -(d as i16)
                }
            }
            Alignment::RIGHT => (comp_width - width) as i16,
        }
    }

    /// Allocate the next component id for this alignment bucket.
    ///
    /// `component_ids` holds, per bucket, the id the next arrival gets; ids
    /// step by 3 so that `id % 3` recovers the bucket and arrival order
    /// orders ids within it. Ids are never reused.
    pub fn id(&self, component_ids: &mut [u32; 3]) -> (r: u32)
        requires
            old(component_ids)@[spec_bucket_index(*self)] + 3 <= u32::MAX,
        ensures
            r == old(component_ids)@[spec_bucket_index(*self)],
            final(component_ids)@ =~= old(component_ids)@.update(spec_bucket_index(*self), (r + 3) as u32),
    {
        match *self {
            Alignment::LEFT => {
                let v: u32 = component_ids[0];
                component_ids[0] = v + 3;
                v
            }
            Alignment::CENTER => {
                let v: u32 = component_ids[1];
                component_ids[1] = v + 3;
                v
            }
            Alignment::RIGHT => {
                let v: u32 = component_ids[2];
                component_ids[2] = v + 3;
                v
            }
        }
    }
}

} // verus!
