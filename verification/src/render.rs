//! The layout calculator and the compositing planner.
//!
//! Everything here is pure: the planner reads the registry and the declared
//! content of one component and computes the component's width, the new
//! placement of every component sharing its alignment bucket, the strips of
//! background that must be cleared, and the blits that put the changed
//! content on screen. The executing edge turns the resulting plan into
//! display-protocol requests.

use crate::alignment::{spec_x_offset, Alignment};
use crate::background::Background;
use crate::bar_component::{
    spec_cache_matches_bg, spec_cache_matches_fg, BarComponent, BarComponentCache,
};
use crate::color::Color;
use crate::foreground::Foreground;
use crate::geometry::Geometry;
use crate::img::Image;
use crate::text::Text;
use crate::width::Width;
use vstd::prelude::*;

verus! {

/// Sum of the cached widths of the first `i` registry entries that belong
/// to bucket `b`, leaving out the entry with id `except`.
pub open spec fn spec_sum_bucket(s: Seq<BarComponent>, b: u32, except: u32, i: int) -> int
    decreases i,
{
    if i <= 0 {
        0
    } else {
        spec_sum_bucket(s, b, except, i - 1) + if s[i - 1].id % 3 == b && s[i - 1].id != except {
            s[i - 1].geometry.width as int
        } else {
            0
        }
    }
}

/// Sum of the cached widths of the first `i` registry entries that belong
/// to bucket `b` and have an id below `bound`.
pub open spec fn spec_sum_bucket_below(s: Seq<BarComponent>, b: u32, bound: u32, i: int) -> int
    decreases i,
{
    if i <= 0 {
        0
    } else {
        spec_sum_bucket_below(s, b, bound, i - 1) + if s[i - 1].id % 3 == b && s[i - 1].id < bound {
            s[i - 1].geometry.width as int
        } else {
            0
        }
    }
}

/// Bucket sums only grow as more entries are taken in.
pub proof fn lemma_sum_bucket_mono(s: Seq<BarComponent>, b: u32, except: u32, i: int, j: int)
    requires
        0 <= i <= j,
    ensures
        spec_sum_bucket(s, b, except, i) <= spec_sum_bucket(s, b, except, j),
    decreases j - i,
{
    if i < j {
        lemma_sum_bucket_mono(s, b, except, i, j - 1);
    }
}

/// The below-`bound` sum never exceeds the all-but-`bound` sum of the same
/// bucket: every entry it counts, the other sum counts too.
pub proof fn lemma_sum_below_le_sum_bucket(s: Seq<BarComponent>, b: u32, bound: u32, i: int)
    requires
        0 <= i,
    ensures
        spec_sum_bucket_below(s, b, bound, i) <= spec_sum_bucket(s, b, bound, i),
    decreases i,
{
    if i > 0 {
        lemma_sum_below_le_sum_bucket(s, b, bound, i - 1);
    }
}

/// The widest natural width among the first `i` image layers; zero if there
/// are none.
pub open spec fn spec_max_image_width(imgs: Seq<Image>, i: int) -> int
    decreases i,
{
    if i <= 0 {
        0
    } else {
        let rest = spec_max_image_width(imgs, i - 1);
        let w = imgs[i - 1].picture.geometry.width as int;
        if w > rest {
            w
        } else {
            rest
        }
    }
}

/// The effective width of a component.
///
/// A declared fixed width is clamped to the bar and wins unconditionally.
/// Otherwise the width starts from the declared minimum, is raised to the
/// background's natural width (unless the policy ignores the background),
/// raised further to the foreground's natural width (unless the policy
/// ignores the foreground), and finally clamped to the bar's width and to
/// the declared maximum.
pub open spec fn spec_width_for(bar_width: u16, wp: Width, bg: Background, fg: Foreground) -> int {
    match wp.fixed {
        Some(f) => if f <= bar_width {
            f as int
        } else {
            bar_width as int
        },
        None => {
            let w0 = wp.min as int;
            let bgw = spec_max_image_width(bg.images@, bg.images@.len() as int);
            let w1 = if !wp.ignore_background && bgw > w0 {
                bgw
            } else {
                w0
            };
            let w2 = match fg.text {
                Some(t) => if !wp.ignore_foreground && t.picture.geometry.width > w1 {
                    t.picture.geometry.width as int
                } else {
                    w1
                },
                None => w1,
            };
            let w3 = if w2 < bar_width {
                w2
            } else {
                bar_width as int
            };
            if w3 < wp.max {
                w3
            } else {
                wp.max as int
            }
        },
    }
}

/// Compute the effective width of a component on a bar of width
/// `bar_width`, from its declared width policy, background and foreground.
pub fn calculate_width(
    bar_width: u16,
    width: Width,
    background: &Background,
    foreground: &Foreground,
) -> (r: u16)
    ensures
        r == spec_width_for(bar_width, width, *background, *foreground),
{
    if let Some(fixed) = width.fixed {
        if fixed <= bar_width {
            return fixed;
        }
        return bar_width;
    }

    let mut w: u16 = width.min;

    if !width.ignore_background {
        let mut bgw: u16 = 0;
        let mut i: usize = 0;
        while i < background.images.len()
            invariant
                i <= background.images@.len(),
                bgw == spec_max_image_width(background.images@, i as int),
            decreases background.images@.len() - i,
        {
            let iw: u16 = background.images[i].picture.geometry.width;
            if iw > bgw {
                bgw = iw;
            }
            i = i + 1;
        }
        if bgw > w {
            w = bgw;
        }
    }

    if let Some(ref text) = foreground.text {
        if !width.ignore_foreground && text.picture.geometry.width > w {
            w = text.picture.geometry.width;
        }
    }

    if bar_width < w {
        w = bar_width;
    }
    if width.max < w {
        w = width.max;
    }
    w
}

/// Every effective width lies inside the bar: between zero and `bar_width`.
pub proof fn lemma_width_for_within_bar(bar_width: u16, wp: Width, bg: Background, fg: Foreground)
    ensures
        0 <= spec_width_for(bar_width, wp, bg, fg) <= bar_width,
{
}

/// Where no fixed width is declared, and the declared restraints are
/// satisfiable on this bar (the minimum is no larger than the maximum or
/// the bar), the effective width honors them: it lies between the declared
/// minimum and maximum.
pub proof fn lemma_width_for_within_restraints(
    bar_width: u16,
    wp: Width,
    bg: Background,
    fg: Foreground,
)
    requires
        wp.fixed is None,
        wp.min <= wp.max,
        wp.min <= bar_width,
    ensures
        wp.min <= spec_width_for(bar_width, wp, bg, fg) <= wp.max,
{
}

/// The x-offset the component with id `id` gets, were its width to become
/// `new_width`, with every other cached width unchanged.
///
/// Left-bucket components accumulate from the bar's left edge: the offset
/// is the summed width of the bucket siblings before them. The center
/// bucket is anchored as a group around the bar's midpoint, and the right
/// bucket ends flush with the bar's right edge; for those, the offset of
/// the whole group is returned. Center division truncates toward zero.
pub open spec fn spec_xoffset_by_id(
    s: Seq<BarComponent>,
    id: u32,
    new_width: u16,
    bar_width: u16,
) -> int {
    let b = id % 3;
    if b == 0 {
        spec_sum_bucket_below(s, 0, id, s.len() as int)
    } else {
        let total = spec_sum_bucket(s, b, id, s.len() as int) + new_width;
        if b == 1 {
            if bar_width >= total {
                (bar_width - total) / 2
            } else {
                -((total - bar_width) / 2)
            }
        } else {
            bar_width - total
        }
    }
}

/// Compute a component's x-offset by its id, assuming its width becomes
/// `new_width`. For a center or right component this is the x-offset of the
/// first component of its bucket, since those buckets re-anchor wholesale.
pub fn xoffset_by_id(
    components: &Vec<BarComponent>,
    id: u32,
    new_width: u16,
    bar_width: u16,
) -> (r: i16)
    requires
        bar_width <= 32767,
        spec_sum_bucket(components@, id % 3, id, components@.len() as int) + new_width <= 32767,
    ensures
        r == spec_xoffset_by_id(components@, id, new_width, bar_width),
{
    let b: u32 = id % 3;
    let ghost s = components@;
    let n: usize = components.len();
    let mut sum: u32 = 0;
    let mut below: u32 = 0;
    let mut i: usize = 0;
    while i < n
        invariant
            n == s.len(),
            s == components@,
            i <= n,
            b == id % 3,
            spec_sum_bucket(s, b, id, s.len() as int) + new_width <= 32767,
            sum == spec_sum_bucket(s, b, id, i as int),
            below == spec_sum_bucket_below(s, b, id, i as int),
        decreases n - i,
    {
        proof {
            lemma_sum_bucket_mono(s, b, id, i + 1 as int, s.len() as int);
            lemma_sum_below_le_sum_bucket(s, b, id, i + 1 as int);
        }
        let c = &components[i];
        if c.id % 3 == b {
            if c.id != id {
                sum = sum + c.geometry.width as u32;
            }
            if c.id < id {
                below = below + c.geometry.width as u32;
            }
        }
        i = i + 1;
    }
    proof {
        lemma_sum_below_le_sum_bucket(s, b, id, s.len() as int);
    }
    if b == 0 {
        below as i16
    } else {
        let total: u32 = sum + new_width as u32;
        if b == 1 {
            if bar_width as u32 >= total {
                (((bar_width as u32) - total) / 2) as i16
            } else {
                -(((total - bar_width as u32) / 2) as i16)
            }
        } else {
            (bar_width as i16) - (total as i16)
        }
    }
}

/// The center bucket is horizontally centered: for every registry and
/// every re-layout, twice the group's offset plus the group's total width
/// reaches the bar's width, up to the single pixel integer division may
/// lose. Equivalently, offset plus total is the bar's midpoint plus half
/// the total, to the pixel.
pub proof fn lemma_center_group_centered(
    s: Seq<BarComponent>,
    id: u32,
    new_width: u16,
    bar_width: u16,
)
    requires
        id % 3 == 1,
    ensures
        ({
            let off = spec_xoffset_by_id(s, id, new_width, bar_width);
            let total = spec_sum_bucket(s, 1, id, s.len() as int) + new_width;
            bar_width - 1 <= 2 * off + total <= bar_width + 1
        }),
{
}

/// One compositing step of a build: draw the named picture, at its natural
/// size, at the given position inside the component's fresh surface.
#[derive(Clone, Copy, Debug, Eq, PartialEq, Structural)]
pub struct LayerOp {
    /// The source picture to composite over the surface.
    pub picture: u32,
    /// Horizontal position inside the surface.
    pub x: i16,
    /// Vertical position inside the surface.
    pub y: i16,
    /// Natural width of the source picture.
    pub width: u16,
    /// Natural height of the source picture.
    pub height: u16,
}

/// The build of one component's fresh surface: allocate a transparent
/// surface of the given size, flood-fill it if a color is set, then draw
/// the layers in order, later layers on top.
#[derive(Clone, Debug)]
pub struct ComposePlan {
    /// Width of the surface to allocate.
    pub width: u16,
    /// Height of the surface to allocate.
    pub height: u16,
    /// The background color to flood-fill first, if any.
    pub fill: Option<Color>,
    /// Background images in declared order, then the foreground text last.
    pub layers: Vec<LayerOp>,
}

/// The compositing step a background image layer gets: its own natural
/// size, x-aligned by its own alignment inside the component's width, at
/// the top of the surface.
pub open spec fn spec_layer_for_image(img: Image, w: u16) -> LayerOp {
    LayerOp {
        picture: img.picture.xid,
        x: spec_x_offset(img.alignment, w, img.picture.geometry.width) as i16,
        y: 0,
        width: img.picture.geometry.width,
        height: img.picture.geometry.height,
    }
}

/// The compositing step the foreground text gets: its pre-rendered glyph
/// picture, x-aligned by the foreground's alignment, at the vertical text
/// offset.
pub open spec fn spec_layer_for_text(t: Text, alignment: Alignment, yoffset: i16, w: u16) -> LayerOp {
    LayerOp {
        picture: t.picture.xid,
        x: spec_x_offset(alignment, w, t.picture.geometry.width) as i16,
        y: yoffset,
        width: t.picture.geometry.width,
        height: t.picture.geometry.height,
    }
}

/// The vertical text offset in effect: the component's own override, else
/// the bar's default.
pub open spec fn spec_yoffset(fg: Foreground, default_yoffset: i16) -> i16 {
    match fg.yoffset {
        Some(y) => y,
        None => default_yoffset,
    }
}

/// How many layers the foreground contributes: one if it has a text.
pub open spec fn spec_fg_layer_count(fg: Foreground) -> int {
    match fg.text {
        Some(_) => 1,
        None => 0,
    }
}

/// Right-aligned content must not be wider than the span it is aligned in:
/// a flush-right offset of wider content has no place to start.
pub open spec fn spec_content_fits(bg: Background, fg: Foreground, w: u16) -> bool {
    &&& forall|k: int|
        0 <= k < bg.images@.len() ==> (bg.images@[k].alignment is RIGHT
            ==> bg.images@[k].picture.geometry.width <= w)
    &&& match fg.text {
        Some(t) => fg.alignment is RIGHT ==> t.picture.geometry.width <= w,
        None => true,
    }
}

/// Whether a compose plan is exactly the build that this size, background
/// and foreground call for.
pub open spec fn spec_compose_matches(
    p: ComposePlan,
    w: u16,
    h: u16,
    bg: Background,
    fg: Foreground,
    default_yoffset: i16,
) -> bool {
    &&& p.width == w
    &&& p.height == h
    &&& p.fill == bg.color
    &&& p.layers@.len() == bg.images@.len() + spec_fg_layer_count(fg)
    &&& forall|k: int|
        0 <= k < bg.images@.len() ==> p.layers@[k] == spec_layer_for_image(bg.images@[k], w)
    &&& match fg.text {
        Some(t) => p.layers@.last() == spec_layer_for_text(
            t,
            fg.alignment,
            spec_yoffset(fg, default_yoffset),
            w,
        ),
        None => true,
    }
}

/// Plan the build of a fresh surface of the given size: the flood fill,
/// the background image layers in declared order, and the foreground text
/// on top. A zero-size build is skipped: the component turns invisible but
/// keeps its registry entry.
pub fn compose_plan(
    w: u16,
    h: u16,
    background: &Background,
    foreground: &Foreground,
    bar_text_yoffset: i16,
) -> (r: Option<ComposePlan>)
    requires
        w <= 32767,
        w > 0 && h > 0 ==> spec_content_fits(*background, *foreground, w),
    ensures
        (w == 0 || h == 0) <==> r is None,
        r matches Some(p) ==> spec_compose_matches(
            p,
            w,
            h,
            *background,
            *foreground,
            bar_text_yoffset,
        ),
{
    if w == 0 || h == 0 {
        return None;
    }

    let mut layers: Vec<LayerOp> = Vec::new();
    let mut i: usize = 0;
    while i < background.images.len()
        invariant
            w <= 32767,
            spec_content_fits(*background, *foreground, w),
            i <= background.images@.len(),
            layers@.len() == i,
            forall|k: int|
                0 <= k < i ==> layers@[k] == spec_layer_for_image(background.images@[k], w),
        decreases background.images@.len() - i,
    {
        let img = &background.images[i];
        let x = img.alignment.x_offset(w, img.picture.geometry.width);
        layers.push(LayerOp {
            picture: img.picture.xid,
            x,
            y: 0,
            width: img.picture.geometry.width,
            height: img.picture.geometry.height,
        });
        i = i + 1;
    }

    if let Some(ref text) = foreground.text {
        let yoffset = match foreground.yoffset {
            Some(y) => y,
            None => bar_text_yoffset,
        };
        let x = foreground.alignment.x_offset(w, text.picture.geometry.width);
        layers.push(LayerOp {
            picture: text.picture.xid,
            x,
            y: yoffset,
            width: text.picture.geometry.width,
            height: text.picture.geometry.height,
        });
    }

    Some(ComposePlan { width: w, height: h, fill: background.color, layers })
}

/// The right bucket ends flush with the bar's right edge: the group's
/// offset plus the group's total width is exactly the bar's width.
pub proof fn lemma_right_group_flush(
    s: Seq<BarComponent>,
    id: u32,
    new_width: u16,
    bar_width: u16,
)
    requires
        id % 3 == 2,
    ensures
        ({
            let off = spec_xoffset_by_id(s, id, new_width, bar_width);
            let total = spec_sum_bucket(s, 2, id, s.len() as int) + new_width;
            off + total == bar_width
        }),
{
}

/// A strip of stale background to restore: the bar's own background is
/// composited over it, across the bar's full height.
#[derive(Clone, Copy, Debug, Eq, PartialEq, Structural)]
pub struct ClearOp {
    /// Left edge of the strip.
    pub x: i16,
    /// Width of the strip.
    pub width: u16,
}

/// One copy of a component's surface onto the visible window, composited
/// over the shared background with the over operator.
#[derive(Clone, Copy, Debug, Eq, PartialEq, Structural)]
pub struct Blit {
    /// The component's surface.
    pub picture: u32,
    /// Where on the window the surface goes.
    pub x: i16,
    /// Width of the surface.
    pub width: u16,
    /// Height of the surface.
    pub height: u16,
}

/// Everything one redraw cycle asks the executing edge to do, in order:
/// build a fresh surface (if the content changed), restore exposed strips
/// of background (if the bucket shrank), and blit the moved or rebuilt
/// components.
#[derive(Clone, Debug)]
pub struct RedrawPlan {
    /// The fresh surface to build and swap in, if the fingerprint or size
    /// changed and the new size is not empty.
    pub compose: Option<ComposePlan>,
    /// Strips of background to restore before blitting.
    pub clears: Vec<ClearOp>,
    /// Surfaces to copy onto the window, in registry order.
    pub blits: Vec<Blit>,
}

/// A plan that asks for nothing: no build, no clear, no blit.
pub open spec fn spec_plan_noop(p: RedrawPlan) -> bool {
    &&& p.compose is None
    &&& p.clears@.len() == 0
    &&& p.blits@.len() == 0
}

/// Whether a registry entry takes part in the re-layout that a redraw of
/// component `id` triggers: every entry of the same bucket, except that in
/// the left bucket entries before the redrawn one keep their place and are
/// left alone.
pub open spec fn spec_affected(c: BarComponent, id: u32) -> bool {
    c.id % 3 == id % 3 && (id % 3 != 0 || c.id >= id)
}

/// The width an entry has after the redraw: the redrawn component gets the
/// new width, everyone else keeps theirs.
pub open spec fn spec_new_width(c: BarComponent, id: u32, w: u16) -> u16 {
    if c.id == id {
        w
    } else {
        c.geometry.width
    }
}

/// The height an entry has after the redraw.
pub open spec fn spec_new_height(c: BarComponent, id: u32, h: u16) -> u16 {
    if c.id == id {
        h
    } else {
        c.geometry.height
    }
}

/// Sum of the after-redraw widths of the affected entries among the first
/// `i`: how far the content of the bucket reaches past its anchor.
pub open spec fn spec_prefix_new_width(s: Seq<BarComponent>, id: u32, w: u16, i: int) -> int
    decreases i,
{
    if i <= 0 {
        0
    } else {
        spec_prefix_new_width(s, id, w, i - 1) + if spec_affected(s[i - 1], id) {
            spec_new_width(s[i - 1], id, w) as int
        } else {
            0
        }
    }
}

/// The after-redraw width sums only grow as more entries are taken in.
pub proof fn lemma_prefix_new_width_mono(s: Seq<BarComponent>, id: u32, w: u16, i: int, j: int)
    requires
        0 <= i <= j,
    ensures
        spec_prefix_new_width(s, id, w, i) <= spec_prefix_new_width(s, id, w, j),
    decreases j - i,
{
    if i < j {
        lemma_prefix_new_width_mono(s, id, w, i, j - 1);
    }
}

/// The placement an affected entry at index `i` gets: the bucket's anchor
/// plus the after-redraw widths of the affected entries before it.
pub open spec fn spec_new_geometry(
    s: Seq<BarComponent>,
    id: u32,
    w: u16,
    h: u16,
    anchor: int,
    i: int,
) -> Geometry {
    Geometry {
        x: (anchor + spec_prefix_new_width(s, id, w, i)) as i16,
        y: 0,
        width: spec_new_width(s[i], id, w),
        height: spec_new_height(s[i], id, h),
    }
}

/// Whether the redrawn component needs a fresh surface: its declared
/// background, foreground, or measured size changed since the surface now
/// in its registry entry was built. Fingerprint equality is the sole
/// redraw-skip signal.
pub open spec fn spec_recompose(c: BarComponent, bg: Background, fg: Foreground, w: u16, h: u16) -> bool {
    ||| !spec_cache_matches_bg(c.bg_cache, bg)
    ||| !spec_cache_matches_fg(c.fg_cache, fg)
    ||| c.geometry.width != w
    ||| c.geometry.height != h
}

/// Whether the entry at index `i` is blitted: it must be affected and not
/// empty, and either it moved or changed size, or it is the redrawn
/// component itself and its surface was rebuilt.
pub open spec fn spec_blit_cond(
    s: Seq<BarComponent>,
    id: u32,
    w: u16,
    h: u16,
    anchor: int,
    recompose: bool,
    i: int,
) -> bool {
    let c = s[i];
    &&& spec_affected(c, id)
    &&& spec_new_width(c, id, w) > 0
    &&& spec_new_height(c, id, h) > 0
    &&& (spec_new_geometry(s, id, w, h, anchor, i) != c.geometry || (c.id == id && recompose))
}

/// The blits of one redraw cycle, over the first `i` entries, in registry
/// order.
pub open spec fn spec_blits(
    s: Seq<BarComponent>,
    id: u32,
    w: u16,
    h: u16,
    anchor: int,
    recompose: bool,
    i: int,
) -> Seq<Blit>
    decreases i,
{
    if i <= 0 {
        Seq::empty()
    } else {
        let rest = spec_blits(s, id, w, h, anchor, recompose, i - 1);
        if spec_blit_cond(s, id, w, h, anchor, recompose, i - 1) {
            rest.push(
                Blit {
                    picture: s[i - 1].picture,
                    x: (anchor + spec_prefix_new_width(s, id, w, i - 1)) as i16,
                    width: spec_new_width(s[i - 1], id, w),
                    height: spec_new_height(s[i - 1], id, h),
                },
            )
        } else {
            rest
        }
    }
}

/// Sum of the cached (pre-redraw) widths of the affected entries among the
/// first `i`: how far the bucket's old content reached past its old start.
pub open spec fn spec_sum_affected_old(s: Seq<BarComponent>, id: u32, i: int) -> int
    decreases i,
{
    if i <= 0 {
        0
    } else {
        spec_sum_affected_old(s, id, i - 1) + if spec_affected(s[i - 1], id) {
            s[i - 1].geometry.width as int
        } else {
            0
        }
    }
}

/// The old-width sums only grow as more entries are taken in.
pub proof fn lemma_sum_affected_old_mono(s: Seq<BarComponent>, id: u32, i: int, j: int)
    requires
        0 <= i <= j,
    ensures
        spec_sum_affected_old(s, id, i) <= spec_sum_affected_old(s, id, j),
    decreases j - i,
{
    if i < j {
        lemma_sum_affected_old_mono(s, id, i, j - 1);
    }
}

/// The old-width sum covers each single affected entry.
pub proof fn lemma_sum_affected_old_elem(s: Seq<BarComponent>, id: u32, k: int, i: int)
    requires
        0 <= k < i,
        spec_affected(s[k], id),
    ensures
        s[k].geometry.width <= spec_sum_affected_old(s, id, i),
    decreases i,
{
    if k == i - 1 {
        lemma_sum_affected_old_mono(s, id, 0, i - 1);
    } else {
        lemma_sum_affected_old_elem(s, id, k, i - 1);
    }
}

/// Index of the first affected entry at or after `i`; the registry length
/// if there is none.
pub open spec fn spec_first_affected_from(s: Seq<BarComponent>, id: u32, i: int) -> int
    decreases s.len() - i,
{
    if i < 0 || i >= s.len() {
        s.len() as int
    } else if spec_affected(s[i], id) {
        i
    } else {
        spec_first_affected_from(s, id, i + 1)
    }
}

/// The first affected index is no later than any affected index.
pub proof fn lemma_first_affected_le(s: Seq<BarComponent>, id: u32, i: int, k: int)
    requires
        0 <= i <= k < s.len(),
        spec_affected(s[k], id),
    ensures
        spec_first_affected_from(s, id, i) <= k,
    decreases k - i,
{
    if i < k && !spec_affected(s[i], id) {
        lemma_first_affected_le(s, id, i + 1, k);
    }
}

/// Ids strictly increase along the registry: entries are sorted by id and
/// ids are unique.
pub open spec fn spec_sorted(s: Seq<BarComponent>) -> bool {
    forall|i: int, j: int| 0 <= i < j < s.len() ==> s[i].id < s[j].id
}

/// Whether some entry carries this id.
pub open spec fn spec_has_id(s: Seq<BarComponent>, id: u32) -> bool {
    exists|i: int| 0 <= i < s.len() && s[i].id == id
}

/// The index of the entry carrying this id.
pub open spec fn spec_idx_of(s: Seq<BarComponent>, id: u32) -> int {
    choose|i: int| 0 <= i < s.len() && s[i].id == id
}

/// What one redraw cycle does, stated over the registry before and after:
/// the redrawn component's fingerprints and every affected placement are
/// updated, nothing else is touched, and the plan holds exactly the build,
/// the clears and the blits that the change calls for.
pub open spec fn spec_render_rel(
    pre: Seq<BarComponent>,
    post: Seq<BarComponent>,
    plan: RedrawPlan,
    bar_width: u16,
    bar_height: u16,
    bar_text_yoffset: i16,
    id: u32,
    bg: Background,
    fg: Foreground,
    wp: Width,
) -> bool {
    let w = spec_width_for(bar_width, wp, bg, fg) as u16;
    let h = bar_height;
    let sidx = spec_idx_of(pre, id);
    let anchor = spec_xoffset_by_id(pre, id, w, bar_width);
    let recompose = spec_recompose(pre[sidx], bg, fg, w, h);
    let wc = pre[sidx].geometry.width - w;
    let first = spec_first_affected_from(pre, id, 0);
    let old_start = pre[first].geometry.x as int;
    let old_all = spec_sum_affected_old(pre, id, pre.len() as int);
    &&& post.len() == pre.len()
    &&& forall|k: int| 0 <= k < pre.len() && !spec_affected(pre[k], id) ==> post[k] == pre[k]
    &&& forall|k: int|
        0 <= k < pre.len() && spec_affected(pre[k], id) && pre[k].id != id ==> post[k] == (
        BarComponent { geometry: spec_new_geometry(pre, id, w, h, anchor, k), ..pre[k] })
    &&& post[sidx].id == pre[sidx].id
    &&& post[sidx].picture == pre[sidx].picture
    &&& post[sidx].interrupt == pre[sidx].interrupt
    &&& post[sidx].geometry == spec_new_geometry(pre, id, w, h, anchor, sidx)
    &&& spec_cache_matches_bg(post[sidx].bg_cache, bg)
    &&& spec_cache_matches_fg(post[sidx].fg_cache, fg)
    &&& if recompose && w > 0 && h > 0 {
        plan.compose matches Some(p) && spec_compose_matches(p, w, h, bg, fg, bar_text_yoffset)
    } else {
        plan.compose is None
    }
    &&& if wc > 0 {
        plan.clears@ == (if old_start < anchor {
            seq![ClearOp { x: pre[first].geometry.x, width: (anchor - old_start) as u16 }]
        } else {
            Seq::empty()
        }).push(ClearOp { x: (old_start + old_all - wc) as i16, width: wc as u16 })
    } else {
        plan.clears@.len() == 0
    }
    &&& plan.blits@ == spec_blits(pre, id, w, h, anchor, recompose, pre.len() as int)
}

/// Bucket sums agree on two registries whose entries carry the same ids
/// and the same widths wherever the sum looks.
proof fn lemma_sum_bucket_congruence(
    s1: Seq<BarComponent>,
    s2: Seq<BarComponent>,
    b: u32,
    except: u32,
    i: int,
)
    requires
        s1.len() == s2.len(),
        forall|k: int| 0 <= k < s1.len() ==> s2[k].id == s1[k].id,
        forall|k: int|
            0 <= k < s1.len() && s1[k].id % 3 == b && s1[k].id != except
                ==> s2[k].geometry.width == s1[k].geometry.width,
        i <= s1.len(),
    ensures
        spec_sum_bucket(s2, b, except, i) == spec_sum_bucket(s1, b, except, i),
    decreases i,
{
    if i > 0 {
        lemma_sum_bucket_congruence(s1, s2, b, except, i - 1);
    }
}

/// Below-bound sums agree under the same hypotheses.
proof fn lemma_sum_below_congruence(
    s1: Seq<BarComponent>,
    s2: Seq<BarComponent>,
    b: u32,
    bound: u32,
    i: int,
)
    requires
        s1.len() == s2.len(),
        forall|k: int| 0 <= k < s1.len() ==> s2[k].id == s1[k].id,
        forall|k: int|
            0 <= k < s1.len() && s1[k].id % 3 == b && s1[k].id < bound
                ==> s2[k].geometry.width == s1[k].geometry.width,
        i <= s1.len(),
    ensures
        spec_sum_bucket_below(s2, b, bound, i) == spec_sum_bucket_below(s1, b, bound, i),
    decreases i,
{
    if i > 0 {
        lemma_sum_below_congruence(s1, s2, b, bound, i - 1);
    }
}

/// After-redraw width sums agree on two registries with the same ids whose
/// entries other than the redrawn one have the same widths.
proof fn lemma_prefix_congruence(s1: Seq<BarComponent>, s2: Seq<BarComponent>, id: u32, w: u16, i: int)
    requires
        s1.len() == s2.len(),
        forall|k: int| 0 <= k < s1.len() ==> s2[k].id == s1[k].id,
        forall|k: int|
            0 <= k < s1.len() && spec_affected(s1[k], id) && s1[k].id != id
                ==> s2[k].geometry.width == s1[k].geometry.width,
        i <= s1.len(),
    ensures
        spec_prefix_new_width(s2, id, w, i) == spec_prefix_new_width(s1, id, w, i),
    decreases i,
{
    if i > 0 {
        lemma_prefix_congruence(s1, s2, id, w, i - 1);
    }
}

/// A redraw whose every blit test fails blits nothing.
proof fn lemma_blits_all_skipped(
    s: Seq<BarComponent>,
    id: u32,
    w: u16,
    h: u16,
    anchor: int,
    recompose: bool,
    i: int,
)
    requires
        forall|k: int| 0 <= k < i ==> !spec_blit_cond(s, id, w, h, anchor, recompose, k),
    ensures
        spec_blits(s, id, w, h, anchor, recompose, i).len() == 0,
    decreases i,
{
    if i > 0 {
        lemma_blits_all_skipped(s, id, w, h, anchor, recompose, i - 1);
    }
}

/// Redrawing is idempotent: a second redraw cycle with unchanged declared
/// background, foreground and width policy produces no second build, no
/// clear and no blit. The fingerprint cached by the first cycle matches,
/// the measured size is already in place, and no component moves, so the
/// second plan asks the executing edge for nothing at all.
pub proof fn lemma_redraw_idempotent(
    pre: Seq<BarComponent>,
    mid: Seq<BarComponent>,
    post: Seq<BarComponent>,
    plan1: RedrawPlan,
    plan2: RedrawPlan,
    bar_width: u16,
    bar_height: u16,
    bar_text_yoffset: i16,
    id: u32,
    bg: Background,
    fg: Foreground,
    wp: Width,
)
    requires
        spec_sorted(pre),
        spec_has_id(pre, id),
        spec_render_rel(pre, mid, plan1, bar_width, bar_height, bar_text_yoffset, id, bg, fg, wp),
        spec_render_rel(mid, post, plan2, bar_width, bar_height, bar_text_yoffset, id, bg, fg, wp),
    ensures
        spec_plan_noop(plan2),
{
    let w = spec_width_for(bar_width, wp, bg, fg) as u16;
    let h = bar_height;
    let n = pre.len() as int;
    let sidx = spec_idx_of(pre, id);
    let anchor = spec_xoffset_by_id(pre, id, w, bar_width);

    assert(0 <= sidx < n && pre[sidx].id == id) by {
        let wit = choose|i: int| 0 <= i < pre.len() && pre[i].id == id;
        assert(0 <= wit < pre.len() && pre[wit].id == id);
    }

    // The first cycle keeps every id in place.
    assert forall|k: int| 0 <= k < n implies mid[k].id == pre[k].id by {
        if spec_affected(pre[k], id) && pre[k].id == id {
            if k < sidx {
                assert(pre[k].id < pre[sidx].id);
            } else if k > sidx {
                assert(pre[sidx].id < pre[k].id);
            }
        }
    }

    // So the second cycle resolves the same registry entry.
    let sidx2 = spec_idx_of(mid, id);
    assert(0 <= sidx2 < n && mid[sidx2].id == id) by {
        assert(mid[sidx].id == id);
        let wit = choose|i: int| 0 <= i < mid.len() && mid[i].id == id;
        assert(0 <= wit < mid.len() && mid[wit].id == id);
    }
    assert(sidx2 == sidx) by {
        if sidx2 < sidx {
            assert(pre[sidx2].id < pre[sidx].id);
        } else if sidx2 > sidx {
            assert(pre[sidx].id < pre[sidx2].id);
        }
    }

    // Widths outside the redrawn entry did not change in the first cycle.
    assert forall|k: int|
        0 <= k < n && pre[k].id != id implies mid[k].geometry.width
        == pre[k].geometry.width by {
        if spec_affected(pre[k], id) {
            assert(mid[k] == (BarComponent {
                geometry: spec_new_geometry(pre, id, w, h, anchor, k),
                ..pre[k]
            }));
        }
    }

    // So the bucket re-anchors to the same place.
    assert(spec_xoffset_by_id(mid, id, w, bar_width) == anchor) by {
        if id % 3 == 0 {
            lemma_sum_below_congruence(pre, mid, 0, id, n);
        } else {
            lemma_sum_bucket_congruence(pre, mid, id % 3, id, n);
        }
    }

    // The redrawn entry already carries the fresh fingerprint and size, so
    // nothing asks for a rebuild.
    assert(mid[sidx].geometry == spec_new_geometry(pre, id, w, h, anchor, sidx));
    assert(mid[sidx].geometry.width == w && mid[sidx].geometry.height == h);
    assert(!spec_recompose(mid[sidx], bg, fg, w, h));
    assert(plan2.compose is None);

    // The width did not change, so nothing is cleared.
    assert(mid[sidx2].geometry.width - w == 0);
    assert(plan2.clears@.len() == 0);

    // Every entry already sits where the second cycle would put it, so
    // nothing is blitted.
    assert forall|k: int|
        0 <= k < n implies !spec_blit_cond(mid, id, w, h, anchor, false, k) by {
        if spec_affected(mid[k], id) {
            lemma_prefix_congruence(pre, mid, id, w, k);
            if pre[k].id == id {
                if k < sidx {
                    assert(pre[k].id < pre[sidx].id);
                } else if k > sidx {
                    assert(pre[sidx].id < pre[k].id);
                }
                assert(k == sidx);
            } else {
                assert(mid[k] == (BarComponent {
                    geometry: spec_new_geometry(pre, id, w, h, anchor, k),
                    ..pre[k]
                }));
            }
            assert(spec_new_geometry(mid, id, w, h, anchor, k) == mid[k].geometry);
        }
    }
    lemma_blits_all_skipped(mid, id, w, h, anchor, false, n);
    assert(plan2.blits@.len() == 0);
}

/// Whether the entry with this id stands among the first `i`.
pub open spec fn spec_has_id_upto(s: Seq<BarComponent>, id: u32, i: int) -> bool {
    exists|j: int| 0 <= j < i && s[j].id == id
}

/// For a center or right redraw, the after-redraw widths of the affected
/// entries add up to the bucket's total: the whole bucket takes part, the
/// redrawn entry counted at its new width.
pub proof fn lemma_prefix_partition(s: Seq<BarComponent>, id: u32, w: u16, i: int)
    requires
        spec_sorted(s),
        id % 3 != 0,
        0 <= i <= s.len(),
    ensures
        spec_prefix_new_width(s, id, w, i) == spec_sum_bucket(s, id % 3, id, i) + if spec_has_id_upto(
            s,
            id,
            i,
        ) {
            w as int
        } else {
            0
        },
    decreases i,
{
    if i > 0 {
        lemma_prefix_partition(s, id, w, i - 1);
        if s[i - 1].id == id {
            assert(!spec_has_id_upto(s, id, i - 1)) by {
                if spec_has_id_upto(s, id, i - 1) {
                    let j = choose|j: int| 0 <= j < i - 1 && s[j].id == id;
                    assert(s[j].id < s[i - 1].id);
                }
            }
            assert(spec_has_id_upto(s, id, i));
        } else {
            assert(spec_has_id_upto(s, id, i) == spec_has_id_upto(s, id, i - 1)) by {
                if spec_has_id_upto(s, id, i) {
                    let j = choose|j: int| 0 <= j < i && s[j].id == id;
                    assert(0 <= j < i - 1 && s[j].id == id);
                }
            }
        }
    }
}

/// After any re-layout of a right-bucket component, the bucket's content
/// ends flush with the bar's right edge: every affected entry sits at
/// `bar_width` minus the summed widths of itself and everything after it,
/// so the last one ends exactly at `bar_width`. Asked for is only that the
/// bucket's content fits the bar's coordinate space.
pub proof fn lemma_right_relayout_flush(
    pre: Seq<BarComponent>,
    post: Seq<BarComponent>,
    plan: RedrawPlan,
    bar_width: u16,
    bar_height: u16,
    bar_text_yoffset: i16,
    id: u32,
    bg: Background,
    fg: Foreground,
    wp: Width,
    k: int,
)
    requires
        id % 3 == 2,
        bar_width <= 32767,
        spec_sorted(pre),
        spec_has_id(pre, id),
        spec_render_rel(pre, post, plan, bar_width, bar_height, bar_text_yoffset, id, bg, fg, wp),
        spec_sum_bucket(pre, 2, id, pre.len() as int) + spec_width_for(bar_width, wp, bg, fg)
            <= 32767,
        0 <= k < pre.len(),
        spec_affected(pre[k], id),
    ensures
        ({
            let w = spec_width_for(bar_width, wp, bg, fg) as u16;
            let total = spec_sum_bucket(pre, 2, id, pre.len() as int) + w;
            post[k].geometry.x + post[k].geometry.width == bar_width - total
                + spec_prefix_new_width(pre, id, w, k + 1)
        }),
{
    let w = spec_width_for(bar_width, wp, bg, fg) as u16;
    let total = spec_sum_bucket(pre, 2, id, pre.len() as int) + w;
    let anchor = spec_xoffset_by_id(pre, id, w, bar_width);
    let sidx = spec_idx_of(pre, id);
    assert(0 <= sidx < pre.len() && pre[sidx].id == id) by {
        let wit = choose|i: int| 0 <= i < pre.len() && pre[i].id == id;
        assert(0 <= wit < pre.len() && pre[wit].id == id);
    }
    assert(anchor == bar_width - total);

    // The affected widths add up to the bucket's total.
    lemma_prefix_partition(pre, id, w, pre.len() as int);
    assert(spec_has_id_upto(pre, id, pre.len() as int));
    assert(spec_prefix_new_width(pre, id, w, pre.len() as int) == total);

    // The entry's new x is the anchor plus what sits before it; the cast
    // to the 16-bit coordinate does not truncate because the whole bucket
    // fits.
    lemma_prefix_new_width_mono(pre, id, w, 0, k);
    lemma_prefix_new_width_mono(pre, id, w, k + 1, pre.len() as int);
    assert(post[k].geometry == spec_new_geometry(pre, id, w, bar_height, anchor, k)) by {
        if pre[k].id == id {
            if k < sidx {
                assert(pre[k].id < pre[sidx].id);
            } else if k > sidx {
                assert(pre[sidx].id < pre[k].id);
            }
        }
    }
    assert(spec_prefix_new_width(pre, id, w, k + 1) == spec_prefix_new_width(pre, id, w, k)
        + spec_new_width(pre[k], id, w));
    assert(-0x8000 <= anchor + spec_prefix_new_width(pre, id, w, k) <= 0x7fff);
    assert(post[k].geometry.x == anchor + spec_prefix_new_width(pre, id, w, k));
}

/// After any re-layout of a center-bucket component, the group's content
/// really sits at the group's anchor: every affected entry is at the
/// anchor plus what stands before it, with no coordinate wrapped. With
/// [`lemma_center_group_centered`], the group is horizontally centered on
/// screen to the pixel. Asked for is only that the bucket's content fits
/// the bar's coordinate space.
pub proof fn lemma_center_relayout_centered(
    pre: Seq<BarComponent>,
    post: Seq<BarComponent>,
    plan: RedrawPlan,
    bar_width: u16,
    bar_height: u16,
    bar_text_yoffset: i16,
    id: u32,
    bg: Background,
    fg: Foreground,
    wp: Width,
    k: int,
)
    requires
        id % 3 == 1,
        bar_width <= 32767,
        spec_sorted(pre),
        spec_has_id(pre, id),
        spec_render_rel(pre, post, plan, bar_width, bar_height, bar_text_yoffset, id, bg, fg, wp),
        spec_sum_bucket(pre, 1, id, pre.len() as int) + spec_width_for(bar_width, wp, bg, fg)
            <= 32767,
        0 <= k < pre.len(),
        spec_affected(pre[k], id),
    ensures
        ({
            let w = spec_width_for(bar_width, wp, bg, fg) as u16;
            post[k].geometry.x == spec_xoffset_by_id(pre, id, w, bar_width)
                + spec_prefix_new_width(pre, id, w, k)
        }),
{
    let w = spec_width_for(bar_width, wp, bg, fg) as u16;
    let total = spec_sum_bucket(pre, 1, id, pre.len() as int) + w;
    let anchor = spec_xoffset_by_id(pre, id, w, bar_width);
    let sidx = spec_idx_of(pre, id);
    assert(0 <= sidx < pre.len() && pre[sidx].id == id) by {
        let wit = choose|i: int| 0 <= i < pre.len() && pre[i].id == id;
        assert(0 <= wit < pre.len() && pre[wit].id == id);
    }

    // The affected widths add up to the bucket's total, so nothing sits
    // past the anchor plus the total, and no coordinate wraps.
    lemma_prefix_partition(pre, id, w, pre.len() as int);
    assert(spec_has_id_upto(pre, id, pre.len() as int));
    assert(spec_prefix_new_width(pre, id, w, pre.len() as int) == total);
    lemma_prefix_new_width_mono(pre, id, w, 0, k);
    lemma_prefix_new_width_mono(pre, id, w, k, pre.len() as int);

    assert(post[k].geometry == spec_new_geometry(pre, id, w, bar_height, anchor, k)) by {
        if pre[k].id == id {
            if k < sidx {
                assert(pre[k].id < pre[sidx].id);
            } else if k > sidx {
                assert(pre[sidx].id < pre[k].id);
            }
        }
    }
    assert(-0x8000 <= anchor + spec_prefix_new_width(pre, id, w, k) <= 0x7fff);
}

/// Run one redraw cycle of the component with id `id`, against the current
/// registry: measure the component's new width, test the cached
/// fingerprint, re-layout the affected bucket, and return the plan of
/// builds, clears and blits for the executing edge. The registry is
/// updated to the new placements and fingerprints.
///
/// The bounds asked for say that the bar and the bucket's content fit the
/// signed 16-bit coordinate space of the protocol.
#[verifier::rlimit(100)]
pub fn render(
    components: &mut Vec<BarComponent>,
    bar_width: u16,
    bar_height: u16,
    bar_text_yoffset: i16,
    id: u32,
    background: &Background,
    foreground: &Foreground,
    width: Width,
) -> (plan: RedrawPlan)
    requires
        bar_width <= 32767,
        spec_sorted(old(components)@),
        spec_has_id(old(components)@, id),
        spec_sum_bucket(old(components)@, id % 3, id, old(components)@.len() as int)
            + spec_width_for(bar_width, width, *background, *foreground) <= 32767,
        spec_prefix_new_width(
            old(components)@,
            id,
            spec_width_for(bar_width, width, *background, *foreground) as u16,
            old(components)@.len() as int,
        ) <= 32767,
        ({
            let first = spec_first_affected_from(old(components)@, id, 0);
            old(components)@[first].geometry.x + spec_sum_affected_old(
                old(components)@,
                id,
                old(components)@.len() as int,
            ) <= 32767
        }),
        ({
            let w16 = spec_width_for(bar_width, width, *background, *foreground) as u16;
            let sidx = spec_idx_of(old(components)@, id);
            spec_recompose(old(components)@[sidx], *background, *foreground, w16, bar_height)
                && w16 > 0 && bar_height > 0 ==> spec_content_fits(*background, *foreground, w16)
        }),
    ensures
        spec_render_rel(
            old(components)@,
            final(components)@,
            plan,
            bar_width,
            bar_height,
            bar_text_yoffset,
            id,
            *background,
            *foreground,
            width,
        ),
{
    let ghost pre = components@;
    let n: usize = components.len();

    // Locate the redrawn component's registry entry.
    let mut sidx: usize = 0;
    while sidx < n && components[sidx].id != id
        invariant
            components@ == pre,
            n == pre.len(),
            sidx <= n,
            forall|k: int| 0 <= k < sidx ==> pre[k].id != id,
        decreases n - sidx,
    {
        sidx = sidx + 1;
    }
    assert(sidx < n && pre[sidx as int].id == id) by {
        let w = choose|i: int| 0 <= i < pre.len() && pre[i].id == id;
        assert(!(w < sidx));
    }
    proof {
        let ci = spec_idx_of(pre, id);
        assert(0 <= ci < pre.len() && pre[ci].id == id);
        if ci < sidx {
            assert(pre[ci].id < pre[sidx as int].id);
        } else if ci > sidx {
            assert(pre[sidx as int].id < pre[ci].id);
        }
        assert(ci == sidx as int);
    }

    // Measure: the component's effective width, the bar's height.
    let w: u16 = calculate_width(bar_width, width, background, foreground);
    let h: u16 = bar_height;

    // The bucket's new anchor.
    let anchor: i16 = xoffset_by_id(components, id, w, bar_width);

    // Fingerprint test against the cached content.
    let new_bg_cache = BarComponentCache::new_bg(background);
    let new_fg_cache = BarComponentCache::new_fg(foreground);
    let old_w: u16 = components[sidx].geometry.width;
    let old_h: u16 = components[sidx].geometry.height;
    let recompose: bool = !(new_bg_cache == components[sidx].bg_cache) || !(new_fg_cache
        == components[sidx].fg_cache) || old_w != w || old_h != h;
    proof {
        assert(recompose == spec_recompose(pre[sidx as int], *background, *foreground, w, h));
    }

    // Build step, skipped when the fingerprint matches or the size is empty.
    let compose: Option<ComposePlan> = if recompose {
        compose_plan(w, h, background, foreground, bar_text_yoffset)
    } else {
        None
    };

    // The strips of background exposed by a shrinking bucket.
    let mut first: usize = 0;
    while first < n && !(components[first].id % 3 == id % 3 && (id % 3 != 0 || components[first].id
        >= id))
        invariant
            components@ == pre,
            n == pre.len(),
            first <= n,
            spec_first_affected_from(pre, id, 0) == spec_first_affected_from(pre, id, first as int),
        decreases n - first,
    {
        first = first + 1;
    }
    proof {
        assert(spec_affected(pre[sidx as int], id));
        lemma_first_affected_le(pre, id, 0, sidx as int);
        if first < n {
            assert(spec_first_affected_from(pre, id, first as int) == first as int);
        }
        assert(first as int == spec_first_affected_from(pre, id, 0));
        assert(first as int <= sidx as int);
    }
    let old_start: i16 = components[first].geometry.x;

    let mut old_all: u32 = 0;
    let mut i: usize = 0;
    while i < n
        invariant
            components@ == pre,
            n == pre.len(),
            i <= n,
            old_all == spec_sum_affected_old(pre, id, i as int),
            spec_sum_affected_old(pre, id, n as int) <= 65535,
        decreases n - i,
    {
        proof {
            lemma_sum_affected_old_mono(pre, id, i + 1 as int, pre.len() as int);
        }
        if components[i].id % 3 == id % 3 && (id % 3 != 0 || components[i].id >= id) {
            old_all = old_all + components[i].geometry.width as u32;
        }
        i = i + 1;
    }

    let mut clears: Vec<ClearOp> = Vec::new();
    let width_change: i32 = old_w as i32 - w as i32;
    if width_change > 0 {
        if (old_start as i32) < (anchor as i32) {
            clears.push(ClearOp { x: old_start, width: (anchor as i32 - old_start as i32) as u16 });
        }
        proof {
            lemma_sum_affected_old_elem(pre, id, sidx as int, pre.len() as int);
        }
        let new_end: i32 = old_start as i32 + old_all as i32 - width_change;
        clears.push(ClearOp { x: new_end as i16, width: width_change as u16 });
    }

    // Re-layout the affected bucket and gather the blits.
    let mut blits: Vec<Blit> = Vec::new();
    let mut cursor: i32 = anchor as i32;
    let mut i: usize = 0;
    while i < n
        invariant
            i <= n,
            n == pre.len(),
            sidx < n,
            pre[sidx as int].id == id,
            spec_prefix_new_width(pre, id, w, n as int) <= 32767,
            components@.len() == pre.len(),
            forall|k: int| i <= k < pre.len() ==> components@[k] == pre[k],
            forall|k: int|
                0 <= k < i && !spec_affected(pre[k], id) ==> components@[k] == pre[k],
            forall|k: int|
                0 <= k < i && spec_affected(pre[k], id) && pre[k].id != id ==> components@[k] == (
                BarComponent {
                    geometry: spec_new_geometry(pre, id, w, h, anchor as int, k),
                    ..pre[k]
                }),
            sidx < i ==> {
                &&& components@[sidx as int].id == pre[sidx as int].id
                &&& components@[sidx as int].picture == pre[sidx as int].picture
                &&& components@[sidx as int].interrupt == pre[sidx as int].interrupt
                &&& components@[sidx as int].geometry == spec_new_geometry(
                    pre,
                    id,
                    w,
                    h,
                    anchor as int,
                    sidx as int,
                )
                &&& spec_cache_matches_bg(components@[sidx as int].bg_cache, *background)
                &&& spec_cache_matches_fg(components@[sidx as int].fg_cache, *foreground)
            },
            cursor == anchor + spec_prefix_new_width(pre, id, w, i as int),
            blits@ == spec_blits(pre, id, w, h, anchor as int, recompose, i as int),
        decreases n - i,
    {
        proof {
            lemma_prefix_new_width_mono(pre, id, w, i + 1 as int, pre.len() as int);
            lemma_prefix_new_width_mono(pre, id, w, 0, i as int);
        }
        if components[i].id % 3 == id % 3 && (id % 3 != 0 || components[i].id >= id) {
            let is_self: bool = components[i].id == id;
            let cw: u16 = if is_self {
                w
            } else {
                components[i].geometry.width
            };
            let ch: u16 = if is_self {
                h
            } else {
                components[i].geometry.height
            };
            let new_geo = Geometry::new(#[verifier::truncate] (cursor as i16), 0, cw, ch);
            let changed: bool = !(new_geo == components[i].geometry);
            if cw > 0 && ch > 0 && (changed || (is_self && recompose)) {
                blits.push(
                    Blit {
                        picture: components[i].picture,
                        x: #[verifier::truncate] (cursor as i16),
                        width: cw,
                        height: ch,
                    },
                );
            }
            let entry = components.remove(i);
            if is_self {
                components.insert(
                    i,
                    BarComponent {
                        geometry: new_geo,
                        bg_cache: BarComponentCache::new_bg(background),
                        fg_cache: BarComponentCache::new_fg(foreground),
                        ..entry
                    },
                );
            } else {
                components.insert(i, BarComponent { geometry: new_geo, ..entry });
            }
            cursor = cursor + cw as i32;
        }
        i = i + 1;
    }

    RedrawPlan { compose, clears, blits }
}

} // verus!
