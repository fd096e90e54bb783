//! The bar itself: its window state and the shared component registry.
//!
//! The registry is the one piece of state every control loop touches; the
//! executing edge wraps a [`Bar`] in its shared, lock-protected handle and
//! calls in here while holding the lock.

use crate::alignment::{spec_bucket_index, Alignment};
use crate::bar_component::BarComponent;
use crate::color::Color;
use crate::event::{spec_event_x, spec_shift_event, Event};
use crate::geometry::Geometry;
use crate::render::{spec_sorted, Blit};
use vstd::prelude::*;

verus! {

/// How many registry entries among the first `i` have an id below `id`:
/// the position a fresh entry with that id takes in the sorted registry.
pub open spec fn spec_insert_pos(s: Seq<BarComponent>, id: u32, i: int) -> int
    decreases i,
{
    if i <= 0 {
        0
    } else {
        spec_insert_pos(s, id, i - 1) + if s[i - 1].id < id {
            1int
        } else {
            0int
        }
    }
}

/// Whether a component's span contains the x-coordinate: strictly right of
/// its left edge and strictly left of its right edge, as the event
/// dispatcher tests it.
pub open spec fn spec_contains_x(c: BarComponent, x: int) -> bool {
    c.geometry.x < x && c.geometry.x + c.geometry.width > x
}

/// The main bar: the window and drawing handles the connection provider
/// negotiated, the bar-wide defaults, the id wells of the three buckets,
/// and the registry of live components, sorted by id.
#[derive(Clone, Debug)]
pub struct Bar {
    /// Placement of the bar's window on the output.
    pub geometry: Geometry,
    /// The window handle.
    pub window: u32,
    /// The window's own composited picture.
    pub window_pict: u32,
    /// The graphics context used for uploads and fills.
    pub gcontext: u32,
    /// The picture holding the bar's background color or image.
    pub background: u32,
    /// The negotiated 24-bit pixel format.
    pub format24: u32,
    /// The negotiated 32-bit (alpha-capable) pixel format.
    pub format32: u32,
    /// The default font for component texts, if one was configured.
    pub font: Option<String>,
    /// The default foreground color.
    pub color: Color,
    /// Per bucket, the id the next arriving component gets.
    pub component_ids: [u32; 3],
    /// The default vertical text offset.
    pub text_yoffset: i16,
    /// The registry of live components, sorted by id.
    pub components: Vec<BarComponent>,
}

impl Bar {
    /// Well-formedness of the bar: coordinates fit the signed 16-bit
    /// protocol space, the registry is sorted by id, each bucket's id well
    /// keeps the bucket's remainder, and every registered id lies below its
    /// bucket's well. Ids are therefore unique and never reused.
    pub open spec fn wf(self) -> bool {
        &&& self.geometry.width <= 32767
        &&& spec_sorted(self.components@)
        &&& forall|b: int| 0 <= b < 3 ==> #[trigger] self.component_ids@[b] % 3 == b as u32
        &&& forall|i: int|
            0 <= i < self.components@.len()
                ==> #[trigger] self.components@[i].id < self.component_ids@[(
            self.components@[i].id % 3) as int]
    }

    /// Create an empty skeleton bar around the handles the connection
    /// provider negotiated. No components are registered yet.
    pub fn new(
        geometry: Geometry,
        window: u32,
        window_pict: u32,
        gcontext: u32,
        background: u32,
        format24: u32,
        format32: u32,
        font: Option<String>,
        color: Color,
        text_yoffset: i16,
    ) -> (r: Self)
        requires
            geometry.width <= 32767,
        ensures
            r.wf(),
            r.geometry == geometry,
            r.window == window,
            r.window_pict == window_pict,
            r.gcontext == gcontext,
            r.background == background,
            r.format24 == format24,
            r.format32 == format32,
            r.font == font,
            r.color == color,
            r.text_yoffset == text_yoffset,
            r.components@ =~= Seq::<BarComponent>::empty(),
            r.component_ids@ =~= seq![0u32, 1u32, 2u32],
    {
        Bar {
            geometry,
            window,
            window_pict,
            gcontext,
            background,
            format24,
            format32,
            font,
            color,
            component_ids: [0, 1, 2],
            text_yoffset,
            components: Vec::new(),
        }
    }

    /// Register a new component in the given bucket, owning the given
    /// server-side picture. The component gets the bucket's next id —
    /// permanent, unique, never reused — and a fresh registry entry at its
    /// sorted position, with empty fingerprints and zero-sized geometry.
    /// Its control loop is started by the executing edge afterwards.
    #[verifier::rlimit(50)]
    pub fn add(&mut self, alignment: Alignment, picture: u32) -> (id: u32)
        requires
            old(self).wf(),
            old(self).component_ids@[spec_bucket_index(alignment)] + 3 <= u32::MAX,
        ensures
            final(self).wf(),
            id == old(self).component_ids@[spec_bucket_index(alignment)],
            id % 3 == spec_bucket_index(alignment),
            final(self).component_ids@ =~= old(self).component_ids@.update(
                spec_bucket_index(alignment),
                (id + 3) as u32,
            ),
            ({
                let pre = old(self).components@;
                let post = final(self).components@;
                let pos = spec_insert_pos(pre, id, pre.len() as int);
                &&& post.len() == pre.len() + 1
                &&& forall|k: int| 0 <= k < pos ==> post[k] == pre[k]
                &&& forall|k: int| pos < k < post.len() ==> post[k] == pre[k - 1]
                &&& post[pos].id == id
                &&& post[pos].picture == picture
                &&& post[pos].geometry == (Geometry { x: 0i16, y: 0i16, width: 0u16, height: 0u16 })
                &&& post[pos].interrupt is None
                &&& post[pos].bg_cache.pictures@.len() == 0
                &&& post[pos].fg_cache.pictures@.len() == 0
            }),
            final(self).geometry == old(self).geometry,
            final(self).window == old(self).window,
            final(self).window_pict == old(self).window_pict,
            final(self).gcontext == old(self).gcontext,
            final(self).background == old(self).background,
            final(self).format24 == old(self).format24,
            final(self).format32 == old(self).format32,
            final(self).font == old(self).font,
            final(self).color == old(self).color,
            final(self).text_yoffset == old(self).text_yoffset,
    {
        let ghost pre = self.components@;
        let id: u32 = alignment.id(&mut self.component_ids);

        proof {
            // The fresh id carries its bucket's remainder and sits above
            // every id already registered in that bucket; other buckets
            // cannot collide with it at all.
            assert(id % 3 == spec_bucket_index(alignment) as u32);
            assert(forall|k: int| 0 <= k < pre.len() ==> #[trigger] pre[k].id != id);
        }

        let n: usize = self.components.len();
        let mut pos: usize = 0;
        while pos < n && self.components[pos].id < id
            invariant
                self.components@ == pre,
                n == pre.len(),
                pos <= n,
                pos as int == spec_insert_pos(pre, id, pos as int),
                forall|k: int| 0 <= k < pos ==> pre[k].id < id,
            decreases n - pos,
        {
            pos = pos + 1;
        }
        proof {
            // Everything at or after the found position has a larger id,
            // so the count of smaller ids stops growing there.
            assert(forall|k: int|
                pos <= k < pre.len() ==> id < #[trigger] pre[k].id) by {
                if pos < n {
                    assert(forall|k: int|
                        pos < k < pre.len() ==> pre[pos as int].id < #[trigger] pre[k].id);
                }
            }
            lemma_insert_pos_stops(pre, id, pos as int, pre.len() as int);
        }

        let entry = BarComponent::new(id, picture);
        self.components.insert(pos, entry);

        proof {
            let post = self.components@;
            assert(forall|k: int| 0 <= k < pos ==> post[k] == pre[k]);
            assert(forall|k: int| pos < k < post.len() ==> post[k] == pre[k - 1]);
            lemma_registry_insert(
                pre,
                post,
                old(self).component_ids@,
                self.component_ids@,
                spec_bucket_index(alignment),
                id,
                pos as int,
                post[pos as int],
            );
        }
        id
    }

    /// Route an interaction event to the component under its x-coordinate:
    /// the first registry entry whose span contains it. The returned event
    /// is shifted to be relative to that component's left edge; the caller
    /// delivers it through the entry's interrupt channel. `None` when the
    /// event hit bare background.
    pub fn propagate_event(&self, event: Event) -> (r: Option<(usize, Event)>)
        requires
            forall|i: int|
                0 <= i < self.components@.len() ==> #[trigger] self.components@[i].geometry.width
                    <= 32767,
        ensures
            match r {
                Some((i, ev)) => {
                    &&& 0 <= i < self.components@.len()
                    &&& spec_contains_x(self.components@[i as int], spec_event_x(event))
                    &&& forall|j: int|
                        0 <= j < i ==> !spec_contains_x(
                            self.components@[j],
                            spec_event_x(event),
                        )
                    &&& ev == spec_shift_event(
                        event,
                        self.components@[i as int].geometry.x + 1,
                    )
                },
                None => forall|j: int|
                    0 <= j < self.components@.len() ==> !spec_contains_x(
                        self.components@[j],
                        spec_event_x(event),
                    ),
            },
    {
        let x: i16 = event.position_x();
        let n: usize = self.components.len();
        let mut i: usize = 0;
        while i < n
            invariant
                n == self.components@.len(),
                i <= n,
                x == spec_event_x(event),
                forall|i2: int|
                    0 <= i2 < n ==> #[trigger] self.components@[i2].geometry.width <= 32767,
                forall|j: int| 0 <= j < i ==> !spec_contains_x(self.components@[j], x as int),
            decreases n - i,
        {
            let geo: Geometry = self.components[i].geometry;
            if geo.x < x && (geo.x as i32) + (geo.width as i32) > (x as i32) {
                let shifted = event.shifted_left(geo.x + 1);
                return Some((i, shifted));
            }
            i = i + 1;
        }
        None
    }

    /// The blits that repaint the bar after an exposure: once the bar's
    /// background is composited over the window again, every visible
    /// component's cached surface is copied back to its cached place, in
    /// registry order. Zero-sized components are skipped — they are
    /// registered but invisible.
    pub fn expose_blits(&self) -> (r: Vec<Blit>)
        ensures
            r@ == spec_expose_blits(self.components@, self.components@.len() as int),
    {
        let mut blits: Vec<Blit> = Vec::new();
        let n: usize = self.components.len();
        let mut i: usize = 0;
        while i < n
            invariant
                n == self.components@.len(),
                i <= n,
                blits@ == spec_expose_blits(self.components@, i as int),
            decreases n - i,
        {
            let c = &self.components[i];
            if c.geometry.width > 0 && c.geometry.height > 0 {
                blits.push(
                    Blit {
                        picture: c.picture,
                        x: c.geometry.x,
                        width: c.geometry.width,
                        height: c.geometry.height,
                    },
                );
            }
            i = i + 1;
        }
        blits
    }
}

/// The blits an exposure asks for, over the first `i` registry entries:
/// one for each entry with a visible size, at its cached place.
pub open spec fn spec_expose_blits(s: Seq<BarComponent>, i: int) -> Seq<Blit>
    decreases i,
{
    if i <= 0 {
        Seq::empty()
    } else {
        let rest = spec_expose_blits(s, i - 1);
        if s[i - 1].geometry.width > 0 && s[i - 1].geometry.height > 0 {
            rest.push(
                Blit {
                    picture: s[i - 1].picture,
                    x: s[i - 1].geometry.x,
                    width: s[i - 1].geometry.width,
                    height: s[i - 1].geometry.height,
                },
            )
        } else {
            rest
        }
    }
}

/// Inserting a fresh entry at its sorted position keeps the registry
/// well-formed: the order and the per-bucket id bounds survive, with the
/// fresh id bounded by its bucket's stepped well.
proof fn lemma_registry_insert(
    pre: Seq<BarComponent>,
    post: Seq<BarComponent>,
    ids_pre: Seq<u32>,
    ids_post: Seq<u32>,
    b: int,
    id: u32,
    pos: int,
    entry: BarComponent,
)
    requires
        0 <= b < 3,
        ids_pre.len() == 3,
        ids_post.len() == 3,
        forall|k: int| 0 <= k < 3 ==> #[trigger] ids_pre[k] % 3 == k as u32,
        ids_post =~= ids_pre.update(b, (id + 3) as u32),
        id == ids_pre[b],
        id + 3 <= u32::MAX,
        spec_sorted(pre),
        forall|i: int|
            0 <= i < pre.len() ==> #[trigger] pre[i].id < ids_pre[(pre[i].id % 3) as int],
        0 <= pos <= pre.len(),
        forall|k: int| 0 <= k < pos ==> #[trigger] pre[k].id < id,
        forall|k: int| pos <= k < pre.len() ==> id < #[trigger] pre[k].id,
        post =~= pre.insert(pos, entry),
        entry.id == id,
    ensures
        spec_sorted(post),
        forall|k: int| 0 <= k < 3 ==> #[trigger] ids_post[k] % 3 == k as u32,
        forall|i: int|
            0 <= i < post.len() ==> #[trigger] post[i].id < ids_post[(post[i].id % 3) as int],
{
    assert(id % 3 == b as u32);
    assert forall|i: int, j: int| 0 <= i < j < post.len() implies post[i].id < post[j].id by {
        if i < pos {
            assert(post[i] == pre[i]);
        } else if i == pos {
            assert(post[i] == entry);
        } else {
            assert(post[i] == pre[i - 1]);
        }
        if j < pos {
            assert(post[j] == pre[j]);
        } else if j == pos {
            assert(post[j] == entry);
        } else {
            assert(post[j] == pre[j - 1]);
        }
    }
    assert forall|i: int|
        0 <= i < post.len() implies post[i].id < ids_post[(post[i].id % 3) as int] by {
        if i == pos {
            assert(ids_post[b] == id + 3);
        } else {
            let e = if i < pos {
                pre[i]
            } else {
                pre[i - 1]
            };
            assert(post[i] == e);
            assert(e.id < ids_pre[(e.id % 3) as int]);
            if e.id % 3 == b as u32 {
                assert(ids_post[(e.id % 3) as int] == id + 3);
            } else {
                assert(ids_post[(e.id % 3) as int] == ids_pre[(e.id % 3) as int]);
            }
        }
    }
}

/// Once every id from `i` on is larger than the fresh one, the count of
/// smaller ids stays put.
proof fn lemma_insert_pos_stops(s: Seq<BarComponent>, id: u32, i: int, j: int)
    requires
        0 <= i <= j <= s.len(),
        forall|k: int| i <= k < s.len() ==> id < #[trigger] s[k].id,
    ensures
        spec_insert_pos(s, id, j) == spec_insert_pos(s, id, i),
    decreases j - i,
{
    if i < j {
        lemma_insert_pos_stops(s, id, i, j - 1);
    }
}

} // verus!
