//! Registry entries: what the bar caches about each live component.

use crate::background::Background;
use crate::color::Color;
use crate::foreground::Foreground;
use crate::alignment::Alignment;
use crate::geometry::Geometry;
use vstd::prelude::*;

verus! {

/// A content fingerprint: the snapshot of a component's declared visual
/// inputs that decides whether a redraw may be skipped.
///
/// Two equal fingerprints mean the declared content is unchanged, so the
/// cached surface is still valid.
#[derive(Clone, Debug)]
pub struct BarComponentCache {
    /// Picture ids of the content layers, in declared order.
    pub pictures: Vec<u32>,
    /// Vertical text offset, zero where none applies.
    pub yoffset: i16,
    /// The declared fill color, if any.
    pub color: Option<Color>,
    /// The declared alignment.
    pub alignment: Alignment,
}

/// The picture ids a background contributes to its fingerprint: one per
/// image layer, in declared order.
pub open spec fn spec_bg_pictures(bg: Background) -> Seq<u32> {
    bg.images@.map_values(|img: crate::img::Image| img.picture.xid)
}

/// The picture ids a foreground contributes to its fingerprint: the text's
/// picture, if there is a text.
pub open spec fn spec_fg_pictures(fg: Foreground) -> Seq<u32> {
    match fg.text {
        Some(t) => seq![t.picture.xid],
        None => Seq::empty(),
    }
}

/// Whether a cache is exactly the fingerprint of this background.
pub open spec fn spec_cache_matches_bg(c: BarComponentCache, bg: Background) -> bool {
    &&& c.pictures@ == spec_bg_pictures(bg)
    &&& c.yoffset == 0
    &&& c.color == bg.color
    &&& c.alignment == bg.alignment
}

/// Whether a cache is exactly the fingerprint of this foreground.
pub open spec fn spec_cache_matches_fg(c: BarComponentCache, fg: Foreground) -> bool {
    &&& c.pictures@ == spec_fg_pictures(fg)
    &&& c.yoffset == (match fg.yoffset {
        Some(y) => y,
        None => 0,
    })
    &&& c.color is None
    &&& c.alignment == fg.alignment
}

/// Element-wise equality of two picture-id vectors.
fn pictures_eq(a: &Vec<u32>, b: &Vec<u32>) -> (r: bool)
    ensures
        r == (a@ == b@),
{
    if a.len() != b.len() {
        return false;
    }
    let mut i: usize = 0;
    while i < a.len()
        invariant
            i <= a@.len(),
            a@.len() == b@.len(),
            forall|k: int| 0 <= k < i ==> a@[k] == b@[k],
        decreases a@.len() - i,
    {
        if a[i] != b[i] {
            return false;
        }
        i = i + 1;
    }
    proof {
        assert(a@ =~= b@);
    }
    true
}

impl PartialEq for BarComponentCache {
    /// Fingerprints are equal when every cached field agrees.
    fn eq(&self, other: &Self) -> (r: bool) {
        pictures_eq(&self.pictures, &other.pictures) && self.yoffset == other.yoffset
            && self.color == other.color && self.alignment == other.alignment
    }
}

impl vstd::std_specs::cmp::PartialEqSpecImpl for BarComponentCache {
    open spec fn obeys_eq_spec() -> bool {
        true
    }

    open spec fn eq_spec(&self, other: &Self) -> bool {
        &&& self.pictures@ == other.pictures@
        &&& self.yoffset == other.yoffset
        &&& self.color == other.color
        &&& self.alignment == other.alignment
    }
}

impl BarComponentCache {
    /// Create an empty cache: the fingerprint of a component that has not
    /// drawn anything yet.
    pub fn new() -> (r: Self)
        ensures
            r.pictures@ =~= Seq::<u32>::empty(),
            r.yoffset == 0,
            r.color is None,
            r.alignment is CENTER,
    {
        BarComponentCache {
            pictures: Vec::new(),
            yoffset: 0,
            color: None,
            alignment: Alignment::CENTER,
        }
    }

    /// The fingerprint of a background.
    pub fn new_bg(background: &Background) -> (r: Self)
        ensures
            spec_cache_matches_bg(r, *background),
    {
        let mut pictures: Vec<u32> = Vec::new();
        let mut i: usize = 0;
        while i < background.images.len()
            invariant
                i <= background.images@.len(),
                pictures@.len() == i,
                forall|k: int| 0 <= k < i ==> pictures@[k] == background.images@[k].picture.xid,
            decreases background.images@.len() - i,
        {
            pictures.push(background.images[i].picture.xid);
            i = i + 1;
        }
        proof {
            assert(pictures@ =~= spec_bg_pictures(*background));
        }
        BarComponentCache {
            yoffset: 0,
            color: background.color,
            alignment: background.alignment,
            pictures,
        }
    }

    /// The fingerprint of a foreground.
    pub fn new_fg(foreground: &Foreground) -> (r: Self)
        ensures
            spec_cache_matches_fg(r, *foreground),
    {
        let mut pictures: Vec<u32> = Vec::new();
        match foreground.text {
            Some(t) => pictures.push(t.picture.xid),
            None => {}
        }
        proof {
            assert(pictures@ =~= spec_fg_pictures(*foreground));
        }
        BarComponentCache {
            color: None,
            alignment: foreground.alignment,
            yoffset: match foreground.yoffset {
                Some(y) => y,
                None => 0,
            },
            pictures,
        }
    }
}

impl Default for BarComponentCache {
    /// Same as [`BarComponentCache::new`]: an empty fingerprint.
    fn default() -> (r: Self)
        ensures
            r.pictures@ =~= Seq::<u32>::empty(),
            r.yoffset == 0,
            r.color is None,
            r.alignment is CENTER,
    {
        BarComponentCache::new()
    }
}

/// A component currently registered in the bar: its identity, its cached
/// placement and fingerprints, its composited surface, and the channel that
/// routes interaction events into its running control loop.
#[derive(Clone, Debug)]
pub struct BarComponent {
    /// The permanent component id: `ordinal * 3 + bucket`.
    pub id: u32,
    /// The server-side picture holding the component's composited content.
    pub picture: u32,
    /// Current on-screen placement.
    pub geometry: Geometry,
    /// Fingerprint of the background drawn into `picture`.
    pub bg_cache: BarComponentCache,
    /// Fingerprint of the foreground drawn into `picture`.
    pub fg_cache: BarComponentCache,
    /// Handle of the interrupt channel of the component's current control
    /// loop iteration, if one is listening.
    pub interrupt: Option<u64>,
}

impl BarComponent {
    /// Create a fresh registry entry for a component: empty fingerprints,
    /// zero-sized geometry, nobody listening yet.
    pub fn new(id: u32, picture: u32) -> (r: Self)
        ensures
            r.id == id,
            r.picture == picture,
            r.geometry == (Geometry { x: 0i16, y: 0i16, width: 0u16, height: 0u16 }),
            r.bg_cache.pictures@ =~= Seq::<u32>::empty(),
            r.bg_cache.yoffset == 0,
            r.bg_cache.color is None,
            r.bg_cache.alignment is CENTER,
            r.fg_cache.pictures@ =~= Seq::<u32>::empty(),
            r.fg_cache.yoffset == 0,
            r.fg_cache.color is None,
            r.fg_cache.alignment is CENTER,
            r.interrupt is None,
    {
        BarComponent {
            id,
            picture,
            geometry: Geometry::default(),
            bg_cache: BarComponentCache::new(),
            fg_cache: BarComponentCache::new(),
            interrupt: None,
        }
    }

    /// Replace the cached placement of the component.
    pub fn set_geometry(&mut self, geometry: Geometry)
        ensures
            *final(self) == (BarComponent { geometry, ..*old(self) }),
    {
        self.geometry = geometry;
    }
}

} // verus!
