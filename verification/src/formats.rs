//! Choosing the pixel formats a bar draws with.
//!
//! The connection provider queries the display server for every picture
//! format it offers; this module picks, from those plain records, the
//! 24-bit format for the window and the 32-bit alpha-capable format that
//! every composited surface must use — a surface built with any other
//! format composites to undefined visual results.

use vstd::prelude::*;

verus! {

/// One picture format as the display server advertises it: its id, its
/// depth, and where each channel sits in a pixel.
#[derive(Clone, Copy, Debug, Eq, PartialEq, Structural)]
pub struct PictFormat {
    /// The format's protocol id.
    pub id: u32,
    /// Bits per pixel of the format.
    pub depth: u8,
    /// Bit position of the alpha channel.
    pub alpha_shift: u16,
    /// Bit position of the red channel.
    pub red_shift: u16,
    /// Bit position of the green channel.
    pub green_shift: u16,
    /// Bit position of the blue channel.
    pub blue_shift: u16,
}

/// The 32-bit format surfaces need: depth 32 with ARGB channel order,
/// alpha in the top byte.
pub open spec fn spec_is_format32(f: PictFormat) -> bool {
    f.depth == 32 && f.alpha_shift == 24 && f.red_shift == 16 && f.green_shift == 8
        && f.blue_shift == 0
}

/// The 24-bit format the window uses: depth 24 with RGB channel order.
pub open spec fn spec_is_format24(f: PictFormat) -> bool {
    f.depth == 24 && f.red_shift == 16 && f.green_shift == 8 && f.blue_shift == 0
}

/// Pick the 24-bit and the 32-bit image formats out of the formats the
/// display server offers: the first matching format of each depth. `None`
/// when either is missing; a screen without both cannot host the bar.
pub fn image_formats(formats: &Vec<PictFormat>) -> (r: Option<(u32, u32)>)
    ensures
        r is None <==> (forall|k: int|
            0 <= k < formats@.len() ==> !spec_is_format24(#[trigger] formats@[k])) || (forall|
            k: int,
        |
            0 <= k < formats@.len() ==> !spec_is_format32(#[trigger] formats@[k])),
        r matches Some((fmt24, fmt32)) ==> (exists|i: int|
            {
                &&& 0 <= i < formats@.len()
                &&& spec_is_format24(#[trigger] formats@[i])
                &&& formats@[i].id == fmt24
                &&& forall|j: int| 0 <= j < i ==> !spec_is_format24(#[trigger] formats@[j])
            }) && (exists|i: int|
            {
                &&& 0 <= i < formats@.len()
                &&& spec_is_format32(#[trigger] formats@[i])
                &&& formats@[i].id == fmt32
                &&& forall|j: int| 0 <= j < i ==> !spec_is_format32(#[trigger] formats@[j])
            }),
{
    let mut format24: Option<u32> = None;
    let mut format32: Option<u32> = None;
    let ghost s = formats@;
    let n: usize = formats.len();
    let mut i: usize = 0;
    while i < n
        invariant
            n == s.len(),
            s == formats@,
            i <= n,
            match format24 {
                Some(f) => exists|k: int|
                    {
                        &&& 0 <= k < i
                        &&& spec_is_format24(#[trigger] s[k])
                        &&& s[k].id == f
                        &&& forall|j: int| 0 <= j < k ==> !spec_is_format24(#[trigger] s[j])
                    },
                None => forall|k: int| 0 <= k < i ==> !spec_is_format24(#[trigger] s[k]),
            },
            match format32 {
                Some(f) => exists|k: int|
                    {
                        &&& 0 <= k < i
                        &&& spec_is_format32(#[trigger] s[k])
                        &&& s[k].id == f
                        &&& forall|j: int| 0 <= j < k ==> !spec_is_format32(#[trigger] s[j])
                    },
                None => forall|k: int| 0 <= k < i ==> !spec_is_format32(#[trigger] s[k]),
            },
        decreases n - i,
    {
        let f = &formats[i];
        if format32.is_none() && f.depth == 32 && f.alpha_shift == 24 && f.red_shift == 16
            && f.green_shift == 8 && f.blue_shift == 0 {
            format32 = Some(f.id);
        }
        if format24.is_none() && f.depth == 24 && f.red_shift == 16 && f.green_shift == 8
            && f.blue_shift == 0 {
            format24 = Some(f.id);
        }
        i = i + 1;
    }
    match (format24, format32) {
        (Some(found24), Some(found32)) => Some((found24, found32)),
        _ => None,
    }
}

} // verus!
