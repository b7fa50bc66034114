//! Discovery of the root visual's channel layout.
//!
//! The display server describes each screen by a list of allowed depths,
//! each carrying the visuals available at that depth.  Discovery selects the
//! visual matching the screen's root visual identifier at the root depth,
//! checks that it is a 24- or 32-bit TrueColour visual whose channel masks
//! are contiguous 8-bit fields, and reduces the masks to [`RgbShifts`].

use vstd::prelude::*;

use crate::err::{Error, VisualClass};
use crate::img::RgbShifts;

verus! {

/// A visual, as the display server reports it: an identifier, a class and
/// the three channel masks.
#[derive(Clone, Copy, Debug, PartialEq, Eq, Structural)]
pub struct Visual {
    pub visual_id: u32,
    pub class: VisualClass,
    pub red_mask: u32,
    pub green_mask: u32,
    pub blue_mask: u32,
}

/// One allowed-depths record of a screen: a depth and the visuals available
/// at it.
#[derive(Clone, Debug, PartialEq, Eq)]
pub struct DepthInfo {
    pub depth: u8,
    pub visuals: Vec<Visual>,
}

/// The part of a screen description that discovery and drawing read: the
/// root depth and visual, the allowed-depths table, and the screen's size
/// in pixels.
#[derive(Clone, Debug, PartialEq, Eq)]
pub struct ScreenInfo {
    pub root_depth: u8,
    pub root_visual: u32,
    pub allowed_depths: Vec<DepthInfo>,
    pub width_in_pixels: u16,
    pub height_in_pixels: u16,
}

/// The first visual with the given identifier, in order.
pub open spec fn find_in_visuals(vs: Seq<Visual>, id: u32) -> Option<Visual>
    decreases vs.len(),
{
    if vs.len() == 0 {
        None
    } else if vs[0].visual_id == id {
        Some(vs[0])
    } else {
        find_in_visuals(vs.skip(1), id)
    }
}

/// The first visual with the given identifier among the depth records whose
/// depth equals the root depth, walking records and visuals in order.
pub open spec fn find_root_visual(depths: Seq<DepthInfo>, root_depth: u8, id: u32) -> Option<
    Visual,
>
    decreases depths.len(),
{
    if depths.len() == 0 {
        None
    } else if depths[0].depth == root_depth {
        match find_in_visuals(depths[0].visuals@, id) {
            Some(v) => Some(v),
            None => find_root_visual(depths.skip(1), root_depth, id),
        }
    } else {
        find_root_visual(depths.skip(1), root_depth, id)
    }
}

/// Whether a channel mask is a contiguous 8-bit field: equal to `0xFF`
/// shifted left by some amount that keeps all eight bits inside the word.
pub open spec fn has_channel_shift(mask: u32) -> bool {
    exists|sh: u8| sh <= 24 && mask == (0xFFu32 << sh)
}

/// Reduces a channel mask to its shift: the amount by which `0xFF` must be
/// shifted left to produce the mask.  `None` when the mask is not a
/// contiguous 8-bit field.
pub fn get_shift(mask: u32) -> (r: Option<u8>)
    ensures
        match r {
            Some(shift) => shift <= 24 && mask == (0xFFu32 << shift),
            None => !has_channel_shift(mask),
        },
{
    let mut sh: u8 = 0;
    while sh <= 24
        invariant
            sh <= 25,
            forall|s: u8| s < sh ==> mask != (0xFFu32 << s),
        decreases 25 - sh,
    {
        if mask == 0xFFu32 << sh {
            return Some(sh);
        }
        sh = sh + 1;
    }
    None
}

/// The first visual with the given identifier inside one depth record's
/// visual list.
fn find_visual_in(visuals: &Vec<Visual>, id: u32) -> (r: Option<Visual>)
    ensures
        r == find_in_visuals(visuals@, id),
{
    let mut vi: usize = 0;
    proof {
        assert(visuals@.skip(0) =~= visuals@);
    }
    while vi < visuals.len()
        invariant
            vi <= visuals@.len(),
            find_in_visuals(visuals@, id) == find_in_visuals(visuals@.skip(vi as int), id),
        decreases visuals@.len() - vi,
    {
        let v: Visual = visuals[vi];
        proof {
            assert(visuals@.skip(vi as int)[0] == visuals@[vi as int]);
            assert(visuals@.skip(vi as int).skip(1) =~= visuals@.skip(vi as int + 1));
        }
        if v.visual_id == id {
            return Some(v);
        }
        vi = vi + 1;
    }
    None
}

/// What discovery returns for a screen: the first visual with the root
/// visual's identifier at the root depth decides.  No such visual yields
/// [`Error::CouldNotFindRootVisual`]; a visual that is not TrueColour at
/// depth 24 or 32, or whose channel masks are not all contiguous 8-bit
/// fields, yields [`Error::UnsupportedVisual`] with the root depth and the
/// visual's class; otherwise the result carries the shift of each mask.
pub open spec fn rgb_shifts_result(screen: ScreenInfo, r: Result<RgbShifts, Error>) -> bool {
    match find_root_visual(screen.allowed_depths@, screen.root_depth, screen.root_visual) {
        None => r == Err::<RgbShifts, Error>(Error::CouldNotFindRootVisual(screen.root_visual)),
        Some(vis) => {
            if vis.class == VisualClass::TrueColor && (screen.root_depth == 24
                || screen.root_depth == 32) {
                match r {
                    Ok(shifts) => {
                        &&& shifts.valid()
                        &&& vis.red_mask == (0xFFu32 << shifts.r)
                        &&& vis.green_mask == (0xFFu32 << shifts.g)
                        &&& vis.blue_mask == (0xFFu32 << shifts.b)
                    },
                    Err(e) => {
                        &&& !(has_channel_shift(vis.red_mask) && has_channel_shift(
                            vis.green_mask,
                        ) && has_channel_shift(vis.blue_mask))
                        &&& e == Error::UnsupportedVisual(screen.root_depth, vis.class)
                    },
                }
            } else {
                r == Err::<RgbShifts, Error>(
                    Error::UnsupportedVisual(screen.root_depth, vis.class),
                )
            }
        },
    }
}

/// Checks that the screen's root visual is one this library supports and
/// returns the red, green and blue channel shifts.
///
/// The visual must be found at the root depth (else
/// [`Error::CouldNotFindRootVisual`]), must be a TrueColour visual at depth
/// 24 or 32, and each of its channel masks must be a contiguous 8-bit field
/// (else [`Error::UnsupportedVisual`] carrying the root depth and the
/// visual's class).
pub fn get_rgb_shifts(screen: &ScreenInfo) -> (r: Result<RgbShifts, Error>)
    ensures
        rgb_shifts_result(*screen, r),
{
    let mut di: usize = 0;
    proof {
        assert(screen.allowed_depths@.skip(0) =~= screen.allowed_depths@);
    }
    while di < screen.allowed_depths.len()
        invariant
            di <= screen.allowed_depths@.len(),
            find_root_visual(
                screen.allowed_depths@,
                screen.root_depth,
                screen.root_visual,
            ) == find_root_visual(
                screen.allowed_depths@.skip(di as int),
                screen.root_depth,
                screen.root_visual,
            ),
        decreases screen.allowed_depths@.len() - di,
    {
        let d = &screen.allowed_depths[di];
        proof {
            assert(screen.allowed_depths@.skip(di as int)[0] == screen.allowed_depths@[
                di as int]);
            assert(screen.allowed_depths@.skip(di as int).skip(1) =~= screen.allowed_depths@.skip(
                di as int + 1,
            ));
        }
        if d.depth == screen.root_depth {
            match find_visual_in(&d.visuals, screen.root_visual) {
                Some(vis) => {
                    if matches!(vis.class, VisualClass::TrueColor) && (screen.root_depth == 24
                        || screen.root_depth == 32) {
                        let sr = get_shift(vis.red_mask);
                        let sg = get_shift(vis.green_mask);
                        let sb = get_shift(vis.blue_mask);
                        match (sr, sg, sb) {
                            (Some(r), Some(g), Some(b)) => {
                                return Ok(RgbShifts { r, g, b });
                            },
                            _ => {
                                return Err(
                                    Error::UnsupportedVisual(screen.root_depth, vis.class),
                                );
                            },
                        }
                    } else {
                        return Err(Error::UnsupportedVisual(screen.root_depth, vis.class));
                    }
                },
                None => {},
            }
        }
        di = di + 1;
    }
    Err(Error::CouldNotFindRootVisual(screen.root_visual))
}

/// What the visual search guarantees: a found visual carries the searched
/// identifier and stands in the list; a miss means no element carries it.
pub proof fn lemma_find_in_visuals_props(vs: Seq<Visual>, id: u32)
    ensures
        match find_in_visuals(vs, id) {
            Some(v) => v.visual_id == id && exists|j: int| 0 <= j < vs.len() && vs[j] == v,
            None => forall|j: int| 0 <= j < vs.len() ==> vs[j].visual_id != id,
        },
    decreases vs.len(),
{
    if vs.len() == 0 {
    } else if vs[0].visual_id == id {
    } else {
        lemma_find_in_visuals_props(vs.skip(1), id);
        match find_in_visuals(vs.skip(1), id) {
            Some(v) => {
                let j = choose|j: int| 0 <= j < vs.skip(1).len() && vs.skip(1)[j] == v;
                assert(vs[j + 1] == v);
            },
            None => {
                assert forall|j: int| 0 <= j < vs.len() implies vs[j].visual_id != id by {
                    if j > 0 {
                        assert(vs.skip(1)[j - 1] == vs[j]);
                    }
                }
            },
        }
    }
}

/// When exactly one visual in the list carries the identifier, the search
/// finds precisely that visual.
pub proof fn lemma_find_in_visuals_unique(vs: Seq<Visual>, id: u32, vis: Visual)
    requires
        vis.visual_id == id,
        exists|j: int| 0 <= j < vs.len() && vs[j] == vis,
        forall|j: int| 0 <= j < vs.len() && #[trigger] vs[j].visual_id == id ==> vs[j] == vis,
    ensures
        find_in_visuals(vs, id) == Some(vis),
{
    lemma_find_in_visuals_props(vs, id);
    let j = choose|j: int| 0 <= j < vs.len() && vs[j] == vis;
    match find_in_visuals(vs, id) {
        Some(v) => {
            let k = choose|k: int| 0 <= k < vs.len() && vs[k] == v;
            assert(vs[k].visual_id == id);
        },
        None => {
            assert(vs[j].visual_id != id);
        },
    }
}

/// When exactly one visual among the root-depth records carries the
/// identifier, the whole walk finds precisely that visual.
pub proof fn lemma_find_root_visual_unique(
    depths: Seq<DepthInfo>,
    root_depth: u8,
    id: u32,
    vis: Visual,
)
    requires
        vis.visual_id == id,
        exists|i: int, j: int|
            0 <= i < depths.len() && depths[i].depth == root_depth && 0 <= j
                < depths[i].visuals@.len() && (#[trigger] depths[i].visuals@[j]) == vis,
        forall|i: int, j: int|
            0 <= i < depths.len() && #[trigger] depths[i].depth == root_depth && 0 <= j
                < depths[i].visuals@.len() && #[trigger] depths[i].visuals@[j].visual_id == id
                ==> depths[i].visuals@[j] == vis,
    ensures
        find_root_visual(depths, root_depth, id) == Some(vis),
    decreases depths.len(),
{
    let (wi, wj) = choose|i: int, j: int|
        0 <= i < depths.len() && depths[i].depth == root_depth && 0 <= j
            < depths[i].visuals@.len() && (#[trigger] depths[i].visuals@[j]) == vis;
    let rest = depths.skip(1);
    let recurse = if depths[0].depth == root_depth {
        lemma_find_in_visuals_props(depths[0].visuals@, id);
        match find_in_visuals(depths[0].visuals@, id) {
            Some(v) => {
                let k = choose|k: int|
                    0 <= k < depths[0].visuals@.len() && depths[0].visuals@[k] == v;
                assert(depths[0].visuals@[k].visual_id == id);
                false
            },
            None => true,
        }
    } else {
        true
    };
    if recurse {
        assert(wi != 0);
        assert(rest[wi - 1] == depths[wi]);
        assert((#[trigger] rest[wi - 1].visuals@[wj]) == vis);
        assert forall|i: int, j: int|
            0 <= i < rest.len() && #[trigger] rest[i].depth == root_depth && 0 <= j
                < rest[i].visuals@.len() && #[trigger] rest[i].visuals@[j].visual_id
                == id implies rest[i].visuals@[j] == vis by {
            assert(rest[i] == depths[i + 1]);
        }
        lemma_find_root_visual_unique(rest, root_depth, id, vis);
    }
}

/// Law: a contiguous 8-bit channel mask determines its shift, so the `Ok`
/// case of discovery pins the shifts uniquely from the visual's masks.
pub proof fn lemma_channel_shift_unique(mask: u32, s1: u8, s2: u8)
    requires
        s1 <= 24,
        s2 <= 24,
        mask == (0xFFu32 << s1),
        mask == (0xFFu32 << s2),
    ensures
        s1 == s2,
{
    assert((0xFFu32 << s1) == (0xFFu32 << s2) ==> s1 == s2) by (bit_vector)
        requires
            s1 <= 24,
            s2 <= 24,
    ;
}

/// Law: on a screen whose root-depth records contain, uniquely, a
/// TrueColour visual with the root visual's identifier and the masks
/// `red = 0xFF0000`, `green = 0x00FF00`, `blue = 0x0000FF` at root depth
/// 24, discovery succeeds with the shifts `(16, 8, 0)` exactly.
pub proof fn lemma_discovery_success(
    screen: ScreenInfo,
    vis: Visual,
    r: Result<RgbShifts, Error>,
)
    requires
        rgb_shifts_result(screen, r),
        vis.visual_id == screen.root_visual,
        vis.class == VisualClass::TrueColor,
        vis.red_mask == 0xFF0000,
        vis.green_mask == 0x00FF00,
        vis.blue_mask == 0x0000FF,
        screen.root_depth == 24,
        exists|i: int, j: int|
            0 <= i < screen.allowed_depths@.len()
                && screen.allowed_depths@[i].depth == screen.root_depth && 0 <= j
                < screen.allowed_depths@[i].visuals@.len()
                && (#[trigger] screen.allowed_depths@[i].visuals@[j]) == vis,
        forall|i: int, j: int|
            0 <= i < screen.allowed_depths@.len()
                && #[trigger] screen.allowed_depths@[i].depth == screen.root_depth && 0 <= j
                < screen.allowed_depths@[i].visuals@.len()
                && #[trigger] screen.allowed_depths@[i].visuals@[j].visual_id
                == screen.root_visual ==> screen.allowed_depths@[i].visuals@[j] == vis,
    ensures
        r == Ok::<RgbShifts, Error>(RgbShifts { r: 16, g: 8, b: 0 }),
{
    lemma_find_root_visual_unique(
        screen.allowed_depths@,
        screen.root_depth,
        screen.root_visual,
        vis,
    );
    assert(0xFF0000u32 == (0xFFu32 << 16) && 0x00FF00u32 == (0xFFu32 << 8) && 0x0000FFu32 == (
    0xFFu32 << 0)) by (bit_vector);
    match r {
        Ok(shifts) => {
            lemma_channel_shift_unique(0xFF0000, shifts.r, 16);
            lemma_channel_shift_unique(0x00FF00, shifts.g, 8);
            lemma_channel_shift_unique(0x0000FF, shifts.b, 0);
        },
        Err(_) => {
            assert(has_channel_shift(0xFF0000)) by {
                assert(24u8 <= 24 && 0xFF0000u32 == (0xFFu32 << 16u8));
            }
            assert(has_channel_shift(0x00FF00)) by {
                assert(8u8 <= 24 && 0x00FF00u32 == (0xFFu32 << 8u8));
            }
            assert(has_channel_shift(0x0000FF)) by {
                assert(0u8 <= 24 && 0x0000FFu32 == (0xFFu32 << 0u8));
            }
        },
    }
}

} // verus!
