//! Visual selection for the drawable surfaces: choose the visual the frame
//! windows and their surfaces are created with.
//!
//! The caller hands over the screen's allowed depths as plain values; the
//! session picks the first true-color visual at the target depth.

use vstd::prelude::*;

verus! {

/// The visual class of a true-color visual.
pub const TRUE_COLOR_CLASS: u8 = 4;

/// The window depth the frames are created at: 32-bit, so the decoration
/// can carry an alpha channel.
pub const FRAME_DEPTH: u8 = 32;

/// A visual type, as the window system describes it.
#[derive(Debug, Clone, Copy, PartialEq, Eq, Structural)]
pub struct XCBVisualType {
    pub visual_id: u32,
    pub class: u8,
    pub bits_per_rgb_visual_type: u8,
    pub colormap_entries: u16,
    pub red_mask: u32,
    pub green_mask: u32,
    pub blue_mask: u32,
}

/// One entry of a screen's allowed-depths list: a depth and the visuals
/// available at it.
#[derive(Debug, Clone)]
pub struct DepthVisuals {
    pub depth: u8,
    pub visuals: Vec<XCBVisualType>,
}

impl View for DepthVisuals {
    type V = (u8, Seq<XCBVisualType>);

    open spec fn view(&self) -> (u8, Seq<XCBVisualType>) {
        (self.depth, self.visuals@)
    }
}

/// The first true-color visual in a list, if any.
pub open spec fn spec_first_true_color(vs: Seq<XCBVisualType>) -> Option<XCBVisualType>
    decreases vs.len(),
{
    if vs.len() == 0 {
        Option::None
    } else if vs[0].class == TRUE_COLOR_CLASS {
        Option::Some(vs[0])
    } else {
        spec_first_true_color(vs.drop_first())
    }
}

/// The first true-color visual found at the target depth, walking the
/// allowed-depths list in order; a depth group at the target depth without a
/// true-color visual does not stop the search.
pub open spec fn spec_find_visual(ds: Seq<(u8, Seq<XCBVisualType>)>, target: u8) -> Option<XCBVisualType>
    decreases ds.len(),
{
    if ds.len() == 0 {
        Option::None
    } else if ds[0].0 == target && spec_first_true_color(ds[0].1) is Some {
        spec_first_true_color(ds[0].1)
    } else {
        spec_find_visual(ds.drop_first(), target)
    }
}

/// The session-wide drawing parameters: the depth frames are created at and
/// the visual their surfaces use.
#[derive(Debug, Clone, Copy)]
pub struct CairoSession {
    visual_type: XCBVisualType,
    depth: u8,
}

impl CairoSession {
    pub closed spec fn spec_visual_type(self) -> XCBVisualType {
        self.visual_type
    }

    pub closed spec fn spec_depth(self) -> u8 {
        self.depth
    }

    /// Pick the first true-color visual at the frame depth from the screen's
    /// allowed depths. Returns nothing exactly when the screen offers no
    /// such visual — the session cannot be created then.
    pub fn create(allowed_depths: &Vec<DepthVisuals>) -> (r: Option<CairoSession>)
        ensures
            ({
                let ds = allowed_depths@.map_values(|d: DepthVisuals| d@);
                match spec_find_visual(ds, FRAME_DEPTH) {
                    Option::Some(v) => r matches Option::Some(cs) && cs.spec_visual_type() == v
                        && cs.spec_depth() == FRAME_DEPTH,
                    Option::None => r matches Option::None,
                }
            }),
    {
        let ghost ds = allowed_depths@.map_values(|d: DepthVisuals| d@);
        let n = allowed_depths.len();
        let mut i: usize = 0;
        proof {
            assert(ds.skip(0) =~= ds);
        }
        while i < n
            invariant
                ds == allowed_depths@.map_values(|d: DepthVisuals| d@),
                n == allowed_depths@.len(),
                0 <= i <= n,
                spec_find_visual(ds, FRAME_DEPTH) == spec_find_visual(
                    ds.skip(i as int),
                    FRAME_DEPTH,
                ),
            decreases n - i,
        {
            let entry = &allowed_depths[i];
            proof {
                assert(ds[i as int] == allowed_depths@[i as int]@);
                assert(ds.skip(i as int)[0] == ds[i as int]);
                assert(ds.skip(i as int).drop_first() =~= ds.skip(i as int + 1));
            }
            if entry.depth == FRAME_DEPTH {
                let vn = entry.visuals.len();
                let mut j: usize = 0;
                proof {
                    assert(entry.visuals@.skip(0) =~= entry.visuals@);
                }
                while j < vn
                    invariant
                        ds == allowed_depths@.map_values(|d: DepthVisuals| d@),
                        n == allowed_depths@.len(),
                        0 <= i < n,
                        ds[i as int] == allowed_depths@[i as int]@,
                        allowed_depths@[i as int].depth == FRAME_DEPTH,
                        entry == &allowed_depths@[i as int],
                        spec_find_visual(ds, FRAME_DEPTH) == spec_find_visual(
                            ds.skip(i as int),
                            FRAME_DEPTH,
                        ),
                        vn == entry.visuals@.len(),
                        0 <= j <= vn,
                        spec_first_true_color(entry.visuals@) == spec_first_true_color(
                            entry.visuals@.skip(j as int),
                        ),
                    decreases vn - j,
                {
                    proof {
                        assert(entry.visuals@.skip(j as int)[0] == entry.visuals@[j as int]);
                        assert(entry.visuals@.skip(j as int).drop_first() =~= entry.visuals@.skip(
                            j as int + 1,
                        ));
                    }
                    let v = entry.visuals[j];
                    if v.class == TRUE_COLOR_CLASS {
                        proof {
                            assert(spec_first_true_color(entry.visuals@.skip(j as int))
                                == Option::Some(v));
                            assert(ds.skip(i as int)[0].0 == FRAME_DEPTH);
                            assert(ds.skip(i as int)[0].1 == entry.visuals@);
                            assert(spec_find_visual(ds.skip(i as int), FRAME_DEPTH)
                                == Option::Some(v));
                        }
                        return Some(CairoSession { visual_type: v, depth: FRAME_DEPTH });
                    }
                    j += 1;
                }
                proof {
                    assert(entry.visuals@.skip(vn as int) =~= Seq::<XCBVisualType>::empty());
                    assert(spec_first_true_color(entry.visuals@) is None);
                }
            }
            i += 1;
        }
        proof {
            assert(ds.skip(n as int) =~= Seq::<(u8, Seq<XCBVisualType>)>::empty());
        }
        None
    }

    /// The depth frame windows are created at.
    pub fn depth(&self) -> (r: u8)
        ensures
            r == self.spec_depth(),
    {
        self.depth
    }

    /// The visual the frame surfaces use.
    pub fn visual_type(&self) -> (r: &XCBVisualType)
        ensures
            *r == self.spec_visual_type(),
    {
        &self.visual_type
    }
}

} // verus!
