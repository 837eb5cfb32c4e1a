//! The target catalog: an ordered list of output sizes, each with a nominal
//! DPI tag, and the size ceiling shared by every encode decision.

use vstd::prelude::*;

verus! {

/// One target rendition size: exact output pixel dimensions and the DPI tag
/// that becomes part of the output name. Valid profiles have positive
/// dimensions.
#[derive(Clone, Copy, PartialEq, Eq, Structural, Debug)]
pub struct ResizeProfile {
    pub width: u32,
    pub height: u32,
    pub dpi: u32,
}

impl ResizeProfile {
    /// A profile is well formed when both target dimensions are positive.
    pub open spec fn wf(self) -> bool {
        self.width > 0 && self.height > 0
    }

    pub fn new(width: u32, height: u32, dpi: u32) -> (r: ResizeProfile)
        requires
            width > 0,
            height > 0,
        ensures
            r == (ResizeProfile { width, height, dpi }),
            r.wf(),
    {
        ResizeProfile { width, height, dpi }
    }
}

/// The fixed catalog as a mathematical sequence; `catalog` returns exactly
/// this, in this order.
pub open spec fn catalog_spec() -> Seq<ResizeProfile> {
    seq![
        ResizeProfile { width: 4725, height: 9225, dpi: 150 },
        ResizeProfile { width: 5625, height: 11025, dpi: 150 },
        ResizeProfile { width: 7238, height: 3638, dpi: 150 },
        ResizeProfile { width: 18900, height: 9900, dpi: 300 },
        ResizeProfile { width: 3630, height: 5730, dpi: 300 },
        ResizeProfile { width: 4800, height: 9300, dpi: 150 },
        ResizeProfile { width: 3600, height: 4800, dpi: 150 },
        ResizeProfile { width: 4500, height: 4500, dpi: 300 },
        ResizeProfile { width: 5693, height: 9154, dpi: 300 },
        ResizeProfile { width: 5374, height: 8102, dpi: 300 },
        ResizeProfile { width: 7163, height: 13205, dpi: 300 },
        ResizeProfile { width: 9579, height: 18390, dpi: 300 },
        ResizeProfile { width: 3000, height: 4800, dpi: 150 },
        ResizeProfile { width: 5043, height: 7350, dpi: 300 },
        ResizeProfile { width: 6000, height: 12450, dpi: 150 },
    ]
}

/// The fixed, ordered catalog of target profiles. Order determines the
/// processing order of renditions and nothing else.
pub fn catalog() -> (r: Vec<ResizeProfile>)
    ensures
        r@ == catalog_spec(),
        r@.len() == 15,
        forall|i: int| 0 <= i < r@.len() ==> r@[i].wf(),
{
    let mut v: Vec<ResizeProfile> = Vec::new();
    v.push(ResizeProfile { width: 4725, height: 9225, dpi: 150 });
    v.push(ResizeProfile { width: 5625, height: 11025, dpi: 150 });
    v.push(ResizeProfile { width: 7238, height: 3638, dpi: 150 });
    v.push(ResizeProfile { width: 18900, height: 9900, dpi: 300 });
    v.push(ResizeProfile { width: 3630, height: 5730, dpi: 300 });
    v.push(ResizeProfile { width: 4800, height: 9300, dpi: 150 });
    v.push(ResizeProfile { width: 3600, height: 4800, dpi: 150 });
    v.push(ResizeProfile { width: 4500, height: 4500, dpi: 300 });
    v.push(ResizeProfile { width: 5693, height: 9154, dpi: 300 });
    v.push(ResizeProfile { width: 5374, height: 8102, dpi: 300 });
    v.push(ResizeProfile { width: 7163, height: 13205, dpi: 300 });
    v.push(ResizeProfile { width: 9579, height: 18390, dpi: 300 });
    v.push(ResizeProfile { width: 3000, height: 4800, dpi: 150 });
    v.push(ResizeProfile { width: 5043, height: 7350, dpi: 300 });
    v.push(ResizeProfile { width: 6000, height: 12450, dpi: 150 });
    assert(v@ =~= catalog_spec());
    v
}

/// The default per-rendition size ceiling, in megabytes.
pub const DEFAULT_CEILING_MB: u64 = 100;

/// Convert a ceiling given in megabytes to the byte count that the encode
/// decision compares against.
pub fn ceiling_bytes(mb: u64) -> (r: u64)
    requires
        mb * 1024 * 1024 <= u64::MAX,
    ensures
        r == mb * 1024 * 1024,
{
    mb * 1024 * 1024
}

} // verus!
