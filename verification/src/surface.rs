//! The surface-side data model: physical sizes, color formats, the
//! capabilities the platform reports, the surface configuration the
//! manager maintains, and the fixed clear color.

use vstd::prelude::*;

verus! {

/// A physical pixel size as delivered by the platform.
#[derive(Clone, Copy, PartialEq, Eq, Structural, Debug)]
pub struct Extent {
    pub width: u32,
    pub height: u32,
}

impl Extent {
    /// A resize request is applied only when it has positive area.
    pub open spec fn is_positive(self) -> bool {
        self.width > 0 && self.height > 0
    }

    /// Executable test for `is_positive`.
    pub fn positive(&self) -> (r: bool)
        ensures
            r == self.is_positive(),
    {
        self.width > 0 && self.height > 0
    }
}

/// A color format the surface supports, reduced to what the selection
/// rule reads: an identifying code and whether the format is sRGB.
#[derive(Clone, Copy, PartialEq, Eq, Structural, Debug)]
pub struct TextureFormat {
    pub code: u32,
    pub srgb: bool,
}

/// What the surface reports it can do, as plain values. Each list keeps
/// the order in which the platform reports the entries, and none of the
/// lists may be empty on a usable surface.
pub struct SurfaceCaps {
    pub formats: Vec<TextureFormat>,
    pub present_modes: Vec<u32>,
    pub alpha_modes: Vec<u32>,
}

impl SurfaceCaps {
    /// A usable surface reports at least one format, one presentation
    /// mode and one alpha-compositing mode.
    pub open spec fn wf(self) -> bool {
        &&& self.formats@.len() > 0
        &&& self.present_modes@.len() > 0
        &&& self.alpha_modes@.len() > 0
    }
}

/// The surface configuration the manager maintains. Its width and
/// height always hold the most recently applied positive size.
#[derive(Clone, Copy, PartialEq, Eq, Structural, Debug)]
pub struct SurfaceConfig {
    pub format: TextureFormat,
    pub width: u32,
    pub height: u32,
    pub present_mode: u32,
    pub alpha_mode: u32,
}

impl SurfaceConfig {
    /// Width and height are strictly positive whenever reconfiguration
    /// is attempted.
    pub open spec fn wf(self) -> bool {
        self.width > 0 && self.height > 0
    }
}

/// A linear color with each channel in thousandths of the 0 to 1 range.
#[derive(Clone, Copy, PartialEq, Eq, Structural, Debug)]
pub struct ClearColor {
    pub red_milli: u32,
    pub green_milli: u32,
    pub blue_milli: u32,
    pub alpha_milli: u32,
}

/// The fixed background every frame is cleared to: a dark blue with
/// red 0.100, green 0.200, blue 0.300 and alpha 1.000.
pub open spec fn spec_background() -> ClearColor {
    ClearColor { red_milli: 100, green_milli: 200, blue_milli: 300, alpha_milli: 1000 }
}

/// Returns the fixed background color.
pub fn background() -> (c: ClearColor)
    ensures
        c == spec_background(),
{
    ClearColor { red_milli: 100, green_milli: 200, blue_milli: 300, alpha_milli: 1000 }
}

/// The first sRGB-capable format of the list, if there is one.
pub open spec fn first_srgb(formats: Seq<TextureFormat>) -> Option<TextureFormat>
    decreases formats.len(),
{
    if formats.len() == 0 {
        None
    } else if formats[0].srgb {
        Some(formats[0])
    } else {
        first_srgb(formats.drop_first())
    }
}

/// The format the manager configures the surface with: the first
/// sRGB-capable format of the supported list, falling back to the first
/// supported format when none is sRGB.
pub open spec fn spec_chosen_format(formats: Seq<TextureFormat>) -> TextureFormat
    recommends
        formats.len() > 0,
{
    match first_srgb(formats) {
        Some(f) => f,
        None => formats[0],
    }
}

/// Skipping a prefix without sRGB entries does not change which format
/// is the first sRGB one.
proof fn lemma_first_srgb_skip(formats: Seq<TextureFormat>, i: int)
    requires
        0 <= i <= formats.len(),
        forall|j: int| 0 <= j < i ==> !formats[j].srgb,
    ensures
        first_srgb(formats) == first_srgb(formats.skip(i)),
    decreases i,
{
    if i > 0 {
        lemma_first_srgb_skip(formats.drop_first(), i - 1);
        assert(formats.drop_first().skip(i - 1) =~= formats.skip(i));
    } else {
        assert(formats.skip(0) =~= formats);
    }
}

/// Picks the surface format: the first sRGB-capable entry, else the
/// first entry.
pub fn choose_format(formats: &Vec<TextureFormat>) -> (r: TextureFormat)
    requires
        formats@.len() > 0,
    ensures
        r == spec_chosen_format(formats@),
        (exists|i: int| 0 <= i < formats@.len() && formats@[i].srgb) ==> r.srgb,
        (forall|i: int| 0 <= i < formats@.len() ==> !formats@[i].srgb) ==> r == formats@[0],
{
    let n = formats.len();
    let mut i: usize = 0;
    while i < n
        invariant
            n == formats@.len(),
            0 <= i <= n,
            forall|j: int| 0 <= j < i ==> !formats@[j].srgb,
        decreases n - i,
    {
        if formats[i].srgb {
            proof {
                lemma_first_srgb_skip(formats@, i as int);
                assert(formats@.skip(i as int)[0] == formats@[i as int]);
            }
            return formats[i];
        }
        i += 1;
    }
    proof {
        lemma_first_srgb_skip(formats@, n as int);
        assert(formats@.skip(n as int) =~= Seq::<TextureFormat>::empty());
    }
    formats[0]
}

} // verus!
