//! Choosing a surface format and building the surface configuration from the
//! capabilities that the graphics backend reports.

use vstd::prelude::*;

verus! {

/// Width and height of the drawable area, in physical pixels.
#[derive(Clone, Copy)]
pub struct Size {
    pub width: u32,
    pub height: u32,
}

/// What the configuration logic reads of the capabilities that the graphics
/// backend reports for a surface: for each supported texture format, in the
/// backend's preference order, whether it is an sRGB format; and how many
/// present modes and alpha modes are supported.
pub struct SurfaceCaps {
    pub format_is_srgb: Vec<bool>,
    pub present_mode_count: usize,
    pub alpha_mode_count: usize,
}

impl SurfaceCaps {
    /// A backend that can drive the surface reports at least one format, one
    /// present mode and one alpha mode.
    pub open spec fn wf(&self) -> bool {
        &&& self.format_is_srgb@.len() > 0
        &&& self.present_mode_count > 0
        &&& self.alpha_mode_count > 0
    }
}

/// `idx` points at the format the clear pass should draw to: the first sRGB
/// format where one is supported, and the first reported format otherwise.
pub open spec fn is_chosen_format(format_is_srgb: Seq<bool>, idx: int) -> bool {
    &&& 0 <= idx < format_is_srgb.len()
    &&& if exists|i: int| 0 <= i < format_is_srgb.len() && format_is_srgb[i] {
            format_is_srgb[idx] && (forall|j: int| 0 <= j < idx ==> !format_is_srgb[j])
        } else {
            idx == 0
        }
}

/// Index of the first sRGB format, or of the first format where none is sRGB.
pub fn select_format_index(format_is_srgb: &Vec<bool>) -> (idx: usize)
    requires
        format_is_srgb@.len() > 0,
    ensures
        is_chosen_format(format_is_srgb@, idx as int),
{
    let n = format_is_srgb.len();
    let mut i: usize = 0;
    while i < n
        invariant
            n == format_is_srgb@.len(),
            i <= n,
            forall|j: int| 0 <= j < i ==> !format_is_srgb@[j],
        decreases n - i,
    {
        if format_is_srgb[i] {
            return i;
        }
        i = i + 1;
    }
    0
}

/// The surface configuration the application renders with. The format and the
/// modes are indices into the backend's capability lists; the host hands the
/// backend the entries they point at.
pub struct SurfaceConfig {
    pub width: u32,
    pub height: u32,
    pub format_index: usize,
    pub present_mode_index: usize,
    pub alpha_mode_index: usize,
    pub desired_maximum_frame_latency: u32,
}

impl SurfaceConfig {
    /// The configuration that `build_config` derives from `size` and `caps`:
    /// the drawable size is kept, the format is the chosen one, the first
    /// reported present and alpha modes are taken, and the maximum frame
    /// latency is two frames.
    pub open spec fn is_config_for(&self, size: Size, caps: &SurfaceCaps) -> bool {
        &&& self.width == size.width
        &&& self.height == size.height
        &&& is_chosen_format(caps.format_is_srgb@, self.format_index as int)
        &&& self.present_mode_index == 0
        &&& self.alpha_mode_index == 0
        &&& self.desired_maximum_frame_latency == 2
    }
}

/// Builds the configuration the surface is set up with before the first frame.
pub fn build_config(size: Size, caps: &SurfaceCaps) -> (c: SurfaceConfig)
    requires
        caps.wf(),
    ensures
        c.is_config_for(size, caps),
{
    SurfaceConfig {
        width: size.width,
        height: size.height,
        format_index: select_format_index(&caps.format_is_srgb),
        present_mode_index: 0,
        alpha_mode_index: 0,
        desired_maximum_frame_latency: 2,
    }
}

} // verus!
