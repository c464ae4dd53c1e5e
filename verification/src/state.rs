//! The computed part of the renderer's state.

use crate::surface::build_config;
use crate::surface::Size;
use crate::surface::SurfaceCaps;
use crate::surface::SurfaceConfig;
use vstd::prelude::*;

verus! {

/// What the renderer's state determines by itself: the drawable size and the
/// surface configuration derived from it. The surface, device and queue
/// handles that the graphics backend owns stay with the host, which pairs
/// them with this.
pub struct State {
    pub config: SurfaceConfig,
    pub size: Size,
}

impl State {
    /// The configuration always describes the stored size.
    pub open spec fn wf(&self) -> bool {
        &&& self.config.width == self.size.width
        &&& self.config.height == self.size.height
    }

    /// Sets the renderer up for a surface of the given size, from the
    /// capabilities the backend reports for it.
    pub fn new(size: Size, caps: &SurfaceCaps) -> (s: State)
        requires
            caps.wf(),
        ensures
            s.size == size,
            s.config.is_config_for(size, caps),
            s.wf(),
    {
        State { config: build_config(size, caps), size }
    }
}

} // verus!
