//! The render pipeline as this library models it: an immutable record of the
//! fixed-function choices and of the colour-output format, which must always
//! match the surface configuration's format.

use vstd::prelude::*;

verus! {

/// The fixed-function and output choices a pipeline is compiled with.
#[derive(Clone, Copy, Debug, PartialEq, Eq, Structural)]
pub struct PipelineDesc {
    /// Token of the colour-output format; must equal the surface's format.
    pub target_format: u32,
    /// Each three vertices form one triangle.
    pub triangle_list: bool,
    /// Counter-clockwise winding marks a front face.
    pub front_face_ccw: bool,
    /// Back faces are culled.
    pub cull_back_faces: bool,
    /// Blending replaces old pixel data with new data.
    pub blend_replace: bool,
    /// Samples per pixel; no multisampling.
    pub sample_count: u32,
}

impl PipelineDesc {
    /// The fixed-function configuration this renderer always compiles:
    /// triangle-list topology, counter-clockwise front faces, back-face
    /// culling, replace blending, a single sample.
    pub open spec fn fixed_function_ok(self) -> bool {
        &&& self.triangle_list
        &&& self.front_face_ccw
        &&& self.cull_back_faces
        &&& self.blend_replace
        &&& self.sample_count == 1
    }

    /// The pipeline description for a surface of the given format.
    pub fn for_format(format: u32) -> (p: PipelineDesc)
        ensures
            p.target_format == format,
            p.fixed_function_ok(),
    {
        PipelineDesc {
            target_format: format,
            triangle_list: true,
            front_face_ccw: true,
            cull_back_faces: true,
            blend_replace: true,
            sample_count: 1,
        }
    }
}

/// How a GPU adapter is requested at startup: prefer a high-performance
/// device, require compatibility with the presentation surface, and never
/// fall back to a software adapter.
#[derive(Clone, Copy, Debug, PartialEq, Eq, Structural)]
pub struct AdapterPrefs {
    /// Prefer high power consumption over low-power integrated devices.
    pub high_performance: bool,
    /// Only accept an adapter that can present to the window's surface.
    pub require_surface_compatible: bool,
    /// Whether a software fallback adapter may be chosen.
    pub allow_fallback: bool,
}

/// The adapter preferences this renderer always starts with.
pub fn adapter_prefs() -> (a: AdapterPrefs)
    ensures
        a.high_performance,
        a.require_surface_compatible,
        !a.allow_fallback,
{
    AdapterPrefs { high_performance: true, require_surface_compatible: true, allow_fallback: false }
}

} // verus!
