//! The surface/device manager model: the fixed render pipeline
//! description, the per-frame render plan, the manager state with its
//! resize rule, adapter selection, and the laws the resize rule obeys.

use vstd::prelude::*;

use crate::events::Event;
use crate::surface::{
    background, choose_format, spec_background, spec_chosen_format, ClearColor, Extent,
    SurfaceCaps, SurfaceConfig, TextureFormat,
};

verus! {

/// The fixed render pipeline, reduced to the fields its descriptor
/// sets: the surface's color format, triangle-list topology,
/// counter-clockwise front face, back-face culling, fill rasterization,
/// no depth/stencil, a single sample, no vertex buffers, and straight
/// replace blending.
#[derive(Clone, Copy, PartialEq, Eq, Structural, Debug)]
pub struct PipelineSpec {
    pub format: TextureFormat,
    pub triangle_list: bool,
    pub front_face_ccw: bool,
    pub cull_back: bool,
    pub fill_mode: bool,
    pub has_depth_stencil: bool,
    pub sample_count: u32,
    pub vertex_buffer_count: u32,
    pub blend_replace: bool,
}

/// The one pipeline the manager ever builds, targeting the given
/// surface format.
pub open spec fn spec_fixed_pipeline(format: TextureFormat) -> PipelineSpec {
    PipelineSpec {
        format,
        triangle_list: true,
        front_face_ccw: true,
        cull_back: true,
        fill_mode: true,
        has_depth_stencil: false,
        sample_count: 1,
        vertex_buffer_count: 0,
        blend_replace: true,
    }
}

/// Builds the fixed pipeline description for a surface format.
pub fn fixed_pipeline(format: TextureFormat) -> (p: PipelineSpec)
    ensures
        p == spec_fixed_pipeline(format),
{
    PipelineSpec {
        format,
        triangle_list: true,
        front_face_ccw: true,
        cull_back: true,
        fill_mode: true,
        has_depth_stencil: false,
        sample_count: 1,
        vertex_buffer_count: 0,
        blend_replace: true,
    }
}

/// What one successful frame does: clear the target to a fixed color,
/// then issue a single draw call, with no vertex or index buffer bound.
#[derive(Clone, Copy, PartialEq, Eq, Structural, Debug)]
pub struct FramePlan {
    pub clear: ClearColor,
    pub vertex_count: u32,
    pub instance_count: u32,
    pub vertex_buffer_bound: bool,
    pub index_buffer_bound: bool,
}

/// Every frame renders the same plan: clear to the fixed background,
/// one draw of exactly 3 vertices and 1 instance, no buffers bound.
pub open spec fn spec_frame_plan() -> FramePlan {
    FramePlan {
        clear: spec_background(),
        vertex_count: 3,
        instance_count: 1,
        vertex_buffer_bound: false,
        index_buffer_bound: false,
    }
}

/// How a frame acquisition can fail, as the controller distinguishes
/// the cases.
#[derive(Clone, Copy, PartialEq, Eq, Structural, Debug)]
pub enum AcquireError {
    /// The surface was lost: reconfigure at the stored size and retry
    /// on the next frame.
    Lost,
    /// The system is out of memory: unrecoverable.
    OutOfMemory,
    /// Any other transient condition (a stale configuration, an
    /// acquisition timeout): log and retry on the next frame.
    Transient,
}

/// The manager's state: the surface configuration, the window's last
/// known physical size, and the fixed pipeline.
#[derive(Clone, Copy, PartialEq, Eq, Structural, Debug)]
pub struct GfxState {
    pub config: SurfaceConfig,
    pub size: Extent,
    pub pipeline: PipelineSpec,
}

impl GfxState {
    /// The manager's invariant: the configuration has positive area and
    /// mirrors the stored size, and the pipeline is the fixed one built
    /// for the configured format.
    pub open spec fn wf(self) -> bool {
        &&& self.config.wf()
        &&& self.config.width == self.size.width
        &&& self.config.height == self.size.height
        &&& self.pipeline == spec_fixed_pipeline(self.config.format)
    }

    /// Initializes the manager from the window's size and the surface's
    /// reported capabilities: the format is the first sRGB-capable one
    /// (else the first supported), the presentation and alpha modes are
    /// the first the surface reports, and the configuration takes the
    /// window's current size.
    pub fn new(size: Extent, caps: &SurfaceCaps) -> (s: Self)
        requires
            size.is_positive(),
            caps.wf(),
        ensures
            s.wf(),
            s.size == size,
            s.config.format == spec_chosen_format(caps.formats@),
            s.config.present_mode == caps.present_modes@[0],
            s.config.alpha_mode == caps.alpha_modes@[0],
    {
        let format = choose_format(&caps.formats);
        let config = SurfaceConfig {
            format,
            width: size.width,
            height: size.height,
            present_mode: caps.present_modes[0],
            alpha_mode: caps.alpha_modes[0],
        };
        GfxState { config, size, pipeline: fixed_pipeline(format) }
    }

    /// What a resize request does to the state: a positive size is
    /// stored and mirrored into the configuration; a zero-area request
    /// leaves the state exactly as it was.
    pub open spec fn spec_resize(self, new_size: Extent) -> Self {
        if new_size.is_positive() {
            GfxState {
                size: new_size,
                config: SurfaceConfig {
                    width: new_size.width,
                    height: new_size.height,
                    ..self.config
                },
                ..self
            }
        } else {
            self
        }
    }

    /// Applies a resize request. Returns whether the surface must be
    /// reconfigured, which is exactly when the request has positive
    /// area; a zero-area request is silently ignored and preserves the
    /// last valid configuration.
    pub fn resize(&mut self, new_size: Extent) -> (reconfigure: bool)
        ensures
            *final(self) == old(self).spec_resize(new_size),
            reconfigure == new_size.is_positive(),
            old(self).wf() ==> final(self).wf(),
            !new_size.is_positive() ==> *final(self) == *old(self),
    {
        if new_size.width > 0 && new_size.height > 0 {
            self.size = new_size;
            self.config.width = new_size.width;
            self.config.height = new_size.height;
            true
        } else {
            false
        }
    }

    /// The input hook: reports whether it consumed the event. It is
    /// reserved for future input-consuming logic and today consumes
    /// nothing and changes nothing.
    pub fn input(&mut self, _event: &Event) -> (consumed: bool)
        ensures
            *final(self) == *old(self),
            !consumed,
    {
        false
    }

    /// The per-frame update hook: reserved for simulation state, and
    /// invariant-preserving; today it mutates nothing.
    pub fn update(&mut self)
        ensures
            *final(self) == *old(self),
    {
    }

    /// The plan a successful render executes. It is the same fixed plan
    /// for every frame, whatever the manager's state: clear to the
    /// fixed background, then one draw of 3 vertices and 1 instance
    /// with no vertex or index buffer bound.
    pub fn frame_plan(&self) -> (p: FramePlan)
        ensures
            p == spec_frame_plan(),
            p.clear == spec_background(),
            p.vertex_count == 3,
            p.instance_count == 1,
            !p.vertex_buffer_bound,
            !p.index_buffer_bound,
    {
        FramePlan {
            clear: background(),
            vertex_count: 3,
            instance_count: 1,
            vertex_buffer_bound: false,
            index_buffer_bound: false,
        }
    }
}

/// Adapter selection: given, in platform order, whether each enumerated
/// adapter supports the surface, picks the first compatible one. There
/// is no scoring beyond first-match.
pub fn select_adapter(support: &Vec<bool>) -> (r: Option<usize>)
    ensures
        match r {
            Some(i) => i < support@.len() && support@[i as int] && forall|j: int|
                0 <= j < i ==> !support@[j],
            None => forall|j: int| 0 <= j < support@.len() ==> !support@[j],
        },
{
    let n = support.len();
    let mut i: usize = 0;
    while i < n
        invariant
            n == support@.len(),
            0 <= i <= n,
            forall|j: int| 0 <= j < i ==> !support@[j],
        decreases n - i,
    {
        if support[i] {
            return Some(i);
        }
        i += 1;
    }
    None
}

/// The state after a whole sequence of resize requests, applied in
/// delivery order.
pub open spec fn apply_resizes(g: GfxState, requests: Seq<Extent>) -> GfxState
    decreases requests.len(),
{
    if requests.len() == 0 {
        g
    } else {
        apply_resizes(g.spec_resize(requests[0]), requests.drop_first())
    }
}

/// The most recent positive-area request of a sequence, if any.
pub open spec fn last_positive(requests: Seq<Extent>) -> Option<Extent>
    decreases requests.len(),
{
    if requests.len() == 0 {
        None
    } else if requests.last().is_positive() {
        Some(requests.last())
    } else {
        last_positive(requests.drop_last())
    }
}

/// Applying one more request after a sequence is the same as resizing
/// the folded state once.
proof fn lemma_apply_resizes_push(g: GfxState, requests: Seq<Extent>, e: Extent)
    ensures
        apply_resizes(g, requests.push(e)) == apply_resizes(g, requests).spec_resize(e),
    decreases requests.len(),
{
    reveal_with_fuel(apply_resizes, 3);
    if requests.len() == 0 {
        assert(requests.push(e)[0] == e);
        assert(requests.push(e).drop_first() =~= Seq::<Extent>::empty());
    } else {
        assert(requests.push(e)[0] == requests[0]);
        assert(requests.push(e).drop_first() =~= requests.drop_first().push(e));
        lemma_apply_resizes_push(g.spec_resize(requests[0]), requests.drop_first(), e);
    }
}

/// Law: after any sequence of resize requests, the stored size and the
/// configuration's width and height equal the most recently applied
/// positive request; a sequence with no positive request leaves the
/// state exactly as it was.
pub proof fn lemma_resize_tracks_last_positive(g: GfxState, requests: Seq<Extent>)
    ensures
        match last_positive(requests) {
            Some(e) => apply_resizes(g, requests).size == e && apply_resizes(g, requests).config.width
                == e.width && apply_resizes(g, requests).config.height == e.height,
            None => apply_resizes(g, requests) == g,
        },
    decreases requests.len(),
{
    if requests.len() > 0 {
        let pre = requests.drop_last();
        let e = requests.last();
        assert(pre.push(e) =~= requests);
        lemma_apply_resizes_push(g, pre, e);
        lemma_resize_tracks_last_positive(g, pre);
    }
}

/// Law: a resize is idempotent; repeating the same request leaves the
/// same state as applying it once.
pub proof fn lemma_resize_idempotent(g: GfxState, e: Extent)
    ensures
        g.spec_resize(e).spec_resize(e) == g.spec_resize(e),
{
}

/// Law: a resize preserves the manager's invariant.
pub proof fn lemma_resize_preserves_wf(g: GfxState, e: Extent)
    requires
        g.wf(),
    ensures
        g.spec_resize(e).wf(),
{
}

} // verus!
