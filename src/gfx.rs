use vstd::prelude::*;

use crate::color::Color;
use crate::command::{DrawCommand, RenderPass, ResourceDesc, ResourceId};
use crate::frame::{frame_step, transition, FrameAction, FrameEvent, FramePhase};
use crate::quad::InstanceRecord;
use crate::surface::{config_for, Size, SurfaceConfig};

verus! {

/// A renderer module: it owns GPU resources made at its construction and,
/// once per frame, records its draw commands into the frame's pass.
pub trait Renderer {
    /// The commands the module records for a frame drawn with `data`.
    spec fn commands(&self, data: &GfxRenderData) -> Seq<DrawCommand>;

    /// The instance uploads the module adds for a frame drawn with `data`.
    spec fn uploads(&self, data: &GfxRenderData) -> Seq<(ResourceId, Seq<InstanceRecord>)>;

    /// Records this module's part of the frame after what `pass` already holds.
    fn render(&self, data: &GfxRenderData, pass: &mut RenderPass)
        ensures
            final(pass).clear == old(pass).clear,
            final(pass).commands@ == old(pass).commands@ + self.commands(data),
            final(pass).upload_view() == old(pass).upload_view() + self.uploads(data),
    ;
}

/// The state shared by every renderer module: the drawable size, the value of
/// the shared viewport uniform, the handles of that uniform, and the list of
/// GPU resources asked for so far.
#[derive(Debug)]
pub struct GfxRenderData {
    pub size: Size,
    /// What the shared uniform buffer holds: the drawable size it was last written with.
    pub viewport: Size,
    pub aspect_ratio_buffer: ResourceId,
    pub aspect_ratio_bind_group: ResourceId,
    pub aspect_ratio_bind_group_layout: ResourceId,
    pub resources: Vec<ResourceDesc>,
}

impl GfxRenderData {
    /// The shared uniform reflects the drawable size, and the handles of the
    /// shared uniform name resources of the right kind.
    pub open spec fn wf(&self) -> bool {
        let rs = self.resources@;
        &&& self.viewport == self.size
        &&& self.aspect_ratio_buffer < rs.len()
        &&& rs[self.aspect_ratio_buffer as int] is ViewportUniform
        &&& self.aspect_ratio_bind_group_layout < rs.len()
        &&& rs[self.aspect_ratio_bind_group_layout as int] is ViewportLayout
        &&& self.aspect_ratio_bind_group < rs.len()
        &&& rs[self.aspect_ratio_bind_group as int] == (ResourceDesc::ViewportBindGroup {
            layout: self.aspect_ratio_bind_group_layout,
            buffer: self.aspect_ratio_buffer,
        })
    }

    /// Everything but the resource list is the same in `self` and `other`.
    pub open spec fn same_shared(&self, other: &GfxRenderData) -> bool {
        &&& self.size == other.size
        &&& self.viewport == other.viewport
        &&& self.aspect_ratio_buffer == other.aspect_ratio_buffer
        &&& self.aspect_ratio_bind_group == other.aspect_ratio_bind_group
        &&& self.aspect_ratio_bind_group_layout == other.aspect_ratio_bind_group_layout
    }
}

/// `data` after the surface was resized to `size`.
pub open spec fn resized(data: GfxRenderData, size: Size) -> GfxRenderData {
    GfxRenderData {
        size,
        viewport: size,
        aspect_ratio_buffer: data.aspect_ratio_buffer,
        aspect_ratio_bind_group: data.aspect_ratio_bind_group,
        aspect_ratio_bind_group_layout: data.aspect_ratio_bind_group_layout,
        resources: data.resources,
    }
}

/// What the backend does after a resize: configure the surface as `config`,
/// and write `viewport` into the shared uniform buffer `uniform_buffer`.
#[derive(Clone, Copy, Debug, PartialEq, Eq, Structural)]
pub struct SurfaceUpdate {
    pub config: SurfaceConfig,
    pub uniform_buffer: ResourceId,
    pub viewport: Size,
}

/// The commands recorded by the first `rs.len()` modules, in registration order.
pub open spec fn recorded_commands<R: Renderer>(rs: Seq<R>, data: &GfxRenderData) -> Seq<DrawCommand>
    decreases rs.len(),
{
    if rs.len() == 0 {
        Seq::empty()
    } else {
        recorded_commands(rs.drop_last(), data) + rs.last().commands(data)
    }
}

/// The uploads added by the modules `rs`, in registration order.
pub open spec fn recorded_uploads<R: Renderer>(rs: Seq<R>, data: &GfxRenderData) -> Seq<(ResourceId, Seq<InstanceRecord>)>
    decreases rs.len(),
{
    if rs.len() == 0 {
        Seq::empty()
    } else {
        recorded_uploads(rs.drop_last(), data) + rs.last().uploads(data)
    }
}

/// The graphics context: the shared frame state, the renderer modules in
/// registration (and draw) order, and the frame driver's phase.
pub struct Gfx<R> {
    data: GfxRenderData,
    renderers: Vec<R>,
    phase: FramePhase,
}

impl<R> Gfx<R> {
    /// The shared frame state.
    pub closed spec fn render_data(&self) -> GfxRenderData {
        self.data
    }

    /// The registered modules, in registration order.
    pub closed spec fn renderers(&self) -> Seq<R> {
        self.renderers@
    }

    /// The frame driver's phase.
    pub closed spec fn frame_phase(&self) -> FramePhase {
        self.phase
    }

    /// A context for a surface of the given size, with no modules yet. It asks
    /// for the shared viewport uniform, holding `size`, its layout and its
    /// bind group.
    pub fn new(size: Size) -> (g: Gfx<R>)
        ensures
            g.render_data().wf(),
            g.render_data().size == size,
            g.render_data().resources@ == seq![
                ResourceDesc::ViewportUniform { width: size.width, height: size.height },
                ResourceDesc::ViewportLayout,
                ResourceDesc::ViewportBindGroup { layout: 1, buffer: 0 },
            ],
            g.render_data().aspect_ratio_buffer == 0,
            g.render_data().aspect_ratio_bind_group_layout == 1,
            g.render_data().aspect_ratio_bind_group == 2,
            g.renderers().len() == 0,
            g.frame_phase() == FramePhase::Idle,
    {
        let mut resources: Vec<ResourceDesc> = Vec::new();
        resources.push(ResourceDesc::ViewportUniform { width: size.width, height: size.height });
        resources.push(ResourceDesc::ViewportLayout);
        resources.push(ResourceDesc::ViewportBindGroup { layout: 1, buffer: 0 });
        let data = GfxRenderData {
            size,
            viewport: size,
            aspect_ratio_buffer: 0,
            aspect_ratio_bind_group: 2,
            aspect_ratio_bind_group_layout: 1,
            resources,
        };
        assert(data.resources@ =~= seq![
            ResourceDesc::ViewportUniform { width: size.width, height: size.height },
            ResourceDesc::ViewportLayout,
            ResourceDesc::ViewportBindGroup { layout: 1, buffer: 0 },
        ]);
        Gfx { data, renderers: Vec::new(), phase: FramePhase::Idle }
    }

    /// Asks for a GPU resource; the result names it.
    pub fn create_resource(&mut self, desc: ResourceDesc) -> (id: ResourceId)
        ensures
            id == old(self).render_data().resources@.len(),
            final(self).render_data().resources@ == old(self).render_data().resources@.push(desc),
            final(self).render_data().same_shared(&old(self).render_data()),
            old(self).render_data().wf() ==> final(self).render_data().wf(),
            final(self).renderers() == old(self).renderers(),
            final(self).frame_phase() == old(self).frame_phase(),
    {
        let id = self.data.resources.len();
        self.data.resources.push(desc);
        id
    }

    /// Appends a module to the draw list and returns its registration index.
    pub fn add_renderer(&mut self, renderer: R) -> (index: usize)
        ensures
            index == old(self).renderers().len(),
            final(self).renderers() == old(self).renderers().push(renderer),
            final(self).render_data() == old(self).render_data(),
            final(self).frame_phase() == old(self).frame_phase(),
    {
        self.renderers.push(renderer);
        self.renderers.len() - 1
    }

    /// The shared frame state.
    pub fn data(&self) -> (d: &GfxRenderData)
        ensures
            *d == self.render_data(),
    {
        &self.data
    }

    /// The number of registered modules.
    pub fn renderer_count(&self) -> (n: usize)
        ensures
            n == self.renderers().len(),
    {
        self.renderers.len()
    }

    /// The frame driver's phase.
    pub fn phase(&self) -> (p: FramePhase)
        ensures
            p == self.frame_phase(),
    {
        self.phase
    }

    /// How the surface is to be configured for the current drawable size.
    pub fn surface_config(&self) -> (c: SurfaceConfig)
        ensures
            c == config_for(self.render_data().size),
    {
        SurfaceConfig::for_size(self.data.size)
    }

    /// Takes the new drawable size, and rewrites the shared uniform with it.
    /// The result says how to reconfigure the surface and what to write
    /// into the uniform buffer.
    pub fn resize(&mut self, size: Size) -> (u: SurfaceUpdate)
        ensures
            final(self).render_data() == resized(old(self).render_data(), size),
            old(self).render_data().wf() ==> final(self).render_data().wf(),
            final(self).renderers() == old(self).renderers(),
            final(self).frame_phase() == old(self).frame_phase(),
            u == (SurfaceUpdate {
                config: config_for(size),
                uniform_buffer: old(self).render_data().aspect_ratio_buffer,
                viewport: size,
            }),
    {
        self.data.size = size;
        self.data.viewport = size;
        SurfaceUpdate {
            config: SurfaceConfig::for_size(size),
            uniform_buffer: self.data.aspect_ratio_buffer,
            viewport: size,
        }
    }

    /// Feeds one event to the frame driver and returns what to do next.
    pub fn advance(&mut self, event: FrameEvent) -> (a: FrameAction)
        ensures
            (final(self).frame_phase(), a) == transition(old(self).frame_phase(), event, old(self).render_data().size),
            final(self).render_data() == old(self).render_data(),
            final(self).renderers() == old(self).renderers(),
    {
        let (phase, action) = frame_step(self.phase, event, self.data.size);
        self.phase = phase;
        action
    }
}

impl<R: Renderer> Gfx<R> {
    /// Records the frame: one pass that clears to opaque black, into which
    /// every registered module records its part, in registration order.
    pub fn draw(&self) -> (pass: RenderPass)
        ensures
            pass.clear == Color::black_spec(),
            pass.commands@ == recorded_commands(self.renderers(), &self.render_data()),
            pass.upload_view() == recorded_uploads(self.renderers(), &self.render_data()),
    {
        let mut pass = RenderPass::new(Color::black());
        assert(pass.upload_view() =~= Seq::empty());
        let mut i: usize = 0;
        while i < self.renderers.len()
            invariant
                i <= self.renderers@.len(),
                pass.clear == Color::black_spec(),
                pass.commands@ == recorded_commands(self.renderers@.take(i as int), &self.data),
                pass.upload_view() == recorded_uploads(self.renderers@.take(i as int), &self.data),
            decreases self.renderers@.len() - i,
        {
            self.renderers[i].render(&self.data, &mut pass);
            proof {
                let next = self.renderers@.take(i + 1);
                assert(next.drop_last() =~= self.renderers@.take(i as int));
                assert(next.last() == self.renderers@[i as int]);
            }
            i = i + 1;
        }
        assert(self.renderers@.take(i as int) =~= self.renderers@);
        pass
    }
}

/// Modules draw in the order they were registered: after registering `a` and
/// then `b`, a frame holds what the earlier modules record, then what `a`
/// records, then what `b` records; likewise for their uploads. Registration
/// order is all that decides it, so it is the same in every frame.
pub proof fn lemma_draw_order<R: Renderer>(g: Gfx<R>, a: R, b: R)
    ensures
        recorded_commands(g.renderers().push(a).push(b), &g.render_data())
            == recorded_commands(g.renderers(), &g.render_data()) + a.commands(&g.render_data()) + b.commands(&g.render_data()),
        recorded_uploads(g.renderers().push(a).push(b), &g.render_data())
            == recorded_uploads(g.renderers(), &g.render_data()) + a.uploads(&g.render_data()) + b.uploads(&g.render_data()),
{
    let rs = g.renderers();
    let d = g.render_data();
    assert(rs.push(a).push(b).drop_last() =~= rs.push(a));
    assert(rs.push(a).drop_last() =~= rs);
    assert(recorded_commands(rs.push(a), &d) == recorded_commands(rs, &d) + a.commands(&d));
    assert(recorded_uploads(rs.push(a), &d) == recorded_uploads(rs, &d) + a.uploads(&d));
}

/// Resizing twice to the same size leaves the drawable size and the shared
/// uniform exactly as the first resize left them.
pub proof fn lemma_resize_idempotent(data: GfxRenderData, size: Size)
    ensures
        resized(resized(data, size), size) == resized(data, size),
        resized(data, size).viewport == size,
        resized(data, size).size == size,
{
}

} // verus!
