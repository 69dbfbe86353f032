use vstd::prelude::*;

use crate::color::Color;
use crate::command::{DrawCommand, InstanceUpload, RenderPass, ResourceDesc, ResourceId};
use crate::gfx::{Gfx, GfxRenderData, Renderer};
use crate::surface::Size;

verus! {

/// Quads whose instance records fit in the instance buffer of one renderer.
pub const INSTANCE_CAPACITY: usize = 128;

/// Bytes one instance record takes on the GPU: position, size and color as
/// eight 32-bit floats.
pub const INSTANCE_RECORD_BYTES: u64 = 32;

/// Bytes of the instance buffer behind one quad renderer.
pub const INSTANCE_BUFFER_BYTES: u64 = 4096;

/// Indices into the unit quad's vertices that one quad is drawn with.
pub const QUAD_INDEX_COUNT: u32 = 6;

/// An axis-aligned rectangle to draw: `pos` is its top-left corner, in
/// physical pixels from the top-left of the surface. Sizes are not checked:
/// a zero or negative size draws as it comes out (invisible or inverted).
#[derive(Clone, Copy, Debug, PartialEq, Eq)]
pub struct Quad {
    pub pos: [i32; 2],
    pub width: i32,
    pub height: i32,
    pub color: Color,
}

impl Quad {
    pub fn new(x: i32, y: i32, width: i32, height: i32, color: Color) -> (q: Quad)
        ensures
            q.pos[0] == x,
            q.pos[1] == y,
            q.width == width,
            q.height == height,
            q.color == color,
    {
        Quad { pos: [x, y], width, height, color }
    }
}

/// The exact value `num / den`. The denominator is a surface dimension; a
/// zero one stands for the division by zero that a zero-sized surface gives.
#[derive(Clone, Copy, Debug, PartialEq, Eq, Structural)]
pub struct Ratio {
    pub num: i64,
    pub den: u32,
}

/// One quad as the GPU draws it: its top-left corner in normalized device
/// coordinates, its size as a fraction of the surface, and its color.
#[derive(Clone, Copy, Debug, PartialEq, Eq, Structural)]
pub struct InstanceRecord {
    pub ndc_x: Ratio,
    pub ndc_y: Ratio,
    pub scale_x: Ratio,
    pub scale_y: Ratio,
    pub color: Color,
}

/// The instance record of quad `q` on a surface of the given size:
/// `ndc_x = (x / width) * 2 - 1`, `ndc_y = (y / height) * -2 + 1` (pixel rows
/// grow downwards, device coordinates upwards), `scale_x = w / width`,
/// `scale_y = h / height`, each kept as an exact fraction.
pub open spec fn instance_of(q: Quad, size: Size) -> InstanceRecord {
    InstanceRecord {
        ndc_x: Ratio { num: (2 * q.pos[0] - size.width) as i64, den: size.width },
        ndc_y: Ratio { num: (size.height - 2 * q.pos[1]) as i64, den: size.height },
        scale_x: Ratio { num: q.width as i64, den: size.width },
        scale_y: Ratio { num: q.height as i64, den: size.height },
        color: q.color,
    }
}

/// The instance records of a sequence of quads, in the same order.
pub open spec fn instances_of(quads: Seq<Quad>, size: Size) -> Seq<InstanceRecord> {
    quads.map_values(|q: Quad| instance_of(q, size))
}

impl InstanceRecord {
    /// Projects a quad given in pixels onto a surface of the given size.
    pub fn from_quad(q: &Quad, size: Size) -> (r: InstanceRecord)
        ensures
            r == instance_of(*q, size),
            r.ndc_x.num == 2 * q.pos[0] - size.width,
            r.ndc_y.num == size.height - 2 * q.pos[1],
    {
        let x = q.pos[0] as i64;
        let y = q.pos[1] as i64;
        let w = size.width as i64;
        let h = size.height as i64;
        InstanceRecord {
            ndc_x: Ratio { num: 2 * x - w, den: size.width },
            ndc_y: Ratio { num: h - 2 * y, den: size.height },
            scale_x: Ratio { num: q.width as i64, den: size.width },
            scale_y: Ratio { num: q.height as i64, den: size.height },
            color: q.color,
        }
    }
}

/// How many of `n` queued quads fit in the instance buffer and are drawn.
pub open spec fn drawn_count(n: nat) -> nat {
    if n <= INSTANCE_CAPACITY { n } else { INSTANCE_CAPACITY as nat }
}

/// Draws any number of quads with one indexed, instanced draw call per frame.
/// The quads share the unit quad's vertex and index buffers; each frame their
/// instance records are written to an instance buffer of fixed capacity.
/// Quads beyond that capacity are not drawn: `dropped` counts them.
pub struct QuadRenderer {
    vertex_buffer: ResourceId,
    index_buffer: ResourceId,
    instance_buffer: ResourceId,
    pipeline: ResourceId,
    quads: Vec<Quad>,
}

impl QuadRenderer {
    /// The queued quads, in the order they were added.
    pub closed spec fn queued(&self) -> Seq<Quad> {
        self.quads@
    }

    pub closed spec fn vertex_buffer_id(&self) -> ResourceId {
        self.vertex_buffer
    }

    pub closed spec fn index_buffer_id(&self) -> ResourceId {
        self.index_buffer
    }

    pub closed spec fn instance_buffer_id(&self) -> ResourceId {
        self.instance_buffer
    }

    pub closed spec fn pipeline_id(&self) -> ResourceId {
        self.pipeline
    }

    /// How many of the queued quads a frame draws.
    pub open spec fn drawn(&self) -> nat {
        drawn_count(self.queued().len())
    }

    /// A quad renderer with no quads. It asks `gfx` for its unit-quad vertex
    /// and index buffers, its instance buffer and its pipeline, which is laid
    /// out with the context's shared uniform layout.
    pub fn new<R>(gfx: &mut Gfx<R>) -> (q: QuadRenderer)
        ensures
            ({
                let n = old(gfx).render_data().resources@.len();
                &&& final(gfx).render_data().resources@ == old(gfx).render_data().resources@ + seq![
                    ResourceDesc::QuadVertexBuffer,
                    ResourceDesc::QuadIndexBuffer,
                    ResourceDesc::InstanceBuffer { bytes: INSTANCE_BUFFER_BYTES },
                    ResourceDesc::QuadPipeline { layout: old(gfx).render_data().aspect_ratio_bind_group_layout },
                ]
                &&& q.vertex_buffer_id() == n
                &&& q.index_buffer_id() == n + 1
                &&& q.instance_buffer_id() == n + 2
                &&& q.pipeline_id() == n + 3
            }),
            q.queued().len() == 0,
            final(gfx).render_data().same_shared(&old(gfx).render_data()),
            old(gfx).render_data().wf() ==> final(gfx).render_data().wf(),
            final(gfx).renderers() == old(gfx).renderers(),
            final(gfx).frame_phase() == old(gfx).frame_phase(),
    {
        let layout = gfx.data().aspect_ratio_bind_group_layout;
        let vertex_buffer = gfx.create_resource(ResourceDesc::QuadVertexBuffer);
        let index_buffer = gfx.create_resource(ResourceDesc::QuadIndexBuffer);
        let instance_buffer = gfx.create_resource(ResourceDesc::InstanceBuffer { bytes: INSTANCE_BUFFER_BYTES });
        let pipeline = gfx.create_resource(ResourceDesc::QuadPipeline { layout });
        assert(final(gfx).render_data().resources@ =~= old(gfx).render_data().resources@ + seq![
            ResourceDesc::QuadVertexBuffer,
            ResourceDesc::QuadIndexBuffer,
            ResourceDesc::InstanceBuffer { bytes: INSTANCE_BUFFER_BYTES },
            ResourceDesc::QuadPipeline { layout },
        ]);
        QuadRenderer { vertex_buffer, index_buffer, instance_buffer, pipeline, quads: Vec::new() }
    }

    /// Queues a quad after those already queued.
    pub fn add(&mut self, quad: Quad)
        ensures
            final(self).queued() == old(self).queued().push(quad),
            final(self).vertex_buffer_id() == old(self).vertex_buffer_id(),
            final(self).index_buffer_id() == old(self).index_buffer_id(),
            final(self).instance_buffer_id() == old(self).instance_buffer_id(),
            final(self).pipeline_id() == old(self).pipeline_id(),
    {
        self.quads.push(quad);
    }

    /// The instance records of the quads a frame draws on a surface of the
    /// given size: those of the first quads, as many as the buffer holds.
    pub fn instances(&self, size: Size) -> (r: Vec<InstanceRecord>)
        ensures
            r@ == instances_of(self.queued().take(self.drawn() as int), size),
            r@.len() == self.drawn(),
    {
        let n: usize = if self.quads.len() <= INSTANCE_CAPACITY { self.quads.len() } else { INSTANCE_CAPACITY };
        let mut records: Vec<InstanceRecord> = Vec::new();
        let mut i: usize = 0;
        while i < n
            invariant
                n == self.drawn(),
                n <= self.quads@.len(),
                i <= n,
                records@ == instances_of(self.quads@.take(i as int), size),
            decreases n - i,
        {
            let r = InstanceRecord::from_quad(&self.quads[i], size);
            records.push(r);
            assert(instances_of(self.quads@.take(i + 1), size) =~= instances_of(self.quads@.take(i as int), size).push(r));
            i = i + 1;
        }
        records
    }

    /// How many queued quads do not fit in the instance buffer and are left
    /// out of every frame.
    pub fn dropped(&self) -> (n: usize)
        ensures
            n == self.queued().len() - self.drawn(),
    {
        if self.quads.len() <= INSTANCE_CAPACITY { 0 } else { self.quads.len() - INSTANCE_CAPACITY }
    }

    /// The number of queued quads.
    pub fn len(&self) -> (n: usize)
        ensures
            n == self.queued().len(),
    {
        self.quads.len()
    }

    /// The instance buffer this renderer writes each frame.
    pub fn instance_buffer(&self) -> (id: ResourceId)
        ensures
            id == self.instance_buffer_id(),
    {
        self.instance_buffer
    }
}

impl Renderer for QuadRenderer {
    /// Binds the pipeline, the unit quad's vertices (slot 0), the instance
    /// buffer (slot 1), the indices and the shared uniform, then draws every
    /// uploaded instance with one indexed call.
    open spec fn commands(&self, data: &GfxRenderData) -> Seq<DrawCommand> {
        seq![
            DrawCommand::SetPipeline { pipeline: self.pipeline_id() },
            DrawCommand::SetVertexBuffer { slot: 0, buffer: self.vertex_buffer_id() },
            DrawCommand::SetVertexBuffer { slot: 1, buffer: self.instance_buffer_id() },
            DrawCommand::SetIndexBuffer { buffer: self.index_buffer_id() },
            DrawCommand::SetBindGroup { index: 0, bind_group: data.aspect_ratio_bind_group },
            DrawCommand::DrawIndexed { index_count: QUAD_INDEX_COUNT, instance_count: self.drawn() as u32 },
        ]
    }

    /// One upload: the instance records of the drawn quads.
    open spec fn uploads(&self, data: &GfxRenderData) -> Seq<(ResourceId, Seq<InstanceRecord>)> {
        seq![(self.instance_buffer_id(), instances_of(self.queued().take(self.drawn() as int), data.size))]
    }

    fn render(&self, data: &GfxRenderData, pass: &mut RenderPass) {
        let records = self.instances(data.size);
        let count = records.len() as u32;
        pass.upload(InstanceUpload { buffer: self.instance_buffer, records });
        pass.record(DrawCommand::SetPipeline { pipeline: self.pipeline });
        pass.record(DrawCommand::SetVertexBuffer { slot: 0, buffer: self.vertex_buffer });
        pass.record(DrawCommand::SetVertexBuffer { slot: 1, buffer: self.instance_buffer });
        pass.record(DrawCommand::SetIndexBuffer { buffer: self.index_buffer });
        pass.record(DrawCommand::SetBindGroup { index: 0, bind_group: data.aspect_ratio_bind_group });
        pass.record(DrawCommand::DrawIndexed { index_count: QUAD_INDEX_COUNT, instance_count: count });
        assert(final(pass).commands@ =~= old(pass).commands@ + self.commands(data));
        assert(final(pass).upload_view() =~= old(pass).upload_view() + self.uploads(data));
    }
}

/// The instance buffer is never overrun: a frame uploads the records of the
/// first quads, no more than the buffer holds, and draws exactly as many
/// instances as it uploaded; with no more quads queued than the capacity,
/// every quad is uploaded and drawn.
pub proof fn lemma_instance_capacity(r: QuadRenderer, data: GfxRenderData)
    ensures
        r.uploads(&data).len() == 1,
        r.uploads(&data)[0].0 == r.instance_buffer_id(),
        r.uploads(&data)[0].1.len() == r.drawn(),
        r.drawn() <= INSTANCE_CAPACITY,
        r.uploads(&data)[0].1.len() * INSTANCE_RECORD_BYTES <= INSTANCE_BUFFER_BYTES,
        r.commands(&data).last() == (DrawCommand::DrawIndexed {
            index_count: QUAD_INDEX_COUNT,
            instance_count: r.drawn() as u32,
        }),
        r.queued().len() <= INSTANCE_CAPACITY ==> r.drawn() == r.queued().len(),
        r.queued().len() > INSTANCE_CAPACITY ==> r.drawn() == INSTANCE_CAPACITY,
{
}

} // verus!
