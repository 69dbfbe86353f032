use vstd::prelude::*;

use crate::color::Color;
use crate::quad::InstanceRecord;

verus! {

/// Names a GPU resource: its position in the context's resource list.
pub type ResourceId = usize;

/// A GPU resource that a renderer module or the context asks to be created.
/// The backend creates them in list order, once, before the first frame.
#[derive(Clone, Copy, Debug, PartialEq, Eq, Structural)]
pub enum ResourceDesc {
    /// The shared uniform that carries the drawable size, with its first value.
    ViewportUniform { width: u32, height: u32 },
    /// The binding layout of the shared uniform, visible to vertex shaders.
    ViewportLayout,
    /// The bind group that binds the shared uniform buffer under its layout.
    ViewportBindGroup { layout: ResourceId, buffer: ResourceId },
    /// The four corners of the unit quad, as a vertex buffer.
    QuadVertexBuffer,
    /// The six indices of the unit quad's two triangles, as an index buffer.
    QuadIndexBuffer,
    /// A buffer of per-instance records, `bytes` long, written every frame.
    InstanceBuffer { bytes: u64 },
    /// The quad pipeline, laid out with the shared uniform's layout.
    QuadPipeline { layout: ResourceId },
}

/// One command recorded into a render pass.
#[derive(Clone, Copy, Debug, PartialEq, Eq, Structural)]
pub enum DrawCommand {
    SetPipeline { pipeline: ResourceId },
    /// Binds a vertex buffer to a slot; slot 0 steps per vertex, slot 1 per instance.
    SetVertexBuffer { slot: u32, buffer: ResourceId },
    /// Binds an index buffer of 16-bit indices.
    SetIndexBuffer { buffer: ResourceId },
    SetBindGroup { index: u32, bind_group: ResourceId },
    /// Draws indices `0..index_count` of instances `0..instance_count`.
    DrawIndexed { index_count: u32, instance_count: u32 },
}

/// Instance records to write at the start of an instance buffer before the
/// frame's commands are submitted.
#[derive(Debug)]
pub struct InstanceUpload {
    pub buffer: ResourceId,
    pub records: Vec<InstanceRecord>,
}

impl View for InstanceUpload {
    type V = (ResourceId, Seq<InstanceRecord>);

    open spec fn view(&self) -> (ResourceId, Seq<InstanceRecord>) {
        (self.buffer, self.records@)
    }
}

/// The one render pass of a frame: the target is cleared to `clear`, the
/// uploads are written, then the commands run in order.
#[derive(Debug)]
pub struct RenderPass {
    pub clear: Color,
    pub uploads: Vec<InstanceUpload>,
    pub commands: Vec<DrawCommand>,
}

impl RenderPass {
    /// The uploads, each as its buffer and its records.
    pub open spec fn upload_view(&self) -> Seq<(ResourceId, Seq<InstanceRecord>)> {
        self.uploads@.map_values(|u: InstanceUpload| u@)
    }

    /// An empty pass that clears its target to `clear`.
    pub fn new(clear: Color) -> (p: RenderPass)
        ensures
            p.clear == clear,
            p.uploads@.len() == 0,
            p.commands@.len() == 0,
    {
        RenderPass { clear, uploads: Vec::new(), commands: Vec::new() }
    }

    /// Records one command after those already recorded.
    pub fn record(&mut self, c: DrawCommand)
        ensures
            final(self).clear == old(self).clear,
            final(self).upload_view() == old(self).upload_view(),
            final(self).commands@ == old(self).commands@.push(c),
    {
        self.commands.push(c);
    }

    /// Adds one upload after those already added.
    pub fn upload(&mut self, u: InstanceUpload)
        ensures
            final(self).clear == old(self).clear,
            final(self).upload_view() == old(self).upload_view().push(u@),
            final(self).commands@ == old(self).commands@,
    {
        self.uploads.push(u);
        assert(final(self).upload_view() =~= old(self).upload_view().push(u@));
    }
}

} // verus!
