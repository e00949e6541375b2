use vstd::prelude::*;

verus! {

/// An image on the device: a texture with a view to render into and a
/// binding set to sample it through.
#[derive(Clone, Copy, PartialEq, Eq, Structural, Debug)]
pub struct ImageId(pub u32);

/// A buffer on the device: uniform storage, vertices or indices.
#[derive(Clone, Copy, PartialEq, Eq, Structural, Debug)]
pub struct BufferId(pub u32);

/// A compiled render pipeline on the device.
#[derive(Clone, Copy, PartialEq, Eq, Structural, Debug)]
pub struct PipelineId(pub u32);

/// Where a render pass writes.
#[derive(Clone, Copy, PartialEq, Eq, Structural, Debug)]
pub enum Target {
    Image(ImageId),
    /// The surface that is presented at the end of the frame.
    Present,
}

/// A binding set handed to a shader.
#[derive(Clone, Copy, PartialEq, Eq, Structural, Debug)]
pub enum Resource {
    /// The image, sampled.
    Image(ImageId),
    /// The whole of a uniform buffer.
    Uniform(BufferId),
}

/// One color output of a render pass.
#[derive(Clone, Copy, PartialEq, Eq, Structural, Debug)]
pub struct ColorAttachment {
    pub target: Target,
    /// Whether the pass clears the target before drawing, or loads it.
    pub clear: bool,
}

/// One step of recorded work, replayed in order by the host.
#[derive(Debug)]
pub enum Command {
    BeginPass { attachments: Vec<ColorAttachment> },
    SetPipeline { pipeline: PipelineId },
    /// Binds `group` at `slot`, with the dynamic offsets of its buffers.
    SetBindGroup { slot: u32, group: Resource, offsets: Vec<u32> },
    SetVertexBuffer { slot: u32, buffer: BufferId },
    SetIndexBuffer { buffer: BufferId },
    Draw { vertices: (u32, u32), instances: (u32, u32) },
    DrawIndexed { indices: (u32, u32), base_vertex: i32, instances: (u32, u32) },
    EndPass,
    /// Copies the whole of one image onto another, outside any pass.
    CopyImage { src: ImageId, dst: ImageId },
    /// Writes bytes at the start of a buffer.
    WriteBuffer { buffer: BufferId, bytes: Vec<u8> },
}

/// A command as a mathematical value.
pub enum CommandView {
    BeginPass { attachments: Seq<ColorAttachment> },
    SetPipeline { pipeline: PipelineId },
    SetBindGroup { slot: u32, group: Resource, offsets: Seq<u32> },
    SetVertexBuffer { slot: u32, buffer: BufferId },
    SetIndexBuffer { buffer: BufferId },
    Draw { vertices: (u32, u32), instances: (u32, u32) },
    DrawIndexed { indices: (u32, u32), base_vertex: i32, instances: (u32, u32) },
    EndPass,
    CopyImage { src: ImageId, dst: ImageId },
    WriteBuffer { buffer: BufferId, bytes: Seq<u8> },
}

impl View for Command {
    type V = CommandView;

    open spec fn view(&self) -> CommandView {
        match self {
            Command::BeginPass { attachments } => CommandView::BeginPass {
                attachments: attachments@,
            },
            Command::SetPipeline { pipeline } => CommandView::SetPipeline { pipeline: *pipeline },
            Command::SetBindGroup { slot, group, offsets } => CommandView::SetBindGroup {
                slot: *slot,
                group: *group,
                offsets: offsets@,
            },
            Command::SetVertexBuffer { slot, buffer } => CommandView::SetVertexBuffer {
                slot: *slot,
                buffer: *buffer,
            },
            Command::SetIndexBuffer { buffer } => CommandView::SetIndexBuffer { buffer: *buffer },
            Command::Draw { vertices, instances } => CommandView::Draw {
                vertices: *vertices,
                instances: *instances,
            },
            Command::DrawIndexed { indices, base_vertex, instances } => CommandView::DrawIndexed {
                indices: *indices,
                base_vertex: *base_vertex,
                instances: *instances,
            },
            Command::EndPass => CommandView::EndPass,
            Command::CopyImage { src, dst } => CommandView::CopyImage { src: *src, dst: *dst },
            Command::WriteBuffer { buffer, bytes } => CommandView::WriteBuffer {
                buffer: *buffer,
                bytes: bytes@,
            },
        }
    }
}

/// The commands of a frame, in the order they were recorded.
pub struct CommandList {
    commands: Vec<Command>,
}

impl View for CommandList {
    type V = Seq<CommandView>;

    closed spec fn view(&self) -> Seq<CommandView> {
        self.commands@.map_values(|c: Command| c@)
    }
}

impl CommandList {
    pub fn new() -> (r: CommandList)
        ensures
            r@ == Seq::<CommandView>::empty(),
    {
        let r = CommandList { commands: Vec::new() };
        assert(r@ =~= Seq::<CommandView>::empty());
        r
    }

    pub fn len(&self) -> (r: usize)
        ensures
            r == self@.len(),
    {
        self.commands.len()
    }

    /// Appends one command.
    pub fn record(&mut self, c: Command)
        ensures
            final(self)@ == old(self)@.push(c@),
    {
        self.commands.push(c);
        assert(self@ =~= old(self)@.push(c@));
    }

    /// The recorded commands, to be replayed.
    pub fn commands(&self) -> (r: &Vec<Command>)
        ensures
            r@.map_values(|c: Command| c@) == self@,
    {
        &self.commands
    }
}

} // verus!
