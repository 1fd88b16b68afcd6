//! The pipeline object of a pass and the command list it draws into.

use crate::mesh::{BufferId, Slice};
use crate::tex::{Sampler, TextureView};
use crate::vertex::Attribute;
use vstd::prelude::*;

verus! {

/// A compiled shader program, named by the host.
#[derive(Clone, Copy, Debug, PartialEq, Eq, Structural)]
pub struct ProgramId(pub u64);

/// Why the GPU refused to make something.
#[derive(Clone, Copy, Debug, PartialEq, Eq, Structural)]
pub enum GpuError {
    /// A buffer could not be allocated.
    BufferCreation,
    /// The shaders did not compile or link.
    ProgramCreation,
}

/// How an output uses the depth buffer.
#[derive(Clone, Copy, Debug, PartialEq, Eq, Structural)]
pub enum DepthMode {
    /// Test against the depth buffer, leave it unchanged.
    LessEqualTest,
    /// Test against the depth buffer and write to it.
    LessEqualWrite,
}

/// A vertex buffer slot: the attributes read from it, the distance in bytes
/// between two vertices, and the instance rate.
#[derive(Clone, Debug, PartialEq, Eq)]
pub struct VertexBufferSlot {
    pub attributes: Vec<Attribute>,
    pub stride: u8,
    pub rate: u8,
}

/// A named uniform block slot: the size of one block in bytes and how many
/// blocks the buffer holds.
#[derive(Clone, Debug, PartialEq, Eq)]
pub struct ConstantBufferSlot {
    pub name: &'static str,
    pub size: usize,
    pub count: usize,
}

/// A named output slot, with its use of the depth buffer if it has one.
#[derive(Clone, Debug, PartialEq, Eq)]
pub struct OutputSlot {
    pub name: &'static str,
    pub depth: Option<DepthMode>,
}

/// The slots a pipeline declares, as mathematical values.
pub struct Layout {
    pub vertex_bufs: Seq<(Seq<Attribute>, u8, u8)>,
    pub const_bufs: Seq<(Seq<char>, usize, usize)>,
    pub textures: Seq<Seq<char>>,
    pub outputs: Seq<(Seq<char>, Option<DepthMode>)>,
}

/// Collects the slots of a pipeline before the GPU builds it.
#[derive(Clone, Debug, PartialEq, Eq)]
pub struct EffectBuilder {
    pub vertex_bufs: Vec<VertexBufferSlot>,
    pub const_bufs: Vec<ConstantBufferSlot>,
    pub textures: Vec<&'static str>,
    pub outputs: Vec<OutputSlot>,
}

impl View for EffectBuilder {
    type V = Layout;

    open spec fn view(&self) -> Layout {
        Layout {
            vertex_bufs: Seq::new(
                self.vertex_bufs@.len(),
                |i: int|
                    (
                        self.vertex_bufs@[i].attributes@,
                        self.vertex_bufs@[i].stride,
                        self.vertex_bufs@[i].rate,
                    ),
            ),
            const_bufs: Seq::new(
                self.const_bufs@.len(),
                |i: int|
                    (self.const_bufs@[i].name@, self.const_bufs@[i].size, self.const_bufs@[i].count),
            ),
            textures: Seq::new(self.textures@.len(), |i: int| self.textures@[i]@),
            outputs: Seq::new(
                self.outputs@.len(),
                |i: int| (self.outputs@[i].name@, self.outputs@[i].depth),
            ),
        }
    }
}

/// The attachments of one draw. They are pushed for a draw and cleared after
/// it, so that nothing bound for one draw leaks into the next.
#[derive(Clone, Debug, PartialEq, Eq)]
pub struct EffectData {
    pub vertex_bufs: Vec<BufferId>,
    pub textures: Vec<TextureView>,
    pub samplers: Vec<Sampler>,
}

/// The attachments of one draw, as mathematical values.
pub struct Attachments {
    pub vertex_bufs: Seq<BufferId>,
    pub textures: Seq<TextureView>,
    pub samplers: Seq<Sampler>,
}

impl Attachments {
    /// Nothing bound.
    pub open spec fn none() -> Attachments {
        Attachments { vertex_bufs: Seq::empty(), textures: Seq::empty(), samplers: Seq::empty() }
    }
}

impl View for EffectData {
    type V = Attachments;

    open spec fn view(&self) -> Attachments {
        Attachments {
            vertex_bufs: self.vertex_bufs@,
            textures: self.textures@,
            samplers: self.samplers@,
        }
    }
}

impl EffectData {
    /// No attachment is bound.
    pub open spec fn is_clear(&self) -> bool {
        self@ == Attachments::none()
    }
}

/// A compiled pipeline: the program, the slots it declares and the
/// attachments of the draw under way.
#[derive(Clone, Debug, PartialEq, Eq)]
pub struct Effect {
    pub program: ProgramId,
    pub layout: EffectBuilder,
    pub data: EffectData,
}

/// One command for the GPU, as a mathematical value.
pub enum CommandView {
    UpdateConstantBuffer { name: Seq<char>, words: Seq<u32> },
    Draw {
        program: ProgramId,
        slice: Slice,
        vertex_bufs: Seq<BufferId>,
        textures: Seq<TextureView>,
        samplers: Seq<Sampler>,
    },
}

/// One command for the GPU.
#[derive(Clone, Debug, PartialEq, Eq)]
pub enum Command {
    /// Upload `words` to the uniform block slot called `name`.
    UpdateConstantBuffer { name: &'static str, words: Vec<u32> },
    /// Draw `slice` with `program` and the attachments listed.
    Draw {
        program: ProgramId,
        slice: Slice,
        vertex_bufs: Vec<BufferId>,
        textures: Vec<TextureView>,
        samplers: Vec<Sampler>,
    },
}

impl View for Command {
    type V = CommandView;

    open spec fn view(&self) -> CommandView {
        match self {
            Command::UpdateConstantBuffer { name, words } => CommandView::UpdateConstantBuffer {
                name: name@,
                words: words@,
            },
            Command::Draw {
                program,
                slice,
                vertex_bufs,
                textures,
                samplers,
            } => CommandView::Draw {
                program: *program,
                slice: *slice,
                vertex_bufs: vertex_bufs@,
                textures: textures@,
                samplers: samplers@,
            },
        }
    }
}

/// The commands recorded for the GPU, oldest first. The host replays them.
#[derive(Clone, Debug, PartialEq, Eq)]
pub struct Encoder {
    pub commands: Vec<Command>,
}

impl View for Encoder {
    type V = Seq<CommandView>;

    open spec fn view(&self) -> Seq<CommandView> {
        Seq::new(self.commands@.len(), |i: int| self.commands@[i]@)
    }
}

impl Encoder {
    /// An encoder with nothing recorded.
    pub fn new() -> (r: Encoder)
        ensures
            r@ == Seq::<CommandView>::empty(),
    {
        let r = Encoder { commands: Vec::new() };
        assert(r@ =~= Seq::<CommandView>::empty());
        r
    }

    /// Records one more command.
    pub fn push(&mut self, command: Command)
        ensures
            final(self)@ == old(self)@.push(command@),
    {
        self.commands.push(command);
        assert(self@ =~= old(self)@.push(command@));
    }
}

/// Copies a list of plain values.
fn copy_list<T: Copy>(list: &Vec<T>) -> (r: Vec<T>)
    ensures
        r@ == list@,
{
    let mut r: Vec<T> = Vec::new();
    let mut i: usize = 0;
    while i < list.len()
        invariant
            i <= list@.len(),
            r@ == list@.take(i as int),
        decreases list@.len() - i,
    {
        r.push(list[i]);
        assert(list@.take(i + 1) == list@.take(i as int).push(list@[i as int]));
        i += 1;
    }
    assert(list@.take(list@.len() as int) == list@);
    r
}

impl EffectBuilder {
    /// A pipeline with no slot.
    pub fn new() -> (r: EffectBuilder)
        ensures
            r@.vertex_bufs == Seq::<(Seq<Attribute>, u8, u8)>::empty(),
            r@.const_bufs == Seq::<(Seq<char>, usize, usize)>::empty(),
            r@.textures == Seq::<Seq<char>>::empty(),
            r@.outputs == Seq::<(Seq<char>, Option<DepthMode>)>::empty(),
    {
        EffectBuilder {
            vertex_bufs: Vec::new(),
            const_bufs: Vec::new(),
            textures: Vec::new(),
            outputs: Vec::new(),
        }
    }

    /// Adds a vertex buffer slot.
    pub fn with_raw_vertex_buffer(self, attributes: Vec<Attribute>, stride: u8, rate: u8) -> (r:
        EffectBuilder)
        ensures
            r@.vertex_bufs == self@.vertex_bufs.push((attributes@, stride, rate)),
            r@.const_bufs == self@.const_bufs,
            r@.textures == self@.textures,
            r@.outputs == self@.outputs,
    {
        let mut r = self;
        r.vertex_bufs.push(VertexBufferSlot { attributes, stride, rate });
        r
    }

    /// Adds a uniform block slot of `count` blocks of `size` bytes.
    pub fn with_raw_constant_buffer(self, name: &'static str, size: usize, count: usize) -> (r:
        EffectBuilder)
        ensures
            r@.vertex_bufs == self@.vertex_bufs,
            r@.const_bufs == self@.const_bufs.push((name@, size, count)),
            r@.textures == self@.textures,
            r@.outputs == self@.outputs,
    {
        let mut r = self;
        r.const_bufs.push(ConstantBufferSlot { name, size, count });
        r
    }

    /// Adds a texture slot, and with it a sampler slot of the same name.
    pub fn with_texture(self, name: &'static str) -> (r: EffectBuilder)
        ensures
            r@.vertex_bufs == self@.vertex_bufs,
            r@.const_bufs == self@.const_bufs,
            r@.textures == self@.textures.push(name@),
            r@.outputs == self@.outputs,
    {
        let mut r = self;
        r.textures.push(name);
        r
    }

    /// Adds an output slot.
    pub fn with_output(self, name: &'static str, depth: Option<DepthMode>) -> (r: EffectBuilder)
        ensures
            r@.vertex_bufs == self@.vertex_bufs,
            r@.const_bufs == self@.const_bufs,
            r@.textures == self@.textures,
            r@.outputs == self@.outputs.push((name@, depth)),
    {
        let mut r = self;
        r.outputs.push(OutputSlot { name, depth });
        r
    }

    /// Finishes the pipeline once the GPU has answered.
    ///
    /// `program` is what came of compiling the shaders against these slots.
    /// A failure is handed on as it is; a success gives an effect with these
    /// slots and no attachment bound.
    pub fn build(self, program: Result<ProgramId, GpuError>) -> (r: Result<Effect, GpuError>)
        ensures
            match program {
                Ok(id) => {
                    &&& r matches Ok(effect)
                    &&& effect.program == id
                    &&& effect.layout@ == self@
                    &&& effect.data.is_clear()
                },
                Err(e) => r == Err::<Effect, GpuError>(e),
            },
    {
        match program {
            Ok(id) => Ok(
                Effect {
                    program: id,
                    layout: self,
                    data: EffectData {
                        vertex_bufs: Vec::new(),
                        textures: Vec::new(),
                        samplers: Vec::new(),
                    },
                },
            ),
            Err(e) => Err(e),
        }
    }
}

impl Effect {
    /// Unbinds every attachment. The program and the slots stay.
    pub fn clear(&mut self)
        ensures
            final(self).data.is_clear(),
            final(self).data@ == Attachments::none(),
            final(self).program == old(self).program,
            final(self).layout == old(self).layout,
    {
        self.data.vertex_bufs.clear();
        self.data.textures.clear();
        self.data.samplers.clear();
    }

    /// Records the upload of `words` to the uniform block slot `name`.
    pub fn update_constant_buffer(&self, name: &'static str, words: Vec<u32>, encoder: &mut Encoder)
        ensures
            final(encoder)@ == old(encoder)@.push(
                CommandView::UpdateConstantBuffer { name: name@, words: words@ },
            ),
    {
        encoder.push(Command::UpdateConstantBuffer { name, words });
    }

    /// Records a draw of `slice` with the attachments bound right now.
    pub fn draw(&self, slice: Slice, encoder: &mut Encoder)
        ensures
            final(encoder)@ == old(encoder)@.push(
                CommandView::Draw {
                    program: self.program,
                    slice,
                    vertex_bufs: self.data.vertex_bufs@,
                    textures: self.data.textures@,
                    samplers: self.data.samplers@,
                },
            ),
    {
        encoder.push(
            Command::Draw {
                program: self.program,
                slice,
                vertex_bufs: copy_list(&self.data.vertex_bufs),
                textures: copy_list(&self.data.textures),
                samplers: copy_list(&self.data.samplers),
            },
        );
    }
}

} // verus!
