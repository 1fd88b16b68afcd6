//! The sky pass: a cube drawn around the camera with a cubemap on it.

use crate::cam::{Camera, Entity};
use crate::matrix::Matrix4;
use crate::mesh::{BufferId, Mesh, Slice};
use crate::pass::Pass;
use crate::pipe::{
    Attachments, CommandView, Effect, EffectBuilder, Encoder, GpuError, Layout, ProgramId,
};
use crate::storage::Storage;
use crate::tex::{resolve_texture, resolved_texture, MaterialDefaults, Texture, TextureHandle};
use crate::uniform::{VertexArgs, VERTEX_ARGS_SIZE};
use crate::vertex::PosOnly;
use vstd::prelude::*;

verus! {

/// Marks an entity as a sky and names the cubemap to draw on it.
#[derive(Clone, Copy, Debug, PartialEq, Eq, Structural)]
pub struct SkyBox {
    /// Handle to the cubemap texture.
    pub texture: TextureHandle,
}

/// Why a frame of the sky could not be drawn.
#[derive(Clone, Copy, Debug, PartialEq, Eq, Structural)]
pub enum PassError {
    /// The camera's transform has no inverse, so there is no view matrix.
    SingularTransform,
    /// There is a sky to draw, but the pass has no mesh yet.
    NotCompiled,
    /// Neither the sky's own texture nor the default one is loaded.
    MissingTexture { entity: Entity },
}

/// Draws every sky of the scene as a cube with a cubemap on it.
#[derive(Debug)]
pub struct DrawSkyBox {
    mesh: Option<Mesh>,
}

/// The slots of the sky pipeline: positions in, one uniform block with the
/// camera, one cubemap, one color output that ignores depth.
pub open spec fn sky_layout() -> Layout {
    Layout {
        vertex_bufs: seq![(PosOnly::spec_attributes(), 12u8, 0u8)],
        const_bufs: seq![("VertexArgs"@, VERTEX_ARGS_SIZE, 1usize)],
        textures: seq!["top"@],
        outputs: seq![("color"@, None)],
    }
}

/// The matrices of a frame, or nothing when they cannot be had.
///
/// `camera` is the camera the frame is seen through, with the inverse of its
/// world transform where that transform has one. Without a camera both
/// matrices are the identity. With one, the projection is the camera's and
/// the view is the inverse of its transform; without that inverse there are
/// no matrices.
pub open spec fn frame_args(camera: Option<(&Camera, Option<Matrix4>)>) -> Option<VertexArgs> {
    match camera {
        None => Some(VertexArgs::spec_identity()),
        Some((cam, Some(inverse))) => Some(VertexArgs { proj: cam.proj, view: inverse }),
        Some((cam, None)) => None,
    }
}

/// What stays the same for every sky of one frame.
pub struct Frame {
    pub args: VertexArgs,
    pub program: ProgramId,
    pub slice: Slice,
    pub vbuf: BufferId,
    pub textures: Map<usize, Texture>,
    pub fallback: TextureHandle,
}

/// What drawing the skies of one frame comes to.
pub struct Outcome {
    /// The commands recorded, oldest first.
    pub commands: Seq<CommandView>,
    /// The attachments left bound on the pipeline.
    pub bound: Attachments,
    /// Whether every sky was drawn.
    pub result: Result<(), PassError>,
}

impl Frame {
    /// The upload of the frame's matrices.
    pub open spec fn upload(self) -> CommandView {
        CommandView::UpdateConstantBuffer { name: "VertexArgs"@, words: self.args.spec_std140() }
    }

    /// The draw of one sky with `texture`, on top of whatever was `bound`
    /// before.
    pub open spec fn draw(self, bound: Attachments, texture: Texture) -> CommandView {
        CommandView::Draw {
            program: self.program,
            slice: self.slice,
            vertex_bufs: bound.vertex_bufs.push(self.vbuf),
            textures: bound.textures.push(texture.view),
            samplers: bound.samplers.push(texture.sampler),
        }
    }

    /// Drawing the skies of the entities `from` and up, in rising order,
    /// starting with `bound` on the pipeline.
    ///
    /// Each sky uploads the matrices, binds its texture (or the fallback) and
    /// draws; then the pipeline is cleared. A sky with no texture at all
    /// uploads, clears, and ends the frame with an error.
    pub open spec fn run(self, skies: Map<usize, SkyBox>, from: int, bound: Attachments) -> Outcome
        decreases usize::MAX + 1 - from,
    {
        if from < 0 || from > usize::MAX {
            Outcome { commands: Seq::empty(), bound, result: Ok(()) }
        } else if !skies.dom().contains(from as usize) {
            self.run(skies, from + 1, bound)
        } else {
            match resolved_texture(self.textures, skies[from as usize].texture, self.fallback) {
                None => Outcome {
                    commands: seq![self.upload()],
                    bound: Attachments::none(),
                    result: Err(PassError::MissingTexture { entity: Entity(from as usize) }),
                },
                Some(texture) => {
                    let rest = self.run(skies, from + 1, Attachments::none());
                    Outcome {
                        commands: seq![self.upload(), self.draw(bound, texture)] + rest.commands,
                        bound: rest.bound,
                        result: rest.result,
                    }
                },
            }
        }
    }
}

/// True when at least one of the entities `from` and up is a sky.
pub open spec fn has_sky_from(skies: Map<usize, SkyBox>, from: int) -> bool {
    exists|id: usize| from <= id && skies.dom().contains(id)
}

/// True when at least one entity is a sky.
pub open spec fn has_sky(skies: Map<usize, SkyBox>) -> bool {
    has_sky_from(skies, 0)
}

/// Entities that are no sky draw nothing: a run from `from` is the run from
/// `to` when no entity between the two is a sky.
pub proof fn lemma_run_skips_other_entities(
    frame: Frame,
    skies: Map<usize, SkyBox>,
    from: int,
    to: int,
    bound: Attachments,
)
    requires
        0 <= from <= to <= usize::MAX + 1,
        forall|id: usize| from <= id < to ==> !skies.dom().contains(id),
    ensures
        frame.run(skies, from, bound) == frame.run(skies, to, bound),
    decreases to - from,
{
    if from < to {
        assert(!skies.dom().contains(from as usize));
        lemma_run_skips_other_entities(frame, skies, from + 1, to, bound);
    }
}

/// A run that meets a sky leaves nothing bound on the pipeline, whether it
/// drew every sky or stopped at one without a texture. A run that meets no
/// sky records nothing and leaves the pipeline as it was.
pub proof fn lemma_run_leaves_pipeline_clear(
    frame: Frame,
    skies: Map<usize, SkyBox>,
    from: int,
    bound: Attachments,
)
    requires
        0 <= from,
    ensures
        has_sky_from(skies, from) ==> frame.run(skies, from, bound).bound == Attachments::none(),
        !has_sky_from(skies, from) ==> frame.run(skies, from, bound) == (Outcome {
            commands: Seq::empty(),
            bound,
            result: Ok(()),
        }),
    decreases usize::MAX + 1 - from,
{
    if from <= usize::MAX {
        if skies.dom().contains(from as usize) {
            lemma_run_leaves_pipeline_clear(frame, skies, from + 1, Attachments::none());
        } else {
            lemma_run_leaves_pipeline_clear(frame, skies, from + 1, bound);
            if has_sky_from(skies, from) {
                let id = choose|id: usize| from <= id && skies.dom().contains(id);
                assert(from + 1 <= id && skies.dom().contains(id));
            }
        }
    }
}

/// Every upload of a run carries the matrices of the frame, under the name
/// of the pass's uniform block.
pub proof fn lemma_uploads_carry_frame_args(
    frame: Frame,
    skies: Map<usize, SkyBox>,
    from: int,
    bound: Attachments,
)
    requires
        0 <= from,
    ensures
        forall|k: int|
            0 <= k < frame.run(skies, from, bound).commands.len() && (#[trigger] frame.run(
                skies,
                from,
                bound,
            ).commands[k]) is UpdateConstantBuffer ==> frame.run(skies, from, bound).commands[k]
                == (CommandView::UpdateConstantBuffer {
                name: "VertexArgs"@,
                words: frame.args.spec_std140(),
            }),
    decreases usize::MAX + 1 - from,
{
    if from <= usize::MAX {
        if skies.dom().contains(from as usize) {
            lemma_uploads_carry_frame_args(frame, skies, from + 1, Attachments::none());
        } else {
            lemma_uploads_carry_frame_args(frame, skies, from + 1, bound);
        }
    }
}

/// A sky whose own texture is not loaded is drawn with the default texture
/// when that one is loaded: the draw binds the default's view and sampler.
pub proof fn lemma_fallback_texture_is_drawn(
    frame: Frame,
    skies: Map<usize, SkyBox>,
    entity: usize,
    bound: Attachments,
)
    requires
        skies.dom().contains(entity),
        forall|id: usize| id != entity ==> !skies.dom().contains(id),
        !frame.textures.dom().contains(skies[entity].texture.0),
        frame.textures.dom().contains(frame.fallback.0),
    ensures
        frame.run(skies, 0, bound) == (Outcome {
            commands: seq![frame.upload(), frame.draw(bound, frame.textures[frame.fallback.0])],
            bound: Attachments::none(),
            result: Ok(()),
        }),
{
    lemma_run_skips_other_entities(frame, skies, 0, entity as int, bound);
    lemma_run_skips_other_entities(
        frame,
        skies,
        entity + 1,
        usize::MAX + 1,
        Attachments::none(),
    );
    let rest = frame.run(skies, entity + 1, Attachments::none());
    assert(rest.commands == Seq::<CommandView>::empty());
    let step = seq![frame.upload(), frame.draw(bound, frame.textures[frame.fallback.0])];
    assert(step + rest.commands =~= step);
}

impl DrawSkyBox {
    /// The mesh of the pass, once it is compiled.
    pub closed spec fn mesh(&self) -> Option<Mesh> {
        self.mesh
    }

    /// A pass that is not compiled yet.
    pub fn new() -> (r: Self)
        ensures
            r.mesh() is None,
    {
        DrawSkyBox { mesh: None }
    }

    /// True once the pass has its mesh.
    pub fn is_compiled(&self) -> (r: bool)
        ensures
            r == self.mesh() is Some,
    {
        self.mesh.is_some()
    }

    /// The matrices of a frame seen through `camera`.
    ///
    /// With no camera both matrices are the identity. With one, the
    /// projection is the camera's and the view is the inverse handed in; a
    /// transform without an inverse is an error.
    pub fn vertex_args(camera: Option<(&Camera, Option<Matrix4>)>) -> (r: Result<
        VertexArgs,
        PassError,
    >)
        ensures
            r == match frame_args(camera) {
                Some(args) => Ok::<VertexArgs, PassError>(args),
                None => Err::<VertexArgs, PassError>(PassError::SingularTransform),
            },
            camera is None ==> r is Ok && r->Ok_0.is_identity(),
    {
        match camera {
            None => Ok(VertexArgs::identity()),
            Some((cam, Some(inverse))) => Ok(VertexArgs { proj: cam.proj, view: inverse }),
            Some((_, None)) => Err(PassError::SingularTransform),
        }
    }
}

/// What the sky pass reads from the scene for one frame.
pub struct SkyData<'a> {
    /// The camera the frame is seen through, with the inverse of its world
    /// transform where there is one.
    pub camera: Option<(&'a Camera, Option<Matrix4>)>,
    pub tex_storage: &'a Storage<Texture>,
    pub material_defaults: &'a MaterialDefaults,
    pub skybox: &'a Storage<SkyBox>,
}

impl<'a> Pass<SkyData<'a>, PassError> for DrawSkyBox {
    open spec fn is_ready(&self) -> bool {
        self.mesh() is Some
    }

    /// Takes the uploaded cube and describes the pipeline to build.
    ///
    /// `mesh` is what came of uploading `skybox_vertices()` to the GPU. A
    /// failure is handed on and leaves the pass as it was. On success the
    /// pass keeps the mesh, replacing any it had, and returns the slots of
    /// its pipeline, which are the same every time.
    fn compile(&mut self, mesh: Result<Mesh, GpuError>) -> (r: Result<EffectBuilder, GpuError>)
        ensures
            match mesh {
                Ok(m) => {
                    &&& final(self).mesh() == Some(m)
                    &&& r matches Ok(builder)
                    &&& builder@ == sky_layout()
                },
                Err(e) => final(self).mesh() == old(self).mesh() && r == Err::<
                    EffectBuilder,
                    GpuError,
                >(e),
            },
    {
        match mesh {
            Ok(m) => {
                self.mesh = Some(m);
            },
            Err(e) => {
                return Err(e);
            },
        }
        let builder = EffectBuilder::new().with_raw_vertex_buffer(
            PosOnly::attributes(),
            PosOnly::size(),
            0,
        ).with_raw_constant_buffer("VertexArgs", VERTEX_ARGS_SIZE, 1).with_texture(
            "top",
        ).with_output("color", None);
        assert(builder@.vertex_bufs =~= sky_layout().vertex_bufs);
        assert(builder@.const_bufs =~= sky_layout().const_bufs);
        assert(builder@.textures =~= sky_layout().textures);
        assert(builder@.outputs =~= sky_layout().outputs);
        Ok(builder)
    }

    /// Draws every sky of the scene for one frame.
    ///
    /// The camera in `data` is the one `get_camera` picked. The commands go
    /// to `encoder`; `effect` is the pipeline built for this pass.
    ///
    /// The skies are drawn in rising order of their entities. A mesh without
    /// a position buffer ends the frame at once and in silence, leaving the
    /// pipeline clear. A sky with neither its own texture nor the default
    /// one loaded ends the frame with an error, after the pipeline was
    /// cleared. Whenever a sky was reached and the pass is compiled, nothing
    /// stays bound on the pipeline.
    fn apply(&self, encoder: &mut Encoder, effect: &mut Effect, data: SkyData<'a>) -> (r: Result<
        (),
        PassError,
    >)
        ensures
            frame_args(data.camera) is None ==> {
                &&& r == Err::<(), PassError>(PassError::SingularTransform)
                &&& final(encoder)@ == old(encoder)@
                &&& final(effect).data@ == old(effect).data@
            },
            frame_args(data.camera) is Some && !has_sky(data.skybox@) ==> {
                &&& r is Ok
                &&& final(encoder)@ == old(encoder)@
                &&& final(effect).data@ == old(effect).data@
            },
            frame_args(data.camera) is Some && has_sky(data.skybox@) ==> match self.mesh() {
                None => {
                    &&& r == Err::<(), PassError>(PassError::NotCompiled)
                    &&& final(encoder)@ == old(encoder)@
                    &&& final(effect).data@ == old(effect).data@
                },
                Some(mesh) => match mesh.spec_buffer(PosOnly::spec_attributes()) {
                    None => {
                        &&& r is Ok
                        &&& final(encoder)@ == old(encoder)@
                        &&& final(effect).data@ == Attachments::none()
                    },
                    Some(vbuf) => {
                        let frame = Frame {
                            args: frame_args(data.camera)->0,
                            program: old(effect).program,
                            slice: mesh.slice,
                            vbuf,
                            textures: data.tex_storage@,
                            fallback: data.material_defaults.albedo,
                        };
                        let outcome = frame.run(data.skybox@, 0, old(effect).data@);
                        &&& r == outcome.result
                        &&& final(encoder)@ == old(encoder)@ + outcome.commands
                        &&& final(effect).data@ == outcome.bound
                        &&& final(effect).data@ == Attachments::none()
                    },
                },
            },
    {
        let args = match Self::vertex_args(data.camera) {
            Ok(args) => args,
            Err(e) => {
                return Err(e);
            },
        };
        let attributes = PosOnly::attributes();
        let ghost bound0 = effect.data@;
        let ghost recorded0 = encoder@;
        let ghost skies = data.skybox@;
        let ghost mut done: Seq<CommandView> = Seq::empty();
        let mut i: usize = 0;
        assert(encoder@ =~= recorded0 + done);
        while i < data.skybox.slots.len()
            invariant
                i <= data.skybox.slots@.len(),
                skies == data.skybox@,
                attributes@ == PosOnly::spec_attributes(),
                frame_args(data.camera) == Some(args),
                bound0 == old(effect).data@,
                recorded0 == old(encoder)@,
                effect.program == old(effect).program,
                effect.layout == old(effect).layout,
                encoder@ == recorded0 + done,
                (forall|id: usize| id < i ==> !skies.dom().contains(id)) ==> done.len() == 0
                    && effect.data@ == bound0,
                (exists|id: usize| id < i && skies.dom().contains(id)) ==> effect.data@
                    == Attachments::none(),
                (exists|id: usize| id < i && skies.dom().contains(id)) ==> self.mesh() is Some
                    && self.mesh()->0.spec_buffer(PosOnly::spec_attributes()) is Some,
                (self.mesh() is Some && self.mesh()->0.spec_buffer(PosOnly::spec_attributes())
                    is Some) ==> ({
                    let mesh = self.mesh()->0;
                    let vbuf = mesh.spec_buffer(PosOnly::spec_attributes())->0;
                    let frame = Frame {
                        args,
                        program: old(effect).program,
                        slice: mesh.slice,
                        vbuf,
                        textures: data.tex_storage@,
                        fallback: data.material_defaults.albedo,
                    };
                    let whole = frame.run(skies, 0, bound0);
                    let rest = frame.run(skies, i as int, effect.data@);
                    &&& whole.commands == done + rest.commands
                    &&& whole.bound == rest.bound
                    &&& whole.result == rest.result
                }),
            decreases data.skybox.slots@.len() - i,
        {
            let ghost bound = effect.data@;
            if let Some(sky) = &data.skybox.slots[i] {
                assert(skies.dom().contains(i));
                assert(has_sky(skies));
                let mesh = match &self.mesh {
                    Some(mesh) => mesh,
                    None => {
                        return Err(PassError::NotCompiled);
                    },
                };
                match mesh.buffer(&attributes) {
                    Some(vbuf) => {
                        effect.data.vertex_bufs.push(vbuf);
                    },
                    None => {
                        effect.clear();
                        return Ok(());
                    },
                }
                let ghost frame = Frame {
                    args,
                    program: old(effect).program,
                    slice: mesh.slice,
                    vbuf: mesh.spec_buffer(PosOnly::spec_attributes())->0,
                    textures: data.tex_storage@,
                    fallback: data.material_defaults.albedo,
                };
                effect.update_constant_buffer("VertexArgs", args.std140(), encoder);
                let texture = resolve_texture(data.tex_storage, sky.texture, data.material_defaults.albedo);
                match texture {
                    Some(texture) => {
                        effect.data.textures.push(texture.view);
                        effect.data.samplers.push(texture.sampler);
                        effect.draw(mesh.slice(), encoder);
                        effect.clear();
                        proof {
                            let step = seq![frame.upload(), frame.draw(bound, texture)];
                            let rest = frame.run(skies, i + 1, Attachments::none());
                            assert(frame.run(skies, i as int, bound).commands == step
                                + rest.commands);
                            assert(encoder@ =~= recorded0 + (done + step));
                            assert((done + step) + rest.commands =~= done + (step
                                + rest.commands));
                            done = done + step;
                        }
                    },
                    None => {
                        effect.clear();
                        proof {
                            let step = seq![frame.upload()];
                            assert(frame.run(skies, i as int, bound).commands == step);
                            assert(encoder@ =~= recorded0 + (done + step));
                        }
                        return Err(PassError::MissingTexture { entity: Entity(i) });
                    },
                }
            } else {
                assert(!skies.dom().contains(i));
            }
            i += 1;
        }
        proof {
            if !has_sky(skies) {
                assert(forall|id: usize| id < i ==> !skies.dom().contains(id));
            } else {
                let id = choose|id: usize| 0 <= id && skies.dom().contains(id);
                assert(id < i && skies.dom().contains(id));
            }
            if self.mesh() is Some && self.mesh()->0.spec_buffer(PosOnly::spec_attributes())
                is Some {
                let mesh = self.mesh()->0;
                let frame = Frame {
                    args,
                    program: old(effect).program,
                    slice: mesh.slice,
                    vbuf: mesh.spec_buffer(PosOnly::spec_attributes())->0,
                    textures: data.tex_storage@,
                    fallback: data.material_defaults.albedo,
                };
                lemma_run_skips_other_entities(
                    frame,
                    skies,
                    i as int,
                    usize::MAX + 1,
                    effect.data@,
                );
            }
            assert(done =~= done + Seq::<CommandView>::empty());
        }
        Ok(())
    }
}

} // verus!
