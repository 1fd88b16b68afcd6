use sky_pass::cam::{get_camera, Camera, Entity, GlobalTransform};
use sky_pass::format::{ChannelType, Format, SurfaceType};
use sky_pass::matrix::Matrix4;
use sky_pass::mesh::{BufferId, Mesh, Slice};
use sky_pass::pipe::{Command, DepthMode, Effect, EffectBuilder, Encoder, GpuError, ProgramId};
use sky_pass::pass::Pass;
use sky_pass::sky::{DrawSkyBox, PassError, SkyBox, SkyData};
use sky_pass::storage::Storage;
use sky_pass::tex::{resolve_texture, MaterialDefaults, Sampler, Texture, TextureHandle, TextureView};
use sky_pass::uniform::VertexArgs;
use sky_pass::vertex::{skybox_vertices, Attribute, PosOnly, Semantic};

fn to_bits(m: &nalgebra::Matrix4<f32>) -> Matrix4 {
    let mut out = Matrix4::identity();
    for (i, v) in m.as_slice().iter().enumerate() {
        out.m[i] = v.to_bits();
    }
    out
}

fn from_bits(m: &Matrix4) -> nalgebra::Matrix4<f32> {
    let values: Vec<f32> = m.m.iter().map(|b| f32::from_bits(*b)).collect();
    nalgebra::Matrix4::from_column_slice(&values)
}

fn invert(t: &GlobalTransform) -> Option<Matrix4> {
    from_bits(&t.0).try_inverse().map(|m| to_bits(&m))
}

fn cube_mesh() -> Mesh {
    Mesh::new(skybox_vertices().len() as u32, PosOnly::attributes(), BufferId(77))
}

fn compiled() -> (DrawSkyBox, Effect) {
    let mut pass = DrawSkyBox::new();
    let builder = pass.compile(Ok(cube_mesh())).expect("layout");
    let effect = builder.build(Ok(ProgramId(9))).expect("effect");
    (pass, effect)
}

fn texture(n: u64) -> Texture {
    Texture { view: TextureView(n), sampler: Sampler(1000 + n) }
}

fn upload(args: &VertexArgs) -> Command {
    Command::UpdateConstantBuffer { name: "VertexArgs", words: args.std140() }
}

fn draw(t: Texture) -> Command {
    Command::Draw {
        program: ProgramId(9),
        slice: Slice { start: 0, end: 36 },
        vertex_bufs: vec![BufferId(77)],
        textures: vec![t.view],
        samplers: vec![t.sampler],
    }
}

fn projection() -> Matrix4 {
    to_bits(&nalgebra::Matrix4::new_perspective(1.5, 1.0, 0.1, 100.0))
}

#[test]
fn new_pass_is_not_compiled() {
    assert!(!DrawSkyBox::new().is_compiled());
}

#[test]
fn compile_describes_the_pipeline() {
    let mut pass = DrawSkyBox::new();
    let builder = pass.compile(Ok(cube_mesh())).expect("layout");
    assert!(pass.is_compiled());
    assert_eq!(builder.vertex_bufs.len(), 1);
    assert_eq!(
        builder.vertex_bufs[0].attributes,
        vec![Attribute {
            semantic: Semantic::Position,
            offset: 0,
            format: Format { surface: SurfaceType::R32G32B32, channel: ChannelType::Float },
        }]
    );
    assert_eq!(builder.vertex_bufs[0].stride, 12);
    assert_eq!(builder.vertex_bufs[0].rate, 0);
    assert_eq!(builder.const_bufs.len(), 1);
    assert_eq!(builder.const_bufs[0].name, "VertexArgs");
    assert_eq!(builder.const_bufs[0].size, 128);
    assert_eq!(builder.const_bufs[0].count, 1);
    assert_eq!(builder.textures, vec!["top"]);
    assert_eq!(builder.outputs.len(), 1);
    assert_eq!(builder.outputs[0].name, "color");
    assert_eq!(builder.outputs[0].depth, None);
}

#[test]
fn compile_twice_gives_the_same_pipeline() {
    let mut pass = DrawSkyBox::new();
    let first = pass.compile(Ok(cube_mesh())).expect("layout");
    let second = pass.compile(Ok(cube_mesh())).expect("layout");
    assert_eq!(first, second);
    assert!(pass.is_compiled());
}

#[test]
fn compile_hands_on_a_failed_upload() {
    let mut pass = DrawSkyBox::new();
    assert_eq!(pass.compile(Err(GpuError::BufferCreation)).err(), Some(GpuError::BufferCreation));
    assert!(!pass.is_compiled());
    let (mut pass, _) = compiled();
    assert_eq!(pass.compile(Err(GpuError::BufferCreation)).err(), Some(GpuError::BufferCreation));
    assert!(pass.is_compiled());
}

#[test]
fn build_hands_on_a_failed_program() {
    let mut pass = DrawSkyBox::new();
    let builder = pass.compile(Ok(cube_mesh())).expect("layout");
    assert_eq!(
        builder.build(Err(GpuError::ProgramCreation)).err(),
        Some(GpuError::ProgramCreation)
    );
}

#[test]
fn build_keeps_the_slots_and_binds_nothing() {
    let builder = EffectBuilder::new()
        .with_raw_vertex_buffer(PosOnly::attributes(), 12, 1)
        .with_raw_constant_buffer("A", 64, 2)
        .with_texture("t0")
        .with_texture("t1")
        .with_output("out", Some(DepthMode::LessEqualWrite));
    let effect = builder.clone().build(Ok(ProgramId(3))).expect("effect");
    assert_eq!(effect.program, ProgramId(3));
    assert_eq!(effect.layout, builder);
    assert_eq!(effect.layout.textures, vec!["t0", "t1"]);
    assert_eq!(effect.layout.vertex_bufs[0].rate, 1);
    assert_eq!(effect.layout.const_bufs[0].size, 64);
    assert_eq!(effect.layout.const_bufs[0].count, 2);
    assert_eq!(effect.layout.outputs[0].depth, Some(DepthMode::LessEqualWrite));
    assert!(effect.data.vertex_bufs.is_empty());
    assert!(effect.data.textures.is_empty());
    assert!(effect.data.samplers.is_empty());
}

#[test]
fn vertex_args_without_camera_are_identity() {
    let args = DrawSkyBox::vertex_args(None).expect("args");
    assert_eq!(args.proj, Matrix4::identity());
    assert_eq!(args.view, Matrix4::identity());
    for i in 0..16 {
        let expected = if i % 5 == 0 { 1.0 } else { 0.0 };
        assert_eq!(f32::from_bits(args.proj.m[i]), expected);
        assert_eq!(f32::from_bits(args.view.m[i]), expected);
    }
}

#[test]
fn vertex_args_of_identity_transform() {
    let cam = Camera { proj: projection() };
    let transform = GlobalTransform(Matrix4::identity());
    let args = DrawSkyBox::vertex_args(Some((&cam, invert(&transform)))).expect("args");
    assert_eq!(args.view, Matrix4::identity());
    assert_eq!(args.proj, cam.proj);
}

#[test]
fn vertex_args_take_the_inverse_as_view() {
    let cam = Camera { proj: projection() };
    let moved = nalgebra::Matrix4::new_translation(&nalgebra::Vector3::new(1.0, 2.0, 3.0));
    let transform = GlobalTransform(to_bits(&moved));
    let args = DrawSkyBox::vertex_args(Some((&cam, invert(&transform)))).expect("args");
    let back = nalgebra::Matrix4::new_translation(&nalgebra::Vector3::new(-1.0, -2.0, -3.0));
    assert_eq!(from_bits(&args.view), back);
    assert_eq!(args.proj, cam.proj);
}

#[test]
fn vertex_args_of_singular_transform() {
    let cam = Camera { proj: projection() };
    let transform = GlobalTransform(to_bits(&nalgebra::Matrix4::zeros()));
    assert_eq!(invert(&transform), None);
    assert_eq!(
        DrawSkyBox::vertex_args(Some((&cam, invert(&transform)))),
        Err(PassError::SingularTransform)
    );
}

struct Scene {
    textures: Storage<Texture>,
    defaults: MaterialDefaults,
    skies: Storage<SkyBox>,
}

fn scene(loaded: &[usize], skies: &[(usize, usize)]) -> Scene {
    let mut textures = Storage::new();
    for &h in loaded {
        textures.insert(h, texture(h as u64));
    }
    let mut s = Storage::new();
    for &(entity, handle) in skies {
        s.insert(entity, SkyBox { texture: TextureHandle(handle) });
    }
    Scene { textures, defaults: MaterialDefaults { albedo: TextureHandle(0) }, skies: s }
}

fn run(
    pass: &DrawSkyBox,
    effect: &mut Effect,
    camera: Option<(&Camera, Option<Matrix4>)>,
    s: &Scene,
) -> (Result<(), PassError>, Vec<Command>) {
    let mut encoder = Encoder::new();
    let data = SkyData {
        camera,
        tex_storage: &s.textures,
        material_defaults: &s.defaults,
        skybox: &s.skies,
    };
    let r = pass.apply(&mut encoder, effect, data);
    (r, encoder.commands)
}

fn is_clear(effect: &Effect) -> bool {
    effect.data.vertex_bufs.is_empty()
        && effect.data.textures.is_empty()
        && effect.data.samplers.is_empty()
}

#[test]
fn apply_without_camera_uploads_identity() {
    let (pass, mut effect) = compiled();
    let s = scene(&[0, 3], &[(2, 3)]);
    let cameras: Storage<Camera> = Storage::new();
    let transforms: Storage<GlobalTransform> = Storage::new();
    let camera = get_camera(None, &cameras, &transforms).map(|(c, t)| (c, invert(t)));
    let (r, commands) = run(&pass, &mut effect, camera, &s);
    assert_eq!(r, Ok(()));
    assert_eq!(commands, vec![upload(&VertexArgs::identity()), draw(texture(3))]);
    assert!(is_clear(&effect));
}

#[test]
fn apply_with_identity_transform_uploads_projection() {
    let (pass, mut effect) = compiled();
    let s = scene(&[0, 3], &[(2, 3)]);
    let mut cameras = Storage::new();
    cameras.insert(5, Camera { proj: projection() });
    let mut transforms = Storage::new();
    transforms.insert(5, GlobalTransform(Matrix4::identity()));
    let camera = get_camera(None, &cameras, &transforms).map(|(c, t)| (c, invert(t)));
    let (r, commands) = run(&pass, &mut effect, camera, &s);
    assert_eq!(r, Ok(()));
    let args = VertexArgs { proj: projection(), view: Matrix4::identity() };
    assert_eq!(commands, vec![upload(&args), draw(texture(3))]);
}

#[test]
fn apply_draws_skies_in_entity_order() {
    let (pass, mut effect) = compiled();
    let s = scene(&[0, 1, 2], &[(9, 2), (4, 1)]);
    let (r, commands) = run(&pass, &mut effect, None, &s);
    assert_eq!(r, Ok(()));
    let up = upload(&VertexArgs::identity());
    assert_eq!(commands, vec![up.clone(), draw(texture(1)), up, draw(texture(2))]);
    assert!(is_clear(&effect));
}

#[test]
fn apply_falls_back_to_the_default_texture() {
    let (pass, mut effect) = compiled();
    let s = scene(&[0], &[(1, 8)]);
    let (r, commands) = run(&pass, &mut effect, None, &s);
    assert_eq!(r, Ok(()));
    assert_eq!(commands, vec![upload(&VertexArgs::identity()), draw(texture(0))]);
    assert!(is_clear(&effect));
}

#[test]
fn apply_reports_a_sky_without_any_texture() {
    let (pass, mut effect) = compiled();
    let s = scene(&[5], &[(1, 5), (3, 8), (6, 5)]);
    let (r, commands) = run(&pass, &mut effect, None, &s);
    assert_eq!(r, Err(PassError::MissingTexture { entity: Entity(3) }));
    let up = upload(&VertexArgs::identity());
    assert_eq!(commands, vec![up.clone(), draw(texture(5)), up]);
    assert!(is_clear(&effect));
}

#[test]
fn apply_with_singular_transform_records_nothing() {
    let (pass, mut effect) = compiled();
    let s = scene(&[0], &[(1, 0)]);
    let cam = Camera { proj: projection() };
    let (r, commands) = run(&pass, &mut effect, Some((&cam, None)), &s);
    assert_eq!(r, Err(PassError::SingularTransform));
    assert!(commands.is_empty());
    assert!(is_clear(&effect));
}

#[test]
fn apply_without_skies_does_nothing() {
    let (pass, mut effect) = compiled();
    let s = scene(&[0], &[]);
    effect.data.textures.push(TextureView(1));
    let before = effect.clone();
    let (r, commands) = run(&pass, &mut effect, None, &s);
    assert_eq!(r, Ok(()));
    assert!(commands.is_empty());
    assert_eq!(effect, before);
    let uncompiled = DrawSkyBox::new();
    let (r, commands) = run(&uncompiled, &mut effect, None, &s);
    assert_eq!(r, Ok(()));
    assert!(commands.is_empty());
}

#[test]
fn apply_before_compile_is_an_error() {
    let (_, mut effect) = compiled();
    let pass = DrawSkyBox::new();
    let s = scene(&[0], &[(1, 0)]);
    let (r, commands) = run(&pass, &mut effect, None, &s);
    assert_eq!(r, Err(PassError::NotCompiled));
    assert!(commands.is_empty());
}

#[test]
fn apply_skips_the_frame_when_the_buffer_is_missing() {
    let mut pass = DrawSkyBox::new();
    let normals = vec![Attribute {
        semantic: Semantic::Normal,
        offset: 0,
        format: Format { surface: SurfaceType::R32G32B32, channel: ChannelType::Float },
    }];
    let builder = pass.compile(Ok(Mesh::new(36, normals, BufferId(1)))).expect("layout");
    let mut effect = builder.build(Ok(ProgramId(9))).expect("effect");
    effect.data.samplers.push(Sampler(4));
    let s = scene(&[0], &[(1, 0), (2, 0)]);
    let (r, commands) = run(&pass, &mut effect, None, &s);
    assert_eq!(r, Ok(()));
    assert!(commands.is_empty());
    assert!(is_clear(&effect));
}

#[test]
fn apply_keeps_earlier_commands() {
    let (pass, mut effect) = compiled();
    let s = scene(&[0], &[(1, 0)]);
    let mut encoder = Encoder::new();
    encoder.push(draw(texture(42)));
    let data = SkyData {
        camera: None,
        tex_storage: &s.textures,
        material_defaults: &s.defaults,
        skybox: &s.skies,
    };
    let r = pass.apply(&mut encoder, &mut effect, data);
    assert_eq!(r, Ok(()));
    assert_eq!(
        encoder.commands,
        vec![draw(texture(42)), upload(&VertexArgs::identity()), draw(texture(0))]
    );
}

#[test]
fn first_draw_includes_what_was_bound_before() {
    let (pass, mut effect) = compiled();
    effect.data.vertex_bufs.push(BufferId(5));
    let s = scene(&[0], &[(1, 0), (2, 0)]);
    let (r, commands) = run(&pass, &mut effect, None, &s);
    assert_eq!(r, Ok(()));
    let up = upload(&VertexArgs::identity());
    let first = Command::Draw {
        program: ProgramId(9),
        slice: Slice { start: 0, end: 36 },
        vertex_bufs: vec![BufferId(5), BufferId(77)],
        textures: vec![TextureView(0)],
        samplers: vec![Sampler(1000)],
    };
    assert_eq!(commands, vec![up.clone(), first, up, draw(texture(0))]);
    assert!(is_clear(&effect));
}

#[test]
fn effect_clear_unbinds_everything() {
    let (_, mut effect) = compiled();
    effect.data.vertex_bufs.push(BufferId(5));
    effect.data.textures.push(TextureView(6));
    effect.data.samplers.push(Sampler(7));
    let layout = effect.layout.clone();
    effect.clear();
    assert!(is_clear(&effect));
    assert_eq!(effect.program, ProgramId(9));
    assert_eq!(effect.layout, layout);
}

#[test]
fn resolve_texture_prefers_the_wanted_handle() {
    let s = scene(&[0, 3], &[]);
    assert_eq!(resolve_texture(&s.textures, TextureHandle(3), TextureHandle(0)), Some(texture(3)));
    assert_eq!(resolve_texture(&s.textures, TextureHandle(2), TextureHandle(0)), Some(texture(0)));
    assert_eq!(resolve_texture(&s.textures, TextureHandle(2), TextureHandle(1)), None);
    assert_eq!(resolve_texture(&s.textures, TextureHandle(9), TextureHandle(8)), None);
}

#[test]
fn mesh_buffer_is_found_by_attributes() {
    let position = PosOnly::attributes();
    let mut normals = PosOnly::attributes();
    normals[0].semantic = Semantic::Normal;
    let mut mesh = Mesh::new(3, normals.clone(), BufferId(1));
    assert_eq!(mesh.buffer(&position), None);
    assert_eq!(mesh.buffer(&normals), Some(BufferId(1)));
    mesh.vbufs.push(sky_pass::mesh::VertexBuffer { attributes: position.clone(), raw: BufferId(2) });
    mesh.vbufs.push(sky_pass::mesh::VertexBuffer { attributes: position.clone(), raw: BufferId(3) });
    assert_eq!(mesh.buffer(&position), Some(BufferId(2)));
    assert_eq!(mesh.buffer(&Vec::new()), None);
    assert_eq!(mesh.slice(), Slice { start: 0, end: 3 });
}
