use glsl_layout::{Std140, Uniform};
use sky_pass::format::{ChannelType, Format, SurfaceType};
use sky_pass::matrix::{Matrix4, ONE, ZERO};
use sky_pass::uniform::{VertexArgs, VERTEX_ARGS_ALIGN, VERTEX_ARGS_SIZE};
use sky_pass::vertex::{skybox_vertices, Attribute, PosOnly, Semantic, SKYBOX_VERTEX_COUNT, SKYBOX_VERTICES};

#[test]
fn one_and_zero_are_the_bit_patterns_of_the_numbers() {
    assert_eq!(f32::from_bits(ONE), 1.0);
    assert_eq!(f32::from_bits(ZERO), 0.0);
    assert_eq!(ONE, 1.0f32.to_bits());
}

#[test]
fn identity_matrix_has_ones_on_the_diagonal() {
    let id = Matrix4::identity();
    for column in 0..4 {
        for row in 0..4 {
            let expected = if row == column { 1.0 } else { 0.0 };
            assert_eq!(f32::from_bits(id.m[4 * column + row]), expected);
        }
    }
}

#[test]
fn cube_has_thirty_six_vertices() {
    let v = skybox_vertices();
    assert_eq!(v.len(), 36);
    assert_eq!(SKYBOX_VERTEX_COUNT, 36);
    for i in 0..36 {
        assert_eq!(v[i].position, SKYBOX_VERTICES[i]);
    }
    assert_eq!(v[0].position, [-1, 1, -1]);
    assert_eq!(v[14].position, [1, 1, 1]);
    assert_eq!(v[35].position, [1, -1, 1]);
}

#[test]
fn cube_is_the_same_every_time() {
    assert_eq!(skybox_vertices(), skybox_vertices());
}

#[test]
fn cube_corners_are_unit_corners() {
    for v in skybox_vertices() {
        for k in 0..3 {
            assert!(v.position[k] == 1 || v.position[k] == -1);
        }
    }
}

fn facing(t: usize) -> i32 {
    let p = |i: usize| {
        let v = SKYBOX_VERTICES[i];
        [v[0] as i32, v[1] as i32, v[2] as i32]
    };
    let (a, b, c) = (p(3 * t), p(3 * t + 1), p(3 * t + 2));
    let u = [b[0] - a[0], b[1] - a[1], b[2] - a[2]];
    let w = [c[0] - a[0], c[1] - a[1], c[2] - a[2]];
    let n = [u[1] * w[2] - u[2] * w[1], u[2] * w[0] - u[0] * w[2], u[0] * w[1] - u[1] * w[0]];
    n[0] * a[0] + n[1] * a[1] + n[2] * a[2]
}

#[test]
fn twelve_triangles_wind_the_same_way() {
    for t in 0..12 {
        assert_eq!(facing(t), -4);
    }
}

#[test]
fn each_face_has_two_triangles() {
    let faces = [(2, -1), (0, -1), (0, 1), (2, 1), (1, 1), (1, -1)];
    for (f, &(axis, side)) in faces.iter().enumerate() {
        for i in 6 * f..6 * f + 6 {
            assert_eq!(SKYBOX_VERTICES[i][axis], side);
        }
    }
}

#[test]
fn position_only_format() {
    let attrs = PosOnly::attributes();
    assert_eq!(
        attrs,
        vec![Attribute {
            semantic: Semantic::Position,
            offset: 0,
            format: Format { surface: SurfaceType::R32G32B32, channel: ChannelType::Float },
        }]
    );
    assert_eq!(PosOnly::size(), 12);
}

#[test]
fn surface_sizes() {
    assert_eq!(SurfaceType::R8G8B8A8.bytes(), 4);
    assert_eq!(SurfaceType::R32G32.bytes(), 8);
    assert_eq!(SurfaceType::R32G32B32.bytes(), 12);
    assert_eq!(SurfaceType::R32G32B32A32.bytes(), 16);
}

#[test]
fn uniform_block_layout() {
    let mut proj = Matrix4::identity();
    let mut view = Matrix4::identity();
    for i in 0..16 {
        proj.m[i] = (i as f32).to_bits();
        view.m[i] = (100.0 + i as f32).to_bits();
    }
    let words = VertexArgs { proj, view }.std140();
    assert_eq!(words.len() * 4, VERTEX_ARGS_SIZE);
    assert_eq!(VERTEX_ARGS_SIZE, 128);
    assert_eq!(VERTEX_ARGS_SIZE % VERTEX_ARGS_ALIGN, 0);
    for column in 0..4 {
        for row in 0..4 {
            let i = 4 * column + row;
            assert_eq!(f32::from_bits(words[i]), i as f32);
            assert_eq!(f32::from_bits(words[16 + i]), 100.0 + i as f32);
        }
    }
}

#[test]
fn identity_uniform_block() {
    let words = VertexArgs::identity().std140();
    let expected: Vec<f32> = (0..32).map(|i| if (i % 16) % 5 == 0 { 1.0 } else { 0.0 }).collect();
    let got: Vec<f32> = words.iter().map(|w| f32::from_bits(*w)).collect();
    assert_eq!(got, expected);
}

#[test]
fn uniform_block_matches_std140_of_two_matrices() {
    let mut proj = Matrix4::identity();
    let mut view = Matrix4::identity();
    for i in 0..16 {
        proj.m[i] = (1.5 + i as f32).to_bits();
        view.m[i] = (-2.25 * i as f32).to_bits();
    }
    let columns = |m: &Matrix4| {
        let mut out = [[0.0f32; 4]; 4];
        for i in 0..16 {
            out[i / 4][i % 4] = f32::from_bits(m.m[i]);
        }
        out
    };
    let mut expected: Vec<u8> = Vec::new();
    expected.extend_from_slice(glsl_layout::mat4::from(columns(&proj)).std140().as_raw());
    expected.extend_from_slice(glsl_layout::mat4::from(columns(&view)).std140().as_raw());
    let mut got: Vec<u8> = Vec::new();
    let words = VertexArgs { proj, view }.std140();
    for word in words {
        got.extend_from_slice(&word.to_ne_bytes());
    }
    assert_eq!(got.len(), VERTEX_ARGS_SIZE);
    assert_eq!(got, expected);
}
