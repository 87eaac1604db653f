use batch_renderer::gpu::{Command, GpuObject};
use batch_renderer::layout::{
    buffer_bytes, color_attribute, flatten_vertices, position_attribute, Vertex, VERTEX_STRIDE_BYTES,
};
use batch_renderer::math::{Vec2, Vec3, Vec4};
use batch_renderer::renderer::{Phase, RenderError, Renderer, DEFAULT_VERTEX_CAPACITY};
use batch_renderer::shader::Shader;

fn renderer(capacity: usize) -> Renderer<f32> {
    match Renderer::with_capacity(Shader { id: 1 }, 2, 3, capacity) {
        Ok(r) => r,
        Err(_) => panic!("renderer refused"),
    }
}

fn red() -> Vec4<f32> {
    Vec4::new(1.0, 0.0, 0.0, 1.0)
}

fn push_unit_quads(r: &mut Renderer<f32>, n: usize) {
    for i in 0..n {
        let x = i as f32;
        assert_eq!(r.push_quad(Vec3::new(x, 0.0, 0.0), Vec2::new(x + 1.0, 1.0), red()), Ok(()));
    }
}

fn draws(cmds: &[Command<f32>]) -> Vec<usize> {
    cmds.iter()
        .filter_map(|c| match c {
            Command::Draw(n) => Some(*n),
            _ => None,
        })
        .collect()
}

fn uploads(cmds: &[Command<f32>]) -> Vec<Vec<f32>> {
    cmds.iter()
        .filter_map(|c| match c {
            Command::Upload(d) => Some(d.clone()),
            _ => None,
        })
        .collect()
}

#[test]
fn quad_triangulation_order() {
    let mut r = renderer(DEFAULT_VERTEX_CAPACITY);
    r.begin().unwrap();
    r.push_quad(Vec3::new(0.0, 0.0, 0.0), Vec2::new(1.0, 1.0), red()).unwrap();
    let v = |x: f32, y: f32| Vertex { pos: Vec3::new(x, y, 0.0), color: red() };
    let expected = vec![v(0.0, 0.0), v(1.0, 0.0), v(1.0, 1.0), v(1.0, 1.0), v(0.0, 1.0), v(0.0, 0.0)];
    assert_eq!(r.staging(), &expected);
    assert_eq!(r.vertex_count(), 6);
}

#[test]
fn quad_keeps_depth_and_far_corner() {
    let mut r = renderer(DEFAULT_VERTEX_CAPACITY);
    r.begin().unwrap();
    let c = Vec4::new(0.1, 0.2, 0.3, 0.4);
    r.push_quad(Vec3::new(-0.5, -0.25, 0.75), Vec2::new(0.5, 0.5), c).unwrap();
    let s = r.staging();
    assert_eq!(s[1].pos, Vec3::new(0.5, -0.25, 0.75));
    assert_eq!(s[2].pos, Vec3::new(0.5, 0.5, 0.75));
    assert_eq!(s[4].pos, Vec3::new(-0.5, 0.5, 0.75));
    assert!(s.iter().all(|v| v.color == c));
}

#[test]
fn frame_within_capacity_is_one_draw() {
    let mut r = renderer(DEFAULT_VERTEX_CAPACITY);
    r.begin().unwrap();
    push_unit_quads(&mut r, 10);
    r.end().unwrap();
    let cmds = r.take_commands();
    assert_eq!(cmds[0], Command::UseProgram(1));
    assert_eq!(draws(&cmds), vec![60]);
    let up = uploads(&cmds);
    assert_eq!(up.len(), 1);
    assert_eq!(up[0].len(), 60 * 7);
    // quads come out in push order: the first vertex of quad i is at x = i
    for i in 0..10 {
        assert_eq!(up[0][i * 42], i as f32);
    }
    assert_eq!(r.phase(), Phase::Ready);
}

#[test]
fn frame_exactly_at_capacity_is_one_draw() {
    let mut r = renderer(12);
    r.begin().unwrap();
    push_unit_quads(&mut r, 2);
    r.end().unwrap();
    assert_eq!(draws(&r.take_commands()), vec![12]);
}

#[test]
fn frame_over_capacity_splits_into_batches() {
    let mut r = renderer(12);
    r.begin().unwrap();
    push_unit_quads(&mut r, 5);
    r.end().unwrap();
    let cmds = r.take_commands();
    // ceil(30 / 12) = 3 draws, none above 12, 30 vertices in all
    assert_eq!(draws(&cmds), vec![12, 12, 6]);
    let all: Vec<f32> = uploads(&cmds).concat();
    assert_eq!(all.len(), 30 * 7);
    for i in 0..5 {
        assert_eq!(all[i * 42], i as f32);
    }
    // every implicit flush is followed by a fresh begin
    assert_eq!(cmds.iter().filter(|c| **c == Command::UseProgram(1)).count(), 3);
}

#[test]
fn default_capacity_overflow_splits_in_two() {
    let mut r = renderer(DEFAULT_VERTEX_CAPACITY);
    r.begin().unwrap();
    push_unit_quads(&mut r, 1667);
    r.end().unwrap();
    let d = draws(&r.take_commands());
    assert_eq!(d.len(), 2);
    assert_eq!(d.iter().sum::<usize>(), 1667 * 6);
    assert!(d.iter().all(|n| *n <= DEFAULT_VERTEX_CAPACITY));
}

#[test]
fn capacity_not_a_whole_number_of_quads() {
    let mut r = renderer(10);
    r.begin().unwrap();
    push_unit_quads(&mut r, 3);
    r.end().unwrap();
    // a quad is never split, so each batch holds one quad here
    assert_eq!(draws(&r.take_commands()), vec![6, 6, 6]);
}

#[test]
fn clear_then_end_draws_nothing() {
    let mut r = renderer(DEFAULT_VERTEX_CAPACITY);
    r.begin().unwrap();
    assert_eq!(r.clear(Vec4::new(0.5, 0.5, 0.5, 1.0)), Ok(()));
    assert_eq!(r.end(), Ok(()));
    let cmds = r.take_commands();
    assert_eq!(
        cmds,
        vec![
            Command::UseProgram(1),
            Command::Clear(Vec4::new(0.5, 0.5, 0.5, 1.0)),
            Command::Upload(vec![]),
            Command::Draw(0),
        ]
    );
}

#[test]
fn clear_before_begin_is_allowed() {
    let mut r = renderer(DEFAULT_VERTEX_CAPACITY);
    assert_eq!(r.clear(red()), Ok(()));
    assert_eq!(r.take_commands(), vec![Command::Clear(red())]);
}

#[test]
fn delete_releases_once() {
    let mut r = renderer(DEFAULT_VERTEX_CAPACITY);
    r.begin().unwrap();
    push_unit_quads(&mut r, 1);
    r.end().unwrap();
    assert_eq!(r.delete(), Ok(()));
    assert_eq!(r.delete(), Err(RenderError::PreconditionViolation));
    let cmds = r.take_commands();
    let released: Vec<GpuObject> = cmds
        .iter()
        .filter_map(|c| match c {
            Command::Release(o) => Some(*o),
            _ => None,
        })
        .collect();
    assert_eq!(
        released,
        vec![GpuObject::Program(1), GpuObject::VertexArray(2), GpuObject::Buffer(3)]
    );
    assert_eq!(r.phase(), Phase::Destroyed);
    assert_eq!(r.clear(red()), Err(RenderError::PreconditionViolation));
    assert_eq!(r.begin(), Err(RenderError::PreconditionViolation));
}

#[test]
fn delete_inside_frame_is_refused() {
    let mut r = renderer(DEFAULT_VERTEX_CAPACITY);
    r.begin().unwrap();
    assert_eq!(r.delete(), Err(RenderError::PreconditionViolation));
    assert_eq!(r.phase(), Phase::Recording);
}

#[test]
fn push_before_begin_is_refused() {
    let mut r = renderer(DEFAULT_VERTEX_CAPACITY);
    assert_eq!(
        r.push_quad(Vec3::new(0.0, 0.0, 0.0), Vec2::new(1.0, 1.0), red()),
        Err(RenderError::PreconditionViolation)
    );
    let v = Vertex { pos: Vec3::new(0.0, 0.0, 0.0), color: red() };
    assert_eq!(r.push_vertex(v), Err(RenderError::PreconditionViolation));
    assert_eq!(r.vertex_count(), 0);
}

#[test]
fn end_twice_is_refused() {
    let mut r = renderer(DEFAULT_VERTEX_CAPACITY);
    assert_eq!(r.end(), Err(RenderError::PreconditionViolation));
    r.begin().unwrap();
    assert_eq!(r.begin(), Err(RenderError::PreconditionViolation));
    assert_eq!(r.end(), Ok(()));
    assert_eq!(r.end(), Err(RenderError::PreconditionViolation));
}

#[test]
fn push_vertex_counts_vertices_and_stops_when_full() {
    let mut r = renderer(7);
    r.begin().unwrap();
    let v = Vertex { pos: Vec3::new(0.0, 0.0, 0.0), color: red() };
    for _ in 0..7 {
        assert_eq!(r.push_vertex(v), Ok(()));
    }
    assert_eq!(r.vertex_count(), 7);
    assert_eq!(r.push_vertex(v), Err(RenderError::BatchFull));
    assert_eq!(r.vertex_count(), 7);
}

#[test]
fn staging_is_kept_after_end_and_cleared_by_begin() {
    let mut r = renderer(DEFAULT_VERTEX_CAPACITY);
    r.begin().unwrap();
    push_unit_quads(&mut r, 2);
    r.end().unwrap();
    assert_eq!(r.staging().len(), 12);
    r.begin().unwrap();
    assert_eq!(r.staging().len(), 0);
}

#[test]
fn capacity_below_one_quad_is_refused() {
    match Renderer::<f32>::with_capacity(Shader { id: 4 }, 5, 6, 5) {
        Err((e, release)) => {
            assert_eq!(e, RenderError::InvalidCapacity);
            assert_eq!(
                release,
                vec![GpuObject::Program(4), GpuObject::VertexArray(5), GpuObject::Buffer(6)]
            );
        }
        Ok(_) => panic!("capacity 5 accepted"),
    }
}

#[test]
fn missing_buffer_is_an_allocation_error() {
    match Renderer::<f32>::new(Shader { id: 4 }, 5, 0) {
        Err((e, _)) => assert_eq!(e, RenderError::ResourceAllocation),
        Ok(_) => panic!("zero buffer accepted"),
    }
    let r = Renderer::<f32>::new(Shader { id: 4 }, 5, 6).ok().unwrap();
    assert_eq!(r.capacity(), DEFAULT_VERTEX_CAPACITY);
    assert_eq!(r.phase(), Phase::Ready);
}

#[test]
fn vertex_layout_matches_components() {
    let v = vec![
        Vertex { pos: Vec3::new(1.0, 2.0, 3.0), color: Vec4::new(4.0, 5.0, 6.0, 7.0) },
        Vertex { pos: Vec3::new(8.0, 9.0, 10.0), color: Vec4::new(11.0, 12.0, 13.0, 14.0) },
    ];
    let flat = flatten_vertices(&v);
    let expected: Vec<f32> = (1..=14).map(|i| i as f32).collect();
    assert_eq!(flat, expected);
    let p = position_attribute();
    let c = color_attribute();
    assert_eq!((p.name, p.offset_bytes, p.components), ("pos", 0, 3));
    assert_eq!((c.name, c.offset_bytes, c.components), ("color", 12, 4));
    assert_eq!(VERTEX_STRIDE_BYTES, 28);
    assert_eq!(VERTEX_STRIDE_BYTES, std::mem::size_of::<Vertex<f32>>());
    assert_eq!(buffer_bytes(DEFAULT_VERTEX_CAPACITY), 280000);
}

#[test]
fn vector_constructors_keep_components() {
    let a = Vec2::new(1.0f32, 2.0);
    assert_eq!((a.x, a.y), (1.0, 2.0));
    let b = Vec3::new(1.0f32, 2.0, 3.0);
    assert_eq!((b.x, b.y, b.z), (1.0, 2.0, 3.0));
    let c = Vec4::new(1.0f32, 2.0, 3.0, 4.0);
    assert_eq!((c.x, c.y, c.z, c.w), (1.0, 2.0, 3.0, 4.0));
}
