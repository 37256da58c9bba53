use trail_renderer::renderer::{FrameWrite, TrailRenderer};
use trail_renderer::ring::WriteRegion;
use trail_renderer::vertex::{Color, Observation, Point, Vertex};

const RED: Color = Color { r: 9, g: 1, b: 1, a: 8 };
const BLUE: Color = Color { r: 1, g: 1, b: 9, a: 8 };

// The identity transform as the graphics layer would hand it in: the bit
// patterns of a single-precision column-major 4x4 identity matrix.
fn identity_matrix() -> [u32; 16] {
    let mut m = [0u32; 16];
    for i in 0..4 {
        m[i * 4 + i] = 1.0f32.to_bits();
    }
    m
}

fn obs(handle: u64, x: u32, y: u32, color: Color) -> Observation {
    Observation {
        handle,
        position: Point { x, y },
        color,
    }
}

#[test]
fn first_frame_writes_nothing() {
    let mut renderer = TrailRenderer::new(8, identity_matrix());
    let write = renderer.update(&vec![obs(1, 10, 20, RED), obs(2, 30, 40, BLUE)]);
    assert!(matches!(write, FrameWrite::Idle));
    assert_eq!(renderer.cursor(), 0);
}

#[test]
fn second_frame_uploads_two_vertices_per_entity() {
    let mut renderer = TrailRenderer::new(8, identity_matrix());
    renderer.update(&vec![obs(1, 10, 20, RED), obs(2, 30, 40, BLUE)]);
    let write = renderer.update(&vec![obs(1, 11, 21, RED), obs(2, 31, 41, BLUE)]);
    match write {
        FrameWrite::Uploaded { vertices, regions } => {
            assert_eq!(
                vertices,
                vec![
                    Vertex { position: Point { x: 10, y: 20 }, color: RED },
                    Vertex { position: Point { x: 11, y: 21 }, color: RED },
                    Vertex { position: Point { x: 30, y: 40 }, color: BLUE },
                    Vertex { position: Point { x: 31, y: 41 }, color: BLUE },
                ]
            );
            assert_eq!(regions, vec![WriteRegion { offset: 0, len: 4 }]);
        }
        _ => panic!("expected an upload"),
    }
    assert_eq!(renderer.cursor(), 4);
    // The engine-side buffer holds what the regions said was written.
    assert_eq!(
        renderer.vertex_at(0),
        Vertex { position: Point { x: 10, y: 20 }, color: RED }
    );
    assert_eq!(
        renderer.vertex_at(3),
        Vertex { position: Point { x: 31, y: 41 }, color: BLUE }
    );
}

#[test]
fn update_wraps_across_buffer_end() {
    let mut renderer = TrailRenderer::new(4, identity_matrix());
    renderer.update(&vec![obs(1, 0, 0, RED)]);
    renderer.update(&vec![obs(1, 1, 1, RED)]);
    assert_eq!(renderer.cursor(), 2);
    // Two entities with history now produce 4 vertices from cursor 2:
    // head [2, 4), tail [0, 2).
    renderer.update(&vec![obs(2, 5, 5, BLUE)]);
    let write = renderer.update(&vec![obs(1, 2, 2, RED), obs(2, 6, 6, BLUE)]);
    match write {
        FrameWrite::Uploaded { vertices, regions } => {
            assert_eq!(vertices.len(), 4);
            assert_eq!(
                regions,
                vec![
                    WriteRegion { offset: 2, len: 2 },
                    WriteRegion { offset: 0, len: 2 },
                ]
            );
        }
        _ => panic!("expected an upload"),
    }
    assert_eq!(renderer.cursor(), 2);
    assert_eq!(
        renderer.vertex_at(2),
        Vertex { position: Point { x: 1, y: 1 }, color: RED }
    );
    assert_eq!(
        renderer.vertex_at(0),
        Vertex { position: Point { x: 5, y: 5 }, color: BLUE }
    );
}

#[test]
fn oversized_frame_is_dropped_but_cache_still_updates() {
    let mut renderer = TrailRenderer::new(2, identity_matrix());
    renderer.update(&vec![obs(1, 0, 0, RED), obs(2, 9, 9, BLUE)]);
    let before: Vec<Vertex> = (0..2).map(|i| renderer.vertex_at(i)).collect();
    // Both entities have history: 4 vertices against capacity 2.
    let write = renderer.update(&vec![obs(1, 1, 1, RED), obs(2, 8, 8, BLUE)]);
    match write {
        FrameWrite::Overflow { count } => assert_eq!(count, 4),
        _ => panic!("expected the frame to be dropped"),
    }
    assert_eq!(renderer.cursor(), 0);
    for i in 0..2 {
        assert_eq!(renderer.vertex_at(i), before[i as usize]);
    }
    // The position cache was still advanced for the next frame.
    assert_eq!(renderer.last_position(1), Some(Point { x: 1, y: 1 }));
    assert_eq!(renderer.last_position(2), Some(Point { x: 8, y: 8 }));
}

#[test]
fn new_renderer_buffer_is_zeroed() {
    let renderer = TrailRenderer::new(4, identity_matrix());
    let zero = Vertex {
        position: Point { x: 0, y: 0 },
        color: Color { r: 0, g: 0, b: 0, a: 0 },
    };
    for i in 0..4 {
        assert_eq!(renderer.vertex_at(i), zero);
    }
    assert_eq!(renderer.last_position(1), None);
}

#[test]
fn projection_matrix_is_stored_and_drawn() {
    let mut renderer = TrailRenderer::new(4, identity_matrix());
    assert_eq!(renderer.projection(), identity_matrix());
    let mut scaled = [0u32; 16];
    for i in 0..16 {
        scaled[i] = (i as f32).to_bits();
    }
    renderer.update_projection_matrix(&scaled);
    assert_eq!(renderer.projection(), scaled);
    let config = renderer.draw();
    assert_eq!(config.projection, scaled);
}

#[test]
fn draw_spans_full_capacity_with_interleaved_layout() {
    let renderer = TrailRenderer::new(1024, identity_matrix());
    let config = renderer.draw();
    assert_eq!(config.vertex_count, 1024);
    assert_eq!(config.stride_bytes, 24);
    assert_eq!(config.position_components, 2);
    assert_eq!(config.position_offset_bytes, 0);
    assert_eq!(config.color_components, 4);
    assert_eq!(config.color_offset_bytes, 8);
}
