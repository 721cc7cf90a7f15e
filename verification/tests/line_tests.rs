use overdriven::line::{
    rasterize, LineRenderer, LineSegment, LineVertex, LINE_POSITION_LOCATION, LINE_VERTEX_STRIDE,
    MAX_SEGMENTS,
};
use overdriven::surface::SurfaceCapabilities;
use overdriven::Context;

fn context() -> Context {
    let capabilities = SurfaceCapabilities {
        formats: vec![wgpu::TextureFormat::Bgra8UnormSrgb],
        present_modes: vec![wgpu::PresentMode::Fifo],
        alpha_modes: vec![wgpu::CompositeAlphaMode::Opaque],
    };
    Context::new(800, 600, &capabilities)
}

fn bits(x: f32) -> u32 {
    x.to_bits()
}

fn position(vertex: &LineVertex) -> (f32, f32) {
    (f32::from_bits(vertex.position[0]), f32::from_bits(vertex.position[1]))
}

#[test]
fn two_segments_end_to_end() {
    let ctx = context();
    let mut renderer = LineRenderer::new(&ctx);
    renderer.line(bits(0.0), bits(0.0), bits(0.0), bits(0.0));
    renderer.line(bits(-0.5), bits(-0.5), bits(0.5), bits(0.5));
    let mesh = renderer.render();
    let positions: Vec<(f32, f32)> = mesh.vertex_buffer().iter().map(position).collect();
    assert_eq!(positions, vec![(0.0, 0.0), (0.0, 0.0), (-0.5, -0.5), (0.5, 0.5)]);
    assert_eq!(mesh.index_buffer(), &vec![0u32, 1, 2, 3]);
    assert_eq!(mesh.index_count(), 4);
    assert_eq!(renderer.len(), 0);
}

#[test]
fn each_segment_gives_two_vertices_and_two_indices() {
    let ctx = context();
    let mut renderer = LineRenderer::new(&ctx);
    let segments: Vec<(f32, f32, f32, f32)> = vec![
        (0.25, -1.0, 1.0, 0.75),
        (-0.125, 0.5, 0.0, -0.0),
        (1.0, 1.0, -1.0, -1.0),
    ];
    for s in &segments {
        renderer.line(bits(s.0), bits(s.1), bits(s.2), bits(s.3));
    }
    assert_eq!(renderer.len(), 3);
    let mesh = renderer.render();
    let vertices = mesh.vertex_buffer();
    let indices = mesh.index_buffer();
    assert_eq!(vertices.len(), 6);
    assert_eq!(indices.len(), 6);
    for (k, s) in segments.iter().enumerate() {
        assert_eq!(indices[2 * k] as usize, 2 * k);
        assert_eq!(indices[2 * k + 1] as usize, 2 * k + 1);
        let start = &vertices[indices[2 * k] as usize];
        let end = &vertices[indices[2 * k + 1] as usize];
        assert_eq!(start.position, [bits(s.0), bits(s.1)]);
        assert_eq!(end.position, [bits(s.2), bits(s.3)]);
    }
}

#[test]
fn coordinates_pass_bit_for_bit() {
    let ctx = context();
    let mut renderer = LineRenderer::new(&ctx);
    let nan = 0x7fc0_1234u32;
    let negative_zero = bits(-0.0);
    renderer.line(nan, negative_zero, u32::MAX, 0);
    let mesh = renderer.render();
    assert_eq!(mesh.vertex_buffer()[0], LineVertex { position: [nan, negative_zero] });
    assert_eq!(mesh.vertex_buffer()[1], LineVertex { position: [u32::MAX, 0] });
}

#[test]
fn render_empties_the_queue() {
    let ctx = context();
    let mut renderer = LineRenderer::new(&ctx);
    for i in 0..10u32 {
        renderer.line(i, i + 1, i + 2, i + 3);
    }
    assert_eq!(renderer.len(), 10);
    let first = renderer.render();
    assert_eq!(first.index_count(), 20);
    assert_eq!(renderer.len(), 0);
    let second = renderer.render();
    assert_eq!(second.index_count(), 0);
    assert_eq!(renderer.len(), 0);
}

#[test]
fn frames_are_independent() {
    let ctx = context();
    let mut renderer = LineRenderer::new(&ctx);
    renderer.line(1, 2, 3, 4);
    let _ = renderer.render();
    renderer.line(5, 6, 7, 8);
    let mesh = renderer.render();
    assert_eq!(
        mesh.vertex_buffer(),
        &vec![LineVertex { position: [5, 6] }, LineVertex { position: [7, 8] }]
    );
    assert_eq!(mesh.index_buffer(), &vec![0u32, 1]);
}

#[test]
fn empty_queue_renders_nothing() {
    let ctx = context();
    let mut renderer = LineRenderer::new(&ctx);
    assert_eq!(renderer.len(), 0);
    let mesh = renderer.render();
    assert!(mesh.vertex_buffer().is_empty());
    assert!(mesh.index_buffer().is_empty());
    assert_eq!(mesh.index_count(), 0);
}

#[test]
fn line_appends_in_order() {
    let ctx = context();
    let mut renderer = LineRenderer::new(&ctx);
    renderer.line(1, 2, 3, 4);
    assert_eq!(renderer.len(), 1);
    renderer.line(5, 6, 7, 8);
    assert_eq!(renderer.len(), 2);
}

#[test]
fn rasterize_follows_queue_order() {
    let segments = vec![
        LineSegment { x0: 10, y0: 11, x1: 12, y1: 13 },
        LineSegment { x0: 20, y0: 21, x1: 22, y1: 23 },
    ];
    let (vertices, indices) = rasterize(&segments);
    assert_eq!(
        vertices,
        vec![
            LineVertex { position: [10, 11] },
            LineVertex { position: [12, 13] },
            LineVertex { position: [20, 21] },
            LineVertex { position: [22, 23] },
        ]
    );
    assert_eq!(indices, vec![0u32, 1, 2, 3]);
}

#[test]
fn rasterize_of_nothing_is_nothing() {
    let (vertices, indices) = rasterize(&Vec::new());
    assert!(vertices.is_empty());
    assert!(indices.is_empty());
}

#[test]
fn renderer_draws_to_the_surface_format() {
    let ctx = context();
    let renderer = LineRenderer::new(&ctx);
    assert_eq!(*renderer.target_format(), wgpu::TextureFormat::Bgra8UnormSrgb);
    assert_eq!(renderer.target_format(), ctx.wgpu_surface_format());
}

#[test]
fn rendered_mesh_fills_buffers_of_matching_size() {
    let ctx = context();
    let mut renderer = LineRenderer::new(&ctx);
    renderer.line(bits(0.0), bits(0.0), bits(0.0), bits(0.0));
    renderer.line(bits(-0.5), bits(-0.5), bits(0.5), bits(0.5));
    let mesh = renderer.render();
    let expected_vertices: &[u8] =
        bytemuck::cast_slice(&[[0.0f32, 0.0], [0.0, 0.0], [-0.5, -0.5], [0.5, 0.5]]);
    let expected_indices: &[u8] = bytemuck::cast_slice(&[0u32, 1, 2, 3]);
    assert_eq!(mesh.vertex_bytes(), expected_vertices);
    assert_eq!(mesh.index_bytes(), expected_indices);
    assert_eq!(mesh.vertex_bytes().len() as u64, 4 * LINE_VERTEX_STRIDE);
}

#[test]
fn line_vertex_layout() {
    assert_eq!(LINE_VERTEX_STRIDE, 8);
    assert_eq!(LINE_POSITION_LOCATION, 0);
    assert_eq!(std::mem::size_of::<LineVertex>() as u64, LINE_VERTEX_STRIDE);
    assert_eq!(MAX_SEGMENTS, 2_147_483_647);
}
