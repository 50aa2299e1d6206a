use eva_engine::codec::words_to_le_bytes;
use eva_engine::geometry_renderer::triangle_indices;
use eva_engine::geometry_renderer::triangle_vertices;
use eva_engine::geometry_renderer::GeometryRenderer;
use eva_engine::geometry_renderer::IndexFormat;
use eva_engine::geometry_renderer::PassCommand;
use eva_engine::geometry_renderer::INDEX_COUNT;
use eva_engine::util::vertex_buffer_words;
use eva_engine::util::VERTEX_POSITION_COMPONENTS;
use eva_engine::util::VERTEX_POSITION_OFFSET;
use eva_engine::util::VERTEX_STRIDE_BYTES;

#[test]
fn triangle_vertices_match_fixed_geometry() {
    let vs = triangle_vertices();
    let expect = [
        glam::Vec3::new(-0.5, 0.5, -2.0),
        glam::Vec3::new(0.5, 0.5, -2.0),
        glam::Vec3::new(-0.5, -0.5, -2.0),
    ];
    assert_eq!(vs.len(), expect.len());
    for (v, p) in vs.iter().zip(expect.iter()) {
        assert_eq!(f32::from_bits(v.x_bits), p.x);
        assert_eq!(f32::from_bits(v.y_bits), p.y);
        assert_eq!(f32::from_bits(v.z_bits), p.z);
    }
}

#[test]
fn triangle_indices_cover_vertices_in_order() {
    assert_eq!(triangle_indices(), vec![0, 1, 2]);
    assert_eq!(triangle_indices().len(), INDEX_COUNT as usize);
}

#[test]
fn vertex_buffer_bytes_match_declared_stride() {
    let vs = triangle_vertices();
    let bytes = words_to_le_bytes(&vertex_buffer_words(&vs));
    assert_eq!(bytes.len(), vs.len() * VERTEX_STRIDE_BYTES as usize);
    assert_eq!(
        VERTEX_STRIDE_BYTES,
        VERTEX_POSITION_OFFSET + 4 * VERTEX_POSITION_COMPONENTS
    );
    let mut expect: Vec<u8> = Vec::new();
    for p in [
        glam::Vec3::new(-0.5, 0.5, -2.0),
        glam::Vec3::new(0.5, 0.5, -2.0),
        glam::Vec3::new(-0.5, -0.5, -2.0),
    ] {
        for c in p.to_array() {
            expect.extend_from_slice(&c.to_le_bytes());
        }
    }
    assert_eq!(bytes, expect);
}

#[test]
fn index_buffer_bytes_are_packed_u32() {
    let bytes = words_to_le_bytes(&triangle_indices());
    assert_eq!(bytes.len(), 12);
    assert_eq!(
        bytes,
        vec![0, 0, 0, 0, 1, 0, 0, 0, 2, 0, 0, 0]
    );
}

#[test]
fn render_records_exactly_one_indexed_draw() {
    let cmds = GeometryRenderer::new().render();
    let draws: Vec<&PassCommand> = cmds
        .iter()
        .filter(|c| matches!(c, PassCommand::DrawIndexed { .. }))
        .collect();
    assert_eq!(draws.len(), 1);
    match cmds.last().unwrap() {
        PassCommand::DrawIndexed {
            index_start,
            index_end,
            base_vertex,
            instance_start,
            instance_end,
        } => {
            assert_eq!(*index_start, 0);
            assert_eq!(*index_end, 3);
            assert_eq!(*base_vertex, 0);
            assert_eq!(*instance_start, 0);
            assert_eq!(*instance_end, 1);
        }
        other => panic!("last pass command must be the indexed draw, found {:?}", other),
    }
}

#[test]
fn pass_binds_everything_before_the_draw() {
    let cmds = GeometryRenderer::new().render();
    assert_eq!(cmds.len(), 5);
    assert!(matches!(cmds[0], PassCommand::SetPipeline));
    assert!(matches!(cmds[1], PassCommand::SetBindGroup { slot: 0 }));
    assert!(matches!(cmds[2], PassCommand::SetVertexBuffer { slot: 0 }));
    assert!(matches!(
        cmds[3],
        PassCommand::SetIndexBuffer { format: IndexFormat::Uint32 }
    ));
}
