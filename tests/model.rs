use orbit_view::model::{ModelData, Vertex, POSITION_OFFSET, UV_OFFSET, VERTEX_SIZE};

fn p(x: f32, y: f32, z: f32) -> [u32; 3] {
    [x.to_bits(), y.to_bits(), z.to_bits()]
}

fn t(u: f32, v: f32) -> [u32; 2] {
    [u.to_bits(), v.to_bits()]
}

fn triangle() -> ModelData {
    ModelData::new(
        vec![p(0.0, 0.0, 0.0), p(1.0, 0.0, 0.0), p(0.0, 1.0, 0.0)],
        vec![t(0.0, 0.0), t(1.0, 0.0), t(0.0, 1.0)],
        vec![0, 1, 2],
    )
}

#[test]
fn triangle_vertices_pair_positions_with_uvs() {
    let data = triangle();
    let vs = data.vertices();
    assert_eq!(vs.len(), 3);
    assert_eq!(vs[0], Vertex { position: p(0.0, 0.0, 0.0), uv: t(0.0, 0.0) });
    assert_eq!(vs[1].position(), p(1.0, 0.0, 0.0));
    assert_eq!(vs[1].uv(), t(1.0, 0.0));
    assert_eq!(vs[2].position(), p(0.0, 1.0, 0.0));
    assert_eq!(vs[2].uv(), t(0.0, 1.0));
    assert_eq!(data.indices(), &[0u16, 1, 2][..]);
}

#[test]
fn vertices_stop_at_shorter_sequence() {
    let more_positions = ModelData::new(
        vec![p(0.0, 0.0, 0.0), p(1.0, 2.0, 3.0)],
        vec![t(0.5, 0.5)],
        vec![],
    );
    let vs = more_positions.vertices();
    assert_eq!(vs.len(), 1);
    assert_eq!(vs[0], Vertex { position: p(0.0, 0.0, 0.0), uv: t(0.5, 0.5) });

    let more_uvs = ModelData::new(vec![p(4.0, 5.0, 6.0)], vec![t(0.0, 1.0), t(1.0, 1.0)], vec![0]);
    let vs = more_uvs.vertices();
    assert_eq!(vs.len(), 1);
    assert_eq!(vs[0].uv(), t(0.0, 1.0));
}

#[test]
fn empty_geometry_has_no_vertices() {
    let data = ModelData::new(vec![], vec![], vec![]);
    assert!(data.vertices().is_empty());
    assert!(data.indices().is_empty());
    assert!(data.vertex_bytes().is_empty());
    assert!(data.index_bytes().is_empty());
}

#[test]
fn indices_are_kept_even_out_of_range() {
    let data = ModelData::new(vec![p(0.0, 0.0, 0.0)], vec![t(0.0, 0.0)], vec![0, 7, 65535]);
    assert_eq!(data.indices(), &[0u16, 7, 65535][..]);
}

#[test]
fn vertex_bytes_follow_the_buffer_layout() {
    let data = triangle();
    let bytes = data.vertex_bytes();
    assert_eq!(VERTEX_SIZE, 20);
    assert_eq!(POSITION_OFFSET, 0);
    assert_eq!(UV_OFFSET, 12);
    assert_eq!(bytes.len(), 60);
    let stride = VERTEX_SIZE as usize;
    let read = |at: usize| f32::from_ne_bytes([bytes[at], bytes[at + 1], bytes[at + 2], bytes[at + 3]]);
    // second vertex: position (1, 0, 0), uv (1, 0)
    assert_eq!(read(stride + POSITION_OFFSET as usize), 1.0);
    assert_eq!(read(stride + POSITION_OFFSET as usize + 4), 0.0);
    assert_eq!(read(stride + UV_OFFSET as usize), 1.0);
    // third vertex: position (0, 1, 0), uv (0, 1)
    assert_eq!(read(2 * stride + 4), 1.0);
    assert_eq!(read(2 * stride + UV_OFFSET as usize + 4), 1.0);
    assert_eq!(read(2 * stride + UV_OFFSET as usize), 0.0);
}

#[test]
fn vertex_bytes_hold_exact_words() {
    let data = ModelData::new(vec![[0x0403_0201, 0x0807_0605, 0x0c0b_0a09]], vec![[0x100f_0e0d, 0x1413_1211]], vec![]);
    let bytes = data.vertex_bytes();
    let mut expected = Vec::new();
    for w in [0x0403_0201u32, 0x0807_0605, 0x0c0b_0a09, 0x100f_0e0d, 0x1413_1211] {
        expected.extend_from_slice(&w.to_ne_bytes());
    }
    assert_eq!(bytes, expected);
}

#[test]
fn index_bytes_hold_each_index() {
    let data = ModelData::new(vec![], vec![], vec![0x0102, 3, 0xff00]);
    let bytes = data.index_bytes();
    let mut expected = Vec::new();
    for i in [0x0102u16, 3, 0xff00] {
        expected.extend_from_slice(&i.to_ne_bytes());
    }
    assert_eq!(bytes, expected);
}
