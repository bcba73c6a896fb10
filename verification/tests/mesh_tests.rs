use rust_renderer::mesh::{
    AccessorView, ByteRange, IndexView, Mesh, MeshError, VertexBufferLayout, VertexFormat,
};

fn index_view() -> Option<IndexView> {
    Some(IndexView { offset: 0, length: 100, count: 50 })
}

fn views() -> (Option<AccessorView>, Option<AccessorView>, Option<AccessorView>, Option<AccessorView>) {
    (
        Some(AccessorView { offset: 100, length: 200 }),
        Some(AccessorView { offset: 300, length: 100 }),
        Some(AccessorView { offset: 400, length: 160 }),
        Some(AccessorView { offset: 560, length: 80 }),
    )
}

#[test]
fn a_valid_asset_yields_the_described_ranges() {
    let (p, n, t, c) = views();
    let m = Mesh::from_accessor_views(1000, index_view(), p, n, t, c).unwrap();
    assert_eq!(m.buffer_len, 1000);
    assert_eq!(m.index_count, 50);
    assert_eq!(m.index_range(), ByteRange { start: 0, end: 100 });
    assert_eq!(m.position_range(), ByteRange { start: 100, end: 300 });
    assert_eq!(m.normal_range(), ByteRange { start: 300, end: 400 });
    assert_eq!(m.tangent_range(), ByteRange { start: 400, end: 560 });
    assert_eq!(m.texcoord_range(), ByteRange { start: 560, end: 640 });
}

#[test]
fn ranges_are_disjoint_and_in_bounds() {
    let (p, n, t, c) = views();
    let m = Mesh::from_accessor_views(1000, index_view(), p, n, t, c).unwrap();
    let ranges = [
        m.index_range(),
        m.position_range(),
        m.normal_range(),
        m.tangent_range(),
        m.texcoord_range(),
    ];
    for (i, a) in ranges.iter().enumerate() {
        assert!(a.start <= a.end);
        assert!(a.end <= m.buffer_len);
        for b in &ranges[..i] {
            assert!(a.end <= b.start || b.end <= a.start, "{:?} overlaps {:?}", a, b);
        }
    }
}

#[test]
fn missing_streams_are_fatal() {
    let (p, n, t, c) = views();
    assert_eq!(
        Mesh::from_accessor_views(1000, None, p, n, t, c),
        Err(MeshError::MissingIndices)
    );
    assert_eq!(
        Mesh::from_accessor_views(1000, index_view(), None, n, t, c),
        Err(MeshError::MissingPositions)
    );
    assert_eq!(
        Mesh::from_accessor_views(1000, index_view(), p, None, t, c),
        Err(MeshError::MissingNormals)
    );
    assert_eq!(
        Mesh::from_accessor_views(1000, index_view(), p, n, None, c),
        Err(MeshError::MissingTangents)
    );
    assert_eq!(
        Mesh::from_accessor_views(1000, index_view(), p, n, t, None),
        Err(MeshError::MissingTexCoords)
    );
}

#[test]
fn a_range_past_the_buffer_is_rejected() {
    let (p, n, t, c) = views();
    assert_eq!(
        Mesh::from_accessor_views(639, index_view(), p, n, t, c),
        Err(MeshError::RangeOutOfBounds)
    );
    let far = Some(AccessorView { offset: u64::MAX, length: u64::MAX });
    assert_eq!(
        Mesh::from_accessor_views(1000, index_view(), far, n, t, c),
        Err(MeshError::RangeOutOfBounds)
    );
}

#[test]
fn an_index_count_past_its_range_is_rejected() {
    let (p, n, t, c) = views();
    let indices = Some(IndexView { offset: 0, length: 100, count: 51 });
    assert_eq!(
        Mesh::from_accessor_views(1000, indices, p, n, t, c),
        Err(MeshError::IndexCountExceedsRange)
    );
}

#[test]
fn overlapping_ranges_are_rejected() {
    let (p, _, t, c) = views();
    let overlapping = Some(AccessorView { offset: 250, length: 100 });
    assert_eq!(
        Mesh::from_accessor_views(1000, index_view(), p, overlapping, t, c),
        Err(MeshError::RangesOverlap)
    );
}

#[test]
fn vertex_layouts_match_the_pipeline() {
    assert_eq!(
        Mesh::position_layout(),
        VertexBufferLayout { array_stride: 12, shader_location: 0, format: VertexFormat::Float32x3 }
    );
    assert_eq!(
        Mesh::normal_layout(),
        VertexBufferLayout { array_stride: 12, shader_location: 1, format: VertexFormat::Float32x3 }
    );
    assert_eq!(
        Mesh::tangent_layout(),
        VertexBufferLayout { array_stride: 16, shader_location: 2, format: VertexFormat::Float32x4 }
    );
    assert_eq!(
        Mesh::texcoord_layout(),
        VertexBufferLayout { array_stride: 8, shader_location: 3, format: VertexFormat::Float32x2 }
    );
    assert_eq!(VertexFormat::Float32x2.size(), 8);
    assert_eq!(VertexFormat::Float32x3.size(), 12);
    assert_eq!(VertexFormat::Float32x4.size(), 16);
}
