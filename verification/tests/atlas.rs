use xatlas_rs::{
    ChartOptions, ChartRecord, IndexFormat, Mesh, MeshDecl, MeshRecord, PackOptions,
    ProgressCategory, ProgressReport, Scalar, Vertex, Xatlas,
};

/// A vertex as a holder of the engine may have it, with its coordinates as
/// numbers.
#[derive(Debug, Clone, Copy, PartialEq)]
struct PlainVertex {
    atlas_index: u32,
    uv: [f32; 2],
    xref: u32,
}

fn vertex(atlas_index: u32, u: f32, v: f32, xref: u32) -> Vertex {
    Vertex {
        atlas_index,
        uv: [Scalar::from_bits(u.to_bits()), Scalar::from_bits(v.to_bits())],
        xref,
    }
}

fn triangle_vertices() -> Vec<Vertex> {
    vec![vertex(0, 0.5, 0.5, 0), vertex(0, 0.5, 1.5, 1), vertex(0, 1.5, 0.5, 2)]
}

fn assert_same_content(first: &[Mesh<'_>], second: &[Mesh<'_>]) {
    assert_eq!(first.len(), second.len());
    for (a, b) in first.iter().zip(second.iter()) {
        assert_eq!(a.indices, b.indices);
        assert_eq!(a.vertices, b.vertices);
        assert_eq!(a.charts.len(), b.charts.len());
        for (x, y) in a.charts.iter().zip(b.charts.iter()) {
            assert_eq!(x.atlas_index, y.atlas_index);
            assert_eq!(x.indices, y.indices);
        }
    }
}

#[test]
fn new_atlas_has_no_meshes() {
    let atlas = Xatlas::new();
    assert_eq!(atlas.mesh_count(), 0);
    assert!(!atlas.is_generated());
}

#[test]
fn ten_thousand_atlases_each_start_empty() {
    for _ in 0..10_000 {
        let atlas = Xatlas::new();
        assert_eq!(atlas.mesh_count(), 0);
        assert!(!atlas.is_generated());
    }
}

#[test]
fn generate_simple_hands_over_the_parameters() {
    let mut atlas = Xatlas::new();
    let mut chart = ChartOptions::default();
    chart.max_iterations = 4;
    chart.max_chart_area = Scalar::from_bits(10.0f32.to_bits());
    let mut pack = PackOptions::default();
    pack.padding = 2;
    pack.resolution = 2048;

    let call = atlas.generate_simple(chart, pack);
    assert!(atlas.is_generated());
    assert_eq!(atlas.mesh_count(), 0);
    assert_eq!(call.chart_options, chart.convert());
    assert_eq!(call.chart_options.max_iterations, 4);
    assert_eq!(f32::from_bits(call.chart_options.max_chart_area.to_bits()), 10.0);
    assert_eq!(f32::from_bits(call.chart_options.proxy_fit_metric_weight.to_bits()), 2.0);
    assert_eq!(call.pack_options, pack.convert());
    assert_eq!(call.pack_options.padding, 2);
    assert_eq!(call.pack_options.resolution, 2048);
    assert_eq!(call.pack_options.attempts, 4096);
}

#[test]
fn generate_hands_over_a_fresh_bridge() {
    let mut atlas = Xatlas::new();
    let (call, bridge) = atlas.generate(ChartOptions::default(), PackOptions::default());
    assert!(atlas.is_generated());
    assert_eq!(bridge.last(), None);
    assert_eq!(call.chart_options, ChartOptions::default().convert());
    assert_eq!(call.pack_options, PackOptions::default().convert());
}

#[test]
fn generation_keeps_the_mesh_count() {
    let positions = vec![0u8; 36];
    let indices = vec![0u8; 6];
    let mut decl = MeshDecl::default();
    decl.vertex_count = 3;
    decl.vertex_position_data = &positions;
    decl.vertex_position_stride = 12;
    decl.index_count = 3;
    decl.index_data = &indices;

    let mut atlas = Xatlas::new();
    assert!(atlas.add_mesh(&decl).is_ok());
    assert!(atlas.add_mesh(&decl).is_ok());
    let _call = atlas.generate_simple(ChartOptions::default(), PackOptions::default());
    assert_eq!(atlas.mesh_count(), 2);
    assert!(atlas.is_generated());
}

#[test]
fn nothing_is_shown_before_generation() {
    let indices = [0u32, 1, 2];
    let vertices = triangle_vertices();
    let records = vec![MeshRecord {
        chart_array: vec![ChartRecord { atlas_index: 0, index_array: &indices }],
        index_array: &indices,
        vertex_array: &vertices,
    }];
    let atlas = Xatlas::new();
    let views = atlas.meshes(&records);
    assert!(views.is_empty());
}

#[test]
fn empty_result_shows_no_meshes() {
    let mut atlas = Xatlas::new();
    let _call = atlas.generate_simple(ChartOptions::default(), PackOptions::default());
    let records: Vec<MeshRecord<'_>> = Vec::new();
    assert!(atlas.meshes(&records).is_empty());
}

#[test]
fn single_triangle_result_is_shown_as_reported() {
    let indices = [0u32, 1, 2];
    let vertices = triangle_vertices();
    let records = vec![MeshRecord {
        chart_array: vec![ChartRecord { atlas_index: 0, index_array: &indices }],
        index_array: &indices,
        vertex_array: &vertices,
    }];

    let mut atlas = Xatlas::new();
    let _call = atlas.generate_simple(ChartOptions::default(), PackOptions::default());
    let views = atlas.meshes(&records);

    assert_eq!(views.len(), 1);
    assert_eq!(views[0].vertices.len(), 3);
    assert_eq!(views[0].vertices, &vertices[..]);
    assert_eq!(views[0].indices, &[0u32, 1, 2][..]);
    assert!(views[0].charts.len() >= 1);
    assert_eq!(views[0].charts[0].atlas_index, 0);
    assert_eq!(views[0].charts[0].indices, &[0u32, 1, 2][..]);
    assert_eq!(views[0].vertices[1].xref, 1);
    assert_eq!(f32::from_bits(views[0].vertices[1].uv[0].to_bits()), 0.5);
    assert_eq!(f32::from_bits(views[0].vertices[1].uv[1].to_bits()), 1.5);
}

#[test]
fn vertices_are_shown_in_the_form_they_are_held_in() {
    let indices = [0u32, 1, 2];
    let vertices = vec![
        PlainVertex { atlas_index: 0, uv: [0.25, 0.75], xref: 2 },
        PlainVertex { atlas_index: 0, uv: [1.25, 0.75], xref: 0 },
        PlainVertex { atlas_index: 0, uv: [0.25, 1.75], xref: 1 },
    ];
    let records = vec![MeshRecord {
        chart_array: vec![ChartRecord { atlas_index: 0, index_array: &indices }],
        index_array: &indices,
        vertex_array: &vertices,
    }];
    let mut atlas = Xatlas::new();
    let _call = atlas.generate_simple(ChartOptions::default(), PackOptions::default());
    let views = atlas.meshes(&records);
    assert_eq!(views.len(), 1);
    assert_eq!(views[0].vertices, &vertices[..]);
    assert_eq!(views[0].vertices[2].uv, [0.25, 1.75]);
}

#[test]
fn views_keep_the_order_of_records_and_charts() {
    let first_indices = [0u32, 1, 2, 2, 1, 3];
    let first_chart_a = [0u32, 1, 2];
    let first_chart_b = [2u32, 1, 3];
    let first_vertices = vec![
        vertex(0, 1.0, 1.0, 0),
        vertex(0, 1.0, 2.0, 1),
        vertex(1, 2.0, 1.0, 2),
        vertex(1, 2.0, 2.0, 3),
    ];
    let second_indices = [0u32, 1, 2];
    let second_vertices = triangle_vertices();
    let records = vec![
        MeshRecord {
            chart_array: vec![
                ChartRecord { atlas_index: 0, index_array: &first_chart_a },
                ChartRecord { atlas_index: 1, index_array: &first_chart_b },
            ],
            index_array: &first_indices,
            vertex_array: &first_vertices,
        },
        MeshRecord { chart_array: vec![], index_array: &second_indices, vertex_array: &second_vertices },
    ];

    let mut atlas = Xatlas::new();
    let _call = atlas.generate(ChartOptions::default(), PackOptions::default());
    let views = atlas.meshes(&records);

    assert_eq!(views.len(), 2);
    assert_eq!(views[0].indices, &first_indices[..]);
    assert_eq!(views[0].vertices, &first_vertices[..]);
    assert_eq!(views[0].charts.len(), 2);
    assert_eq!(views[0].charts[0].atlas_index, 0);
    assert_eq!(views[0].charts[0].indices, &first_chart_a[..]);
    assert_eq!(views[0].charts[1].atlas_index, 1);
    assert_eq!(views[0].charts[1].indices, &first_chart_b[..]);
    assert_eq!(views[1].indices, &second_indices[..]);
    assert_eq!(views[1].vertices, &second_vertices[..]);
    assert!(views[1].charts.is_empty());
}

#[test]
fn views_borrow_the_buffers_of_the_records() {
    let indices = [0u32, 1, 2];
    let vertices = triangle_vertices();
    let records = vec![MeshRecord {
        chart_array: vec![ChartRecord { atlas_index: 3, index_array: &indices }],
        index_array: &indices,
        vertex_array: &vertices,
    }];
    let mut atlas = Xatlas::new();
    let _call = atlas.generate_simple(ChartOptions::default(), PackOptions::default());
    let views = atlas.meshes(&records);
    assert!(std::ptr::eq(views[0].indices.as_ptr(), indices.as_ptr()));
    assert!(std::ptr::eq(views[0].vertices.as_ptr(), vertices.as_ptr()));
    assert!(std::ptr::eq(views[0].charts[0].indices.as_ptr(), indices.as_ptr()));
}

#[test]
fn two_readings_show_the_same_content() {
    let indices = [0u32, 1, 2];
    let vertices = triangle_vertices();
    let records = vec![MeshRecord {
        chart_array: vec![ChartRecord { atlas_index: 0, index_array: &indices }],
        index_array: &indices,
        vertex_array: &vertices,
    }];

    let before = Xatlas::new();
    let first = before.meshes(&records);
    let second = before.meshes(&records);
    assert_same_content(&first, &second);

    let mut atlas = Xatlas::new();
    let _call = atlas.generate_simple(ChartOptions::default(), PackOptions::default());
    let first = atlas.meshes(&records);
    let second = atlas.meshes(&records);
    assert_eq!(first.len(), 1);
    assert_same_content(&first, &second);
}

#[test]
fn triangle_through_the_whole_flow() {
    let mut positions = Vec::new();
    for value in [0.0f32, 0.0, 0.0, 0.0, 1.0, 1.0, 0.0, 1.0, 0.0] {
        positions.extend_from_slice(&value.to_ne_bytes());
    }
    let mut index_bytes = Vec::new();
    for index in [0u16, 1, 2] {
        index_bytes.extend_from_slice(&index.to_ne_bytes());
    }
    let mut decl = MeshDecl::default();
    decl.vertex_count = 3;
    decl.vertex_position_data = &positions;
    decl.vertex_position_stride = 12;
    decl.index_count = 3;
    decl.index_data = &index_bytes;
    decl.index_format = IndexFormat::Uint16;

    let mut atlas = Xatlas::new();
    let input = atlas.add_mesh(&decl).unwrap();
    assert_eq!(input.index_format, 0);
    assert_eq!(atlas.mesh_count(), 1);

    let (_call, mut bridge) = atlas.generate(ChartOptions::default(), PackOptions::default());
    let mut seen = Vec::new();
    for code in 0u32..4 {
        for progress in [0, 50, 100] {
            let event = bridge.observe(ProgressReport { code, progress });
            seen.push((event.category, event.progress));
        }
    }
    assert_eq!(seen.len(), 12);
    assert_eq!(seen[0], (ProgressCategory::ComputeCharts, 0));
    assert_eq!(seen[11], (ProgressCategory::BuildOutputMeshes, 100));

    let indices = [0u32, 1, 2];
    let vertices = triangle_vertices();
    let records = vec![MeshRecord {
        chart_array: vec![ChartRecord { atlas_index: 0, index_array: &indices }],
        index_array: &indices,
        vertex_array: &vertices,
    }];
    let views = atlas.meshes(&records);
    assert_eq!(views.len(), 1);
    assert_eq!(views[0].vertices.len(), 3);
    assert!(!views[0].charts.is_empty());
    let xrefs: Vec<u32> = views[0].vertices.iter().map(|vertex| vertex.xref).collect();
    assert_eq!(xrefs, vec![0, 1, 2]);
}
