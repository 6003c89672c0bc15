use game_engine::geometry::{GeometryBuffers, IndexBuffer, Triangle};

fn quad() -> GeometryBuffers {
    GeometryBuffers {
        vertex_array: 1,
        vertex_buffer: 2,
        vertex_count: 4,
        index_buffer: Some(IndexBuffer { buffer: 3, indices: vec![0, 1, 3, 1, 2, 3] }),
    }
}

#[test]
fn indexed_quad_draws_exactly_two_triangles() {
    let g = quad();
    assert_eq!(g.draw_count(), 6);
    assert_eq!(g.triangle_count(), 2);
    let tris = g.triangles();
    assert_eq!(
        tris,
        vec![Triangle { a: 0, b: 1, c: 3 }, Triangle { a: 1, b: 2, c: 3 }]
    );
}

#[test]
fn plain_triangle_geometry_draws_one_triangle() {
    let g = GeometryBuffers {
        vertex_array: 1,
        vertex_buffer: 2,
        vertex_count: 3,
        index_buffer: None,
    };
    assert_eq!(g.draw_count(), 3);
    assert_eq!(g.triangle_count(), 1);
    assert_eq!(g.triangles(), vec![Triangle { a: 0, b: 1, c: 2 }]);
}

#[test]
fn trailing_indices_form_no_triangle() {
    let g = GeometryBuffers {
        vertex_array: 1,
        vertex_buffer: 2,
        vertex_count: 4,
        index_buffer: Some(IndexBuffer { buffer: 3, indices: vec![0, 1, 3, 1, 2, 3, 2, 0] }),
    };
    assert_eq!(g.draw_count(), 8);
    assert_eq!(g.triangle_count(), 2);
    assert_eq!(
        g.triangles(),
        vec![Triangle { a: 0, b: 1, c: 3 }, Triangle { a: 1, b: 2, c: 3 }]
    );
}

#[test]
fn empty_geometry_draws_nothing() {
    let g = GeometryBuffers {
        vertex_array: 1,
        vertex_buffer: 2,
        vertex_count: 0,
        index_buffer: None,
    };
    assert_eq!(g.triangle_count(), 0);
    assert!(g.triangles().is_empty());
}
