use cube_pipeline::geometry::{create_cube_data, INDEX_COUNT, VERTEX_COUNT};

#[test]
fn cube_has_24_positions_24_colors_36_indices() {
    let cube = create_cube_data();
    assert_eq!(cube.positions.len(), 3 * 24);
    assert_eq!(cube.colors.len(), 4 * 24);
    assert_eq!(cube.elements.len(), 36);
    assert_eq!(VERTEX_COUNT, 24);
    assert_eq!(INDEX_COUNT, 36);
}

#[test]
fn cube_indices_lie_below_vertex_count() {
    let cube = create_cube_data();
    assert!(cube.elements.iter().all(|&i| (i as usize) < 24));
}

#[test]
fn cube_has_one_color_per_position() {
    let cube = create_cube_data();
    assert_eq!(cube.colors.len(), 4 * cube.positions.len() / 3);
}

#[test]
fn cube_is_built_the_same_every_time() {
    let a = create_cube_data();
    let b = create_cube_data();
    assert_eq!(a.positions, b.positions);
    assert_eq!(a.colors, b.colors);
    assert_eq!(a.elements, b.elements);
}

#[test]
fn cube_faces_split_into_two_triangles() {
    let cube = create_cube_data();
    assert_eq!(&cube.elements[0..6], &[0, 1, 2, 0, 2, 3]);
    assert_eq!(&cube.elements[6..12], &[4, 5, 6, 4, 6, 7]);
    assert_eq!(&cube.elements[30..36], &[20, 21, 22, 20, 22, 23]);
}

#[test]
fn cube_face_colors_in_tenths() {
    let cube = create_cube_data();
    // front: cyan, on each of its four vertices
    for v in 0..4 {
        assert_eq!(&cube.colors[4 * v..4 * v + 4], &[3, 10, 10, 10]);
    }
    // back: red
    assert_eq!(&cube.colors[16..20], &[10, 3, 3, 10]);
    // top: green
    assert_eq!(&cube.colors[32..36], &[3, 10, 3, 10]);
    // bottom: blue
    assert_eq!(&cube.colors[48..52], &[3, 3, 10, 10]);
    // right: yellow
    assert_eq!(&cube.colors[64..68], &[10, 10, 3, 10]);
    // left: purple, last vertex
    assert_eq!(&cube.colors[92..96], &[10, 3, 10, 10]);
}

#[test]
fn cube_positions_are_unit_corners_on_their_faces() {
    let cube = create_cube_data();
    assert_eq!(&cube.positions[0..3], &[-1, -1, 1]);
    assert_eq!(&cube.positions[69..72], &[-1, 1, -1]);
    assert!(cube.positions.iter().all(|&c| c == 1 || c == -1));
    // front face at z = 1, back at z = -1, top at y = 1, bottom at y = -1,
    // right at x = 1, left at x = -1
    let planes: [(usize, i8); 6] = [(2, 1), (2, -1), (1, 1), (1, -1), (0, 1), (0, -1)];
    for (face, &(axis, value)) in planes.iter().enumerate() {
        for v in 0..4 {
            assert_eq!(cube.positions[3 * (4 * face + v) + axis], value);
        }
    }
}
