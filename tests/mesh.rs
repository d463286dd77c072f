use opengl_examples_rs::mesh::{check_layout, merge_meshes, mesh_vertices, offset_indices, Mesh, MeshError};

fn mesh(positions: Vec<i32>, normals: Vec<i32>, indices: Vec<u32>) -> Mesh<i32> {
    Mesh { positions, normals, indices }
}

#[test]
fn layout_errors_in_order() {
    assert_eq!(check_layout(&mesh(vec![1, 2], vec![1], vec![0])), Err(MeshError::PositionsNotTriples));
    assert_eq!(check_layout(&mesh(vec![1, 2, 3], vec![1], vec![0])), Err(MeshError::NormalsNotTriples));
    assert_eq!(check_layout(&mesh(vec![1, 2, 3], vec![], vec![0])), Err(MeshError::IndicesNotTriangles));
    assert_eq!(
        check_layout(&mesh(vec![1, 2, 3, 4, 5, 6], vec![1, 2, 3], vec![0, 1, 1])),
        Err(MeshError::NormalCountMismatch)
    );
    assert_eq!(check_layout(&mesh(vec![], vec![], vec![])), Ok(()));
}

#[test]
fn vertices_interleave_positions_and_normals() {
    let m = mesh(vec![1, 2, 3, 4, 5, 6], vec![7, 8, 9, 10, 11, 12], vec![0, 1, 0]);
    let v = mesh_vertices(&m, (0, 0, 0));
    assert_eq!(v.len(), 2);
    assert_eq!(v[1].position, (4, 5, 6));
    assert_eq!(v[1].normal, (10, 11, 12));
}

#[test]
fn missing_normals_take_the_filler() {
    let m = mesh(vec![1, 2, 3], vec![], vec![0, 0, 0]);
    let v = mesh_vertices(&m, (0, 0, -1));
    assert_eq!(v[0].position, (1, 2, 3));
    assert_eq!(v[0].normal, (0, 0, -1));
}

#[test]
fn offsets_shift_or_overflow() {
    assert_eq!(offset_indices(&vec![0, 1, 2], 5), Ok(vec![5, 6, 7]));
    assert_eq!(offset_indices(&vec![u32::MAX - 3], 3), Ok(vec![u32::MAX]));
    assert_eq!(offset_indices(&vec![u32::MAX - 3], 4), Err(MeshError::IndexOverflow));
    assert_eq!(offset_indices(&vec![], usize::MAX), Ok(vec![]));
}

#[test]
fn merge_shifts_later_meshes() {
    let a = mesh(vec![0, 0, 0, 1, 0, 0, 0, 1, 0], vec![], vec![0, 1, 2]);
    let b = mesh(vec![5, 5, 5, 6, 6, 6, 7, 7, 7], vec![1, 1, 1, 2, 2, 2, 3, 3, 3], vec![2, 1, 0]);
    let (vs, is) = merge_meshes(&vec![a, b], (0, 0, 0)).unwrap();
    assert_eq!(vs.len(), 6);
    assert_eq!(vs[3].position, (5, 5, 5));
    assert_eq!(vs[3].normal, (1, 1, 1));
    assert_eq!(vs[0].normal, (0, 0, 0));
    assert_eq!(is, vec![0, 1, 2, 5, 4, 3]);
}

#[test]
fn merge_reports_first_bad_mesh() {
    let good = mesh(vec![0, 0, 0], vec![], vec![0, 0, 0]);
    let bad = mesh(vec![0, 0, 0], vec![1, 2, 3, 4, 5, 6], vec![]);
    let r = merge_meshes(&vec![good, bad], (0, 0, 0));
    assert_eq!(r.err(), Some(MeshError::NormalCountMismatch));
}

#[test]
fn merge_of_nothing_is_empty() {
    let (vs, is) = merge_meshes::<i32>(&vec![], (0, 0, 0)).unwrap();
    assert!(vs.is_empty());
    assert!(is.is_empty());
}

#[test]
fn merge_overflows_when_shift_leaves_u32() {
    let first = mesh(vec![0, 0, 0], vec![], vec![0, 0, 0]);
    let second = mesh(vec![0, 0, 0], vec![], vec![0, 0, u32::MAX]);
    let r = merge_meshes(&vec![first, second], (0, 0, 0));
    assert_eq!(r.err(), Some(MeshError::IndexOverflow));
}
