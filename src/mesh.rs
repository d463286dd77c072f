use vstd::prelude::*;

verus! {

/// Why a set of meshes cannot be packed into one vertex and index buffer.
#[derive(PartialEq, Eq, Structural, Clone, Copy, Debug)]
pub enum MeshError {
    /// The position list is not a whole number of (x, y, z) triples.
    PositionsNotTriples,
    /// The normal list is not a whole number of (x, y, z) triples.
    NormalsNotTriples,
    /// The index list is not a whole number of triangles.
    IndicesNotTriangles,
    /// Normals are given, but not one per position.
    NormalCountMismatch,
    /// An index, shifted past the vertices of earlier meshes, exceeds `u32`.
    IndexOverflow,
}

/// One mesh as a model loader hands it over: flat coordinate lists, three
/// entries per vertex, and triangles as triples of vertex indices. An empty
/// normal list means the mesh has no normals.
pub struct Mesh<T> {
    pub positions: Vec<T>,
    pub normals: Vec<T>,
    pub indices: Vec<u32>,
}

/// An interleaved vertex: position and normal.
#[derive(Debug)]
pub struct Vertex<T> {
    pub position: (T, T, T),
    pub normal: (T, T, T),
}

/// The first thing wrong with a mesh's layout, checked in the order
/// positions, normals, indices, normal count.
pub open spec fn layout_error<T>(m: Mesh<T>) -> Option<MeshError> {
    if m.positions@.len() % 3 != 0 {
        Some(MeshError::PositionsNotTriples)
    } else if m.normals@.len() % 3 != 0 {
        Some(MeshError::NormalsNotTriples)
    } else if m.indices@.len() % 3 != 0 {
        Some(MeshError::IndicesNotTriangles)
    } else if m.normals@.len() != 0 && m.normals@.len() != m.positions@.len() {
        Some(MeshError::NormalCountMismatch)
    } else {
        None
    }
}

pub open spec fn triple<T>(s: Seq<T>, i: int) -> (T, T, T) {
    (s[3 * i], s[3 * i + 1], s[3 * i + 2])
}

/// The vertices of a well-laid-out mesh; `no_normal` stands in for the
/// normal of a mesh that has none.
pub open spec fn vertices_of<T>(m: Mesh<T>, no_normal: (T, T, T)) -> Seq<Vertex<T>> {
    Seq::new(
        (m.positions@.len() / 3) as nat,
        |i: int|
            Vertex {
                position: triple(m.positions@, i),
                normal: if m.normals@.len() == 0 {
                    no_normal
                } else {
                    triple(m.normals@, i)
                },
            },
    )
}

/// Whether every index stays within `u32` when shifted by `base`.
pub open spec fn fits(indices: Seq<u32>, base: int) -> bool {
    forall|k: int| 0 <= k < indices.len() ==> indices[k] + base <= u32::MAX
}

/// The indices shifted by `base`.
pub open spec fn offset(indices: Seq<u32>, base: int) -> Seq<u32> {
    indices.map_values(|i: u32| (i + base) as u32)
}

/// How many vertices the meshes hold together.
pub open spec fn vertex_count<T>(ms: Seq<Mesh<T>>) -> nat
    decreases ms.len(),
{
    if ms.len() == 0 {
        0
    } else {
        vertex_count(ms.drop_last()) + ms.last().positions@.len() / 3
    }
}

/// The first error met when the meshes are packed in order.
pub open spec fn merge_error<T>(ms: Seq<Mesh<T>>) -> Option<MeshError>
    decreases ms.len(),
{
    if ms.len() == 0 {
        None
    } else if merge_error(ms.drop_last()) is Some {
        merge_error(ms.drop_last())
    } else if layout_error(ms.last()) is Some {
        layout_error(ms.last())
    } else if !fits(ms.last().indices@, vertex_count(ms.drop_last()) as int) {
        Some(MeshError::IndexOverflow)
    } else {
        None
    }
}

/// All vertices, mesh after mesh.
pub open spec fn merged_vertices<T>(ms: Seq<Mesh<T>>, no_normal: (T, T, T)) -> Seq<Vertex<T>>
    decreases ms.len(),
{
    if ms.len() == 0 {
        Seq::empty()
    } else {
        merged_vertices(ms.drop_last(), no_normal) + vertices_of(ms.last(), no_normal)
    }
}

/// All indices, mesh after mesh, each shifted past the vertices of the
/// meshes before its own.
pub open spec fn merged_indices<T>(ms: Seq<Mesh<T>>) -> Seq<u32>
    decreases ms.len(),
{
    if ms.len() == 0 {
        Seq::empty()
    } else {
        merged_indices(ms.drop_last()) + offset(ms.last().indices@, vertex_count(ms.drop_last()) as int)
    }
}

/// Checks the layout of one mesh.
pub fn check_layout<T>(mesh: &Mesh<T>) -> (r: Result<(), MeshError>)
    ensures
        r is Ok <==> layout_error(*mesh) is None,
        r matches Err(e) ==> layout_error(*mesh) == Some(e),
{
    if mesh.positions.len() % 3 != 0 {
        Err(MeshError::PositionsNotTriples)
    } else if mesh.normals.len() % 3 != 0 {
        Err(MeshError::NormalsNotTriples)
    } else if mesh.indices.len() % 3 != 0 {
        Err(MeshError::IndicesNotTriangles)
    } else if mesh.normals.len() != 0 && mesh.normals.len() != mesh.positions.len() {
        Err(MeshError::NormalCountMismatch)
    } else {
        Ok(())
    }
}

/// Interleaves a well-laid-out mesh's positions and normals into vertices.
pub fn mesh_vertices<T: Copy>(mesh: &Mesh<T>, no_normal: (T, T, T)) -> (r: Vec<Vertex<T>>)
    requires
        layout_error(*mesh) is None,
    ensures
        r@ == vertices_of(*mesh, no_normal),
{
    let len: usize = mesh.positions.len();
    let n: usize = len / 3;
    let has_normals = mesh.normals.len() != 0;
    let mut out: Vec<Vertex<T>> = Vec::new();
    let mut i: usize = 0;
    while i < n
        invariant
            i <= n,
            len == mesh.positions@.len(),
            n == len / 3,
            layout_error(*mesh) is None,
            has_normals == (mesh.normals@.len() != 0),
            out@ == vertices_of(*mesh, no_normal).take(i as int),
        decreases n - i,
    {
        assert(3 * i + 2 < mesh.positions@.len()) by (nonlinear_arith)
            requires
                i < n,
                n == len / 3,
                len == mesh.positions@.len(),
        ;
        let b: usize = 3 * i;
        let position = (mesh.positions[b], mesh.positions[b + 1], mesh.positions[b + 2]);
        let normal = if has_normals {
            (mesh.normals[b], mesh.normals[b + 1], mesh.normals[b + 2])
        } else {
            no_normal
        };
        out.push(Vertex { position, normal });
        assert(out@ =~= vertices_of(*mesh, no_normal).take(i + 1));
        i += 1;
    }
    assert(out@ =~= vertices_of(*mesh, no_normal));
    out
}

/// Shifts every index by `base`, failing if one would leave `u32`.
pub fn offset_indices(indices: &Vec<u32>, base: usize) -> (r: Result<Vec<u32>, MeshError>)
    ensures
        r is Ok <==> fits(indices@, base as int),
        r matches Ok(v) ==> v@ == offset(indices@, base as int),
        r matches Err(e) ==> e == MeshError::IndexOverflow,
{
    let mut out: Vec<u32> = Vec::new();
    let mut k: usize = 0;
    while k < indices.len()
        invariant
            k <= indices@.len(),
            fits(indices@.take(k as int), base as int),
            out@ == offset(indices@.take(k as int), base as int),
        decreases indices@.len() - k,
    {
        let i = indices[k];
        if base > u32::MAX as usize || i > u32::MAX - base as u32 {
            assert(indices@[k as int] + base > u32::MAX);
            return Err(MeshError::IndexOverflow);
        }
        out.push(i + base as u32);
        assert(indices@.take(k + 1) =~= indices@.take(k as int).push(i));
        assert(out@ =~= offset(indices@.take(k + 1), base as int));
        k += 1;
    }
    assert(indices@.take(k as int) =~= indices@);
    Ok(out)
}

proof fn lemma_error_persists<T>(ms: Seq<Mesh<T>>, j: int)
    requires
        0 <= j <= ms.len(),
        merge_error(ms.take(j)) is Some,
    ensures
        merge_error(ms) == merge_error(ms.take(j)),
    decreases ms.len(),
{
    if j == ms.len() {
        assert(ms.take(j) =~= ms);
    } else {
        assert(ms.drop_last().take(j) =~= ms.take(j));
        lemma_error_persists(ms.drop_last(), j);
    }
}

/// Packs meshes into one vertex buffer and one index buffer, shifting each
/// mesh's indices past the vertices of the meshes before it.
pub fn merge_meshes<T: Copy>(meshes: &Vec<Mesh<T>>, no_normal: (T, T, T)) -> (r: Result<
    (Vec<Vertex<T>>, Vec<u32>),
    MeshError,
>)
    ensures
        r is Ok <==> merge_error(meshes@) is None,
        r matches Err(e) ==> merge_error(meshes@) == Some(e),
        r matches Ok((vs, is)) ==> vs@ == merged_vertices(meshes@, no_normal) && is@
            == merged_indices(meshes@),
{
    let mut vertices: Vec<Vertex<T>> = Vec::new();
    let mut indices: Vec<u32> = Vec::new();
    let mut k: usize = 0;
    while k < meshes.len()
        invariant
            k <= meshes@.len(),
            merge_error(meshes@.take(k as int)) is None,
            vertices@ == merged_vertices(meshes@.take(k as int), no_normal),
            indices@ == merged_indices(meshes@.take(k as int)),
            vertices@.len() == vertex_count(meshes@.take(k as int)),
        decreases meshes@.len() - k,
    {
        let mesh = &meshes[k];
        let ghost prefix = meshes@.take(k as int);
        let ghost next = meshes@.take(k + 1);
        assert(next.drop_last() =~= prefix);
        assert(next.last() == *mesh);
        if let Err(e) = check_layout(mesh) {
            proof {
                lemma_error_persists(meshes@, k + 1);
            }
            return Err(e);
        }
        let shifted = offset_indices(&mesh.indices, vertices.len());
        match shifted {
            Err(e) => {
                proof {
                    lemma_error_persists(meshes@, k + 1);
                }
                return Err(e);
            },
            Ok(mut new_indices) => {
                let mut new_vertices = mesh_vertices(mesh, no_normal);
                vertices.append(&mut new_vertices);
                indices.append(&mut new_indices);
            },
        }
        k += 1;
    }
    assert(meshes@.take(k as int) =~= meshes@);
    Ok((vertices, indices))
}

} // verus!
