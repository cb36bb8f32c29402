//! Models: meshes with their materials, and how the flat attribute arrays
//! of a loaded mesh are regrouped into one record per vertex.
//!
//! The attribute values themselves are opaque to this module (they are
//! floating-point numbers in practice): it only moves them around.

use vstd::prelude::*;

verus! {

/// The attributes of one vertex of a loaded mesh.
#[derive(Clone, Copy, Debug)]
pub struct VertexAttributes<T> {
    pub position: [T; 3],
    pub tex_coords: [T; 2],
    pub normal: [T; 3],
}

/// The attributes of vertex `i`: positions and normals come three values
/// per vertex, texture coordinates two.
pub open spec fn vertex_attributes_at<T>(
    positions: Seq<T>,
    texcoords: Seq<T>,
    normals: Seq<T>,
    i: int,
    v: VertexAttributes<T>,
) -> bool {
    &&& v.position@ == seq![positions[3 * i], positions[3 * i + 1], positions[3 * i + 2]]
    &&& v.tex_coords@ == seq![texcoords[2 * i], texcoords[2 * i + 1]]
    &&& v.normal@ == seq![normals[3 * i], normals[3 * i + 1], normals[3 * i + 2]]
}

/// Vertex `i` takes its components straight from the flat arrays, in
/// order: component `k` of its position is `positions[3 * i + k]`, of its
/// normal `normals[3 * i + k]`, of its texture coordinates
/// `texcoords[2 * i + k]`.
pub proof fn lemma_vertex_components<T>(
    positions: Seq<T>,
    texcoords: Seq<T>,
    normals: Seq<T>,
    i: int,
    v: VertexAttributes<T>,
)
    requires
        vertex_attributes_at(positions, texcoords, normals, i, v),
    ensures
        forall|k: int| 0 <= k < 3 ==> #[trigger] v.position@[k] == positions[3 * i + k],
        forall|k: int| 0 <= k < 3 ==> #[trigger] v.normal@[k] == normals[3 * i + k],
        forall|k: int| 0 <= k < 2 ==> #[trigger] v.tex_coords@[k] == texcoords[2 * i + k],
{
    assert forall|k: int| 0 <= k < 3 implies #[trigger] v.position@[k] == positions[3 * i + k] by {
        if k == 1 {
            assert(v.position@[1] == positions[3 * i + 1]);
        } else if k == 2 {
            assert(v.position@[2] == positions[3 * i + 2]);
        }
    }
    assert forall|k: int| 0 <= k < 3 implies #[trigger] v.normal@[k] == normals[3 * i + k] by {
        if k == 1 {
            assert(v.normal@[1] == normals[3 * i + 1]);
        } else if k == 2 {
            assert(v.normal@[2] == normals[3 * i + 2]);
        }
    }
    assert forall|k: int| 0 <= k < 2 implies #[trigger] v.tex_coords@[k] == texcoords[2 * i + k] by {
        if k == 1 {
            assert(v.tex_coords@[1] == texcoords[2 * i + 1]);
        }
    }
}

/// Regroup the flat attribute arrays of a mesh into one record per vertex.
/// There is one vertex per three position values (a trailing one or two
/// are ignored); texture coordinates and normals must cover every vertex.
pub fn mesh_vertex_attributes<T: Copy>(positions: &[T], texcoords: &[T], normals: &[T]) -> (r: Vec<
    VertexAttributes<T>,
>)
    requires
        texcoords@.len() >= 2 * (positions@.len() / 3),
        normals@.len() >= 3 * (positions@.len() / 3),
    ensures
        r@.len() == positions@.len() / 3,
        forall|i: int|
            0 <= i < r@.len() ==> vertex_attributes_at(
                positions@,
                texcoords@,
                normals@,
                i,
                #[trigger] r@[i],
            ),
        forall|i: int, k: int|
            0 <= i < r@.len() && 0 <= k < 3 ==> #[trigger] r@[i].position@[k] == positions@[3 * i
                + k],
        forall|i: int, k: int|
            0 <= i < r@.len() && 0 <= k < 3 ==> #[trigger] r@[i].normal@[k] == normals@[3 * i + k],
        forall|i: int, k: int|
            0 <= i < r@.len() && 0 <= k < 2 ==> #[trigger] r@[i].tex_coords@[k] == texcoords@[2 * i
                + k],
{
    let n: usize = positions.len();
    let count: usize = n / 3;
    let mut r: Vec<VertexAttributes<T>> = Vec::new();
    let mut i: usize = 0;
    while i < count
        invariant
            n == positions@.len(),
            count == positions@.len() / 3,
            texcoords@.len() >= 2 * count,
            normals@.len() >= 3 * count,
            3 * count <= positions@.len(),
            i <= count,
            r@.len() == i,
            forall|k: int|
                0 <= k < i ==> vertex_attributes_at(
                    positions@,
                    texcoords@,
                    normals@,
                    k,
                    #[trigger] r@[k],
                ),
        decreases count - i,
    {
        let p = 3 * i;
        let t = 2 * i;
        let position: [T; 3] = [positions[p], positions[p + 1], positions[p + 2]];
        let tex_coords: [T; 2] = [texcoords[t], texcoords[t + 1]];
        let normal: [T; 3] = [normals[p], normals[p + 1], normals[p + 2]];
        let v = VertexAttributes { position, tex_coords, normal };
        proof {
            assert(v.position@ =~= seq![positions@[3 * i], positions@[3 * i + 1], positions@[3 * i + 2]]);
            assert(v.tex_coords@ =~= seq![texcoords@[2 * i], texcoords@[2 * i + 1]]);
            assert(v.normal@ =~= seq![normals@[3 * i], normals@[3 * i + 1], normals@[3 * i + 2]]);
        }
        r.push(v);
        i = i + 1;
    }
    proof {
        assert forall|i: int, k: int| 0 <= i < r@.len() && 0 <= k < 3 implies #[trigger] r@[i].position@[k]
            == positions@[3 * i + k] by {
            lemma_vertex_components(positions@, texcoords@, normals@, i, r@[i]);
        }
        assert forall|i: int, k: int| 0 <= i < r@.len() && 0 <= k < 3 implies #[trigger] r@[i].normal@[k]
            == normals@[3 * i + k] by {
            lemma_vertex_components(positions@, texcoords@, normals@, i, r@[i]);
        }
        assert forall|i: int, k: int| 0 <= i < r@.len() && 0 <= k < 2 implies #[trigger] r@[i].tex_coords@[k]
            == texcoords@[2 * i + k] by {
            lemma_vertex_components(positions@, texcoords@, normals@, i, r@[i]);
        }
    }
    r
}

/// A mesh: its vertices, the indices of its triangles and the material it
/// is drawn with.
pub struct Mesh<V> {
    pub name: String,
    pub vertices: Vec<V>,
    pub indices: Vec<u32>,
    pub num_elements: u32,
    pub material: usize,
}

impl<V> Mesh<V> {
    /// A mesh of the given vertices and indices. It has as many elements
    /// as indices (as a `u32`), and uses the given material, or the first
    /// one when none is given.
    pub fn new(name: String, vertices: Vec<V>, indices: Vec<u32>, material_id: Option<usize>) -> (r:
        Self)
        ensures
            r.name@ == name@,
            r.vertices@ == vertices@,
            r.indices@ == indices@,
            r.num_elements == indices@.len() as u32,
            r.material == match material_id {
                Some(m) => m,
                None => 0,
            },
    {
        let num_elements: u32 = #[verifier::truncate] (indices.len() as u32);
        let material: usize = match material_id {
            Some(m) => m,
            None => 0,
        };
        Mesh { name, vertices, indices, num_elements, material }
    }
}

/// A named material and its image.
pub struct Material<I> {
    pub name: String,
    pub image: I,
}

/// A model: its meshes and the materials they refer to.
pub struct Model<V, I> {
    pub meshes: Vec<Mesh<V>>,
    pub materials: Vec<Material<I>>,
}

} // verus!
