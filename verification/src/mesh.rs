//! Assembling a renderable mesh from parsed model data.
//!
//! Reading a model file from disk happens outside this crate; what arrives
//! here is the flat arrays a wavefront-style loader produces for each model:
//! an index list and per-vertex positions, normals and texture coordinates.
//! Scalars are opaque 32-bit words, as in [`crate::vertex`].

use vstd::prelude::*;

use crate::vertex::VertexLayout;

verus! {

broadcast use vstd::seq_lib::group_seq_properties;

/// The flat arrays one parsed model hands over: `indices[j]` selects a
/// vertex, whose three position words sit at `positions[3 * idx ..]`, and,
/// when the arrays are not empty, whose normal and texture coordinate sit at
/// `normals[3 * idx ..]` and `texcoords[2 * idx ..]`.
#[derive(Clone, Debug)]
pub struct ModelMesh {
    pub indices: Vec<u32>,
    pub positions: Vec<u32>,
    pub normals: Vec<u32>,
    pub texcoords: Vec<u32>,
}

/// Why a mesh could not be assembled: a model carries normals or texture
/// coordinates that the chosen vertex kind has no slot for.
#[derive(Clone, Copy, Debug, PartialEq, Eq, Structural)]
pub enum MeshError {
    NormalParseError,
    TexcoordParseError,
}

/// A mesh ready for upload: one vertex per index slot, and the index buffer
/// that draws them in order.
#[derive(Debug)]
pub struct Mesh<T> {
    pub vertices: Vec<T>,
    pub indices: Vec<u16>,
}

/// Number of vertex slots contributed by the first `k` models.
pub open spec fn total_indices(models: Seq<ModelMesh>, k: int) -> int
    decreases k,
{
    if k <= 0 {
        0
    } else {
        total_indices(models, k - 1) + models[k - 1].indices@.len()
    }
}

proof fn lemma_total_indices_nonneg(models: Seq<ModelMesh>, k: int)
    ensures
        total_indices(models, k) >= 0,
    decreases k,
{
    if k > 0 {
        lemma_total_indices_nonneg(models, k - 1);
    }
}

proof fn lemma_total_indices_mono(models: Seq<ModelMesh>, a: int, b: int)
    requires
        0 <= a <= b,
    ensures
        total_indices(models, a) <= total_indices(models, b),
    decreases b,
{
    if a < b {
        lemma_total_indices_mono(models, a, b - 1);
    }
}

/// Whether the vertex slots a model asks for are missing from vertex kind
/// `T`. A model with no indices never gets a vertex built, so it can never
/// fail.
pub open spec fn model_fails<T: VertexLayout>(m: ModelMesh) -> bool {
    m.indices@.len() > 0 && ((m.normals@.len() > 0 && !T::spec_supports_normal()) || (
    m.texcoords@.len() > 0 && !T::spec_supports_uv()))
}

/// The error a failing model produces: the normal slot is tried first, the
/// texture coordinate slot second.
pub open spec fn model_error<T: VertexLayout>(m: ModelMesh) -> MeshError {
    if m.normals@.len() > 0 && !T::spec_supports_normal() {
        MeshError::NormalParseError
    } else {
        MeshError::TexcoordParseError
    }
}

/// What the vertex built for slot `j` of model `m` holds: the position words
/// selected by `m.indices[j]`, the matching normal and texture coordinate
/// when the model carries them, and zeros in every slot the model leaves
/// empty.
pub open spec fn slot_vertex_ok<T: VertexLayout>(v: T, m: ModelMesh, j: int) -> bool {
    let idx = m.indices@[j] as int;
    &&& v.spec_position() == seq![
        m.positions@[3 * idx],
        m.positions@[3 * idx + 1],
        m.positions@[3 * idx + 2],
    ]
    &&& v.spec_normal() == if m.normals@.len() > 0 {
        seq![m.normals@[3 * idx], m.normals@[3 * idx + 1], m.normals@[3 * idx + 2]]
    } else {
        seq![0u32, 0u32, 0u32]
    }
    &&& v.spec_uv() == if m.texcoords@.len() > 0 {
        seq![m.texcoords@[2 * idx], m.texcoords@[2 * idx + 1]]
    } else {
        seq![0u32, 0u32]
    }
}

/// The indexing a list of models must satisfy before vertices can be
/// gathered from it: every index selects position words that exist, likewise
/// for normals and texture coordinates where present, and each model fits a
/// 16-bit index buffer.
pub open spec fn models_wf(models: Seq<ModelMesh>) -> bool {
    &&& forall|k: int, j: int|
        0 <= k < models.len() && 0 <= j < models[k].indices@.len() ==> 3 * (
        models[k].indices@[j] as int) + 2 < models[k].positions@.len()
    &&& forall|k: int, j: int|
        0 <= k < models.len() && 0 <= j < models[k].indices@.len() && models[k].normals@.len() > 0
            ==> 3 * (models[k].indices@[j] as int) + 2 < models[k].normals@.len()
    &&& forall|k: int, j: int|
        0 <= k < models.len() && 0 <= j < models[k].indices@.len()
            && models[k].texcoords@.len() > 0 ==> 2 * (models[k].indices@[j] as int) + 1 < models[
            k].texcoords@.len()
    &&& forall|k: int| 0 <= k < models.len() ==> models[k].indices@.len() <= 0x10000
}

impl<T: VertexLayout> Mesh<T> {
    /// Gathers one vertex per index slot of every model, in model order, and
    /// numbers the slots of each model from zero in the index buffer. Fails
    /// on the first model that carries data the vertex kind has no slot for,
    /// leaving that model's error.
    pub fn from_models(models: &Vec<ModelMesh>) -> (r: Result<Mesh<T>, MeshError>)
        requires
            models_wf(models@),
        ensures
            (r is Ok) == (forall|k: int|
                0 <= k < models@.len() ==> !model_fails::<T>(models@[k])),
            r matches Err(e) ==> (exists|k: int|
                {
                    &&& 0 <= k < models@.len()
                    &&& #[trigger] model_fails::<T>(models@[k])
                    &&& forall|k2: int| 0 <= k2 < k ==> !model_fails::<T>(models@[k2])
                    &&& e == model_error::<T>(models@[k])
                }),
            r matches Ok(mesh) ==> {
                &&& mesh.vertices@.len() == total_indices(models@, models@.len() as int)
                &&& mesh.indices@.len() == mesh.vertices@.len()
                &&& forall|k: int, j: int|
                    0 <= k < models@.len() && 0 <= j < models@[k].indices@.len() ==> {
                        &&& #[trigger] mesh.indices@[total_indices(models@, k) + j] == j as u16
                        &&& slot_vertex_ok::<T>(
                            mesh.vertices@[total_indices(models@, k) + j],
                            models@[k],
                            j,
                        )
                    }
            },
    {
        let mut vertices: Vec<T> = Vec::new();
        let mut indices: Vec<u16> = Vec::new();
        let n = models.len();
        let mut k: usize = 0;
        while k < n
            invariant
                models_wf(models@),
                n == models@.len(),
                0 <= k <= n,
                vertices@.len() == total_indices(models@, k as int),
                indices@.len() == vertices@.len(),
                forall|k2: int| 0 <= k2 < k ==> !model_fails::<T>(models@[k2]),
                forall|k2: int, j2: int|
                    0 <= k2 < k && 0 <= j2 < models@[k2].indices@.len() ==> {
                        &&& #[trigger] indices@[total_indices(models@, k2) + j2] == j2 as u16
                        &&& slot_vertex_ok::<T>(
                            vertices@[total_indices(models@, k2) + j2],
                            models@[k2],
                            j2,
                        )
                    },
            decreases n - k,
        {
            let m = models[k].indices.len();
            let mut j: usize = 0;
            while j < m
                invariant
                    models_wf(models@),
                    n == models@.len(),
                    0 <= k < n,
                    m == models@[k as int].indices@.len(),
                    0 <= j <= m,
                    vertices@.len() == total_indices(models@, k as int) + j,
                    indices@.len() == vertices@.len(),
                    forall|k2: int| 0 <= k2 < k ==> !model_fails::<T>(models@[k2]),
                    j > 0 ==> !model_fails::<T>(models@[k as int]),
                    forall|k2: int, j2: int|
                        0 <= k2 < k && 0 <= j2 < models@[k2].indices@.len() ==> {
                            &&& #[trigger] indices@[total_indices(models@, k2) + j2] == j2 as u16
                            &&& slot_vertex_ok::<T>(
                                vertices@[total_indices(models@, k2) + j2],
                                models@[k2],
                                j2,
                            )
                        },
                    forall|j2: int|
                        0 <= j2 < j ==> {
                            &&& #[trigger] indices@[total_indices(models@, k as int) + j2]
                                == j2 as u16
                            &&& slot_vertex_ok::<T>(
                                vertices@[total_indices(models@, k as int) + j2],
                                models@[k as int],
                                j2,
                            )
                        },
                decreases m - j,
            {
                proof {
                    lemma_total_indices_nonneg(models@, k as int);
                }
                let model = &models[k];
                let mut vertex = T::new();

                let idx = model.indices[j] as usize;
                let plen = model.positions.len();

                proof {
                    assert(3 * (models@[k as int].indices@[j as int] as int) + 2 < models@[
                        k as int].positions@.len());
                    assert(3 * (idx as int) + 2 < plen);
                }
                let position: [u32; 3] = [
                    model.positions[3 * idx],
                    model.positions[3 * idx + 1],
                    model.positions[3 * idx + 2],
                ];
                vertex.add_position(position);
                proof {
                    assert(position@ =~= seq![
                        model.positions@[3 * (idx as int)],
                        model.positions@[3 * (idx as int) + 1],
                        model.positions@[3 * (idx as int) + 2],
                    ]);
                }

                if model.normals.len() > 0 {
                    proof {
                        assert(3 * (models@[k as int].indices@[j as int] as int) + 2 < models@[
                            k as int].normals@.len());
                    }
                    let normal: [u32; 3] = [
                        model.normals[3 * idx],
                        model.normals[3 * idx + 1],
                        model.normals[3 * idx + 2],
                    ];
                    let added = vertex.try_add_normal(normal);
                    if added.is_err() {
                        proof {
                            assert(model_fails::<T>(models@[k as int]));
                        }
                        return Err(MeshError::NormalParseError);
                    }
                    proof {
                        assert(normal@ =~= seq![
                            model.normals@[3 * (idx as int)],
                            model.normals@[3 * (idx as int) + 1],
                            model.normals@[3 * (idx as int) + 2],
                        ]);
                    }
                }

                if model.texcoords.len() > 0 {
                    proof {
                        assert(2 * (models@[k as int].indices@[j as int] as int) + 1 < models@[
                            k as int].texcoords@.len());
                    }
                    let uv: [u32; 2] = [model.texcoords[2 * idx], model.texcoords[2 * idx + 1]];
                    let added = vertex.try_add_uv(uv);
                    if added.is_err() {
                        proof {
                            assert(model_fails::<T>(models@[k as int]));
                            assert(model_error::<T>(models@[k as int])
                                == MeshError::TexcoordParseError);
                        }
                        return Err(MeshError::TexcoordParseError);
                    }
                    proof {
                        assert(uv@ =~= seq![
                            model.texcoords@[2 * (idx as int)],
                            model.texcoords@[2 * (idx as int) + 1],
                        ]);
                    }
                }

                proof {
                    assert(slot_vertex_ok::<T>(vertex, models@[k as int], j as int));
                }
                vertices.push(vertex);
                indices.push(j as u16);
                proof {
                    assert forall|k2: int, j2: int|
                        0 <= k2 < k && 0 <= j2 < models@[k2].indices@.len() implies {
                        &&& #[trigger] indices@[total_indices(models@, k2) + j2] == j2 as u16
                        &&& slot_vertex_ok::<T>(
                            vertices@[total_indices(models@, k2) + j2],
                            models@[k2],
                            j2,
                        )
                    } by {
                        lemma_total_indices_nonneg(models@, k2);
                        assert(total_indices(models@, k2 + 1) == total_indices(models@, k2)
                            + models@[k2].indices@.len());
                        lemma_total_indices_mono(models@, k2 + 1, k as int);
                        assert(total_indices(models@, k2) + j2 < total_indices(models@, k as int));
                        assert(indices@[total_indices(models@, k2) + j2] == j2 as u16);
                        assert(slot_vertex_ok::<T>(
                            vertices@[total_indices(models@, k2) + j2],
                            models@[k2],
                            j2,
                        ));
                    }
                    assert forall|j2: int| 0 <= j2 < j + 1 implies {
                        &&& #[trigger] indices@[total_indices(models@, k as int) + j2] == j2 as u16
                        &&& slot_vertex_ok::<T>(
                            vertices@[total_indices(models@, k as int) + j2],
                            models@[k as int],
                            j2,
                        )
                    } by {
                        lemma_total_indices_nonneg(models@, k as int);
                        assert(indices@[total_indices(models@, k as int) + j2] == j2 as u16);
                        assert(slot_vertex_ok::<T>(
                            vertices@[total_indices(models@, k as int) + j2],
                            models@[k as int],
                            j2,
                        ));
                    }
                }
                j = j + 1;
            }
            proof {
                assert(total_indices(models@, k as int + 1) == total_indices(models@, k as int)
                    + models@[k as int].indices@.len());
                assert forall|k2: int, j2: int|
                    0 <= k2 < k + 1 && 0 <= j2 < models@[k2].indices@.len() implies {
                    &&& #[trigger] indices@[total_indices(models@, k2) + j2] == j2 as u16
                    &&& slot_vertex_ok::<T>(
                        vertices@[total_indices(models@, k2) + j2],
                        models@[k2],
                        j2,
                    )
                } by {
                    assert(indices@[total_indices(models@, k2) + j2] == j2 as u16);
                    assert(slot_vertex_ok::<T>(
                        vertices@[total_indices(models@, k2) + j2],
                        models@[k2],
                        j2,
                    ));
                }
            }
            k = k + 1;
        }
        proof {
            assert(forall|k2: int| 0 <= k2 < models@.len() ==> !model_fails::<T>(models@[k2]));
        }
        Ok(Mesh { vertices, indices })
    }

    /// How many index-buffer entries a draw call should consume.
    pub fn num_indices(&self) -> (r: u32)
        requires
            self.indices@.len() <= u32::MAX,
        ensures
            r == self.indices@.len(),
    {
        self.indices.len() as u32
    }
}

} // verus!
