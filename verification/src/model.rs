//! Model aggregation: meshes, materials, and material resolution.
//!
//! A loaded model is an ordered sequence of meshes over an ordered sequence
//! of materials, keyed by index. Source data may omit a mesh's material id
//! or supply no materials at all; assembly normalizes both explicitly, so
//! that every mesh's material index resolves within bounds: a model whose
//! source supplies no materials receives a single fallback entry named
//! `no_material`, an absent id defaults to the first entry, and an id beyond
//! the material sequence is clamped to the first entry rather than left to
//! index out of bounds at draw time.

use vstd::prelude::*;
use vstd::string::StringExecFns;

verus! {

/// One material of a model: a name keying the texture and binding handle
/// the caller pairs with it.
#[derive(Debug)]
pub struct MaterialDesc {
    pub name: String,
}

/// One mesh of an assembled model, its material index already resolved.
#[derive(Debug)]
pub struct MeshDesc {
    pub name: String,
    /// How many indexed elements the mesh's index buffer holds.
    pub num_elements: u32,
    /// Index into the owning model's material sequence; always in bounds.
    pub material: usize,
}

/// One mesh as the source data delivers it, before normalization: its
/// material id may be absent.
#[derive(Debug)]
pub struct MeshSource {
    pub name: String,
    pub num_elements: u32,
    pub material_id: Option<usize>,
}

/// An assembled model.
#[derive(Debug)]
pub struct ModelDesc {
    pub meshes: Vec<MeshDesc>,
    pub materials: Vec<MaterialDesc>,
}

/// The material index a source id resolves to against `n_materials`
/// entries: absent and out-of-bounds ids both fall back to the first entry.
pub open spec fn resolve_id(id: Option<usize>, n_materials: int) -> int {
    match id {
        Option::None => 0,
        Option::Some(i) => if i < n_materials {
            i as int
        } else {
            0
        },
    }
}

impl ModelDesc {
    /// Every mesh's material index resolves within the material sequence.
    pub open spec fn wf(self) -> bool {
        forall|i: int|
            0 <= i < self.meshes@.len() ==> (#[trigger] self.meshes@[i]).material
                < self.materials@.len()
    }

    /// Assemble a model from source meshes and materials, normalizing
    /// material references: when the source supplies no materials a single
    /// fallback entry named `no_material` is inserted, absent mesh material
    /// ids default to the first entry, and out-of-bounds ids are clamped to
    /// the first entry.
    pub fn assemble(sources: Vec<MeshSource>, materials: Vec<MaterialDesc>) -> (m: ModelDesc)
        ensures
            m.wf(),
            materials@.len() == 0 ==> m.materials@.len() == 1 && m.materials@[0].name@
                == "no_material"@,
            materials@.len() > 0 ==> m.materials@ == materials@,
            m.materials@.len() > 0,
            m.meshes@.len() == sources@.len(),
            forall|i: int|
                0 <= i < sources@.len() ==> (#[trigger] m.meshes@[i]).name == sources@[i].name
                    && m.meshes@[i].material == resolve_id(
                    sources@[i].material_id,
                    m.materials@.len() as int,
                ) && m.meshes@[i].num_elements == sources@[i].num_elements,
    {
        let mut materials = materials;
        if materials.len() == 0 {
            materials.push(MaterialDesc { name: String::from_str("no_material") });
        }
        let n_materials = materials.len();
        let ghost sources0 = sources@;
        let mut sources = sources;
        let mut meshes: Vec<MeshDesc> = Vec::new();
        while sources.len() > 0
            invariant
                n_materials == materials@.len(),
                n_materials > 0,
                meshes@.len() + sources@.len() == sources0.len(),
                sources@ == sources0.skip(meshes@.len() as int),
                forall|i: int|
                    0 <= i < meshes@.len() ==> (#[trigger] meshes@[i]).name == sources0[i].name
                        && meshes@[i].material == resolve_id(
                        sources0[i].material_id,
                        n_materials as int,
                    ) && meshes@[i].num_elements == sources0[i].num_elements,
            decreases sources@.len(),
        {
            let ghost k = meshes@.len() as int;
            let src = sources.remove(0);
            proof {
                assert(src == sources0[k]);
                assert(sources@ =~= sources0.skip(k + 1));
            }
            let material: usize = match src.material_id {
                Option::None => 0,
                Option::Some(id) => if id < n_materials {
                    id
                } else {
                    0
                },
            };
            meshes.push(
                MeshDesc { name: src.name, num_elements: src.num_elements, material },
            );
        }
        ModelDesc { meshes, materials }
    }

    /// The material index the mesh at `mesh_index` draws with; always a
    /// valid index into the material sequence.
    pub fn resolved_material(&self, mesh_index: usize) -> (idx: usize)
        requires
            self.wf(),
            mesh_index < self.meshes@.len(),
        ensures
            idx == self.meshes@[mesh_index as int].material,
            idx < self.materials@.len(),
    {
        self.meshes[mesh_index].material
    }
}

/// Material resolution never indexes out of bounds: in a well-formed model
/// every mesh's material index lies within the material sequence.
pub proof fn lemma_materials_in_bounds(m: ModelDesc, i: int)
    requires
        m.wf(),
        0 <= i < m.meshes@.len(),
    ensures
        m.meshes@[i].material < m.materials@.len(),
{
}

} // verus!
