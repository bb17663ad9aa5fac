//! Growing grass on the ground regions of a loaded scene.

use crate::buffers::GrassInstanceMaterialData;
use crate::draw::MeshHandle;
use crate::ground::GroundSurface;
use crate::instancing::{field_blades, generate, GrassInstanceData};
use crate::placement::{decode, decoded, DecodeError, PlacementRecord};
use vstd::prelude::*;

verus! {

/// Whether `word` occurs in `text` as a run of consecutive characters.
pub open spec fn has_infix(text: Seq<char>, word: Seq<char>) -> bool {
    exists|i: int|
        0 <= i <= text.len() - word.len() && #[trigger] text.subrange(i, i + word.len()) == word
}

/// Whether `word` occurs in `text`.
///
/// Trusted: calls `str::contains` with a string pattern, which std
/// documents as true exactly when the pattern matches a sub-slice of the
/// string.
#[verifier::external_body]
fn text_contains(text: &str, word: &str) -> (found: bool)
    ensures
        found == has_infix(text@, word@),
{
    text.contains(word)
}

/// Whether a scene object of this name is a ground region: its name
/// holds the word `Ground`.
pub fn is_ground(name: &str) -> (yes: bool)
    ensures
        yes == has_infix(name@, "Ground"@),
{
    text_contains(name, "Ground")
}

/// A scene object that may carry grass.
pub struct SceneNode {
    pub name: String,
    /// The mesh of the object's mesh child, if it has such a child.
    pub child_mesh: Option<MeshHandle>,
    /// Where the object stands and what its mesh looks like.
    pub surface: GroundSurface,
}

/// The grass of one ground region: the blade mesh that all batches share
/// and the instances that this batch alone owns.
///
/// A batch is made whole and stays as it is. When the ground or the map is
/// loaded again, [`GrassBatch::regenerate`] replaces all of its instances.
pub struct GrassBatch {
    ground: usize,
    mesh: MeshHandle,
    instances: GrassInstanceMaterialData,
}

/// The blades of a placement map on a ground region, the grid scaled to the
/// region's bounding box.
pub open spec fn blades_on(
    records: Seq<PlacementRecord>,
    surface: GroundSurface,
    seed: u64,
) -> Seq<GrassInstanceData> {
    field_blades(
        records,
        surface.translation,
        surface.positions(),
        GroundSurface::axis_scale(surface.bounding_box.half_x) as u32,
        GroundSurface::axis_scale(surface.bounding_box.half_z) as u32,
        seed,
    )
}

impl GrassBatch {
    /// The ground region's place among the scene's nodes.
    pub closed spec fn ground_index(&self) -> usize {
        self.ground
    }

    /// The blade mesh.
    pub closed spec fn blade_mesh(&self) -> MeshHandle {
        self.mesh
    }

    /// The batch's instances, in the order they were generated.
    pub closed spec fn blades(&self) -> Seq<GrassInstanceData> {
        self.instances@
    }

    /// Grows the batch of ground region `ground` from a placement map.
    pub fn grow(
        ground: usize,
        mesh: MeshHandle,
        records: &Vec<PlacementRecord>,
        surface: &GroundSurface,
        seed: u64,
    ) -> (batch: GrassBatch)
        ensures
            batch.ground_index() == ground,
            batch.blade_mesh() == mesh,
            batch.blades() == blades_on(records@, *surface, seed),
    {
        let scale = surface.grid_scale();
        let instances = generate(records, surface, scale.0, scale.1, seed);
        GrassBatch { ground, mesh, instances: GrassInstanceMaterialData(instances) }
    }

    /// Grows the batch anew after the ground or the map was loaded again.
    /// Nothing of the old instances stays.
    pub fn regenerate(
        &mut self,
        records: &Vec<PlacementRecord>,
        surface: &GroundSurface,
        seed: u64,
    )
        ensures
            final(self).ground_index() == old(self).ground_index(),
            final(self).blade_mesh() == old(self).blade_mesh(),
            final(self).blades() == blades_on(records@, *surface, seed),
    {
        let scale = surface.grid_scale();
        let instances = generate(records, surface, scale.0, scale.1, seed);
        self.instances = GrassInstanceMaterialData(instances);
    }

    /// The ground region's place among the scene's nodes.
    pub fn ground(&self) -> (index: usize)
        ensures
            index == self.ground_index(),
    {
        self.ground
    }

    /// The blade mesh.
    pub fn mesh(&self) -> (mesh: MeshHandle)
        ensures
            mesh == self.blade_mesh(),
    {
        self.mesh
    }

    /// The batch's instances.
    pub fn instances(&self) -> (instances: &GrassInstanceMaterialData)
        ensures
            instances@ == self.blades(),
    {
        &self.instances
    }

    /// Gives up the batch for its instances.
    pub fn into_instances(self) -> (instances: GrassInstanceMaterialData)
        ensures
            instances@ == self.blades(),
    {
        self.instances
    }
}

/// What a load event did for one scene node.
pub enum GroundOutcome {
    /// The node is no ground region.
    NotGround,
    /// The ground region has no mesh child: it is passed over.
    MissingGroundMesh,
    /// The ground region's mesh is not the one that finished loading.
    Waiting,
    /// The ground region got its grass.
    Grown(GrassBatch),
}

/// Whether `outcome` is what a load event owes node `index`.
///
/// A ground region whose mesh child holds the mesh that finished loading
/// gets a batch with the blades of the whole placement map, scaled to the
/// region's bounding box.
pub open spec fn outcome_for(
    outcome: GroundOutcome,
    node: SceneNode,
    index: int,
    created: MeshHandle,
    records: Seq<PlacementRecord>,
    blade_mesh: MeshHandle,
    seed: u64,
) -> bool {
    if !has_infix(node.name@, "Ground"@) {
        outcome is NotGround
    } else {
        match node.child_mesh {
            None => outcome is MissingGroundMesh,
            Some(mesh) => if mesh != created {
                outcome is Waiting
            } else {
                &&& outcome matches GroundOutcome::Grown(batch)
                &&& batch.ground_index() == index
                &&& batch.blade_mesh() == blade_mesh
                &&& batch.blades() == blades_on(records, node.surface, seed)
            },
        }
    }
}

fn grow_on(
    node: &SceneNode,
    index: usize,
    created: MeshHandle,
    records: &Vec<PlacementRecord>,
    blade_mesh: MeshHandle,
    seed: u64,
) -> (outcome: GroundOutcome)
    ensures
        outcome_for(outcome, *node, index as int, created, records@, blade_mesh, seed),
{
    if !is_ground(node.name.as_str()) {
        return GroundOutcome::NotGround;
    }
    match node.child_mesh {
        None => GroundOutcome::MissingGroundMesh,
        Some(mesh) => {
            if mesh != created {
                GroundOutcome::Waiting
            } else {
                GroundOutcome::Grown(
                    GrassBatch::grow(index, blade_mesh, records, &node.surface, seed),
                )
            }
        },
    }
}

/// Answers the event that mesh `created` finished loading: decodes the
/// placement map and grows a batch on every ground region whose mesh child
/// holds that mesh.
///
/// A map that does not decode abandons the load: the error comes back and
/// no batch is made. Otherwise every node gets its outcome, node by node.
pub fn create_grass(
    created: MeshHandle,
    nodes: &Vec<SceneNode>,
    placement_map: &[u8],
    blade_mesh: MeshHandle,
    seed: u64,
) -> (result: Result<Vec<GroundOutcome>, DecodeError>)
    ensures
        match decoded(placement_map@) {
            Err(e) => result == Err::<Vec<GroundOutcome>, DecodeError>(e),
            Ok(records) => {
                &&& result matches Ok(outcomes)
                &&& outcomes@.len() == nodes@.len()
                &&& forall|i: int|
                    0 <= i < nodes@.len() ==> outcome_for(
                        #[trigger] outcomes@[i],
                        nodes@[i],
                        i,
                        created,
                        records,
                        blade_mesh,
                        seed,
                    )
            },
        },
{
    let records = match decode(placement_map) {
        Ok(records) => records,
        Err(e) => {
            return Err(e);
        },
    };
    let mut outcomes: Vec<GroundOutcome> = Vec::new();
    let n: usize = nodes.len();
    let mut i: usize = 0;
    while i < n
        invariant
            n == nodes@.len(),
            i <= n,
            outcomes@.len() == i,
            forall|k: int|
                0 <= k < i ==> outcome_for(
                    #[trigger] outcomes@[k],
                    nodes@[k],
                    k,
                    created,
                    records@,
                    blade_mesh,
                    seed,
                ),
        decreases n - i,
    {
        outcomes.push(grow_on(&nodes[i], i, created, &records, blade_mesh, seed));
        i += 1;
    }
    Ok(outcomes)
}

} // verus!
