//! Gathering meshes into one vertex list.

use crate::scene::mesh::Mesh;
use crate::single::Single;
use vstd::prelude::*;

verus! {

/// The positions and indices of all meshes of a scene, one mesh after the
/// other, and whether they have changed since they were last used.
pub struct MeshData {
    positions: Vec<[Single; 3]>,
    indices: Vec<u32>,
    updated: bool,
}

/// Why a mesh could not be added.
#[derive(Clone, Copy, Debug, PartialEq, Eq, Structural)]
pub enum MeshDataError {
    /// The positions of a mesh without indices cannot all be numbered with 32
    /// bits.
    IndexOverflow,
}

/// The indices given to `count` positions that follow `start` earlier ones:
/// `start`, `start + 1`, and so on.
pub open spec fn spec_running_indices(start: nat, count: nat) -> Seq<u32> {
    Seq::new(count, |k: int| (start + k) as u32)
}

/// Whether the positions of a mesh that is added after `start` positions can
/// be numbered with 32 bits. A mesh with indices of its own always can.
pub open spec fn spec_fits(start: nat, mesh: Mesh) -> bool {
    mesh.indices is Some || mesh.positions@.len() == 0 || start + mesh.positions@.len() - 1
        <= u32::MAX
}

/// The indices that adding `mesh` after `start` positions appends: its own
/// if it has any, else the running numbers of its positions.
pub open spec fn spec_added_indices(start: nat, mesh: Mesh) -> Seq<u32> {
    match mesh.indices {
        Some(indices) => indices@,
        None => spec_running_indices(start, mesh.positions@.len()),
    }
}

impl MeshData {
    /// All positions, mesh after mesh.
    pub closed spec fn spec_positions(&self) -> Seq<[Single; 3]> {
        self.positions@
    }

    /// All indices, mesh after mesh.
    pub closed spec fn spec_indices(&self) -> Seq<u32> {
        self.indices@
    }

    /// Whether the data has changed since it was last used.
    pub closed spec fn spec_updated(&self) -> bool {
        self.updated
    }

    /// No positions, no indices, nothing to take up.
    pub fn new() -> (data: MeshData)
        ensures
            data.spec_positions() == Seq::<[Single; 3]>::empty(),
            data.spec_indices() == Seq::<u32>::empty(),
            !data.spec_updated(),
    {
        MeshData { positions: Vec::new(), indices: Vec::new(), updated: false }
    }

    /// Number of vertices that are drawn: the number of indices.
    pub fn vertex_count(&self) -> (count: usize)
        ensures
            count == self.spec_indices().len(),
    {
        self.indices.len()
    }

    /// Marks the data as taken up.
    pub fn set_used(&mut self)
        ensures
            !final(self).spec_updated(),
            final(self).spec_positions() == old(self).spec_positions(),
            final(self).spec_indices() == old(self).spec_indices(),
    {
        self.updated = false;
    }

    /// Whether the data has changed since it was last used.
    pub fn updated(&self) -> (updated: bool)
        ensures
            updated == self.spec_updated(),
    {
        self.updated
    }

    /// All positions, mesh after mesh.
    pub fn positions(&self) -> (positions: &Vec<[Single; 3]>)
        ensures
            positions@ == self.spec_positions(),
    {
        &self.positions
    }

    /// All indices, mesh after mesh.
    pub fn indices(&self) -> (indices: &Vec<u32>)
        ensures
            indices@ == self.spec_indices(),
    {
        &self.indices
    }

    /// Appends a mesh whose positions are given in world space. The
    /// positions are appended as they are. A mesh with indices has its
    /// indices appended as they are; the positions of a mesh without indices
    /// are numbered on from the number of positions there were.
    ///
    /// Fails with `IndexOverflow`, changing nothing, when those numbers do
    /// not fit in 32 bits.
    pub fn add_mesh(&mut self, mesh: &Mesh) -> (added: Result<(), MeshDataError>)
        ensures
            spec_fits(old(self).spec_positions().len(), *mesh) ==> {
                &&& added is Ok
                &&& final(self).spec_positions() == old(self).spec_positions()
                    + mesh.positions@
                &&& final(self).spec_indices() == old(self).spec_indices() + spec_added_indices(
                    old(self).spec_positions().len(),
                    *mesh,
                )
            },
            !spec_fits(old(self).spec_positions().len(), *mesh) ==> {
                &&& added == Err::<(), MeshDataError>(MeshDataError::IndexOverflow)
                &&& final(self).spec_positions() == old(self).spec_positions()
                &&& final(self).spec_indices() == old(self).spec_indices()
            },
            final(self).spec_updated() == old(self).spec_updated(),
    {
        let count: usize = mesh.positions.len();
        let start: usize = self.positions.len();
        match &mesh.indices {
            None => {
                if count > 0 && (start > 0xffff_ffff || count - 1 > 0xffff_ffff - start) {
                    return Err(MeshDataError::IndexOverflow);
                }
                let mut k: usize = 0;
                while k < count
                    invariant
                        k <= count,
                        count == mesh.positions@.len(),
                        start == old(self).positions@.len(),
                        count > 0 ==> start + count - 1 <= u32::MAX,
                        self.updated == old(self).updated,
                        self.positions@ == old(self).positions@ + mesh.positions@.subrange(
                            0,
                            k as int,
                        ),
                        self.indices@ == old(self).indices@ + spec_running_indices(
                            start as nat,
                            k as nat,
                        ),
                    decreases count - k,
                {
                    let position: [Single; 3] = mesh.positions[k];
                    self.positions.push(position);
                    self.indices.push((start + k) as u32);
                    proof {
                        assert(self.positions@ =~= old(self).positions@
                            + mesh.positions@.subrange(0, k + 1));
                        assert(self.indices@ =~= old(self).indices@ + spec_running_indices(
                            start as nat,
                            (k + 1) as nat,
                        ));
                    }
                    k = k + 1;
                }
                proof {
                    assert(mesh.positions@.subrange(0, count as int) =~= mesh.positions@);
                }
            },
            Some(indices) => {
                let mut k: usize = 0;
                while k < count
                    invariant
                        k <= count,
                        count == mesh.positions@.len(),
                        self.updated == old(self).updated,
                        self.indices@ == old(self).indices@,
                        self.positions@ == old(self).positions@ + mesh.positions@.subrange(
                            0,
                            k as int,
                        ),
                    decreases count - k,
                {
                    let position: [Single; 3] = mesh.positions[k];
                    self.positions.push(position);
                    proof {
                        assert(self.positions@ =~= old(self).positions@
                            + mesh.positions@.subrange(0, k + 1));
                    }
                    k = k + 1;
                }
                let index_count: usize = indices.len();
                let mut j: usize = 0;
                while j < index_count
                    invariant
                        j <= index_count,
                        index_count == indices@.len(),
                        self.updated == old(self).updated,
                        self.positions@ == old(self).positions@ + mesh.positions@.subrange(
                            0,
                            count as int,
                        ),
                        self.indices@ == old(self).indices@ + indices@.subrange(0, j as int),
                    decreases index_count - j,
                {
                    self.indices.push(indices[j]);
                    proof {
                        assert(self.indices@ =~= old(self).indices@ + indices@.subrange(0, j + 1));
                    }
                    j = j + 1;
                }
                proof {
                    assert(mesh.positions@.subrange(0, count as int) =~= mesh.positions@);
                    assert(indices@.subrange(0, index_count as int) =~= indices@);
                }
            },
        }
        Ok(())
    }

    /// Removes all positions and indices.
    pub fn clear(&mut self)
        ensures
            final(self).spec_positions() == Seq::<[Single; 3]>::empty(),
            final(self).spec_indices() == Seq::<u32>::empty(),
            final(self).spec_updated() == old(self).spec_updated(),
    {
        self.indices.clear();
        self.positions.clear();
    }
}

/// The positions of the first `count` meshes of `meshes`, mesh after mesh.
pub open spec fn spec_gathered_positions(meshes: Seq<Mesh>, count: nat) -> Seq<[Single; 3]>
    decreases count,
{
    if count == 0 {
        Seq::<[Single; 3]>::empty()
    } else {
        spec_gathered_positions(meshes, (count - 1) as nat) + meshes[count - 1].positions@
    }
}

/// The indices of the first `count` meshes of `meshes`, mesh after mesh, as
/// `add_mesh` appends them.
pub open spec fn spec_gathered_indices(meshes: Seq<Mesh>, count: nat) -> Seq<u32>
    decreases count,
{
    if count == 0 {
        Seq::<u32>::empty()
    } else {
        spec_gathered_indices(meshes, (count - 1) as nat) + spec_added_indices(
            spec_gathered_positions(meshes, (count - 1) as nat).len(),
            meshes[count - 1],
        )
    }
}

/// Whether each of the first `count` meshes of `meshes` can be added after
/// the ones before it.
pub open spec fn spec_all_fit(meshes: Seq<Mesh>, count: nat) -> bool
    decreases count,
{
    count == 0 || (spec_all_fit(meshes, (count - 1) as nat) && spec_fits(
        spec_gathered_positions(meshes, (count - 1) as nat).len(),
        meshes[count - 1],
    ))
}

/// Gathers the scene's meshes anew when any of them has moved: empties
/// `mesh_data`, adds every mesh of `meshes` in order, and marks the data as
/// updated. When none has moved, nothing changes.
///
/// Fails with `IndexOverflow` at the first mesh that cannot be added; the
/// data then holds the meshes before it and is not marked as updated.
pub fn build_mesh_data(mesh_data: &mut MeshData, any_changed: bool, meshes: &Vec<Mesh>) -> (built:
    Result<(), MeshDataError>)
    ensures
        !any_changed ==> {
            &&& built is Ok
            &&& final(mesh_data).spec_positions() == old(mesh_data).spec_positions()
            &&& final(mesh_data).spec_indices() == old(mesh_data).spec_indices()
            &&& final(mesh_data).spec_updated() == old(mesh_data).spec_updated()
        },
        any_changed && spec_all_fit(meshes@, meshes@.len()) ==> {
            &&& built is Ok
            &&& final(mesh_data).spec_positions() == spec_gathered_positions(
                meshes@,
                meshes@.len(),
            )
            &&& final(mesh_data).spec_indices() == spec_gathered_indices(meshes@, meshes@.len())
            &&& final(mesh_data).spec_updated()
        },
        any_changed && !spec_all_fit(meshes@, meshes@.len()) ==> {
            &&& built == Err::<(), MeshDataError>(MeshDataError::IndexOverflow)
            &&& final(mesh_data).spec_updated() == old(mesh_data).spec_updated()
            &&& exists|first: int|
                {
                    &&& 0 <= first < meshes@.len()
                    &&& #[trigger] spec_all_fit(meshes@, first as nat)
                    &&& !spec_all_fit(meshes@, (first + 1) as nat)
                    &&& final(mesh_data).spec_positions() == spec_gathered_positions(
                        meshes@,
                        first as nat,
                    )
                    &&& final(mesh_data).spec_indices() == spec_gathered_indices(
                        meshes@,
                        first as nat,
                    )
                }
        },
{
    if !any_changed {
        return Ok(());
    }
    mesh_data.clear();
    let mut i: usize = 0;
    while i < meshes.len()
        invariant
            any_changed,
            i <= meshes@.len(),
            spec_all_fit(meshes@, i as nat),
            mesh_data.spec_positions() == spec_gathered_positions(meshes@, i as nat),
            mesh_data.spec_indices() == spec_gathered_indices(meshes@, i as nat),
            mesh_data.spec_updated() == old(mesh_data).spec_updated(),
        decreases meshes@.len() - i,
    {
        match mesh_data.add_mesh(&meshes[i]) {
            Ok(()) => {},
            Err(error) => {
                proof {
                    if spec_all_fit(meshes@, meshes@.len()) {
                        lemma_all_fit_is_prefix_closed(meshes@, (i + 1) as nat, meshes@.len());
                    }
                    assert(spec_all_fit(meshes@, i as nat));
                    assert(!spec_all_fit(meshes@, (i + 1) as nat));
                }
                return Err(error);
            },
        }
        i = i + 1;
    }
    mesh_data.updated = true;
    Ok(())
}

/// If all of the first `longer` meshes fit, so do all of the first
/// `shorter`.
pub proof fn lemma_all_fit_is_prefix_closed(meshes: Seq<Mesh>, shorter: nat, longer: nat)
    requires
        shorter <= longer,
        spec_all_fit(meshes, longer),
    ensures
        spec_all_fit(meshes, shorter),
    decreases longer,
{
    if shorter < longer {
        lemma_all_fit_is_prefix_closed(meshes, shorter, (longer - 1) as nat);
    }
}

} // verus!
