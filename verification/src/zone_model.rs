//! The zone-model codec: the header that carries the collision grid's
//! dimensions and offsets, and the collision mesh reached through it.

use vstd::prelude::*;

use crate::byte_walker::{SliceByteWalker, spec_min};
use crate::collision_mesh::{m_grid, CollisionMesh, GridEntryModel};
use crate::error::DatError;
use crate::event_model::{m_u32, m_u8};
use crate::zone_data::{ChunkData, ZoneData};

verus! {

/// A decoded zone model: its header fields and its collision mesh.
#[derive(Debug, Clone, PartialEq, Eq)]
pub struct ZoneCollisionMesh {
    pub data_len: u32,
    pub len_and_type: u32,
    pub node_count_and_unk: u32,
    pub mesh_offset: u32,
    pub grid_width: u16,
    pub grid_height: u16,
    pub bucket_width: u8,
    pub bucket_height: u8,
    pub quadtree_offset: u32,
    pub objects_end_offset: u32,
    pub shortname_offset: u32,
    pub unknown_data: Vec<u8>,
    pub mesh_model_count: u32,
    pub mesh_model_data: u32,
    pub mesh_grid_bucket_lists_count: u32,
    pub mesh_grid_bucket_lists: u32,
    pub grid_offset: u32,
    pub map_id_list_offset: u32,
    pub map_id_list_count: u32,
    pub collision_mesh: CollisionMesh,
}

/// The model of a decoded zone model.
pub ghost struct ZoneModelModel {
    pub data_len: u32,
    pub len_and_type: u32,
    pub node_count_and_unk: u32,
    pub mesh_offset: u32,
    pub grid_width: u16,
    pub grid_height: u16,
    pub bucket_width: u8,
    pub bucket_height: u8,
    pub quadtree_offset: u32,
    pub objects_end_offset: u32,
    pub shortname_offset: u32,
    pub unknown_data: Seq<u8>,
    pub mesh_model_count: u32,
    pub mesh_model_data: u32,
    pub mesh_grid_bucket_lists_count: u32,
    pub mesh_grid_bucket_lists: u32,
    pub grid_offset: u32,
    pub map_id_list_offset: u32,
    pub map_id_list_count: u32,
    pub collision_mesh: Seq<GridEntryModel>,
}

impl View for ZoneCollisionMesh {
    type V = ZoneModelModel;

    open spec fn view(&self) -> ZoneModelModel {
        ZoneModelModel {
            data_len: self.data_len,
            len_and_type: self.len_and_type,
            node_count_and_unk: self.node_count_and_unk,
            mesh_offset: self.mesh_offset,
            grid_width: self.grid_width,
            grid_height: self.grid_height,
            bucket_width: self.bucket_width,
            bucket_height: self.bucket_height,
            quadtree_offset: self.quadtree_offset,
            objects_end_offset: self.objects_end_offset,
            shortname_offset: self.shortname_offset,
            unknown_data: self.unknown_data@,
            mesh_model_count: self.mesh_model_count,
            mesh_model_data: self.mesh_model_data,
            mesh_grid_bucket_lists_count: self.mesh_grid_bucket_lists_count,
            mesh_grid_bucket_lists: self.mesh_grid_bucket_lists,
            grid_offset: self.grid_offset,
            map_id_list_offset: self.map_id_list_offset,
            map_id_list_count: self.map_id_list_count,
            collision_mesh: self.collision_mesh@,
        }
    }
}

/// The zone-model header and mesh, decoded from position `p`: header
/// words, the grid's dimensions (each stored as tenths), the bytes up to
/// the mesh offset kept verbatim, seven mesh table words, then the
/// collision-mesh grid scan. A mesh offset at or past the end of the data,
/// or before its own header field, fails the decode.
#[verifier::opaque]
pub open spec fn m_zone_model(b: Seq<u8>, p: int) -> Result<ZoneModelModel, DatError> {
    let data_len = b.len() as u32;
    match m_u32(b, p) {
        Err(e) => Err(e),
        Ok(len_and_type) => match m_u32(b, p + 4) {
            Err(e) => Err(e),
            Ok(node_count_and_unk) => match m_u32(b, p + 8) {
                Err(e) => Err(e),
                Ok(mesh_offset) => if data_len <= mesh_offset || mesh_offset < p + 28 {
                    Err(DatError::InvalidMeshOffset { mesh_offset, data_len })
                } else {
                    match m_u8(b, p + 12) {
                        Err(e) => Err(e),
                        Ok(w_raw) => match m_u8(b, p + 13) {
                            Err(e) => Err(e),
                            Ok(h_raw) => match m_u8(b, p + 14) {
                                Err(e) => Err(e),
                                Ok(bucket_width) => match m_u8(b, p + 15) {
                                    Err(e) => Err(e),
                                    Ok(bucket_height) => match m_u32(b, p + 16) {
                                        Err(e) => Err(e),
                                        Ok(quadtree_offset) => match m_u32(b, p + 20) {
                                            Err(e) => Err(e),
                                            Ok(objects_end_offset) => match m_u32(b, p + 24) {
                                                Err(e) => Err(e),
                                                Ok(shortname_offset) => {
                                                    let grid_width = ((w_raw as int) * 10) as u16;
                                                    let grid_height = ((h_raw as int) * 10) as u16;
                                                    let q = spec_min(
                                                        mesh_offset as int,
                                                        b.len() as int,
                                                    );
                                                    let unknown_data = b.subrange(p + 28, q);
                                                    match m_u32(b, q) {
                                                        Err(e) => Err(e),
                                                        Ok(mesh_model_count) => match m_u32(
                                                            b,
                                                            q + 4,
                                                        ) {
                                                            Err(e) => Err(e),
                                                            Ok(mesh_model_data) => match m_u32(
                                                                b,
                                                                q + 8,
                                                            ) {
                                                                Err(e) => Err(e),
                                                                Ok(bucket_lists_count) => match m_u32(
                                                                    b,
                                                                    q + 12,
                                                                ) {
                                                                    Err(e) => Err(e),
                                                                    Ok(bucket_lists) => match m_u32(
                                                                        b,
                                                                        q + 16,
                                                                    ) {
                                                                        Err(e) => Err(e),
                                                                        Ok(grid_offset) => match m_u32(
                                                                            b,
                                                                            q + 20,
                                                                        ) {
                                                                            Err(e) => Err(e),
                                                                            Ok(map_id_list_offset) => match m_u32(
                                                                                b,
                                                                                q + 24,
                                                                            ) {
                                                                                Err(e) => Err(e),
                                                                                Ok(map_id_list_count) => match m_grid(
                                                                                    b,
                                                                                    grid_offset,
                                                                                    grid_width,
                                                                                    grid_height,
                                                                                    0,
                                                                                ) {
                                                                                    Err(e) => Err(e),
                                                                                    Ok(mesh) => Ok(
                                                                                        ZoneModelModel {
                                                                                            data_len,
                                                                                            len_and_type,
                                                                                            node_count_and_unk,
                                                                                            mesh_offset,
                                                                                            grid_width,
                                                                                            grid_height,
                                                                                            bucket_width,
                                                                                            bucket_height,
                                                                                            quadtree_offset,
                                                                                            objects_end_offset,
                                                                                            shortname_offset,
                                                                                            unknown_data,
                                                                                            mesh_model_count,
                                                                                            mesh_model_data,
                                                                                            mesh_grid_bucket_lists_count:
                                                                                                bucket_lists_count,
                                                                                            mesh_grid_bucket_lists:
                                                                                                bucket_lists,
                                                                                            grid_offset,
                                                                                            map_id_list_offset,
                                                                                            map_id_list_count,
                                                                                            collision_mesh: mesh,
                                                                                        },
                                                                                    ),
                                                                                },
                                                                            },
                                                                        },
                                                                    },
                                                                },
                                                            },
                                                        },
                                                    }
                                                },
                                            },
                                        },
                                    },
                                },
                            },
                        },
                    }
                },
            },
        },
    }
}

impl ZoneCollisionMesh {
    /// Decodes a zone model from the cursor's position.
    pub fn parse(walker: &mut SliceByteWalker) -> (r: Result<ZoneCollisionMesh, DatError>)
        requires
            old(walker).wf(),
        ensures
            final(walker).slice@ == old(walker).slice@,
            final(walker).wf(),
            match r {
                Ok(zm) => m_zone_model(old(walker).slice@, old(walker).offset as int) == Ok::<
                    ZoneModelModel,
                    DatError,
                >(zm@),
                Err(e) => m_zone_model(old(walker).slice@, old(walker).offset as int) == Err::<
                    ZoneModelModel,
                    DatError,
                >(e),
            },
    {
        proof {
            reveal(m_zone_model);
        }
        let ghost b = old(walker).slice@;
        let p = walker.offset();
        let data_len = walker.len() as u32;
        let len_and_type = match walker.step_u32() {
            Ok(v) => v,
            Err(e) => {
                return Err(e);
            },
        };
        let node_count_and_unk = match walker.step_u32() {
            Ok(v) => v,
            Err(e) => {
                return Err(e);
            },
        };
        let mesh_offset = match walker.step_u32() {
            Ok(v) => v,
            Err(e) => {
                return Err(e);
            },
        };
        if data_len <= mesh_offset || (mesh_offset as u128) < p as u128 + 28 {
            return Err(DatError::InvalidMeshOffset { mesh_offset, data_len });
        }
        let w_raw = match walker.step_u8() {
            Ok(v) => v,
            Err(e) => {
                return Err(e);
            },
        };
        let h_raw = match walker.step_u8() {
            Ok(v) => v,
            Err(e) => {
                return Err(e);
            },
        };
        let bucket_width = match walker.step_u8() {
            Ok(v) => v,
            Err(e) => {
                return Err(e);
            },
        };
        let bucket_height = match walker.step_u8() {
            Ok(v) => v,
            Err(e) => {
                return Err(e);
            },
        };
        let quadtree_offset = match walker.step_u32() {
            Ok(v) => v,
            Err(e) => {
                return Err(e);
            },
        };
        let objects_end_offset = match walker.step_u32() {
            Ok(v) => v,
            Err(e) => {
                return Err(e);
            },
        };
        let shortname_offset = match walker.step_u32() {
            Ok(v) => v,
            Err(e) => {
                return Err(e);
            },
        };
        let grid_width = w_raw as u16 * 10;
        let grid_height = h_raw as u16 * 10;
        let unknown_slice = walker.take_bytes(mesh_offset as usize - walker.offset());
        let unknown_data = vstd::slice::slice_to_vec(unknown_slice);
        let mesh_model_count = match walker.step_u32() {
            Ok(v) => v,
            Err(e) => {
                return Err(e);
            },
        };
        let mesh_model_data = match walker.step_u32() {
            Ok(v) => v,
            Err(e) => {
                return Err(e);
            },
        };
        let mesh_grid_bucket_lists_count = match walker.step_u32() {
            Ok(v) => v,
            Err(e) => {
                return Err(e);
            },
        };
        let mesh_grid_bucket_lists = match walker.step_u32() {
            Ok(v) => v,
            Err(e) => {
                return Err(e);
            },
        };
        let grid_offset = match walker.step_u32() {
            Ok(v) => v,
            Err(e) => {
                return Err(e);
            },
        };
        let map_id_list_offset = match walker.step_u32() {
            Ok(v) => v,
            Err(e) => {
                return Err(e);
            },
        };
        let map_id_list_count = match walker.step_u32() {
            Ok(v) => v,
            Err(e) => {
                return Err(e);
            },
        };
        let collision_mesh = match CollisionMesh::parse(
            walker,
            grid_offset,
            grid_height,
            grid_width,
        ) {
            Ok(m) => m,
            Err(e) => {
                return Err(e);
            },
        };
        Ok(
            ZoneCollisionMesh {
                data_len,
                len_and_type,
                node_count_and_unk,
                mesh_offset,
                grid_width,
                grid_height,
                bucket_width,
                bucket_height,
                quadtree_offset,
                objects_end_offset,
                shortname_offset,
                unknown_data,
                mesh_model_count,
                mesh_model_data,
                mesh_grid_bucket_lists_count,
                mesh_grid_bucket_lists,
                grid_offset,
                map_id_list_offset,
                map_id_list_count,
                collision_mesh,
            },
        )
    }
}

} // verus!

verus! {

impl ZoneCollisionMesh {
    /// Finds the zone model among a container's chunks: the first chunk
    /// whose payload decoded as one. Fails with a dedicated error when the
    /// container holds none.
    pub fn parse_from_zone_data(zone_data: &ZoneData) -> (r: Result<&ZoneCollisionMesh, DatError>)
        ensures
            match r {
                Ok(zm) => exists|i: int|
                    0 <= i < zone_data.chunks@.len() && ((#[trigger] zone_data.chunks@[i].data)
                        matches ChunkData::ZoneModel { zone_model } && *zm == zone_model),
                Err(e) => {
                    &&& e == DatError::NoZoneModel
                    &&& forall|i: int|
                        0 <= i < zone_data.chunks@.len() ==> !((
                        #[trigger] zone_data.chunks@[i].data) is ZoneModel)
                },
            },
    {
        let mut i: usize = 0;
        while i < zone_data.chunks.len()
            invariant
                i <= zone_data.chunks@.len(),
                forall|j: int|
                    0 <= j < i ==> !((#[trigger] zone_data.chunks@[j].data) is ZoneModel),
            decreases zone_data.chunks@.len() - i,
        {
            match &zone_data.chunks[i].data {
                ChunkData::ZoneModel { zone_model } => {
                    return Ok(zone_model);
                },
                _ => {},
            }
            i = i + 1;
        }
        Err(DatError::NoZoneModel)
    }
}

} // verus!
