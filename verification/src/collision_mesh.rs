//! The collision-mesh codec: a sparse two-dimensional grid of mesh
//! entries, each with a transform matrix, vertex and normal arrays whose
//! counts are derived from offset deltas, and indexed triangles.
//!
//! Floating-point values never enter this crate: every 32-bit float field
//! is carried as its raw IEEE-754 bit pattern (`u32`). A normal's
//! stored `y` has its sign bit flipped, which is exactly float negation;
//! the matrix transform of vertices and the determinant's sign are left to
//! the caller, who applies the winding correction through
//! [`CollisionMesh::winding_corrected`].

use vstd::prelude::*;

use crate::byte_walker::{u16_of, u32_of, SliceByteWalker};
use crate::error::DatError;
use crate::event_model::{m_u16, m_u32};

verus! {

/// A 3D point as three raw 32-bit float bit patterns.
#[derive(Debug, Clone, Copy, PartialEq, Eq, Structural)]
pub struct Point3D {
    pub x: u32,
    pub y: u32,
    pub z: u32,
}

/// One triangle: three vertex indices and a normal index, each masked to
/// 14 bits.
#[derive(Debug, Clone, Copy, PartialEq, Eq, Structural)]
pub struct TriangleInfo {
    pub vertex1_idx: u32,
    pub vertex2_idx: u32,
    pub vertex3_idx: u32,
    pub normal_idx: u32,
}

/// A decoded collision mesh: its non-empty grid cells, in row-major order.
#[derive(Debug, Clone, PartialEq, Eq)]
pub struct CollisionMesh {
    pub grid_entries: Vec<GridMeshEntry>,
}

/// One non-empty grid cell: an opaque info word and its mesh entries.
#[derive(Debug, Clone, PartialEq, Eq)]
pub struct GridMeshEntry {
    pub info_entry: u32,
    pub mesh_entries: Vec<MeshEntry>,
}

/// One mesh entry: its flags, its 4x4 transform matrix in row-major order
/// (sixteen raw float words), raw untransformed vertices, normals with the
/// `y` sign bit flipped, and triangles in stored order.
#[derive(Debug, Clone, PartialEq, Eq)]
pub struct MeshEntry {
    pub flags: u16,
    pub matrix: Vec<u32>,
    pub vertices: Vec<Point3D>,
    pub normals: Vec<Point3D>,
    pub triangles: Vec<TriangleInfo>,
}

/// The model of one mesh entry.
pub ghost struct MeshEntryModel {
    pub flags: u16,
    pub matrix: Seq<u32>,
    pub vertices: Seq<Point3D>,
    pub normals: Seq<Point3D>,
    pub triangles: Seq<TriangleInfo>,
}

/// The model of one grid cell.
pub ghost struct GridEntryModel {
    pub info_entry: u32,
    pub mesh_entries: Seq<MeshEntryModel>,
}

impl View for MeshEntry {
    type V = MeshEntryModel;

    open spec fn view(&self) -> MeshEntryModel {
        MeshEntryModel {
            flags: self.flags,
            matrix: self.matrix@,
            vertices: self.vertices@,
            normals: self.normals@,
            triangles: self.triangles@,
        }
    }
}

impl View for GridMeshEntry {
    type V = GridEntryModel;

    open spec fn view(&self) -> GridEntryModel {
        GridEntryModel {
            info_entry: self.info_entry,
            mesh_entries: self.mesh_entries@.map_values(|m: MeshEntry| m@),
        }
    }
}

impl View for CollisionMesh {
    type V = Seq<GridEntryModel>;

    open spec fn view(&self) -> Seq<GridEntryModel> {
        self.grid_entries@.map_values(|g: GridMeshEntry| g@)
    }
}

// ---------------------------------------------------------------------
// The parser, as spec functions
// ---------------------------------------------------------------------

/// Reads `n` consecutive 32-bit words starting at `p` — the matrix read.
pub open spec fn m_words(b: Seq<u8>, p: int, n: int) -> Result<Seq<u32>, DatError>
    decreases n,
{
    if n <= 0 {
        Ok(Seq::empty())
    } else {
        match m_u32(b, p) {
            Err(e) => Err(e),
            Ok(v) => match m_words(b, p + 4, n - 1) {
                Err(e) => Err(e),
                Ok(vs) => Ok(seq![v] + vs),
            },
        }
    }
}

/// Reads `n` raw points of three 32-bit words each, starting at `p`.
pub open spec fn m_points(b: Seq<u8>, p: int, n: int) -> Result<Seq<Point3D>, DatError>
    decreases n,
{
    if n <= 0 {
        Ok(Seq::empty())
    } else {
        match m_u32(b, p) {
            Err(e) => Err(e),
            Ok(x) => match m_u32(b, p + 4) {
                Err(e) => Err(e),
                Ok(y) => match m_u32(b, p + 8) {
                    Err(e) => Err(e),
                    Ok(z) => match m_points(b, p + 12, n - 1) {
                        Err(e) => Err(e),
                        Ok(vs) => Ok(seq![Point3D { x, y, z }] + vs),
                    },
                },
            },
        }
    }
}

/// A raw point with the sign bit of its `y` word flipped: exactly IEEE-754
/// negation of the `y` component.
pub open spec fn flip_y(p: Point3D) -> Point3D {
    Point3D { x: p.x, y: p.y ^ 0x80000000, z: p.z }
}

/// Reads `n` triangles of four 16-bit indices each, masking every index to
/// 14 bits.
pub open spec fn m_tris(b: Seq<u8>, p: int, n: int) -> Result<Seq<TriangleInfo>, DatError>
    decreases n,
{
    if n <= 0 {
        Ok(Seq::empty())
    } else {
        match m_u16(b, p) {
            Err(e) => Err(e),
            Ok(v1) => match m_u16(b, p + 2) {
                Err(e) => Err(e),
                Ok(v2) => match m_u16(b, p + 4) {
                    Err(e) => Err(e),
                    Ok(v3) => match m_u16(b, p + 6) {
                        Err(e) => Err(e),
                        Ok(n4) => match m_tris(b, p + 8, n - 1) {
                            Err(e) => Err(e),
                            Ok(vs) => Ok(
                                seq![
                                    TriangleInfo {
                                        vertex1_idx: (v1 % 0x4000) as u32,
                                        vertex2_idx: (v2 % 0x4000) as u32,
                                        vertex3_idx: (v3 % 0x4000) as u32,
                                        normal_idx: (n4 % 0x4000) as u32,
                                    },
                                ] + vs,
                            ),
                        },
                    },
                },
            },
        }
    }
}

/// One mesh entry: the matrix at the visual offset; at the geometry
/// offset, three array offsets, a triangle count and flags; vertex and
/// normal counts are derived from the offset deltas divided by the
/// twelve-byte point size, and both deltas must divide evenly — a mismatch
/// is a data-corruption signal and fails the decode.
#[verifier::opaque]
pub open spec fn m_mesh_entry(b: Seq<u8>, vis: u32, geo: u32) -> Result<MeshEntryModel, DatError> {
    match m_words(b, vis as int, 16) {
        Err(e) => Err(e),
        Ok(matrix) => match m_u32(b, geo as int) {
            Err(e) => Err(e),
            Ok(vertex_offset) => match m_u32(b, geo + 4) {
                Err(e) => Err(e),
                Ok(normal_offset) => match m_u32(b, geo + 8) {
                    Err(e) => Err(e),
                    Ok(triangle_offset) => match m_u16(b, geo + 12) {
                        Err(e) => Err(e),
                        Ok(triangle_count) => match m_u16(b, geo + 14) {
                            Err(e) => Err(e),
                            Ok(flags) => if vertex_offset > normal_offset || (normal_offset
                                - vertex_offset) % 12 != 0 {
                                Err(
                                    DatError::InvalidGeometryOffsets {
                                        first: vertex_offset,
                                        second: normal_offset,
                                    },
                                )
                            } else if normal_offset > triangle_offset || (triangle_offset
                                - normal_offset) % 12 != 0 {
                                Err(
                                    DatError::InvalidGeometryOffsets {
                                        first: normal_offset,
                                        second: triangle_offset,
                                    },
                                )
                            } else {
                                let vertex_count = (normal_offset - vertex_offset) / 12;
                                let normal_count = (triangle_offset - normal_offset) / 12;
                                match m_points(b, vertex_offset as int, vertex_count) {
                                    Err(e) => Err(e),
                                    Ok(vertices) => match m_points(
                                        b,
                                        normal_offset as int,
                                        normal_count,
                                    ) {
                                        Err(e) => Err(e),
                                        Ok(raw_normals) => match m_tris(
                                            b,
                                            triangle_offset as int,
                                            triangle_count as int,
                                        ) {
                                            Err(e) => Err(e),
                                            Ok(triangles) => Ok(
                                                MeshEntryModel {
                                                    flags,
                                                    matrix,
                                                    vertices,
                                                    normals: raw_normals.map_values(
                                                        |p: Point3D| flip_y(p),
                                                    ),
                                                    triangles,
                                                },
                                            ),
                                        },
                                    },
                                }
                            },
                        },
                    },
                },
            },
        },
    }
}

/// The visual/geometry offset pairs of one grid cell: pairs are read until
/// either member is zero.
pub open spec fn m_entry_offsets(b: Seq<u8>, p: int) -> Result<(Seq<(u32, u32)>, int), DatError>
    decreases crate::zone_data::dist0(p, b.len() as int),
{
    match m_u32(b, p) {
        Err(e) => Err(e),
        Ok(vis) => if vis == 0 {
            Ok((Seq::empty(), p + 4))
        } else {
            match m_u32(b, p + 4) {
                Err(e) => Err(e),
                Ok(geo) => if geo == 0 {
                    Ok((Seq::empty(), p + 8))
                } else {
                    match m_entry_offsets(b, p + 8) {
                        Err(e) => Err(e),
                        Ok((rest, q)) => Ok((seq![(vis, geo)] + rest, q)),
                    }
                },
            }
        },
    }
}

/// The mesh entries of one grid cell, one per offset pair.
pub open spec fn m_mesh_entries(b: Seq<u8>, pairs: Seq<(u32, u32)>) -> Result<
    Seq<MeshEntryModel>,
    DatError,
>
    decreases pairs.len(),
{
    if pairs.len() == 0 {
        Ok(Seq::empty())
    } else {
        match m_mesh_entry(b, pairs[0].0, pairs[0].1) {
            Err(e) => Err(e),
            Ok(me) => match m_mesh_entries(b, pairs.skip(1)) {
                Err(e) => Err(e),
                Ok(rest) => Ok(seq![me] + rest),
            },
        }
    }
}

/// One grid cell decoded at its entry offset: the info word, then the
/// offset pairs, then one mesh entry per pair.
#[verifier::opaque]
pub open spec fn m_grid_entry(b: Seq<u8>, entry_offset: u32) -> Result<GridEntryModel, DatError> {
    match m_u32(b, entry_offset as int) {
        Err(e) => Err(e),
        Ok(info_entry) => match m_entry_offsets(b, entry_offset + 4) {
            Err(e) => Err(e),
            Ok((pairs, _q)) => match m_mesh_entries(b, pairs) {
                Err(e) => Err(e),
                Ok(mes) => Ok(GridEntryModel { info_entry, mesh_entries: mes }),
            },
        },
    }
}

/// The grid scan from cell index `c` on, in row-major order over
/// `grid_width * grid_height` cells: a cell-header offset past the end of
/// the buffer stops the scan entirely; a zero or out-of-range entry offset
/// skips the cell; anything else decodes one grid entry.
pub open spec fn m_grid_cells(
    b: Seq<u8>,
    grid_offset: u32,
    total: int,
    c: int,
) -> Result<Seq<GridEntryModel>, DatError>
    decreases total - c,
{
    if c < 0 || c >= total {
        Ok(Seq::empty())
    } else {
        let header_off = grid_offset + c * 4;
        if header_off >= b.len() {
            Ok(Seq::empty())
        } else {
            match m_u32(b, header_off) {
                Err(e) => Err(e),
                Ok(entry_offset) => if entry_offset == 0 || entry_offset >= b.len() {
                    m_grid_cells(b, grid_offset, total, c + 1)
                } else {
                    match m_grid_entry(b, entry_offset) {
                        Err(e) => Err(e),
                        Ok(ge) => match m_grid_cells(b, grid_offset, total, c + 1) {
                            Err(e) => Err(e),
                            Ok(rest) => Ok(seq![ge] + rest),
                        },
                    }
                },
            }
        }
    }
}

/// The whole grid scan of a mesh with the given dimensions.
pub open spec fn m_grid(
    b: Seq<u8>,
    grid_offset: u32,
    grid_width: u16,
    grid_height: u16,
    c: int,
) -> Result<Seq<GridEntryModel>, DatError> {
    m_grid_cells(b, grid_offset, grid_width as int * grid_height as int, c)
}

} // verus!

verus! {

/// Reads the 32-bit value at `p`, reporting the same failure the mirror
/// does past the end of the buffer.
fn read_u32_checked(walker: &SliceByteWalker, p: u64) -> (r: Result<u32, DatError>)
    ensures
        r == m_u32(walker.slice@, p as int),
{
    let wlen = walker.len();
    if wlen as u64 >= 4 && p <= wlen as u64 - 4 {
        match walker.read_u32_at(p as usize) {
            Ok(v) => Ok(v),
            Err(e) => {
                proof {
                    assert(false);
                }
                Err(e)
            },
        }
    } else {
        Err(
            DatError::OutOfRange {
                buffer_length: walker.len(),
                requested_index: p as usize,
            },
        )
    }
}

/// Reads the 16-bit value at `p`.
fn read_u16_checked(walker: &SliceByteWalker, p: u64) -> (r: Result<u16, DatError>)
    ensures
        r == m_u16(walker.slice@, p as int),
{
    let wlen = walker.len();
    if wlen as u64 >= 2 && p <= wlen as u64 - 2 {
        let at = p as usize;
        let b0 = walker.slice[at];
        let b1 = walker.slice[at + 1];
        Ok(b0 as u16 + b1 as u16 * 0x100)
    } else {
        Err(
            DatError::OutOfRange {
                buffer_length: walker.len(),
                requested_index: p as usize,
            },
        )
    }
}

/// Reads a run of `n` 32-bit words at `p`.
fn read_words_at(walker: &SliceByteWalker, p: u64, n: u32) -> (r: Result<Vec<u32>, DatError>)
    requires
        p < 0x2_0000_0000u64,
    ensures
        match r {
            Ok(vs) => m_words(walker.slice@, p as int, n as int) == Ok::<Seq<u32>, DatError>(vs@),
            Err(e) => m_words(walker.slice@, p as int, n as int) == Err::<Seq<u32>, DatError>(e),
        },
{
    let ghost b = walker.slice@;
    let mut acc: Vec<u32> = Vec::new();
    let mut i: u32 = 0;
    while i < n
        invariant
            i <= n,
            p < 0x2_0000_0000u64,
            acc@.len() == i,
            m_words(b, p as int, n as int) == match m_words(b, p + 4 * i, n - i) {
                Ok(vs) => Ok::<Seq<u32>, DatError>(acc@ + vs),
                Err(e) => Err::<Seq<u32>, DatError>(e),
            },
        decreases n - i,
    {
        let pos: u64 = p + 4 * i as u64;
        match read_u32_checked(walker, pos) {
            Ok(v) => {
                proof {
                    if m_words(b, pos + 4, n - i - 1) is Ok {
                        let vs = m_words(b, pos + 4, n - i - 1)->Ok_0;
                        assert(acc@ + (seq![v] + vs) =~= acc@.push(v) + vs);
                    }
                }
                acc.push(v);
                i = i + 1;
            },
            Err(e) => {
                return Err(e);
            },
        }
    }
    proof {
        assert(acc@ + Seq::<u32>::empty() =~= acc@);
    }
    Ok(acc)
}

/// Reads a run of `n` raw twelve-byte points at `p`.
fn read_points_at(walker: &SliceByteWalker, p: u64, n: u32) -> (r: Result<Vec<Point3D>, DatError>)
    requires
        p < 0x2_0000_0000u64,
    ensures
        match r {
            Ok(vs) => m_points(walker.slice@, p as int, n as int) == Ok::<Seq<Point3D>, DatError>(
                vs@,
            ),
            Err(e) => m_points(walker.slice@, p as int, n as int) == Err::<Seq<Point3D>, DatError>(
                e,
            ),
        },
{
    let ghost b = walker.slice@;
    let mut acc: Vec<Point3D> = Vec::new();
    let mut i: u32 = 0;
    while i < n
        invariant
            i <= n,
            p < 0x2_0000_0000u64,
            acc@.len() == i,
            m_points(b, p as int, n as int) == match m_points(b, p + 12 * i, n - i) {
                Ok(vs) => Ok::<Seq<Point3D>, DatError>(acc@ + vs),
                Err(e) => Err::<Seq<Point3D>, DatError>(e),
            },
        decreases n - i,
    {
        let pos: u64 = p + 12 * i as u64;
        let x = match read_u32_checked(walker, pos) {
            Ok(v) => v,
            Err(e) => {
                return Err(e);
            },
        };
        let y = match read_u32_checked(walker, pos + 4) {
            Ok(v) => v,
            Err(e) => {
                return Err(e);
            },
        };
        let z = match read_u32_checked(walker, pos + 8) {
            Ok(v) => v,
            Err(e) => {
                return Err(e);
            },
        };
        let pt = Point3D { x, y, z };
        proof {
            if m_points(b, pos + 12, n - i - 1) is Ok {
                let vs = m_points(b, pos + 12, n - i - 1)->Ok_0;
                assert(acc@ + (seq![pt] + vs) =~= acc@.push(pt) + vs);
            }
        }
        acc.push(pt);
        i = i + 1;
    }
    proof {
        assert(acc@ + Seq::<Point3D>::empty() =~= acc@);
    }
    Ok(acc)
}

/// Reads a run of `n` triangles at `p`, masking every index to 14 bits.
fn read_tris_at(walker: &SliceByteWalker, p: u64, n: u16) -> (r: Result<
    Vec<TriangleInfo>,
    DatError,
>)
    requires
        p < 0x2_0000_0000u64,
    ensures
        match r {
            Ok(vs) => m_tris(walker.slice@, p as int, n as int) == Ok::<
                Seq<TriangleInfo>,
                DatError,
            >(vs@),
            Err(e) => m_tris(walker.slice@, p as int, n as int) == Err::<
                Seq<TriangleInfo>,
                DatError,
            >(e),
        },
{
    let ghost b = walker.slice@;
    let mut acc: Vec<TriangleInfo> = Vec::new();
    let mut i: u16 = 0;
    while i < n
        invariant
            i <= n,
            p < 0x2_0000_0000u64,
            acc@.len() == i,
            m_tris(b, p as int, n as int) == match m_tris(b, p + 8 * i, n - i) {
                Ok(vs) => Ok::<Seq<TriangleInfo>, DatError>(acc@ + vs),
                Err(e) => Err::<Seq<TriangleInfo>, DatError>(e),
            },
        decreases n - i,
    {
        let pos: u64 = p + 8 * i as u64;
        let v1 = match read_u16_checked(walker, pos) {
            Ok(v) => v,
            Err(e) => {
                return Err(e);
            },
        };
        let v2 = match read_u16_checked(walker, pos + 2) {
            Ok(v) => v,
            Err(e) => {
                return Err(e);
            },
        };
        let v3 = match read_u16_checked(walker, pos + 4) {
            Ok(v) => v,
            Err(e) => {
                return Err(e);
            },
        };
        let n4 = match read_u16_checked(walker, pos + 6) {
            Ok(v) => v,
            Err(e) => {
                return Err(e);
            },
        };
        let tri = TriangleInfo {
            vertex1_idx: (v1 % 0x4000) as u32,
            vertex2_idx: (v2 % 0x4000) as u32,
            vertex3_idx: (v3 % 0x4000) as u32,
            normal_idx: (n4 % 0x4000) as u32,
        };
        proof {
            if m_tris(b, pos + 8, n - i - 1) is Ok {
                let vs = m_tris(b, pos + 8, n - i - 1)->Ok_0;
                assert(acc@ + (seq![tri] + vs) =~= acc@.push(tri) + vs);
            }
        }
        acc.push(tri);
        i = i + 1;
    }
    proof {
        assert(acc@ + Seq::<TriangleInfo>::empty() =~= acc@);
    }
    Ok(acc)
}


/// Reads the visual/geometry offset pairs of one grid cell, stopping at
/// the first zero member.
fn read_entry_offsets(walker: &SliceByteWalker, p0: u64) -> (r: Result<Vec<(u32, u32)>, DatError>)
    ensures
        match r {
            Ok(ps) => m_entry_offsets(walker.slice@, p0 as int) is Ok && m_entry_offsets(
                walker.slice@,
                p0 as int,
            )->Ok_0.0 == ps@,
            Err(e) => m_entry_offsets(walker.slice@, p0 as int) == Err::<
                (Seq<(u32, u32)>, int),
                DatError,
            >(e),
        },
{
    let ghost b = walker.slice@;
    let wlen = walker.len();
    let mut pairs: Vec<(u32, u32)> = Vec::new();
    let mut pos: u64 = p0;
    loop
        invariant
            p0 <= pos,
            pos as int <= b.len() || pos == p0,
            m_entry_offsets(b, p0 as int) == match m_entry_offsets(b, pos as int) {
                Ok((rest, q)) => Ok::<(Seq<(u32, u32)>, int), DatError>((pairs@ + rest, q)),
                Err(e) => Err::<(Seq<(u32, u32)>, int), DatError>(e),
            },
        decreases crate::zone_data::dist0(pos as int, b.len() as int),
    {
        let vis = match read_u32_checked(walker, pos) {
            Ok(v) => v,
            Err(e) => {
                return Err(e);
            },
        };
        proof {
            assert(pos + 4 <= wlen);
        }
        if vis == 0 {
            proof {
                assert(pairs@ + Seq::<(u32, u32)>::empty() =~= pairs@);
            }
            return Ok(pairs);
        }
        let geo = match read_u32_checked(walker, pos + 4) {
            Ok(v) => v,
            Err(e) => {
                return Err(e);
            },
        };
        proof {
            assert(pos + 8 <= wlen);
        }
        if geo == 0 {
            proof {
                assert(pairs@ + Seq::<(u32, u32)>::empty() =~= pairs@);
            }
            return Ok(pairs);
        }
        proof {
            if m_entry_offsets(b, pos + 8) is Ok {
                let (rest, q) = m_entry_offsets(b, pos + 8)->Ok_0;
                assert(pairs@ + (seq![(vis, geo)] + rest) =~= pairs@.push((vis, geo)) + rest);
            }
        }
        pairs.push((vis, geo));
        pos = pos + 8;
    }
}

impl CollisionMesh {
    /// Decodes one mesh entry from its visual and geometry offsets.
    pub fn parse_grid_mesh(walker: &SliceByteWalker, vis_offset: u32, geo_offset: u32) -> (r:
        Result<MeshEntry, DatError>)
        ensures
            match r {
                Ok(me) => m_mesh_entry(walker.slice@, vis_offset, geo_offset) == Ok::<
                    MeshEntryModel,
                    DatError,
                >(me@),
                Err(e) => m_mesh_entry(walker.slice@, vis_offset, geo_offset) == Err::<
                    MeshEntryModel,
                    DatError,
                >(e),
            },
    {
        proof {
            reveal(m_mesh_entry);
        }
        let matrix = match read_words_at(walker, vis_offset as u64, 16) {
            Ok(m) => m,
            Err(e) => {
                return Err(e);
            },
        };
        let vertex_offset = match read_u32_checked(walker, geo_offset as u64) {
            Ok(v) => v,
            Err(e) => {
                return Err(e);
            },
        };
        let normal_offset = match read_u32_checked(walker, geo_offset as u64 + 4) {
            Ok(v) => v,
            Err(e) => {
                return Err(e);
            },
        };
        let triangle_offset = match read_u32_checked(walker, geo_offset as u64 + 8) {
            Ok(v) => v,
            Err(e) => {
                return Err(e);
            },
        };
        let triangle_count = match read_u16_checked(walker, geo_offset as u64 + 12) {
            Ok(v) => v,
            Err(e) => {
                return Err(e);
            },
        };
        let flags = match read_u16_checked(walker, geo_offset as u64 + 14) {
            Ok(v) => v,
            Err(e) => {
                return Err(e);
            },
        };
        if vertex_offset > normal_offset || (normal_offset - vertex_offset) % 12 != 0 {
            return Err(
                DatError::InvalidGeometryOffsets { first: vertex_offset, second: normal_offset },
            );
        }
        if normal_offset > triangle_offset || (triangle_offset - normal_offset) % 12 != 0 {
            return Err(
                DatError::InvalidGeometryOffsets { first: normal_offset, second: triangle_offset },
            );
        }
        let vertex_count = (normal_offset - vertex_offset) / 12;
        let normal_count = (triangle_offset - normal_offset) / 12;
        let vertices = match read_points_at(walker, vertex_offset as u64, vertex_count) {
            Ok(v) => v,
            Err(e) => {
                return Err(e);
            },
        };
        let raw_normals = match read_points_at(walker, normal_offset as u64, normal_count) {
            Ok(v) => v,
            Err(e) => {
                return Err(e);
            },
        };
        let triangles = match read_tris_at(walker, triangle_offset as u64, triangle_count) {
            Ok(v) => v,
            Err(e) => {
                return Err(e);
            },
        };
        let mut normals: Vec<Point3D> = Vec::new();
        let mut i: usize = 0;
        while i < raw_normals.len()
            invariant
                i <= raw_normals@.len(),
                normals@ == raw_normals@.take(i as int).map_values(|q: Point3D| flip_y(q)),
            decreases raw_normals@.len() - i,
        {
            let q = raw_normals[i];
            normals.push(Point3D { x: q.x, y: q.y ^ 0x80000000, z: q.z });
            proof {
                assert(raw_normals@.take(i as int + 1) =~= raw_normals@.take(i as int).push(
                    raw_normals@[i as int],
                ));
                assert(raw_normals@.take(i as int).map_values(|q: Point3D| flip_y(q)).push(
                    flip_y(raw_normals@[i as int]),
                ) =~= raw_normals@.take(i as int + 1).map_values(|q: Point3D| flip_y(q)));
            }
            i = i + 1;
        }
        proof {
            assert(raw_normals@.take(raw_normals@.len() as int) =~= raw_normals@);
        }
        Ok(MeshEntry { flags, matrix, vertices, normals, triangles })
    }

    /// Decodes one grid cell at its entry offset.
    pub fn parse_grid_entry(walker: &SliceByteWalker, entry_offset: u32) -> (r: Result<
        GridMeshEntry,
        DatError,
    >)
        ensures
            match r {
                Ok(ge) => m_grid_entry(walker.slice@, entry_offset) == Ok::<
                    GridEntryModel,
                    DatError,
                >(ge@),
                Err(e) => m_grid_entry(walker.slice@, entry_offset) == Err::<
                    GridEntryModel,
                    DatError,
                >(e),
            },
    {
        proof {
            reveal(m_grid_entry);
        }
        let ghost b = walker.slice@;
        let info_entry = match read_u32_checked(walker, entry_offset as u64) {
            Ok(v) => v,
            Err(e) => {
                return Err(e);
            },
        };
        let pairs = match read_entry_offsets(walker, entry_offset as u64 + 4) {
            Ok(ps) => ps,
            Err(e) => {
                return Err(e);
            },
        };
        let ghost all_pairs = pairs@;
        let mut mesh_entries: Vec<MeshEntry> = Vec::new();
        let mut i: usize = 0;
        proof {
            assert(all_pairs.skip(0) =~= all_pairs);
        }
        while i < pairs.len()
            invariant
                i <= pairs@.len(),
                pairs@ == all_pairs,
                m_entry_offsets(b, entry_offset + 4) is Ok,
                m_entry_offsets(b, entry_offset + 4)->Ok_0.0 == all_pairs,
                m_mesh_entries(b, all_pairs) == match m_mesh_entries(b, all_pairs.skip(i as int)) {
                    Ok(rest) => Ok::<Seq<MeshEntryModel>, DatError>(
                        mesh_entries@.map_values(|m: MeshEntry| m@) + rest,
                    ),
                    Err(e) => Err::<Seq<MeshEntryModel>, DatError>(e),
                },
            decreases pairs@.len() - i,
        {
            proof {
                assert(all_pairs.skip(i as int)[0] == all_pairs[i as int]);
                assert(all_pairs.skip(i as int).skip(1) =~= all_pairs.skip(i as int + 1));
            }
            let (vis, geo) = pairs[i];
            let ghost before = mesh_entries@;
            match Self::parse_grid_mesh(walker, vis, geo) {
                Ok(me) => {
                    proof {
                        let mem = m_mesh_entry(b, vis, geo)->Ok_0;
                        if m_mesh_entries(b, all_pairs.skip(i as int + 1)) is Ok {
                            let rest = m_mesh_entries(b, all_pairs.skip(i as int + 1))->Ok_0;
                            assert(before.map_values(|m: MeshEntry| m@) + (seq![mem] + rest)
                                =~= before.push(me).map_values(|m: MeshEntry| m@) + rest);
                        }
                    }
                    mesh_entries.push(me);
                },
                Err(e) => {
                    return Err(e);
                },
            }
            i = i + 1;
        }
        proof {
            assert(all_pairs.skip(pairs@.len() as int) =~= Seq::<(u32, u32)>::empty());
            assert(mesh_entries@.map_values(|m: MeshEntry| m@) + Seq::<MeshEntryModel>::empty()
                =~= mesh_entries@.map_values(|m: MeshEntry| m@));
        }
        Ok(GridMeshEntry { info_entry, mesh_entries })
    }

    /// Decodes the whole collision mesh: a row-major scan of the grid's
    /// cells, stopping entirely at the first cell-header offset past the
    /// end of the buffer, skipping cells whose entry offset is zero or out
    /// of range, and decoding one grid entry for every other cell.
    #[verifier::rlimit(100)]
    #[verifier::spinoff_prover]
    pub fn parse(
        walker: &SliceByteWalker,
        grid_offset: u32,
        grid_height: u16,
        grid_width: u16,
    ) -> (r: Result<CollisionMesh, DatError>)
        ensures
            match r {
                Ok(cm) => m_grid(walker.slice@, grid_offset, grid_width, grid_height, 0) == Ok::<
                    Seq<GridEntryModel>,
                    DatError,
                >(cm@),
                Err(e) => m_grid(walker.slice@, grid_offset, grid_width, grid_height, 0) == Err::<
                    Seq<GridEntryModel>,
                    DatError,
                >(e),
            },
    {
        let ghost b = walker.slice@;
        proof {
            assert(grid_width as u64 * grid_height as u64 <= 0xFFFF * 0xFFFF)
                by (nonlinear_arith)
                requires
                    grid_width as u64 <= 0xFFFF && grid_height as u64 <= 0xFFFF,
            ;
        }
        let total: u64 = grid_width as u64 * grid_height as u64;
        let mut grid_entries: Vec<GridMeshEntry> = Vec::new();
        let mut c: u64 = 0;
        while c < total
            invariant
                c <= total,
                total == grid_width as int * grid_height as int,
                b == walker.slice@,
                m_grid_cells(b, grid_offset, total as int, 0) == match m_grid_cells(
                    b,
                    grid_offset,
                    total as int,
                    c as int,
                ) {
                    Ok(rest) => Ok::<Seq<GridEntryModel>, DatError>(
                        grid_entries@.map_values(|g: GridMeshEntry| g@) + rest,
                    ),
                    Err(e) => Err::<Seq<GridEntryModel>, DatError>(e),
                },
            decreases total - c,
        {
            let header_off: u64 = grid_offset as u64 + c * 4;
            proof {
                assert(header_off as int == grid_offset + c * 4);
            }
            if header_off >= walker.len() as u64 {
                proof {
                    assert(m_grid_cells(b, grid_offset, total as int, c as int) == Ok::<
                        Seq<GridEntryModel>,
                        DatError,
                    >(Seq::empty()));
                    assert(m_grid(b, grid_offset, grid_width, grid_height, 0) == m_grid_cells(
                        b,
                        grid_offset,
                        total as int,
                        0,
                    ));
                    assert(grid_entries@.map_values(|g: GridMeshEntry| g@) + Seq::<
                        GridEntryModel,
                    >::empty() =~= grid_entries@.map_values(|g: GridMeshEntry| g@));
                }
                return Ok(CollisionMesh { grid_entries });
            }
            let entry_offset = match read_u32_checked(walker, header_off) {
                Ok(v) => v,
                Err(e) => {
                    proof {
                        assert(m_grid_cells(b, grid_offset, total as int, c as int)
                            == Err::<Seq<GridEntryModel>, DatError>(e));
                        assert(m_grid(b, grid_offset, grid_width, grid_height, 0) == m_grid_cells(
                            b,
                            grid_offset,
                            total as int,
                            0,
                        ));
                    }
                    return Err(e);
                },
            };
            if entry_offset != 0 && (entry_offset as u64) < walker.len() as u64 {
                let ghost before = grid_entries@;
                match Self::parse_grid_entry(walker, entry_offset) {
                    Ok(ge) => {
                        proof {
                            let gem = m_grid_entry(b, entry_offset)->Ok_0;
                            if m_grid_cells(b, grid_offset, total as int, c + 1) is Ok {
                                let rest = m_grid_cells(
                                    b,
                                    grid_offset,
                                    total as int,
                                    c + 1,
                                )->Ok_0;
                                assert(before.map_values(|g: GridMeshEntry| g@) + (seq![gem]
                                    + rest) =~= before.push(ge).map_values(
                                    |g: GridMeshEntry| g@,
                                ) + rest);
                            }
                        }
                        grid_entries.push(ge);
                    },
                    Err(e) => {
                        proof {
                            assert(m_grid_cells(b, grid_offset, total as int, c as int)
                                == Err::<Seq<GridEntryModel>, DatError>(e));
                            assert(m_grid(b, grid_offset, grid_width, grid_height, 0)
                                == m_grid_cells(b, grid_offset, total as int, 0));
                        }
                        return Err(e);
                    },
                }
            } else {
                proof {
                    assert(m_grid_cells(b, grid_offset, total as int, c as int) == m_grid_cells(
                        b,
                        grid_offset,
                        total as int,
                        c as int + 1,
                    ));
                }
            }
            c = c + 1;
        }
        proof {
            assert(grid_entries@.map_values(|g: GridMeshEntry| g@) + Seq::<
                GridEntryModel,
            >::empty() =~= grid_entries@.map_values(|g: GridMeshEntry| g@));
            assert(m_grid(b, grid_offset, grid_width, grid_height, 0) == m_grid_cells(
                b,
                grid_offset,
                total as int,
                0,
            ));
        }
        Ok(CollisionMesh { grid_entries })
    }

    /// Applies the winding correction that the transform matrix's
    /// determinant dictates: with a positive determinant each triangle's
    /// first and third vertex indices are swapped, and with a determinant
    /// that is zero or negative the triangles are returned unchanged —
    /// an exactly-zero determinant takes the non-positive branch.
    pub fn winding_corrected(triangles: &Vec<TriangleInfo>, determinant_positive: bool) -> (r:
        Vec<TriangleInfo>)
        ensures
            !determinant_positive ==> r@ == triangles@,
            determinant_positive ==> r@.len() == triangles@.len() && forall|i: int|
                0 <= i < triangles@.len() ==> #[trigger] r@[i] == (TriangleInfo {
                    vertex1_idx: triangles@[i].vertex3_idx,
                    vertex2_idx: triangles@[i].vertex2_idx,
                    vertex3_idx: triangles@[i].vertex1_idx,
                    normal_idx: triangles@[i].normal_idx,
                }),
    {
        if !determinant_positive {
            let mut out: Vec<TriangleInfo> = Vec::new();
            let mut i: usize = 0;
            while i < triangles.len()
                invariant
                    i <= triangles@.len(),
                    out@ == triangles@.take(i as int),
                decreases triangles@.len() - i,
            {
                out.push(triangles[i]);
                proof {
                    assert(out@ =~= triangles@.take(i as int + 1));
                }
                i = i + 1;
            }
            proof {
                assert(triangles@.take(triangles@.len() as int) =~= triangles@);
            }
            out
        } else {
            let mut out: Vec<TriangleInfo> = Vec::new();
            let mut i: usize = 0;
            while i < triangles.len()
                invariant
                    i <= triangles@.len(),
                    out@.len() == i,
                    forall|k: int|
                        0 <= k < i ==> #[trigger] out@[k] == (TriangleInfo {
                            vertex1_idx: triangles@[k].vertex3_idx,
                            vertex2_idx: triangles@[k].vertex2_idx,
                            vertex3_idx: triangles@[k].vertex1_idx,
                            normal_idx: triangles@[k].normal_idx,
                        }),
                decreases triangles@.len() - i,
            {
                let t = triangles[i];
                out.push(
                    TriangleInfo {
                        vertex1_idx: t.vertex3_idx,
                        vertex2_idx: t.vertex2_idx,
                        vertex3_idx: t.vertex1_idx,
                        normal_idx: t.normal_idx,
                    },
                );
                i = i + 1;
            }
            out
        }
    }
}

} // verus!

verus! {

/// Whether all four indices of a triangle fit in 14 bits.
pub open spec fn tri_masked(t: TriangleInfo) -> bool {
    &&& t.vertex1_idx < 0x4000
    &&& t.vertex2_idx < 0x4000
    &&& t.vertex3_idx < 0x4000
    &&& t.normal_idx < 0x4000
}

/// Whether every triangle of a mesh entry has 14-bit indices.
pub open spec fn mesh_entry_masked(me: MeshEntryModel) -> bool {
    forall|i: int| 0 <= i < me.triangles.len() ==> tri_masked(#[trigger] me.triangles[i])
}

/// Whether every triangle of a grid entry has 14-bit indices.
pub open spec fn grid_entry_masked(ge: GridEntryModel) -> bool {
    forall|i: int|
        0 <= i < ge.mesh_entries.len() ==> mesh_entry_masked(#[trigger] ge.mesh_entries[i])
}

/// Whether every triangle of a whole decoded mesh has 14-bit indices.
pub open spec fn grid_masked(ges: Seq<GridEntryModel>) -> bool {
    forall|i: int| 0 <= i < ges.len() ==> grid_entry_masked(#[trigger] ges[i])
}

proof fn lemma_m_tris_masked(b: Seq<u8>, p: int, n: int)
    requires
        m_tris(b, p, n) is Ok,
    ensures
        forall|i: int|
            0 <= i < m_tris(b, p, n)->Ok_0.len() ==> tri_masked(#[trigger] m_tris(b, p, n)->Ok_0[i]),
    decreases n,
{
    if n > 0 {
        lemma_m_tris_masked(b, p + 8, n - 1);
    }
}

proof fn lemma_m_mesh_entry_masked(b: Seq<u8>, vis: u32, geo: u32)
    requires
        m_mesh_entry(b, vis, geo) is Ok,
    ensures
        mesh_entry_masked(m_mesh_entry(b, vis, geo)->Ok_0),
{
    reveal(m_mesh_entry);
    let geo_i = geo as int;
    let normal_offset = m_u32(b, geo_i + 4)->Ok_0;
    let vertex_offset = m_u32(b, geo_i)->Ok_0;
    let triangle_offset = m_u32(b, geo_i + 8)->Ok_0;
    let triangle_count = m_u16(b, geo_i + 12)->Ok_0;
    lemma_m_tris_masked(b, triangle_offset as int, triangle_count as int);
}

proof fn lemma_m_mesh_entries_masked(b: Seq<u8>, pairs: Seq<(u32, u32)>)
    requires
        m_mesh_entries(b, pairs) is Ok,
    ensures
        forall|i: int|
            0 <= i < m_mesh_entries(b, pairs)->Ok_0.len() ==> mesh_entry_masked(
                #[trigger] m_mesh_entries(b, pairs)->Ok_0[i],
            ),
    decreases pairs.len(),
{
    if pairs.len() > 0 {
        lemma_m_mesh_entry_masked(b, pairs[0].0, pairs[0].1);
        lemma_m_mesh_entries_masked(b, pairs.skip(1));
    }
}

proof fn lemma_m_grid_entry_masked(b: Seq<u8>, entry_offset: u32)
    requires
        m_grid_entry(b, entry_offset) is Ok,
    ensures
        grid_entry_masked(m_grid_entry(b, entry_offset)->Ok_0),
{
    reveal(m_grid_entry);
    let (pairs, _q) = m_entry_offsets(b, entry_offset + 4)->Ok_0;
    lemma_m_mesh_entries_masked(b, pairs);
}

proof fn lemma_m_grid_cells_masked(b: Seq<u8>, grid_offset: u32, total: int, c: int)
    requires
        m_grid_cells(b, grid_offset, total, c) is Ok,
    ensures
        grid_masked(m_grid_cells(b, grid_offset, total, c)->Ok_0),
    decreases total - c,
{
    if 0 <= c < total {
        let header_off = grid_offset + c * 4;
        if header_off < b.len() {
            let entry_offset = m_u32(b, header_off)->Ok_0;
            if !(entry_offset == 0 || entry_offset >= b.len()) {
                lemma_m_grid_entry_masked(b, entry_offset);
                lemma_m_grid_cells_masked(b, grid_offset, total, c + 1);
            } else {
                lemma_m_grid_cells_masked(b, grid_offset, total, c + 1);
            }
        }
    }
}

/// Law: every triangle index a successful mesh decode returns is below
/// `0x4000` — the 14-bit mask holds for all inputs, because the top two
/// bits of each stored index are unrelated flag bits.
pub proof fn lemma_triangle_indices_masked(
    b: Seq<u8>,
    grid_offset: u32,
    grid_width: u16,
    grid_height: u16,
)
    requires
        m_grid(b, grid_offset, grid_width, grid_height, 0) is Ok,
    ensures
        grid_masked(m_grid(b, grid_offset, grid_width, grid_height, 0)->Ok_0),
{
    lemma_m_grid_cells_masked(b, grid_offset, grid_width as int * grid_height as int, 0);
}

/// Law: the grid scan visits only cell indices inside the grid, and every
/// visited index `c` names the in-range cell `(x, y) = (c % width,
/// c / width)` in row-major order; no address outside
/// `[0, width) x [0, height)` is ever touched.
pub proof fn lemma_grid_scan_in_range(grid_width: u16, grid_height: u16, c: int)
    requires
        grid_width > 0,
        0 <= c < grid_width as int * grid_height as int,
    ensures
        ({
            let x = c % (grid_width as int);
            let y = c / (grid_width as int);
            &&& 0 <= x < grid_width
            &&& 0 <= y < grid_height
            &&& c == y * (grid_width as int) + x
        }),
{
    let w = grid_width as int;
    let h = grid_height as int;
    vstd::arithmetic::div_mod::lemma_fundamental_div_mod(c, w);
    assert(0 <= c % w < w);
    let y = c / w;
    assert(0 <= y) by (nonlinear_arith)
        requires
            c >= 0 && w > 0 && y == c / w,
    ;
    assert(y < h) by (nonlinear_arith)
        requires
            w > 0 && c < w * h && y == c / w && c == w * y + c % w && c % w >= 0,
    ;
}

} // verus!
