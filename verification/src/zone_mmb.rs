//! The vertex-model codec, the peer of the zone-model codec behind the
//! chunk container. Its payload carries textured vertex blocks; every
//! 32-bit float field is held as its raw IEEE-754 bit pattern.
//!
//! The decoder is proved to return exactly what the spec-function mirror
//! [`m_mmb`] says, and every decoded model additionally satisfies the
//! length invariants of [`wf_mmb`].

use vstd::prelude::*;

use crate::byte_walker::SliceByteWalker;
use crate::error::DatError;
use crate::event_model::{m_u16, m_u32, m_u32s, m_u8};

verus! {

/// The first header of a vertex model: either the tagged form that opens
/// with the text `MMB`, or the bare form with a 24-bit length.
#[derive(Debug, Clone, PartialEq, Eq)]
pub enum ZoneMmbTopHeader {
    Type1 { mmb_type: u8, next: u32, first_u32: u32, second_u32: u32, third_u32: u32 },
    Type2 { len: u32, d1: u8, d3: u8, d4: u8, d5: u8, d6: u8, unknown_0x08: u32, unknown_0x12: u32 },
}

impl ZoneMmbTopHeader {
    /// The payload size the top header declares: sixteen bytes per `next`
    /// unit for the tagged form, the stored length for the bare form.
    pub fn get_size(&self) -> (r: u32)
        requires
            self is Type1 ==> self->Type1_next <= 0x3FFFFFF,
        ensures
            r == match *self {
                ZoneMmbTopHeader::Type1 { next, .. } => next * 16,
                ZoneMmbTopHeader::Type2 { len, .. } => len as int,
            },
    {
        match self {
            ZoneMmbTopHeader::Type1 { next, .. } => *next * 16,
            ZoneMmbTopHeader::Type2 { len, .. } => *len,
        }
    }

    /// Whether block vertices carry the three extra displacement words.
    pub fn has_d_values(&self) -> (r: bool)
        ensures
            r == spec_has_d(*self),
    {
        match self {
            ZoneMmbTopHeader::Type1 { .. } => false,
            ZoneMmbTopHeader::Type2 { d3, .. } => *d3 == 2,
        }
    }

    /// Whether the indices form a triangle list rather than a strip.
    pub fn has_triangle_list(&self) -> (r: bool)
        ensures
            r == spec_has_list(*self),
    {
        match self {
            ZoneMmbTopHeader::Type1 { mmb_type, .. } => *mmb_type == 0,
            ZoneMmbTopHeader::Type2 { d3, .. } => *d3 == 2,
        }
    }
}

/// The second header: a sixteen-byte image identifier, a piece count, the
/// bounding box as six raw float words, and the block-header offset.
#[derive(Debug, Clone, PartialEq, Eq)]
pub struct ZoneMmbHeader {
    pub img_id: Vec<u8>,
    pub pieces: u32,
    pub x1: u32,
    pub x2: u32,
    pub y1: u32,
    pub y2: u32,
    pub z1: u32,
    pub z2: u32,
    pub offset_block_header: u32,
}

/// One block header: its model count, bounding box and face identifier.
#[derive(Debug, Clone, PartialEq, Eq)]
pub struct ZoneMmbBlockHeader {
    pub model_count: u32,
    pub x1: u32,
    pub x2: u32,
    pub y1: u32,
    pub y2: u32,
    pub z1: u32,
    pub z2: u32,
    pub face_id: u32,
}

/// One model header: a sixteen-byte texture name, a vertex count and a
/// blending word.
#[derive(Debug, Clone, PartialEq, Eq)]
pub struct ZoneMmbModelHeader {
    pub texture_name: Vec<u8>,
    pub vertex_count: u16,
    pub blending: u16,
}

/// How a model's indices are to be drawn.
#[derive(Debug, Clone, Copy, PartialEq, Eq, Structural)]
pub enum GlDrawType {
    TriangleList,
    TriangleStrip,
    Line,
    LineLoop,
    Polygon,
}

/// One vertex: position, optional displacement, shading vector, a packed
/// color and texture coordinates, all raw bit patterns but the color.
#[derive(Debug, Clone, Copy, PartialEq, Eq, Structural)]
pub struct ZoneMmbBlockVertex {
    pub x: u32,
    pub y: u32,
    pub z: u32,
    pub dx: u32,
    pub dy: u32,
    pub dz: u32,
    pub hx: u32,
    pub hy: u32,
    pub hz: u32,
    pub color: u32,
    pub u: u32,
    pub v: u32,
}

/// One decoded model: its vertices and its vertex indices.
#[derive(Debug, Clone, PartialEq, Eq)]
pub struct ZoneMmbVertexIndices {
    pub draw_type: GlDrawType,
    pub texture_name: Vec<u8>,
    pub vertex_count: u16,
    pub blending: u16,
    pub vertices: Vec<ZoneMmbBlockVertex>,
    pub index_count: u32,
    pub indices: Vec<u16>,
}

/// A whole decoded vertex model.
#[derive(Debug, Clone, PartialEq, Eq)]
pub struct ZoneMmb {
    pub data_len: u32,
    pub top_header: ZoneMmbTopHeader,
    pub header: ZoneMmbHeader,
    pub models_list: Vec<Vec<ZoneMmbVertexIndices>>,
}

/// The length invariants of one decoded model: the vertex and index lists
/// match their declared counts, the texture name is sixteen bytes, and the
/// index count fits the sixteen bits it was masked to.
pub open spec fn wf_vertex_indices(m: ZoneMmbVertexIndices) -> bool {
    &&& m.vertices@.len() == m.vertex_count
    &&& m.indices@.len() == m.index_count
    &&& m.texture_name@.len() == 16
    &&& m.index_count < 0x10000
}

/// The length invariants of a whole decoded vertex model.
pub open spec fn wf_mmb(m: ZoneMmb) -> bool {
    &&& m.header.img_id@.len() == 16
    &&& forall|i: int, j: int|
        0 <= i < m.models_list@.len() && 0 <= j < m.models_list@[i]@.len()
            ==> wf_vertex_indices(#[trigger] m.models_list@[i]@[j])
}

} // verus!

verus! {

/// Whether block vertices carry displacement words, as the top header
/// declares it.
pub open spec fn spec_has_d(th: ZoneMmbTopHeader) -> bool {
    match th {
        ZoneMmbTopHeader::Type1 { .. } => false,
        ZoneMmbTopHeader::Type2 { d3, .. } => d3 == 2,
    }
}

/// Whether the indices form a triangle list, as the top header declares it.
pub open spec fn spec_has_list(th: ZoneMmbTopHeader) -> bool {
    match th {
        ZoneMmbTopHeader::Type1 { mmb_type, .. } => mmb_type == 0,
        ZoneMmbTopHeader::Type2 { d3, .. } => d3 == 2,
    }
}

/// The model of the second header.
pub ghost struct MmbHeaderModel {
    pub img_id: Seq<u8>,
    pub pieces: u32,
    pub x1: u32,
    pub x2: u32,
    pub y1: u32,
    pub y2: u32,
    pub z1: u32,
    pub z2: u32,
    pub offset_block_header: u32,
}

/// The model of one decoded model block entry.
pub ghost struct MmbModelModel {
    pub draw_type: GlDrawType,
    pub texture_name: Seq<u8>,
    pub vertex_count: u16,
    pub blending: u16,
    pub vertices: Seq<ZoneMmbBlockVertex>,
    pub index_count: u32,
    pub indices: Seq<u16>,
}

/// The model of a whole decoded vertex model.
pub ghost struct MmbModel {
    pub data_len: u32,
    pub top_header: ZoneMmbTopHeader,
    pub header: MmbHeaderModel,
    pub models_list: Seq<Seq<MmbModelModel>>,
}

impl View for ZoneMmbHeader {
    type V = MmbHeaderModel;

    open spec fn view(&self) -> MmbHeaderModel {
        MmbHeaderModel {
            img_id: self.img_id@,
            pieces: self.pieces,
            x1: self.x1,
            x2: self.x2,
            y1: self.y1,
            y2: self.y2,
            z1: self.z1,
            z2: self.z2,
            offset_block_header: self.offset_block_header,
        }
    }
}

impl View for ZoneMmbVertexIndices {
    type V = MmbModelModel;

    open spec fn view(&self) -> MmbModelModel {
        MmbModelModel {
            draw_type: self.draw_type,
            texture_name: self.texture_name@,
            vertex_count: self.vertex_count,
            blending: self.blending,
            vertices: self.vertices@,
            index_count: self.index_count,
            indices: self.indices@,
        }
    }
}

impl View for ZoneMmb {
    type V = MmbModel;

    open spec fn view(&self) -> MmbModel {
        MmbModel {
            data_len: self.data_len,
            top_header: self.top_header,
            header: self.header@,
            models_list: self.models_list@.map_values(
                |ms: Vec<ZoneMmbVertexIndices>| ms@.map_values(|m: ZoneMmbVertexIndices| m@),
            ),
        }
    }
}

/// The top header at `p`: the tagged form when the three bytes `MMB` open
/// the buffer, else the bare form.
pub open spec fn m_mmb_top(b: Seq<u8>, p: int) -> Result<(ZoneMmbTopHeader, int), DatError> {
    let has_tag = p + 3 <= b.len() && b[p] == 0x4D && b[p + 1] == 0x4D && b[p + 2] == 0x42;
    if has_tag {
        match m_u32(b, p + 3) {
            Err(e) => Err(e),
            Ok(first_u32) => match m_u32(b, p + 7) {
                Err(e) => Err(e),
                Ok(second_u32) => match m_u32(b, p + 11) {
                    Err(e) => Err(e),
                    Ok(third_u32) => Ok(
                        (
                            ZoneMmbTopHeader::Type1 {
                                mmb_type: ((first_u32 as int) % 0x80) as u8,
                                next: ((first_u32 as int) % 0x4000000) as u32,
                                first_u32,
                                second_u32,
                                third_u32,
                            },
                            p + 15,
                        ),
                    ),
                },
            },
        }
    } else {
        match m_u32(b, p) {
            Err(e) => Err(e),
            Ok(first_u32) => match m_u8(b, p + 4) {
                Err(e) => Err(e),
                Ok(d3) => match m_u8(b, p + 5) {
                    Err(e) => Err(e),
                    Ok(d4) => match m_u8(b, p + 6) {
                        Err(e) => Err(e),
                        Ok(d5) => match m_u8(b, p + 7) {
                            Err(e) => Err(e),
                            Ok(d6) => match m_u32(b, p + 8) {
                                Err(e) => Err(e),
                                Ok(unknown_0x08) => match m_u32(b, p + 12) {
                                    Err(e) => Err(e),
                                    Ok(unknown_0x12) => Ok(
                                        (
                                            ZoneMmbTopHeader::Type2 {
                                                len: ((first_u32 as int) % 0x1000000) as u32,
                                                d1: ((first_u32 as int) / 0x1000000) as u8,
                                                d3,
                                                d4,
                                                d5,
                                                d6,
                                                unknown_0x08,
                                                unknown_0x12,
                                            },
                                            p + 16,
                                        ),
                                    ),
                                },
                            },
                        },
                    },
                },
            },
        }
    }
}

/// The second header at `p`: sixteen identifier bytes, then eight words.
pub open spec fn m_mmb_header(b: Seq<u8>, p: int) -> Result<(MmbHeaderModel, int), DatError> {
    if p + 16 > b.len() {
        Err(
            DatError::OutOfRange {
                buffer_length: b.len() as usize,
                requested_index: p as usize,
            },
        )
    } else {
        let img_id = b.subrange(p, p + 16);
        match m_u32s(b, p + 16, 8) {
            Err(e) => Err(e),
            Ok((ws, q)) => Ok(
                (
                    MmbHeaderModel {
                        img_id,
                        pieces: ws[0],
                        x1: ws[1],
                        x2: ws[2],
                        y1: ws[3],
                        y2: ws[4],
                        z1: ws[5],
                        z2: ws[6],
                        offset_block_header: ws[7],
                    },
                    q,
                ),
            ),
        }
    }
}

/// One block header at `p`: eight words.
pub open spec fn m_mmb_block_header(b: Seq<u8>, p: int) -> Result<
    (ZoneMmbBlockHeader, int),
    DatError,
> {
    match m_u32s(b, p, 8) {
        Err(e) => Err(e),
        Ok((ws, q)) => Ok(
            (
                ZoneMmbBlockHeader {
                    model_count: ws[0],
                    x1: ws[1],
                    x2: ws[2],
                    y1: ws[3],
                    y2: ws[4],
                    z1: ws[5],
                    z2: ws[6],
                    face_id: ws[7],
                },
                q,
            ),
        ),
    }
}

/// One vertex at `p`: twelve words with displacement, nine without.
pub open spec fn m_mmb_vertex(b: Seq<u8>, p: int, with_d: bool) -> Result<
    (ZoneMmbBlockVertex, int),
    DatError,
> {
    if with_d {
        match m_u32s(b, p, 12) {
            Err(e) => Err(e),
            Ok((ws, q)) => Ok(
                (
                    ZoneMmbBlockVertex {
                        x: ws[0],
                        y: ws[1],
                        z: ws[2],
                        dx: ws[3],
                        dy: ws[4],
                        dz: ws[5],
                        hx: ws[6],
                        hy: ws[7],
                        hz: ws[8],
                        color: ws[9],
                        u: ws[10],
                        v: ws[11],
                    },
                    q,
                ),
            ),
        }
    } else {
        match m_u32s(b, p, 9) {
            Err(e) => Err(e),
            Ok((ws, q)) => Ok(
                (
                    ZoneMmbBlockVertex {
                        x: ws[0],
                        y: ws[1],
                        z: ws[2],
                        dx: 0,
                        dy: 0,
                        dz: 0,
                        hx: ws[3],
                        hy: ws[4],
                        hz: ws[5],
                        color: ws[6],
                        u: ws[7],
                        v: ws[8],
                    },
                    q,
                ),
            ),
        }
    }
}

/// `n` vertices starting at `p`.
pub open spec fn m_mmb_vertices(b: Seq<u8>, p: int, n: int, with_d: bool) -> Result<
    (Seq<ZoneMmbBlockVertex>, int),
    DatError,
>
    decreases n,
{
    if n <= 0 {
        Ok((Seq::empty(), p))
    } else {
        match m_mmb_vertex(b, p, with_d) {
            Err(e) => Err(e),
            Ok((v, q)) => match m_mmb_vertices(b, q, n - 1, with_d) {
                Err(e) => Err(e),
                Ok((vs, r)) => Ok((seq![v] + vs, r)),
            },
        }
    }
}

/// `n` indices starting at `p`, each the low sixteen bits of a word.
pub open spec fn m_mmb_indices(b: Seq<u8>, p: int, n: int) -> Result<(Seq<u16>, int), DatError>
    decreases n,
{
    if n <= 0 {
        Ok((Seq::empty(), p))
    } else {
        match m_u32(b, p) {
            Err(e) => Err(e),
            Ok(w) => match m_mmb_indices(b, p + 4, n - 1) {
                Err(e) => Err(e),
                Ok((vs, q)) => Ok((seq![((w as int) % 0x10000) as u16] + vs, q)),
            },
        }
    }
}

/// One model at `p`: a model header, its vertices, an index count masked
/// to sixteen bits, and its indices.
pub open spec fn m_mmb_model(b: Seq<u8>, p: int, with_d: bool, has_list: bool) -> Result<
    (MmbModelModel, int),
    DatError,
> {
    if p + 16 > b.len() {
        Err(
            DatError::OutOfRange {
                buffer_length: b.len() as usize,
                requested_index: p as usize,
            },
        )
    } else {
        let texture_name = b.subrange(p, p + 16);
        match m_u16(b, p + 16) {
            Err(e) => Err(e),
            Ok(vertex_count) => match m_u16(b, p + 18) {
                Err(e) => Err(e),
                Ok(blending) => match m_mmb_vertices(b, p + 20, vertex_count as int, with_d) {
                    Err(e) => Err(e),
                    Ok((vertices, q1)) => match m_u32(b, q1) {
                        Err(e) => Err(e),
                        Ok(w) => {
                            let index_count = ((w as int) % 0x10000) as u32;
                            match m_mmb_indices(b, q1 + 4, index_count as int) {
                                Err(e) => Err(e),
                                Ok((indices, q2)) => Ok(
                                    (
                                        MmbModelModel {
                                            draw_type: if has_list {
                                                GlDrawType::TriangleList
                                            } else {
                                                GlDrawType::TriangleStrip
                                            },
                                            texture_name,
                                            vertex_count,
                                            blending,
                                            vertices,
                                            index_count,
                                            indices,
                                        },
                                        q2,
                                    ),
                                ),
                            }
                        },
                    },
                },
            },
        }
    }
}

/// `n` models starting at `p`, one after another.
pub open spec fn m_mmb_models(
    b: Seq<u8>,
    p: int,
    n: int,
    with_d: bool,
    has_list: bool,
) -> Result<(Seq<MmbModelModel>, int), DatError>
    decreases n,
{
    if n <= 0 {
        Ok((Seq::empty(), p))
    } else {
        match m_mmb_model(b, p, with_d, has_list) {
            Err(e) => Err(e),
            Ok((model, q)) => match m_mmb_models(b, q, n - 1, with_d, has_list) {
                Err(e) => Err(e),
                Ok((rest, r)) => Ok((seq![model] + rest, r)),
            },
        }
    }
}

/// Up to eight stored block offsets at `p`, keeping the nonzero ones.
pub open spec fn m_mmb_offset_list(b: Seq<u8>, p: int, k: int) -> Result<
    (Seq<u32>, int),
    DatError,
>
    decreases k,
{
    if k <= 0 {
        Ok((Seq::empty(), p))
    } else {
        match m_u32(b, p) {
            Err(e) => Err(e),
            Ok(off) => match m_mmb_offset_list(b, p + 4, k - 1) {
                Err(e) => Err(e),
                Ok((rest, q)) => if off != 0 {
                    Ok((seq![off] + rest, q))
                } else {
                    Ok((rest, q))
                },
            },
        }
    }
}

/// The block offsets the header points at: the single implicit block when
/// the header stores neither a block-header offset nor pieces; the stored
/// list when pieces are declared; and, when a block-header offset is
/// present past the current position, that offset followed by the stored
/// list, whose total count must match the piece count.
pub open spec fn m_mmb_offsets(
    b: Seq<u8>,
    p: int,
    header: MmbHeaderModel,
    current_offset: u32,
) -> Result<(Seq<u32>, int), DatError> {
    if header.offset_block_header == 0 {
        if header.pieces != 0 {
            m_mmb_offset_list(b, p, 8)
        } else {
            Ok((seq![current_offset], p))
        }
    } else {
        if header.offset_block_header > current_offset {
            match m_mmb_offset_list(b, p, 8) {
                Err(e) => Err(e),
                Ok((rest, q)) => {
                    let list = seq![header.offset_block_header] + rest;
                    if list.len() != header.pieces {
                        Err(
                            DatError::MismatchedMmbOffsets {
                                pieces: header.pieces,
                                found: list.len() as usize,
                            },
                        )
                    } else {
                        Ok((list, q))
                    }
                },
            }
        } else {
            Ok((seq![header.offset_block_header], p))
        }
    }
}

/// The blocks at the resolved offsets, from index `i` on: each offset must
/// lie within the buffer, its block header must declare at most fifty
/// models, and the models follow the header.
pub open spec fn m_mmb_blocks(
    b: Seq<u8>,
    offsets: Seq<u32>,
    i: int,
    cur: int,
    with_d: bool,
    has_list: bool,
) -> Result<(Seq<Seq<MmbModelModel>>, int), DatError>
    decreases offsets.len() - i,
{
    if i < 0 || i >= offsets.len() {
        Ok((Seq::empty(), cur))
    } else {
        let target = offsets[i];
        if target > b.len() {
            Err(
                DatError::OutOfRange {
                    buffer_length: b.len() as usize,
                    requested_index: target as usize,
                },
            )
        } else {
            match m_mmb_block_header(b, target as int) {
                Err(e) => Err(e),
                Ok((bh, q1)) => if bh.model_count > 50 {
                    Err(DatError::CorruptMmbModelCount { count: bh.model_count })
                } else {
                    match m_mmb_models(b, q1, bh.model_count as int, with_d, has_list) {
                        Err(e) => Err(e),
                        Ok((models, q2)) => match m_mmb_blocks(
                            b,
                            offsets,
                            i + 1,
                            q2,
                            with_d,
                            has_list,
                        ) {
                            Err(e) => Err(e),
                            Ok((rest, q3)) => Ok((seq![models] + rest, q3)),
                        },
                    }
                },
            }
        }
    }
}

/// A whole vertex model decoded from `p`: both headers, the resolved block
/// offsets, and the blocks with their models.
#[verifier::opaque]
pub open spec fn m_mmb(b: Seq<u8>, p: int) -> Result<(MmbModel, int), DatError> {
    match m_mmb_top(b, p) {
        Err(e) => Err(e),
        Ok((top_header, p1)) => match m_mmb_header(b, p1) {
            Err(e) => Err(e),
            Ok((header, p2)) => {
                let current_offset = ((p2 - p) as int) as u32;
                match m_mmb_offsets(b, p2, header, current_offset) {
                    Err(e) => Err(e),
                    Ok((offsets, p3)) => match m_mmb_blocks(
                        b,
                        offsets,
                        0,
                        p3,
                        spec_has_d(top_header),
                        spec_has_list(top_header),
                    ) {
                        Err(e) => Err(e),
                        Ok((models_list, q)) => Ok(
                            (
                                MmbModel {
                                    data_len: b.len() as u32,
                                    top_header,
                                    header,
                                    models_list,
                                },
                                q,
                            ),
                        ),
                    },
                }
            },
        },
    }
}

} // verus!

verus! {

/// Reads the eight stored block-offset words, keeping the nonzero ones.
fn read_offset_list(walker: &mut SliceByteWalker) -> (r: Result<Vec<u32>, DatError>)
    requires
        old(walker).wf(),
    ensures
        final(walker).slice@ == old(walker).slice@,
        final(walker).wf(),
        match r {
            Ok(list) => m_mmb_offset_list(old(walker).slice@, old(walker).offset as int, 8)
                == Ok::<(Seq<u32>, int), DatError>((list@, final(walker).offset as int)),
            Err(e) => m_mmb_offset_list(old(walker).slice@, old(walker).offset as int, 8)
                == Err::<(Seq<u32>, int), DatError>(e),
        },
{
    let ghost b = old(walker).slice@;
    let ghost p0 = old(walker).offset as int;
    let mut list: Vec<u32> = Vec::new();
    let mut i: usize = 0;
    while i < 8
        invariant
            walker.wf(),
            walker.slice@ == b,
            i <= 8,
            m_mmb_offset_list(b, p0, 8) == match m_mmb_offset_list(
                b,
                walker.offset as int,
                8 - i,
            ) {
                Ok((rest, q)) => Ok::<(Seq<u32>, int), DatError>((list@ + rest, q)),
                Err(e) => Err::<(Seq<u32>, int), DatError>(e),
            },
        decreases 8 - i,
    {
        let ghost cur = walker.offset as int;
        let ghost k = 8 - i as int;
        let off = match walker.step_u32() {
            Ok(v) => v,
            Err(e) => {
                return Err(e);
            },
        };
        proof {
            if m_mmb_offset_list(b, cur + 4, k - 1) is Ok {
                let (rest, q) = m_mmb_offset_list(b, cur + 4, k - 1)->Ok_0;
                if off != 0 {
                    assert(list@ + (seq![off] + rest) =~= list@.push(off) + rest);
                } else {
                    assert(list@ + rest =~= list@ + rest);
                }
            }
        }
        if off != 0 {
            list.push(off);
        }
        i = i + 1;
    }
    proof {
        assert(list@ + Seq::<u32>::empty() =~= list@);
    }
    Ok(list)
}

impl ZoneMmb {
    /// Decodes the top header: the tagged form when the buffer opens with
    /// the text `MMB`, else the bare form.
    pub fn parse_top_header(walker: &mut SliceByteWalker) -> (r: Result<
        ZoneMmbTopHeader,
        DatError,
    >)
        requires
            old(walker).wf(),
        ensures
            final(walker).slice@ == old(walker).slice@,
            final(walker).wf(),
            r is Ok ==> final(walker).offset >= old(walker).offset,
            match r {
                Ok(h) => m_mmb_top(old(walker).slice@, old(walker).offset as int) == Ok::<
                    (ZoneMmbTopHeader, int),
                    DatError,
                >((h, final(walker).offset as int)),
                Err(e) => m_mmb_top(old(walker).slice@, old(walker).offset as int) == Err::<
                    (ZoneMmbTopHeader, int),
                    DatError,
                >(e),
            },
    {
        let has_tag = if walker.remaining() >= 3 {
            let p = walker.offset();
            let b0 = walker.slice[p];
            let b1 = walker.slice[p + 1];
            let b2 = walker.slice[p + 2];
            b0 == 0x4D && b1 == 0x4D && b2 == 0x42
        } else {
            false
        };
        if has_tag {
            walker.skip(3);
            let first_u32 = match walker.step_u32() {
                Ok(v) => v,
                Err(e) => {
                    return Err(e);
                },
            };
            let second_u32 = match walker.step_u32() {
                Ok(v) => v,
                Err(e) => {
                    return Err(e);
                },
            };
            let third_u32 = match walker.step_u32() {
                Ok(v) => v,
                Err(e) => {
                    return Err(e);
                },
            };
            let mmb_type = (first_u32 % 0x80) as u8;
            let next = first_u32 % 0x4000000;
            Ok(ZoneMmbTopHeader::Type1 { mmb_type, next, first_u32, second_u32, third_u32 })
        } else {
            let first_u32 = match walker.step_u32() {
                Ok(v) => v,
                Err(e) => {
                    return Err(e);
                },
            };
            let len = first_u32 % 0x1000000;
            let d1 = (first_u32 / 0x1000000) as u8;
            let d3 = match walker.step_u8() {
                Ok(v) => v,
                Err(e) => {
                    return Err(e);
                },
            };
            let d4 = match walker.step_u8() {
                Ok(v) => v,
                Err(e) => {
                    return Err(e);
                },
            };
            let d5 = match walker.step_u8() {
                Ok(v) => v,
                Err(e) => {
                    return Err(e);
                },
            };
            let d6 = match walker.step_u8() {
                Ok(v) => v,
                Err(e) => {
                    return Err(e);
                },
            };
            let unknown_0x08 = match walker.step_u32() {
                Ok(v) => v,
                Err(e) => {
                    return Err(e);
                },
            };
            let unknown_0x12 = match walker.step_u32() {
                Ok(v) => v,
                Err(e) => {
                    return Err(e);
                },
            };
            Ok(ZoneMmbTopHeader::Type2 { len, d1, d3, d4, d5, d6, unknown_0x08, unknown_0x12 })
        }
    }

    /// Decodes the second header.
    pub fn parse_header(walker: &mut SliceByteWalker) -> (r: Result<ZoneMmbHeader, DatError>)
        requires
            old(walker).wf(),
        ensures
            final(walker).slice@ == old(walker).slice@,
            final(walker).wf(),
            r is Ok ==> final(walker).offset >= old(walker).offset,
            match r {
                Ok(h) => m_mmb_header(old(walker).slice@, old(walker).offset as int) == Ok::<
                    (MmbHeaderModel, int),
                    DatError,
                >((h@, final(walker).offset as int)),
                Err(e) => m_mmb_header(old(walker).slice@, old(walker).offset as int) == Err::<
                    (MmbHeaderModel, int),
                    DatError,
                >(e),
            },
    {
        if walker.remaining() < 16 {
            return Err(
                DatError::OutOfRange {
                    buffer_length: walker.len(),
                    requested_index: walker.offset(),
                },
            );
        }
        let img_slice = walker.take_bytes(16);
        let img_id = vstd::slice::slice_to_vec(img_slice);
        let ws = match crate::event::read_u32s(walker, 8) {
            Ok(ws) => ws,
            Err(e) => {
                return Err(e);
            },
        };
        Ok(
            ZoneMmbHeader {
                img_id,
                pieces: ws[0],
                x1: ws[1],
                x2: ws[2],
                y1: ws[3],
                y2: ws[4],
                z1: ws[5],
                z2: ws[6],
                offset_block_header: ws[7],
            },
        )
    }

    /// Decodes one block header.
    pub fn parse_block_header(walker: &mut SliceByteWalker) -> (r: Result<
        ZoneMmbBlockHeader,
        DatError,
    >)
        requires
            old(walker).wf(),
        ensures
            final(walker).slice@ == old(walker).slice@,
            final(walker).wf(),
            match r {
                Ok(h) => m_mmb_block_header(old(walker).slice@, old(walker).offset as int)
                    == Ok::<(ZoneMmbBlockHeader, int), DatError>(
                    (h, final(walker).offset as int),
                ),
                Err(e) => m_mmb_block_header(old(walker).slice@, old(walker).offset as int)
                    == Err::<(ZoneMmbBlockHeader, int), DatError>(e),
            },
    {
        let ws = match crate::event::read_u32s(walker, 8) {
            Ok(ws) => ws,
            Err(e) => {
                return Err(e);
            },
        };
        Ok(
            ZoneMmbBlockHeader {
                model_count: ws[0],
                x1: ws[1],
                x2: ws[2],
                y1: ws[3],
                y2: ws[4],
                z1: ws[5],
                z2: ws[6],
                face_id: ws[7],
            },
        )
    }

    /// Decodes one model header: its sixteen-byte texture name, vertex
    /// count and blending word.
    pub fn parse_model_header(walker: &mut SliceByteWalker) -> (r: Result<
        ZoneMmbModelHeader,
        DatError,
    >)
        requires
            old(walker).wf(),
        ensures
            final(walker).slice@ == old(walker).slice@,
            final(walker).wf(),
            match r {
                Ok(h) => {
                    let b = old(walker).slice@;
                    let p = old(walker).offset as int;
                    &&& p + 16 <= b.len()
                    &&& h.texture_name@ == b.subrange(p, p + 16)
                    &&& m_u16(b, p + 16) == Ok::<u16, DatError>(h.vertex_count)
                    &&& m_u16(b, p + 18) == Ok::<u16, DatError>(h.blending)
                    &&& final(walker).offset == old(walker).offset + 20
                },
                Err(e) => {
                    let b = old(walker).slice@;
                    let p = old(walker).offset as int;
                    if p + 16 > b.len() {
                        e == (DatError::OutOfRange {
                            buffer_length: b.len() as usize,
                            requested_index: p as usize,
                        })
                    } else {
                        match m_u16(b, p + 16) {
                            Err(e2) => e == e2,
                            Ok(_) => m_u16(b, p + 18) == Err::<u16, DatError>(e),
                        }
                    }
                },
            },
    {
        if walker.remaining() < 16 {
            return Err(
                DatError::OutOfRange {
                    buffer_length: walker.len(),
                    requested_index: walker.offset(),
                },
            );
        }
        let name_slice = walker.take_bytes(16);
        let texture_name = vstd::slice::slice_to_vec(name_slice);
        let vertex_count = match walker.step_u16() {
            Ok(v) => v,
            Err(e) => {
                return Err(e);
            },
        };
        let blending = match walker.step_u16() {
            Ok(v) => v,
            Err(e) => {
                return Err(e);
            },
        };
        Ok(ZoneMmbModelHeader { texture_name, vertex_count, blending })
    }

    /// Decodes one vertex; the three displacement words are present only
    /// when the top header declares them.
    pub fn parse_block_vertex(walker: &mut SliceByteWalker, with_d: bool) -> (r: Result<
        ZoneMmbBlockVertex,
        DatError,
    >)
        requires
            old(walker).wf(),
        ensures
            final(walker).slice@ == old(walker).slice@,
            final(walker).wf(),
            match r {
                Ok(v) => m_mmb_vertex(old(walker).slice@, old(walker).offset as int, with_d)
                    == Ok::<(ZoneMmbBlockVertex, int), DatError>(
                    (v, final(walker).offset as int),
                ),
                Err(e) => m_mmb_vertex(old(walker).slice@, old(walker).offset as int, with_d)
                    == Err::<(ZoneMmbBlockVertex, int), DatError>(e),
            },
    {
        if with_d {
            let ws = match crate::event::read_u32s(walker, 12) {
                Ok(ws) => ws,
                Err(e) => {
                    return Err(e);
                },
            };
            Ok(
                ZoneMmbBlockVertex {
                    x: ws[0],
                    y: ws[1],
                    z: ws[2],
                    dx: ws[3],
                    dy: ws[4],
                    dz: ws[5],
                    hx: ws[6],
                    hy: ws[7],
                    hz: ws[8],
                    color: ws[9],
                    u: ws[10],
                    v: ws[11],
                },
            )
        } else {
            let ws = match crate::event::read_u32s(walker, 9) {
                Ok(ws) => ws,
                Err(e) => {
                    return Err(e);
                },
            };
            Ok(
                ZoneMmbBlockVertex {
                    x: ws[0],
                    y: ws[1],
                    z: ws[2],
                    dx: 0,
                    dy: 0,
                    dz: 0,
                    hx: ws[3],
                    hy: ws[4],
                    hz: ws[5],
                    color: ws[6],
                    u: ws[7],
                    v: ws[8],
                },
            )
        }
    }

    /// Collects the block offsets the header points at: either the single
    /// implicit block, or up to eight stored offsets, which must match the
    /// header's piece count when a block-header offset is present.
    pub fn parse_offsets(
        walker: &mut SliceByteWalker,
        header: &ZoneMmbHeader,
        current_offset: u32,
    ) -> (r: Result<Vec<u32>, DatError>)
        requires
            old(walker).wf(),
        ensures
            final(walker).slice@ == old(walker).slice@,
            final(walker).wf(),
            match r {
                Ok(list) => m_mmb_offsets(
                    old(walker).slice@,
                    old(walker).offset as int,
                    header@,
                    current_offset,
                ) == Ok::<(Seq<u32>, int), DatError>((list@, final(walker).offset as int)),
                Err(e) => m_mmb_offsets(
                    old(walker).slice@,
                    old(walker).offset as int,
                    header@,
                    current_offset,
                ) == Err::<(Seq<u32>, int), DatError>(e),
            },
    {
        if header.offset_block_header == 0 {
            if header.pieces != 0 {
                read_offset_list(walker)
            } else {
                let mut list: Vec<u32> = Vec::new();
                list.push(current_offset);
                proof {
                    assert(list@ =~= seq![current_offset]);
                }
                Ok(list)
            }
        } else {
            let mut list: Vec<u32> = Vec::new();
            list.push(header.offset_block_header);
            if header.offset_block_header > current_offset {
                let rest = match read_offset_list(walker) {
                    Ok(rest) => rest,
                    Err(e) => {
                        return Err(e);
                    },
                };
                list.extend_from_slice(rest.as_slice());
                proof {
                    assert(list@ =~= seq![header.offset_block_header] + rest@);
                }
                if list.len() != header.pieces as usize {
                    return Err(
                        DatError::MismatchedMmbOffsets {
                            pieces: header.pieces,
                            found: list.len(),
                        },
                    );
                }
            } else {
                proof {
                    assert(list@ =~= seq![header.offset_block_header]);
                }
            }
            Ok(list)
        }
    }

    /// Decodes one model: its header, vertices, and indices.
    fn parse_one_model(walker: &mut SliceByteWalker, has_d: bool, has_list: bool) -> (r: Result<
        ZoneMmbVertexIndices,
        DatError,
    >)
        requires
            old(walker).wf(),
        ensures
            final(walker).slice@ == old(walker).slice@,
            final(walker).wf(),
            match r {
                Ok(m) => wf_vertex_indices(m) && m_mmb_model(
                    old(walker).slice@,
                    old(walker).offset as int,
                    has_d,
                    has_list,
                ) == Ok::<(MmbModelModel, int), DatError>((m@, final(walker).offset as int)),
                Err(e) => m_mmb_model(
                    old(walker).slice@,
                    old(walker).offset as int,
                    has_d,
                    has_list,
                ) == Err::<(MmbModelModel, int), DatError>(e),
            },
    {
        let ghost b = old(walker).slice@;
        let model_header = match Self::parse_model_header(walker) {
            Ok(h) => h,
            Err(e) => {
                return Err(e);
            },
        };
        let ghost vp = walker.offset as int;
        let mut vertices: Vec<ZoneMmbBlockVertex> = Vec::new();
        let mut vi: u16 = 0;
        proof {
            let whole = m_mmb_vertices(b, vp, model_header.vertex_count as int, has_d);
            if whole is Ok {
                let (rest, q) = whole->Ok_0;
                assert(Seq::<ZoneMmbBlockVertex>::empty() + rest =~= rest);
            }
        }
        while vi < model_header.vertex_count
            invariant
                walker.wf(),
                walker.slice@ == b,
                vi <= model_header.vertex_count,
                vertices@.len() == vi,
                m_mmb_vertices(b, vp, model_header.vertex_count as int, has_d)
                    == match m_mmb_vertices(
                    b,
                    walker.offset as int,
                    model_header.vertex_count - vi,
                    has_d,
                ) {
                    Ok((rest, q)) => Ok::<(Seq<ZoneMmbBlockVertex>, int), DatError>(
                        (vertices@ + rest, q),
                    ),
                    Err(e) => Err::<(Seq<ZoneMmbBlockVertex>, int), DatError>(e),
                },
            decreases model_header.vertex_count - vi,
        {
            let ghost vk = model_header.vertex_count - vi;
            let v = match Self::parse_block_vertex(walker, has_d) {
                Ok(v) => v,
                Err(e) => {
                    return Err(e);
                },
            };
            proof {
                if m_mmb_vertices(b, walker.offset as int, vk - 1, has_d) is Ok {
                    let (rest, q) = m_mmb_vertices(b, walker.offset as int, vk - 1, has_d)->Ok_0;
                    assert(vertices@ + (seq![v] + rest) =~= vertices@.push(v) + rest);
                }
            }
            vertices.push(v);
            vi = vi + 1;
        }
        proof {
            assert(vertices@ + Seq::<ZoneMmbBlockVertex>::empty() =~= vertices@);
        }
        let index_count = match walker.step_u32() {
            Ok(v) => v % 0x10000,
            Err(e) => {
                return Err(e);
            },
        };
        let ghost ip = walker.offset as int;
        let mut indices: Vec<u16> = Vec::new();
        let mut ii: u32 = 0;
        proof {
            let whole = m_mmb_indices(b, ip, index_count as int);
            if whole is Ok {
                let (rest, q) = whole->Ok_0;
                assert(Seq::<u16>::empty() + rest =~= rest);
            }
        }
        while ii < index_count
            invariant
                walker.wf(),
                walker.slice@ == b,
                ii <= index_count,
                indices@.len() == ii,
                m_mmb_indices(b, ip, index_count as int) == match m_mmb_indices(
                    b,
                    walker.offset as int,
                    index_count - ii,
                ) {
                    Ok((rest, q)) => Ok::<(Seq<u16>, int), DatError>((indices@ + rest, q)),
                    Err(e) => Err::<(Seq<u16>, int), DatError>(e),
                },
            decreases index_count - ii,
        {
            let ghost cur = walker.offset as int;
            let ghost ik = index_count - ii;
            let w = match walker.step_u32() {
                Ok(v) => v,
                Err(e) => {
                    return Err(e);
                },
            };
            let idx = (w % 0x10000) as u16;
            proof {
                if m_mmb_indices(b, cur + 4, ik - 1) is Ok {
                    let (rest, q) = m_mmb_indices(b, cur + 4, ik - 1)->Ok_0;
                    assert(indices@ + (seq![idx] + rest) =~= indices@.push(idx) + rest);
                }
            }
            indices.push(idx);
            ii = ii + 1;
        }
        proof {
            assert(indices@ + Seq::<u16>::empty() =~= indices@);
        }
        let draw_type = if has_list {
            GlDrawType::TriangleList
        } else {
            GlDrawType::TriangleStrip
        };
        Ok(
            ZoneMmbVertexIndices {
                draw_type,
                texture_name: model_header.texture_name,
                vertex_count: model_header.vertex_count,
                blending: model_header.blending,
                vertices,
                index_count,
                indices,
            },
        )
    }

    /// Decodes the `count` models of one block, one after another.
    fn parse_block_models(
        walker: &mut SliceByteWalker,
        count: u32,
        has_d: bool,
        has_list: bool,
    ) -> (r: Result<Vec<ZoneMmbVertexIndices>, DatError>)
        requires
            old(walker).wf(),
        ensures
            final(walker).slice@ == old(walker).slice@,
            final(walker).wf(),
            match r {
                Ok(ms) => (forall|j: int|
                    0 <= j < ms@.len() ==> wf_vertex_indices(#[trigger] ms@[j])) && m_mmb_models(
                    old(walker).slice@,
                    old(walker).offset as int,
                    count as int,
                    has_d,
                    has_list,
                ) == Ok::<(Seq<MmbModelModel>, int), DatError>(
                    (ms@.map_values(|m: ZoneMmbVertexIndices| m@), final(walker).offset as int),
                ),
                Err(e) => m_mmb_models(
                    old(walker).slice@,
                    old(walker).offset as int,
                    count as int,
                    has_d,
                    has_list,
                ) == Err::<(Seq<MmbModelModel>, int), DatError>(e),
            },
    {
        let ghost b = old(walker).slice@;
        let ghost p0 = old(walker).offset as int;
        let mut models: Vec<ZoneMmbVertexIndices> = Vec::new();
        let mut mi: u32 = 0;
        proof {
            let whole = m_mmb_models(b, p0, count as int, has_d, has_list);
            if whole is Ok {
                let (rest, q) = whole->Ok_0;
                assert(Seq::<MmbModelModel>::empty() + rest =~= rest);
            }
        }
        while mi < count
            invariant
                walker.wf(),
                walker.slice@ == b,
                mi <= count,
                forall|j: int| 0 <= j < models@.len() ==> wf_vertex_indices(#[trigger] models@[j]),
                m_mmb_models(b, p0, count as int, has_d, has_list) == match m_mmb_models(
                    b,
                    walker.offset as int,
                    count - mi,
                    has_d,
                    has_list,
                ) {
                    Ok((rest, q)) => Ok::<(Seq<MmbModelModel>, int), DatError>(
                        (models@.map_values(|m: ZoneMmbVertexIndices| m@) + rest, q),
                    ),
                    Err(e) => Err::<(Seq<MmbModelModel>, int), DatError>(e),
                },
            decreases count - mi,
        {
            let ghost mk = count - mi;
            let ghost models_before = models@;
            let model = match Self::parse_one_model(walker, has_d, has_list) {
                Ok(m) => m,
                Err(e) => {
                    return Err(e);
                },
            };
            proof {
                if m_mmb_models(b, walker.offset as int, mk - 1, has_d, has_list) is Ok {
                    let (rest, q) = m_mmb_models(
                        b,
                        walker.offset as int,
                        mk - 1,
                        has_d,
                        has_list,
                    )->Ok_0;
                    assert(models_before.map_values(|m: ZoneMmbVertexIndices| m@) + (seq![model@]
                        + rest) =~= models_before.push(model).map_values(
                        |m: ZoneMmbVertexIndices| m@,
                    ) + rest);
                }
            }
            models.push(model);
            mi = mi + 1;
        }
        proof {
            assert(models@.map_values(|m: ZoneMmbVertexIndices| m@) + Seq::<
                MmbModelModel,
            >::empty() =~= models@.map_values(|m: ZoneMmbVertexIndices| m@));
        }
        Ok(models)
    }

    /// Decodes a whole vertex model: both headers, the block offsets, and
    /// for each block its models with their vertices and indices. A block
    /// that declares more than fifty models is rejected as corrupt.
    #[verifier::rlimit(60)]
    pub fn parse(walker: &mut SliceByteWalker) -> (r: Result<ZoneMmb, DatError>)
        requires
            old(walker).wf(),
        ensures
            final(walker).slice@ == old(walker).slice@,
            final(walker).wf(),
            match r {
                Ok(m) => wf_mmb(m) && m_mmb(old(walker).slice@, old(walker).offset as int)
                    == Ok::<(MmbModel, int), DatError>((m@, final(walker).offset as int)),
                Err(e) => m_mmb(old(walker).slice@, old(walker).offset as int) == Err::<
                    (MmbModel, int),
                    DatError,
                >(e),
            },
    {
        proof {
            reveal(m_mmb);
        }
        let ghost b = old(walker).slice@;
        let start_offset = walker.offset();
        let top_header = match Self::parse_top_header(walker) {
            Ok(h) => h,
            Err(e) => {
                return Err(e);
            },
        };
        let header = match Self::parse_header(walker) {
            Ok(h) => h,
            Err(e) => {
                return Err(e);
            },
        };
        let consumed = walker.offset() - start_offset;
        #[verifier::truncate]
        let current_offset = consumed as u32;
        let offsets = match Self::parse_offsets(walker, &header, current_offset) {
            Ok(os) => os,
            Err(e) => {
                return Err(e);
            },
        };
        let has_d = top_header.has_d_values();
        let has_list = top_header.has_triangle_list();
        let ghost offs = offsets@;
        let ghost p3 = walker.offset as int;
        let mut models_list: Vec<Vec<ZoneMmbVertexIndices>> = Vec::new();
        let mut oi: usize = 0;
        proof {
            let whole = m_mmb_blocks(b, offs, 0, p3, has_d, has_list);
            if whole is Ok {
                let (rest, q) = whole->Ok_0;
                assert(Seq::<Seq<MmbModelModel>>::empty() + rest =~= rest);
            }
        }
        while oi < offsets.len()
            invariant
                walker.wf(),
                walker.slice@ == b,
                oi <= offsets@.len(),
                offs == offsets@,
                header.img_id@.len() == 16,
                forall|i: int, j: int|
                    0 <= i < models_list@.len() && 0 <= j < models_list@[i]@.len()
                        ==> wf_vertex_indices(#[trigger] models_list@[i]@[j]),
                m_mmb_blocks(b, offs, 0, p3, has_d, has_list) == match m_mmb_blocks(
                    b,
                    offs,
                    oi as int,
                    walker.offset as int,
                    has_d,
                    has_list,
                ) {
                    Ok((rest, q)) => Ok::<(Seq<Seq<MmbModelModel>>, int), DatError>(
                        (
                            models_list@.map_values(
                                |ms: Vec<ZoneMmbVertexIndices>| ms@.map_values(
                                    |m: ZoneMmbVertexIndices| m@,
                                ),
                            ) + rest,
                            q,
                        ),
                    ),
                    Err(e) => Err::<(Seq<Seq<MmbModelModel>>, int), DatError>(e),
                },
            decreases offsets@.len() - oi,
        {
            let target = offsets[oi];
            if target as u64 > walker.len() as u64 {
                return Err(
                    DatError::OutOfRange {
                        buffer_length: walker.len(),
                        requested_index: target as usize,
                    },
                );
            }
            walker.goto_usize(target as usize);
            let block_header = match Self::parse_block_header(walker) {
                Ok(h) => h,
                Err(e) => {
                    return Err(e);
                },
            };
            if block_header.model_count > 50 {
                return Err(DatError::CorruptMmbModelCount { count: block_header.model_count });
            }
            let ghost before = models_list@;
            let models = match Self::parse_block_models(
                walker,
                block_header.model_count,
                has_d,
                has_list,
            ) {
                Ok(ms) => ms,
                Err(e) => {
                    return Err(e);
                },
            };
            proof {
                let ms = models@.map_values(|m: ZoneMmbVertexIndices| m@);
                if m_mmb_blocks(b, offs, oi + 1, walker.offset as int, has_d, has_list) is Ok {
                    let (rest, q) = m_mmb_blocks(
                        b,
                        offs,
                        oi + 1,
                        walker.offset as int,
                        has_d,
                        has_list,
                    )->Ok_0;
                    assert(before.map_values(
                        |ms2: Vec<ZoneMmbVertexIndices>| ms2@.map_values(
                            |m: ZoneMmbVertexIndices| m@,
                        ),
                    ) + (seq![ms] + rest) =~= before.push(models).map_values(
                        |ms2: Vec<ZoneMmbVertexIndices>| ms2@.map_values(
                            |m: ZoneMmbVertexIndices| m@,
                        ),
                    ) + rest);
                }
            }
            models_list.push(models);
            oi = oi + 1;
        }
        proof {
            assert(models_list@.map_values(
                |ms: Vec<ZoneMmbVertexIndices>| ms@.map_values(|m: ZoneMmbVertexIndices| m@),
            ) + Seq::<Seq<MmbModelModel>>::empty() =~= models_list@.map_values(
                |ms: Vec<ZoneMmbVertexIndices>| ms@.map_values(|m: ZoneMmbVertexIndices| m@),
            ));
        }
        let data_len = walker.len() as u32;
        Ok(ZoneMmb { data_len, top_header, header, models_list })
    }
}

} // verus!
