//! The mathematical model of the event-file format.
//!
//! Ghost mirror images of the decoded structures, a byte-exact encoder over
//! them, and a parser written as spec functions. The executable codec in
//! [`crate::event`] is proved to return exactly what the parser here
//! returns, and the round-trip lemmas at the end of this file show that
//! re-encoding a parsed file reproduces its bytes.

use vstd::prelude::*;

use crate::byte_walker::{le16, le32, u16_of, u32_of};
use crate::error::DatError;
use crate::opcode_descriptions::{spec_has_resolver, spec_resolve, spec_sizes};

verus! {

/// One decoded instruction: its opcode byte and its parameter bytes.
pub ghost struct OpModel {
    pub opcode: u8,
    pub params: Seq<u8>,
}

/// What a series decoded to: instructions, or the raw span kept verbatim.
pub ghost enum PayloadModel {
    Opcodes(Seq<OpModel>),
    RawBytes(Seq<u8>),
}

/// One event series: its executive number and its decoded payload.
pub ghost struct SeriesModel {
    pub id: u16,
    pub parsed_data: PayloadModel,
}

/// One event block.
pub ghost struct BlockModel {
    pub actor_number: u32,
    pub tag_count: u32,
    pub tag_offsets: Seq<u16>,
    pub event_exec_nums: Seq<u16>,
    pub immed_count: u32,
    pub immed_data: Seq<u32>,
    pub event_series: Seq<SeriesModel>,
}

/// The event-file header.
pub ghost struct HeaderModel {
    pub block_count: u32,
    pub block_sizes: Seq<u32>,
}

/// A whole event file.
pub ghost struct EventModel {
    pub header: HeaderModel,
    pub blocks: Seq<BlockModel>,
}

// ---------------------------------------------------------------------
// Well-formedness
// ---------------------------------------------------------------------

/// The internal length invariants of a decoded block.
pub open spec fn wf_block(blk: BlockModel) -> bool {
    &&& blk.tag_offsets.len() == blk.tag_count
    &&& blk.event_exec_nums.len() == blk.tag_count
    &&& blk.event_series.len() == blk.tag_count
    &&& blk.immed_data.len() == blk.immed_count
}

/// The internal length invariants of a decoded event file.
pub open spec fn wf_event(ev: EventModel) -> bool {
    &&& ev.header.block_sizes.len() == ev.header.block_count
    &&& ev.blocks.len() == ev.header.block_count
    &&& forall|i: int| 0 <= i < ev.blocks.len() ==> wf_block(#[trigger] ev.blocks[i])
}

// ---------------------------------------------------------------------
// The encoder
// ---------------------------------------------------------------------

/// The bytes of one instruction: the opcode byte then its parameters.
pub open spec fn enc_op(o: OpModel) -> Seq<u8> {
    seq![o.opcode] + o.params
}

/// The bytes of a run of instructions.
pub open spec fn enc_ops(ops: Seq<OpModel>) -> Seq<u8>
    decreases ops.len(),
{
    if ops.len() == 0 {
        Seq::empty()
    } else {
        enc_op(ops[0]) + enc_ops(ops.skip(1))
    }
}

/// The bytes of one series payload; raw spans are emitted verbatim.
pub open spec fn enc_payload(p: PayloadModel) -> Seq<u8> {
    match p {
        PayloadModel::Opcodes(ops) => enc_ops(ops),
        PayloadModel::RawBytes(b) => b,
    }
}

/// The instruction-stream bytes of a block: its series, one after another.
pub open spec fn enc_series_list(ss: Seq<SeriesModel>) -> Seq<u8>
    decreases ss.len(),
{
    if ss.len() == 0 {
        Seq::empty()
    } else {
        enc_payload(ss[0].parsed_data) + enc_series_list(ss.skip(1))
    }
}

/// The instruction-stream byte length that re-encoding a block writes as
/// its `event_data_size` field.
pub open spec fn data_size(blk: BlockModel) -> int {
    enc_series_list(blk.event_series).len() as int
}

/// How many `0xFF` filler bytes pad a stream of the given length to a
/// four-byte boundary.
pub open spec fn pad_len_of(n: int) -> int {
    if n % 4 == 0 {
        0
    } else {
        4 - n % 4
    }
}

/// A run of 16-bit values, each as two little-endian bytes.
pub open spec fn enc_u16s(vs: Seq<u16>) -> Seq<u8>
    decreases vs.len(),
{
    if vs.len() == 0 {
        Seq::empty()
    } else {
        le16(vs[0]) + enc_u16s(vs.skip(1))
    }
}

/// A run of 32-bit values, each as four little-endian bytes.
pub open spec fn enc_u32s(vs: Seq<u32>) -> Seq<u8>
    decreases vs.len(),
{
    if vs.len() == 0 {
        Seq::empty()
    } else {
        le32(vs[0]) + enc_u32s(vs.skip(1))
    }
}

/// A block's bytes before padding: its fields, the recomputed data size,
/// then the instruction stream.
pub open spec fn enc_block_body(blk: BlockModel) -> Seq<u8> {
    le32(blk.actor_number) + le32(blk.tag_count) + enc_u16s(blk.tag_offsets) + enc_u16s(
        blk.event_exec_nums,
    ) + le32(blk.immed_count) + enc_u32s(blk.immed_data) + le32(data_size(blk) as u32)
        + enc_series_list(blk.event_series)
}

/// A block's bytes: its body, padded with `0xFF` to a four-byte boundary.
pub open spec fn enc_block(blk: BlockModel) -> Seq<u8> {
    enc_block_body(blk) + Seq::new(pad_len_of(data_size(blk)) as nat, |i: int| 0xFFu8)
}

/// The bytes of a run of blocks.
pub open spec fn enc_blocks(blks: Seq<BlockModel>) -> Seq<u8>
    decreases blks.len(),
{
    if blks.len() == 0 {
        Seq::empty()
    } else {
        enc_block(blks[0]) + enc_blocks(blks.skip(1))
    }
}

/// The bytes of a whole event file: header then blocks.
pub open spec fn enc_event(ev: EventModel) -> Seq<u8> {
    le32(ev.header.block_count) + enc_u32s(ev.header.block_sizes) + enc_blocks(ev.blocks)
}

/// Whether a block can be re-encoded: its recomputed data size must fit
/// the 32-bit field that carries it.
pub open spec fn encodable_block(blk: BlockModel) -> bool {
    data_size(blk) <= u32::MAX
}

/// Whether an event file can be re-encoded.
pub open spec fn encodable_event(ev: EventModel) -> bool {
    forall|i: int| 0 <= i < ev.blocks.len() ==> encodable_block(#[trigger] ev.blocks[i])
}

// ---------------------------------------------------------------------
// The parser, as spec functions
// ---------------------------------------------------------------------

/// Reads the byte at `p`, or the failure the cursor reports there.
pub open spec fn m_u8(b: Seq<u8>, p: int) -> Result<u8, DatError> {
    if p + 1 <= b.len() {
        Ok(b[p])
    } else {
        Err(
            DatError::OutOfRange {
                buffer_length: b.len() as usize,
                requested_index: p as usize,
            },
        )
    }
}

/// Reads the little-endian 16-bit value at `p`.
pub open spec fn m_u16(b: Seq<u8>, p: int) -> Result<u16, DatError> {
    if p + 2 <= b.len() {
        Ok(u16_of(b[p], b[p + 1]))
    } else {
        Err(
            DatError::OutOfRange {
                buffer_length: b.len() as usize,
                requested_index: p as usize,
            },
        )
    }
}

/// Reads the little-endian 32-bit value at `p`.
pub open spec fn m_u32(b: Seq<u8>, p: int) -> Result<u32, DatError> {
    if p + 4 <= b.len() {
        Ok(u32_of(b[p], b[p + 1], b[p + 2], b[p + 3]))
    } else {
        Err(
            DatError::OutOfRange {
                buffer_length: b.len() as usize,
                requested_index: p as usize,
            },
        )
    }
}

/// Reads `n` consecutive 16-bit values starting at `p`, and the position
/// after them.
pub open spec fn m_u16s(b: Seq<u8>, p: int, n: int) -> Result<(Seq<u16>, int), DatError>
    decreases n,
{
    if n <= 0 {
        Ok((Seq::empty(), p))
    } else {
        match m_u16(b, p) {
            Err(e) => Err(e),
            Ok(v) => match m_u16s(b, p + 2, n - 1) {
                Err(e) => Err(e),
                Ok((vs, q)) => Ok((seq![v] + vs, q)),
            },
        }
    }
}

/// Reads `n` consecutive 32-bit values starting at `p`, and the position
/// after them.
pub open spec fn m_u32s(b: Seq<u8>, p: int, n: int) -> Result<(Seq<u32>, int), DatError>
    decreases n,
{
    if n <= 0 {
        Ok((Seq::empty(), p))
    } else {
        match m_u32(b, p) {
            Err(e) => Err(e),
            Ok(v) => match m_u32s(b, p + 4, n - 1) {
                Err(e) => Err(e),
                Ok((vs, q)) => Ok((seq![v] + vs, q)),
            },
        }
    }
}

/// Reads `n` block sizes, rejecting any that is zero.
pub open spec fn m_block_sizes(b: Seq<u8>, p: int, n: int) -> Result<(Seq<u32>, int), DatError>
    decreases n,
{
    if n <= 0 {
        Ok((Seq::empty(), p))
    } else {
        match m_u32(b, p) {
            Err(e) => Err(e),
            Ok(v) => if v == 0 {
                Err(DatError::InvalidBlockSize { size: v })
            } else {
                match m_block_sizes(b, p + 4, n - 1) {
                    Err(e) => Err(e),
                    Ok((vs, q)) => Ok((seq![v] + vs, q)),
                }
            },
        }
    }
}

/// The event-file header: a block count between 1 and 1024, then that many
/// nonzero block sizes.
pub open spec fn m_header(b: Seq<u8>, p: int) -> Result<(HeaderModel, int), DatError> {
    match m_u32(b, p) {
        Err(e) => Err(e),
        Ok(count) => if count == 0 || count > 1024 {
            Err(DatError::InvalidBlockCount { count })
        } else {
            match m_block_sizes(b, p + 4, count as int) {
                Err(e) => Err(e),
                Ok((sizes, q)) => Ok((HeaderModel { block_count: count, block_sizes: sizes }, q)),
            }
        },
    }
}

// -- instruction decoding ----------------------------------------------

/// Whether a candidate total size passes the lookahead test for the
/// instruction starting at `pos`: the byte just after the candidate
/// instruction must still lie before `end` and look like an opcode.
pub open spec fn cand_ok(b: Seq<u8>, pos: int, end: int, s: usize) -> bool {
    pos + s < end && b[pos + s] <= 0xD9
}

/// The candidate sizes that pass the lookahead test, in table order.
pub open spec fn valid_sizes(b: Seq<u8>, pos: int, end: int, szs: Seq<usize>) -> Seq<usize>
    decreases szs.len(),
{
    if szs.len() == 0 {
        Seq::empty()
    } else {
        let rest = valid_sizes(b, pos, end, szs.skip(1));
        if cand_ok(b, pos, end, szs[0]) {
            seq![szs[0]] + rest
        } else {
            rest
        }
    }
}

/// The total size chosen for the instruction at `pos`: the single listed
/// size if the table lists only one; else the unique candidate that passes
/// the lookahead test; else whatever a registered resolver answers; else
/// nothing, which makes the rest of the series fall back to raw bytes.
pub open spec fn m_choose_size(b: Seq<u8>, pos: int, end: int, op: u8) -> Option<usize> {
    let szs = spec_sizes(op);
    if szs.len() == 1 {
        Some(szs[0])
    } else {
        let vc = valid_sizes(b, pos, end, szs);
        if vc.len() == 1 {
            Some(vc[0])
        } else if spec_has_resolver(op) {
            spec_resolve(op, b.subrange(pos + 1, end))
        } else {
            None
        }
    }
}

/// Decodes the instructions of the span `[pos, end)`, or `None` when any
/// instruction's length cannot be determined — in which case the whole
/// remaining series degrades to raw bytes.
pub open spec fn m_ops(b: Seq<u8>, pos: int, end: int) -> Option<Seq<OpModel>>
    decreases end - pos,
{
    if pos >= end {
        Some(Seq::empty())
    } else {
        let op = b[pos];
        if op > 0xD9 {
            None
        } else {
            match m_choose_size(b, pos, end, op) {
                None => None,
                Some(sz) => {
                    let plen: int = if sz > 0 {
                        sz - 1
                    } else {
                        0
                    };
                    if pos + 1 + plen > end {
                        None
                    } else {
                        match m_ops(b, pos + 1 + plen, end) {
                            None => None,
                            Some(rest) => Some(
                                seq![
                                    OpModel { opcode: op, params: b.subrange(pos + 1, pos + 1 + plen) },
                                ] + rest,
                            ),
                        }
                    }
                },
            }
        }
    }
}

/// Decodes the series starting at index `i`, with the cursor at `cur`.
/// Series `i` ends where series `i + 1` starts — at `data_start` plus its
/// tag offset — and the last series ends where the stream does.
pub open spec fn m_series(
    b: Seq<u8>,
    data_start: int,
    size: int,
    offsets: Seq<u16>,
    execs: Seq<u16>,
    i: int,
    cur: int,
) -> Result<(Seq<SeriesModel>, int), DatError>
    decreases offsets.len() - i,
{
    if i >= offsets.len() || i >= execs.len() {
        Ok((Seq::empty(), cur))
    } else {
        let end: int = if i + 1 < offsets.len() {
            data_start + offsets[i + 1]
        } else {
            data_start + size
        };
        if cur == end {
            match m_series(b, data_start, size, offsets, execs, i + 1, cur) {
                Err(e) => Err(e),
                Ok((rest, q)) => Ok(
                    (
                        seq![
                            SeriesModel { id: execs[i], parsed_data: PayloadModel::RawBytes(Seq::empty()) },
                        ] + rest,
                        q,
                    ),
                ),
            }
        } else if cur > end || end > b.len() {
            Err(DatError::InvalidSeriesBounds { start: cur as usize })
        } else {
            let payload = match m_ops(b, cur, end) {
                Some(ops) => PayloadModel::Opcodes(ops),
                None => PayloadModel::RawBytes(b.subrange(cur, end)),
            };
            match m_series(b, data_start, size, offsets, execs, i + 1, end) {
                Err(e) => Err(e),
                Ok((rest, q)) => Ok(
                    (seq![SeriesModel { id: execs[i], parsed_data: payload }] + rest, q),
                ),
            }
        }
    }
}

/// One event block, starting at `p`.
pub open spec fn m_block(b: Seq<u8>, p: int) -> Result<(BlockModel, int), DatError> {
    match m_u32(b, p) {
        Err(e) => Err(e),
        Ok(actor) => match m_u32(b, p + 4) {
            Err(e) => Err(e),
            Ok(tag_count) => match m_u16s(b, p + 8, tag_count as int) {
                Err(e) => Err(e),
                Ok((offsets, p1)) => match m_u16s(b, p1, tag_count as int) {
                    Err(e) => Err(e),
                    Ok((execs, p2)) => match m_u32(b, p2) {
                        Err(e) => Err(e),
                        Ok(immed_count) => match m_u32s(b, p2 + 4, immed_count as int) {
                            Err(e) => Err(e),
                            Ok((immed, p3)) => match m_u32(b, p3) {
                                Err(e) => Err(e),
                                Ok(size) => if size == 0 || size > b.len() - (p3 + 4) {
                                    Err(DatError::InvalidEventDataSize { size })
                                } else {
                                    match m_series(
                                        b,
                                        p3 + 4,
                                        size as int,
                                        offsets,
                                        execs,
                                        0,
                                        p3 + 4,
                                    ) {
                                        Err(e) => Err(e),
                                        Ok((series, p4)) => {
                                            let pad = pad_len_of(size as int);
                                            if p4 + pad > b.len() {
                                                Err(
                                                    DatError::OutOfRange {
                                                        buffer_length: b.len() as usize,
                                                        requested_index: p4 as usize,
                                                    },
                                                )
                                            } else {
                                                Ok(
                                                    (
                                                        BlockModel {
                                                            actor_number: actor,
                                                            tag_count,
                                                            tag_offsets: offsets,
                                                            event_exec_nums: execs,
                                                            immed_count,
                                                            immed_data: immed,
                                                            event_series: series,
                                                        },
                                                        p4 + pad,
                                                    ),
                                                )
                                            }
                                        },
                                    }
                                },
                            },
                        },
                    },
                },
            },
        },
    }
}

/// `n` consecutive blocks starting at `p`.
pub open spec fn m_blocks(b: Seq<u8>, p: int, n: int) -> Result<(Seq<BlockModel>, int), DatError>
    decreases n,
{
    if n <= 0 {
        Ok((Seq::empty(), p))
    } else {
        match m_block(b, p) {
            Err(e) => Err(e),
            Ok((blk, q)) => match m_blocks(b, q, n - 1) {
                Err(e) => Err(e),
                Ok((blks, r)) => Ok((seq![blk] + blks, r)),
            },
        }
    }
}

/// A whole event file starting at `p`: the header, then as many blocks as
/// it declares.
pub open spec fn m_event(b: Seq<u8>, p: int) -> Result<(EventModel, int), DatError> {
    match m_header(b, p) {
        Err(e) => Err(e),
        Ok((h, p1)) => match m_blocks(b, p1, h.block_count as int) {
            Err(e) => Err(e),
            Ok((blks, p2)) => Ok((EventModel { header: h, blocks: blks }, p2)),
        },
    }
}

} // verus!

verus! {

/// Appending one value extends its run's encoding by its two bytes.
pub proof fn lemma_enc_u16s_push(s: Seq<u16>, x: u16)
    ensures
        enc_u16s(s.push(x)) == enc_u16s(s) + le16(x),
    decreases s.len(),
{
    if s.len() == 0 {
        reveal_with_fuel(enc_u16s, 2);
        assert(s.push(x).skip(1) =~= Seq::<u16>::empty());
        assert(le16(x) + Seq::<u8>::empty() =~= le16(x));
        assert(Seq::<u8>::empty() + le16(x) =~= le16(x));
        assert(enc_u16s(s.push(x)) =~= enc_u16s(s) + le16(x));
    } else {
        assert(s.push(x).skip(1) =~= s.skip(1).push(x));
        lemma_enc_u16s_push(s.skip(1), x);
        assert((le16(s[0]) + enc_u16s(s.skip(1))) + le16(x) =~= le16(s[0]) + (enc_u16s(
            s.skip(1),
        ) + le16(x)));
    }
}

/// Appending one value extends its run's encoding by its four bytes.
pub proof fn lemma_enc_u32s_push(s: Seq<u32>, x: u32)
    ensures
        enc_u32s(s.push(x)) == enc_u32s(s) + le32(x),
    decreases s.len(),
{
    if s.len() == 0 {
        reveal_with_fuel(enc_u32s, 2);
        assert(s.push(x).skip(1) =~= Seq::<u32>::empty());
        assert(le32(x) + Seq::<u8>::empty() =~= le32(x));
        assert(Seq::<u8>::empty() + le32(x) =~= le32(x));
        assert(enc_u32s(s.push(x)) =~= enc_u32s(s) + le32(x));
    } else {
        assert(s.push(x).skip(1) =~= s.skip(1).push(x));
        lemma_enc_u32s_push(s.skip(1), x);
        assert((le32(s[0]) + enc_u32s(s.skip(1))) + le32(x) =~= le32(s[0]) + (enc_u32s(
            s.skip(1),
        ) + le32(x)));
    }
}

/// Appending one instruction extends the run's encoding by its bytes.
pub proof fn lemma_enc_ops_push(s: Seq<OpModel>, x: OpModel)
    ensures
        enc_ops(s.push(x)) == enc_ops(s) + enc_op(x),
    decreases s.len(),
{
    if s.len() == 0 {
        reveal_with_fuel(enc_ops, 2);
        assert(s.push(x).skip(1) =~= Seq::<OpModel>::empty());
        assert(enc_op(x) + Seq::<u8>::empty() =~= enc_op(x));
        assert(Seq::<u8>::empty() + enc_op(x) =~= enc_op(x));
        assert(enc_ops(s.push(x)) =~= enc_ops(s) + enc_op(x));
    } else {
        assert(s.push(x).skip(1) =~= s.skip(1).push(x));
        lemma_enc_ops_push(s.skip(1), x);
        assert((enc_op(s[0]) + enc_ops(s.skip(1))) + enc_op(x) =~= enc_op(s[0]) + (enc_ops(
            s.skip(1),
        ) + enc_op(x)));
    }
}

/// Appending one series extends the stream's encoding by its payload.
pub proof fn lemma_enc_series_push(s: Seq<SeriesModel>, x: SeriesModel)
    ensures
        enc_series_list(s.push(x)) == enc_series_list(s) + enc_payload(x.parsed_data),
    decreases s.len(),
{
    if s.len() == 0 {
        reveal_with_fuel(enc_series_list, 2);
        assert(s.push(x).skip(1) =~= Seq::<SeriesModel>::empty());
        assert(enc_payload(x.parsed_data) + Seq::<u8>::empty() =~= enc_payload(x.parsed_data));
        assert(Seq::<u8>::empty() + enc_payload(x.parsed_data) =~= enc_payload(x.parsed_data));
        assert(enc_series_list(s.push(x)) =~= enc_series_list(s) + enc_payload(x.parsed_data));
    } else {
        assert(s.push(x).skip(1) =~= s.skip(1).push(x));
        lemma_enc_series_push(s.skip(1), x);
        assert((enc_payload(s[0].parsed_data) + enc_series_list(s.skip(1))) + enc_payload(
            x.parsed_data,
        ) =~= enc_payload(s[0].parsed_data) + (enc_series_list(s.skip(1)) + enc_payload(
            x.parsed_data,
        )));
    }
}

/// Appending one block extends the file's encoding by the block's bytes.
#[verifier::rlimit(30)]
pub proof fn lemma_enc_blocks_push(s: Seq<BlockModel>, x: BlockModel)
    ensures
        enc_blocks(s.push(x)) == enc_blocks(s) + enc_block(x),
    decreases s.len(),
{
    if s.len() == 0 {
        reveal_with_fuel(enc_blocks, 2);
        assert(s.push(x).skip(1) =~= Seq::<BlockModel>::empty());
        assert(enc_block(x) + Seq::<u8>::empty() =~= enc_block(x));
        assert(Seq::<u8>::empty() + enc_block(x) =~= enc_block(x));
        assert(enc_blocks(s.push(x)) =~= enc_blocks(s) + enc_block(x));
    } else {
        assert(s.push(x).skip(1) =~= s.skip(1).push(x));
        lemma_enc_blocks_push(s.skip(1), x);
        assert((enc_block(s[0]) + enc_blocks(s.skip(1))) + enc_block(x) =~= enc_block(s[0])
            + (enc_blocks(s.skip(1)) + enc_block(x)));
    }
}

/// A run of instructions encodes as its first `i` instructions followed by
/// the rest.
pub proof fn lemma_enc_ops_split(ops: Seq<OpModel>, i: int)
    requires
        0 <= i <= ops.len(),
    ensures
        enc_ops(ops) == enc_ops(ops.take(i)) + enc_ops(ops.skip(i)),
    decreases i,
{
    if i == 0 {
        assert(ops.take(0) =~= Seq::<OpModel>::empty());
        assert(ops.skip(0) =~= ops);
        assert(Seq::<u8>::empty() + enc_ops(ops) =~= enc_ops(ops));
    } else {
        lemma_enc_ops_split(ops.skip(1), i - 1);
        assert(ops.skip(1).take(i - 1) =~= ops.take(i).skip(1));
        assert(ops.skip(1).skip(i - 1) =~= ops.skip(i));
        assert(ops.take(i)[0] == ops[0]);
        assert((enc_op(ops[0]) + enc_ops(ops.take(i).skip(1))) + enc_ops(ops.skip(i))
            =~= enc_op(ops[0]) + (enc_ops(ops.take(i).skip(1)) + enc_ops(ops.skip(i))));
    }
}

/// An instruction stream encodes as its first `i` series followed by the
/// rest.
pub proof fn lemma_enc_series_split(ss: Seq<SeriesModel>, i: int)
    requires
        0 <= i <= ss.len(),
    ensures
        enc_series_list(ss) == enc_series_list(ss.take(i)) + enc_series_list(ss.skip(i)),
    decreases i,
{
    if i == 0 {
        assert(ss.take(0) =~= Seq::<SeriesModel>::empty());
        assert(ss.skip(0) =~= ss);
        assert(Seq::<u8>::empty() + enc_series_list(ss) =~= enc_series_list(ss));
    } else {
        lemma_enc_series_split(ss.skip(1), i - 1);
        assert(ss.skip(1).take(i - 1) =~= ss.take(i).skip(1));
        assert(ss.skip(1).skip(i - 1) =~= ss.skip(i));
        assert(ss.take(i)[0] == ss[0]);
        assert((enc_payload(ss[0].parsed_data) + enc_series_list(ss.take(i).skip(1)))
            + enc_series_list(ss.skip(i)) =~= enc_payload(ss[0].parsed_data) + (enc_series_list(
            ss.take(i).skip(1),
        ) + enc_series_list(ss.skip(i))));
    }
}

} // verus!

verus! {

/// What a successful 16-bit-run read guarantees: the count, the final
/// position, and that re-encoding the values reproduces the bytes read.
pub proof fn lemma_m_u16s_props(b: Seq<u8>, p: int, n: int)
    requires
        0 <= p <= b.len(),
        m_u16s(b, p, n) is Ok,
    ensures
        m_u16s(b, p, n)->Ok_0.0.len() == if n <= 0 { 0 } else { n },
        m_u16s(b, p, n)->Ok_0.1 == if n <= 0 { p } else { p + 2 * n },
        p <= m_u16s(b, p, n)->Ok_0.1 <= b.len(),
        enc_u16s(m_u16s(b, p, n)->Ok_0.0) == b.subrange(p, m_u16s(b, p, n)->Ok_0.1),
    decreases n,
{
    let (vs, q) = m_u16s(b, p, n)->Ok_0;
    if n <= 0 {
        assert(enc_u16s(vs) =~= b.subrange(p, p));
    } else {
        let v = m_u16(b, p)->Ok_0;
        lemma_m_u16s_props(b, p + 2, n - 1);
        let (vs1, q1) = m_u16s(b, p + 2, n - 1)->Ok_0;
        crate::byte_walker::lemma_le16_round(b[p], b[p + 1]);
        assert((seq![v] + vs1).skip(1) =~= vs1);
        assert((seq![v] + vs1)[0] == v);
        assert(enc_u16s(vs) =~= le16(v) + enc_u16s(vs1));
        assert(le16(v) + b.subrange(p + 2, q1) =~= b.subrange(p, q1));
    }
}

/// What a successful 32-bit-run read guarantees.
pub proof fn lemma_m_u32s_props(b: Seq<u8>, p: int, n: int)
    requires
        0 <= p <= b.len(),
        m_u32s(b, p, n) is Ok,
    ensures
        m_u32s(b, p, n)->Ok_0.0.len() == if n <= 0 { 0 } else { n },
        m_u32s(b, p, n)->Ok_0.1 == if n <= 0 { p } else { p + 4 * n },
        p <= m_u32s(b, p, n)->Ok_0.1 <= b.len(),
        enc_u32s(m_u32s(b, p, n)->Ok_0.0) == b.subrange(p, m_u32s(b, p, n)->Ok_0.1),
    decreases n,
{
    let (vs, q) = m_u32s(b, p, n)->Ok_0;
    if n <= 0 {
        assert(enc_u32s(vs) =~= b.subrange(p, p));
    } else {
        let v = m_u32(b, p)->Ok_0;
        lemma_m_u32s_props(b, p + 4, n - 1);
        let (vs1, q1) = m_u32s(b, p + 4, n - 1)->Ok_0;
        crate::byte_walker::lemma_le32_round(b[p], b[p + 1], b[p + 2], b[p + 3]);
        assert((seq![v] + vs1).skip(1) =~= vs1);
        assert((seq![v] + vs1)[0] == v);
        assert(enc_u32s(vs) =~= le32(v) + enc_u32s(vs1));
        assert(le32(v) + b.subrange(p + 4, q1) =~= b.subrange(p, q1));
    }
}

/// What a successful block-size-run read guarantees.
pub proof fn lemma_m_block_sizes_props(b: Seq<u8>, p: int, n: int)
    requires
        0 <= p <= b.len(),
        m_block_sizes(b, p, n) is Ok,
    ensures
        m_block_sizes(b, p, n)->Ok_0.0.len() == if n <= 0 { 0 } else { n },
        m_block_sizes(b, p, n)->Ok_0.1 == if n <= 0 { p } else { p + 4 * n },
        p <= m_block_sizes(b, p, n)->Ok_0.1 <= b.len(),
        enc_u32s(m_block_sizes(b, p, n)->Ok_0.0) == b.subrange(p, m_block_sizes(b, p, n)->Ok_0.1),
    decreases n,
{
    let (vs, q) = m_block_sizes(b, p, n)->Ok_0;
    if n <= 0 {
        assert(enc_u32s(vs) =~= b.subrange(p, p));
    } else {
        let v = m_u32(b, p)->Ok_0;
        lemma_m_block_sizes_props(b, p + 4, n - 1);
        let (vs1, q1) = m_block_sizes(b, p + 4, n - 1)->Ok_0;
        crate::byte_walker::lemma_le32_round(b[p], b[p + 1], b[p + 2], b[p + 3]);
        assert((seq![v] + vs1).skip(1) =~= vs1);
        assert((seq![v] + vs1)[0] == v);
        assert(enc_u32s(vs) =~= le32(v) + enc_u32s(vs1));
        assert(le32(v) + b.subrange(p + 4, q1) =~= b.subrange(p, q1));
    }
}

/// Re-encoding successfully decoded instructions reproduces exactly the
/// bytes of their span.
pub proof fn lemma_m_ops_round(b: Seq<u8>, pos: int, end: int)
    requires
        0 <= pos <= end <= b.len(),
        m_ops(b, pos, end) is Some,
    ensures
        enc_ops(m_ops(b, pos, end)->Some_0) == b.subrange(pos, end),
    decreases end - pos,
{
    let ops = m_ops(b, pos, end)->Some_0;
    if pos >= end {
        assert(enc_ops(ops) =~= b.subrange(pos, end));
    } else {
        let op = b[pos];
        let sz = m_choose_size(b, pos, end, op)->Some_0;
        let plen: int = if sz > 0 { sz - 1 } else { 0 };
        lemma_m_ops_round(b, pos + 1 + plen, end);
        let rest = m_ops(b, pos + 1 + plen, end)->Some_0;
        let opm = OpModel { opcode: op, params: b.subrange(pos + 1, pos + 1 + plen) };
        assert((seq![opm] + rest).skip(1) =~= rest);
        assert((seq![opm] + rest)[0] == opm);
        assert(enc_ops(ops) =~= enc_op(opm) + enc_ops(rest));
        assert(enc_op(opm) + b.subrange(pos + 1 + plen, end) =~= b.subrange(pos, end));
    }
}

/// Re-encoding successfully decoded series reproduces exactly the bytes
/// between the cursor and the stream's end; when at least one series
/// remains, decoding ends exactly at the stream's end.
pub proof fn lemma_m_series_props(
    b: Seq<u8>,
    ds: int,
    size: int,
    offsets: Seq<u16>,
    execs: Seq<u16>,
    i: int,
    cur: int,
)
    requires
        0 <= i,
        0 <= cur <= b.len(),
        offsets.len() == execs.len(),
        m_series(b, ds, size, offsets, execs, i, cur) is Ok,
    ensures
        m_series(b, ds, size, offsets, execs, i, cur)->Ok_0.0.len() == if i <= offsets.len() {
            offsets.len() - i
        } else {
            0
        },
        cur <= m_series(b, ds, size, offsets, execs, i, cur)->Ok_0.1 <= b.len(),
        enc_series_list(m_series(b, ds, size, offsets, execs, i, cur)->Ok_0.0) == b.subrange(
            cur,
            m_series(b, ds, size, offsets, execs, i, cur)->Ok_0.1,
        ),
        i < offsets.len() ==> m_series(b, ds, size, offsets, execs, i, cur)->Ok_0.1 == ds + size,
    decreases offsets.len() - i,
{
    let (ss, q) = m_series(b, ds, size, offsets, execs, i, cur)->Ok_0;
    if i >= offsets.len() {
        assert(enc_series_list(ss) =~= b.subrange(cur, cur));
    } else {
        let end: int = if i + 1 < offsets.len() {
            ds + offsets[i + 1]
        } else {
            ds + size
        };
        if cur == end {
            let sm = SeriesModel {
                id: execs[i],
                parsed_data: PayloadModel::RawBytes(Seq::empty()),
            };
            lemma_m_series_props(b, ds, size, offsets, execs, i + 1, cur);
            let (rest, q1) = m_series(b, ds, size, offsets, execs, i + 1, cur)->Ok_0;
            assert((seq![sm] + rest).skip(1) =~= rest);
            assert((seq![sm] + rest)[0] == sm);
            assert(enc_series_list(ss) =~= enc_payload(sm.parsed_data) + enc_series_list(rest));
            assert(Seq::<u8>::empty() + b.subrange(cur, q1) =~= b.subrange(cur, q1));
            if i + 1 >= offsets.len() {
                assert(q == cur);
                assert(cur == ds + size);
            }
        } else {
            let payload = match m_ops(b, cur, end) {
                Some(ops) => PayloadModel::Opcodes(ops),
                None => PayloadModel::RawBytes(b.subrange(cur, end)),
            };
            let sm = SeriesModel { id: execs[i], parsed_data: payload };
            if m_ops(b, cur, end) is Some {
                lemma_m_ops_round(b, cur, end);
            }
            assert(enc_payload(payload) == b.subrange(cur, end));
            lemma_m_series_props(b, ds, size, offsets, execs, i + 1, end);
            let (rest, q1) = m_series(b, ds, size, offsets, execs, i + 1, end)->Ok_0;
            assert((seq![sm] + rest).skip(1) =~= rest);
            assert((seq![sm] + rest)[0] == sm);
            assert(enc_series_list(ss) =~= enc_payload(payload) + enc_series_list(rest));
            assert(b.subrange(cur, end) + b.subrange(end, q1) =~= b.subrange(cur, q1));
            if i + 1 >= offsets.len() {
                assert(q == end);
                assert(end == ds + size);
            }
        }
    }
}

} // verus!

verus! {

/// Whether every block of a file holds at least one series. A block with
/// none leaves its stored stream untouched when decoding, so only files
/// whose blocks all have series re-encode byte-for-byte.
pub open spec fn all_tags_positive(ev: EventModel) -> bool {
    forall|i: int| 0 <= i < ev.blocks.len() ==> (#[trigger] ev.blocks[i]).tag_count >= 1
}

/// Whether the padding region of one block, decoded at `p`, holds the
/// canonical `0xFF` filler in the buffer.
pub open spec fn block_pads_ff(b: Seq<u8>, p: int, blk: BlockModel) -> bool {
    forall|k: int|
        p + enc_block_body(blk).len() <= k < p + enc_block(blk).len() ==> #[trigger] b[k] == 0xFF
}

/// Whether every padding region of a run of blocks holds `0xFF`.
pub open spec fn blocks_pads_ff(b: Seq<u8>, p: int, blks: Seq<BlockModel>) -> bool
    decreases blks.len(),
{
    if blks.len() == 0 {
        true
    } else {
        block_pads_ff(b, p, blks[0]) && blocks_pads_ff(
            b,
            p + enc_block(blks[0]).len(),
            blks.skip(1),
        )
    }
}

/// Whether every padding byte of an event file decoded at `p` is `0xFF`.
pub open spec fn event_pads_ff(b: Seq<u8>, p: int, ev: EventModel) -> bool {
    blocks_pads_ff(b, p + 4 + 4 * ev.header.block_sizes.len(), ev.blocks)
}

/// What a successful block decode guarantees: the structure's length
/// invariants, that it can be re-encoded, and — when it holds at least one
/// series — that its re-encoded body reproduces the bytes it was decoded
/// from, up to its padding region.
#[verifier::rlimit(80)]
pub proof fn lemma_m_block_props(b: Seq<u8>, p: int)
    requires
        0 <= p <= b.len(),
        m_block(b, p) is Ok,
    ensures
        ({
            let (blk, q) = m_block(b, p)->Ok_0;
            &&& wf_block(blk)
            &&& encodable_block(blk)
            &&& p <= q <= b.len()
            &&& (blk.tag_count >= 1 ==> {
                &&& enc_block(blk).len() == q - p
                &&& enc_block_body(blk) == b.subrange(
                    p,
                    q - pad_len_of(data_size(blk)),
                )
            })
        }),
{
    let (blk, q) = m_block(b, p)->Ok_0;
    let actor = m_u32(b, p)->Ok_0;
    let tag_count = m_u32(b, p + 4)->Ok_0;
    lemma_m_u16s_props(b, p + 8, tag_count as int);
    let (offsets, p1) = m_u16s(b, p + 8, tag_count as int)->Ok_0;
    lemma_m_u16s_props(b, p1, tag_count as int);
    let (execs, p2) = m_u16s(b, p1, tag_count as int)->Ok_0;
    let immed_count = m_u32(b, p2)->Ok_0;
    lemma_m_u32s_props(b, p2 + 4, immed_count as int);
    let (immed, p3) = m_u32s(b, p2 + 4, immed_count as int)->Ok_0;
    let size = m_u32(b, p3)->Ok_0;
    let ds = p3 + 4;
    lemma_m_series_props(b, ds, size as int, offsets, execs, 0, ds);
    let (series, p4) = m_series(b, ds, size as int, offsets, execs, 0, ds)->Ok_0;
    let pad = pad_len_of(size as int);
    assert(q == p4 + pad);
    crate::byte_walker::lemma_le32_round(b[p], b[p + 1], b[p + 2], b[p + 3]);
    crate::byte_walker::lemma_le32_round(b[p + 4], b[p + 5], b[p + 6], b[p + 7]);
    crate::byte_walker::lemma_le32_round(b[p2], b[p2 + 1], b[p2 + 2], b[p2 + 3]);
    crate::byte_walker::lemma_le32_round(b[p3], b[p3 + 1], b[p3 + 2], b[p3 + 3]);
    assert(le32(actor) =~= b.subrange(p, p + 4));
    assert(le32(tag_count) =~= b.subrange(p + 4, p + 8));
    assert(le32(immed_count) =~= b.subrange(p2, p2 + 4));
    assert(le32(size) =~= b.subrange(p3, p3 + 4));
    if tag_count >= 1 {
        assert(p4 == ds + size);
        assert(data_size(blk) == size as int);
        assert(enc_block_body(blk) =~= b.subrange(p, p4));
        assert(enc_block(blk).len() == q - p);
        assert(enc_block_body(blk) == b.subrange(p, q - pad_len_of(data_size(blk))));
    }
}

/// What a successful run of block decodes guarantees; with every block
/// holding a series and every padding byte canonical, re-encoding the run
/// reproduces its bytes.
#[verifier::rlimit(100)]
pub proof fn lemma_m_blocks_props(b: Seq<u8>, p: int, n: int)
    requires
        0 <= p <= b.len(),
        m_blocks(b, p, n) is Ok,
    ensures
        ({
            let (blks, q) = m_blocks(b, p, n)->Ok_0;
            &&& blks.len() == if n <= 0 { 0 } else { n }
            &&& p <= q <= b.len()
            &&& (forall|i: int| 0 <= i < blks.len() ==> wf_block(#[trigger] blks[i]))
            &&& (forall|i: int| 0 <= i < blks.len() ==> encodable_block(#[trigger] blks[i]))
            &&& ((forall|i: int|
                0 <= i < blks.len() ==> (#[trigger] blks[i]).tag_count >= 1) && blocks_pads_ff(
                b,
                p,
                blks,
            ) ==> enc_blocks(blks) == b.subrange(p, q))
        }),
    decreases n,
{
    let (blks, q) = m_blocks(b, p, n)->Ok_0;
    if n <= 0 {
        assert(enc_blocks(blks) =~= b.subrange(p, p));
    } else {
        lemma_m_block_props(b, p);
        let (blk, q1) = m_block(b, p)->Ok_0;
        lemma_m_blocks_props(b, q1, n - 1);
        let (blks1, q2) = m_blocks(b, q1, n - 1)->Ok_0;
        assert((seq![blk] + blks1).skip(1) =~= blks1);
        assert((seq![blk] + blks1)[0] == blk);
        assert(forall|i: int|
            0 <= i < blks.len() ==> #[trigger] blks[i] == if i == 0 {
                blk
            } else {
                blks1[i - 1]
            });
        if (forall|i: int| 0 <= i < blks.len() ==> (#[trigger] blks[i]).tag_count >= 1)
            && blocks_pads_ff(b, p, blks) {
            assert(blk.tag_count >= 1);
            assert(enc_block(blk).len() == q1 - p);
            assert(block_pads_ff(b, p, blk));
            assert(enc_block(blk) =~= b.subrange(p, q1));
            assert(blocks_pads_ff(b, q1, blks1));
            assert(forall|i: int|
                0 <= i < blks1.len() ==> (#[trigger] blks1[i]).tag_count >= 1) by {
                assert(forall|i: int|
                    0 <= i < blks1.len() ==> blks1[i] == #[trigger] blks[i + 1]);
            }
            assert(enc_blocks(blks) =~= enc_block(blk) + enc_blocks(blks1));
            assert(b.subrange(p, q1) + b.subrange(q1, q2) =~= b.subrange(p, q2));
        }
    }
}

/// What a successful event-file decode guarantees: its length invariants
/// and that it can be re-encoded.
pub proof fn lemma_m_event_props(b: Seq<u8>, p: int)
    requires
        0 <= p <= b.len(),
        m_event(b, p) is Ok,
    ensures
        ({
            let (ev, q) = m_event(b, p)->Ok_0;
            &&& wf_event(ev)
            &&& encodable_event(ev)
            &&& p <= q <= b.len()
            &&& (all_tags_positive(ev) && event_pads_ff(b, p, ev) ==> enc_event(ev)
                == b.subrange(p, q))
        }),
{
    let (ev, q) = m_event(b, p)->Ok_0;
    let (h, p1) = m_header(b, p)->Ok_0;
    let count = m_u32(b, p)->Ok_0;
    lemma_m_block_sizes_props(b, p + 4, count as int);
    crate::byte_walker::lemma_le32_round(b[p], b[p + 1], b[p + 2], b[p + 3]);
    assert(le32(count) =~= b.subrange(p, p + 4));
    lemma_m_blocks_props(b, p1, count as int);
    let (blks, p2) = m_blocks(b, p1, count as int)->Ok_0;
    if all_tags_positive(ev) && event_pads_ff(b, p, ev) {
        assert(blocks_pads_ff(b, p1, blks));
        assert(enc_blocks(blks) == b.subrange(p1, p2));
        assert(enc_u32s(h.block_sizes) == b.subrange(p + 4, p1));
        assert(enc_event(ev) =~= b.subrange(p, q));
    }
}

/// The round-trip law of the event codec: re-encoding a decoded event file
/// reproduces exactly the bytes it was decoded from, for every file whose
/// blocks each hold at least one series and whose padding bytes are the
/// canonical `0xFF` filler.
pub proof fn lemma_event_round_trip(b: Seq<u8>, p: int, ev: EventModel, q: int)
    requires
        0 <= p <= b.len(),
        m_event(b, p) == Ok::<(EventModel, int), DatError>((ev, q)),
        all_tags_positive(ev),
        event_pads_ff(b, p, ev),
    ensures
        enc_event(ev) == b.subrange(p, q),
{
    lemma_m_event_props(b, p);
}

/// Every successfully decoded event file satisfies its length invariants
/// and can be handed back to the encoder.
pub proof fn lemma_event_parse_wf(b: Seq<u8>, p: int, ev: EventModel, q: int)
    requires
        0 <= p <= b.len(),
        m_event(b, p) == Ok::<(EventModel, int), DatError>((ev, q)),
    ensures
        wf_event(ev),
        encodable_event(ev),
        p <= q <= b.len(),
{
    lemma_m_event_props(b, p);
}

} // verus!

verus! {

/// The empty-series law: a series whose start equals its end offset
/// decodes to an empty raw-bytes payload under its own executive number,
/// consumes no bytes, and leaves every following series to decode from its
/// own boundary.
pub proof fn lemma_empty_series(
    b: Seq<u8>,
    ds: int,
    size: int,
    offsets: Seq<u16>,
    execs: Seq<u16>,
    i: int,
    cur: int,
)
    requires
        0 <= i < offsets.len(),
        i < execs.len(),
        cur == if i + 1 < offsets.len() {
            ds + offsets[i + 1]
        } else {
            ds + size
        },
    ensures
        m_series(b, ds, size, offsets, execs, i, cur) == match m_series(
            b,
            ds,
            size,
            offsets,
            execs,
            i + 1,
            cur,
        ) {
            Ok((rest, q)) => Ok::<(Seq<SeriesModel>, int), DatError>(
                (
                    seq![
                        SeriesModel { id: execs[i], parsed_data: PayloadModel::RawBytes(Seq::empty()) },
                    ] + rest,
                    q,
                ),
            ),
            Err(e) => Err::<(Seq<SeriesModel>, int), DatError>(e),
        },
{
}

} // verus!
