//! The event-file codec: decoded structures and, further below, the
//! executable decoder and encoder proved against the mirror in
//! [`crate::event_model`].

use vstd::prelude::*;

use crate::byte_walker::{le16, le32, SliceByteWalker, VecByteWalker};
use crate::error::DatError;
use vstd::slice::slice_to_vec;

use crate::event_model::{
    cand_ok, data_size, enc_block, enc_blocks, enc_event, enc_op, enc_ops, enc_series_list,
    enc_u16s, enc_u32s, encodable_block, encodable_event, lemma_enc_blocks_push,
    lemma_enc_ops_push, lemma_enc_ops_split, lemma_enc_series_push, lemma_enc_series_split,
    lemma_enc_u16s_push, lemma_enc_u32s_push, m_block, m_block_sizes, m_blocks, m_choose_size,
    m_event, m_header, m_ops, m_series, m_u16, m_u16s, m_u32, m_u32s, pad_len_of, valid_sizes,
    BlockModel, EventModel, HeaderModel, OpModel, PayloadModel, SeriesModel,
};
use crate::opcode_descriptions::{
    opcode_description, opcode_has_resolver, opcode_sizes_vec, resolve_opcode_size,
    spec_has_resolver, spec_sizes,
};

verus! {

/// The header of an event file: how many blocks follow and their sizes.
#[derive(Debug, Clone, PartialEq, Eq)]
pub struct EventHeader {
    pub block_count: u32,
    pub block_sizes: Vec<u32>,
}

/// A whole decoded event file.
#[derive(Debug, Clone, PartialEq, Eq)]
pub struct Event {
    pub header: EventHeader,
    pub blocks: Vec<EventBlock>,
}

/// One event block: the events of one entity (or of the zone itself, under
/// the actor number `0x7FFFFFFF`).
#[derive(Debug, Clone, PartialEq, Eq)]
pub struct EventBlock {
    pub actor_number: u32,
    pub tag_count: u32,
    pub tag_offsets: Vec<u16>,
    pub event_exec_nums: Vec<u16>,
    pub immed_count: u32,
    pub immed_data: Vec<u32>,
    pub event_series: Vec<EventSeries>,
}

/// One event series: an executive number and its decoded instructions.
#[derive(Debug, Clone, PartialEq, Eq)]
pub struct EventSeries {
    pub id: u16,
    pub parsed_data: ParsedData,
}

/// A series payload: decoded instructions, or the span kept verbatim when
/// an instruction's length could not be determined with confidence.
#[derive(Debug, Clone, PartialEq, Eq)]
pub enum ParsedData {
    Opcodes(Vec<EventOpcode>),
    RawBytes(Vec<u8>),
}

/// One decoded instruction.
#[derive(Debug, Clone, PartialEq, Eq)]
pub struct EventOpcode {
    pub opcode: u8,
    pub params: Vec<u8>,
}

/// What the static table knows of one opcode: a description, the candidate
/// total instruction sizes, and whether a dynamic size resolver exists.
#[derive(Debug)]
pub struct OpcodeMetadata {
    pub description: &'static str,
    pub sizes: Vec<usize>,
    pub has_resolver: bool,
}

impl View for EventOpcode {
    type V = OpModel;

    open spec fn view(&self) -> OpModel {
        OpModel { opcode: self.opcode, params: self.params@ }
    }
}

impl View for ParsedData {
    type V = PayloadModel;

    open spec fn view(&self) -> PayloadModel {
        match self {
            ParsedData::Opcodes(ops) => PayloadModel::Opcodes(
                ops@.map_values(|o: EventOpcode| o@),
            ),
            ParsedData::RawBytes(bytes) => PayloadModel::RawBytes(bytes@),
        }
    }
}

impl View for EventSeries {
    type V = SeriesModel;

    open spec fn view(&self) -> SeriesModel {
        SeriesModel { id: self.id, parsed_data: self.parsed_data@ }
    }
}

impl View for EventBlock {
    type V = BlockModel;

    open spec fn view(&self) -> BlockModel {
        BlockModel {
            actor_number: self.actor_number,
            tag_count: self.tag_count,
            tag_offsets: self.tag_offsets@,
            event_exec_nums: self.event_exec_nums@,
            immed_count: self.immed_count,
            immed_data: self.immed_data@,
            event_series: self.event_series@.map_values(|s: EventSeries| s@),
        }
    }
}

impl View for EventHeader {
    type V = HeaderModel;

    open spec fn view(&self) -> HeaderModel {
        HeaderModel { block_count: self.block_count, block_sizes: self.block_sizes@ }
    }
}

impl View for Event {
    type V = EventModel;

    open spec fn view(&self) -> EventModel {
        EventModel {
            header: self.header@,
            blocks: self.blocks@.map_values(|b: EventBlock| b@),
        }
    }
}

} // verus!

verus! {

/// Reads `n` consecutive little-endian 16-bit values.
pub(crate) fn read_u16s(walker: &mut SliceByteWalker, n: u32) -> (r: Result<Vec<u16>, DatError>)
    requires
        old(walker).wf(),
    ensures
        final(walker).slice@ == old(walker).slice@,
        final(walker).wf(),
        match r {
            Ok(vs) => vs@.len() == n && m_u16s(old(walker).slice@, old(walker).offset as int, n as int)
                == Ok::<(Seq<u16>, int), DatError>((vs@, final(walker).offset as int)),
            Err(e) => m_u16s(old(walker).slice@, old(walker).offset as int, n as int)
                == Err::<(Seq<u16>, int), DatError>(e),
        },
{
    let ghost b = old(walker).slice@;
    let ghost p0 = old(walker).offset as int;
    let mut acc: Vec<u16> = Vec::new();
    let mut i: u32 = 0;
    while i < n
        invariant
            walker.wf(),
            walker.slice@ == b,
            i <= n,
            acc@.len() == i,
            m_u16s(b, p0, n as int) == match m_u16s(b, walker.offset as int, n - i) {
                Ok((vs, q)) => Ok::<(Seq<u16>, int), DatError>((acc@ + vs, q)),
                Err(e) => Err::<(Seq<u16>, int), DatError>(e),
            },
        decreases n - i,
    {
        let ghost cur = walker.offset as int;
        let ghost k = n - i;
        match walker.step_u16() {
            Ok(v) => {
                proof {
                    if m_u16s(b, cur + 2, k - 1) is Ok {
                        let (vs, q) = m_u16s(b, cur + 2, k - 1)->Ok_0;
                        assert(acc@ + (seq![v] + vs) =~= acc@.push(v) + vs);
                    }
                }
                acc.push(v);
                i = i + 1;
            },
            Err(e) => {
                return Err(e);
            },
        }
    }
    proof {
        assert(acc@ + Seq::<u16>::empty() =~= acc@);
    }
    Ok(acc)
}

/// Reads `n` consecutive little-endian 32-bit values.
pub(crate) fn read_u32s(walker: &mut SliceByteWalker, n: u32) -> (r: Result<Vec<u32>, DatError>)
    requires
        old(walker).wf(),
    ensures
        final(walker).slice@ == old(walker).slice@,
        final(walker).wf(),
        final(walker).offset >= old(walker).offset,
        match r {
            Ok(vs) => vs@.len() == n && m_u32s(old(walker).slice@, old(walker).offset as int, n as int)
                == Ok::<(Seq<u32>, int), DatError>((vs@, final(walker).offset as int)),
            Err(e) => m_u32s(old(walker).slice@, old(walker).offset as int, n as int)
                == Err::<(Seq<u32>, int), DatError>(e),
        },
{
    let ghost b = old(walker).slice@;
    let ghost p0 = old(walker).offset as int;
    let mut acc: Vec<u32> = Vec::new();
    let mut i: u32 = 0;
    while i < n
        invariant
            walker.wf(),
            walker.slice@ == b,
            p0 <= walker.offset,
            i <= n,
            acc@.len() == i,
            m_u32s(b, p0, n as int) == match m_u32s(b, walker.offset as int, n - i) {
                Ok((vs, q)) => Ok::<(Seq<u32>, int), DatError>((acc@ + vs, q)),
                Err(e) => Err::<(Seq<u32>, int), DatError>(e),
            },
        decreases n - i,
    {
        let ghost cur = walker.offset as int;
        let ghost k = n - i;
        match walker.step_u32() {
            Ok(v) => {
                proof {
                    if m_u32s(b, cur + 4, k - 1) is Ok {
                        let (vs, q) = m_u32s(b, cur + 4, k - 1)->Ok_0;
                        assert(acc@ + (seq![v] + vs) =~= acc@.push(v) + vs);
                    }
                }
                acc.push(v);
                i = i + 1;
            },
            Err(e) => {
                return Err(e);
            },
        }
    }
    proof {
        assert(acc@ + Seq::<u32>::empty() =~= acc@);
    }
    Ok(acc)
}

/// Reads `n` block sizes, rejecting any that is zero.
fn read_block_sizes(walker: &mut SliceByteWalker, n: u32) -> (r: Result<Vec<u32>, DatError>)
    requires
        old(walker).wf(),
    ensures
        final(walker).slice@ == old(walker).slice@,
        final(walker).wf(),
        match r {
            Ok(vs) => vs@.len() == n && m_block_sizes(old(walker).slice@, old(walker).offset as int, n as int)
                == Ok::<(Seq<u32>, int), DatError>((vs@, final(walker).offset as int)),
            Err(e) => m_block_sizes(old(walker).slice@, old(walker).offset as int, n as int)
                == Err::<(Seq<u32>, int), DatError>(e),
        },
{
    let ghost b = old(walker).slice@;
    let ghost p0 = old(walker).offset as int;
    let mut acc: Vec<u32> = Vec::new();
    let mut i: u32 = 0;
    while i < n
        invariant
            walker.wf(),
            walker.slice@ == b,
            i <= n,
            acc@.len() == i,
            m_block_sizes(b, p0, n as int) == match m_block_sizes(
                b,
                walker.offset as int,
                n - i,
            ) {
                Ok((vs, q)) => Ok::<(Seq<u32>, int), DatError>((acc@ + vs, q)),
                Err(e) => Err::<(Seq<u32>, int), DatError>(e),
            },
        decreases n - i,
    {
        let ghost cur = walker.offset as int;
        let ghost k = n - i;
        match walker.step_u32() {
            Ok(v) => {
                if v == 0 {
                    return Err(DatError::InvalidBlockSize { size: v });
                }
                proof {
                    if m_block_sizes(b, cur + 4, k - 1) is Ok {
                        let (vs, q) = m_block_sizes(b, cur + 4, k - 1)->Ok_0;
                        assert(acc@ + (seq![v] + vs) =~= acc@.push(v) + vs);
                    }
                }
                acc.push(v);
                i = i + 1;
            },
            Err(e) => {
                return Err(e);
            },
        }
    }
    proof {
        assert(acc@ + Seq::<u32>::empty() =~= acc@);
    }
    Ok(acc)
}

impl EventHeader {
    /// Decodes the event-file header: a block count between 1 and 1024,
    /// then that many nonzero block sizes.
    pub fn parse(walker: &mut SliceByteWalker) -> (r: Result<EventHeader, DatError>)
        requires
            old(walker).wf(),
        ensures
            final(walker).slice@ == old(walker).slice@,
            final(walker).wf(),
            match r {
                Ok(h) => m_header(old(walker).slice@, old(walker).offset as int)
                    == Ok::<(HeaderModel, int), DatError>((h@, final(walker).offset as int)),
                Err(e) => m_header(old(walker).slice@, old(walker).offset as int)
                    == Err::<(HeaderModel, int), DatError>(e),
            },
    {
        let block_count = match walker.step_u32() {
            Ok(v) => v,
            Err(e) => {
                return Err(e);
            },
        };
        if block_count == 0 || block_count > 1024 {
            return Err(DatError::InvalidBlockCount { count: block_count });
        }
        let block_sizes = match read_block_sizes(walker, block_count) {
            Ok(vs) => vs,
            Err(e) => {
                return Err(e);
            },
        };
        Ok(EventHeader { block_count, block_sizes })
    }

    /// Reads a block count (rejecting only zero) and that many raw block
    /// sizes; the lighter header check used to sniff whether a buffer is an
    /// event file at all.
    pub fn get_header_values(walker: &mut SliceByteWalker) -> (r: Result<
        (u32, Vec<u32>),
        DatError,
    >)
        requires
            old(walker).wf(),
        ensures
            final(walker).slice@ == old(walker).slice@,
            final(walker).wf(),
            match r {
                Ok((count, sizes)) => {
                    &&& m_u32(old(walker).slice@, old(walker).offset as int)
                        == Ok::<u32, DatError>(count)
                    &&& count != 0
                    &&& m_u32s(old(walker).slice@, old(walker).offset + 4, count as int)
                        == Ok::<(Seq<u32>, int), DatError>((sizes@, final(walker).offset as int))
                },
                Err(e) => match m_u32(old(walker).slice@, old(walker).offset as int) {
                    Err(e2) => e == e2,
                    Ok(count) => if count == 0 {
                        e == (DatError::InvalidBlockCount { count: 0 })
                    } else {
                        m_u32s(old(walker).slice@, old(walker).offset + 4, count as int)
                            == Err::<(Seq<u32>, int), DatError>(e)
                    },
                },
            },
    {
        let block_count = match walker.step_u32() {
            Ok(v) => v,
            Err(e) => {
                return Err(e);
            },
        };
        if block_count == 0 {
            return Err(DatError::InvalidBlockCount { count: block_count });
        }
        let block_sizes = match read_u32s(walker, block_count) {
            Ok(vs) => vs,
            Err(e) => {
                return Err(e);
            },
        };
        Ok((block_count, block_sizes))
    }
}

} // verus!

verus! {

/// Looks up the static metadata of an opcode: present exactly for the
/// opcode bytes `0x00` through `0xD9`.
pub fn opcode_metadata(opcode: u8) -> (r: Option<OpcodeMetadata>)
    ensures
        r is Some <==> opcode <= 0xD9,
        r is Some ==> r->Some_0.sizes@ == spec_sizes(opcode),
        r is Some ==> r->Some_0.has_resolver == spec_has_resolver(opcode),
{
    if opcode <= 0xD9 {
        Some(
            OpcodeMetadata {
                description: opcode_description(opcode),
                sizes: opcode_sizes_vec(opcode),
                has_resolver: opcode_has_resolver(opcode),
            },
        )
    } else {
        None
    }
}

impl EventBlock {
    /// Checks each candidate instruction length: a candidate passes when
    /// the byte just after the candidate instruction still lies before the
    /// series end and looks like a valid opcode. Answers a length only when
    /// exactly one candidate passes.
    pub fn check_opcode_size_by_validity(
        candidate_sizes: &Vec<usize>,
        start_offset: usize,
        walker: &SliceByteWalker,
        end_offset: usize,
    ) -> (r: Option<usize>)
        requires
            walker.wf(),
            start_offset <= end_offset,
            end_offset <= walker.slice@.len(),
        ensures
            ({
                let vc = valid_sizes(
                    walker.slice@,
                    start_offset as int,
                    end_offset as int,
                    candidate_sizes@,
                );
                r == if vc.len() == 1 {
                    Some(vc[0])
                } else {
                    None::<usize>
                }
            }),
    {
        let ghost b = walker.slice@;
        let ghost pos = start_offset as int;
        let ghost end = end_offset as int;
        let mut valid: Vec<usize> = Vec::new();
        let mut i: usize = 0;
        proof {
            assert(candidate_sizes@.skip(0) =~= candidate_sizes@);
            assert(Seq::<usize>::empty() + valid_sizes(b, pos, end, candidate_sizes@)
                =~= valid_sizes(b, pos, end, candidate_sizes@));
        }
        while i < candidate_sizes.len()
            invariant
                i <= candidate_sizes@.len(),
                valid_sizes(b, pos, end, candidate_sizes@) == valid@ + valid_sizes(
                    b,
                    pos,
                    end,
                    candidate_sizes@.skip(i as int),
                ),
            decreases candidate_sizes@.len() - i,
        {
            let ghost rest = candidate_sizes@.skip(i as int);
            proof {
                assert(rest[0] == candidate_sizes@[i as int]);
                assert(rest.skip(1) =~= candidate_sizes@.skip(i as int + 1));
            }
            let length = candidate_sizes[i];
            let ghost valid_before = valid@;
            if length < end_offset - start_offset {
                let next_offset = start_offset + length;
                let next_byte = walker.slice[next_offset];
                if next_byte <= 0xD9 {
                    valid.push(length);
                }
            }
            proof {
                let vrest = valid_sizes(b, pos, end, candidate_sizes@.skip(i as int + 1));
                if cand_ok(b, pos, end, candidate_sizes@[i as int]) {
                    assert(valid_before + (seq![candidate_sizes@[i as int]] + vrest)
                        =~= valid_before.push(candidate_sizes@[i as int]) + vrest);
                }
            }
            i = i + 1;
        }
        proof {
            assert(candidate_sizes@.skip(candidate_sizes@.len() as int)
                =~= Seq::<usize>::empty());
            assert(valid@ + Seq::<usize>::empty() =~= valid@);
        }
        if valid.len() == 1 {
            Some(valid[0])
        } else {
            None
        }
    }
}

/// Rewinds to the series start and keeps the whole span verbatim: the
/// conservative fallback taken when an instruction's length cannot be
/// determined, since a misread length would desynchronise every later
/// offset.
fn raw_fallback(walker: &mut SliceByteWalker, start_offset: usize, end_offset: usize) -> (r:
    ParsedData)
    requires
        old(walker).wf(),
        start_offset <= end_offset,
        end_offset <= old(walker).slice@.len(),
    ensures
        final(walker).slice@ == old(walker).slice@,
        final(walker).wf(),
        final(walker).offset == end_offset,
        r@ == PayloadModel::RawBytes(
            old(walker).slice@.subrange(start_offset as int, end_offset as int),
        ),
{
    walker.goto_usize(start_offset);
    let raw = walker.take_bytes(end_offset - start_offset);
    ParsedData::RawBytes(slice_to_vec(raw))
}

impl EventBlock {
    /// Decodes the instructions between the cursor and `end_offset`. When
    /// any instruction's length cannot be determined — an invalid opcode
    /// byte, an ambiguous size table, a resolver that gives no answer, or a
    /// size that would overrun the series — the whole span is kept verbatim
    /// instead.
    pub fn parse_opcodes(walker: &mut SliceByteWalker, end_offset: usize) -> (r: ParsedData)
        requires
            old(walker).wf(),
            old(walker).offset <= end_offset,
            end_offset <= old(walker).slice@.len(),
        ensures
            final(walker).slice@ == old(walker).slice@,
            final(walker).wf(),
            final(walker).offset == end_offset,
            r@ == match m_ops(
                old(walker).slice@,
                old(walker).offset as int,
                end_offset as int,
            ) {
                Some(ops) => PayloadModel::Opcodes(ops),
                None => PayloadModel::RawBytes(
                    old(walker).slice@.subrange(old(walker).offset as int, end_offset as int),
                ),
            },
    {
        let ghost b = old(walker).slice@;
        let ghost end = end_offset as int;
        let start_offset = walker.offset();
        let mut opcodes: Vec<EventOpcode> = Vec::new();
        while walker.offset() < end_offset
            invariant
                walker.wf(),
                walker.slice@ == b,
                start_offset <= walker.offset <= end_offset,
                m_ops(b, start_offset as int, end) == match m_ops(b, walker.offset as int, end) {
                    Some(rest) => Some(opcodes@.map_values(|o: EventOpcode| o@) + rest),
                    None => None::<Seq<OpModel>>,
                },
            decreases end_offset - walker.offset,
        {
            let ghost pos = walker.offset as int;
            let op_start = walker.offset();
            let opcode = match walker.step_u8() {
                Ok(v) => v,
                Err(_) => {
                    proof {
                        assert(false);
                    }
                    0u8
                },
            };
            if opcode > 0xD9 {
                return raw_fallback(walker, start_offset, end_offset);
            }
            let meta = match opcode_metadata(opcode) {
                Some(m) => m,
                None => {
                    proof {
                        assert(false);
                    }
                    return raw_fallback(walker, start_offset, end_offset);
                },
            };
            let params_length: usize = if meta.sizes.len() == 1 {
                meta.sizes[0]
            } else {
                match Self::check_opcode_size_by_validity(
                    &meta.sizes,
                    op_start,
                    walker,
                    end_offset,
                ) {
                    Some(sz) => sz,
                    None => {
                        if meta.has_resolver {
                            let data: &[u8] = &walker.slice[op_start + 1..end_offset];
                            match resolve_opcode_size(opcode, data, opcodes.as_slice()) {
                                Some(sz) => sz,
                                None => {
                                    return raw_fallback(walker, start_offset, end_offset);
                                },
                            }
                        } else {
                            return raw_fallback(walker, start_offset, end_offset);
                        }
                    },
                }
            };
            let adjusted_params_length: usize = if params_length > 0 {
                params_length - 1
            } else {
                0
            };
            if adjusted_params_length > end_offset - walker.offset() {
                return raw_fallback(walker, start_offset, end_offset);
            }
            let ghost opcodes_before = opcodes@;
            let params_slice = walker.take_bytes(adjusted_params_length);
            let params = slice_to_vec(params_slice);
            opcodes.push(EventOpcode { opcode, params });
            proof {
                let plen: int = if m_choose_size(b, pos, end, opcode)->Some_0 > 0 {
                    m_choose_size(b, pos, end, opcode)->Some_0 - 1
                } else {
                    0
                };
                assert(m_choose_size(b, pos, end, opcode) == Some(params_length));
                assert(plen == adjusted_params_length as int);
                if m_ops(b, pos + 1 + plen, end) is Some {
                    let rest = m_ops(b, pos + 1 + plen, end)->Some_0;
                    let opm = OpModel {
                        opcode,
                        params: b.subrange(pos + 1, pos + 1 + plen),
                    };
                    assert(opcodes_before.map_values(|o: EventOpcode| o@) + (seq![opm] + rest)
                        =~= opcodes@.map_values(|o: EventOpcode| o@) + rest);
                }
            }
        }
        proof {
            assert(opcodes@.map_values(|o: EventOpcode| o@) + Seq::<OpModel>::empty()
                =~= opcodes@.map_values(|o: EventOpcode| o@));
        }
        ParsedData::Opcodes(opcodes)
    }
}

} // verus!

verus! {

impl EventBlock {
    /// Decodes the series of one block, walking the instruction stream
    /// sequentially: series `i` ends where series `i + 1`'s tag offset
    /// points, and the last series ends where the stream does.
    pub fn parse_series(
        walker: &mut SliceByteWalker,
        offsets: &Vec<u16>,
        event_exec_nums: &Vec<u16>,
        event_data_size: u32,
        event_data_start: usize,
    ) -> (r: Result<Vec<EventSeries>, DatError>)
        requires
            old(walker).wf(),
            old(walker).offset == event_data_start,
            offsets@.len() == event_exec_nums@.len(),
            event_data_start + event_data_size <= old(walker).slice@.len(),
        ensures
            final(walker).slice@ == old(walker).slice@,
            final(walker).wf(),
            match r {
                Ok(ss) => m_series(
                    old(walker).slice@,
                    event_data_start as int,
                    event_data_size as int,
                    offsets@,
                    event_exec_nums@,
                    0,
                    event_data_start as int,
                ) == Ok::<(Seq<SeriesModel>, int), DatError>(
                    (ss@.map_values(|s: EventSeries| s@), final(walker).offset as int),
                ),
                Err(e) => m_series(
                    old(walker).slice@,
                    event_data_start as int,
                    event_data_size as int,
                    offsets@,
                    event_exec_nums@,
                    0,
                    event_data_start as int,
                ) == Err::<(Seq<SeriesModel>, int), DatError>(e),
            },
    {
        let ghost b = old(walker).slice@;
        let ghost ds = event_data_start as int;
        let ghost size = event_data_size as int;
        let mut series_list: Vec<EventSeries> = Vec::new();
        let mut i: usize = 0;
        proof {
            let whole = m_series(b, ds, size, offsets@, event_exec_nums@, 0, ds);
            if whole is Ok {
                let (rest, q) = whole->Ok_0;
                assert(Seq::<SeriesModel>::empty() + rest =~= rest);
            }
        }
        while i < offsets.len()
            invariant
                walker.wf(),
                walker.slice@ == b,
                i <= offsets@.len(),
                event_data_start <= walker.offset,
                m_series(b, ds, size, offsets@, event_exec_nums@, 0, ds) == match m_series(
                    b,
                    ds,
                    size,
                    offsets@,
                    event_exec_nums@,
                    i as int,
                    walker.offset as int,
                ) {
                    Ok((rest, q)) => Ok::<(Seq<SeriesModel>, int), DatError>(
                        (series_list@.map_values(|s: EventSeries| s@) + rest, q),
                    ),
                    Err(e) => Err::<(Seq<SeriesModel>, int), DatError>(e),
                },
            decreases offsets@.len() - i,
        {
            let ghost cur = walker.offset as int;
            let start_offset = walker.offset();
            let end128: u128 = if i + 1 < offsets.len() {
                event_data_start as u128 + offsets[i + 1] as u128
            } else {
                event_data_start as u128 + event_data_size as u128
            };
            let ghost end: int = end128 as int;
            let ghost acc_before = series_list@;
            if start_offset as u128 == end128 {
                series_list.push(
                    EventSeries {
                        id: event_exec_nums[i],
                        parsed_data: ParsedData::RawBytes(Vec::new()),
                    },
                );
                proof {
                    let sm = SeriesModel {
                        id: event_exec_nums@[i as int],
                        parsed_data: PayloadModel::RawBytes(Seq::empty()),
                    };
                    let next = m_series(b, ds, size, offsets@, event_exec_nums@, i + 1, cur);
                    if next is Ok {
                        let (rest, q) = next->Ok_0;
                        assert(acc_before.map_values(|s: EventSeries| s@) + (seq![sm] + rest)
                            =~= series_list@.map_values(|s: EventSeries| s@) + rest);
                    }
                }
            } else if start_offset as u128 > end128 {
                return Err(DatError::InvalidSeriesBounds { start: start_offset });
            } else if end128 > walker.len() as u128 {
                return Err(DatError::InvalidSeriesBounds { start: start_offset });
            } else {
                let end_offset: usize = end128 as usize;
                let parsed_data = Self::parse_opcodes(walker, end_offset);
                series_list.push(EventSeries { id: event_exec_nums[i], parsed_data });
                proof {
                    let payload = match m_ops(b, cur, end) {
                        Some(ops) => PayloadModel::Opcodes(ops),
                        None => PayloadModel::RawBytes(b.subrange(cur, end)),
                    };
                    let sm = SeriesModel { id: event_exec_nums@[i as int], parsed_data: payload };
                    let next = m_series(b, ds, size, offsets@, event_exec_nums@, i + 1, end);
                    if next is Ok {
                        let (rest, q) = next->Ok_0;
                        assert(acc_before.map_values(|s: EventSeries| s@) + (seq![sm] + rest)
                            =~= series_list@.map_values(|s: EventSeries| s@) + rest);
                    }
                }
            }
            i = i + 1;
        }
        proof {
            assert(series_list@.map_values(|s: EventSeries| s@) + Seq::<SeriesModel>::empty()
                =~= series_list@.map_values(|s: EventSeries| s@));
        }
        Ok(series_list)
    }

    /// Decodes one event block: its fields, its instruction stream split
    /// into series, and the `0xFF` padding that aligns the stream to a
    /// four-byte boundary.
    pub fn parse(walker: &mut SliceByteWalker) -> (r: Result<EventBlock, DatError>)
        requires
            old(walker).wf(),
        ensures
            final(walker).slice@ == old(walker).slice@,
            final(walker).wf(),
            match r {
                Ok(blk) => m_block(old(walker).slice@, old(walker).offset as int)
                    == Ok::<(BlockModel, int), DatError>((blk@, final(walker).offset as int)),
                Err(e) => m_block(old(walker).slice@, old(walker).offset as int)
                    == Err::<(BlockModel, int), DatError>(e),
            },
    {
        let actor_number = match walker.step_u32() {
            Ok(v) => v,
            Err(e) => {
                return Err(e);
            },
        };
        let tag_count = match walker.step_u32() {
            Ok(v) => v,
            Err(e) => {
                return Err(e);
            },
        };
        let tag_offsets = match read_u16s(walker, tag_count) {
            Ok(vs) => vs,
            Err(e) => {
                return Err(e);
            },
        };
        let event_exec_nums = match read_u16s(walker, tag_count) {
            Ok(vs) => vs,
            Err(e) => {
                return Err(e);
            },
        };
        let immed_count = match walker.step_u32() {
            Ok(v) => v,
            Err(e) => {
                return Err(e);
            },
        };
        let immed_data = match read_u32s(walker, immed_count) {
            Ok(vs) => vs,
            Err(e) => {
                return Err(e);
            },
        };
        let event_data_size = match walker.step_u32() {
            Ok(v) => v,
            Err(e) => {
                return Err(e);
            },
        };
        if event_data_size == 0 || event_data_size as u64 > walker.remaining() as u64 {
            return Err(DatError::InvalidEventDataSize { size: event_data_size });
        }
        let event_data_start = walker.offset();
        let event_series = match Self::parse_series(
            walker,
            &tag_offsets,
            &event_exec_nums,
            event_data_size,
            event_data_start,
        ) {
            Ok(ss) => ss,
            Err(e) => {
                return Err(e);
            },
        };
        let padding = (4 - (event_data_size % 4) as usize) % 4;
        proof {
            assert(padding == pad_len_of(event_data_size as int));
        }
        if padding > walker.remaining() {
            return Err(
                DatError::OutOfRange {
                    buffer_length: walker.len(),
                    requested_index: walker.offset(),
                },
            );
        }
        walker.skip(padding);
        Ok(
            EventBlock {
                actor_number,
                tag_count,
                tag_offsets,
                event_exec_nums,
                immed_count,
                immed_data,
                event_series,
            },
        )
    }
}

impl Event {
    /// Decodes a whole event file: the header, then as many blocks as it
    /// declares.
    pub fn parse(walker: &mut SliceByteWalker) -> (r: Result<Event, DatError>)
        requires
            old(walker).wf(),
        ensures
            final(walker).slice@ == old(walker).slice@,
            final(walker).wf(),
            match r {
                Ok(ev) => m_event(old(walker).slice@, old(walker).offset as int)
                    == Ok::<(EventModel, int), DatError>((ev@, final(walker).offset as int)),
                Err(e) => m_event(old(walker).slice@, old(walker).offset as int)
                    == Err::<(EventModel, int), DatError>(e),
            },
    {
        let ghost b = old(walker).slice@;
        let header = match EventHeader::parse(walker) {
            Ok(h) => h,
            Err(e) => {
                return Err(e);
            },
        };
        let ghost p1 = walker.offset as int;
        let n = header.block_count;
        let mut blocks: Vec<EventBlock> = Vec::new();
        let mut i: u32 = 0;
        proof {
            let whole = m_blocks(b, p1, n as int);
            if whole is Ok {
                let (rest, q) = whole->Ok_0;
                assert(Seq::<BlockModel>::empty() + rest =~= rest);
            }
        }
        while i < n
            invariant
                walker.wf(),
                walker.slice@ == b,
                i <= n,
                m_blocks(b, p1, n as int) == match m_blocks(b, walker.offset as int, n - i) {
                    Ok((rest, q)) => Ok::<(Seq<BlockModel>, int), DatError>(
                        (blocks@.map_values(|blk: EventBlock| blk@) + rest, q),
                    ),
                    Err(e) => Err::<(Seq<BlockModel>, int), DatError>(e),
                },
            decreases n - i,
        {
            let ghost cur = walker.offset as int;
            let ghost k = n - i;
            let ghost acc_before = blocks@;
            match EventBlock::parse(walker) {
                Ok(blk) => {
                    proof {
                        let bm = m_block(b, cur)->Ok_0.0;
                        let next = m_blocks(b, walker.offset as int, k - 1);
                        if next is Ok {
                            let (rest, q) = next->Ok_0;
                            assert(acc_before.map_values(|blk: EventBlock| blk@) + (seq![bm]
                                + rest) =~= acc_before.push(blk).map_values(
                                |blk: EventBlock| blk@,
                            ) + rest);
                        }
                    }
                    blocks.push(blk);
                    i = i + 1;
                },
                Err(e) => {
                    return Err(e);
                },
            }
        }
        proof {
            assert(blocks@.map_values(|blk: EventBlock| blk@) + Seq::<BlockModel>::empty()
                =~= blocks@.map_values(|blk: EventBlock| blk@));
        }
        Ok(Event { header, blocks })
    }
}

} // verus!

verus! {

impl EventBlock {
    /// The byte length of this block's instruction stream once re-encoded:
    /// each instruction contributes its opcode byte plus its parameters,
    /// and raw spans contribute their bytes verbatim.
    pub fn calculate_event_data_size(&self) -> (r: u32)
        requires
            encodable_block(self@),
        ensures
            r as int == data_size(self@),
    {
        let ghost ssm = self@.event_series;
        let mut total: u64 = 0;
        let mut i: usize = 0;
        proof {
            assert(ssm.take(0) =~= Seq::<SeriesModel>::empty());
        }
        while i < self.event_series.len()
            invariant
                i <= self.event_series@.len(),
                total as int == enc_series_list(ssm.take(i as int)).len(),
            decreases self.event_series@.len() - i,
        {
            proof {
                lemma_enc_series_split(ssm, i as int);
                assert(ssm.take(i as int + 1) =~= ssm.take(i as int).push(ssm[i as int]));
                lemma_enc_series_push(ssm.take(i as int), ssm[i as int]);
                assert(ssm.skip(i as int)[0] == ssm[i as int]);
            }
            let s = &self.event_series[i];
            match &s.parsed_data {
                ParsedData::Opcodes(opcodes) => {
                    let ghost opsm = opcodes@.map_values(|o: EventOpcode| o@);
                    let ghost base = total as int;
                    let mut j: usize = 0;
                    proof {
                        assert(opsm.take(0) =~= Seq::<OpModel>::empty());
                    }
                    while j < opcodes.len()
                        invariant
                            j <= opcodes@.len(),
                            opsm == opcodes@.map_values(|o: EventOpcode| o@),
                            base == enc_series_list(ssm.take(i as int)).len(),
                            i < self.event_series@.len(),
                            ssm[i as int].parsed_data == PayloadModel::Opcodes(opsm),
                            total as int == base + enc_ops(opsm.take(j as int)).len(),
                        decreases opcodes@.len() - j,
                    {
                        proof {
                            lemma_enc_series_split(ssm, i as int);
                            assert(ssm.skip(i as int)[0] == ssm[i as int]);
                            lemma_enc_ops_split(opsm, j as int);
                            assert(opsm.take(j as int + 1) =~= opsm.take(j as int).push(
                                opsm[j as int],
                            ));
                            lemma_enc_ops_push(opsm.take(j as int), opsm[j as int]);
                            assert(opsm.skip(j as int)[0] == opsm[j as int]);
                        }
                        total = total + 1 + opcodes[j].params.len() as u64;
                        j = j + 1;
                    }
                    proof {
                        assert(opsm.take(opcodes@.len() as int) =~= opsm);
                    }
                },
                ParsedData::RawBytes(bytes) => {
                    total = total + bytes.len() as u64;
                },
            }
            i = i + 1;
        }
        proof {
            assert(ssm.take(self.event_series@.len() as int) =~= ssm);
        }
        total as u32
    }

    /// Writes this block's instruction stream, then pads it to a four-byte
    /// boundary with `0xFF` filler.
    pub fn write_event_data(&self, walker: &mut VecByteWalker, event_data_size: u32)
        requires
            old(walker).offset == old(walker).data@.len(),
            event_data_size as int == data_size(self@),
        ensures
            final(walker).data@ == old(walker).data@ + enc_series_list(self@.event_series)
                + Seq::new(pad_len_of(data_size(self@)) as nat, |k: int| 0xFFu8),
            final(walker).offset == final(walker).data@.len(),
    {
        let ghost data0 = old(walker).data@;
        let ghost ssm = self@.event_series;
        let mut i: usize = 0;
        proof {
            assert(ssm.take(0) =~= Seq::<SeriesModel>::empty());
            assert(data0 + Seq::<u8>::empty() =~= data0);
        }
        while i < self.event_series.len()
            invariant
                i <= self.event_series@.len(),
                walker.data@ == data0 + enc_series_list(ssm.take(i as int)),
                walker.offset == walker.data@.len(),
            decreases self.event_series@.len() - i,
        {
            proof {
                assert(ssm.take(i as int + 1) =~= ssm.take(i as int).push(ssm[i as int]));
                lemma_enc_series_push(ssm.take(i as int), ssm[i as int]);
            }
            let s = &self.event_series[i];
            match &s.parsed_data {
                ParsedData::Opcodes(opcodes) => {
                    let ghost opsm = opcodes@.map_values(|o: EventOpcode| o@);
                    let ghost base = walker.data@;
                    let mut j: usize = 0;
                    proof {
                        assert(opsm.take(0) =~= Seq::<OpModel>::empty());
                        assert(base + Seq::<u8>::empty() =~= base);
                    }
                    while j < opcodes.len()
                        invariant
                            j <= opcodes@.len(),
                            opsm == opcodes@.map_values(|o: EventOpcode| o@),
                            base == data0 + enc_series_list(ssm.take(i as int)),
                            i < self.event_series@.len(),
                            ssm[i as int].parsed_data == PayloadModel::Opcodes(opsm),
                            walker.data@ == base + enc_ops(opsm.take(j as int)),
                            walker.offset == walker.data@.len(),
                        decreases opcodes@.len() - j,
                    {
                        proof {
                            assert(opsm.take(j as int + 1) =~= opsm.take(j as int).push(
                                opsm[j as int],
                            ));
                            lemma_enc_ops_push(opsm.take(j as int), opsm[j as int]);
                        }
                        let op = &opcodes[j];
                        walker.write_u8(op.opcode);
                        walker.write_bytes(op.params.as_slice());
                        proof {
                            assert((base + enc_ops(opsm.take(j as int))).push(op.opcode)
                                + op.params@ =~= base + (enc_ops(opsm.take(j as int)) + enc_op(
                                opsm[j as int],
                            )));
                        }
                        j = j + 1;
                    }
                    proof {
                        assert(opsm.take(opcodes@.len() as int) =~= opsm);
                        assert(ssm.take(i as int + 1) =~= ssm.take(i as int).push(ssm[i as int]));
                    }
                },
                ParsedData::RawBytes(bytes) => {
                    walker.write_bytes(bytes.as_slice());
                },
            }
            i = i + 1;
        }
        proof {
            assert(ssm.take(self.event_series@.len() as int) =~= ssm);
        }
        let padding = (4 - (event_data_size % 4) as usize) % 4;
        proof {
            assert(padding == pad_len_of(data_size(self@)));
        }
        let ghost before_pad = walker.data@;
        let mut k: usize = 0;
        proof {
            assert(before_pad + Seq::new(0nat, |t: int| 0xFFu8) =~= before_pad);
        }
        while k < padding
            invariant
                k <= padding,
                padding == pad_len_of(data_size(self@)),
                before_pad == data0 + enc_series_list(ssm),
                walker.data@ == before_pad + Seq::new(k as nat, |t: int| 0xFFu8),
                walker.offset == walker.data@.len(),
            decreases padding - k,
        {
            walker.write_u8(0xFF);
            proof {
                assert((before_pad + Seq::new(k as nat, |t: int| 0xFFu8)).push(0xFFu8)
                    =~= before_pad + Seq::new((k + 1) as nat, |t: int| 0xFFu8));
            }
            k = k + 1;
        }
    }

    /// Writes this block: its fields, the recomputed instruction-stream
    /// size, the stream itself, and its padding.
    pub fn write_to_walker(&self, walker: &mut VecByteWalker)
        requires
            old(walker).offset == old(walker).data@.len(),
            encodable_block(self@),
        ensures
            final(walker).data@ == old(walker).data@ + enc_block(self@),
            final(walker).offset == final(walker).data@.len(),
    {
        let ghost data0 = old(walker).data@;
        walker.write_u32(self.actor_number);
        walker.write_u32(self.tag_count);
        let ghost offsm = self@.tag_offsets;
        let mut i: usize = 0;
        proof {
            assert(offsm.take(0) =~= Seq::<u16>::empty());
            assert(walker.data@ + Seq::<u8>::empty() =~= walker.data@);
        }
        let ghost base1 = walker.data@;
        while i < self.tag_offsets.len()
            invariant
                i <= self.tag_offsets@.len(),
                offsm == self@.tag_offsets,
                walker.data@ == base1 + enc_u16s(offsm.take(i as int)),
                walker.offset == walker.data@.len(),
            decreases self.tag_offsets@.len() - i,
        {
            proof {
                assert(offsm.take(i as int + 1) =~= offsm.take(i as int).push(offsm[i as int]));
                lemma_enc_u16s_push(offsm.take(i as int), offsm[i as int]);
                assert((base1 + enc_u16s(offsm.take(i as int))) + le16(offsm[i as int])
                    =~= base1 + (enc_u16s(offsm.take(i as int)) + le16(offsm[i as int])));
            }
            walker.write_u16(self.tag_offsets[i]);
            i = i + 1;
        }
        proof {
            assert(offsm.take(self.tag_offsets@.len() as int) =~= offsm);
        }
        let ghost execm = self@.event_exec_nums;
        let ghost base2 = walker.data@;
        let mut i2: usize = 0;
        proof {
            assert(execm.take(0) =~= Seq::<u16>::empty());
            assert(base2 + Seq::<u8>::empty() =~= base2);
        }
        while i2 < self.event_exec_nums.len()
            invariant
                i2 <= self.event_exec_nums@.len(),
                execm == self@.event_exec_nums,
                base2 == data0 + le32(self@.actor_number) + le32(self@.tag_count) + enc_u16s(
                    offsm,
                ),
                walker.data@ == base2 + enc_u16s(execm.take(i2 as int)),
                walker.offset == walker.data@.len(),
            decreases self.event_exec_nums@.len() - i2,
        {
            proof {
                assert(execm.take(i2 as int + 1) =~= execm.take(i2 as int).push(
                    execm[i2 as int],
                ));
                lemma_enc_u16s_push(execm.take(i2 as int), execm[i2 as int]);
                assert((base2 + enc_u16s(execm.take(i2 as int))) + le16(execm[i2 as int])
                    =~= base2 + (enc_u16s(execm.take(i2 as int)) + le16(execm[i2 as int])));
            }
            walker.write_u16(self.event_exec_nums[i2]);
            i2 = i2 + 1;
        }
        proof {
            assert(execm.take(self.event_exec_nums@.len() as int) =~= execm);
        }
        walker.write_u32(self.immed_count);
        let ghost immm = self@.immed_data;
        let ghost base3 = walker.data@;
        let mut i3: usize = 0;
        proof {
            assert(immm.take(0) =~= Seq::<u32>::empty());
            assert(base3 + Seq::<u8>::empty() =~= base3);
        }
        while i3 < self.immed_data.len()
            invariant
                i3 <= self.immed_data@.len(),
                immm == self@.immed_data,
                base3 == data0 + le32(self@.actor_number) + le32(self@.tag_count) + enc_u16s(
                    offsm,
                ) + enc_u16s(execm) + le32(self@.immed_count),
                walker.data@ == base3 + enc_u32s(immm.take(i3 as int)),
                walker.offset == walker.data@.len(),
            decreases self.immed_data@.len() - i3,
        {
            proof {
                assert(immm.take(i3 as int + 1) =~= immm.take(i3 as int).push(immm[i3 as int]));
                lemma_enc_u32s_push(immm.take(i3 as int), immm[i3 as int]);
                assert((base3 + enc_u32s(immm.take(i3 as int))) + le32(immm[i3 as int])
                    =~= base3 + (enc_u32s(immm.take(i3 as int)) + le32(immm[i3 as int])));
            }
            walker.write_u32(self.immed_data[i3]);
            i3 = i3 + 1;
        }
        proof {
            assert(immm.take(self.immed_data@.len() as int) =~= immm);
        }
        let event_data_size = self.calculate_event_data_size();
        walker.write_u32(event_data_size);
        self.write_event_data(walker, event_data_size);
        proof {
            assert(final(walker).data@ =~= data0 + enc_block(self@));
        }
    }
}

impl Event {
    /// Writes a whole event file: the header as stored, then each block
    /// with its recomputed stream size and padding.
    #[verifier::rlimit(60)]
    pub fn write(&self, walker: &mut VecByteWalker)
        requires
            old(walker).offset == old(walker).data@.len(),
            encodable_event(self@),
        ensures
            final(walker).data@ == old(walker).data@ + enc_event(self@),
            final(walker).offset == final(walker).data@.len(),
    {
        let ghost data0 = old(walker).data@;
        walker.write_u32(self.header.block_count);
        let ghost sizesm = self@.header.block_sizes;
        let ghost base1 = walker.data@;
        let mut i: usize = 0;
        proof {
            assert(sizesm.take(0) =~= Seq::<u32>::empty());
            assert(base1 + Seq::<u8>::empty() =~= base1);
        }
        while i < self.header.block_sizes.len()
            invariant
                i <= self.header.block_sizes@.len(),
                sizesm == self@.header.block_sizes,
                base1 == data0 + le32(self@.header.block_count),
                walker.data@ == base1 + enc_u32s(sizesm.take(i as int)),
                walker.offset == walker.data@.len(),
            decreases self.header.block_sizes@.len() - i,
        {
            proof {
                assert(sizesm.take(i as int + 1) =~= sizesm.take(i as int).push(
                    sizesm[i as int],
                ));
                lemma_enc_u32s_push(sizesm.take(i as int), sizesm[i as int]);
                assert((base1 + enc_u32s(sizesm.take(i as int))) + le32(sizesm[i as int])
                    =~= base1 + (enc_u32s(sizesm.take(i as int)) + le32(sizesm[i as int])));
            }
            walker.write_u32(self.header.block_sizes[i]);
            i = i + 1;
        }
        proof {
            assert(sizesm.take(self.header.block_sizes@.len() as int) =~= sizesm);
        }
        let ghost blksm = self@.blocks;
        let ghost base2 = walker.data@;
        let mut j: usize = 0;
        proof {
            assert(blksm.take(0) =~= Seq::<BlockModel>::empty());
            assert(base2 + Seq::<u8>::empty() =~= base2);
        }
        while j < self.blocks.len()
            invariant
                j <= self.blocks@.len(),
                blksm == self@.blocks,
                encodable_event(self@),
                base2 == data0 + le32(self@.header.block_count) + enc_u32s(sizesm),
                walker.data@ == base2 + enc_blocks(blksm.take(j as int)),
                walker.offset == walker.data@.len(),
            decreases self.blocks@.len() - j,
        {
            proof {
                assert(blksm[j as int] == self.blocks@[j as int]@);
                assert(blksm.take(j as int + 1) =~= blksm.take(j as int).push(blksm[j as int]));
                lemma_enc_blocks_push(blksm.take(j as int), blksm[j as int]);
            }
            let ghost before = walker.data@;
            self.blocks[j].write_to_walker(walker);
            proof {
                assert(before + enc_block(blksm[j as int]) =~= base2 + (enc_blocks(blksm.take(
                    j as int,
                )) + enc_block(blksm[j as int])));
            }
            j = j + 1;
        }
        proof {
            assert(blksm.take(self.blocks@.len() as int) =~= blksm);
            assert(final(walker).data@ =~= data0 + enc_event(self@));
        }
    }
}

} // verus!
