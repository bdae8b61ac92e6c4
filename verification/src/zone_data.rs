//! The zone-chunk container codec: chunk framing with its bit-packed
//! type/length word, the three keyed XOR obfuscation schemes that protect
//! chunk bodies, and the dispatch of decrypted payloads to the zone-model
//! and vertex-model sub-codecs.
//!
//! The ciphers are driven by a caller-supplied 256-entry key table. Every
//! executable routine here — the ciphers, the chunk framing, and the
//! container walk — is proved to return exactly what its spec-function
//! mirror says, on success and on failure alike.

use vstd::prelude::*;

use crate::byte_walker::{spec_min, u32_of, SliceByteWalker};
use crate::error::DatError;
use crate::event_model::m_u32;
use crate::zone_mmb::{m_mmb, MmbModel, ZoneMmb};
use crate::zone_model::{m_zone_model, ZoneCollisionMesh, ZoneModelModel};

verus! {

/// The bytes of `d` with every byte of `[start, start + n)` XORed with
/// `0xFF`.
pub open spec fn xor_ff_range(d: Seq<u8>, start: int, n: int) -> Seq<u8> {
    Seq::new(d.len(), |i: int| if start <= i < start + n { d[i] ^ 0xFF } else { d[i] })
}

/// The bytes of `d` with every byte of `[start, start + n)` XORed with
/// `0x55`.
pub open spec fn xor_55_range(d: Seq<u8>, start: int, n: int) -> Seq<u8> {
    Seq::new(d.len(), |i: int| if start <= i < start + n { d[i] ^ 0x55 } else { d[i] })
}

/// How far `a` still is from `b`; zero once past it. The termination
/// measure of the cipher scans, whose last step may overshoot the end.
pub open spec fn dist0(a: int, b: int) -> int {
    if a >= b {
        0
    } else {
        b - a
    }
}

/// One pass of scheme A's span scan: starting at `pos`, each step derives a
/// span length from the running key, XORs the span with `0xFF` when the
/// key's low bit is set and the span still fits before `len`, then advances
/// the key by an incrementing counter.
pub open spec fn m_1b_scan(
    d: Seq<u8>,
    len: int,
    pos: int,
    key: int,
    counter: int,
) -> Result<Seq<u8>, DatError>
    decreases dist0(pos, len),
{
    if pos >= len {
        Ok(d)
    } else {
        let xor_len = (key / 16) % 8 + 16;
        if key % 2 == 1 && pos + xor_len < len {
            if pos + xor_len > d.len() {
                Err(
                    DatError::OutOfRange {
                        buffer_length: d.len() as usize,
                        requested_index: pos as usize,
                    },
                )
            } else {
                m_1b_scan(
                    xor_ff_range(d, pos, xor_len),
                    len,
                    pos + xor_len,
                    key + counter + 1,
                    counter + 1,
                )
            }
        } else {
            m_1b_scan(d, len, pos + xor_len, key + counter + 1, counter + 1)
        }
    }
}

/// Scheme A's node pass: sixteen bytes at each node's fixed offset are
/// XORed with `0x55`.
pub open spec fn m_1b_nodes(d: Seq<u8>, count: int, i: int) -> Result<Seq<u8>, DatError>
    decreases count - i,
{
    if i >= count {
        Ok(d)
    } else {
        let start = 0x20 + i * 0x64;
        if start + 16 > d.len() {
            Err(
                DatError::OutOfRange {
                    buffer_length: d.len() as usize,
                    requested_index: start as usize,
                },
            )
        } else {
            m_1b_nodes(xor_55_range(d, start, 16), count, i + 1)
        }
    }
}

/// Scheme A: active only when the marker byte at offset 3 is `0x1B`;
/// otherwise the body passes through unchanged. The total length is the
/// 24-bit value at offset 0, and the key is seeded from the table entry
/// selected by the byte at offset 7 XOR `0xFF`.
#[verifier::opaque]
pub open spec fn m_decode_1b(d: Seq<u8>, kt: Seq<u8>) -> Result<Seq<u8>, DatError>
    recommends
        d.len() >= 8,
        kt.len() == 256,
{
    if d[3] != 0x1B {
        Ok(d)
    } else {
        let len = (u32_of(d[0], d[1], d[2], d[3]) as int) % 0x1000000;
        let key0 = kt[(d[7] ^ 0xFF) as int] as int;
        match m_1b_scan(d, len, 8, key0, 0) {
            Err(e) => Err(e),
            Ok(d1) => {
                let node_count = (u32_of(d1[4], d1[5], d1[6], d1[7]) as int) % 0x1000000;
                m_1b_nodes(d1, node_count, 0)
            },
        }
    }
}

/// A small power of two, used as the keystream shift divisor.
pub open spec fn pow2s(s: int) -> int {
    if s == 0 {
        1
    } else if s == 1 {
        2
    } else if s == 2 {
        4
    } else if s == 3 {
        8
    } else if s == 4 {
        16
    } else if s == 5 {
        32
    } else if s == 6 {
        64
    } else {
        128
    }
}

/// Scheme B's keystream byte for one position: the doubled key word
/// `key * 0x101`, shifted right by the low three bits of the key after its
/// first counter advance, truncated to a byte.
pub open spec fn ks_05(key: int, counter: int) -> u8 {
    let x = key * 0x100 + key;
    let shifted = key + counter + 1;
    ((x / pow2s(shifted % 8)) % 0x100) as u8
}

/// Scheme B's byte loop: every byte from offset 8 up to `len` is XORed
/// with the keystream; the key advances twice per byte, interleaved around
/// the XOR, and is masked to 8 bits after the second advance.
pub open spec fn m_05_loop(
    d: Seq<u8>,
    len: int,
    pos: int,
    key: int,
    counter: int,
) -> Result<Seq<u8>, DatError>
    decreases len - pos,
{
    if pos >= len {
        Ok(d)
    } else if pos >= d.len() {
        Err(
            DatError::OutOfRange {
                buffer_length: d.len() as usize,
                requested_index: pos as usize,
            },
        )
    } else {
        let nv = d[pos] ^ ks_05(key, counter);
        m_05_loop(
            d.update(pos, nv),
            len,
            pos + 1,
            (key + counter + 1 + counter + 2) % 0x100,
            counter + 2,
        )
    }
}

/// Scheme B: active only when the marker byte at offset 3 is `0x05`;
/// otherwise the body passes through unchanged. The key is seeded from the
/// table entry selected by the byte at offset 5 XOR `0xF0`.
#[verifier::opaque]
pub open spec fn m_decode_05(d: Seq<u8>, kt: Seq<u8>) -> Result<Seq<u8>, DatError>
    recommends
        d.len() >= 8,
        kt.len() == 256,
{
    if d[3] != 0x05 {
        Ok(d)
    } else {
        let len = (u32_of(d[0], d[1], d[2], d[3]) as int) % 0x1000000;
        let key0 = kt[(d[5] ^ 0xF0) as int] as int;
        m_05_loop(d, len, 8, key0, 0)
    }
}

/// The bytes of `d` with the eight-byte windows at `a` and at `b` swapped.
pub open spec fn swap8_range(d: Seq<u8>, a: int, b: int) -> Seq<u8> {
    Seq::new(
        d.len(),
        |i: int|
            if a <= i < a + 8 {
                d[i - a + b]
            } else if b <= i < b + 8 {
                d[i - b + a]
            } else {
                d[i]
            },
    )
}

/// Scheme C's lockstep walk over the two halves of the body: each step
/// swaps the current eight-byte windows when the chained key's low bit is
/// set, then advances the direct key by nine and folds it into the chained
/// key.
pub open spec fn m_ffff_loop(
    d: Seq<u8>,
    key1: int,
    key2: int,
    o1: int,
    o2: int,
    steps: int,
) -> Result<Seq<u8>, DatError>
    decreases steps,
{
    if steps <= 0 {
        Ok(d)
    } else if key2 % 2 == 1 && o2 + 8 > d.len() {
        Err(
            DatError::OutOfRange {
                buffer_length: d.len() as usize,
                requested_index: o2 as usize,
            },
        )
    } else {
        let d1 = if key2 % 2 == 1 {
            swap8_range(d, o1, o2)
        } else {
            d
        };
        m_ffff_loop(d1, key1 + 9, key2 + key1 + 9, o1 + 8, o2 + 8, steps - 1)
    }
}

/// Scheme C: a no-op when the bytes at offsets 6 and 7 are both `0xFF`;
/// otherwise the body's remainder splits into two equal halves that are
/// walked in lockstep, swapping eight-byte windows as the chained key
/// directs. A declared length under 8 leaves the body unchanged, since no
/// halves exist to walk.
#[verifier::opaque]
pub open spec fn m_decode_ffff(d: Seq<u8>, kt: Seq<u8>) -> Result<Seq<u8>, DatError>
    recommends
        d.len() >= 8,
        kt.len() == 256,
{
    if d[6] == 0xFF && d[7] == 0xFF {
        Ok(d)
    } else {
        let len = (u32_of(d[0], d[1], d[2], d[3]) as int) % 0x1000000;
        if len < 8 {
            Ok(d)
        } else {
            let key1 = (d[5] ^ 0xF0) as int;
            let key2 = kt[key1] as int;
            let decode_count = ((len - 8) / 16 * 16) / 2;
            m_ffff_loop(d, key1, key2, 8, 8 + decode_count, decode_count / 8)
        }
    }
}

} // verus!

verus! {

/// The little-endian 32-bit value at `at`.
fn u32_at(data: &Vec<u8>, at: usize) -> (r: u32)
    requires
        at + 4 <= data@.len(),
    ensures
        r == u32_of(data@[at as int], data@[at + 1], data@[at + 2], data@[at + 3]),
{
    let _bound: usize = data.len();
    data[at] as u32 + data[at + 1] as u32 * 0x100 + data[at + 2] as u32 * 0x10000 + data[at
        + 3] as u32 * 0x1000000
}

/// Decrypts a chunk body under scheme A (marker `0x1B` at offset 3),
/// seeded from the 256-entry key table; bodies without the marker pass
/// through unchanged.
pub fn decode_1b(data: Vec<u8>, key_table: &[u8]) -> (r: Result<Vec<u8>, DatError>)
    requires
        data@.len() >= 8,
        key_table@.len() == 256,
    ensures
        match r {
            Ok(v) => v@.len() == data@.len() && m_decode_1b(data@, key_table@) == Ok::<
                Seq<u8>,
                DatError,
            >(v@),
            Err(e) => m_decode_1b(data@, key_table@) == Err::<Seq<u8>, DatError>(e),
        },
{
    proof {
        reveal(m_decode_1b);
    }
    let ghost d0 = data@;
    let ghost kt = key_table@;
    let mut data = data;
    if data[3] != 0x1B {
        return Ok(data);
    }
    let len: u64 = (u32_at(&data, 0) % 0x1000000) as u64;
    let index = data[7] ^ 0xFF;
    let key0 = key_table[index as usize];
    let mut key: u64 = key0 as u64;
    let mut counter: u64 = 0;
    let mut pos: u64 = 8;
    while pos < len
        invariant
            data@.len() == d0.len(),
            8 <= pos,
            16 * counter + 8 <= pos,
            pos <= len + 23,
            len < 0x1000000,
            key <= 0xFF + counter * counter,
            m_1b_scan(d0, len as int, 8, key0 as int, 0) == m_1b_scan(
                data@,
                len as int,
                pos as int,
                key as int,
                counter as int,
            ),
        decreases dist0(pos as int, len as int),
    {
        let xor_len: u64 = (key / 16) % 8 + 16;
        if key % 2 == 1 && pos + xor_len < len {
            if pos + xor_len > data.len() as u64 {
                return Err(
                    DatError::OutOfRange {
                        buffer_length: data.len(),
                        requested_index: pos as usize,
                    },
                );
            }
            let ghost snap = data@;
            let mut i: u64 = 0;
            proof {
                assert(snap =~= xor_ff_range(snap, pos as int, 0));
            }
            while i < xor_len
                invariant
                    i <= xor_len,
                    pos + xor_len <= data@.len(),
                    data@.len() == snap.len(),
                    data@ == xor_ff_range(snap, pos as int, i as int),
                decreases xor_len - i,
            {
                let idx = (pos + i) as usize;
                let nv = data[idx] ^ 0xFF;
                data.set(idx, nv);
                proof {
                    assert(data@ =~= xor_ff_range(snap, pos as int, i as int + 1));
                }
                i = i + 1;
            }
        }
        proof {
            assert(counter * counter + counter + 1 <= (counter + 1) * (counter + 1))
                by (nonlinear_arith);
            assert(counter + 1 <= 0x100000);
            assert((counter + 1) * (counter + 1) <= 0x100000 * 0x100000) by (nonlinear_arith)
                requires
                    counter + 1 <= 0x100000,
            ;
        }
        counter = counter + 1;
        key = key + counter;
        pos = pos + xor_len;
    }
    proof {
        assert(m_1b_scan(d0, len as int, 8, key0 as int, 0) == Ok::<Seq<u8>, DatError>(data@));
    }
    let node_count: u64 = (u32_at(&data, 4) % 0x1000000) as u64;
    let ghost dscan = data@;
    let mut ni: u64 = 0;
    while ni < node_count
        invariant
            data@.len() == dscan.len(),
            ni <= node_count,
            node_count < 0x1000000,
            m_1b_nodes(dscan, node_count as int, 0) == m_1b_nodes(
                data@,
                node_count as int,
                ni as int,
            ),
        decreases node_count - ni,
    {
        let start: u64 = 0x20 + ni * 0x64;
        proof {
            assert(ni * 0x64 <= 0x1000000 * 0x64) by (nonlinear_arith)
                requires
                    0 <= ni <= 0x1000000,
            ;
        }
        if start + 16 > data.len() as u64 {
            return Err(
                DatError::OutOfRange {
                    buffer_length: data.len(),
                    requested_index: start as usize,
                },
            );
        }
        let ghost snap = data@;
        let mut j: u64 = 0;
        proof {
            assert(snap =~= xor_55_range(snap, start as int, 0));
        }
        while j < 16
            invariant
                j <= 16,
                start + 16 <= data@.len(),
                data@.len() == snap.len(),
                data@ == xor_55_range(snap, start as int, j as int),
            decreases 16 - j,
        {
            let idx = (start + j) as usize;
            let nv = data[idx] ^ 0x55;
            data.set(idx, nv);
            proof {
                assert(data@ =~= xor_55_range(snap, start as int, j as int + 1));
            }
            j = j + 1;
        }
        ni = ni + 1;
    }
    Ok(data)
}

/// A small power of two.
fn pow2_small(s: u64) -> (r: u64)
    requires
        s < 8,
    ensures
        r as int == pow2s(s as int),
{
    if s == 0 {
        1
    } else if s == 1 {
        2
    } else if s == 2 {
        4
    } else if s == 3 {
        8
    } else if s == 4 {
        16
    } else if s == 5 {
        32
    } else if s == 6 {
        64
    } else {
        128
    }
}

/// Decrypts a chunk body under scheme B (marker `0x05` at offset 3),
/// seeded from the 256-entry key table; bodies without the marker pass
/// through unchanged.
pub fn decode_05(data: Vec<u8>, key_table: &[u8]) -> (r: Result<Vec<u8>, DatError>)
    requires
        data@.len() >= 8,
        key_table@.len() == 256,
    ensures
        match r {
            Ok(v) => v@.len() == data@.len() && m_decode_05(data@, key_table@) == Ok::<
                Seq<u8>,
                DatError,
            >(v@),
            Err(e) => m_decode_05(data@, key_table@) == Err::<Seq<u8>, DatError>(e),
        },
{
    proof {
        reveal(m_decode_05);
    }
    let ghost d0 = data@;
    let ghost kt = key_table@;
    let mut data = data;
    if data[3] != 0x05 {
        return Ok(data);
    }
    let len: u64 = (u32_at(&data, 0) % 0x1000000) as u64;
    let index = data[5] ^ 0xF0;
    let key0 = key_table[index as usize];
    let mut key: u64 = key0 as u64;
    let mut counter: u64 = 0;
    let mut pos: u64 = 8;
    while pos < len
        invariant
            data@.len() == d0.len(),
            8 <= pos,
            counter == 2 * (pos - 8),
            len < 0x1000000,
            key <= 0xFF,
            m_05_loop(d0, len as int, 8, key0 as int, 0) == m_05_loop(
                data@,
                len as int,
                pos as int,
                key as int,
                counter as int,
            ),
        decreases len - pos,
    {
        if pos >= data.len() as u64 {
            return Err(
                DatError::OutOfRange {
                    buffer_length: data.len(),
                    requested_index: pos as usize,
                },
            );
        }
        let x: u64 = key * 0x100 + key;
        let shifted: u64 = key + counter + 1;
        let p = pow2_small(shifted % 8);
        let ks = ((x / p) % 0x100) as u8;
        let idx = pos as usize;
        let nv = data[idx] ^ ks;
        data.set(idx, nv);
        key = (key + counter + 1 + counter + 2) % 0x100;
        counter = counter + 2;
        pos = pos + 1;
    }
    Ok(data)
}

/// Decrypts a chunk body under scheme C, which is a no-op when the bytes
/// at offsets 6 and 7 are both `0xFF`; otherwise it swaps eight-byte
/// windows between the body's two halves as the chained key directs.
pub fn decode_ffff(data: Vec<u8>, key_table: &[u8]) -> (r: Result<Vec<u8>, DatError>)
    requires
        data@.len() >= 8,
        key_table@.len() == 256,
    ensures
        match r {
            Ok(v) => v@.len() == data@.len() && m_decode_ffff(data@, key_table@) == Ok::<
                Seq<u8>,
                DatError,
            >(v@),
            Err(e) => m_decode_ffff(data@, key_table@) == Err::<Seq<u8>, DatError>(e),
        },
        data@[6] == 0xFF && data@[7] == 0xFF ==> r == Ok::<Vec<u8>, DatError>(data),
{
    proof {
        reveal(m_decode_ffff);
    }
    let ghost d0 = data@;
    let mut data = data;
    if data[6] == 0xFF && data[7] == 0xFF {
        return Ok(data);
    }
    let len: u64 = (u32_at(&data, 0) % 0x1000000) as u64;
    if len < 8 {
        return Ok(data);
    }
    let mut key1: u64 = (data[5] ^ 0xF0) as u64;
    let key2_0 = key_table[key1 as usize];
    let mut key2: u64 = key2_0 as u64;
    let decode_count: u64 = ((len - 8) / 16 * 16) / 2;
    let steps: u64 = decode_count / 8;
    let ghost k10 = key1 as int;
    let mut offset1: u64 = 8;
    let mut offset2: u64 = 8 + decode_count;
    let mut step: u64 = 0;
    while step < steps
        invariant
            data@.len() == d0.len(),
            step <= steps,
            steps <= 0x100000,
            offset1 == 8 + 8 * step,
            offset2 == 8 + decode_count + 8 * step,
            decode_count < 0x1000000,
            key1 == k10 + 9 * step,
            k10 <= 0xFF,
            key2 <= 0xFF + step * 0x2000000,
            m_ffff_loop(d0, k10, key2_0 as int, 8, 8 + decode_count as int, steps as int)
                == m_ffff_loop(
                data@,
                key1 as int,
                key2 as int,
                offset1 as int,
                offset2 as int,
                steps - step,
            ),
        decreases steps - step,
    {
        if key2 % 2 == 1 {
            if offset2 + 8 > data.len() as u64 {
                return Err(
                    DatError::OutOfRange {
                        buffer_length: data.len(),
                        requested_index: offset2 as usize,
                    },
                );
            }
            let ghost snap = data@;
            let o1 = offset1 as usize;
            let o2 = offset2 as usize;
            let mut j: usize = 0;
            while j < 8
                invariant
                    j <= 8,
                    o1 + 8 <= o2,
                    o2 + 8 <= data@.len(),
                    data@.len() == snap.len(),
                    forall|t: int|
                        o1 <= t < o1 + j ==> #[trigger] data@[t] == snap[t - o1 + o2],
                    forall|t: int|
                        o2 <= t < o2 + j ==> #[trigger] data@[t] == snap[t - o2 + o1],
                    forall|t: int|
                        0 <= t < snap.len() && !(o1 <= t < o1 + j) && !(o2 <= t < o2 + j)
                            ==> #[trigger] data@[t] == snap[t],
                decreases 8 - j,
            {
                let a = data[o1 + j];
                let bb = data[o2 + j];
                data.set(o1 + j, bb);
                data.set(o2 + j, a);
                j = j + 1;
            }
            proof {
                assert(data@ =~= swap8_range(snap, o1 as int, o2 as int));
            }
        }
        proof {
            assert(step * 0x2000000 + 0x2000000 == (step + 1) * 0x2000000) by (nonlinear_arith);
            assert(step * 0x2000000 <= 0x100000 * 0x2000000) by (nonlinear_arith)
                requires
                    0 <= step <= 0x100000,
            ;
        }
        key2 = key2 + key1 + 9;
        key1 = key1 + 9;
        offset1 = offset1 + 8;
        offset2 = offset2 + 8;
        step = step + 1;
    }
    Ok(data)
}

} // verus!

verus! {

/// Whether a byte is a UTF-8 continuation byte.
pub open spec fn utf8_cont(x: u8) -> bool {
    0x80 <= x <= 0xBF
}

/// Whether two bytes form one two-byte UTF-8 character.
pub open spec fn utf8_two(x: u8, y: u8) -> bool {
    0xC2 <= x <= 0xDF && utf8_cont(y)
}

/// Whether three bytes form one three-byte UTF-8 character.
pub open spec fn utf8_three(x: u8, y: u8, z: u8) -> bool {
    &&& utf8_cont(z)
    &&& ((x == 0xE0 && 0xA0 <= y <= 0xBF) || ((0xE1 <= x <= 0xEC || x == 0xEE || x == 0xEF)
        && utf8_cont(y)) || (x == 0xED && 0x80 <= y <= 0x9F))
}

/// Whether four bytes form one four-byte UTF-8 character.
pub open spec fn utf8_four(w: u8, x: u8, y: u8, z: u8) -> bool {
    &&& utf8_cont(y) && utf8_cont(z)
    &&& ((w == 0xF0 && 0x90 <= x <= 0xBF) || (0xF1 <= w <= 0xF3 && utf8_cont(x)) || (w == 0xF4
        && 0x80 <= x <= 0x8F))
}

/// Whether four bytes are valid UTF-8 text: some split of the window into
/// whole characters must cover it exactly.
pub open spec fn utf8_4_valid(a: u8, b: u8, c: u8, d: u8) -> bool {
    ||| (a < 0x80 && b < 0x80 && c < 0x80 && d < 0x80)
    ||| (utf8_two(a, b) && c < 0x80 && d < 0x80)
    ||| (a < 0x80 && utf8_two(b, c) && d < 0x80)
    ||| (a < 0x80 && b < 0x80 && utf8_two(c, d))
    ||| (utf8_two(a, b) && utf8_two(c, d))
    ||| (utf8_three(a, b, c) && d < 0x80)
    ||| (a < 0x80 && utf8_three(b, c, d))
    ||| utf8_four(a, b, c, d)
}

/// Checks that four bytes are valid UTF-8 text.
pub fn check_utf8_4(a: u8, b: u8, c: u8, d: u8) -> (r: bool)
    ensures
        r == utf8_4_valid(a, b, c, d),
{
    let one_a = a < 0x80;
    let one_b = b < 0x80;
    let one_c = c < 0x80;
    let one_d = d < 0x80;
    let two_ab = 0xC2 <= a && a <= 0xDF && 0x80 <= b && b <= 0xBF;
    let two_bc = 0xC2 <= b && b <= 0xDF && 0x80 <= c && c <= 0xBF;
    let two_cd = 0xC2 <= c && c <= 0xDF && 0x80 <= d && d <= 0xBF;
    let three_abc = (0x80 <= c && c <= 0xBF) && ((a == 0xE0 && 0xA0 <= b && b <= 0xBF) || ((
    0xE1 <= a && a <= 0xEC || a == 0xEE || a == 0xEF) && 0x80 <= b && b <= 0xBF) || (a == 0xED
        && 0x80 <= b && b <= 0x9F));
    let three_bcd = (0x80 <= d && d <= 0xBF) && ((b == 0xE0 && 0xA0 <= c && c <= 0xBF) || ((
    0xE1 <= b && b <= 0xEC || b == 0xEE || b == 0xEF) && 0x80 <= c && c <= 0xBF) || (b == 0xED
        && 0x80 <= c && c <= 0x9F));
    let four_abcd = (0x80 <= c && c <= 0xBF) && (0x80 <= d && d <= 0xBF) && ((a == 0xF0 && 0x90
        <= b && b <= 0xBF) || (0xF1 <= a && a <= 0xF3 && 0x80 <= b && b <= 0xBF) || (a == 0xF4
        && 0x80 <= b && b <= 0x8F));
    (one_a && one_b && one_c && one_d) || (two_ab && one_c && one_d) || (one_a && two_bc
        && one_d) || (one_a && one_b && two_cd) || (two_ab && two_cd) || (three_abc && one_d)
        || (one_a && three_bcd) || four_abcd
}

/// A decoded zone container: its chunks, in file order.
#[derive(Debug, Clone, PartialEq, Eq)]
pub struct ZoneData {
    pub chunks: Vec<Chunk>,
}

/// One chunk: its four-character tag, the low seven bits of its packed
/// type/length word, two opaque words, and its decoded payload.
#[derive(Debug, Clone, PartialEq, Eq)]
pub struct Chunk {
    pub four_char_code: Vec<u8>,
    pub chunk_type: u8,
    pub unknown_0x08: u32,
    pub unknown_0x12: u32,
    pub data: ChunkData,
}

/// A chunk payload: a decoded vertex model, a decoded zone model, or the
/// raw body kept verbatim for every other chunk type.
#[derive(Debug, Clone, PartialEq, Eq)]
pub enum ChunkData {
    ZoneMmb { zone_mmb: ZoneMmb },
    ZoneModel { zone_model: ZoneCollisionMesh },
    Unknown { data: Vec<u8> },
}

/// The model of a chunk payload.
pub ghost enum ChunkDataModel {
    ZoneMmb(MmbModel),
    ZoneModel(ZoneModelModel),
    Unknown(Seq<u8>),
}

/// The model of one chunk.
pub ghost struct ChunkModel {
    pub four_char_code: Seq<u8>,
    pub chunk_type: u8,
    pub unknown_0x08: u32,
    pub unknown_0x12: u32,
    pub data: ChunkDataModel,
}

impl View for ChunkData {
    type V = ChunkDataModel;

    open spec fn view(&self) -> ChunkDataModel {
        match self {
            ChunkData::ZoneMmb { zone_mmb } => ChunkDataModel::ZoneMmb(zone_mmb@),
            ChunkData::ZoneModel { zone_model } => ChunkDataModel::ZoneModel(zone_model@),
            ChunkData::Unknown { data } => ChunkDataModel::Unknown(data@),
        }
    }
}

impl View for Chunk {
    type V = ChunkModel;

    open spec fn view(&self) -> ChunkModel {
        ChunkModel {
            four_char_code: self.four_char_code@,
            chunk_type: self.chunk_type,
            unknown_0x08: self.unknown_0x08,
            unknown_0x12: self.unknown_0x12,
            data: self.data@,
        }
    }
}

impl View for ZoneData {
    type V = Seq<ChunkModel>;

    open spec fn view(&self) -> Seq<ChunkModel> {
        self.chunks@.map_values(|c: Chunk| c@)
    }
}

/// One chunk body of `length` declared bytes at `p`, clamped to what the
/// buffer still holds. A body declared or actually shorter than eight
/// bytes is always `Unknown`, its bytes preserved verbatim, as is any
/// unrecognized chunk type. Type `0x1C` is decrypted under scheme A and
/// parsed as a zone model; type `0x2E` is decrypted under schemes B and C
/// and parsed as a vertex model. A failure of either sub-codec degrades
/// the chunk to `Unknown` with its raw body; a cipher failure fails the
/// decode.
#[verifier::opaque]
pub open spec fn m_chunk_data(
    b: Seq<u8>,
    p: int,
    chunk_type: u8,
    length: u32,
    kt: Seq<u8>,
) -> Result<(ChunkDataModel, int), DatError> {
    let q = p + spec_min(length as int, b.len() - p);
    let body = b.subrange(p, q);
    if length < 8 || body.len() < 8 {
        Ok((ChunkDataModel::Unknown(body), q))
    } else if chunk_type == 0x1C {
        match m_decode_1b(body, kt) {
            Err(e) => Err(e),
            Ok(d) => match m_zone_model(d, 0) {
                Err(_) => Ok((ChunkDataModel::Unknown(body), q)),
                Ok(zm) => Ok((ChunkDataModel::ZoneModel(zm), q)),
            },
        }
    } else if chunk_type == 0x2E {
        match m_decode_05(body, kt) {
            Err(e) => Err(e),
            Ok(d1) => match m_decode_ffff(d1, kt) {
                Err(e) => Err(e),
                Ok(d2) => match m_mmb(d2, 0) {
                    Err(_) => Ok((ChunkDataModel::Unknown(body), q)),
                    Ok((mm, _)) => Ok((ChunkDataModel::ZoneMmb(mm), q)),
                },
            },
        }
    } else {
        Ok((ChunkDataModel::Unknown(body), q))
    }
}

/// One chunk at `p`: a four-byte UTF-8 tag, the packed type/length word
/// masked to 28 bits — the type is its low seven bits and the byte length
/// is `(packed >> 7) << 4` minus the sixteen header bytes, which must not
/// be negative — two opaque words, and the body.
#[verifier::opaque]
pub open spec fn m_chunk(b: Seq<u8>, p: int, kt: Seq<u8>) -> Result<(ChunkModel, int), DatError> {
    if p + 4 > b.len() {
        Err(
            DatError::OutOfRange {
                buffer_length: b.len() as usize,
                requested_index: p as usize,
            },
        )
    } else if !utf8_4_valid(b[p], b[p + 1], b[p + 2], b[p + 3]) {
        Err(DatError::InvalidTag { tag_word: u32_of(b[p], b[p + 1], b[p + 2], b[p + 3]) })
    } else {
        match m_u32(b, p + 4) {
            Err(e) => Err(e),
            Ok(tal0) => {
                let tal = ((tal0 as int) % 0x10000000) as u32;
                match m_u32(b, p + 8) {
                    Err(e) => Err(e),
                    Ok(unknown_0x08) => match m_u32(b, p + 12) {
                        Err(e) => Err(e),
                        Ok(unknown_0x12) => if tal / 0x80 == 0 {
                            Err(DatError::InvalidChunkLength { packed: tal })
                        } else {
                            let length = ((tal as int) / 0x80 * 16 - 16) as u32;
                            match m_chunk_data(b, p + 16, ((tal as int) % 0x80) as u8, length, kt) {
                                Err(e) => Err(e),
                                Ok((data, q)) => Ok(
                                    (
                                        ChunkModel {
                                            four_char_code: b.subrange(p, p + 4),
                                            chunk_type: ((tal as int) % 0x80) as u8,
                                            unknown_0x08,
                                            unknown_0x12,
                                            data,
                                        },
                                        q,
                                    ),
                                ),
                            }
                        },
                    },
                }
            },
        }
    }
}

/// A zone container at `p`: chunks, one after another, until the buffer is
/// exhausted.
pub open spec fn m_zone_data(b: Seq<u8>, p: int, kt: Seq<u8>) -> Result<
    (Seq<ChunkModel>, int),
    DatError,
>
    decreases dist0(p, b.len() as int),
{
    if p >= b.len() {
        Ok((Seq::empty(), p))
    } else {
        match m_chunk(b, p, kt) {
            Err(e) => Err(e),
            Ok((ch, q)) => if q <= p {
                Err(
                    DatError::OutOfRange {
                        buffer_length: b.len() as usize,
                        requested_index: p as usize,
                    },
                )
            } else {
                match m_zone_data(b, q, kt) {
                    Err(e) => Err(e),
                    Ok((rest, r)) => Ok((seq![ch] + rest, r)),
                }
            },
        }
    }
}

/// Every successfully decoded chunk occupies at least its sixteen header
/// bytes and ends within the buffer.
pub proof fn lemma_m_chunk_progress(b: Seq<u8>, p: int, kt: Seq<u8>)
    requires
        0 <= p,
        m_chunk(b, p, kt) is Ok,
    ensures
        p + 16 <= m_chunk(b, p, kt)->Ok_0.1 <= b.len(),
{
    reveal(m_chunk);
    reveal(m_chunk_data);
}

/// The law behind the always-unknown rule: a chunk body whose declared or
/// actual length is under eight bytes is classified `Unknown` with its
/// bytes preserved verbatim, whatever its chunk type.
pub proof fn lemma_short_chunk_body_unknown(
    b: Seq<u8>,
    p: int,
    chunk_type: u8,
    length: u32,
    kt: Seq<u8>,
)
    requires
        0 <= p <= b.len(),
        length < 8 || spec_min(length as int, b.len() - p) < 8,
    ensures
        m_chunk_data(b, p, chunk_type, length, kt) == Ok::<(ChunkDataModel, int), DatError>(
            (
                ChunkDataModel::Unknown(
                    b.subrange(p, p + spec_min(length as int, b.len() - p)),
                ),
                p + spec_min(length as int, b.len() - p),
            ),
        ),
{
    reveal(m_chunk_data);
}

impl ChunkData {
    /// Decodes one chunk body; see [`m_chunk_data`] for the exact
    /// classification rules.
    pub fn parse(
        walker: &mut SliceByteWalker,
        chunk_type: u8,
        length: u32,
        key_table: &[u8],
    ) -> (r: Result<ChunkData, DatError>)
        requires
            old(walker).wf(),
            key_table@.len() == 256,
        ensures
            final(walker).slice@ == old(walker).slice@,
            final(walker).wf(),
            match r {
                Ok(cd) => m_chunk_data(
                    old(walker).slice@,
                    old(walker).offset as int,
                    chunk_type,
                    length,
                    key_table@,
                ) == Ok::<(ChunkDataModel, int), DatError>(
                    (cd@, final(walker).offset as int),
                ),
                Err(e) => m_chunk_data(
                    old(walker).slice@,
                    old(walker).offset as int,
                    chunk_type,
                    length,
                    key_table@,
                ) == Err::<(ChunkDataModel, int), DatError>(e),
            },
    {
        proof {
            reveal(m_chunk_data);
        }
        let body_slice = walker.take_bytes(length as usize);
        let data = vstd::slice::slice_to_vec(body_slice);
        if length < 8 || data.len() < 8 {
            return Ok(ChunkData::Unknown { data });
        }
        if chunk_type == 0x1C {
            let kept = vstd::slice::slice_to_vec(data.as_slice());
            let decoded = match decode_1b(data, key_table) {
                Ok(d) => d,
                Err(e) => {
                    return Err(e);
                },
            };
            let mut inner = SliceByteWalker::new(decoded.as_slice());
            match ZoneCollisionMesh::parse(&mut inner) {
                Ok(zone_model) => Ok(ChunkData::ZoneModel { zone_model }),
                Err(_) => Ok(ChunkData::Unknown { data: kept }),
            }
        } else if chunk_type == 0x2E {
            let kept = vstd::slice::slice_to_vec(data.as_slice());
            let d1 = match decode_05(data, key_table) {
                Ok(d) => d,
                Err(e) => {
                    return Err(e);
                },
            };
            let d2 = match decode_ffff(d1, key_table) {
                Ok(d) => d,
                Err(e) => {
                    return Err(e);
                },
            };
            let mut inner = SliceByteWalker::new(d2.as_slice());
            match ZoneMmb::parse(&mut inner) {
                Ok(zone_mmb) => Ok(ChunkData::ZoneMmb { zone_mmb }),
                Err(_) => Ok(ChunkData::Unknown { data: kept }),
            }
        } else {
            Ok(ChunkData::Unknown { data })
        }
    }
}

impl Chunk {
    /// Decodes one chunk; see [`m_chunk`] for the exact framing rules.
    pub fn parse(walker: &mut SliceByteWalker, key_table: &[u8]) -> (r: Result<Chunk, DatError>)
        requires
            old(walker).wf(),
            key_table@.len() == 256,
        ensures
            final(walker).slice@ == old(walker).slice@,
            final(walker).wf(),
            match r {
                Ok(ch) => m_chunk(old(walker).slice@, old(walker).offset as int, key_table@)
                    == Ok::<(ChunkModel, int), DatError>((ch@, final(walker).offset as int)),
                Err(e) => m_chunk(old(walker).slice@, old(walker).offset as int, key_table@)
                    == Err::<(ChunkModel, int), DatError>(e),
            },
    {
        proof {
            reveal(m_chunk);
        }
        let ghost b = old(walker).slice@;
        let ghost p = old(walker).offset as int;
        if walker.remaining() < 4 {
            return Err(
                DatError::OutOfRange {
                    buffer_length: walker.len(),
                    requested_index: walker.offset(),
                },
            );
        }
        let tag = walker.take_bytes(4);
        let t0 = tag[0];
        let t1 = tag[1];
        let t2 = tag[2];
        let t3 = tag[3];
        if !check_utf8_4(t0, t1, t2, t3) {
            return Err(
                DatError::InvalidTag {
                    tag_word: t0 as u32 + t1 as u32 * 0x100 + t2 as u32 * 0x10000 + t3 as u32
                        * 0x1000000,
                },
            );
        }
        let four_char_code = vstd::slice::slice_to_vec(tag);
        let type_and_length = match walker.step_u32() {
            Ok(v) => v % 0x10000000,
            Err(e) => {
                return Err(e);
            },
        };
        let unknown_0x08 = match walker.step_u32() {
            Ok(v) => v,
            Err(e) => {
                return Err(e);
            },
        };
        let unknown_0x12 = match walker.step_u32() {
            Ok(v) => v,
            Err(e) => {
                return Err(e);
            },
        };
        let chunk_type = (type_and_length % 0x80) as u8;
        let units = type_and_length / 0x80;
        if units == 0 {
            return Err(DatError::InvalidChunkLength { packed: type_and_length });
        }
        let length = units * 16 - 16;
        let data = match ChunkData::parse(walker, chunk_type, length, key_table) {
            Ok(d) => d,
            Err(e) => {
                return Err(e);
            },
        };
        Ok(Chunk { four_char_code, chunk_type, unknown_0x08, unknown_0x12, data })
    }
}

impl ZoneData {
    /// Decodes a zone container: chunks, one after another, until the
    /// buffer is exhausted; see [`m_zone_data`].
    pub fn parse(walker: &mut SliceByteWalker, key_table: &[u8]) -> (r: Result<
        ZoneData,
        DatError,
    >)
        requires
            old(walker).wf(),
            key_table@.len() == 256,
        ensures
            final(walker).slice@ == old(walker).slice@,
            final(walker).wf(),
            match r {
                Ok(zd) => m_zone_data(
                    old(walker).slice@,
                    old(walker).offset as int,
                    key_table@,
                ) == Ok::<(Seq<ChunkModel>, int), DatError>(
                    (zd@, final(walker).offset as int),
                ),
                Err(e) => m_zone_data(
                    old(walker).slice@,
                    old(walker).offset as int,
                    key_table@,
                ) == Err::<(Seq<ChunkModel>, int), DatError>(e),
            },
    {
        let ghost b = old(walker).slice@;
        let ghost p0 = old(walker).offset as int;
        let mut chunks: Vec<Chunk> = Vec::new();
        proof {
            let whole = m_zone_data(b, p0, key_table@);
            if whole is Ok {
                let (rest, q) = whole->Ok_0;
                assert(Seq::<ChunkModel>::empty() + rest =~= rest);
            }
        }
        while walker.remaining() > 0
            invariant
                walker.wf(),
                walker.slice@ == b,
                m_zone_data(b, p0, key_table@) == match m_zone_data(
                    b,
                    walker.offset as int,
                    key_table@,
                ) {
                    Ok((rest, q)) => Ok::<(Seq<ChunkModel>, int), DatError>(
                        (chunks@.map_values(|c: Chunk| c@) + rest, q),
                    ),
                    Err(e) => Err::<(Seq<ChunkModel>, int), DatError>(e),
                },
            decreases walker.slice@.len() - walker.offset,
        {
            let ghost cur = walker.offset as int;
            let ghost before = chunks@;
            let chunk = match Chunk::parse(walker, key_table) {
                Ok(c) => c,
                Err(e) => {
                    return Err(e);
                },
            };
            proof {
                lemma_m_chunk_progress(b, cur, key_table@);
                if m_zone_data(b, walker.offset as int, key_table@) is Ok {
                    let (rest, q) = m_zone_data(b, walker.offset as int, key_table@)->Ok_0;
                    assert(before.map_values(|c: Chunk| c@) + (seq![chunk@] + rest)
                        =~= before.push(chunk).map_values(|c: Chunk| c@) + rest);
                }
            }
            chunks.push(chunk);
        }
        proof {
            assert(chunks@.map_values(|c: Chunk| c@) + Seq::<ChunkModel>::empty()
                =~= chunks@.map_values(|c: Chunk| c@));
        }
        Ok(ZoneData { chunks })
    }
}

} // verus!

verus! {

/// The no-op law of scheme C: on any chunk body whose bytes at offsets 6
/// and 7 are both `0xFF`, the decryption is the identity function,
/// whatever the key table holds.
pub proof fn lemma_scheme_c_noop(d: Seq<u8>, kt: Seq<u8>)
    requires
        d.len() >= 8,
        d[6] == 0xFF,
        d[7] == 0xFF,
    ensures
        m_decode_ffff(d, kt) == Ok::<Seq<u8>, DatError>(d),
{
    reveal(m_decode_ffff);
}

} // verus!
