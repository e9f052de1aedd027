//! Parsing Block and SimpleBlock payloads, including the four lacing modes.

use std::collections::VecDeque;

use vstd::prelude::*;

use crate::ebml::sint_payload;
use crate::error::DemuxError;
use crate::source::ByteSource;
use crate::vint::{
    lace_vint_end, lace_vint_ok, lace_vint_value, parse_variable_i64, parse_variable_u64,
    size_vint_end, size_vint_ok, size_vint_value,
};

verus! {

/// One frame taken out of a block, waiting to be handed to the caller.
#[derive(Clone, Copy, Debug)]
pub struct LacedFrame {
    /// The track the frame belongs to.
    pub track: u64,
    /// The absolute timestamp of the frame.
    pub timestamp: u64,
    /// The byte size of the frame data.
    pub size: u64,
    /// Set when the codec should decode this frame but not display it.
    pub is_invisible: bool,
    /// Set for keyframes; only known for simple blocks.
    pub is_keyframe: Option<bool>,
    /// Set when the frame may be discarded; only known for simple blocks.
    pub is_discardable: Option<bool>,
}

/// The cluster timestamp plus a signed block offset, saturating at both ends
/// of the unsigned range.
pub open spec fn block_ts(cluster: u64, off: int) -> u64 {
    if cluster + off > u64::MAX {
        u64::MAX
    } else if cluster + off < 0 {
        0
    } else {
        (cluster + off) as u64
    }
}

/// The frame a block describes, for one frame size: the flag bits of `hb`
/// give invisibility, and, for simple blocks only, the keyframe and
/// discardable marks.
pub open spec fn frame_of(track: u64, ts: u64, size: u64, hb: u8, simple: bool) -> LacedFrame {
    LacedFrame {
        track,
        timestamp: ts,
        size,
        is_invisible: (hb / 8) % 2 == 1,
        is_keyframe: if simple {
            Some(hb / 128 == 1)
        } else {
            None
        },
        is_discardable: if simple {
            Some(hb % 2 == 1)
        } else {
            None
        },
    }
}

/// Whether a Xiph size entry ends before the data does: some byte after
/// `pos` is not 255.
pub open spec fn xiph_size_ok(data: Seq<u8>, pos: int) -> bool
    decreases data.len() - pos,
{
    &&& 0 <= pos < data.len()
    &&& (data[pos] == 255 ==> xiph_size_ok(data, pos + 1))
}

/// The bytes a Xiph size entry takes: every 255 byte continues the entry.
pub open spec fn xiph_size_len(data: Seq<u8>, pos: int) -> int
    decreases data.len() - pos,
{
    if pos < 0 || pos >= data.len() {
        1
    } else if data[pos] == 255 {
        1 + xiph_size_len(data, pos + 1)
    } else {
        1
    }
}

/// The value of a Xiph size entry: the sum of its bytes.
pub open spec fn xiph_size_value(data: Seq<u8>, pos: int) -> nat
    decreases data.len() - pos,
{
    if pos < 0 || pos >= data.len() {
        0
    } else if data[pos] == 255 {
        (255 + xiph_size_value(data, pos + 1)) as nat
    } else {
        data[pos] as nat
    }
}

/// Whether `k` Xiph size entries in a row can be read at `pos`.
pub open spec fn xiph_table_ok(data: Seq<u8>, pos: int, k: int) -> bool
    decreases k,
{
    k <= 0 || (xiph_size_ok(data, pos) && xiph_table_ok(
        data,
        pos + xiph_size_len(data, pos),
        k - 1,
    ))
}

/// The position just past `k` Xiph size entries at `pos`.
pub open spec fn xiph_table_end(data: Seq<u8>, pos: int, k: int) -> int
    decreases k,
{
    if k <= 0 {
        pos
    } else {
        xiph_table_end(data, pos + xiph_size_len(data, pos), k - 1)
    }
}

/// The values of `k` Xiph size entries at `pos`.
pub open spec fn xiph_table_sizes(data: Seq<u8>, pos: int, k: int) -> Seq<nat>
    decreases k,
{
    if k <= 0 {
        Seq::empty()
    } else {
        seq![xiph_size_value(data, pos)] + xiph_table_sizes(
            data,
            pos + xiph_size_len(data, pos),
            k - 1,
        )
    }
}

/// The sum of a sequence of sizes.
pub open spec fn sizes_sum(s: Seq<nat>) -> nat
    decreases s.len(),
{
    if s.len() == 0 {
        0
    } else {
        (sizes_sum(s.drop_last()) + s.last()) as nat
    }
}

/// The next EBML-laced frame size: the previous size plus a signed offset,
/// saturating at both ends of the unsigned range.
pub open spec fn ebml_next_size(prev: u64, off: int) -> u64 {
    if prev + off > u64::MAX {
        u64::MAX
    } else if prev + off < 0 {
        0
    } else {
        (prev + off) as u64
    }
}

/// Whether `k` signed lacing VINTs in a row can be read at `pos`.
pub open spec fn ebml_deltas_ok(data: Seq<u8>, pos: int, k: int) -> bool
    decreases k,
{
    k <= 0 || (lace_vint_ok(data, pos) && ebml_deltas_ok(data, lace_vint_end(data, pos), k - 1))
}

/// The position just past `k` signed lacing VINTs at `pos`.
pub open spec fn ebml_deltas_end(data: Seq<u8>, pos: int, k: int) -> int
    decreases k,
{
    if k <= 0 {
        pos
    } else {
        ebml_deltas_end(data, lace_vint_end(data, pos), k - 1)
    }
}

/// The EBML-laced frame sizes after the first: each signed lacing VINT
/// shifts the previous size.
pub open spec fn ebml_delta_sizes(data: Seq<u8>, pos: int, prev: u64, k: int) -> Seq<u64>
    decreases k,
{
    if k <= 0 {
        Seq::empty()
    } else {
        let nxt = ebml_next_size(prev, lace_vint_value(data, pos));
        seq![nxt] + ebml_delta_sizes(data, lace_vint_end(data, pos), nxt, k - 1)
    }
}

/// The sum of a sequence of u64 sizes.
pub open spec fn sizes_sum_u64(s: Seq<u64>) -> nat
    decreases s.len(),
{
    if s.len() == 0 {
        0
    } else {
        (sizes_sum_u64(s.drop_last()) + s.last()) as nat
    }
}

/// Appending one size to a sum adds its value.
pub proof fn lemma_sizes_sum_snoc(s: Seq<nat>, x: nat)
    ensures
        sizes_sum(s.push(x)) == sizes_sum(s) + x,
{
    assert(s.push(x).drop_last() =~= s);
    assert(s.push(x).last() == x);
}

/// Appending one size to a u64 sum adds its value.
pub proof fn lemma_sizes_sum_u64_snoc(s: Seq<u64>, x: u64)
    ensures
        sizes_sum_u64(s.push(x)) == sizes_sum_u64(s) + x,
{
    assert(s.push(x).drop_last() =~= s);
    assert(s.push(x).last() == x);
}

/// Reading one more Xiph entry extends the table by that entry.
pub proof fn lemma_xiph_table_snoc(data: Seq<u8>, pos: int, i: int)
    requires
        i >= 0,
    ensures
        xiph_table_end(data, pos, i + 1) == xiph_table_end(data, pos, i) + xiph_size_len(
            data,
            xiph_table_end(data, pos, i),
        ),
        xiph_table_sizes(data, pos, i + 1) == xiph_table_sizes(data, pos, i).push(
            xiph_size_value(data, xiph_table_end(data, pos, i)),
        ),
        (xiph_table_ok(data, pos, i) && xiph_size_ok(data, xiph_table_end(data, pos, i)))
            ==> xiph_table_ok(data, pos, i + 1),
        xiph_table_ok(data, pos, i + 1) ==> (xiph_table_ok(data, pos, i) && xiph_size_ok(
            data,
            xiph_table_end(data, pos, i),
        )),
    decreases i,
{
    if i == 0 {
        let pos2 = pos + xiph_size_len(data, pos);
        assert(xiph_table_sizes(data, pos2, 0) == Seq::<nat>::empty());
        assert(xiph_table_end(data, pos2, 0) == pos2);
        assert(xiph_table_ok(data, pos2, 0));
        assert(xiph_table_end(data, pos, 0) == pos);
        assert(xiph_table_sizes(data, pos, 0) == Seq::<nat>::empty());
        assert(xiph_table_sizes(data, pos, 1) =~= xiph_table_sizes(data, pos, 0).push(
            xiph_size_value(data, pos),
        ));
    } else {
        let pos2 = pos + xiph_size_len(data, pos);
        lemma_xiph_table_snoc(data, pos2, i - 1);
        assert(xiph_table_sizes(data, pos, i + 1) =~= xiph_table_sizes(data, pos, i).push(
            xiph_size_value(data, xiph_table_end(data, pos, i)),
        ));
    }
}

/// A longer Xiph table has at least the sum of a shorter one.
pub proof fn lemma_xiph_sum_mono(data: Seq<u8>, pos: int, i: int, k: int)
    requires
        0 <= i <= k,
    ensures
        sizes_sum(xiph_table_sizes(data, pos, i)) <= sizes_sum(xiph_table_sizes(data, pos, k)),
    decreases k - i,
{
    if i < k {
        lemma_xiph_table_snoc(data, pos, k - 1);
        lemma_sizes_sum_snoc(
            xiph_table_sizes(data, pos, k - 1),
            xiph_size_value(data, xiph_table_end(data, pos, k - 1)),
        );
        lemma_xiph_sum_mono(data, pos, i, k - 1);
    }
}

/// A Xiph table never ends before it starts.
pub proof fn lemma_xiph_table_end_ge(data: Seq<u8>, pos: int, k: int)
    requires
        k >= 0,
    ensures
        xiph_table_end(data, pos, k) >= pos,
    decreases k,
{
    if k > 0 {
        lemma_xiph_table_snoc(data, pos, k - 1);
        lemma_xiph_table_end_ge(data, pos, k - 1);
        assert(xiph_size_len(data, xiph_table_end(data, pos, k - 1)) >= 1) by {
            lemma_xiph_size_len_ge(data, xiph_table_end(data, pos, k - 1));
        }
    }
}

/// A Xiph size entry takes at least one byte.
pub proof fn lemma_xiph_size_len_ge(data: Seq<u8>, pos: int)
    ensures
        xiph_size_len(data, pos) >= 1,
    decreases data.len() - pos,
{
    if 0 <= pos && pos < data.len() && data[pos] == 255 {
        lemma_xiph_size_len_ge(data, pos + 1);
    }
}

/// Reading one more signed lacing VINT extends the delta table by one size.
pub proof fn lemma_ebml_deltas_snoc(data: Seq<u8>, pos: int, prev: u64, i: int)
    requires
        i >= 0,
    ensures
        ebml_deltas_end(data, pos, i + 1) == lace_vint_end(
            data,
            ebml_deltas_end(data, pos, i),
        ),
        ebml_delta_sizes(data, pos, prev, i + 1) == ebml_delta_sizes(data, pos, prev, i).push(
            ebml_next_size(
                last_or(ebml_delta_sizes(data, pos, prev, i), prev),
                lace_vint_value(data, ebml_deltas_end(data, pos, i)),
            ),
        ),
        (ebml_deltas_ok(data, pos, i) && lace_vint_ok(data, ebml_deltas_end(data, pos, i)))
            ==> ebml_deltas_ok(data, pos, i + 1),
        ebml_deltas_ok(data, pos, i + 1) ==> (ebml_deltas_ok(data, pos, i) && lace_vint_ok(
            data,
            ebml_deltas_end(data, pos, i),
        )),
    decreases i,
{
    if i == 0 {
        let pos2 = lace_vint_end(data, pos);
        let prev2 = ebml_next_size(prev, lace_vint_value(data, pos));
        assert(ebml_delta_sizes(data, pos2, prev2, 0) == Seq::<u64>::empty());
        assert(ebml_deltas_end(data, pos2, 0) == pos2);
        assert(ebml_deltas_ok(data, pos2, 0));
        assert(ebml_deltas_end(data, pos, 0) == pos);
        assert(ebml_delta_sizes(data, pos, prev, 0) == Seq::<u64>::empty());
        assert(ebml_delta_sizes(data, pos, prev, 1) =~= ebml_delta_sizes(data, pos, prev, 0).push(
            ebml_next_size(prev, lace_vint_value(data, pos)),
        ));
    } else {
        let pos2 = lace_vint_end(data, pos);
        let prev2 = ebml_next_size(prev, lace_vint_value(data, pos));
        lemma_ebml_deltas_snoc(data, pos2, prev2, i - 1);
        assert(ebml_delta_sizes(data, pos, prev, i + 1) =~= ebml_delta_sizes(
            data,
            pos,
            prev,
            i,
        ).push(
            ebml_next_size(
                last_or(ebml_delta_sizes(data, pos, prev, i), prev),
                lace_vint_value(data, ebml_deltas_end(data, pos, i)),
            ),
        ));
    }
}

/// The last element of a sequence, or a default when it is empty.
pub open spec fn last_or(s: Seq<u64>, d: u64) -> u64 {
    if s.len() == 0 {
        d
    } else {
        s.last()
    }
}

/// A longer delta table has at least the sum of a shorter one.
pub proof fn lemma_ebml_sum_mono(data: Seq<u8>, pos: int, prev: u64, i: int, k: int)
    requires
        0 <= i <= k,
    ensures
        sizes_sum_u64(ebml_delta_sizes(data, pos, prev, i)) <= sizes_sum_u64(
            ebml_delta_sizes(data, pos, prev, k),
        ),
    decreases k - i,
{
    if i < k {
        lemma_ebml_deltas_snoc(data, pos, prev, k - 1);
        lemma_sizes_sum_u64_snoc(
            ebml_delta_sizes(data, pos, prev, k - 1),
            ebml_next_size(
                last_or(ebml_delta_sizes(data, pos, prev, k - 1), prev),
                lace_vint_value(data, ebml_deltas_end(data, pos, k - 1)),
            ),
        );
        lemma_ebml_sum_mono(data, pos, prev, i, k - 1);
    }
}

/// Every block that decodes yields at least one frame, and the first frame
/// carries the block's timestamp.
pub proof fn lemma_laced_first_frame(
    data: Seq<u8>,
    c: int,
    block_size: u64,
    cts: u64,
    simple: bool,
)
    ensures
        laced_frames_seq(data, c, block_size, cts, simple).len() > 0,
        laced_frames_seq(data, c, block_size, cts, simple)[0].timestamp == block_ts(
            cts,
            block_time_off(data, c),
        ),
{
    let body = block_body(data, c);
    let lac = block_lacing(data, c);
    if lac != 0 {
        let fc = data[body] + 1;
        let lb = body + 1;
        if lac == 1 {
            lemma_xiph_table_sizes_len(data, lb, fc - 1);
        } else if lac == 3 {
            let m: int = if fc >= 2 {
                fc - 2
            } else {
                0
            };
            lemma_ebml_delta_sizes_len(
                data,
                size_vint_end(data, lb),
                size_vint_value(data, lb),
                m,
            );
        }
    }
}

/// Reads one byte as an unsigned value.
pub fn parse_u8_as_u64(r: &mut ByteSource) -> (res: Result<u64, DemuxError>)
    ensures
        final(r).bytes() == old(r).bytes(),
        match res {
            Ok(v) => {
                &&& old(r).cursor() < old(r).bytes().len()
                &&& v == old(r).bytes()[old(r).cursor()]
                &&& final(r).cursor() == old(r).cursor() + 1
            },
            Err(e) => e == DemuxError::IoError && old(r).cursor() == old(r).bytes().len(),
        },
{
    match r.read_byte() {
        Ok(b) => Ok(b as u64),
        Err(e) => Err(e),
    }
}

/// Reads a big-endian signed 16-bit integer.
pub fn parse_i16(r: &mut ByteSource) -> (res: Result<i16, DemuxError>)
    ensures
        final(r).bytes() == old(r).bytes(),
        match res {
            Ok(v) => {
                &&& old(r).cursor() + 2 <= old(r).bytes().len()
                &&& v == sint_payload(old(r).bytes(), old(r).cursor(), 2)
                &&& final(r).cursor() == old(r).cursor() + 2
            },
            Err(e) => e == DemuxError::IoError && old(r).cursor() + 2 > old(r).bytes().len(),
        },
{
    let b0 = match r.read_byte() {
        Ok(b) => b,
        Err(e) => {
            return Err(e);
        },
    };
    let b1 = match r.read_byte() {
        Ok(b) => b,
        Err(e) => {
            return Err(e);
        },
    };
    let u: u32 = (b0 as u32) * 256 + (b1 as u32);
    let v: i16 = if u >= 0x8000 {
        -((0xffff - u) as i16) - 1
    } else {
        u as i16
    };
    proof {
        let data = old(r).bytes();
        let c = old(r).cursor();
        let s = data.subrange(c, c + 2);
        assert(s =~= Seq::<u8>::empty().push(data[c]).push(data[c + 1]));
        crate::vint::lemma_be_value_snoc(Seq::<u8>::empty().push(data[c]), data[c + 1]);
        crate::vint::lemma_be_value_snoc(Seq::<u8>::empty(), data[c]);
        assert(Seq::<u8>::empty().push(data[c]).drop_last() =~= Seq::<u8>::empty());
        crate::vint::lemma_pow256_values();
        assert(crate::vint::be_value(s) == data[c] * 256 + data[c + 1]);
    }
    Ok(v)
}

/// The timestamp of a block: the cluster timestamp shifted by the block's
/// signed 16-bit offset, saturating at both ends.
pub fn parse_timestamp(r: &mut ByteSource, cluster_timestamp: u64) -> (res: Result<
    u64,
    DemuxError,
>)
    ensures
        final(r).bytes() == old(r).bytes(),
        match res {
            Ok(t) => {
                &&& old(r).cursor() + 2 <= old(r).bytes().len()
                &&& t == block_ts(
                    cluster_timestamp,
                    sint_payload(old(r).bytes(), old(r).cursor(), 2),
                )
                &&& final(r).cursor() == old(r).cursor() + 2
            },
            Err(e) => e == DemuxError::IoError && old(r).cursor() + 2 > old(r).bytes().len(),
        },
{
    let off = match parse_i16(r) {
        Ok(v) => v,
        Err(e) => {
            return Err(e);
        },
    };
    let t: u64 = if off >= 0 {
        cluster_timestamp.saturating_add(off as u64)
    } else {
        let mag: u64 = (-(off as i64)) as u64;
        cluster_timestamp.saturating_sub(mag)
    };
    Ok(t)
}

/// Whether the track number and timestamp offset of a block can be read at
/// `pos`.
pub open spec fn probe_ok(data: Seq<u8>, pos: int) -> bool {
    size_vint_ok(data, pos) && size_vint_end(data, pos) + 2 <= data.len()
}

/// Reads only the track number and timestamp offset of a block, to learn its
/// timestamp without decoding the lacing.
pub fn probe_block_timestamp(r: &mut ByteSource, cluster_timestamp: u64) -> (res: Result<
    u64,
    DemuxError,
>)
    ensures
        final(r).bytes() == old(r).bytes(),
        match res {
            Ok(t) => {
                &&& probe_ok(old(r).bytes(), old(r).cursor())
                &&& t == block_ts(
                    cluster_timestamp,
                    sint_payload(
                        old(r).bytes(),
                        size_vint_end(old(r).bytes(), old(r).cursor()),
                        2,
                    ),
                )
                &&& final(r).cursor() == size_vint_end(old(r).bytes(), old(r).cursor()) + 2
            },
            Err(_) => !probe_ok(old(r).bytes(), old(r).cursor()),
        },
{
    match parse_variable_u64(r) {
        Ok(_) => (),
        Err(e) => {
            return Err(e);
        },
    };
    parse_timestamp(r, cluster_timestamp)
}

/// A Xiph table of `k` entries lists `k` sizes.
pub proof fn lemma_xiph_table_sizes_len(data: Seq<u8>, pos: int, k: int)
    requires
        k >= 0,
    ensures
        xiph_table_sizes(data, pos, k).len() == k,
    decreases k,
{
    if k > 0 {
        lemma_xiph_table_sizes_len(data, pos + xiph_size_len(data, pos), k - 1);
    }
}

/// A delta table of `k` entries lists `k` sizes.
pub proof fn lemma_ebml_delta_sizes_len(data: Seq<u8>, pos: int, prev: u64, k: int)
    requires
        k >= 0,
    ensures
        ebml_delta_sizes(data, pos, prev, k).len() == k,
    decreases k,
{
    if k > 0 {
        lemma_ebml_delta_sizes_len(
            data,
            lace_vint_end(data, pos),
            ebml_next_size(prev, lace_vint_value(data, pos)),
            k - 1,
        );
    }
}

/// A readable Xiph table is readable at every shorter length, and the next
/// entry after a strict prefix is readable too.
pub proof fn lemma_xiph_table_ok_prefix(data: Seq<u8>, pos: int, i: int, k: int)
    requires
        0 <= i <= k,
        xiph_table_ok(data, pos, k),
    ensures
        xiph_table_ok(data, pos, i),
        i < k ==> xiph_size_ok(data, xiph_table_end(data, pos, i)),
    decreases k - i,
{
    if i < k {
        lemma_xiph_table_snoc(data, pos, k - 1);
        if i == k - 1 {
        } else {
            lemma_xiph_table_ok_prefix(data, pos, i, k - 1);
        }
    }
}

/// A readable delta table is readable at every shorter length, and the next
/// lacing VINT after a strict prefix is readable too.
pub proof fn lemma_ebml_deltas_ok_prefix(data: Seq<u8>, pos: int, i: int, k: int)
    requires
        0 <= i <= k,
        ebml_deltas_ok(data, pos, k),
    ensures
        ebml_deltas_ok(data, pos, i),
        i < k ==> lace_vint_ok(data, ebml_deltas_end(data, pos, i)),
    decreases k - i,
{
    if i < k {
        lemma_ebml_deltas_snoc(data, pos, 0, k - 1);
        if i == k - 1 {
        } else {
            lemma_ebml_deltas_ok_prefix(data, pos, i, k - 1);
        }
    }
}

/// The track number of the block at `c`.
pub open spec fn block_track(data: Seq<u8>, c: int) -> u64 {
    size_vint_value(data, c)
}

/// The signed 16-bit timestamp offset of the block at `c`.
pub open spec fn block_time_off(data: Seq<u8>, c: int) -> int {
    sint_payload(data, size_vint_end(data, c), 2)
}

/// The flags byte of the block at `c`.
pub open spec fn block_flags(data: Seq<u8>, c: int) -> u8 {
    data[size_vint_end(data, c) + 2]
}

/// The first body byte of the block at `c`: past track, offset and flags.
pub open spec fn block_body(data: Seq<u8>, c: int) -> int {
    size_vint_end(data, c) + 3
}

/// The lacing mode of the block at `c`: 0 none, 1 Xiph, 2 fixed-size,
/// 3 EBML.
pub open spec fn block_lacing(data: Seq<u8>, c: int) -> int {
    ((block_flags(data, c) / 2) % 4) as int
}

/// Whether the track number, timestamp offset and flags byte of a block can
/// be read at `c`.
pub open spec fn block_header_min_ok(data: Seq<u8>, c: int) -> bool {
    size_vint_ok(data, c) && size_vint_end(data, c) + 3 <= data.len()
}

/// Whether a whole block at `c` with the given total size decodes: its
/// header, its lacing table, and frame sizes that stay within the block.
pub open spec fn laced_frames_ok(data: Seq<u8>, c: int, block_size: u64) -> bool {
    &&& block_header_min_ok(data, c)
    &&& {
        let body = block_body(data, c);
        let lac = block_lacing(data, c);
        if lac == 0 {
            block_size >= body - c
        } else {
            &&& body < data.len()
            &&& {
                let fc = data[body] + 1;
                let lb = body + 1;
                if lac == 2 {
                    block_size >= lb - c
                } else if lac == 1 {
                    let k = fc - 1;
                    let sizes = xiph_table_sizes(data, lb, k);
                    &&& xiph_table_ok(data, lb, k)
                    &&& sizes_sum(sizes) <= u64::MAX
                    &&& block_size >= (xiph_table_end(data, lb, k) - c) + sizes_sum(sizes)
                } else {
                    let m: int = if fc >= 2 {
                        fc - 2
                    } else {
                        0
                    };
                    &&& size_vint_ok(data, lb)
                    &&& {
                        let dpos = size_vint_end(data, lb);
                        let first = size_vint_value(data, lb);
                        let ds = ebml_delta_sizes(data, dpos, first, m);
                        &&& ebml_deltas_ok(data, dpos, m)
                        &&& first + sizes_sum_u64(ds) <= u64::MAX
                        &&& block_size >= (ebml_deltas_end(data, dpos, m) - c) + first
                            + sizes_sum_u64(ds)
                    }
                }
            }
        }
    }
}

/// The position of the first frame's data in the block at `c`: just past the
/// lacing table.
pub open spec fn laced_data_start(data: Seq<u8>, c: int) -> int {
    let body = block_body(data, c);
    let lac = block_lacing(data, c);
    if lac == 0 {
        body
    } else {
        let fc = data[body] + 1;
        let lb = body + 1;
        if lac == 2 {
            lb
        } else if lac == 1 {
            xiph_table_end(data, lb, fc - 1)
        } else {
            let m: int = if fc >= 2 {
                fc - 2
            } else {
                0
            };
            ebml_deltas_end(data, size_vint_end(data, lb), m)
        }
    }
}

/// The frames the block at `c` holds, in wire order, when it decodes.
pub open spec fn laced_frames_seq(
    data: Seq<u8>,
    c: int,
    block_size: u64,
    cluster: u64,
    simple: bool,
) -> Seq<LacedFrame> {
    let track = block_track(data, c);
    let ts = block_ts(cluster, block_time_off(data, c));
    let hb = block_flags(data, c);
    let body = block_body(data, c);
    let lac = block_lacing(data, c);
    if lac == 0 {
        seq![frame_of(track, ts, (block_size - (body - c)) as u64, hb, simple)]
    } else {
        let fc = data[body] + 1;
        let lb = body + 1;
        if lac == 2 {
            let dsz = block_size - (lb - c);
            Seq::new(fc as nat, |i: int| frame_of(track, ts, (dsz / fc) as u64, hb, simple))
        } else if lac == 1 {
            let k = fc - 1;
            let sizes = xiph_table_sizes(data, lb, k);
            let tend = xiph_table_end(data, lb, k);
            let last = (block_size - (tend - c) - sizes_sum(sizes)) as u64;
            Seq::new(k as nat, |i: int| frame_of(track, ts, sizes[i] as u64, hb, simple)).push(
                frame_of(track, ts, last, hb, simple),
            )
        } else {
            let m: int = if fc >= 2 {
                fc - 2
            } else {
                0
            };
            let first = size_vint_value(data, lb);
            let dpos = size_vint_end(data, lb);
            let ds = ebml_delta_sizes(data, dpos, first, m);
            let tend = ebml_deltas_end(data, dpos, m);
            let last = (block_size - (tend - c) - first - sizes_sum_u64(ds)) as u64;
            seq![frame_of(track, ts, first, hb, simple)] + Seq::new(
                m as nat,
                |i: int| frame_of(track, ts, ds[i], hb, simple),
            ).push(frame_of(track, ts, last, hb, simple))
        }
    }
}

/// Reads one Xiph frame size: bytes are summed, each 255 continues the
/// entry, the first other byte ends it.
pub fn parse_xiph_frame_size(r: &mut ByteSource) -> (res: Result<u64, DemuxError>)
    ensures
        final(r).bytes() == old(r).bytes(),
        match res {
            Ok(s) => {
                &&& xiph_size_ok(old(r).bytes(), old(r).cursor())
                &&& s as nat == xiph_size_value(old(r).bytes(), old(r).cursor())
                &&& final(r).cursor() == old(r).cursor() + xiph_size_len(
                    old(r).bytes(),
                    old(r).cursor(),
                )
            },
            Err(e) => match e {
                DemuxError::IoError => !xiph_size_ok(old(r).bytes(), old(r).cursor()),
                DemuxError::InvalidEbmlDataSize => xiph_size_ok(old(r).bytes(), old(r).cursor())
                    ==> xiph_size_value(old(r).bytes(), old(r).cursor()) > u64::MAX,
                _ => false,
            },
        },
{
    let _entry = r.position();
    let ghost data = old(r).bytes();
    let mut size: u64 = 0;
    loop
        invariant
            r.bytes() == data,
            0 <= old(r).cursor() <= r.cursor() <= data.len(),
            size as nat + xiph_size_value(data, r.cursor()) == xiph_size_value(
                data,
                old(r).cursor(),
            ),
            size as nat == 255 * (r.cursor() - old(r).cursor()),
            xiph_size_ok(data, old(r).cursor()) == xiph_size_ok(data, r.cursor()),
            xiph_size_len(data, old(r).cursor()) == (r.cursor() - old(r).cursor())
                + xiph_size_len(data, r.cursor()),
        decreases data.len() - r.cursor(),
    {
        let ghost cur = r.cursor();
        let val = match r.read_byte() {
            Ok(b) => b,
            Err(e) => {
                return Err(e);
            },
        };
        proof {
            assert(255 * ((cur + 1) - old(r).cursor()) == 255 * (cur - old(r).cursor()) + 255);
        }
        if val == 255 {
            size = match size.checked_add(255) {
                Some(s) => s,
                None => {
                    return Err(DemuxError::InvalidEbmlDataSize);
                },
            };
        } else {
            let total = match size.checked_add(val as u64) {
                Some(s) => s,
                None => {
                    return Err(DemuxError::InvalidEbmlDataSize);
                },
            };
            return Ok(total);
        }
    }
}

/// Decodes a Block or SimpleBlock payload at the cursor into frames, one per
/// laced frame, appended to the queue in wire order. All frames of one block
/// share the track, timestamp and flags; the frame sizes come from the
/// block's lacing mode.
#[verifier::rlimit(100)]
pub fn parse_laced_frames(
    r: &mut ByteSource,
    frames: &mut VecDeque<LacedFrame>,
    block_size: u64,
    cluster_timestamp: u64,
    header_start: u64,
    is_simple_block: bool,
) -> (res: Result<(), DemuxError>)
    requires
        header_start as int == old(r).cursor(),
    ensures
        final(r).bytes() == old(r).bytes(),
        res is Ok <==> laced_frames_ok(old(r).bytes(), old(r).cursor(), block_size),
        res is Ok ==> final(r).cursor() == laced_data_start(old(r).bytes(), old(r).cursor()),
        res is Ok ==> final(frames)@ == old(frames)@ + laced_frames_seq(
            old(r).bytes(),
            old(r).cursor(),
            block_size,
            cluster_timestamp,
            is_simple_block,
        ),
{
    let ghost data = old(r).bytes();
    let ghost c = old(r).cursor();
    let track = match parse_variable_u64(r) {
        Ok(t) => t,
        Err(e) => {
            return Err(e);
        },
    };
    let ghost tpos = size_vint_end(data, c);
    let timestamp = match parse_timestamp(r, cluster_timestamp) {
        Ok(t) => t,
        Err(e) => {
            return Err(e);
        },
    };
    let header_byte = match r.read_byte() {
        Ok(b) => b,
        Err(e) => {
            return Err(e);
        },
    };
    let ghost body = block_body(data, c);
    let is_keyframe: Option<bool> = if is_simple_block {
        Some(header_byte / 128 == 1)
    } else {
        None
    };
    let is_invisible: bool = (header_byte / 8) % 2 == 1;
    let lacing: u8 = (header_byte / 2) % 4;
    let is_discardable: Option<bool> = if is_simple_block {
        Some(header_byte % 2 == 1)
    } else {
        None
    };
    let ghost base = frames@;
    if lacing == 0 {
        let header_end = r.position();
        let header_size = header_end - header_start;
        let data_size = match block_size.checked_sub(header_size) {
            Some(d) => d,
            None => {
                return Err(DemuxError::InvalidEbmlDataSize);
            },
        };
        frames.push_back(
            LacedFrame {
                track,
                timestamp,
                size: data_size,
                is_invisible,
                is_keyframe,
                is_discardable,
            },
        );
        proof {
            assert(frames@ =~= base + laced_frames_seq(
                data,
                c,
                block_size,
                cluster_timestamp,
                is_simple_block,
            ));
        }
        return Ok(());
    }
    let count_byte = match parse_u8_as_u64(r) {
        Ok(b) => b,
        Err(e) => {
            return Err(e);
        },
    };
    let frame_count = count_byte + 1;
    let ghost fc = data[body] + 1;
    let ghost lb = body + 1;
    let ghost track_s = block_track(data, c);
    let ghost ts_s = block_ts(cluster_timestamp, block_time_off(data, c));
    let ghost hb = block_flags(data, c);
    if lacing == 2 {
        // Fixed-size lacing: every frame takes an equal share of the body.
        let header_end = r.position();
        let header_size = header_end - header_start;
        let data_size = match block_size.checked_sub(header_size) {
            Some(d) => d,
            None => {
                return Err(DemuxError::InvalidEbmlDataSize);
            },
        };
        let size = data_size / frame_count;
        let ghost want = laced_frames_seq(data, c, block_size, cluster_timestamp, is_simple_block);
        let mut i: u64 = 0;
        while i < frame_count
            invariant
                i <= frame_count,
                frames@ == base + want.take(i as int),
                want == Seq::new(
                    fc as nat,
                    |j: int| frame_of(track_s, ts_s, size, hb, is_simple_block),
                ),
                frame_count == fc,
            decreases frame_count - i,
        {
            frames.push_back(
                LacedFrame {
                    track,
                    timestamp,
                    size,
                    is_invisible,
                    is_keyframe,
                    is_discardable,
                },
            );
            i = i + 1;
            proof {
                assert(frames@ =~= base + want.take(i as int));
            }
        }
        proof {
            assert(want.take(fc as int) =~= want);
        }
        return Ok(());
    }
    if lacing == 1 {
        // Xiph lacing: a table of summed-byte sizes, the last frame takes
        // what is left.
        let k = frame_count - 1;
        let mut encoded_sizes: u64 = 0;
        let mut i: u64 = 0;
        proof {
            assert(xiph_table_ok(data, lb, 0));
            assert(xiph_table_end(data, lb, 0) == lb);
            assert(xiph_table_sizes(data, lb, 0) == Seq::<nat>::empty());
            assert(frames@ =~= base + xiph_table_sizes(data, lb, 0).map_values(
                |v: nat| frame_of(track_s, ts_s, v as u64, hb, is_simple_block),
            ));
        }
        while i < k
            invariant
                0 <= i <= k,
                k == fc - 1,
                r.bytes() == data,
                xiph_table_ok(data, lb, i as int),
                r.cursor() == xiph_table_end(data, lb, i as int),
                encoded_sizes as nat == sizes_sum(xiph_table_sizes(data, lb, i as int)),
                frames@ == base + xiph_table_sizes(data, lb, i as int).map_values(
                    |v: nat| frame_of(track_s, ts_s, v as u64, hb, is_simple_block),
                ),
            decreases k - i,
        {
            let ghost prev_sizes = xiph_table_sizes(data, lb, i as int);
            let size = match parse_xiph_frame_size(r) {
                Ok(s) => s,
                Err(e) => {
                    proof {
                        if laced_frames_ok(data, c, block_size) {
                            lemma_xiph_table_ok_prefix(data, lb, i as int, fc - 1);
                            lemma_xiph_table_snoc(data, lb, i as int);
                            lemma_sizes_sum_snoc(
                                prev_sizes,
                                xiph_size_value(data, xiph_table_end(data, lb, i as int)),
                            );
                            lemma_xiph_sum_mono(data, lb, i as int + 1, fc - 1);
                        }
                    }
                    return Err(e);
                },
            };
            let new_sum = match encoded_sizes.checked_add(size) {
                Some(s) => s,
                None => {
                    proof {
                        if laced_frames_ok(data, c, block_size) {
                            lemma_xiph_table_snoc(data, lb, i as int);
                            lemma_sizes_sum_snoc(
                                prev_sizes,
                                xiph_size_value(data, xiph_table_end(data, lb, i as int)),
                            );
                            lemma_xiph_sum_mono(data, lb, i as int + 1, fc - 1);
                        }
                    }
                    return Err(DemuxError::InvalidEbmlDataSize);
                },
            };
            encoded_sizes = new_sum;
            frames.push_back(
                LacedFrame {
                    track,
                    timestamp,
                    size,
                    is_invisible,
                    is_keyframe,
                    is_discardable,
                },
            );
            i = i + 1;
            proof {
                lemma_xiph_table_snoc(data, lb, i as int - 1);
                lemma_sizes_sum_snoc(prev_sizes, size as nat);
                assert(frames@ =~= base + xiph_table_sizes(data, lb, i as int).map_values(
                    |v: nat| frame_of(track_s, ts_s, v as u64, hb, is_simple_block),
                ));
            }
        }
        let header_end = r.position();
        proof {
            lemma_xiph_table_end_ge(data, lb, k as int);
        }
        let header_size = header_end - header_start;
        let data_size = match block_size.checked_sub(header_size) {
            Some(d) => d,
            None => {
                return Err(DemuxError::InvalidEbmlDataSize);
            },
        };
        let size = match data_size.checked_sub(encoded_sizes) {
            Some(s) => s,
            None => {
                return Err(DemuxError::InvalidEbmlDataSize);
            },
        };
        frames.push_back(
            LacedFrame { track, timestamp, size, is_invisible, is_keyframe, is_discardable },
        );
        proof {
            let ki = fc - 1;
            let sizes = xiph_table_sizes(data, lb, ki);
            let tend = xiph_table_end(data, lb, ki);
            let lastv = (block_size - (tend - c) - sizes_sum(sizes)) as u64;
            lemma_xiph_table_sizes_len(data, lb, ki);
            assert(size == lastv);
            let f = |v: nat| frame_of(track_s, ts_s, v as u64, hb, is_simple_block);
            assert(frames@ =~= base + sizes.map_values(f).push(
                frame_of(track_s, ts_s, lastv, hb, is_simple_block),
            ));
            assert(sizes.map_values(f).push(frame_of(track_s, ts_s, lastv, hb, is_simple_block))
                =~= Seq::new(
                ki as nat,
                |i: int| frame_of(track_s, ts_s, sizes[i] as u64, hb, is_simple_block),
            ).push(frame_of(track_s, ts_s, lastv, hb, is_simple_block)));
            assert(frames@ =~= base + laced_frames_seq(
                data,
                c,
                block_size,
                cluster_timestamp,
                is_simple_block,
            ));
        }
        return Ok(());
    }
    // EBML lacing: a first VINT size, then signed deltas; the last frame
    // takes what is left. Malformed deltas saturate rather than fail.
    let first = match parse_variable_u64(r) {
        Ok(s) => s,
        Err(e) => {
            return Err(e);
        },
    };
    let ghost dpos = size_vint_end(data, lb);
    let mut size: u64 = first;
    let mut encoded_size: u64 = first;
    frames.push_back(
        LacedFrame { track, timestamp, size, is_invisible, is_keyframe, is_discardable },
    );
    let m: u64 = if frame_count >= 2 {
        frame_count - 2
    } else {
        0
    };
    let ghost ms: int = if fc >= 2 {
        fc - 2
    } else {
        0
    };
    let ghost first_frame = frame_of(track_s, ts_s, first, hb, is_simple_block);
    let mut i: u64 = 0;
    proof {
        assert(ebml_deltas_ok(data, dpos, 0));
        assert(ebml_deltas_end(data, dpos, 0) == dpos);
        assert(ebml_delta_sizes(data, dpos, first, 0) == Seq::<u64>::empty());
        assert(frames@ =~= base + seq![first_frame] + ebml_delta_sizes(
            data,
            dpos,
            first,
            0,
        ).map_values(|v: u64| frame_of(track_s, ts_s, v, hb, is_simple_block)));
    }
    while i < m
        invariant
            0 <= i <= m,
            m == ms,
            r.bytes() == data,
            ebml_deltas_ok(data, dpos, i as int),
            r.cursor() == ebml_deltas_end(data, dpos, i as int),
            size == last_or(ebml_delta_sizes(data, dpos, first, i as int), first),
            encoded_size as nat == first + sizes_sum_u64(
                ebml_delta_sizes(data, dpos, first, i as int),
            ),
            frames@ == base + seq![first_frame] + ebml_delta_sizes(
                data,
                dpos,
                first,
                i as int,
            ).map_values(|v: u64| frame_of(track_s, ts_s, v, hb, is_simple_block)),
        decreases m - i,
    {
        let ghost prev_sizes = ebml_delta_sizes(data, dpos, first, i as int);
        let next_offset = match parse_variable_i64(r) {
            Ok(o) => o,
            Err(e) => {
                proof {
                    if laced_frames_ok(data, c, block_size) {
                        lemma_ebml_deltas_ok_prefix(data, dpos, i as int, ms);
                    }
                }
                return Err(e);
            },
        };
        let new_size: u64 = if next_offset >= 0 {
            size.saturating_add(next_offset as u64)
        } else {
            size.saturating_sub((-next_offset) as u64)
        };
        let new_sum = match encoded_size.checked_add(new_size) {
            Some(s) => s,
            None => {
                proof {
                    if laced_frames_ok(data, c, block_size) {
                        lemma_ebml_deltas_snoc(data, dpos, first, i as int);
                        lemma_sizes_sum_u64_snoc(prev_sizes, new_size);
                        lemma_ebml_sum_mono(data, dpos, first, i as int + 1, ms);
                    }
                }
                return Err(DemuxError::InvalidEbmlDataSize);
            },
        };
        size = new_size;
        encoded_size = new_sum;
        frames.push_back(
            LacedFrame { track, timestamp, size, is_invisible, is_keyframe, is_discardable },
        );
        i = i + 1;
        proof {
            lemma_ebml_deltas_snoc(data, dpos, first, i as int - 1);
            lemma_sizes_sum_u64_snoc(prev_sizes, new_size);
            assert(frames@ =~= base + seq![first_frame] + ebml_delta_sizes(
                data,
                dpos,
                first,
                i as int,
            ).map_values(|v: u64| frame_of(track_s, ts_s, v, hb, is_simple_block)));
        }
    }
    let header_end = r.position();
    proof {
        lemma_ebml_deltas_end_ge(data, dpos, ms);
        crate::vint::lemma_scan_pos_ge(data, lb);
    }
    let header_size = header_end - header_start;
    let data_size = match block_size.checked_sub(header_size) {
        Some(d) => d,
        None => {
            return Err(DemuxError::InvalidEbmlDataSize);
        },
    };
    let last = match data_size.checked_sub(encoded_size) {
        Some(s) => s,
        None => {
            return Err(DemuxError::InvalidEbmlDataSize);
        },
    };
    frames.push_back(
        LacedFrame {
            track,
            timestamp,
            size: last,
            is_invisible,
            is_keyframe,
            is_discardable,
        },
    );
    proof {
        let ds = ebml_delta_sizes(data, dpos, first, ms);
        let tend = ebml_deltas_end(data, dpos, ms);
        let lastv = (block_size - (tend - c) - first - sizes_sum_u64(ds)) as u64;
        lemma_ebml_delta_sizes_len(data, dpos, first, ms);
        assert(last == lastv);
        let f = |v: u64| frame_of(track_s, ts_s, v, hb, is_simple_block);
        assert(frames@ =~= base + (seq![first_frame] + ds.map_values(f)).push(
            frame_of(track_s, ts_s, lastv, hb, is_simple_block),
        ));
        assert((seq![first_frame] + ds.map_values(f)).push(
            frame_of(track_s, ts_s, lastv, hb, is_simple_block),
        ) =~= seq![first_frame] + Seq::new(
            ms as nat,
            |i: int| frame_of(track_s, ts_s, ds[i], hb, is_simple_block),
        ).push(frame_of(track_s, ts_s, lastv, hb, is_simple_block)));
        assert(frames@ =~= base + laced_frames_seq(
            data,
            c,
            block_size,
            cluster_timestamp,
            is_simple_block,
        ));
    }
    Ok(())
}

/// The Xiph lacing encoding of one frame size: as many 255 bytes as fit,
/// then the remainder.
pub open spec fn xiph_encode(s: u64) -> Seq<u8>
    decreases s,
{
    if s < 255 {
        seq![s as u8]
    } else {
        seq![255u8] + xiph_encode((s - 255) as u64)
    }
}

/// The Xiph lacing encodings of a row of frame sizes, back to back.
pub open spec fn xiph_encode_all(vals: Seq<u64>) -> Seq<u8>
    decreases vals.len(),
{
    if vals.len() == 0 {
        Seq::empty()
    } else {
        xiph_encode(vals[0]) + xiph_encode_all(vals.drop_first())
    }
}

/// Decoding the Xiph encoding of one frame size gives the size back, at any
/// position of any byte stream that carries the encoding.
pub proof fn lemma_xiph_size_round_trip(data: Seq<u8>, pos: int, v: u64)
    requires
        0 <= pos,
        pos + xiph_encode(v).len() <= data.len(),
        data.subrange(pos, pos + xiph_encode(v).len()) == xiph_encode(v),
    ensures
        xiph_size_ok(data, pos),
        xiph_size_value(data, pos) == v,
        xiph_size_len(data, pos) == xiph_encode(v).len(),
    decreases v,
{
    let w = xiph_encode(v);
    if v < 255 {
        assert(data[pos] == w[0]);
    } else {
        let w2 = xiph_encode((v - 255) as u64);
        assert(w.len() == 1 + w2.len());
        assert(data[pos] == w[0]);
        assert(data[pos] == 255);
        assert(data.subrange(pos + 1, pos + 1 + w2.len()) =~= w2) by {
            assert forall|j: int| 0 <= j < w2.len() implies data.subrange(
                pos + 1,
                pos + 1 + w2.len(),
            )[j] == w2[j] by {
                assert(data.subrange(pos, pos + w.len())[j + 1] == w[j + 1]);
            }
        }
        lemma_xiph_size_round_trip(data, pos + 1, (v - 255) as u64);
    }
}

/// Decoding a row of Xiph encodings gives the sizes back: the Xiph lacing
/// table round trip.
pub proof fn lemma_xiph_table_round_trip(data: Seq<u8>, pos: int, vals: Seq<u64>)
    requires
        0 <= pos,
        pos + xiph_encode_all(vals).len() <= data.len(),
        data.subrange(pos, pos + xiph_encode_all(vals).len()) == xiph_encode_all(vals),
    ensures
        xiph_table_ok(data, pos, vals.len() as int),
        xiph_table_sizes(data, pos, vals.len() as int) == vals.map_values(|v: u64| v as nat),
        xiph_table_end(data, pos, vals.len() as int) == pos + xiph_encode_all(vals).len(),
    decreases vals.len(),
{
    if vals.len() == 0 {
        assert(xiph_table_sizes(data, pos, 0) =~= vals.map_values(|v: u64| v as nat));
    } else {
        let w0 = xiph_encode(vals[0]);
        let rest = vals.drop_first();
        let wr = xiph_encode_all(rest);
        let w = xiph_encode_all(vals);
        assert(w == w0 + wr);
        assert(data.subrange(pos, pos + w0.len()) =~= w0) by {
            assert forall|j: int| 0 <= j < w0.len() implies data.subrange(pos, pos + w0.len())[j]
                == w0[j] by {
                assert(data.subrange(pos, pos + w.len())[j] == w[j]);
            }
        }
        lemma_xiph_size_round_trip(data, pos, vals[0]);
        let pos2 = pos + w0.len();
        assert(data.subrange(pos2, pos2 + wr.len()) =~= wr) by {
            assert forall|j: int| 0 <= j < wr.len() implies data.subrange(pos2, pos2 + wr.len())[j]
                == wr[j] by {
                assert(data.subrange(pos, pos + w.len())[w0.len() + j] == w[w0.len() + j]);
            }
        }
        lemma_xiph_table_round_trip(data, pos2, rest);
        assert(xiph_table_sizes(data, pos, vals.len() as int) =~= vals.map_values(
            |v: u64| v as nat,
        ));
    }
}

/// Encodes one frame size as a Xiph lacing entry.
pub fn xiph_encode_size(s: u64) -> (r: Vec<u8>)
    ensures
        r@ == xiph_encode(s),
{
    let mut r: Vec<u8> = Vec::new();
    let mut left = s;
    while left >= 255
        invariant
            xiph_encode(s) == r@ + xiph_encode(left),
        decreases left,
    {
        r.push(255);
        left = left - 255;
        proof {
            assert(xiph_encode(s) =~= r@ + xiph_encode(left));
        }
    }
    r.push(left as u8);
    proof {
        assert(xiph_encode(s) =~= r@);
    }
    r
}

/// The frame sizes of an EBML-laced block from its first size and its
/// deltas, accumulated with saturation.
pub open spec fn ebml_sizes_of(first: u64, deltas: Seq<int>) -> Seq<u64>
    decreases deltas.len(),
{
    if deltas.len() == 0 {
        Seq::empty()
    } else {
        let nxt = ebml_next_size(first, deltas[0]);
        seq![nxt] + ebml_sizes_of(nxt, deltas.drop_first())
    }
}

/// The encodings of a row of lacing deltas, each at a chosen width, back to
/// back.
pub open spec fn ebml_encode_deltas(deltas: Seq<int>, widths: Seq<int>) -> Seq<u8>
    decreases deltas.len(),
{
    if deltas.len() == 0 {
        Seq::empty()
    } else {
        crate::vint::spec_encode_vint(
            (deltas[0] + crate::vint::lace_shift(widths[0])) as u64,
            widths[0],
        ) + ebml_encode_deltas(deltas.drop_first(), widths.drop_first())
    }
}

/// Whether each delta fits its chosen lacing width.
pub open spec fn ebml_deltas_fit(deltas: Seq<int>, widths: Seq<int>) -> bool
    decreases deltas.len(),
{
    &&& deltas.len() == widths.len()
    &&& (deltas.len() == 0 || {
        &&& 1 <= widths[0] <= 4
        &&& -crate::vint::lace_shift(widths[0]) <= deltas[0] <= crate::vint::lace_shift(widths[0])
            + 1
        &&& ebml_deltas_fit(deltas.drop_first(), widths.drop_first())
    })
}

/// Decoding a row of encoded lacing deltas gives back the accumulated frame
/// sizes: the EBML lacing table round trip.
pub proof fn lemma_ebml_table_round_trip(
    data: Seq<u8>,
    pos: int,
    first: u64,
    deltas: Seq<int>,
    widths: Seq<int>,
)
    requires
        0 <= pos,
        ebml_deltas_fit(deltas, widths),
        pos + ebml_encode_deltas(deltas, widths).len() <= data.len(),
        data.subrange(pos, pos + ebml_encode_deltas(deltas, widths).len()) == ebml_encode_deltas(
            deltas,
            widths,
        ),
    ensures
        ebml_deltas_ok(data, pos, deltas.len() as int),
        ebml_delta_sizes(data, pos, first, deltas.len() as int) == ebml_sizes_of(first, deltas),
        ebml_deltas_end(data, pos, deltas.len() as int) == pos + ebml_encode_deltas(
            deltas,
            widths,
        ).len(),
    decreases deltas.len(),
{
    if deltas.len() == 0 {
        assert(ebml_delta_sizes(data, pos, first, 0) =~= ebml_sizes_of(first, deltas));
    } else {
        let u0 = (deltas[0] + crate::vint::lace_shift(widths[0])) as u64;
        let w0 = crate::vint::spec_encode_vint(u0, widths[0]);
        let rest_d = deltas.drop_first();
        let rest_w = widths.drop_first();
        let wr = ebml_encode_deltas(rest_d, rest_w);
        let w = ebml_encode_deltas(deltas, widths);
        assert(w == w0 + wr);
        assert(w0.len() == widths[0]) by {
            crate::vint::lemma_pow256_values();
            crate::vint::lemma_be_bytes_len(
                (u0 + crate::vint::vint_marker(widths[0]) * crate::vint::pow256(
                    (widths[0] - 1) as nat,
                )) as nat,
                widths[0] as nat,
            );
        }
        assert(data.subrange(pos, pos + widths[0]) =~= w0) by {
            assert forall|j: int| 0 <= j < w0.len() implies data.subrange(pos, pos + w0.len())[j]
                == w0[j] by {
                assert(data.subrange(pos, pos + w.len())[j] == w[j]);
            }
        }
        crate::vint::lemma_lace_vint_round_trip(data, pos, deltas[0], widths[0]);
        let pos2 = pos + w0.len();
        assert(data.subrange(pos2, pos2 + wr.len()) =~= wr) by {
            assert forall|j: int| 0 <= j < wr.len() implies data.subrange(pos2, pos2 + wr.len())[j]
                == wr[j] by {
                assert(data.subrange(pos, pos + w.len())[w0.len() + j] == w[w0.len() + j]);
            }
        }
        let nxt = ebml_next_size(first, deltas[0]);
        lemma_ebml_table_round_trip(data, pos2, nxt, rest_d, rest_w);
        assert(ebml_delta_sizes(data, pos, first, deltas.len() as int) =~= ebml_sizes_of(
            first,
            deltas,
        ));
    }
}

/// A delta table never ends before it starts.
pub proof fn lemma_ebml_deltas_end_ge(data: Seq<u8>, pos: int, k: int)
    requires
        k >= 0,
        0 <= pos,
        ebml_deltas_ok(data, pos, k),
    ensures
        ebml_deltas_end(data, pos, k) >= pos,
    decreases k,
{
    if k > 0 {
        assert(lace_vint_ok(data, pos));
        crate::vint::lemma_scan_pos_ge(data, pos);
        lemma_ebml_deltas_end_ge(data, lace_vint_end(data, pos), k - 1);
    }
}

} // verus!
