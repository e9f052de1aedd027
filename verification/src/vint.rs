//! The variable-length integer (VINT) codec of EBML.
//!
//! A VINT starts with a marker byte whose highest set bit gives the width of
//! the whole integer; the remaining bits of the marker byte and the following
//! bytes hold the value, big-endian. Element identifiers keep the marker bits
//! as part of the value; data sizes and lacing offsets mask them out.

use vstd::arithmetic::div_mod::{
    lemma_div_denominator, lemma_div_multiples_vanish_fancy, lemma_div_pos_is_pos,
    lemma_fundamental_div_mod, lemma_multiply_divide_lt, lemma_small_mod,
};
use vstd::arithmetic::mul::lemma_mul_is_associative;
use vstd::prelude::*;

use crate::error::DemuxError;
use crate::source::ByteSource;

verus! {

/// 256 raised to the `n`-th power.
pub open spec fn pow256(n: nat) -> nat
    decreases n,
{
    if n == 0 {
        1
    } else {
        256 * pow256((n - 1) as nat)
    }
}

/// The values of `pow256` up to the widest integer the codec reads.
pub proof fn lemma_pow256_values()
    ensures
        pow256(0) == 1,
        pow256(1) == 0x100,
        pow256(2) == 0x10000,
        pow256(3) == 0x1000000,
        pow256(4) == 0x100000000,
        pow256(5) == 0x10000000000,
        pow256(6) == 0x1000000000000,
        pow256(7) == 0x100000000000000,
        pow256(8) == 0x10000000000000000,
{
    reveal_with_fuel(pow256, 9);
}

/// The big-endian value of a byte sequence.
pub open spec fn be_value(s: Seq<u8>) -> nat
    decreases s.len(),
{
    if s.len() == 0 {
        0
    } else {
        (be_value(s.drop_last()) * 256 + s.last()) as nat
    }
}

/// A big-endian value is bounded by 256 to the number of its bytes.
pub proof fn lemma_be_value_bound(s: Seq<u8>)
    ensures
        be_value(s) < pow256(s.len()),
    decreases s.len(),
{
    if s.len() > 0 {
        lemma_be_value_bound(s.drop_last());
        assert(pow256(s.len()) == 256 * pow256((s.len() - 1) as nat));
    }
}

/// Appending a byte multiplies the value by 256 and adds the byte.
pub proof fn lemma_be_value_snoc(s: Seq<u8>, b: u8)
    ensures
        be_value(s.push(b)) == be_value(s) * 256 + b,
{
    let t = s.push(b);
    assert(t.len() == s.len() + 1);
    assert(t.drop_last() =~= s);
    assert(t.last() == b);
    assert(be_value(t) == be_value(t.drop_last()) * 256 + t.last());
}

/// The first byte carries the highest weight of a big-endian value.
pub proof fn lemma_be_value_first(s: Seq<u8>)
    requires
        s.len() >= 1,
    ensures
        be_value(s) == s[0] * pow256((s.len() - 1) as nat) + be_value(
            s.subrange(1, s.len() as int),
        ),
    decreases s.len(),
{
    if s.len() == 1 {
        assert(be_value(Seq::<u8>::empty()) == 0);
        assert(pow256(0) == 1);
        assert(s.drop_last() =~= Seq::<u8>::empty());
        assert(s.subrange(1, 1) =~= Seq::<u8>::empty());
        assert(s.last() == s[0]);
        assert(be_value(s) == be_value(s.drop_last()) * 256 + s.last());
        assert(be_value(s) == s[0]);
        assert(be_value(s) == s[0] * pow256((s.len() - 1) as nat) + be_value(
            s.subrange(1, s.len() as int),
        ));
    } else {
        let t = s.drop_last();
        lemma_be_value_first(t);
        let n = s.len();
        assert(s.subrange(1, n as int).drop_last() =~= t.subrange(1, t.len() as int));
        assert(s.subrange(1, n as int).last() == s.last());
        assert(be_value(s.subrange(1, n as int)) == be_value(t.subrange(1, t.len() as int)) * 256
            + s.last());
        assert(s[0] * pow256((n - 2) as nat) * 256 == s[0] * (pow256((n - 2) as nat) * 256)) by {
            lemma_mul_is_associative(s[0] as int, pow256((n - 2) as nat) as int, 256);
        }
        assert(pow256((n - 1) as nat) == 256 * pow256((n - 2) as nat));
        assert(t[0] == s[0]);
        assert(be_value(s) == be_value(t) * 256 + s.last());
        assert(be_value(t) * 256 == t[0] * pow256((n - 2) as nat) * 256 + be_value(
            t.subrange(1, t.len() as int),
        ) * 256);
        assert(be_value(s) == s[0] * pow256((s.len() - 1) as nat) + be_value(
            s.subrange(1, s.len() as int),
        ));
    }
}

/// The big-endian bytes of a value, `n` bytes wide.
pub open spec fn be_bytes(v: nat, n: nat) -> Seq<u8>
    decreases n,
{
    if n == 0 {
        Seq::empty()
    } else {
        be_bytes(v / 256, (n - 1) as nat).push((v % 256) as u8)
    }
}

pub proof fn lemma_be_bytes_len(v: nat, n: nat)
    ensures
        be_bytes(v, n).len() == n,
    decreases n,
{
    if n > 0 {
        lemma_be_bytes_len(v / 256, (n - 1) as nat);
    }
}

/// Reading back the big-endian bytes of a value gives the value.
pub proof fn lemma_be_bytes_value(v: nat, n: nat)
    requires
        v < pow256(n),
    ensures
        be_value(be_bytes(v, n)) == v,
    decreases n,
{
    if n > 0 {
        assert(pow256(n) == 256 * pow256((n - 1) as nat));
        assert(v / 256 < pow256((n - 1) as nat)) by {
            lemma_fundamental_div_mod(v as int, 256);
        }
        lemma_be_bytes_value(v / 256, (n - 1) as nat);
        let t = be_bytes(v / 256, (n - 1) as nat);
        lemma_be_value_snoc(t, (v % 256) as u8);
        lemma_fundamental_div_mod(v as int, 256);
    }
}

/// The first of the big-endian bytes of a value is its highest-weight digit.
pub proof fn lemma_be_bytes_first(v: nat, n: nat)
    requires
        n >= 1,
        v < pow256(n),
    ensures
        be_bytes(v, n)[0] == v / pow256((n - 1) as nat),
    decreases n,
{
    lemma_be_bytes_len(v / 256, (n - 1) as nat);
    if n == 1 {
        assert(pow256(0) == 1);
        assert(pow256(1) == 256 * pow256(0));
        assert(v % 256 == v) by {
            lemma_small_mod(v, 256);
        }
        assert(v / pow256(0) == v);
    } else {
        assert(pow256(n) == 256 * pow256((n - 1) as nat));
        assert(v / 256 < pow256((n - 1) as nat)) by {
            lemma_fundamental_div_mod(v as int, 256);
        }
        lemma_be_bytes_first(v / 256, (n - 1) as nat);
        assert(be_bytes(v, n)[0] == be_bytes(v / 256, (n - 1) as nat)[0]);
        assert((v / 256) / pow256((n - 2) as nat) == v / (256 * pow256((n - 2) as nat))) by {
            lemma_div_denominator(v as int, 256, pow256((n - 2) as nat) as int);
        }
        assert(pow256((n - 1) as nat) == 256 * pow256((n - 2) as nat));
    }
}

/// The width a data-size VINT takes from its marker byte; 0 when the byte
/// holds no marker bit.
pub open spec fn size_vint_width(b: u8) -> int {
    if b >= 0x80 {
        1
    } else if b >= 0x40 {
        2
    } else if b >= 0x20 {
        3
    } else if b >= 0x10 {
        4
    } else if b >= 0x08 {
        5
    } else if b >= 0x04 {
        6
    } else if b >= 0x02 {
        7
    } else if b == 0x01 {
        8
    } else {
        0
    }
}

/// The marker bit of a VINT of the given width.
pub open spec fn vint_marker(w: int) -> u8 {
    if w == 1 {
        0x80
    } else if w == 2 {
        0x40
    } else if w == 3 {
        0x20
    } else if w == 4 {
        0x10
    } else if w == 5 {
        0x08
    } else if w == 6 {
        0x04
    } else if w == 7 {
        0x02
    } else {
        0x01
    }
}

/// All value bits of a VINT of the given width set: the unknown-size pattern.
pub open spec fn vint_ones(w: int) -> u64 {
    if w == 1 {
        0x7f
    } else if w == 2 {
        0x3fff
    } else if w == 3 {
        0x1fffff
    } else if w == 4 {
        0xfffffff
    } else if w == 5 {
        0x7ffffffff
    } else if w == 6 {
        0x3ffffffffff
    } else if w == 7 {
        0x1ffffffffffff
    } else {
        0xffffffffffffff
    }
}

/// The marker weight and the all-ones pattern agree:
/// `vint_marker(w) * pow256(w - 1) == vint_ones(w) + 1`.
pub proof fn lemma_vint_ones_marker(w: int)
    requires
        1 <= w <= 8,
    ensures
        vint_marker(w) * pow256((w - 1) as nat) == vint_ones(w) + 1,
{
    lemma_pow256_values();
    if w == 1 {
        assert(vint_marker(1) * pow256(0) == 0x80);
    } else if w == 2 {
        assert(vint_marker(2) * pow256(1) == 0x4000);
    } else if w == 3 {
        assert(vint_marker(3) * pow256(2) == 0x200000);
    } else if w == 4 {
        assert(vint_marker(4) * pow256(3) == 0x10000000);
    } else if w == 5 {
        assert(vint_marker(5) * pow256(4) == 0x800000000);
    } else if w == 6 {
        assert(vint_marker(6) * pow256(5) == 0x40000000000);
    } else if w == 7 {
        assert(vint_marker(7) * pow256(6) == 0x2000000000000);
    } else {
        assert(vint_marker(8) * pow256(7) == 0x100000000000000);
    }
}

/// Whether a data-size VINT can be read at `pos`.
pub open spec fn size_vint_ok(data: Seq<u8>, pos: int) -> bool {
    &&& 0 <= pos < data.len()
    &&& size_vint_width(data[pos]) != 0
    &&& pos + size_vint_width(data[pos]) <= data.len()
}

/// The unsigned value of the data-size VINT at `pos`, marker masked out,
/// before the unknown-size pattern is mapped to the sentinel.
pub open spec fn size_vint_raw(data: Seq<u8>, pos: int) -> nat {
    let w = size_vint_width(data[pos]);
    ((data[pos] - vint_marker(w)) * pow256((w - 1) as nat) + be_value(
        data.subrange(pos + 1, pos + w),
    )) as nat
}

/// The decoded data-size VINT at `pos`: the raw value, or `u64::MAX` as the
/// sentinel for the all-ones unknown-size pattern.
pub open spec fn size_vint_value(data: Seq<u8>, pos: int) -> u64 {
    let w = size_vint_width(data[pos]);
    if size_vint_raw(data, pos) == vint_ones(w) {
        u64::MAX
    } else {
        size_vint_raw(data, pos) as u64
    }
}

/// The position just past the data-size VINT at `pos`.
pub open spec fn size_vint_end(data: Seq<u8>, pos: int) -> int {
    pos + size_vint_width(data[pos])
}

/// The position of the first byte at or after `pos` whose upper nibble is not
/// zero. Element-identifier and lacing VINTs skip such bytes as padding.
pub open spec fn scan_pos(data: Seq<u8>, pos: int) -> int
    decreases data.len() - pos,
{
    if pos < 0 || pos >= data.len() {
        data.len() as int
    } else if data[pos] < 0x10 {
        scan_pos(data, pos + 1)
    } else {
        pos
    }
}

/// Skipping padding bytes never moves backwards.
pub proof fn lemma_scan_pos_ge(data: Seq<u8>, pos: int)
    requires
        0 <= pos <= data.len(),
    ensures
        pos <= scan_pos(data, pos) <= data.len(),
    decreases data.len() - pos,
{
    if pos < data.len() && data[pos] < 0x10 {
        lemma_scan_pos_ge(data, pos + 1);
    }
}

/// The width of an element-identifier or lacing VINT from its marker byte,
/// which must have a set bit in its upper nibble.
pub open spec fn id_vint_width(b: u8) -> int {
    if b >= 0x80 {
        1
    } else if b >= 0x40 {
        2
    } else if b >= 0x20 {
        3
    } else if b >= 0x10 {
        4
    } else {
        0
    }
}

/// Whether an element-identifier VINT can be read at `pos` after skipping
/// padding bytes.
pub open spec fn id_vint_ok(data: Seq<u8>, pos: int) -> bool {
    let q = scan_pos(data, pos);
    q < data.len() && q + id_vint_width(data[q]) <= data.len()
}

/// The decoded element identifier at `pos`: the marker bits stay part of the
/// value.
pub open spec fn id_vint_value(data: Seq<u8>, pos: int) -> u32 {
    let q = scan_pos(data, pos);
    be_value(data.subrange(q, q + id_vint_width(data[q]))) as u32
}

/// The position just past the element-identifier VINT at `pos`.
pub open spec fn id_vint_end(data: Seq<u8>, pos: int) -> int {
    let q = scan_pos(data, pos);
    q + id_vint_width(data[q])
}

/// The range shift a signed lacing VINT subtracts: `2^(7w - 1) - 1`.
pub open spec fn lace_shift(w: int) -> int {
    if w == 1 {
        63
    } else if w == 2 {
        8191
    } else if w == 3 {
        1048575
    } else {
        134217727
    }
}

/// Whether a signed lacing VINT can be read at `pos` after skipping padding.
pub open spec fn lace_vint_ok(data: Seq<u8>, pos: int) -> bool {
    let q = scan_pos(data, pos);
    q < data.len() && q + id_vint_width(data[q]) <= data.len()
}

/// The unsigned value of the lacing VINT at `pos`, marker masked out.
pub open spec fn lace_vint_raw(data: Seq<u8>, pos: int) -> nat {
    let q = scan_pos(data, pos);
    let w = id_vint_width(data[q]);
    ((data[q] - vint_marker(w)) * pow256((w - 1) as nat) + be_value(
        data.subrange(q + 1, q + w),
    )) as nat
}

/// The decoded signed lacing VINT at `pos`: the unsigned value minus the
/// range shift of its width.
pub open spec fn lace_vint_value(data: Seq<u8>, pos: int) -> int {
    let q = scan_pos(data, pos);
    lace_vint_raw(data, pos) - lace_shift(id_vint_width(data[q]))
}

/// The position just past the lacing VINT at `pos`.
pub open spec fn lace_vint_end(data: Seq<u8>, pos: int) -> int {
    let q = scan_pos(data, pos);
    q + id_vint_width(data[q])
}

/// Reads the `w - 1` bytes that follow a marker byte whose value bits are
/// `head`, and folds them big-endian onto `head`.
fn read_vint_tail(r: &mut ByteSource, head: u8, w: usize) -> (res: Result<u64, DemuxError>)
    requires
        1 <= w <= 8,
        0 <= old(r).cursor() <= old(r).bytes().len(),
    ensures
        final(r).bytes() == old(r).bytes(),
        match res {
            Ok(v) => {
                &&& old(r).cursor() + (w - 1) <= old(r).bytes().len()
                &&& v as nat == head * pow256((w - 1) as nat) + be_value(
                    old(r).bytes().subrange(old(r).cursor(), old(r).cursor() + (w - 1)),
                )
                &&& v < 256 * pow256((w - 1) as nat)
                &&& final(r).cursor() == old(r).cursor() + (w - 1)
            },
            Err(e) => e == DemuxError::IoError && old(r).cursor() + (w - 1) > old(
                r,
            ).bytes().len(),
        },
{
    let mut val: u64 = head as u64;
    let mut i: usize = 1;
    proof {
        assert(old(r).bytes().subrange(old(r).cursor(), old(r).cursor() + (i - 1))
            =~= Seq::<u8>::empty());
        assert(be_value(Seq::<u8>::empty()) == 0);
        assert(pow256((i - 1) as nat) == 1);
        assert(val as nat == head * pow256((i - 1) as nat) + be_value(
            old(r).bytes().subrange(old(r).cursor(), old(r).cursor() + (i - 1)),
        ));
    }
    while i < w
        invariant
            1 <= i <= w <= 8,
            r.bytes() == old(r).bytes(),
            old(r).cursor() + (i - 1) <= old(r).bytes().len(),
            r.cursor() == old(r).cursor() + (i - 1),
            val as nat == head * pow256((i - 1) as nat) + be_value(
                old(r).bytes().subrange(old(r).cursor(), old(r).cursor() + (i - 1)),
            ),
            val < 256 * pow256((i - 1) as nat),
        decreases w - i,
    {
        let b = match r.read_byte() {
            Ok(b) => b,
            Err(e) => {
                return Err(e);
            },
        };
        proof {
            lemma_pow256_values();
            assert(pow256(i as nat) == 256 * pow256((i - 1) as nat));
            assert(val * 256 + b < 256 * pow256(i as nat));
            assert(val * 256 <= (256 * pow256((i - 1) as nat) - 1) * 256);
            assert(pow256((i - 1) as nat) <= pow256(6)) by {
                assert(pow256(2) == 256 * pow256(1));
                assert(pow256(3) == 256 * pow256(2));
                assert(pow256(4) == 256 * pow256(3));
                assert(pow256(5) == 256 * pow256(4));
                assert(pow256(6) == 256 * pow256(5));
            }
        }
        let new_val = val * 256 + (b as u64);
        proof {
            let c = old(r).cursor();
            let s = old(r).bytes().subrange(c, c + (i - 1));
            let s2 = old(r).bytes().subrange(c, c + i);
            assert(s2 =~= s.push(old(r).bytes()[c + (i - 1)]));
            lemma_be_value_snoc(s, old(r).bytes()[c + (i - 1)]);
            assert(head * pow256((i - 1) as nat) * 256 == head * pow256(i as nat)) by {
                lemma_mul_is_associative(head as int, pow256((i - 1) as nat) as int, 256);
                assert(pow256(i as nat) == 256 * pow256((i - 1) as nat));
            }
        }
        val = new_val;
        i = i + 1;
    }
    Ok(val)
}

/// Parses a variable-length EBML data size. The all-ones pattern of any width
/// decodes to `u64::MAX`, the unknown-size sentinel.
pub fn parse_variable_u64(r: &mut ByteSource) -> (res: Result<u64, DemuxError>)
    ensures
        final(r).bytes() == old(r).bytes(),
        match res {
            Ok(v) => {
                &&& size_vint_ok(old(r).bytes(), old(r).cursor())
                &&& v == size_vint_value(old(r).bytes(), old(r).cursor())
                &&& final(r).cursor() == size_vint_end(old(r).bytes(), old(r).cursor())
            },
            Err(e) => {
                &&& !size_vint_ok(old(r).bytes(), old(r).cursor())
                &&& (e == DemuxError::IoError || e == DemuxError::InvalidEbmlDataSize)
                &&& (e == DemuxError::InvalidEbmlDataSize <==> (old(r).cursor() < old(
                    r,
                ).bytes().len() && size_vint_width(old(r).bytes()[old(r).cursor()]) == 0))
            },
        },
{
    let b0 = match r.read_byte() {
        Ok(b) => b,
        Err(e) => {
            return Err(e);
        },
    };
    let w: usize = if b0 >= 0x80 {
        1
    } else if b0 >= 0x40 {
        2
    } else if b0 >= 0x20 {
        3
    } else if b0 >= 0x10 {
        4
    } else if b0 >= 0x08 {
        5
    } else if b0 >= 0x04 {
        6
    } else if b0 >= 0x02 {
        7
    } else if b0 == 0x01 {
        8
    } else {
        return Err(DemuxError::InvalidEbmlDataSize);
    };
    let marker: u8 = marker_of(w);
    let head = b0 - marker;
    let raw = match read_vint_tail(r, head, w) {
        Ok(v) => v,
        Err(e) => {
            return Err(e);
        },
    };
    let ones = ones_of(w);
    if raw == ones {
        Ok(u64::MAX)
    } else {
        Ok(raw)
    }
}

/// Parses a variable-length element identifier, skipping padding bytes whose
/// upper nibble is zero. The marker bits stay part of the value.
pub fn parse_variable_u32(r: &mut ByteSource) -> (res: Result<u32, DemuxError>)
    ensures
        final(r).bytes() == old(r).bytes(),
        match res {
            Ok(v) => {
                &&& id_vint_ok(old(r).bytes(), old(r).cursor())
                &&& v == id_vint_value(old(r).bytes(), old(r).cursor())
                &&& final(r).cursor() == id_vint_end(old(r).bytes(), old(r).cursor())
            },
            Err(e) => !id_vint_ok(old(r).bytes(), old(r).cursor()) && e == DemuxError::IoError,
        },
{
    let b0 = match scan_marker_byte(r) {
        Ok(b) => b,
        Err(e) => {
            return Err(e);
        },
    };
    let ghost q = scan_pos(old(r).bytes(), old(r).cursor());
    let w: usize = if b0 >= 0x80 {
        1
    } else if b0 >= 0x40 {
        2
    } else if b0 >= 0x20 {
        3
    } else {
        4
    };
    let raw = match read_vint_tail(r, b0, w) {
        Ok(v) => v,
        Err(e) => {
            return Err(e);
        },
    };
    proof {
        let data = old(r).bytes();
        let s = data.subrange(q, q + w);
        lemma_be_value_first(s);
        assert(s.subrange(1, s.len() as int) =~= data.subrange(q + 1, q + w));
        lemma_pow256_values();
        lemma_be_value_bound(data.subrange(q + 1, q + w));
    }
    Ok(raw as u32)
}

/// Parses a signed variable-length integer as used by EBML lacing offsets:
/// the unsigned value minus the range shift of its width.
pub fn parse_variable_i64(r: &mut ByteSource) -> (res: Result<i64, DemuxError>)
    ensures
        final(r).bytes() == old(r).bytes(),
        match res {
            Ok(v) => {
                &&& lace_vint_ok(old(r).bytes(), old(r).cursor())
                &&& v == lace_vint_value(old(r).bytes(), old(r).cursor())
                &&& final(r).cursor() == lace_vint_end(old(r).bytes(), old(r).cursor())
            },
            Err(e) => !lace_vint_ok(old(r).bytes(), old(r).cursor()) && e == DemuxError::IoError,
        },
{
    let b0 = match scan_marker_byte(r) {
        Ok(b) => b,
        Err(e) => {
            return Err(e);
        },
    };
    let w: usize = if b0 >= 0x80 {
        1
    } else if b0 >= 0x40 {
        2
    } else if b0 >= 0x20 {
        3
    } else {
        4
    };
    let marker: u8 = marker_of(w);
    let head = b0 - marker;
    let raw = match read_vint_tail(r, head, w) {
        Ok(v) => v,
        Err(e) => {
            return Err(e);
        },
    };
    let shift: i64 = if w == 1 {
        63
    } else if w == 2 {
        8191
    } else if w == 3 {
        1048575
    } else {
        134217727
    };
    proof {
        lemma_pow256_values();
    }
    Ok((raw as i64) - shift)
}

/// Reads bytes until one with a set bit in its upper nibble is found, and
/// returns it. The cursor stops just past that byte.
fn scan_marker_byte(r: &mut ByteSource) -> (res: Result<u8, DemuxError>)
    ensures
        final(r).bytes() == old(r).bytes(),
        match res {
            Ok(b) => {
                &&& 0 <= old(r).cursor() <= scan_pos(old(r).bytes(), old(r).cursor())
                &&& scan_pos(old(r).bytes(), old(r).cursor()) < old(r).bytes().len()
                &&& b == old(r).bytes()[scan_pos(old(r).bytes(), old(r).cursor())]
                &&& b >= 0x10
                &&& final(r).cursor() == scan_pos(old(r).bytes(), old(r).cursor()) + 1
            },
            Err(e) => e == DemuxError::IoError && scan_pos(old(r).bytes(), old(r).cursor())
                == old(r).bytes().len(),
        },
{
    let ghost data = old(r).bytes();
    let _entry = r.position();
    loop
        invariant
            r.bytes() == data,
            old(r).cursor() <= r.cursor() <= data.len(),
            scan_pos(data, old(r).cursor()) == scan_pos(data, r.cursor()),
        decreases data.len() - r.cursor(),
    {
        let ghost cur = r.cursor();
        let b = match r.read_byte() {
            Ok(b) => b,
            Err(e) => {
                return Err(e);
            },
        };
        if b >= 0x10 {
            proof {
                assert(scan_pos(data, cur) == cur);
            }
            return Ok(b);
        }
        proof {
            assert(scan_pos(data, cur) == scan_pos(data, cur + 1));
        }
    }
}

/// The VINT encoding of a value at a given width: the value plus the marker
/// weight, written big-endian. Encoding `vint_ones(w)` gives the unknown-size
/// pattern of that width.
pub open spec fn spec_encode_vint(v: u64, w: int) -> Seq<u8> {
    be_bytes((v + vint_marker(w) * pow256((w - 1) as nat)) as nat, w as nat)
}

/// Writes the big-endian bytes of a value, `n` bytes wide.
fn be_bytes_exec(v: u64, n: usize) -> (r: Vec<u8>)
    requires
        n <= 8,
    ensures
        r@ == be_bytes(v as nat, n as nat),
        r@.len() == n,
    decreases n,
{
    proof {
        lemma_be_bytes_len(v as nat, n as nat);
    }
    if n == 0 {
        let r: Vec<u8> = Vec::new();
        proof {
            assert(r@ =~= be_bytes(v as nat, 0));
        }
        r
    } else {
        let mut r = be_bytes_exec(v / 256, n - 1);
        r.push((v % 256) as u8);
        proof {
            assert((v as nat) / 256 == (v / 256) as nat);
            assert((v as nat) % 256 == (v % 256) as nat);
        }
        r
    }
}

/// Encodes a value as a VINT of the given width. Encoding `vint_ones(w)`
/// writes the unknown-size pattern of that width.
pub fn encode_vint(v: u64, w: usize) -> (r: Vec<u8>)
    requires
        1 <= w <= 8,
        v <= vint_ones(w as int),
    ensures
        r@ == spec_encode_vint(v, w as int),
        r@.len() == w,
{
    proof {
        lemma_pow256_values();
        lemma_vint_ones_marker(w as int);
    }
    let marker_weight: u64 = if w == 1 {
        0x80
    } else if w == 2 {
        0x4000
    } else if w == 3 {
        0x200000
    } else if w == 4 {
        0x10000000
    } else if w == 5 {
        0x800000000
    } else if w == 6 {
        0x40000000000
    } else if w == 7 {
        0x2000000000000
    } else {
        0x100000000000000
    };
    be_bytes_exec(v + marker_weight, w)
}

/// Decoding a VINT encoding gives back the encoded value; the all-ones value
/// of each width decodes to the unknown-size sentinel. This holds at any
/// position of any byte stream that carries the encoding.
pub proof fn lemma_size_vint_round_trip(data: Seq<u8>, pos: int, v: u64, w: int)
    requires
        1 <= w <= 8,
        v <= vint_ones(w),
        0 <= pos,
        pos + w <= data.len(),
        data.subrange(pos, pos + w) == spec_encode_vint(v, w),
    ensures
        size_vint_ok(data, pos),
        size_vint_end(data, pos) == pos + w,
        size_vint_width(data[pos]) == w,
        size_vint_raw(data, pos) == v,
        v < vint_ones(w) ==> size_vint_value(data, pos) == v,
        v == vint_ones(w) ==> size_vint_value(data, pos) == u64::MAX,
{
    let marker = vint_marker(w) as int;
    let p = pow256((w - 1) as nat) as int;
    let full = v + marker * p;
    let window = data.subrange(pos, pos + w);
    lemma_pow256_values();
    lemma_vint_ones_marker(w);
    assert(p >= 1);
    assert(full < pow256(w as nat)) by {
        assert(pow256(w as nat) == 256 * pow256((w - 1) as nat));
    }
    lemma_be_bytes_len(full as nat, w as nat);
    lemma_be_bytes_value(full as nat, w as nat);
    lemma_be_bytes_first(full as nat, w as nat);
    // The first byte is the marker plus the top digit of the value.
    let q = v as int / p;
    assert(full / p == marker + q) by {
        lemma_fundamental_div_mod(v as int, p);
        lemma_div_multiples_vanish_fancy(marker + q, v as int % p, p);
        assert(p * (marker + q) + v as int % p == full) by (nonlinear_arith)
            requires
                v == p * q + v as int % p,
                full == v + marker * p,
        ;
    }
    assert(0 <= q && q <= marker - 1) by {
        assert(v < marker * p);
        assert(v < p * marker) by (nonlinear_arith)
            requires
                v < marker * p,
        ;
        lemma_multiply_divide_lt(v as int, p, marker);
        lemma_div_pos_is_pos(v as int, p);
    }
    let first = window[0];
    assert(first == full / p);
    assert(marker <= first < 2 * marker);
    assert(data[pos] == first);
    assert(size_vint_width(first) == w);
    // The raw value folds back to the encoded value.
    lemma_be_value_first(window);
    assert(window.subrange(1, w) =~= data.subrange(pos + 1, pos + w));
    assert(be_value(window) == full);
    assert((first - marker) * p == first * p - marker * p) by (nonlinear_arith);
    assert(size_vint_raw(data, pos) == v);
}

/// Decoding a signed lacing VINT encoding gives back the encoded value, for
/// every width and every value in that width's range.
pub proof fn lemma_lace_vint_round_trip(data: Seq<u8>, pos: int, v: int, w: int)
    requires
        1 <= w <= 4,
        -lace_shift(w) <= v <= lace_shift(w) + 1,
        0 <= pos,
        pos + w <= data.len(),
        data.subrange(pos, pos + w) == spec_encode_vint((v + lace_shift(w)) as u64, w),
    ensures
        lace_vint_ok(data, pos),
        lace_vint_end(data, pos) == pos + w,
        lace_vint_value(data, pos) == v,
{
    let u = (v + lace_shift(w)) as u64;
    lemma_size_vint_round_trip(data, pos, u, w);
    assert(data[pos] >= 0x10);
    assert(scan_pos(data, pos) == pos);
    assert(id_vint_width(data[pos]) == size_vint_width(data[pos]));
    assert(lace_vint_raw(data, pos) == size_vint_raw(data, pos));
}

/// The marker byte of a VINT of the given width.
fn marker_of(w: usize) -> (m: u8)
    requires
        1 <= w <= 8,
    ensures
        m == vint_marker(w as int),
{
    if w == 1 {
        0x80
    } else if w == 2 {
        0x40
    } else if w == 3 {
        0x20
    } else if w == 4 {
        0x10
    } else if w == 5 {
        0x08
    } else if w == 6 {
        0x04
    } else if w == 7 {
        0x02
    } else {
        0x01
    }
}

/// The all-ones value pattern of a VINT of the given width.
fn ones_of(w: usize) -> (o: u64)
    requires
        1 <= w <= 8,
    ensures
        o == vint_ones(w as int),
{
    if w == 1 {
        0x7f
    } else if w == 2 {
        0x3fff
    } else if w == 3 {
        0x1fffff
    } else if w == 4 {
        0xfffffff
    } else if w == 5 {
        0x7ffffffff
    } else if w == 6 {
        0x3ffffffffff
    } else if w == 7 {
        0x1ffffffffffff
    } else {
        0xffffffffffffff
    }
}

} // verus!
