//! Reading EBML-coded elements: typed payloads, element headers, and the
//! children of master elements.

use vstd::prelude::*;
use vstd::utf8::{decode_utf8, valid_utf8};

use crate::element_id::{spec_element_type, spec_id_to_element_id, ElementId, ElementType};
use crate::element_id::{element_type_of, id_to_element_id};
use crate::enums::FromUnsigned;
use crate::error::DemuxError;
use crate::floatbits::{f32_bits_widened, widen_f32_bits};
use crate::source::{clamped_pos, ByteSource};
use crate::vint::{
    be_value, id_vint_end, id_vint_ok, id_vint_value, lemma_pow256_values, parse_variable_u32,
    parse_variable_u64, pow256, size_vint_end, size_vint_ok, size_vint_value,
};

verus! {

/// The data an element can contain.
///
/// A float payload is held as the bit pattern of an IEEE-754 binary64 value;
/// a 4-byte payload is widened to it bit-exactly.
#[derive(Debug)]
pub enum ElementData {
    /// The offset and size of the payload of a master or binary element.
    Location { offset: u64, size: u64 },
    /// Unsigned integer.
    Unsigned(u64),
    /// Signed integer.
    Signed(i64),
    /// The bit pattern of an IEEE-754 binary64 float.
    Float(u64),
    /// Date: nanoseconds since 2001-01-01 00:00:00 UTC.
    Date(i64),
    /// String.
    String(String),
}

/// Equality of element data; strings compare by their characters.
pub open spec fn data_eq(a: ElementData, b: ElementData) -> bool {
    match a {
        ElementData::Location { offset: o1, size: s1 } => match b {
            ElementData::Location { offset: o2, size: s2 } => o1 == o2 && s1 == s2,
            _ => false,
        },
        ElementData::Unsigned(x) => match b {
            ElementData::Unsigned(y) => x == y,
            _ => false,
        },
        ElementData::Signed(x) => match b {
            ElementData::Signed(y) => x == y,
            _ => false,
        },
        ElementData::Float(x) => match b {
            ElementData::Float(y) => x == y,
            _ => false,
        },
        ElementData::Date(x) => match b {
            ElementData::Date(y) => x == y,
            _ => false,
        },
        ElementData::String(x) => match b {
            ElementData::String(y) => x@ == y@,
            _ => false,
        },
    }
}

impl PartialEq for ElementData {
    fn eq(&self, other: &Self) -> (r: bool) {
        match self {
            ElementData::Location { offset: o1, size: s1 } => match other {
                ElementData::Location { offset: o2, size: s2 } => o1 == o2 && s1 == s2,
                _ => false,
            },
            ElementData::Unsigned(x) => match other {
                ElementData::Unsigned(y) => x == y,
                _ => false,
            },
            ElementData::Signed(x) => match other {
                ElementData::Signed(y) => x == y,
                _ => false,
            },
            ElementData::Float(x) => match other {
                ElementData::Float(y) => x == y,
                _ => false,
            },
            ElementData::Date(x) => match other {
                ElementData::Date(y) => x == y,
                _ => false,
            },
            ElementData::String(x) => match other {
                ElementData::String(y) => *x == *y,
                _ => false,
            },
        }
    }
}

impl vstd::std_specs::cmp::PartialEqSpecImpl for ElementData {
    open spec fn obeys_eq_spec() -> bool {
        true
    }

    open spec fn eq_spec(&self, other: &Self) -> bool {
        data_eq(*self, *other)
    }
}

/// The value of an unsigned-integer payload: its bytes read big-endian.
pub open spec fn uint_payload(data: Seq<u8>, pos: int, size: u64) -> nat {
    be_value(data.subrange(pos, pos + size))
}

/// A big-endian value sign-extended from `size` bytes.
pub open spec fn sint_of(u: nat, size: u64) -> int {
    if size == 0 {
        0
    } else if u >= 128 * pow256((size - 1) as nat) {
        u - pow256(size as nat)
    } else {
        u as int
    }
}

/// The value of a signed-integer or date payload: its bytes read big-endian,
/// sign-extended.
pub open spec fn sint_payload(data: Seq<u8>, pos: int, size: u64) -> int {
    sint_of(uint_payload(data, pos, size), size)
}

/// The value of a float payload, as binary64 bits: a 4-byte payload is
/// widened, an 8-byte payload is taken as is, an empty payload is zero.
pub open spec fn float_payload(data: Seq<u8>, pos: int, size: u64) -> u64 {
    if size == 0 {
        0
    } else if size == 4 {
        f32_bits_widened(uint_payload(data, pos, 4) as u32)
    } else {
        uint_payload(data, pos, 8) as u64
    }
}

/// The characters of a string payload: its bytes decoded as UTF-8.
pub open spec fn string_payload(data: Seq<u8>, pos: int, size: u64) -> Seq<char> {
    decode_utf8(data.subrange(pos, pos + size))
}

/// Reads `n` bytes and folds them into a big-endian value.
fn read_be(r: &mut ByteSource, n: usize) -> (res: Result<u64, DemuxError>)
    requires
        n <= 8,
    ensures
        final(r).bytes() == old(r).bytes(),
        match res {
            Ok(v) => {
                &&& 0 <= old(r).cursor()
                &&& old(r).cursor() + n <= old(r).bytes().len()
                &&& v as nat == be_value(
                    old(r).bytes().subrange(old(r).cursor(), old(r).cursor() + n),
                )
                &&& v < pow256(n as nat)
                &&& final(r).cursor() == old(r).cursor() + n
            },
            Err(e) => e == DemuxError::IoError && old(r).cursor() + n > old(r).bytes().len()
                && final(r).cursor() == old(r).bytes().len(),
        },
{
    let _entry = r.position();
    let mut val: u64 = 0;
    let mut i: usize = 0;
    proof {
        assert(old(r).bytes().subrange(old(r).cursor(), old(r).cursor()) =~= Seq::<u8>::empty());
        assert(be_value(Seq::<u8>::empty()) == 0);
        assert(pow256(0) == 1);
    }
    while i < n
        invariant
            i <= n <= 8,
            r.bytes() == old(r).bytes(),
            0 <= old(r).cursor(),
            old(r).cursor() + i <= old(r).bytes().len(),
            r.cursor() == old(r).cursor() + i,
            val as nat == be_value(old(r).bytes().subrange(old(r).cursor(), old(r).cursor() + i)),
            val < pow256(i as nat),
        decreases n - i,
    {
        let b = match r.read_byte() {
            Ok(b) => b,
            Err(e) => {
                return Err(e);
            },
        };
        proof {
            lemma_pow256_values();
            assert(pow256((i + 1) as nat) == 256 * pow256(i as nat));
            assert(pow256(i as nat) <= pow256(7)) by {
                assert(pow256(2) == 256 * pow256(1));
                assert(pow256(3) == 256 * pow256(2));
                assert(pow256(4) == 256 * pow256(3));
                assert(pow256(5) == 256 * pow256(4));
                assert(pow256(6) == 256 * pow256(5));
                assert(pow256(7) == 256 * pow256(6));
            }
            let c = old(r).cursor();
            let s = old(r).bytes().subrange(c, c + i);
            assert(old(r).bytes().subrange(c, c + i + 1) =~= s.push(old(r).bytes()[c + i]));
            crate::vint::lemma_be_value_snoc(s, old(r).bytes()[c + i]);
        }
        val = val * 256 + (b as u64);
        i = i + 1;
    }
    Ok(val)
}

/// Parses an unsigned-integer payload of the given size: big-endian,
/// zero-extended; an empty payload is zero; more than 8 bytes is an error.
pub fn parse_unsigned(r: &mut ByteSource, size: u64) -> (res: Result<u64, DemuxError>)
    ensures
        final(r).bytes() == old(r).bytes(),
        match res {
            Ok(v) => {
                &&& size <= 8
                &&& old(r).cursor() + size <= old(r).bytes().len()
                &&& v as nat == uint_payload(old(r).bytes(), old(r).cursor(), size)
                &&& final(r).cursor() == old(r).cursor() + size
            },
            Err(e) => if size > 8 {
                e == DemuxError::WrongIntegerSize(size) && final(r).cursor() == old(r).cursor()
            } else {
                e == DemuxError::IoError && old(r).cursor() + size > old(r).bytes().len()
                    && final(r).cursor() == old(r).bytes().len()
            },
        },
{
    let _entry = r.position();
    if size == 0 {
        proof {
            assert(old(r).bytes().subrange(old(r).cursor(), old(r).cursor())
                =~= Seq::<u8>::empty());
        }
        return Ok(0);
    }
    if size > 8 {
        return Err(DemuxError::WrongIntegerSize(size));
    }
    read_be(r, size as usize)
}

/// `pow256(size) - 1` for `1 <= size <= 8`.
fn mod_mask_of(size: u64) -> (m: u64)
    requires
        1 <= size <= 8,
    ensures
        m as nat == pow256(size as nat) - 1,
{
    proof {
        lemma_pow256_values();
    }
    if size == 1 {
        0xff
    } else if size == 2 {
        0xffff
    } else if size == 3 {
        0xffffff
    } else if size == 4 {
        0xffffffff
    } else if size == 5 {
        0xffffffffff
    } else if size == 6 {
        0xffffffffffff
    } else if size == 7 {
        0xffffffffffffff
    } else {
        0xffffffffffffffff
    }
}

/// Sign-extends a big-endian value of `size` bytes.
fn signed_from_be(u: u64, size: u64) -> (v: i64)
    requires
        1 <= size <= 8,
        (u as nat) < pow256(size as nat),
    ensures
        v == sint_of(u as nat, size),
{
    proof {
        lemma_pow256_values();
    }
    let half: u64 = if size == 1 {
        0x80
    } else if size == 2 {
        0x8000
    } else if size == 3 {
        0x800000
    } else if size == 4 {
        0x80000000
    } else if size == 5 {
        0x8000000000
    } else if size == 6 {
        0x800000000000
    } else if size == 7 {
        0x80000000000000
    } else {
        0x8000000000000000
    };
    proof {
        assert(half as nat == 128 * pow256((size - 1) as nat));
    }
    if u >= half {
        let mask = mod_mask_of(size);
        -((mask - u) as i64) - 1
    } else {
        u as i64
    }
}

/// Parses a signed-integer payload of the given size: big-endian,
/// sign-extended; an empty payload is zero; more than 8 bytes is an error.
pub fn parse_signed(r: &mut ByteSource, size: u64) -> (res: Result<i64, DemuxError>)
    ensures
        final(r).bytes() == old(r).bytes(),
        match res {
            Ok(v) => {
                &&& size <= 8
                &&& old(r).cursor() + size <= old(r).bytes().len()
                &&& v == sint_payload(old(r).bytes(), old(r).cursor(), size)
                &&& final(r).cursor() == old(r).cursor() + size
            },
            Err(e) => if size > 8 {
                e == DemuxError::WrongIntegerSize(size) && final(r).cursor() == old(r).cursor()
            } else {
                e == DemuxError::IoError && old(r).cursor() + size > old(r).bytes().len()
                    && final(r).cursor() == old(r).bytes().len()
            },
        },
{
    let _entry = r.position();
    if size == 0 {
        proof {
            assert(old(r).bytes().subrange(old(r).cursor(), old(r).cursor())
                =~= Seq::<u8>::empty());
        }
        return Ok(0);
    }
    if size > 8 {
        return Err(DemuxError::WrongIntegerSize(size));
    }
    let u = match read_be(r, size as usize) {
        Ok(u) => u,
        Err(e) => {
            return Err(e);
        },
    };
    Ok(signed_from_be(u, size))
}

/// Parses a date payload: like a signed integer, with its own error for a
/// size above 8 bytes.
pub fn parse_date(r: &mut ByteSource, size: u64) -> (res: Result<i64, DemuxError>)
    ensures
        final(r).bytes() == old(r).bytes(),
        match res {
            Ok(v) => {
                &&& size <= 8
                &&& old(r).cursor() + size <= old(r).bytes().len()
                &&& v == sint_payload(old(r).bytes(), old(r).cursor(), size)
                &&& final(r).cursor() == old(r).cursor() + size
            },
            Err(e) => if size > 8 {
                e == DemuxError::WrongDateSize(size) && final(r).cursor() == old(r).cursor()
            } else {
                e == DemuxError::IoError && old(r).cursor() + size > old(r).bytes().len()
                    && final(r).cursor() == old(r).bytes().len()
            },
        },
{
    let _entry = r.position();
    if size == 0 {
        proof {
            assert(old(r).bytes().subrange(old(r).cursor(), old(r).cursor())
                =~= Seq::<u8>::empty());
        }
        return Ok(0);
    }
    if size > 8 {
        return Err(DemuxError::WrongDateSize(size));
    }
    let u = match read_be(r, size as usize) {
        Ok(u) => u,
        Err(e) => {
            return Err(e);
        },
    };
    Ok(signed_from_be(u, size))
}

/// Parses a float payload into binary64 bits: an empty payload is zero, a
/// 4-byte payload is widened bit-exactly, an 8-byte payload is taken as is,
/// and any other size is an error.
pub fn parse_float(r: &mut ByteSource, size: u64) -> (res: Result<u64, DemuxError>)
    ensures
        final(r).bytes() == old(r).bytes(),
        match res {
            Ok(v) => {
                &&& (size == 0 || size == 4 || size == 8)
                &&& old(r).cursor() + size <= old(r).bytes().len()
                &&& v == float_payload(old(r).bytes(), old(r).cursor(), size)
                &&& final(r).cursor() == old(r).cursor() + size
            },
            Err(e) => if size == 0 || size == 4 || size == 8 {
                e == DemuxError::IoError && old(r).cursor() + size > old(r).bytes().len()
                    && final(r).cursor() == old(r).bytes().len()
            } else {
                e == DemuxError::WrongFloatSize(size) && final(r).cursor() == old(r).cursor()
            },
        },
{
    let _entry = r.position();
    if size == 0 {
        return Ok(0);
    }
    if size == 4 {
        let u = match read_be(r, 4) {
            Ok(u) => u,
            Err(e) => {
                return Err(e);
            },
        };
        proof {
            lemma_pow256_values();
        }
        return Ok(widen_f32_bits(u as u32));
    }
    if size == 8 {
        let u = match read_be(r, 8) {
            Ok(u) => u,
            Err(e) => {
                return Err(e);
            },
        };
        return Ok(u);
    }
    Err(DemuxError::WrongFloatSize(size))
}

/// Relies on String::from_utf8: returns the string that decodes the given
/// bytes exactly when they are valid UTF-8, and fails otherwise.
#[verifier::external_body]
fn string_from_utf8(bytes: Vec<u8>) -> (res: Result<String, DemuxError>)
    ensures
        match res {
            Ok(s) => valid_utf8(bytes@) && s@ == decode_utf8(bytes@),
            Err(e) => !valid_utf8(bytes@) && e == DemuxError::FromUtf8Error,
        },
{
    match String::from_utf8(bytes) {
        Ok(s) => Ok(s),
        Err(_) => Err(DemuxError::FromUtf8Error),
    }
}

/// Parses a string payload: raw UTF-8 bytes; an empty payload is the empty
/// string.
pub fn parse_string(r: &mut ByteSource, size: u64) -> (res: Result<String, DemuxError>)
    ensures
        final(r).bytes() == old(r).bytes(),
        match res {
            Ok(s) => {
                &&& size <= usize::MAX
                &&& old(r).cursor() + size <= old(r).bytes().len()
                &&& valid_utf8(old(r).bytes().subrange(old(r).cursor(), old(r).cursor() + size))
                &&& s@ == string_payload(old(r).bytes(), old(r).cursor(), size)
                &&& final(r).cursor() == old(r).cursor() + size
            },
            Err(e) => match e {
                DemuxError::TryFromIntError => size > usize::MAX && final(r).cursor() == old(
                    r,
                ).cursor(),
                DemuxError::IoError => size <= usize::MAX && old(r).cursor() + size > old(
                    r,
                ).bytes().len() && final(r).cursor() == old(r).cursor(),
                DemuxError::FromUtf8Error => old(r).cursor() + size <= old(r).bytes().len()
                    && !valid_utf8(
                    old(r).bytes().subrange(old(r).cursor(), old(r).cursor() + size),
                ) && final(r).cursor() == old(r).cursor() + size,
                _ => false,
            },
        },
{
    let _entry = r.position();
    if size == 0 {
        proof {
            let e = old(r).bytes().subrange(old(r).cursor(), old(r).cursor());
            assert(e =~= Seq::<u8>::empty());
            assert(valid_utf8(e));
            assert(decode_utf8(e) =~= Seq::<char>::empty());
        }
        let s = String::new();
        return Ok(s);
    }
    if size > usize::MAX as u64 {
        return Err(DemuxError::TryFromIntError);
    }
    let bytes = match r.read_exact(size as usize) {
        Ok(b) => b,
        Err(e) => {
            return Err(e);
        },
    };
    string_from_utf8(bytes)
}

/// Where element reading starts: the current cursor, or a given absolute
/// position.
pub open spec fn start_of(data: Seq<u8>, cursor: int, from: Option<u64>) -> int {
    match from {
        Option::None => cursor,
        Option::Some(x) => clamped_pos(x as int, data.len() as int),
    }
}

/// Whether an element header (identifier and data size) can be read at `pos`.
pub open spec fn header_ok(data: Seq<u8>, pos: int) -> bool {
    id_vint_ok(data, pos) && size_vint_ok(data, id_vint_end(data, pos))
}

/// The element of the header at `pos`.
pub open spec fn header_id(data: Seq<u8>, pos: int) -> ElementId {
    spec_id_to_element_id(id_vint_value(data, pos))
}

/// The data size of the header at `pos`; `u64::MAX` stands for unknown size.
pub open spec fn header_size(data: Seq<u8>, pos: int) -> u64 {
    size_vint_value(data, id_vint_end(data, pos))
}

/// The position of the first payload byte of the element at `pos`.
pub open spec fn header_end(data: Seq<u8>, pos: int) -> int {
    size_vint_end(data, id_vint_end(data, pos))
}

/// Whether the whole element at `pos` can be read: its header, and a payload
/// that suits the element's type.
pub open spec fn element_well_formed(data: Seq<u8>, pos: int) -> bool {
    &&& header_ok(data, pos)
    &&& {
        let id = header_id(data, pos);
        let sz = header_size(data, pos);
        let p = header_end(data, pos);
        match spec_element_type(id) {
            ElementType::Master => true,
            ElementType::Binary => true,
            ElementType::Unknown => true,
            ElementType::Unsigned => sz <= 8 && p + sz <= data.len(),
            ElementType::Signed => sz <= 8 && p + sz <= data.len(),
            ElementType::Date => sz <= 8 && p + sz <= data.len(),
            ElementType::Float => (sz == 0 || sz == 4 || sz == 8) && p + sz <= data.len(),
            ElementType::String => sz <= usize::MAX && p + sz <= data.len() && valid_utf8(
                data.subrange(p, p + sz),
            ),
        }
    }
}

/// What the data of the element at `pos` holds, by the element's type.
pub open spec fn data_matches(data: Seq<u8>, pos: int, d: ElementData) -> bool {
    let id = header_id(data, pos);
    let sz = header_size(data, pos);
    let p = header_end(data, pos);
    match spec_element_type(id) {
        ElementType::Master => d == (ElementData::Location { offset: p as u64, size: sz }),
        ElementType::Binary => d == (ElementData::Location { offset: p as u64, size: sz }),
        ElementType::Unknown => d == (ElementData::Location { offset: p as u64, size: sz }),
        ElementType::Unsigned => d matches ElementData::Unsigned(v) && v as nat == uint_payload(
            data,
            p,
            sz,
        ),
        ElementType::Signed => d matches ElementData::Signed(v) && v == sint_payload(
            data,
            p,
            sz,
        ),
        ElementType::Date => d matches ElementData::Date(v) && v == sint_payload(data, p, sz),
        ElementType::Float => d matches ElementData::Float(v) && v == float_payload(
            data,
            p,
            sz,
        ),
        ElementType::String => d matches ElementData::String(s) && s@ == string_payload(
            data,
            p,
            sz,
        ),
    }
}

/// Whether reading the element at `pos` fails by running past the end of the
/// data, rather than by an invalid width, size or payload. This is the
/// failure that marks the end of a stream.
pub open spec fn element_eof(data: Seq<u8>, pos: int) -> bool {
    if !id_vint_ok(data, pos) {
        true
    } else {
        let q = id_vint_end(data, pos);
        if !size_vint_ok(data, q) {
            !(q < data.len() && crate::vint::size_vint_width(data[q]) == 0)
        } else {
            let id = spec_id_to_element_id(id_vint_value(data, pos));
            let sz = size_vint_value(data, q);
            let p = size_vint_end(data, q);
            match spec_element_type(id) {
                ElementType::Master => false,
                ElementType::Binary => false,
                ElementType::Unknown => false,
                ElementType::Unsigned => sz <= 8 && p + sz > data.len(),
                ElementType::Signed => sz <= 8 && p + sz > data.len(),
                ElementType::Date => sz <= 8 && p + sz > data.len(),
                ElementType::Float => (sz == 0 || sz == 4 || sz == 8) && p + sz > data.len(),
                ElementType::String => sz <= usize::MAX && p + sz > data.len(),
            }
        }
    }
}

/// The cursor position after the element at `pos` is read: past the payload,
/// except that the cursor stays at the payload of a master or binary element
/// of unknown size.
pub open spec fn elem_end(data: Seq<u8>, pos: int) -> int {
    let id = header_id(data, pos);
    let sz = header_size(data, pos);
    let p = header_end(data, pos);
    match spec_element_type(id) {
        ElementType::Master | ElementType::Binary | ElementType::Unknown => if sz == u64::MAX {
            p
        } else {
            clamped_pos(p + sz, data.len() as int)
        },
        _ => p + sz,
    }
}

/// Parses the next element header from the current position, or from the
/// given absolute position. Returns the element and the size of its data,
/// leaving the cursor at the first payload byte.
pub fn parse_element_header(r: &mut ByteSource, from: Option<u64>) -> (res: Result<
    (ElementId, u64),
    DemuxError,
>)
    ensures
        final(r).bytes() == old(r).bytes(),
        ({
            let start = start_of(old(r).bytes(), old(r).cursor(), from);
            match res {
                Ok((id, sz)) => {
                    &&& header_ok(old(r).bytes(), start)
                    &&& id == header_id(old(r).bytes(), start)
                    &&& sz == header_size(old(r).bytes(), start)
                    &&& final(r).cursor() == header_end(old(r).bytes(), start)
                },
                Err(e) => {
                    &&& !header_ok(old(r).bytes(), start)
                    &&& (e == DemuxError::IoError || e == DemuxError::InvalidEbmlDataSize)
                    &&& (e == DemuxError::InvalidEbmlDataSize <==> (id_vint_ok(
                        old(r).bytes(),
                        start,
                    ) && id_vint_end(old(r).bytes(), start) < old(r).bytes().len()
                        && crate::vint::size_vint_width(
                        old(r).bytes()[id_vint_end(old(r).bytes(), start)],
                    ) == 0))
                },
            }
        }),
{
    if let Some(x) = from {
        r.seek_to(x);
    }
    let idv = match parse_variable_u32(r) {
        Ok(v) => v,
        Err(e) => {
            return Err(e);
        },
    };
    let id = id_to_element_id(idv);
    let sz = match parse_variable_u64(r) {
        Ok(v) => v,
        Err(e) => {
            return Err(e);
        },
    };
    Ok((id, sz))
}

/// Records where the payload of a master or binary element lies, and skips
/// the cursor past it when the size is known.
fn parse_location(r: &mut ByteSource, size: u64) -> (res: (u64, u64))
    ensures
        final(r).bytes() == old(r).bytes(),
        0 <= old(r).cursor() <= old(r).bytes().len(),
        res.0 as int == old(r).cursor(),
        res.1 == size,
        final(r).cursor() == (if size == u64::MAX {
            old(r).cursor()
        } else {
            clamped_pos(old(r).cursor() + size, old(r).bytes().len() as int)
        }),
{
    let offset = r.position();
    if size != u64::MAX {
        r.seek_to(offset.saturating_add(size));
    }
    (offset, size)
}

/// Parses the element at the current position and its data. Master and
/// binary payloads are recorded as a location and skipped; all other
/// payloads are read by their type.
pub fn next_element(r: &mut ByteSource) -> (res: Result<(ElementId, ElementData), DemuxError>)
    ensures
        final(r).bytes() == old(r).bytes(),
        match res {
            Ok((id, d)) => {
                &&& element_well_formed(old(r).bytes(), old(r).cursor())
                &&& id == header_id(old(r).bytes(), old(r).cursor())
                &&& data_matches(old(r).bytes(), old(r).cursor(), d)
                &&& final(r).cursor() == elem_end(old(r).bytes(), old(r).cursor())
            },
            Err(e) => !element_well_formed(old(r).bytes(), old(r).cursor()) && (e
                == DemuxError::IoError <==> element_eof(old(r).bytes(), old(r).cursor())),
        },
{
    let (id, sz) = match parse_element_header(r, None) {
        Ok(h) => h,
        Err(e) => {
            return Err(e);
        },
    };
    let ty = element_type_of(id);
    match ty {
        ElementType::Master | ElementType::Binary | ElementType::Unknown => {
            let (offset, size) = parse_location(r, sz);
            Ok((id, ElementData::Location { offset, size }))
        },
        ElementType::Unsigned => {
            let v = match parse_unsigned(r, sz) {
                Ok(v) => v,
                Err(e) => {
                    return Err(e);
                },
            };
            Ok((id, ElementData::Unsigned(v)))
        },
        ElementType::Signed => {
            let v = match parse_signed(r, sz) {
                Ok(v) => v,
                Err(e) => {
                    return Err(e);
                },
            };
            Ok((id, ElementData::Signed(v)))
        },
        ElementType::Date => {
            let v = match parse_date(r, sz) {
                Ok(v) => v,
                Err(e) => {
                    return Err(e);
                },
            };
            Ok((id, ElementData::Date(v)))
        },
        ElementType::Float => {
            let v = match parse_float(r, sz) {
                Ok(v) => v,
                Err(e) => {
                    return Err(e);
                },
            };
            Ok((id, ElementData::Float(v)))
        },
        ElementType::String => {
            let v = match parse_string(r, sz) {
                Ok(v) => v,
                Err(e) => {
                    return Err(e);
                },
            };
            Ok((id, ElementData::String(v)))
        },
    }
}

/// Reading an element always moves the cursor forward, and never past the
/// end of the data.
pub proof fn lemma_elem_end_advances(data: Seq<u8>, pos: int)
    requires
        0 <= pos <= data.len(),
        element_well_formed(data, pos),
    ensures
        pos < header_end(data, pos),
        header_end(data, pos) <= data.len(),
        pos < elem_end(data, pos),
        elem_end(data, pos) <= data.len(),
{
    crate::vint::lemma_scan_pos_ge(data, pos);
}

/// Parses an element header at the given position and checks that it is the
/// expected master element. Returns the offset and size of its payload,
/// leaving the cursor at the first payload byte.
pub fn expect_master(r: &mut ByteSource, expected_id: ElementId, from: Option<u64>) -> (res:
    Result<(u64, u64), DemuxError>)
    ensures
        final(r).bytes() == old(r).bytes(),
        ({
            let start = start_of(old(r).bytes(), old(r).cursor(), from);
            match res {
                Ok((offset, sz)) => {
                    &&& header_ok(old(r).bytes(), start)
                    &&& header_id(old(r).bytes(), start) == expected_id
                    &&& offset as int == header_end(old(r).bytes(), start)
                    &&& sz == header_size(old(r).bytes(), start)
                    &&& final(r).cursor() == header_end(old(r).bytes(), start)
                },
                Err(e) => match e {
                    DemuxError::UnexpectedElement(want, got) => {
                        &&& header_ok(old(r).bytes(), start)
                        &&& want == expected_id
                        &&& got == header_id(old(r).bytes(), start)
                        &&& got != expected_id
                    },
                    _ => !header_ok(old(r).bytes(), start),
                },
            }
        }),
{
    let (element_id, size) = match parse_element_header(r, from) {
        Ok(h) => h,
        Err(e) => {
            return Err(e);
        },
    };
    if element_id != expected_id {
        return Err(DemuxError::UnexpectedElement(expected_id, element_id));
    }
    let offset = r.position();
    Ok((offset, size))
}

/// The start positions of the direct children of a master payload
/// `[pos, end)`: reading stops at `end`, fails on a malformed child, and
/// ends early at a master or binary child of unknown size, which is not
/// listed.
pub open spec fn walk_children(data: Seq<u8>, pos: int, end: int) -> Option<Seq<int>>
    decreases data.len() - pos,
    when 0 <= pos <= data.len()
    via walk_children_dec
{
    if pos >= end {
        Some(Seq::empty())
    } else if !element_well_formed(data, pos) {
        None
    } else {
        let ty = spec_element_type(header_id(data, pos));
        let is_loc = ty is Master || ty is Binary || ty is Unknown;
        if is_loc && header_size(data, pos) == u64::MAX {
            Some(Seq::empty())
        } else {
            match walk_children(data, elem_end(data, pos), end) {
                Option::Some(rest) => Some(seq![pos] + rest),
                Option::None => None,
            }
        }
    }
}

#[via_fn]
proof fn walk_children_dec(data: Seq<u8>, pos: int, end: int) {
    if pos < end && element_well_formed(data, pos) {
        lemma_elem_end_advances(data, pos);
    }
}

/// The positions of the children that are kept: those whose identifier is
/// known.
pub open spec fn kept_children(data: Seq<u8>, ps: Seq<int>) -> Seq<int> {
    ps.filter(|q: int| header_id(data, q) != ElementId::Unknown)
}

/// Whether a collected field list holds, element for element, the children
/// that start at the given positions.
pub open spec fn children_match(
    data: Seq<u8>,
    ps: Seq<int>,
    children: Seq<(ElementId, ElementData)>,
) -> bool {
    &&& children.len() == ps.len()
    &&& forall|i: int|
        0 <= i < ps.len() ==> (#[trigger] children[i]).0 == header_id(data, ps[i]) && data_matches(
            data,
            ps[i],
            children[i].1,
        )
}

/// The clamped end of a payload of `size` bytes at `offset`.
pub open spec fn payload_end(offset: u64, size: u64) -> int {
    if offset + size > u64::MAX {
        u64::MAX as int
    } else {
        offset + size
    }
}

/// Collects the direct children of a master element into a list of
/// `(element, data)` pairs, preserving wire order. Children of unknown size
/// end the collection; elements with unknown identifiers are dropped. It
/// succeeds exactly when the walk over the payload does, and then the list
/// matches the walked children with unknown identifiers filtered out.
pub fn collect_children(r: &mut ByteSource, offset: u64, size: u64) -> (res: Result<
    Vec<(ElementId, ElementData)>,
    DemuxError,
>)
    ensures
        final(r).bytes() == old(r).bytes(),
        ({
            let data = old(r).bytes();
            let start = clamped_pos(offset as int, data.len() as int);
            let end = payload_end(offset, size);
            match res {
                Ok(children) => walk_children(data, start, end) matches Some(ps)
                    && children_match(data, kept_children(data, ps), children@),
                Err(_) => walk_children(data, start, end) is None,
            }
        }),
{
    let mut children: Vec<(ElementId, ElementData)> = Vec::new();
    r.seek_to(offset);
    let end = offset.saturating_add(size);
    let ghost data = old(r).bytes();
    let ghost start = r.cursor();
    let ghost done: Seq<int> = Seq::empty();
    proof {
        reveal(Seq::filter);
        assert(kept_children(data, done) == Seq::<int>::empty());
        assert(children_match(data, kept_children(data, done), children@));
        match walk_children(data, start, end as int) {
            Option::Some(ps) => {
                assert(done + ps =~= ps);
            },
            Option::None => {},
        }
    }
    loop
        invariant
            r.bytes() == data,
            0 <= r.cursor() <= data.len(),
            match walk_children(data, r.cursor(), end as int) {
                Option::Some(rest) => walk_children(data, start, end as int) == Some(done + rest),
                Option::None => walk_children(data, start, end as int) is None,
            },
            children_match(data, kept_children(data, done), children@),
        decreases data.len() - r.cursor(),
    {
        let pos = r.position();
        if pos >= end {
            proof {
                assert(walk_children(data, r.cursor(), end as int) == Some(Seq::<int>::empty()));
                assert(done + Seq::<int>::empty() =~= done);
            }
            break ;
        }
        let (element_id, element_data) = match next_element(r) {
            Ok(x) => x,
            Err(e) => {
                return Err(e);
            },
        };
        let mut stop = false;
        if let ElementData::Location { offset: loc_offset, size: loc_size } = element_data {
            if loc_size == u64::MAX {
                stop = true;
            } else {
                r.seek_to(loc_offset.saturating_add(loc_size));
            }
        }
        proof {
            lemma_elem_end_advances(data, pos as int);
        }
        if stop {
            proof {
                assert(walk_children(data, pos as int, end as int) == Some(Seq::<int>::empty()));
                assert(done + Seq::<int>::empty() =~= done);
            }
            break ;
        }
        proof {
            assert(r.cursor() == elem_end(data, pos as int));
        }
        if element_id != ElementId::Unknown {
            children.push((element_id, element_data));
        }
        proof {
            let rest_now = walk_children(data, r.cursor(), end as int);
            match rest_now {
                Option::Some(rest) => {
                    assert(walk_children(data, pos as int, end as int) == Some(
                        seq![pos as int] + rest,
                    ));
                    assert(done + (seq![pos as int] + rest) =~= (done.push(pos as int)) + rest);
                },
                Option::None => {},
            }
            reveal(Seq::filter);
            assert(done.push(pos as int).drop_last() =~= done);
            assert(kept_children(data, done.push(pos as int)) == (if header_id(data, pos as int)
                != ElementId::Unknown {
                kept_children(data, done).push(pos as int)
            } else {
                kept_children(data, done)
            }));
            assert(children_match(
                data,
                kept_children(data, done.push(pos as int)),
                children@,
            ));
        }
        proof {
            done = done.push(pos as int);
        }
    }
    Ok(children)
}

/// The position of the first kept child with the given element.
pub open spec fn wire_first(data: Seq<u8>, ps: Seq<int>, id: ElementId) -> Option<int>
    decreases ps.len(),
{
    if ps.len() == 0 {
        None
    } else if header_id(data, ps[0]) == id {
        Some(ps[0])
    } else {
        wire_first(data, ps.drop_first(), id)
    }
}

/// The unsigned value encoded under the first child with the given element.
pub open spec fn wire_unsigned(data: Seq<u8>, ps: Seq<int>, id: ElementId) -> Option<u64> {
    match wire_first(data, ps, id) {
        Option::Some(q) => Some(
            uint_payload(data, header_end(data, q), header_size(data, q)) as u64,
        ),
        Option::None => None,
    }
}

/// The characters encoded under the first child with the given element.
pub open spec fn wire_string(data: Seq<u8>, ps: Seq<int>, id: ElementId) -> Option<Seq<char>> {
    match wire_first(data, ps, id) {
        Option::Some(q) => Some(string_payload(data, header_end(data, q), header_size(data, q))),
        Option::None => None,
    }
}

/// Looking a field up in a collected list agrees with looking it up on the
/// wire: the found data matches the first child position with that element.
pub proof fn lemma_wire_find(
    data: Seq<u8>,
    ps: Seq<int>,
    children: Seq<(ElementId, ElementData)>,
    id: ElementId,
)
    requires
        children_match(data, ps, children),
    ensures
        match wire_first(data, ps, id) {
            Option::Some(q) => find_field(children, id) matches Some(d) && data_matches(data, q, d)
                && header_id(data, q) == id,
            Option::None => find_field(children, id) is None,
        },
    decreases ps.len(),
{
    if ps.len() > 0 {
        if header_id(data, ps[0]) == id {
        } else {
            assert(children_match(data, ps.drop_first(), children.drop_first())) by {
                assert forall|i: int| 0 <= i < ps.drop_first().len() implies (#[trigger] children.drop_first()[i]).0
                    == header_id(data, ps.drop_first()[i]) && data_matches(
                    data,
                    ps.drop_first()[i],
                    children.drop_first()[i].1,
                ) by {
                    assert(children.drop_first()[i] == children[i + 1]);
                    assert(ps.drop_first()[i] == ps[i + 1]);
                }
            }
            lemma_wire_find(data, ps.drop_first(), children.drop_first(), id);
        }
    }
}

/// The first field with the given element, in wire order.
pub open spec fn find_field(fields: Seq<(ElementId, ElementData)>, id: ElementId) -> Option<
    ElementData,
>
    decreases fields.len(),
{
    if fields.len() == 0 {
        None
    } else if fields[0].0 == id {
        Some(fields[0].1)
    } else {
        find_field(fields.drop_first(), id)
    }
}

proof fn lemma_find_field_at(fields: Seq<(ElementId, ElementData)>, id: ElementId, i: int)
    requires
        0 <= i < fields.len(),
        fields[i].0 == id,
        forall|j: int| 0 <= j < i ==> (#[trigger] fields[j]).0 != id,
    ensures
        find_field(fields, id) == Some(fields[i].1),
    decreases i,
{
    if fields[0].0 != id {
        lemma_find_field_at(fields.drop_first(), id, i - 1);
    }
}

/// A field with the given element makes the lookup succeed.
pub proof fn lemma_find_field_some_if_match(
    fields: Seq<(ElementId, ElementData)>,
    id: ElementId,
    i: int,
)
    requires
        0 <= i < fields.len(),
        fields[i].0 == id,
    ensures
        find_field(fields, id) is Some,
    decreases i,
{
    if fields[0].0 != id {
        lemma_find_field_some_if_match(fields.drop_first(), id, i - 1);
    }
}

proof fn lemma_find_field_none(fields: Seq<(ElementId, ElementData)>, id: ElementId)
    requires
        forall|j: int| 0 <= j < fields.len() ==> (#[trigger] fields[j]).0 != id,
    ensures
        find_field(fields, id) is None,
    decreases fields.len(),
{
    if fields.len() > 0 {
        lemma_find_field_none(fields.drop_first(), id);
    }
}

/// Finds the data of the first field with the given element.
pub fn find_data<'a>(fields: &'a Vec<(ElementId, ElementData)>, id: ElementId) -> (res: Option<
    &'a ElementData,
>)
    ensures
        match res {
            Some(d) => find_field(fields@, id) == Some(*d),
            None => find_field(fields@, id) is None,
        },
{
    let mut i: usize = 0;
    while i < fields.len()
        invariant
            i <= fields@.len(),
            forall|j: int| 0 <= j < i ==> (#[trigger] fields@[j]).0 != id,
        decreases fields@.len() - i,
    {
        if fields[i].0 == id {
            proof {
                lemma_find_field_at(fields@, id, i as int);
            }
            return Some(&fields[i].1);
        }
        i = i + 1;
    }
    proof {
        lemma_find_field_none(fields@, id);
    }
    None
}

/// Tries to find an unsigned-integer field.
pub fn try_find_unsigned(fields: &Vec<(ElementId, ElementData)>, id: ElementId) -> (res: Result<
    Option<u64>,
    DemuxError,
>)
    ensures
        match find_field(fields@, id) {
            Option::None => res == Ok::<Option<u64>, DemuxError>(None),
            Option::Some(d) => match d {
                ElementData::Unsigned(v) => res == Ok::<Option<u64>, DemuxError>(Some(v)),
                _ => res == Err::<Option<u64>, DemuxError>(DemuxError::UnexpectedDataType),
            },
        },
{
    match find_data(fields, id) {
        Some(d) => match d {
            ElementData::Unsigned(v) => Ok(Some(*v)),
            _ => Err(DemuxError::UnexpectedDataType),
        },
        None => Ok(None),
    }
}

/// Finds a required unsigned-integer field.
pub fn find_unsigned(fields: &Vec<(ElementId, ElementData)>, id: ElementId) -> (res: Result<
    u64,
    DemuxError,
>)
    ensures
        match find_field(fields@, id) {
            Option::None => res == Err::<u64, DemuxError>(DemuxError::ElementNotFound(id)),
            Option::Some(d) => match d {
                ElementData::Unsigned(v) => res == Ok::<u64, DemuxError>(v),
                _ => res == Err::<u64, DemuxError>(DemuxError::UnexpectedDataType),
            },
        },
{
    match try_find_unsigned(fields, id) {
        Ok(Some(v)) => Ok(v),
        Ok(None) => Err(DemuxError::ElementNotFound(id)),
        Err(e) => Err(e),
    }
}

/// Finds an unsigned-integer field, with a default when it is absent.
pub fn find_unsigned_or(fields: &Vec<(ElementId, ElementData)>, id: ElementId, default: u64) -> (res:
    Result<u64, DemuxError>)
    ensures
        match find_field(fields@, id) {
            Option::None => res == Ok::<u64, DemuxError>(default),
            Option::Some(d) => match d {
                ElementData::Unsigned(v) => res == Ok::<u64, DemuxError>(v),
                _ => res == Err::<u64, DemuxError>(DemuxError::UnexpectedDataType),
            },
        },
{
    match try_find_unsigned(fields, id) {
        Ok(Some(v)) => Ok(v),
        Ok(None) => Ok(default),
        Err(e) => Err(e),
    }
}

/// Tries to find an unsigned field read as a boolean: zero is false,
/// anything else is true.
pub fn try_find_bool(fields: &Vec<(ElementId, ElementData)>, id: ElementId) -> (res: Result<
    Option<bool>,
    DemuxError,
>)
    ensures
        match find_field(fields@, id) {
            Option::None => res == Ok::<Option<bool>, DemuxError>(None),
            Option::Some(d) => match d {
                ElementData::Unsigned(v) => res == Ok::<Option<bool>, DemuxError>(Some(v != 0)),
                _ => res == Err::<Option<bool>, DemuxError>(DemuxError::UnexpectedDataType),
            },
        },
{
    match try_find_unsigned(fields, id) {
        Ok(Some(v)) => Ok(Some(v != 0)),
        Ok(None) => Ok(None),
        Err(e) => Err(e),
    }
}

/// Finds an unsigned field read as a boolean, with a default when it is
/// absent.
pub fn find_bool_or(fields: &Vec<(ElementId, ElementData)>, id: ElementId, default: bool) -> (res:
    Result<bool, DemuxError>)
    ensures
        match find_field(fields@, id) {
            Option::None => res == Ok::<bool, DemuxError>(default),
            Option::Some(d) => match d {
                ElementData::Unsigned(v) => res == Ok::<bool, DemuxError>(v != 0),
                _ => res == Err::<bool, DemuxError>(DemuxError::UnexpectedDataType),
            },
        },
{
    match try_find_bool(fields, id) {
        Ok(Some(v)) => Ok(v),
        Ok(None) => Ok(default),
        Err(e) => Err(e),
    }
}

/// Finds a required unsigned field that must not be zero.
pub fn find_nonzero(fields: &Vec<(ElementId, ElementData)>, id: ElementId) -> (res: Result<
    u64,
    DemuxError,
>)
    ensures
        match find_field(fields@, id) {
            Option::None => res == Err::<u64, DemuxError>(DemuxError::ElementNotFound(id)),
            Option::Some(d) => match d {
                ElementData::Unsigned(v) => if v == 0 {
                    res == Err::<u64, DemuxError>(DemuxError::NonZeroValueIsZero(id))
                } else {
                    res == Ok::<u64, DemuxError>(v)
                },
                _ => res == Err::<u64, DemuxError>(DemuxError::UnexpectedDataType),
            },
        },
        res matches Ok(v) ==> v != 0,
{
    match find_unsigned(fields, id) {
        Ok(v) => if v == 0 {
            Err(DemuxError::NonZeroValueIsZero(id))
        } else {
            Ok(v)
        },
        Err(e) => Err(e),
    }
}

/// Finds an unsigned field that must not be zero, with a default when it is
/// absent; the default must hold to the same rule.
pub fn find_nonzero_or(fields: &Vec<(ElementId, ElementData)>, id: ElementId, default: u64) -> (res:
    Result<u64, DemuxError>)
    ensures
        match find_field(fields@, id) {
            Option::None => if default == 0 {
                res == Err::<u64, DemuxError>(DemuxError::NonZeroValueIsZero(id))
            } else {
                res == Ok::<u64, DemuxError>(default)
            },
            Option::Some(d) => match d {
                ElementData::Unsigned(v) => if v == 0 {
                    res == Err::<u64, DemuxError>(DemuxError::NonZeroValueIsZero(id))
                } else {
                    res == Ok::<u64, DemuxError>(v)
                },
                _ => res == Err::<u64, DemuxError>(DemuxError::UnexpectedDataType),
            },
        },
        res matches Ok(v) ==> v != 0,
{
    match find_unsigned_or(fields, id, default) {
        Ok(v) => if v == 0 {
            Err(DemuxError::NonZeroValueIsZero(id))
        } else {
            Ok(v)
        },
        Err(e) => Err(e),
    }
}

/// Tries to find an unsigned field that must not be zero when present.
pub fn try_find_nonzero(fields: &Vec<(ElementId, ElementData)>, id: ElementId) -> (res: Result<
    Option<u64>,
    DemuxError,
>)
    ensures
        match find_field(fields@, id) {
            Option::None => res == Ok::<Option<u64>, DemuxError>(None),
            Option::Some(d) => match d {
                ElementData::Unsigned(v) => if v == 0 {
                    res == Err::<Option<u64>, DemuxError>(DemuxError::NonZeroValueIsZero(id))
                } else {
                    res == Ok::<Option<u64>, DemuxError>(Some(v))
                },
                _ => res == Err::<Option<u64>, DemuxError>(DemuxError::UnexpectedDataType),
            },
        },
        res matches Ok(Some(v)) ==> v != 0,
{
    match try_find_unsigned(fields, id) {
        Ok(Some(v)) => if v == 0 {
            Err(DemuxError::NonZeroValueIsZero(id))
        } else {
            Ok(Some(v))
        },
        Ok(None) => Ok(None),
        Err(e) => Err(e),
    }
}

/// Tries to find an unsigned field decoded as a custom coded value.
pub fn try_find_custom_type<T: FromUnsigned>(
    fields: &Vec<(ElementId, ElementData)>,
    id: ElementId,
) -> (res: Result<Option<T>, DemuxError>)
    ensures
        match find_field(fields@, id) {
            Option::None => (res matches Ok(o) && o is None),
            Option::Some(d) => match d {
                ElementData::Unsigned(v) => (res matches Ok(o) && o matches Some(t) && t
                    == T::spec_from_u64(v)),
                _ => (res matches Err(e) && e == DemuxError::UnexpectedDataType),
            },
        },
{
    match try_find_unsigned(fields, id) {
        Ok(Some(v)) => Ok(Some(T::from_u64(v))),
        Ok(None) => Ok(None),
        Err(e) => Err(e),
    }
}

/// Tries to find an unsigned field decoded as a custom coded value, with a
/// default when it is absent.
pub fn try_find_custom_type_or<T: FromUnsigned>(
    fields: &Vec<(ElementId, ElementData)>,
    id: ElementId,
    default: T,
) -> (res: Result<T, DemuxError>)
    ensures
        match find_field(fields@, id) {
            Option::None => (res matches Ok(t) && t == default),
            Option::Some(d) => match d {
                ElementData::Unsigned(v) => (res matches Ok(t) && t == T::spec_from_u64(v)),
                _ => (res matches Err(e) && e == DemuxError::UnexpectedDataType),
            },
        },
{
    match try_find_unsigned(fields, id) {
        Ok(Some(v)) => Ok(T::from_u64(v)),
        Ok(None) => Ok(default),
        Err(e) => Err(e),
    }
}

/// Finds a required unsigned field decoded as a custom coded value.
pub fn find_custom_type<T: FromUnsigned>(
    fields: &Vec<(ElementId, ElementData)>,
    id: ElementId,
) -> (res: Result<T, DemuxError>)
    ensures
        match find_field(fields@, id) {
            Option::None => (res matches Err(e) && e == DemuxError::ElementNotFound(id)),
            Option::Some(d) => match d {
                ElementData::Unsigned(v) => (res matches Ok(t) && t == T::spec_from_u64(v)),
                _ => (res matches Err(e) && e == DemuxError::UnexpectedDataType),
            },
        },
{
    match try_find_custom_type::<T>(fields, id) {
        Ok(Some(t)) => Ok(t),
        Ok(None) => Err(DemuxError::ElementNotFound(id)),
        Err(e) => Err(e),
    }
}

/// Tries to find a float field; the value is binary64 bits.
pub fn try_find_float(fields: &Vec<(ElementId, ElementData)>, id: ElementId) -> (res: Result<
    Option<u64>,
    DemuxError,
>)
    ensures
        match find_field(fields@, id) {
            Option::None => res == Ok::<Option<u64>, DemuxError>(None),
            Option::Some(d) => match d {
                ElementData::Float(v) => res == Ok::<Option<u64>, DemuxError>(Some(v)),
                _ => res == Err::<Option<u64>, DemuxError>(DemuxError::UnexpectedDataType),
            },
        },
{
    match find_data(fields, id) {
        Some(d) => match d {
            ElementData::Float(v) => Ok(Some(*v)),
            _ => Err(DemuxError::UnexpectedDataType),
        },
        None => Ok(None),
    }
}

/// Finds a float field, with a default (as binary64 bits) when it is absent.
pub fn find_float_or(fields: &Vec<(ElementId, ElementData)>, id: ElementId, default: u64) -> (res:
    Result<u64, DemuxError>)
    ensures
        match find_field(fields@, id) {
            Option::None => res == Ok::<u64, DemuxError>(default),
            Option::Some(d) => match d {
                ElementData::Float(v) => res == Ok::<u64, DemuxError>(v),
                _ => res == Err::<u64, DemuxError>(DemuxError::UnexpectedDataType),
            },
        },
{
    match try_find_float(fields, id) {
        Ok(Some(v)) => Ok(v),
        Ok(None) => Ok(default),
        Err(e) => Err(e),
    }
}

/// Tries to find a date field.
pub fn try_find_date(fields: &Vec<(ElementId, ElementData)>, id: ElementId) -> (res: Result<
    Option<i64>,
    DemuxError,
>)
    ensures
        match find_field(fields@, id) {
            Option::None => res == Ok::<Option<i64>, DemuxError>(None),
            Option::Some(d) => match d {
                ElementData::Date(v) => res == Ok::<Option<i64>, DemuxError>(Some(v)),
                _ => res == Err::<Option<i64>, DemuxError>(DemuxError::UnexpectedDataType),
            },
        },
{
    match find_data(fields, id) {
        Some(d) => match d {
            ElementData::Date(v) => Ok(Some(*v)),
            _ => Err(DemuxError::UnexpectedDataType),
        },
        None => Ok(None),
    }
}

/// Tries to find a string field.
pub fn try_find_string(fields: &Vec<(ElementId, ElementData)>, id: ElementId) -> (res: Result<
    Option<String>,
    DemuxError,
>)
    ensures
        match find_field(fields@, id) {
            Option::None => res matches Ok(o) && o is None,
            Option::Some(d) => match d {
                ElementData::String(v) => res matches Ok(o) && o matches Some(s) && s == v,
                _ => res matches Err(e) && e == DemuxError::UnexpectedDataType,
            },
        },
{
    match find_data(fields, id) {
        Some(d) => match d {
            ElementData::String(v) => Ok(Some(v.clone())),
            _ => Err(DemuxError::UnexpectedDataType),
        },
        None => Ok(None),
    }
}

/// Finds a required string field.
pub fn find_string(fields: &Vec<(ElementId, ElementData)>, id: ElementId) -> (res: Result<
    String,
    DemuxError,
>)
    ensures
        match find_field(fields@, id) {
            Option::None => res matches Err(e) && e == DemuxError::ElementNotFound(id),
            Option::Some(d) => match d {
                ElementData::String(v) => res matches Ok(s) && s == v,
                _ => res matches Err(e) && e == DemuxError::UnexpectedDataType,
            },
        },
{
    match try_find_string(fields, id) {
        Ok(Some(v)) => Ok(v),
        Ok(None) => Err(DemuxError::ElementNotFound(id)),
        Err(e) => Err(e),
    }
}

/// Tries to find a binary field and reads its bytes from the recorded
/// location.
pub fn try_find_binary(r: &mut ByteSource, fields: &Vec<(ElementId, ElementData)>, id: ElementId)
    -> (res: Result<Option<Vec<u8>>, DemuxError>)
    ensures
        final(r).bytes() == old(r).bytes(),
        match find_field(fields@, id) {
            Option::None => res matches Ok(o) && o is None,
            Option::Some(d) => match d {
                ElementData::Location { offset, size } => match res {
                    Ok(o) => {
                        &&& o matches Some(v)
                        &&& offset + size <= old(r).bytes().len()
                        &&& v@ == old(r).bytes().subrange(offset as int, offset + size)
                    },
                    Err(e) => (e == DemuxError::IoError && offset + size > old(r).bytes().len())
                        || (e == DemuxError::TryFromIntError && size > usize::MAX),
                },
                _ => res matches Err(e) && e == DemuxError::UnexpectedDataType,
            },
        },
{
    match find_data(fields, id) {
        Some(d) => match d {
            ElementData::Location { offset, size } => {
                let offset = *offset;
                let size = *size;
                if size > usize::MAX as u64 {
                    return Err(DemuxError::TryFromIntError);
                }
                r.seek_to(offset);
                let pos = r.position();
                if pos != offset {
                    // The location starts past the end of the data.
                    return Err(DemuxError::IoError);
                }
                let v = match r.read_exact(size as usize) {
                    Ok(v) => v,
                    Err(e) => {
                        return Err(e);
                    },
                };
                Ok(Some(v))
            },
            _ => Err(DemuxError::UnexpectedDataType),
        },
        None => Ok(None),
    }
}

/// How many fields carry the given element.
pub open spec fn count_fields(fields: Seq<(ElementId, ElementData)>, id: ElementId) -> int
    decreases fields.len(),
{
    if fields.len() == 0 {
        0
    } else {
        count_fields(fields.drop_last(), id) + (if fields.last().0 == id {
            1int
        } else {
            0int
        })
    }
}

/// The `k`-th field with the given element, in order.
pub open spec fn nth_field(
    fields: Seq<(ElementId, ElementData)>,
    id: ElementId,
    k: int,
) -> Option<(ElementId, ElementData)>
    decreases fields.len(),
{
    if fields.len() == 0 {
        None
    } else if fields.last().0 == id && k == count_fields(fields.drop_last(), id) {
        Some(fields.last())
    } else {
        nth_field(fields.drop_last(), id, k)
    }
}

/// Whether a record bound from a master's payload at `(offset, size)` is the
/// one the wire encodes: the payload walks, and the record binds to a field
/// list that matches the walked children.
pub open spec fn child_binds_to<T: ParsableElement>(
    data: Seq<u8>,
    offset: u64,
    size: u64,
    out: T,
) -> bool {
    walk_children(
        data,
        clamped_pos(offset as int, data.len() as int),
        payload_end(offset, size),
    ) matches Some(ps) && (exists|cf: Seq<(ElementId, ElementData)>|
        children_match(data, kept_children(data, ps), cf) && #[trigger] T::binds_to(
            data,
            cf,
            out,
        ))
}

/// Whether a bound collection holds, in order, one record per field with
/// the given element, each bound from that child's payload.
pub open spec fn children_bind_to<T: ParsableElement>(
    data: Seq<u8>,
    pf: Seq<(ElementId, ElementData)>,
    child_id: ElementId,
    out: Seq<T>,
) -> bool {
    &&& out.len() == count_fields(pf, child_id)
    &&& forall|k: int|
        0 <= k < out.len() ==> (#[trigger] nth_field(pf, child_id, k) matches Some(f) && f.1
            matches ElementData::Location { offset, size } && child_binds_to::<T>(
            data,
            offset,
            size,
            out[k],
        ))
}

/// Whether a bound collection holds one record per child with the given
/// element under the master payload at `(offset, size)`, in wire order.
pub open spec fn master_children_bind_to<T: ParsableElement>(
    data: Seq<u8>,
    offset: u64,
    size: u64,
    child_id: ElementId,
    out: Seq<T>,
) -> bool {
    walk_children(
        data,
        clamped_pos(offset as int, data.len() as int),
        payload_end(offset, size),
    ) matches Some(ps) && (exists|pf: Seq<(ElementId, ElementData)>|
        children_match(data, kept_children(data, ps), pf) && #[trigger] children_bind_to::<T>(
            data,
            pf,
            child_id,
            out,
        ))
}

/// A record bound from the children of one master element.
pub trait ParsableElement: Sized {
    /// What a successfully bound record holds of the fields it was bound
    /// from and of the underlying bytes.
    spec fn binds_to(data: Seq<u8>, fields: Seq<(ElementId, ElementData)>, out: Self) -> bool;

    /// Binds the record from the listed fields, reading nested masters and
    /// binary payloads through the byte source.
    fn new(r: &mut ByteSource, fields: &Vec<(ElementId, ElementData)>) -> (res: Result<
        Self,
        DemuxError,
    >)
        ensures
            final(r).bytes() == old(r).bytes(),
            res matches Ok(t) ==> Self::binds_to(old(r).bytes(), fields@, t),
    ;
}

/// Tries to bind the child record stored under the given element.
pub fn try_parse_child<T: ParsableElement>(
    r: &mut ByteSource,
    fields: &Vec<(ElementId, ElementData)>,
    element_id: ElementId,
) -> (res: Result<Option<T>, DemuxError>)
    ensures
        final(r).bytes() == old(r).bytes(),
        find_field(fields@, element_id) is None ==> (res matches Ok(o) && o is None),
        (res matches Ok(o) && o is Some) ==> (find_field(fields@, element_id) matches Some(d)
            && d is Location),
        (find_field(fields@, element_id) matches Some(d) && !(d is Location)) ==> (res matches
            Err(e) && e == DemuxError::UnexpectedDataType),
        res matches Ok(o) ==> (find_field(fields@, element_id) is Some ==> o is Some),
        res matches Ok(o) ==> (o matches Some(t) ==> (find_field(fields@, element_id) matches
            Some(d) && d matches ElementData::Location { offset, size } && child_binds_to::<T>(
            old(r).bytes(),
            offset,
            size,
            t,
        ))),
{
    match find_data(fields, element_id) {
        Some(d) => match d {
            ElementData::Location { offset, size } => {
                let offset = *offset;
                let size = *size;
                let child_fields = match collect_children(r, offset, size) {
                    Ok(c) => c,
                    Err(e) => {
                        return Err(e);
                    },
                };
                match T::new(r, &child_fields) {
                    Ok(c) => Ok(Some(c)),
                    Err(e) => Err(e),
                }
            },
            _ => Err(DemuxError::UnexpectedDataType),
        },
        None => Ok(None),
    }
}

/// Binds the required child record stored under the given element.
pub fn parse_child<T: ParsableElement>(
    r: &mut ByteSource,
    fields: &Vec<(ElementId, ElementData)>,
    element_id: ElementId,
) -> (res: Result<T, DemuxError>)
    ensures
        final(r).bytes() == old(r).bytes(),
        find_field(fields@, element_id) is None ==> (res matches Err(e) && e
            == DemuxError::ElementNotFound(element_id)),
        res matches Ok(t) ==> (find_field(fields@, element_id) matches Some(d) && d matches
            ElementData::Location { offset, size } && child_binds_to::<T>(
            old(r).bytes(),
            offset,
            size,
            t,
        )),
{
    match try_parse_child::<T>(r, fields, element_id) {
        Ok(Some(c)) => Ok(c),
        Ok(None) => Err(DemuxError::ElementNotFound(element_id)),
        Err(e) => Err(e),
    }
}

/// Binds every child with the given element under the master whose payload
/// lies at `offset` with `size`.
fn parse_children_inner<T: ParsableElement>(
    r: &mut ByteSource,
    offset: u64,
    size: u64,
    child_id: ElementId,
) -> (res: Result<Vec<T>, DemuxError>)
    ensures
        final(r).bytes() == old(r).bytes(),
        res matches Ok(v) ==> master_children_bind_to::<T>(
            old(r).bytes(),
            offset,
            size,
            child_id,
            v@,
        ),
{
    let mut children: Vec<T> = Vec::new();
    let master_fields = match collect_children(r, offset, size) {
        Ok(c) => c,
        Err(e) => {
            return Err(e);
        },
    };
    let mut i: usize = 0;
    proof {
        assert(master_fields@.take(0) =~= Seq::<(ElementId, ElementData)>::empty());
    }
    while i < master_fields.len()
        invariant
            r.bytes() == old(r).bytes(),
            i <= master_fields@.len(),
            children@.len() == count_fields(master_fields@.take(i as int), child_id),
            forall|k: int|
                0 <= k < children@.len() ==> (#[trigger] nth_field(
                    master_fields@.take(i as int),
                    child_id,
                    k,
                ) matches Some(f) && f.1 matches ElementData::Location { offset, size }
                    && child_binds_to::<T>(old(r).bytes(), offset, size, children@[k])),
            forall|j: int|
                0 <= j < master_fields@.len() ==> (#[trigger] master_fields@[j]).0
                    != ElementId::Unknown,
        decreases master_fields@.len() - i,
    {
        proof {
            assert(master_fields@.take(i + 1).drop_last() =~= master_fields@.take(i as int));
            assert(master_fields@.take(i + 1).last() == master_fields@[i as int]);
        }
        if master_fields[i].0 == child_id {
            if let ElementData::Location { offset: child_offset, size: child_size } =
                master_fields[i].1 {
                let child_fields = match collect_children(r, child_offset, child_size) {
                    Ok(c) => c,
                    Err(e) => {
                        return Err(e);
                    },
                };
                let child = match T::new(r, &child_fields) {
                    Ok(c) => c,
                    Err(e) => {
                        return Err(e);
                    },
                };
                children.push(child);
                proof {
                    let data = old(r).bytes();
                    let ps = walk_children(
                        data,
                        clamped_pos(child_offset as int, data.len() as int),
                        payload_end(child_offset, child_size),
                    ).unwrap();
                    assert(children_match(data, kept_children(data, ps), child_fields@)
                        && T::binds_to(data, child_fields@, children@.last()));
                    assert(child_binds_to::<T>(data, child_offset, child_size, children@.last()));
                }
            } else {
                // The collected fields come from the wire, where a child of
                // this kind is always a master.
                return Err(DemuxError::UnexpectedDataType);
            }
        }
        proof {
            let t1 = master_fields@.take(i + 1);
            let t0 = master_fields@.take(i as int);
            assert(children@.len() == count_fields(t1, child_id));
            assert forall|k: int| 0 <= k < children@.len() implies (#[trigger] nth_field(
                t1,
                child_id,
                k,
            ) matches Some(f) && f.1 matches ElementData::Location { offset, size }
                && child_binds_to::<T>(old(r).bytes(), offset, size, children@[k])) by {
                if master_fields@[i as int].0 == child_id && k == count_fields(t0, child_id) {
                    assert(nth_field(t1, child_id, k) == Some(master_fields@[i as int]));
                } else {
                    assert(nth_field(t1, child_id, k) == nth_field(t0, child_id, k));
                }
            }
        }
        i = i + 1;
    }
    proof {
        assert(master_fields@.take(master_fields@.len() as int) =~= master_fields@);
        assert(children_bind_to::<T>(old(r).bytes(), master_fields@, child_id, children@));
    }
    Ok(children)
}

/// Tries to bind all children of one kind under the master element stored in
/// the given fields.
pub fn try_parse_children<T: ParsableElement>(
    r: &mut ByteSource,
    fields: &Vec<(ElementId, ElementData)>,
    parent_id: ElementId,
    child_id: ElementId,
) -> (res: Result<Option<Vec<T>>, DemuxError>)
    ensures
        final(r).bytes() == old(r).bytes(),
        find_field(fields@, parent_id) is None ==> (res matches Ok(o) && o is None),
        res matches Ok(o) ==> (o is Some <==> (find_field(fields@, parent_id) matches Some(d)
            && d is Location)),
        res matches Ok(o) ==> (o matches Some(v) ==> (find_field(fields@, parent_id) matches
            Some(d) && d matches ElementData::Location { offset, size }
            && master_children_bind_to::<T>(old(r).bytes(), offset, size, child_id, v@))),
{
    match find_data(fields, parent_id) {
        Some(d) => match d {
            ElementData::Location { offset, size } => {
                let offset = *offset;
                let size = *size;
                match parse_children_inner::<T>(r, offset, size, child_id) {
                    Ok(c) => Ok(Some(c)),
                    Err(e) => Err(e),
                }
            },
            _ => Ok(None),
        },
        None => Ok(None),
    }
}

/// Binds all children of one kind under the master element whose header lies
/// at the given offset.
pub fn parse_children_at_offset<T: ParsableElement>(
    r: &mut ByteSource,
    offset: u64,
    master_id: ElementId,
    child_id: ElementId,
) -> (res: Result<Vec<T>, DemuxError>)
    ensures
        final(r).bytes() == old(r).bytes(),
        res is Ok ==> ({
            let start = clamped_pos(offset as int, old(r).bytes().len() as int);
            header_ok(old(r).bytes(), start) && header_id(old(r).bytes(), start) == master_id
        }),
        res matches Ok(v) ==> ({
            let start = clamped_pos(offset as int, old(r).bytes().len() as int);
            master_children_bind_to::<T>(
                old(r).bytes(),
                header_end(old(r).bytes(), start) as u64,
                header_size(old(r).bytes(), start),
                child_id,
                v@,
            )
        }),
{
    let (data_offset, data_size) = match expect_master(r, master_id, Some(offset)) {
        Ok(m) => m,
        Err(e) => {
            return Err(e);
        },
    };
    parse_children_inner::<T>(r, data_offset, data_size, child_id)
}

/// Binds every child with the given element from an already collected field
/// list.
pub fn find_children_in_fields<T: ParsableElement>(
    r: &mut ByteSource,
    fields: &Vec<(ElementId, ElementData)>,
    child_id: ElementId,
) -> (res: Result<Vec<T>, DemuxError>)
    ensures
        final(r).bytes() == old(r).bytes(),
        find_field(fields@, child_id) is None ==> res is Ok,
        res matches Ok(v) ==> children_bind_to::<T>(old(r).bytes(), fields@, child_id, v@),
{
    let mut children: Vec<T> = Vec::new();
    let mut i: usize = 0;
    proof {
        assert(fields@.take(0) =~= Seq::<(ElementId, ElementData)>::empty());
    }
    while i < fields.len()
        invariant
            r.bytes() == old(r).bytes(),
            i <= fields@.len(),
            children@.len() == count_fields(fields@.take(i as int), child_id),
            forall|k: int|
                0 <= k < children@.len() ==> (#[trigger] nth_field(
                    fields@.take(i as int),
                    child_id,
                    k,
                ) matches Some(f) && f.1 matches ElementData::Location { offset, size }
                    && child_binds_to::<T>(old(r).bytes(), offset, size, children@[k])),
        decreases fields@.len() - i,
    {
        proof {
            assert(fields@.take(i + 1).drop_last() =~= fields@.take(i as int));
            assert(fields@.take(i + 1).last() == fields@[i as int]);
        }
        if fields[i].0 == child_id {
            proof {
                lemma_find_field_some_if_match(fields@, child_id, i as int);
            }
            match &fields[i].1 {
                ElementData::Location { offset, size } => {
                    let offset = *offset;
                    let size = *size;
                    let child_fields = match collect_children(r, offset, size) {
                        Ok(c) => c,
                        Err(e) => {
                            return Err(e);
                        },
                    };
                    let child = match T::new(r, &child_fields) {
                        Ok(c) => c,
                        Err(e) => {
                            return Err(e);
                        },
                    };
                    children.push(child);
                    proof {
                        let data = old(r).bytes();
                        let ps = walk_children(
                            data,
                            clamped_pos(offset as int, data.len() as int),
                            payload_end(offset, size),
                        ).unwrap();
                        assert(children_match(data, kept_children(data, ps), child_fields@)
                            && T::binds_to(data, child_fields@, children@.last()));
                        assert(child_binds_to::<T>(data, offset, size, children@.last()));
                    }
                },
                _ => {
                    return Err(DemuxError::UnexpectedDataType);
                },
            }
        }
        proof {
            let t1 = fields@.take(i + 1);
            let t0 = fields@.take(i as int);
            assert(children@.len() == count_fields(t1, child_id));
            assert forall|k: int| 0 <= k < children@.len() implies (#[trigger] nth_field(
                t1,
                child_id,
                k,
            ) matches Some(f) && f.1 matches ElementData::Location { offset, size }
                && child_binds_to::<T>(old(r).bytes(), offset, size, children@[k])) by {
                if fields@[i as int].0 == child_id && k == count_fields(t0, child_id) {
                    assert(nth_field(t1, child_id, k) == Some(fields@[i as int]));
                } else {
                    assert(nth_field(t1, child_id, k) == nth_field(t0, child_id, k));
                }
            }
        }
        i = i + 1;
    }
    proof {
        assert(fields@.take(fields@.len() as int) =~= fields@);
    }
    Ok(children)
}

} // verus!
