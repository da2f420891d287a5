//! Little-endian byte-level encoding primitives.
//!
//! Every multi-byte field of the wire format is little-endian and tightly
//! packed.  The spec functions here give, for each field width, the value of
//! each encoded byte; the exec functions read such a field out of a byte
//! slice or append its encoding to an output buffer, and their contracts tie
//! the runtime bytes to the spec functions exactly.

use vstd::prelude::*;

verus! {

// --- spec: the bytes of a little-endian encoding -------------------------

/// Byte `0` (the least significant) of the 2-byte encoding of `x`.
pub open spec fn u16_b0(x: u16) -> u8 {
    (x & 0xff) as u8
}

/// Byte `1` of the 2-byte encoding of `x`.
pub open spec fn u16_b1(x: u16) -> u8 {
    ((x >> 8) & 0xff) as u8
}

/// The `u16` whose little-endian encoding is `b0, b1`.
pub open spec fn u16_of(b0: u8, b1: u8) -> u16 {
    (b0 as u16) | ((b1 as u16) << 8)
}

/// Byte `k` of the 4-byte encoding of `x`, for `k` in `0..4`.
pub open spec fn u32_b0(x: u32) -> u8 {
    (x & 0xff) as u8
}

pub open spec fn u32_b1(x: u32) -> u8 {
    ((x >> 8) & 0xff) as u8
}

pub open spec fn u32_b2(x: u32) -> u8 {
    ((x >> 16) & 0xff) as u8
}

pub open spec fn u32_b3(x: u32) -> u8 {
    ((x >> 24) & 0xff) as u8
}

/// The `u32` whose little-endian encoding is `b0, b1, b2, b3`.
pub open spec fn u32_of(b0: u8, b1: u8, b2: u8, b3: u8) -> u32 {
    (b0 as u32) | ((b1 as u32) << 8) | ((b2 as u32) << 16) | ((b3 as u32) << 24)
}

/// Byte `k` of the 8-byte encoding of `x`, for `k` in `0..8`.
pub open spec fn u64_b0(x: u64) -> u8 {
    (x & 0xff) as u8
}

pub open spec fn u64_b1(x: u64) -> u8 {
    ((x >> 8) & 0xff) as u8
}

pub open spec fn u64_b2(x: u64) -> u8 {
    ((x >> 16) & 0xff) as u8
}

pub open spec fn u64_b3(x: u64) -> u8 {
    ((x >> 24) & 0xff) as u8
}

pub open spec fn u64_b4(x: u64) -> u8 {
    ((x >> 32) & 0xff) as u8
}

pub open spec fn u64_b5(x: u64) -> u8 {
    ((x >> 40) & 0xff) as u8
}

pub open spec fn u64_b6(x: u64) -> u8 {
    ((x >> 48) & 0xff) as u8
}

pub open spec fn u64_b7(x: u64) -> u8 {
    ((x >> 56) & 0xff) as u8
}

/// The `u64` whose little-endian encoding is `b0, ..., b7`.
pub open spec fn u64_of(b0: u8, b1: u8, b2: u8, b3: u8, b4: u8, b5: u8, b6: u8, b7: u8) -> u64 {
    (b0 as u64) | ((b1 as u64) << 8) | ((b2 as u64) << 16) | ((b3 as u64) << 24)
        | ((b4 as u64) << 32) | ((b5 as u64) << 40) | ((b6 as u64) << 48) | ((b7 as u64) << 56)
}

/// The single byte encoding the signed value `x` (two's complement).
pub open spec fn i8_b0(x: i8) -> u8 {
    if x >= 0 {
        x as u8
    } else {
        (x + 256) as u8
    }
}

/// The unsigned 16-bit value with the same two's-complement bytes as `x`.
pub open spec fn i16_rep(x: i16) -> u16 {
    if x >= 0 {
        x as u16
    } else {
        (x + 65536) as u16
    }
}

/// Byte `0` of the 2-byte encoding of the signed value `x`.
pub open spec fn i16_b0(x: i16) -> u8 {
    u16_b0(i16_rep(x))
}

/// Byte `1` of the 2-byte encoding of the signed value `x`.
pub open spec fn i16_b1(x: i16) -> u8 {
    u16_b1(i16_rep(x))
}

// --- lemmas: the encoding is a bijection ---------------------------------

/// Splitting the value assembled from two bytes gives those bytes back.
pub proof fn lemma_u16_split(b0: u8, b1: u8)
    ensures
        u16_b0(u16_of(b0, b1)) == b0,
        u16_b1(u16_of(b0, b1)) == b1,
{
    assert((((b0 as u16) | ((b1 as u16) << 8)) & 0xff) as u8 == b0
        && ((((b0 as u16) | ((b1 as u16) << 8)) >> 8) & 0xff) as u8 == b1) by (bit_vector);
}

/// Reassembling the bytes of a value gives the value back.
pub proof fn lemma_u16_reassemble(x: u16)
    ensures
        u16_of(u16_b0(x), u16_b1(x)) == x,
{
    assert((((x & 0xff) as u8) as u16) | ((((x >> 8) & 0xff) as u8) as u16) << 8 == x)
        by (bit_vector);
}

pub proof fn lemma_u32_split(b0: u8, b1: u8, b2: u8, b3: u8)
    ensures
        u32_b0(u32_of(b0, b1, b2, b3)) == b0,
        u32_b1(u32_of(b0, b1, b2, b3)) == b1,
        u32_b2(u32_of(b0, b1, b2, b3)) == b2,
        u32_b3(u32_of(b0, b1, b2, b3)) == b3,
{
    let x = (b0 as u32) | ((b1 as u32) << 8) | ((b2 as u32) << 16) | ((b3 as u32) << 24);
    assert({
        let x = (b0 as u32) | ((b1 as u32) << 8) | ((b2 as u32) << 16) | ((b3 as u32) << 24);
        (x & 0xff) as u8 == b0 && ((x >> 8) & 0xff) as u8 == b1
            && ((x >> 16) & 0xff) as u8 == b2 && ((x >> 24) & 0xff) as u8 == b3
    }) by (bit_vector);
}

pub proof fn lemma_u32_reassemble(x: u32)
    ensures
        u32_of(u32_b0(x), u32_b1(x), u32_b2(x), u32_b3(x)) == x,
{
    assert((((x & 0xff) as u8) as u32) | ((((x >> 8) & 0xff) as u8) as u32) << 8
        | ((((x >> 16) & 0xff) as u8) as u32) << 16
        | ((((x >> 24) & 0xff) as u8) as u32) << 24 == x) by (bit_vector);
}

pub proof fn lemma_u64_split(b0: u8, b1: u8, b2: u8, b3: u8, b4: u8, b5: u8, b6: u8, b7: u8)
    ensures
        u64_b0(u64_of(b0, b1, b2, b3, b4, b5, b6, b7)) == b0,
        u64_b1(u64_of(b0, b1, b2, b3, b4, b5, b6, b7)) == b1,
        u64_b2(u64_of(b0, b1, b2, b3, b4, b5, b6, b7)) == b2,
        u64_b3(u64_of(b0, b1, b2, b3, b4, b5, b6, b7)) == b3,
        u64_b4(u64_of(b0, b1, b2, b3, b4, b5, b6, b7)) == b4,
        u64_b5(u64_of(b0, b1, b2, b3, b4, b5, b6, b7)) == b5,
        u64_b6(u64_of(b0, b1, b2, b3, b4, b5, b6, b7)) == b6,
        u64_b7(u64_of(b0, b1, b2, b3, b4, b5, b6, b7)) == b7,
{
    assert({
        let x = (b0 as u64) | ((b1 as u64) << 8) | ((b2 as u64) << 16) | ((b3 as u64) << 24)
            | ((b4 as u64) << 32) | ((b5 as u64) << 40) | ((b6 as u64) << 48)
            | ((b7 as u64) << 56);
        (x & 0xff) as u8 == b0 && ((x >> 8) & 0xff) as u8 == b1
            && ((x >> 16) & 0xff) as u8 == b2 && ((x >> 24) & 0xff) as u8 == b3
            && ((x >> 32) & 0xff) as u8 == b4 && ((x >> 40) & 0xff) as u8 == b5
            && ((x >> 48) & 0xff) as u8 == b6 && ((x >> 56) & 0xff) as u8 == b7
    }) by (bit_vector);
}

pub proof fn lemma_u64_reassemble(x: u64)
    ensures
        u64_of(
            u64_b0(x), u64_b1(x), u64_b2(x), u64_b3(x),
            u64_b4(x), u64_b5(x), u64_b6(x), u64_b7(x),
        ) == x,
{
    assert((((x & 0xff) as u8) as u64) | ((((x >> 8) & 0xff) as u8) as u64) << 8
        | ((((x >> 16) & 0xff) as u8) as u64) << 16
        | ((((x >> 24) & 0xff) as u8) as u64) << 24
        | ((((x >> 32) & 0xff) as u8) as u64) << 32
        | ((((x >> 40) & 0xff) as u8) as u64) << 40
        | ((((x >> 48) & 0xff) as u8) as u64) << 48
        | ((((x >> 56) & 0xff) as u8) as u64) << 56 == x) by (bit_vector);
}

/// Two signed bytes with the same encoding are the same value.
pub proof fn lemma_i8_b0_injective(x: i8, y: i8)
    requires
        i8_b0(x) == i8_b0(y),
    ensures
        x == y,
{
}

/// Two signed 16-bit values with the same representation are the same value.
pub proof fn lemma_i16_rep_injective(x: i16, y: i16)
    requires
        i16_rep(x) == i16_rep(y),
    ensures
        x == y,
{
}

// --- exec: reading fields out of a byte slice ----------------------------

/// Read the byte at `off`.
pub fn read_u8_at(b: &[u8], off: usize) -> (x: u8)
    requires
        off < b@.len(),
    ensures
        x == b@[off as int],
{
    b[off]
}

/// Read the signed byte at `off`.
pub fn read_i8_at(b: &[u8], off: usize) -> (x: i8)
    requires
        off < b@.len(),
    ensures
        i8_b0(x) == b@[off as int],
{
    let v = b[off];
    if v < 128 {
        v as i8
    } else {
        ((v as i16) - 256) as i8
    }
}

/// Read the little-endian `u16` at `off`.
pub fn read_u16_at(b: &[u8], off: usize) -> (x: u16)
    requires
        off + 2 <= b@.len(),
    ensures
        u16_b0(x) == b@[off as int],
        u16_b1(x) == b@[off + 1],
{
    let b0 = b[off];
    let b1 = b[off + 1];
    let x = (b0 as u16) | ((b1 as u16) << 8);
    proof {
        lemma_u16_split(b0, b1);
    }
    x
}

/// Read the little-endian `i16` at `off`.
pub fn read_i16_at(b: &[u8], off: usize) -> (x: i16)
    requires
        off + 2 <= b@.len(),
    ensures
        i16_b0(x) == b@[off as int],
        i16_b1(x) == b@[off + 1],
{
    let u = read_u16_at(b, off);
    let x = if u < 32768 {
        u as i16
    } else {
        ((u as i32) - 65536) as i16
    };
    proof {
        assert(i16_rep(x) == u);
    }
    x
}

/// Read the little-endian `u32` at `off`.
pub fn read_u32_at(b: &[u8], off: usize) -> (x: u32)
    requires
        off + 4 <= b@.len(),
    ensures
        u32_b0(x) == b@[off as int],
        u32_b1(x) == b@[off + 1],
        u32_b2(x) == b@[off + 2],
        u32_b3(x) == b@[off + 3],
{
    let b0 = b[off];
    let b1 = b[off + 1];
    let b2 = b[off + 2];
    let b3 = b[off + 3];
    let x = (b0 as u32) | ((b1 as u32) << 8) | ((b2 as u32) << 16) | ((b3 as u32) << 24);
    proof {
        lemma_u32_split(b0, b1, b2, b3);
    }
    x
}

/// Read the little-endian `u64` at `off`.
pub fn read_u64_at(b: &[u8], off: usize) -> (x: u64)
    requires
        off + 8 <= b@.len(),
    ensures
        u64_b0(x) == b@[off as int],
        u64_b1(x) == b@[off + 1],
        u64_b2(x) == b@[off + 2],
        u64_b3(x) == b@[off + 3],
        u64_b4(x) == b@[off + 4],
        u64_b5(x) == b@[off + 5],
        u64_b6(x) == b@[off + 6],
        u64_b7(x) == b@[off + 7],
{
    let b0 = b[off];
    let b1 = b[off + 1];
    let b2 = b[off + 2];
    let b3 = b[off + 3];
    let b4 = b[off + 4];
    let b5 = b[off + 5];
    let b6 = b[off + 6];
    let b7 = b[off + 7];
    let x = (b0 as u64) | ((b1 as u64) << 8) | ((b2 as u64) << 16) | ((b3 as u64) << 24)
        | ((b4 as u64) << 32) | ((b5 as u64) << 40) | ((b6 as u64) << 48) | ((b7 as u64) << 56);
    proof {
        lemma_u64_split(b0, b1, b2, b3, b4, b5, b6, b7);
    }
    x
}

// --- exec: appending fields to an output buffer --------------------------

/// Append the byte `x`.
pub fn write_u8(out: &mut Vec<u8>, x: u8)
    ensures
        final(out)@ == old(out)@.push(x),
{
    out.push(x);
}

/// Append the single-byte encoding of the signed value `x`.
pub fn write_i8(out: &mut Vec<u8>, x: i8)
    ensures
        final(out)@ == old(out)@.push(i8_b0(x)),
{
    let v = if x >= 0 {
        x as u8
    } else {
        ((x as i16) + 256) as u8
    };
    out.push(v);
}

/// Append the 2-byte little-endian encoding of `x`.
pub fn write_u16(out: &mut Vec<u8>, x: u16)
    ensures
        final(out)@ == old(out)@.push(u16_b0(x)).push(u16_b1(x)),
{
    proof {
        assert(x & 0xff < 256 && (x >> 8) & 0xff < 256) by (bit_vector);
    }
    out.push((x & 0xff) as u8);
    out.push(((x >> 8) & 0xff) as u8);
}

/// Append the 2-byte little-endian encoding of the signed value `x`.
pub fn write_i16(out: &mut Vec<u8>, x: i16)
    ensures
        final(out)@ == old(out)@.push(i16_b0(x)).push(i16_b1(x)),
{
    let u = if x >= 0 {
        x as u16
    } else {
        ((x as i32) + 65536) as u16
    };
    proof {
        assert(i16_rep(x) == u);
    }
    write_u16(out, u);
}

/// Append the 4-byte little-endian encoding of `x`.
pub fn write_u32(out: &mut Vec<u8>, x: u32)
    ensures
        final(out)@ == old(out)@
            .push(u32_b0(x)).push(u32_b1(x)).push(u32_b2(x)).push(u32_b3(x)),
{
    proof {
        assert(x & 0xff < 256 && (x >> 8) & 0xff < 256 && (x >> 16) & 0xff < 256
            && (x >> 24) & 0xff < 256) by (bit_vector);
    }
    out.push((x & 0xff) as u8);
    out.push(((x >> 8) & 0xff) as u8);
    out.push(((x >> 16) & 0xff) as u8);
    out.push(((x >> 24) & 0xff) as u8);
}

/// Append the 8-byte little-endian encoding of `x`.
pub fn write_u64(out: &mut Vec<u8>, x: u64)
    ensures
        final(out)@ == old(out)@
            .push(u64_b0(x)).push(u64_b1(x)).push(u64_b2(x)).push(u64_b3(x))
            .push(u64_b4(x)).push(u64_b5(x)).push(u64_b6(x)).push(u64_b7(x)),
{
    proof {
        assert(x & 0xff < 256 && (x >> 8) & 0xff < 256 && (x >> 16) & 0xff < 256
            && (x >> 24) & 0xff < 256 && (x >> 32) & 0xff < 256 && (x >> 40) & 0xff < 256
            && (x >> 48) & 0xff < 256 && (x >> 56) & 0xff < 256) by (bit_vector);
    }
    out.push((x & 0xff) as u8);
    out.push(((x >> 8) & 0xff) as u8);
    out.push(((x >> 16) & 0xff) as u8);
    out.push(((x >> 24) & 0xff) as u8);
    out.push(((x >> 32) & 0xff) as u8);
    out.push(((x >> 40) & 0xff) as u8);
    out.push(((x >> 48) & 0xff) as u8);
    out.push(((x >> 56) & 0xff) as u8);
}

// --- seq helpers shared by the packet codecs -----------------------------

/// A subrange of an unchanged prefix is unchanged.
///
/// Used when appending to an output buffer: a region that was already
/// written keeps its bytes when more bytes are appended after it.
pub proof fn lemma_subrange_of_prefix(a: Seq<u8>, b: Seq<u8>, lo: int, hi: int)
    requires
        b.len() <= a.len(),
        a.subrange(0, b.len() as int) == b,
        0 <= lo <= hi <= b.len(),
    ensures
        a.subrange(lo, hi) == b.subrange(lo, hi),
{
    assert forall|i: int| 0 <= i < hi - lo implies a.subrange(lo, hi)[i] == b.subrange(lo, hi)[i]
    by {
        assert(b[lo + i] == a.subrange(0, b.len() as int)[lo + i]);
    }
    assert(a.subrange(lo, hi) =~= b.subrange(lo, hi));
}

/// Read `n` consecutive little-endian `u32` values starting at `off`.
pub fn read_u32_vec(b: &[u8], off: usize, n: usize) -> (xs: Vec<u32>)
    requires
        off + 4 * n <= b@.len(),
    ensures
        xs@.len() == n,
        forall|k: int| 0 <= k < n ==> {
            &&& u32_b0(#[trigger] xs@[k]) == b@[off + 4 * k]
            &&& u32_b1(xs@[k]) == b@[off + 4 * k + 1]
            &&& u32_b2(xs@[k]) == b@[off + 4 * k + 2]
            &&& u32_b3(xs@[k]) == b@[off + 4 * k + 3]
        },
{
    let _len = b.len(); // the verifier learns the slice length fits in usize
    let mut xs: Vec<u32> = Vec::new();
    let mut k: usize = 0;
    while k < n
        invariant
            off + 4 * n <= b@.len(),
            b@.len() <= usize::MAX,
            k <= n,
            xs@.len() == k,
            forall|j: int| 0 <= j < k ==> {
                &&& u32_b0(#[trigger] xs@[j]) == b@[off + 4 * j]
                &&& u32_b1(xs@[j]) == b@[off + 4 * j + 1]
                &&& u32_b2(xs@[j]) == b@[off + 4 * j + 2]
                &&& u32_b3(xs@[j]) == b@[off + 4 * j + 3]
            },
        decreases n - k,
    {
        xs.push(read_u32_at(b, off + 4 * k));
        k += 1;
    }
    xs
}

/// Append the little-endian encodings of all the values in `xs`.
pub fn write_u32_vec(out: &mut Vec<u8>, xs: &Vec<u32>)
    ensures
        final(out)@.len() == old(out)@.len() + 4 * xs@.len(),
        final(out)@.subrange(0, old(out)@.len() as int) == old(out)@,
        forall|k: int| 0 <= k < xs@.len() ==> {
            &&& final(out)@[old(out)@.len() + 4 * k] == u32_b0(#[trigger] xs@[k])
            &&& final(out)@[old(out)@.len() + 4 * k + 1] == u32_b1(xs@[k])
            &&& final(out)@[old(out)@.len() + 4 * k + 2] == u32_b2(xs@[k])
            &&& final(out)@[old(out)@.len() + 4 * k + 3] == u32_b3(xs@[k])
        },
{
    let ghost start = out@;
    let ghost base: int = out@.len() as int;
    let mut k: usize = 0;
    while k < xs.len()
        invariant
            0 <= base,
            k <= xs@.len(),
            out@.len() == base + 4 * k,
            out@.subrange(0, base) == start,
            forall|j: int| 0 <= j < k ==> {
                &&& out@[base + 4 * j] == u32_b0(#[trigger] xs@[j])
                &&& out@[base + 4 * j + 1] == u32_b1(xs@[j])
                &&& out@[base + 4 * j + 2] == u32_b2(xs@[j])
                &&& out@[base + 4 * j + 3] == u32_b3(xs@[j])
            },
        decreases xs@.len() - k,
    {
        let ghost prev = out@;
        write_u32(out, xs[k]);
        proof {
            assert(out@.subrange(0, base) =~= prev.subrange(0, base));
        }
        k += 1;
    }
    proof {
        assert(out@.subrange(0, base) =~= start);
    }
}

/// An index inside an array of `n` fixed-size blocks of `rs` bytes starting
/// at `off` falls inside block `(i - off) / rs`.
pub proof fn lemma_index_in_block(off: int, rs: int, n: int, i: int)
    requires
        rs > 0,
        0 <= n,
        off <= i < off + n * rs,
    ensures
        ({
            let j = (i - off) / rs;
            0 <= j < n && off + j * rs <= i < off + (j + 1) * rs
        }),
{
    let d = i - off;
    let j = d / rs;
    assert(0 <= j && j * rs <= d < (j + 1) * rs && (d < n * rs ==> j < n))
        by (nonlinear_arith)
        requires
            rs > 0,
            0 <= d,
            j == d / rs,
    ;
}

/// Element-wise equality of two byte vectors.
pub fn eq_vec_u8(a: &Vec<u8>, b: &Vec<u8>) -> (r: bool)
    ensures
        r == (a@ == b@),
{
    if a.len() != b.len() {
        return false;
    }
    let mut i: usize = 0;
    while i < a.len()
        invariant
            a@.len() == b@.len(),
            i <= a@.len(),
            forall|j: int| 0 <= j < i ==> #[trigger] a@[j] == b@[j],
        decreases a@.len() - i,
    {
        if a[i] != b[i] {
            return false;
        }
        i += 1;
    }
    proof {
        assert(a@ =~= b@);
    }
    true
}

/// Element-wise equality of two `u16` vectors.
pub fn eq_vec_u16(a: &Vec<u16>, b: &Vec<u16>) -> (r: bool)
    ensures
        r == (a@ == b@),
{
    if a.len() != b.len() {
        return false;
    }
    let mut i: usize = 0;
    while i < a.len()
        invariant
            a@.len() == b@.len(),
            i <= a@.len(),
            forall|j: int| 0 <= j < i ==> #[trigger] a@[j] == b@[j],
        decreases a@.len() - i,
    {
        if a[i] != b[i] {
            return false;
        }
        i += 1;
    }
    proof {
        assert(a@ =~= b@);
    }
    true
}

/// Element-wise equality of two `u32` vectors.
pub fn eq_vec_u32(a: &Vec<u32>, b: &Vec<u32>) -> (r: bool)
    ensures
        r == (a@ == b@),
{
    if a.len() != b.len() {
        return false;
    }
    let mut i: usize = 0;
    while i < a.len()
        invariant
            a@.len() == b@.len(),
            i <= a@.len(),
            forall|j: int| 0 <= j < i ==> #[trigger] a@[j] == b@[j],
        decreases a@.len() - i,
    {
        if a[i] != b[i] {
            return false;
        }
        i += 1;
    }
    proof {
        assert(a@ =~= b@);
    }
    true
}

/// A subrange of a subrange, rebased to the outer sequence.
pub proof fn lemma_subrange_of_subrange(a: Seq<u8>, off: int, len: int, lo: int, hi: int)
    requires
        0 <= off,
        off + len <= a.len(),
        0 <= lo <= hi <= len,
    ensures
        a.subrange(off, off + len).subrange(lo, hi) == a.subrange(off + lo, off + hi),
{
    assert(a.subrange(off, off + len).subrange(lo, hi) =~= a.subrange(off + lo, off + hi));
}

} // verus!
