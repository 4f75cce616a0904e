//! Complex samples and the bytes that carry them in a radar packet.
//!
//! A packet's data is a run of `Complex<i32>` values laid out as the machine
//! lays them out: the real part, then the imaginary part, each a 32-bit
//! integer in the machine's byte order.

use vstd::prelude::*;

verus! {

/// The four bytes of `x` in two's complement, least significant first.
pub open spec fn le_bytes(x: i32) -> Seq<u8> {
    let u: int = if x < 0 {
        x + 0x1_0000_0000
    } else {
        x as int
    };
    seq![
        (u % 0x100) as u8,
        ((u / 0x100) % 0x100) as u8,
        ((u / 0x1_0000) % 0x100) as u8,
        (u / 0x100_0000) as u8,
    ]
}

/// The four bytes of `x` in two's complement, most significant first.
pub open spec fn be_bytes(x: i32) -> Seq<u8> {
    let b = le_bytes(x);
    seq![b[3], b[2], b[1], b[0]]
}

/// `b` are the eight bytes of the sample `re + i·im` laid out as a
/// `Complex<i32>`: both parts little-endian when `little`, both big-endian
/// otherwise.
pub open spec fn encodes_sample_in(b: Seq<u8>, re: i32, im: i32, little: bool) -> bool {
    if little {
        b == le_bytes(re) + le_bytes(im)
    } else {
        b == be_bytes(re) + be_bytes(im)
    }
}

/// The eight bytes of sample `k` in `data`.
pub open spec fn sample_chunk(data: Seq<u8>, k: int) -> Seq<u8> {
    data.subrange(8 * k, 8 * k + 8)
}

/// `data` is the run of samples whose real parts are `re` and imaginary parts
/// are `im`, one after the other, all in the one byte order `little`.
pub open spec fn encodes_samples_in(data: Seq<u8>, re: Seq<i32>, im: Seq<i32>, little: bool) -> bool {
    &&& re.len() == im.len()
    &&& data.len() == 8 * re.len()
    &&& forall|k: int| 0 <= k < re.len() ==> encodes_sample_in(#[trigger] sample_chunk(data, k), re[k], im[k], little)
}

/// The byte order of the hardware the program runs on is little-endian.
pub open spec fn native_little_endian() -> bool {
    vstd::endian::endianness() == vstd::endian::Endian::Little
}

/// `data` is the run of samples whose real parts are `re` and imaginary parts
/// are `im`, as this machine lays out a slice of `Complex<i32>`: every part of
/// every sample in the machine's own byte order, so that each sample's eight
/// bytes are `re.to_ne_bytes()` followed by `im.to_ne_bytes()`.
pub open spec fn encodes_samples(data: Seq<u8>, re: Seq<i32>, im: Seq<i32>) -> bool {
    encodes_samples_in(data, re, im, native_little_endian())
}

/// The real parts of a list of samples.
pub open spec fn real_parts(s: Seq<(i32, i32)>) -> Seq<i32> {
    s.map_values(|p: (i32, i32)| p.0)
}

/// The imaginary parts of a list of samples.
pub open spec fn imag_parts(s: Seq<(i32, i32)>) -> Seq<i32> {
    s.map_values(|p: (i32, i32)| p.1)
}

/// `bytemuck::try_cast_slice` from bytes to `Complex<i32>`, each value handed
/// out as its pair of parts: the slice's bytes read as `repr(C)` values, real
/// part first, each part in the byte order of the hardware (vstd's
/// `endianness()`). bytemuck refuses a slice whose length is not a multiple
/// of eight, and one whose address is not aligned for `i32`; which addresses
/// are aligned is up to the allocator, so the contract promises no success.
#[verifier::external_body]
fn try_cast_complex(data: &[u8]) -> (r: Option<Vec<(i32, i32)>>)
    ensures
        data@.len() % 8 != 0 ==> r is None,
        r matches Some(s) ==> encodes_samples(data@, real_parts(s@), imag_parts(s@)),
{
    match bytemuck::try_cast_slice::<u8, num_complex::Complex<i32>>(data) {
        Ok(s) => Some(s.iter().map(|c| (c.re, c.im)).collect()),
        Err(_) => None,
    }
}

/// `bytemuck::pod_collect_to_vec` from `Complex<i32>` values (given as pairs
/// of parts) to bytes: the bytes of each `repr(C)` value in turn, real part
/// first, each part in the byte order of the hardware (vstd's
/// `endianness()`).
#[verifier::external_body]
fn collect_complex_bytes(samples: &[(i32, i32)]) -> (b: Vec<u8>)
    ensures
        encodes_samples(b@, real_parts(samples@), imag_parts(samples@)),
{
    let values: Vec<num_complex::Complex<i32>> = samples.iter().map(|p| num_complex::Complex::new(p.0, p.1)).collect();
    bytemuck::pod_collect_to_vec(&values)
}

/// Packs the first `re.len()` samples, `re[k] + i·im[k]`, into packet bytes:
/// the samples as a slice of `Complex<i32>`, byte for byte.
pub fn pack_samples(re: &[i32], im: &[i32]) -> (data: Vec<u8>)
    requires
        re@.len() <= im@.len(),
    ensures
        encodes_samples(data@, re@, im@.take(re@.len() as int)),
{
    let mut pairs: Vec<(i32, i32)> = Vec::new();
    let mut i: usize = 0;
    while i < re.len()
        invariant
            i <= re@.len(),
            re@.len() <= im@.len(),
            real_parts(pairs@) == re@.take(i as int),
            imag_parts(pairs@) == im@.take(i as int),
        decreases re@.len() - i,
    {
        let ghost before = pairs@;
        pairs.push((re[i], im[i]));
        assert(real_parts(pairs@) =~= real_parts(before).push(re@[i as int]));
        assert(imag_parts(pairs@) =~= imag_parts(before).push(im@[i as int]));
        i = i + 1;
        assert(re@.take(i as int) =~= re@.take(i - 1).push(re@[i - 1]));
        assert(im@.take(i as int) =~= im@.take(i - 1).push(im@[i - 1]));
    }
    assert(re@.take(re@.len() as int) =~= re@);
    samples_to_bytes(pairs.as_slice())
}

/// Reads the samples carried by packet bytes, as the archiver does before it
/// stores them. `None` when the bytes are not a whole number of samples, or
/// are not aligned for `i32` in memory.
pub fn unpack_samples(data: &[u8]) -> (r: Option<Vec<(i32, i32)>>)
    ensures
        data@.len() % 8 != 0 ==> r is None,
        r matches Some(s) ==> encodes_samples(data@, real_parts(s@), imag_parts(s@)),
{
    try_cast_complex(data)
}

/// The packet bytes of samples, collected in one go.
pub fn samples_to_bytes(samples: &[(i32, i32)]) -> (data: Vec<u8>)
    ensures
        encodes_samples(data@, real_parts(samples@), imag_parts(samples@)),
{
    collect_complex_bytes(samples)
}

/// Different integers have different little-endian bytes.
pub proof fn lemma_le_bytes_injective(x: i32, y: i32)
    requires
        le_bytes(x) == le_bytes(y),
    ensures
        x == y,
{
    let ux: int = if x < 0 { x + 0x1_0000_0000 } else { x as int };
    let uy: int = if y < 0 { y + 0x1_0000_0000 } else { y as int };
    let a = ux as u32;
    let b = uy as u32;
    assert(a as int == ux);
    assert(b as int == uy);
    assert(le_bytes(x)[0] == le_bytes(y)[0]);
    assert(le_bytes(x)[1] == le_bytes(y)[1]);
    assert(le_bytes(x)[2] == le_bytes(y)[2]);
    assert(le_bytes(x)[3] == le_bytes(y)[3]);
    assert(a % 0x100 == b % 0x100);
    assert((a / 0x100) % 0x100 == (b / 0x100) % 0x100);
    assert((a / 0x1_0000) % 0x100 == (b / 0x1_0000) % 0x100);
    assert(a / 0x100_0000 == b / 0x100_0000);
    assert(a == b) by (bit_vector)
        requires
            a % 0x100 == b % 0x100,
            (a / 0x100) % 0x100 == (b / 0x100) % 0x100,
            (a / 0x1_0000) % 0x100 == (b / 0x1_0000) % 0x100,
            a / 0x100_0000 == b / 0x100_0000,
    ;
}

/// The eight bytes of a sample in one byte order determine the sample.
pub proof fn lemma_sample_bytes_determine_sample(b: Seq<u8>, re1: i32, im1: i32, re2: i32, im2: i32, little: bool)
    requires
        encodes_sample_in(b, re1, im1, little),
        encodes_sample_in(b, re2, im2, little),
    ensures
        re1 == re2,
        im1 == im2,
{
    let (r1, i1, r2, i2) = if little {
        (le_bytes(re1), le_bytes(im1), le_bytes(re2), le_bytes(im2))
    } else {
        (be_bytes(re1), be_bytes(im1), be_bytes(re2), be_bytes(im2))
    };
    assert(b == r1 + i1);
    assert(b == r2 + i2);
    assert(r1 =~= b.subrange(0, 4));
    assert(r2 =~= b.subrange(0, 4));
    assert(i1 =~= b.subrange(4, 8));
    assert(i2 =~= b.subrange(4, 8));
    if little {
        lemma_le_bytes_injective(re1, re2);
        lemma_le_bytes_injective(im1, im2);
    } else {
        assert(le_bytes(re1) =~= le_bytes(re2)) by {
            assert(be_bytes(re1)[0] == be_bytes(re2)[0]);
            assert(be_bytes(re1)[1] == be_bytes(re2)[1]);
            assert(be_bytes(re1)[2] == be_bytes(re2)[2]);
            assert(be_bytes(re1)[3] == be_bytes(re2)[3]);
        }
        assert(le_bytes(im1) =~= le_bytes(im2)) by {
            assert(be_bytes(im1)[0] == be_bytes(im2)[0]);
            assert(be_bytes(im1)[1] == be_bytes(im2)[1]);
            assert(be_bytes(im1)[2] == be_bytes(im2)[2]);
            assert(be_bytes(im1)[3] == be_bytes(im2)[3]);
        }
        lemma_le_bytes_injective(re1, re2);
        lemma_le_bytes_injective(im1, im2);
    }
}

/// Packet bytes determine their samples: two runs of samples laid out as
/// this machine lays them out are equal exactly when their bytes are.
pub proof fn lemma_packet_bytes_determine_samples(data: Seq<u8>, re1: Seq<i32>, im1: Seq<i32>, re2: Seq<i32>, im2: Seq<i32>)
    requires
        encodes_samples(data, re1, im1),
        encodes_samples(data, re2, im2),
    ensures
        re1 == re2,
        im1 == im2,
{
    assert forall|k: int| 0 <= k < re1.len() implies re1[k] == re2[k] && im1[k] == im2[k] by {
        lemma_sample_bytes_determine_sample(sample_chunk(data, k), re1[k], im1[k], re2[k], im2[k], native_little_endian());
    }
    assert(re1 =~= re2);
    assert(im1 =~= im2);
}

/// One layout for every packet: the same sample has the same eight bytes
/// wherever it stands, in any two packets, so every sample is laid out in the
/// machine's one byte order; on a little-endian machine those bytes are the
/// parts' little-endian bytes, on a big-endian one their big-endian bytes.
pub proof fn lemma_one_layout_for_all_packets(
    data1: Seq<u8>, re1: Seq<i32>, im1: Seq<i32>, k1: int,
    data2: Seq<u8>, re2: Seq<i32>, im2: Seq<i32>, k2: int,
)
    requires
        encodes_samples(data1, re1, im1),
        encodes_samples(data2, re2, im2),
        0 <= k1 < re1.len(),
        0 <= k2 < re2.len(),
        re1[k1] == re2[k2],
        im1[k1] == im2[k2],
    ensures
        sample_chunk(data1, k1) == sample_chunk(data2, k2),
        native_little_endian() ==> sample_chunk(data1, k1) == le_bytes(re1[k1]) + le_bytes(im1[k1]),
        !native_little_endian() ==> sample_chunk(data1, k1) == be_bytes(re1[k1]) + be_bytes(im1[k1]),
{
    assert(encodes_sample_in(sample_chunk(data1, k1), re1[k1], im1[k1], native_little_endian()));
    assert(encodes_sample_in(sample_chunk(data2, k2), re2[k2], im2[k2], native_little_endian()));
}

/// Reading packed samples back gives the samples: whenever `unpack_samples`
/// succeeds on the bytes `pack_samples(re, im)` returned, it returns the pairs
/// `(re[k], im[k])`.
pub proof fn lemma_unpack_inverts_pack(data: Seq<u8>, re: Seq<i32>, im: Seq<i32>, s: Seq<(i32, i32)>)
    requires
        encodes_samples(data, re, im),
        encodes_samples(data, real_parts(s), imag_parts(s)),
    ensures
        s.len() == re.len(),
        forall|k: int| 0 <= k < s.len() ==> #[trigger] s[k] == (re[k], im[k]),
{
    lemma_packet_bytes_determine_samples(data, re, im, real_parts(s), imag_parts(s));
    assert forall|k: int| 0 <= k < s.len() implies #[trigger] s[k] == (re[k], im[k]) by {
        assert(real_parts(s)[k] == s[k].0);
        assert(imag_parts(s)[k] == s[k].1);
    }
}

} // verus!
