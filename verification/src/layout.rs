//! Point positions and their byte layout in a frame slot's uniform buffer.

use vstd::prelude::*;
use vstd::array::{spec_array_fill_for_copy_type, spec_array_update};

verus! {

/// Number of points in the animation.
pub const POINT_COUNT: usize = 4;

/// Bytes from the start of one point to the start of the next in the buffer.
pub const POINT_STRIDE: usize = 16;

/// Bytes of a point that carry data: two single-precision coordinates.
pub const POINT_PAYLOAD: usize = 8;

/// Size of the uniform buffer that holds all points.
pub const POSITION_BUFFER_SIZE: usize = 64;

/// A 2D position. Each coordinate is the bit pattern of an IEEE-754
/// single-precision number.
#[derive(Clone, Copy, Debug, PartialEq, Eq)]
pub struct PointPosition {
    pub x: u32,
    pub y: u32,
}

/// Bit pattern of `0.5`.
pub const HALF: u32 = 0x3f00_0000;

/// Bit pattern of `-0.5`.
pub const MINUS_HALF: u32 = 0xbf00_0000;

/// The layout that every frame is computed from: the corners of a square of
/// side one around the origin, counter-clockwise from the lower left.
pub open spec fn spec_starting_positions() -> Seq<PointPosition> {
    seq![
        PointPosition { x: MINUS_HALF, y: MINUS_HALF },
        PointPosition { x: HALF, y: MINUS_HALF },
        PointPosition { x: HALF, y: HALF },
        PointPosition { x: MINUS_HALF, y: HALF },
    ]
}

/// Byte `k` of `v` in little-endian order.
pub open spec fn le_byte(v: u32, k: int) -> u8 {
    ((v >> ((8 * k) as u32)) & 0xff) as u8
}

/// Byte `k` of one point's 16-byte element: `x` in bytes 0 to 3, `y` in bytes 4
/// to 7, both little-endian, then zero padding up to the stride.
pub open spec fn element_byte(p: PointPosition, k: int) -> u8 {
    if 0 <= k < 4 {
        le_byte(p.x, k)
    } else if 4 <= k < 8 {
        le_byte(p.y, k - 4)
    } else {
        0
    }
}

/// The buffer contents for a sequence of points: one 16-byte element per
/// point, in order.
pub open spec fn encoded_positions(points: Seq<PointPosition>) -> Seq<u8> {
    Seq::new(
        (points.len() * POINT_STRIDE) as nat,
        |i: int| element_byte(points[i / POINT_STRIDE as int], i % POINT_STRIDE as int),
    )
}

/// The 64 bytes of which the first `k` are those of `image` and the others
/// are zero.
pub open spec fn image_prefix(image: Seq<u8>, k: nat) -> [u8; 64]
    decreases k,
{
    if k == 0 {
        spec_array_fill_for_copy_type(0u8)
    } else {
        spec_array_update(image_prefix(image, (k - 1) as nat), k - 1, image[k - 1])
    }
}

/// The buffer image of four points as the 64 bytes that are written: the
/// array that holds `encoded_positions`.
pub open spec fn spec_encode_positions(points: [PointPosition; 4]) -> [u8; 64] {
    image_prefix(encoded_positions(points@), 64)
}

/// The value that four little-endian bytes stand for.
pub open spec fn le_value(b0: u8, b1: u8, b2: u8, b3: u8) -> u32 {
    (b0 as u32) | ((b1 as u32) << 8) | ((b2 as u32) << 16) | ((b3 as u32) << 24)
}

/// The point stored in element `i` of a buffer image.
pub open spec fn decoded_position(bytes: Seq<u8>, i: int) -> PointPosition {
    let base = i * POINT_STRIDE as int;
    PointPosition {
        x: le_value(bytes[base], bytes[base + 1], bytes[base + 2], bytes[base + 3]),
        y: le_value(bytes[base + 4], bytes[base + 5], bytes[base + 6], bytes[base + 7]),
    }
}

/// The fixed starting layout.
pub fn starting_positions() -> (points: [PointPosition; 4])
    ensures
        points@ == spec_starting_positions(),
{
    let points = [
        PointPosition { x: MINUS_HALF, y: MINUS_HALF },
        PointPosition { x: HALF, y: MINUS_HALF },
        PointPosition { x: HALF, y: HALF },
        PointPosition { x: MINUS_HALF, y: HALF },
    ];
    points
}

/// The four little-endian bytes of `v`.
fn le_bytes(v: u32) -> (b: (u8, u8, u8, u8))
    ensures
        b.0 == le_byte(v, 0),
        b.1 == le_byte(v, 1),
        b.2 == le_byte(v, 2),
        b.3 == le_byte(v, 3),
{
    assert(v & 0xff == (v >> 0u32) & 0xff) by (bit_vector);
    assert((v >> 0u32) & 0xff < 256 && (v >> 8u32) & 0xff < 256 && (v >> 16u32) & 0xff < 256 && (v
        >> 24u32) & 0xff < 256) by (bit_vector);
    (
        (v & 0xff) as u8,
        ((v >> 8) & 0xff) as u8,
        ((v >> 16) & 0xff) as u8,
        ((v >> 24) & 0xff) as u8,
    )
}

/// Serialises the points for the uniform buffer: 64 bytes, 16 per point.
pub fn encode_positions(points: &[PointPosition; 4]) -> (bytes: [u8; 64])
    ensures
        bytes@ == encoded_positions(points@),
        bytes == spec_encode_positions(*points),
{
    let mut bytes: [u8; 64] = [0u8; 64];
    let mut i: usize = 0;
    while i < 4
        invariant
            0 <= i <= 4,
            forall|j: int| 0 <= j < 16 * i ==> bytes@[j] == element_byte(points@[j / 16], j % 16),
            forall|j: int| 16 * i <= j < 64 ==> bytes@[j] == 0,
        decreases 4 - i,
    {
        let p = points[i];
        let x = le_bytes(p.x);
        let y = le_bytes(p.y);
        let base: usize = i * 16;
        bytes[base] = x.0;
        bytes[base + 1] = x.1;
        bytes[base + 2] = x.2;
        bytes[base + 3] = x.3;
        bytes[base + 4] = y.0;
        bytes[base + 5] = y.1;
        bytes[base + 6] = y.2;
        bytes[base + 7] = y.3;
        i = i + 1;
    }
    proof {
        assert(bytes@ =~= encoded_positions(points@));
        lemma_encode_positions(*points);
        assert(bytes =~= spec_encode_positions(*points));
    }
    bytes
}

/// The first `k` bytes of a prefix are those of the image, the others zero.
proof fn lemma_image_prefix(image: Seq<u8>, k: nat)
    requires
        k <= 64,
        image.len() == 64,
    ensures
        forall|i: int| 0 <= i < k ==> image_prefix(image, k)@[i] == image[i],
        forall|i: int| k <= i < 64 ==> image_prefix(image, k)@[i] == 0,
    decreases k,
{
    if k == 0 {
        vstd::array::axiom_spec_array_fill_for_copy_type::<u8, 64>(0u8);
    } else {
        let shorter = image_prefix(image, (k - 1) as nat);
        lemma_image_prefix(image, (k - 1) as nat);
        vstd::array::axiom_spec_array_update(shorter, k - 1, image[k - 1]);
    }
}

/// The bytes that are written are the encoded points, byte for byte.
pub proof fn lemma_encode_positions(points: [PointPosition; 4])
    ensures
        spec_encode_positions(points)@ == encoded_positions(points@),
{
    lemma_image_prefix(encoded_positions(points@), 64);
    assert(spec_encode_positions(points)@ =~= encoded_positions(points@));
}

/// Reading a buffer image back gives the points that were written: the layout
/// loses nothing.
pub proof fn lemma_encoding_round_trip(points: Seq<PointPosition>, i: int)
    requires
        0 <= i < points.len(),
    ensures
        decoded_position(encoded_positions(points), i) == points[i],
{
    let bytes = encoded_positions(points);
    let p = points[i];
    let base = i * 16;
    assert forall|k: int| 0 <= k < 16 implies #[trigger] bytes[base + k] == element_byte(p, k) by {
        assert((base + k) / 16 == i && (base + k) % 16 == k);
    }
    lemma_le_round_trip(p.x);
    lemma_le_round_trip(p.y);
}

/// Four little-endian bytes put together give the value back.
pub proof fn lemma_le_round_trip(v: u32)
    ensures
        le_value(le_byte(v, 0), le_byte(v, 1), le_byte(v, 2), le_byte(v, 3)) == v,
{
    assert(((((v >> 0u32) & 0xff) as u8) as u32) | (((((v >> 8u32) & 0xff) as u8) as u32) << 8) | (((((v
        >> 16u32) & 0xff) as u8) as u32) << 16) | (((((v >> 24u32) & 0xff) as u8) as u32) << 24)
        == v) by (bit_vector);
}

} // verus!
