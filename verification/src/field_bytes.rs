//! Big-endian byte encodings of 64-bit words and of base-field representations.
//!
//! A base-field element is carried as its canonical representation: four
//! 64-bit limbs, least significant limb first. Its byte encoding writes the
//! limbs from the most significant one down, each as eight big-endian bytes,
//! so the 32 bytes are the big-endian encoding of the whole 256-bit integer.
use vstd::prelude::*;

verus! {

/// Canonical representation of a base-field element: four limbs, least
/// significant first.
#[derive(Clone, Copy, Debug, PartialEq, Eq)]
pub struct FieldRepr {
    pub limbs: [u64; 4],
}

/// An affine point given by the canonical representations of its coordinates.
#[derive(Clone, Copy, Debug, PartialEq, Eq)]
pub struct G1Coordinates {
    pub x: FieldRepr,
    pub y: FieldRepr,
}

/// The eight big-endian bytes of a 64-bit word.
pub open spec fn u64_be_bytes(w: u64) -> Seq<u8> {
    seq![
        (w >> 56u64) as u8,
        (w >> 48u64) as u8,
        (w >> 40u64) as u8,
        (w >> 32u64) as u8,
        (w >> 24u64) as u8,
        (w >> 16u64) as u8,
        (w >> 8u64) as u8,
        w as u8,
    ]
}

/// The word whose big-endian bytes are the first eight entries of `b`.
pub open spec fn u64_from_be_bytes(b: Seq<u8>) -> u64 {
    ((b[0] as u64) << 56u64) | ((b[1] as u64) << 48u64) | ((b[2] as u64) << 40u64) | ((
    b[3] as u64) << 32u64) | ((b[4] as u64) << 24u64) | ((b[5] as u64) << 16u64) | ((
    b[6] as u64) << 8u64) | (b[7] as u64)
}

/// The 32 big-endian bytes of a field representation: the most significant
/// limb first.
pub open spec fn repr_be_bytes(r: FieldRepr) -> Seq<u8> {
    u64_be_bytes(r.limbs[3]) + u64_be_bytes(r.limbs[2]) + u64_be_bytes(r.limbs[1])
        + u64_be_bytes(r.limbs[0])
}

/// The 64 bytes of a point: its x coordinate, then its y coordinate.
pub open spec fn point_be_bytes(p: G1Coordinates) -> Seq<u8> {
    repr_be_bytes(p.x) + repr_be_bytes(p.y)
}

/// The bytes of a list of points, in list order.
pub open spec fn points_be_bytes(s: Seq<G1Coordinates>) -> Seq<u8>
    decreases s.len(),
{
    if s.len() == 0 {
        Seq::<u8>::empty()
    } else {
        points_be_bytes(s.drop_last()) + point_be_bytes(s.last())
    }
}

/// The representation of the zero element.
pub open spec fn zero_repr() -> FieldRepr {
    FieldRepr { limbs: [0u64, 0u64, 0u64, 0u64] }
}

/// Decoding the big-endian bytes of a word gives the word back.
pub proof fn lemma_u64_be_bytes_roundtrip(w: u64)
    ensures
        u64_be_bytes(w).len() == 8,
        u64_from_be_bytes(u64_be_bytes(w)) == w,
{
    let b0 = (w >> 56u64) as u8;
    let b1 = (w >> 48u64) as u8;
    let b2 = (w >> 40u64) as u8;
    let b3 = (w >> 32u64) as u8;
    let b4 = (w >> 24u64) as u8;
    let b5 = (w >> 16u64) as u8;
    let b6 = (w >> 8u64) as u8;
    let b7 = w as u8;
    assert(((b0 as u64) << 56u64) | ((b1 as u64) << 48u64) | ((b2 as u64) << 40u64) | ((
    b3 as u64) << 32u64) | ((b4 as u64) << 24u64) | ((b5 as u64) << 16u64) | ((b6 as u64)
        << 8u64) | (b7 as u64) == w) by (bit_vector)
        requires
            b0 == (w >> 56u64) as u8,
            b1 == (w >> 48u64) as u8,
            b2 == (w >> 40u64) as u8,
            b3 == (w >> 32u64) as u8,
            b4 == (w >> 24u64) as u8,
            b5 == (w >> 16u64) as u8,
            b6 == (w >> 8u64) as u8,
            b7 == w as u8,
    ;
    let s = u64_be_bytes(w);
    assert(s[0] == b0 && s[1] == b1 && s[2] == b2 && s[3] == b3);
    assert(s[4] == b4 && s[5] == b5 && s[6] == b6 && s[7] == b7);
}

/// Two words with the same big-endian bytes are equal.
pub proof fn lemma_u64_be_bytes_injective(a: u64, b: u64)
    requires
        u64_be_bytes(a) == u64_be_bytes(b),
    ensures
        a == b,
{
    lemma_u64_be_bytes_roundtrip(a);
    lemma_u64_be_bytes_roundtrip(b);
}

/// A field representation is encoded in exactly 32 bytes.
pub proof fn lemma_repr_be_bytes_len(r: FieldRepr)
    ensures
        repr_be_bytes(r).len() == 32,
{
}

/// Two field representations with the same bytes are equal.
pub proof fn lemma_repr_be_bytes_injective(r1: FieldRepr, r2: FieldRepr)
    requires
        repr_be_bytes(r1) == repr_be_bytes(r2),
    ensures
        r1 == r2,
{
    let b1 = repr_be_bytes(r1);
    let b2 = repr_be_bytes(r2);
    assert(b1.subrange(0, 8) =~= u64_be_bytes(r1.limbs[3]));
    assert(b2.subrange(0, 8) =~= u64_be_bytes(r2.limbs[3]));
    lemma_u64_be_bytes_injective(r1.limbs[3], r2.limbs[3]);
    assert(b1.subrange(8, 16) =~= u64_be_bytes(r1.limbs[2]));
    assert(b2.subrange(8, 16) =~= u64_be_bytes(r2.limbs[2]));
    lemma_u64_be_bytes_injective(r1.limbs[2], r2.limbs[2]);
    assert(b1.subrange(16, 24) =~= u64_be_bytes(r1.limbs[1]));
    assert(b2.subrange(16, 24) =~= u64_be_bytes(r2.limbs[1]));
    lemma_u64_be_bytes_injective(r1.limbs[1], r2.limbs[1]);
    assert(b1.subrange(24, 32) =~= u64_be_bytes(r1.limbs[0]));
    assert(b2.subrange(24, 32) =~= u64_be_bytes(r2.limbs[0]));
    lemma_u64_be_bytes_injective(r1.limbs[0], r2.limbs[0]);
    assert(r1.limbs =~= r2.limbs);
}

/// A point is encoded in exactly 64 bytes.
pub proof fn lemma_point_be_bytes_len(p: G1Coordinates)
    ensures
        point_be_bytes(p).len() == 64,
{
}

/// Two points with the same bytes are equal.
pub proof fn lemma_point_be_bytes_injective(p1: G1Coordinates, p2: G1Coordinates)
    requires
        point_be_bytes(p1) == point_be_bytes(p2),
    ensures
        p1 == p2,
{
    let b1 = point_be_bytes(p1);
    let b2 = point_be_bytes(p2);
    assert(b1.subrange(0, 32) =~= repr_be_bytes(p1.x));
    assert(b2.subrange(0, 32) =~= repr_be_bytes(p2.x));
    assert(b1.subrange(32, 64) =~= repr_be_bytes(p1.y));
    assert(b2.subrange(32, 64) =~= repr_be_bytes(p2.y));
    lemma_repr_be_bytes_injective(p1.x, p2.x);
    lemma_repr_be_bytes_injective(p1.y, p2.y);
}

/// A list of points is encoded in 64 bytes per point, and the `i`-th block of
/// 64 bytes is the encoding of the `i`-th point.
pub proof fn lemma_points_be_bytes_blocks(s: Seq<G1Coordinates>)
    ensures
        points_be_bytes(s).len() == 64 * s.len(),
        forall|i: int|
            0 <= i < s.len() ==> #[trigger] points_be_bytes(s).subrange(64 * i, 64 * i + 64)
                == point_be_bytes(s[i]),
    decreases s.len(),
{
    if s.len() > 0 {
        let init = s.drop_last();
        lemma_points_be_bytes_blocks(init);
        let b = points_be_bytes(s);
        assert forall|i: int| 0 <= i < s.len() implies #[trigger] b.subrange(64 * i, 64 * i + 64)
            == point_be_bytes(s[i]) by {
            if i < s.len() - 1 {
                assert(b.subrange(64 * i, 64 * i + 64) =~= points_be_bytes(init).subrange(
                    64 * i,
                    64 * i + 64,
                ));
            } else {
                assert(b.subrange(64 * i, 64 * i + 64) =~= point_be_bytes(s.last()));
            }
        }
    }
}

/// Two lists of points of the same length with the same bytes are equal.
pub proof fn lemma_points_be_bytes_injective(s1: Seq<G1Coordinates>, s2: Seq<G1Coordinates>)
    requires
        s1.len() == s2.len(),
        points_be_bytes(s1) == points_be_bytes(s2),
    ensures
        s1 == s2,
{
    lemma_points_be_bytes_blocks(s1);
    lemma_points_be_bytes_blocks(s2);
    assert forall|i: int| 0 <= i < s1.len() implies s1[i] == s2[i] by {
        assert(points_be_bytes(s1).subrange(64 * i, 64 * i + 64) == point_be_bytes(s1[i]));
        assert(points_be_bytes(s2).subrange(64 * i, 64 * i + 64) == point_be_bytes(s2[i]));
        lemma_point_be_bytes_injective(s1[i], s2[i]);
    }
    assert(s1 =~= s2);
}

/// Appends the eight big-endian bytes of `w` to `out`.
pub fn write_u64_be(out: &mut Vec<u8>, w: u64)
    ensures
        final(out)@ == old(out)@ + u64_be_bytes(w),
{
    out.push((w >> 56u64) as u8);
    out.push((w >> 48u64) as u8);
    out.push((w >> 40u64) as u8);
    out.push((w >> 32u64) as u8);
    out.push((w >> 24u64) as u8);
    out.push((w >> 16u64) as u8);
    out.push((w >> 8u64) as u8);
    out.push(w as u8);
    assert(out@ =~= old(out)@ + u64_be_bytes(w));
}

impl FieldRepr {
    /// The representation of the zero element (the default element of the field).
    pub fn zero() -> (r: FieldRepr)
        ensures
            r == zero_repr(),
    {
        FieldRepr { limbs: [0u64, 0u64, 0u64, 0u64] }
    }

    /// Appends the 32 big-endian bytes of this representation to `out`,
    /// most significant limb first.
    pub fn write_be(&self, out: &mut Vec<u8>)
        ensures
            final(out)@ == old(out)@ + repr_be_bytes(*self),
    {
        write_u64_be(out, self.limbs[3]);
        write_u64_be(out, self.limbs[2]);
        write_u64_be(out, self.limbs[1]);
        write_u64_be(out, self.limbs[0]);
        assert(out@ =~= old(out)@ + repr_be_bytes(*self));
    }
}

impl G1Coordinates {
    /// Appends the bytes of the x coordinate, then those of the y coordinate.
    pub fn write_be(&self, out: &mut Vec<u8>)
        ensures
            final(out)@ == old(out)@ + point_be_bytes(*self),
    {
        self.x.write_be(out);
        self.y.write_be(out);
        assert(out@ =~= old(out)@ + point_be_bytes(*self));
    }
}

/// Appends the bytes of every point of `points`, in order.
pub fn write_points_be(out: &mut Vec<u8>, points: &Vec<G1Coordinates>)
    ensures
        final(out)@ == old(out)@ + points_be_bytes(points@),
{
    let ghost start = out@;
    let n = points.len();
    let mut i: usize = 0;
    while i < n
        invariant
            n == points@.len(),
            i <= n,
            out@ == start + points_be_bytes(points@.take(i as int)),
        decreases n - i,
    {
        let ghost before = out@;
        points[i].write_be(out);
        proof {
            let t = points@.take(i + 1);
            assert(t.drop_last() =~= points@.take(i as int));
            assert(t.last() == points@[i as int]);
            assert(out@ =~= start + points_be_bytes(t));
        }
        i = i + 1;
    }
    assert(points@.take(n as int) =~= points@);
}

} // verus!
