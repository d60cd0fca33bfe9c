//! The site record and its binary buffer contract.
//!
//! The fragment shader reads the site array from a device buffer as tightly
//! packed 16-byte records: two coordinate words followed by two padding
//! words, each of four bytes, little endian. The padding words exist only to
//! satisfy the device's element-stride and alignment rules; they carry no
//! meaning and are always encoded as zero. Coordinates are carried here as
//! the raw bit patterns of their single-precision encoding, which lets the
//! byte image of a snapshot be stated and proved exactly.

use vstd::prelude::*;

verus! {

/// Size in bytes of one encoded site record: four words of four bytes each.
pub const SITE_BYTES: usize = 16;

/// Bit pattern of the value one in the single-precision encoding. In that
/// encoding every word at or below this value encodes a number in the closed
/// unit interval, and every word above it encodes a number outside it, a
/// negative zero, an infinity, or a not-a-number pattern (all of which have
/// a set sign bit or a larger exponent field).
pub const UNIT_ONE_BITS: u32 = 0x3F80_0000;

/// One Voronoi site: a two-dimensional position, each coordinate held as
/// the raw bit pattern of its single-precision encoding.
#[derive(Clone, Copy, PartialEq, Eq, Structural, Debug)]
pub struct Site {
    /// Bit pattern of the horizontal coordinate.
    pub x_bits: u32,
    /// Bit pattern of the vertical coordinate.
    pub y_bits: u32,
}

/// The coordinate word encodes a value in the closed unit interval.
pub open spec fn coord_in_unit(bits: u32) -> bool {
    bits <= UNIT_ONE_BITS
}

/// Both coordinates of the site lie in the closed unit interval.
pub open spec fn site_in_unit(s: Site) -> bool {
    coord_in_unit(s.x_bits) && coord_in_unit(s.y_bits)
}

/// The four little-endian bytes of a 32-bit word.
pub open spec fn u32_le_bytes(x: u32) -> Seq<u8> {
    seq![
        (x % 256) as u8,
        ((x / 256) % 256) as u8,
        ((x / 65536) % 256) as u8,
        ((x / 16777216) % 256) as u8,
    ]
}

/// The 16-byte record of one site exactly as the device buffer holds it:
/// both coordinate words, then the two zero padding words.
pub open spec fn site_le_bytes(s: Site) -> Seq<u8> {
    u32_le_bytes(s.x_bits) + u32_le_bytes(s.y_bits) + u32_le_bytes(0) + u32_le_bytes(0)
}

/// The byte image of a whole snapshot: the records of its sites in order.
pub open spec fn snapshot_le_bytes(s: Seq<Site>) -> Seq<u8>
    decreases s.len(),
{
    if s.len() == 0 {
        Seq::empty()
    } else {
        snapshot_le_bytes(s.drop_last()) + site_le_bytes(s.last())
    }
}

/// The byte image of a snapshot holds exactly one 16-byte record per site,
/// and the record of site `i` occupies bytes `16 * i` up to `16 * (i + 1)`.
pub proof fn lemma_snapshot_le_bytes_len(s: Seq<Site>)
    ensures
        snapshot_le_bytes(s).len() == 16 * s.len(),
    decreases s.len(),
{
    if s.len() > 0 {
        lemma_snapshot_le_bytes_len(s.drop_last());
    }
}

/// The record of site `i` stands at offset `16 * i` of the snapshot image.
pub proof fn lemma_snapshot_record_at(s: Seq<Site>, i: int)
    requires
        0 <= i < s.len(),
    ensures
        snapshot_le_bytes(s).subrange(16 * i, 16 * (i + 1)) == site_le_bytes(s[i]),
    decreases s.len(),
{
    lemma_snapshot_le_bytes_len(s);
    lemma_snapshot_le_bytes_len(s.drop_last());
    if i == s.len() - 1 {
        assert(snapshot_le_bytes(s).subrange(16 * i, 16 * (i + 1)) =~= site_le_bytes(s[i]));
    } else {
        lemma_snapshot_record_at(s.drop_last(), i);
        assert(snapshot_le_bytes(s).subrange(16 * i, 16 * (i + 1)) =~= snapshot_le_bytes(
            s.drop_last(),
        ).subrange(16 * i, 16 * (i + 1)));
    }
}

/// The last eight bytes of every site record — the two padding words — are
/// zero, whatever the site holds.
pub proof fn lemma_record_padding_zero(s: Site)
    ensures
        site_le_bytes(s).len() == 16,
        forall|k: int| 8 <= k < 16 ==> site_le_bytes(s)[k] == 0,
{
}

/// The four little-endian bytes of a word determine the word.
pub proof fn lemma_u32_le_bytes_injective(x: u32, y: u32)
    requires
        u32_le_bytes(x) == u32_le_bytes(y),
    ensures
        x == y,
{
    assert(x % 256 == y % 256);
    assert((x / 256) % 256 == (y / 256) % 256);
    assert((x / 65536) % 256 == (y / 65536) % 256);
    assert((x / 16777216) % 256 == (y / 16777216) % 256);
    assert(x == y) by (bit_vector)
        requires
            x % 256 == y % 256,
            (x / 256) % 256 == (y / 256) % 256,
            (x / 65536) % 256 == (y / 65536) % 256,
            (x / 16777216) % 256 == (y / 16777216) % 256,
    ;
}

/// The 16-byte record of a site determines the site.
pub proof fn lemma_site_le_bytes_injective(a: Site, b: Site)
    requires
        site_le_bytes(a) == site_le_bytes(b),
    ensures
        a == b,
{
    assert(site_le_bytes(a).subrange(0, 4) =~= u32_le_bytes(a.x_bits));
    assert(site_le_bytes(b).subrange(0, 4) =~= u32_le_bytes(b.x_bits));
    assert(site_le_bytes(a).subrange(4, 8) =~= u32_le_bytes(a.y_bits));
    assert(site_le_bytes(b).subrange(4, 8) =~= u32_le_bytes(b.y_bits));
    lemma_u32_le_bytes_injective(a.x_bits, b.x_bits);
    lemma_u32_le_bytes_injective(a.y_bits, b.y_bits);
}

/// Two snapshots with byte-identical images hold identical sites: together
/// with the encoder's exactness, the uploaded bytes are byte-identical
/// exactly when the snapshots are equal.
pub proof fn lemma_snapshot_encoding_injective(a: Seq<Site>, b: Seq<Site>)
    requires
        snapshot_le_bytes(a) == snapshot_le_bytes(b),
    ensures
        a == b,
    decreases a.len(),
{
    lemma_snapshot_le_bytes_len(a);
    lemma_snapshot_le_bytes_len(b);
    if a.len() == 0 {
        assert(a =~= b);
    } else {
        let n = a.len() as int;
        lemma_snapshot_le_bytes_len(a.drop_last());
        lemma_snapshot_le_bytes_len(b.drop_last());
        assert(snapshot_le_bytes(a).subrange(0, 16 * (n - 1)) =~= snapshot_le_bytes(
            a.drop_last(),
        ));
        assert(snapshot_le_bytes(b).subrange(0, 16 * (n - 1)) =~= snapshot_le_bytes(
            b.drop_last(),
        ));
        assert(snapshot_le_bytes(a).subrange(16 * (n - 1), 16 * n) =~= site_le_bytes(a.last()));
        assert(snapshot_le_bytes(b).subrange(16 * (n - 1), 16 * n) =~= site_le_bytes(b.last()));
        lemma_snapshot_encoding_injective(a.drop_last(), b.drop_last());
        lemma_site_le_bytes_injective(a.last(), b.last());
        assert(a =~= b) by {
            assert forall|i: int| 0 <= i < n implies a[i] == b[i] by {
                if i < n - 1 {
                    assert(a[i] == a.drop_last()[i]);
                    assert(b[i] == b.drop_last()[i]);
                }
            }
        }
    }
}

/// Appends the four little-endian bytes of `x` to `out`.
fn push_u32_le(out: &mut Vec<u8>, x: u32)
    ensures
        final(out)@ == old(out)@ + u32_le_bytes(x),
{
    out.push((x % 256) as u8);
    out.push(((x / 256) % 256) as u8);
    out.push(((x / 65536) % 256) as u8);
    out.push(((x / 16777216) % 256) as u8);
    proof {
        assert(out@ =~= old(out)@ + u32_le_bytes(x));
    }
}

/// Produces the exact byte image of `sites` for a device buffer upload:
/// one tightly packed 16-byte little-endian record per site, padding zero.
pub fn encode_sites(sites: &Vec<Site>) -> (bytes: Vec<u8>)
    ensures
        bytes@ == snapshot_le_bytes(sites@),
        bytes@.len() == 16 * sites@.len(),
{
    let mut bytes: Vec<u8> = Vec::new();
    let mut j: usize = 0;
    while j < sites.len()
        invariant
            j <= sites@.len(),
            bytes@ == snapshot_le_bytes(sites@.take(j as int)),
            bytes@.len() == 16 * j,
        decreases sites@.len() - j,
    {
        let ghost prev = bytes@;
        let s = sites[j];
        push_u32_le(&mut bytes, s.x_bits);
        push_u32_le(&mut bytes, s.y_bits);
        push_u32_le(&mut bytes, 0);
        push_u32_le(&mut bytes, 0);
        proof {
            assert(sites@.take(j + 1).drop_last() =~= sites@.take(j as int));
            assert(sites@.take(j + 1).last() == sites@[j as int]);
            assert(bytes@ =~= prev + site_le_bytes(sites@[j as int]));
        }
        j += 1;
    }
    proof {
        assert(sites@.take(sites@.len() as int) =~= sites@);
    }
    bytes
}

} // verus!
