//! The sfnt table directory, read straight off the bytes of a font file.
//!
//! An sfnt font starts with a 12-byte header (a 32-bit version, a 16-bit
//! table count, and three search-optimization fields that readers ignore),
//! followed by one 16-byte record per table: a 4-byte tag, a checksum, the
//! table's byte offset and its byte length.  The spec functions here say
//! when such a directory is present and when every record stays inside the
//! buffer; `directory_ok` decides the latter in executable code.

use vstd::prelude::*;

verus! {

/// The sfnt version tag of a TrueType-flavoured font.
pub const SFNT_TRUETYPE: u32 = 0x0001_0000;

/// The sfnt version tag of an OpenType (CFF-flavoured) font.
pub const SFNT_OPENTYPE: u32 = 0x4F54_544F;

/// The big-endian 16-bit value stored at offset `i` of `b`.
pub open spec fn be_u16_at(b: Seq<u8>, i: int) -> nat
    recommends
        0 <= i,
        i + 2 <= b.len(),
{
    (b[i] as nat) * 0x100 + (b[i + 1] as nat)
}

/// The big-endian 32-bit value stored at offset `i` of `b`.
pub open spec fn be_u32_at(b: Seq<u8>, i: int) -> nat
    recommends
        0 <= i,
        i + 4 <= b.len(),
{
    (b[i] as nat) * 0x100_0000 + (b[i + 1] as nat) * 0x1_0000 + (b[i + 2] as nat) * 0x100 + (b[i
        + 3] as nat)
}

/// The declared number of tables of the font.
pub open spec fn spec_num_tables(b: Seq<u8>) -> nat
    recommends
        b.len() >= 12,
{
    be_u16_at(b, 4)
}

/// The font's leading version field names one of the two sfnt flavours.
pub open spec fn spec_version_ok(b: Seq<u8>) -> bool
    recommends
        b.len() >= 12,
{
    be_u32_at(b, 0) == SFNT_TRUETYPE || be_u32_at(b, 0) == SFNT_OPENTYPE
}

/// The header and the whole table directory are present and the version is
/// one of the two sfnt flavours: exactly the inputs on which the codec's
/// decoder gets past the directory.
pub open spec fn spec_font_parses(b: Seq<u8>) -> bool {
    &&& b.len() >= 12
    &&& spec_version_ok(b)
    &&& b.len() >= 12 + 16 * spec_num_tables(b)
}

/// The byte offset named by directory record `i`.
pub open spec fn spec_record_offset(b: Seq<u8>, i: int) -> nat
    recommends
        0 <= i < spec_num_tables(b),
        spec_font_parses(b),
{
    be_u32_at(b, 12 + 16 * i + 8)
}

/// The byte length named by directory record `i`.
pub open spec fn spec_record_len(b: Seq<u8>, i: int) -> nat
    recommends
        0 <= i < spec_num_tables(b),
        spec_font_parses(b),
{
    be_u32_at(b, 12 + 16 * i + 12)
}

/// Every directory record points at a byte range that lies inside the
/// buffer.
pub open spec fn spec_records_bounded(b: Seq<u8>) -> bool
    recommends
        spec_font_parses(b),
{
    forall|i: int|
        0 <= i < spec_num_tables(b) ==> #[trigger] spec_record_offset(b, i) + spec_record_len(
            b,
            i,
        ) <= b.len()
}

/// The codec's decoder can be handed `b` without running off the end of the
/// buffer: either the directory does not parse at all (the decoder then
/// reports an error before touching any table) or every record is in
/// bounds.
pub open spec fn spec_decode_safe(b: Seq<u8>) -> bool {
    spec_font_parses(b) ==> spec_records_bounded(b)
}

/// The buffer is a decodable font: the directory parses and every record
/// stays inside the buffer.
pub open spec fn spec_decodes(b: Seq<u8>) -> bool {
    spec_font_parses(b) && spec_records_bounded(b)
}

/// Reads the big-endian 16-bit value at offset `i`.
fn read_be_u16(b: &[u8], i: usize) -> (r: u16)
    requires
        i + 2 <= b@.len(),
    ensures
        r as nat == be_u16_at(b@, i as int),
{
    (b[i] as u16) * 0x100 + (b[i + 1] as u16)
}

/// Reads the big-endian 32-bit value at offset `i`.
fn read_be_u32(b: &[u8], i: usize) -> (r: u32)
    requires
        i + 4 <= b@.len(),
    ensures
        r as nat == be_u32_at(b@, i as int),
{
    (b[i] as u32) * 0x100_0000 + (b[i + 1] as u32) * 0x1_0000 + (b[i + 2] as u32) * 0x100 + (b[i
        + 3] as u32)
}

/// Decides whether the codec's decoder may safely be handed `source`:
/// returns `false` exactly when the directory parses but names a table that
/// reaches outside the buffer.
pub fn directory_ok(source: &[u8]) -> (r: bool)
    ensures
        r == spec_decode_safe(source@),
{
    if source.len() < 12 {
        return true;
    }
    let version = read_be_u32(source, 0);
    if version != SFNT_TRUETYPE && version != SFNT_OPENTYPE {
        return true;
    }
    let n = read_be_u16(source, 4) as usize;
    if source.len() < 12 + 16 * n {
        return true;
    }
    let mut i: usize = 0;
    while i < n
        invariant
            n == spec_num_tables(source@),
            spec_font_parses(source@),
            i <= n,
            forall|j: int|
                0 <= j < i ==> #[trigger] spec_record_offset(source@, j) + spec_record_len(
                    source@,
                    j,
                ) <= source@.len(),
        decreases n - i,
    {
        let off = read_be_u32(source, 12 + 16 * i + 8);
        let len = read_be_u32(source, 12 + 16 * i + 12);
        if (off as u64) + (len as u64) > (source.len() as u64) {
            proof {
                assert(spec_record_offset(source@, i as int) + spec_record_len(source@, i as int)
                    > source@.len());
            }
            return false;
        }
        i += 1;
    }
    true
}

} // verus!
