//! The boundary to the font codec: the `fonttools` crate's `Font` type and
//! the `otspec` serialization layer it is built on.
//!
//! Everything the library believes about the codec is stated here, on a
//! handful of functions whose bodies only make the outside call.  The
//! contracts speak of two named quantities that the codec computes: the
//! table map a buffer decodes to, and the size a table map encodes to.

use vstd::prelude::*;

use crate::model::{head_tag, same_shape, tables_agree_mod_head, TableMap};
use crate::sfnt::{spec_decode_safe, spec_decodes, spec_font_parses};
use fonttools::font::Font;
use fonttools::font::Table;

verus! {

#[verifier::external_type_specification]
#[verifier::external_body]
pub struct ExFont(Font);

/// The tables of a decodable font buffer, as the codec's decoder reads
/// them: each directory record's tag mapped to the raw bytes the record
/// points at (on a duplicated tag, the record at the highest offset wins).
pub uninterp spec fn decoded_tables(b: Seq<u8>) -> TableMap;

/// The contents of a `Font`'s table collection: each table's 4-byte tag
/// mapped to the raw bytes that table serializes to.
pub uninterp spec fn font_tables(f: Font) -> TableMap;

/// A `Font` all of whose tables still sit in raw binary form, exactly as
/// the decoder left them.  Such a font re-encodes without the codec
/// re-serializing any table's content.
pub uninterp spec fn raw_font(f: Font) -> bool;

/// The length in bytes of the buffer the codec encodes a font with the
/// given tables to: a 12-byte header, one 16-byte directory record per
/// table, and each table's content padded to a multiple of four bytes.
pub uninterp spec fn encoded_size(m: TableMap) -> nat;

/// Relies on `otspec::de::from_bytes::<Font>`, the codec's decoder.  It
/// errors out unless the buffer opens with a known sfnt version and holds
/// the whole table directory; otherwise it slices each table's bytes out
/// of the buffer and stores them raw.  It stays inside the buffer only on
/// inputs whose directory records are bounded, hence the requires.
#[verifier::external_body]
pub(crate) fn decode_font(source: &[u8]) -> (r: Option<Font>)
    requires
        spec_decode_safe(source@),
    ensures
        r is Some <==> spec_font_parses(source@),
        r matches Some(f) ==> {
            &&& raw_font(f)
            &&& font_tables(f) == decoded_tables(source@)
            &&& decoded_tables(source@).dom().finite()
        },
{
    match otspec::de::from_bytes::<Font>(source) {
        Ok(f) => Some(f),
        Err(_) => None,
    }
}

/// Relies on `BTreeMap::insert` on `Font::tables`, handing the payload in
/// as a raw table: insert-or-overwrite under the 4-byte tag, no other
/// table touched.
#[verifier::external_body]
pub(crate) fn insert_raw_table(font: &mut Font, tag: [u8; 4], data: &[u8])
    requires
        raw_font(*old(font)),
    ensures
        raw_font(*final(font)),
        font_tables(*final(font)) == font_tables(*old(font)).insert(tag@, data@),
{
    font.tables.insert(tag, Table::Unknown(data.to_vec()));
}

/// Relies on `BTreeMap::len` on `Font::tables`: the number of tables the
/// font holds.
#[verifier::external_body]
pub(crate) fn table_count(font: &Font) -> (r: usize)
    requires
        font_tables(*font).dom().finite(),
    ensures
        r == font_tables(*font).dom().len(),
{
    font.tables.len()
}

/// Relies on `BTreeMap::get` on `Font::tables`: looks the tag up and hands
/// back a copy of the raw table's bytes.  On a font whose tables are all
/// raw, every table present is a raw one, so a present tag never comes
/// back empty-handed.
#[verifier::external_body]
pub(crate) fn raw_table_bytes(font: &Font, tag: [u8; 4]) -> (r: Option<Vec<u8>>)
    requires
        raw_font(*font),
    ensures
        r is Some <==> font_tables(*font).dom().contains(tag@),
        r matches Some(v) ==> v@ == font_tables(*font)[tag@],
{
    match font.tables.get(&tag) {
        Some(Table::Unknown(v)) => Some(v.clone()),
        Some(_) => None,
        None => None,
    }
}

/// Relies on `otspec::ser::to_bytes::<Font>`, the codec's encoder.  On a
/// font of raw tables it writes the 12-byte header, one directory record
/// per table and each table's bytes verbatim (padded to four), recomputing
/// the record checksums and the `head` table's checksum-adjustment field
/// (bytes 8..12); serializing a raw table cannot fail.  The requires keep
/// out the inputs on which the encoder's arithmetic would overflow: its
/// 16-bit search fields underflow on a font with no tables at all and
/// stop carrying somewhat above four thousand tables, and the `head`
/// rewrite indexes bytes 8..12.  The directory's offset and length fields
/// are 32 bits wide, so the output decodes back to the font's tables only
/// while its length fits those fields.  The output's length is the
/// 12-byte header, 16 bytes of directory per table and each table's bytes
/// padded to four, so it is one and the same for any tables of the same
/// names and lengths.
#[verifier::external_body]
pub(crate) fn encode_font(font: &Font) -> (r: Vec<u8>)
    requires
        raw_font(*font),
        font_tables(*font).dom().finite(),
        1 <= font_tables(*font).dom().len() <= 4095,
        font_tables(*font).dom().contains(head_tag()) ==> font_tables(*font)[head_tag()].len()
            >= 12,
    ensures
        r@.len() == encoded_size(font_tables(*font)),
        r@.len() >= 12,
        forall|m: TableMap| #[trigger] same_shape(m, font_tables(*font)) ==> encoded_size(m)
            == r@.len(),
        r@.len() <= 0xFFFF_FFFF ==> {
            &&& spec_decodes(r@)
            &&& decoded_tables(r@).dom().finite()
            &&& tables_agree_mod_head(decoded_tables(r@), font_tables(*font))
        },
{
    match otspec::ser::to_bytes(font) {
        Ok(v) => v,
        Err(_) => Vec::new(),
    }
}

} // verus!
