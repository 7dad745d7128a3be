//! The table injector: decode a font buffer, install one raw color table,
//! re-encode.

use vstd::prelude::*;

use crate::codec::{
    decode_font, decoded_tables, encode_font, encoded_size, insert_raw_table, raw_table_bytes,
    table_count,
};
use crate::model::{
    colr_tag, cpal_tag, head_like, head_tag, inject_model, lemma_agree_implies_same_shape,
    lemma_agree_preserved_by_inject, recognized, tables_agree_mod_head, TableMap,
};
use crate::sfnt::{directory_ok, spec_decodes};

verus! {

/// The most tables a font may hold for the codec to re-encode it; beyond
/// this the encoder's 16-bit directory search fields overflow.
pub const MAX_TABLES: usize = 4095;

/// Why an injection returned no font.
#[derive(Clone, Copy, Debug, PartialEq, Eq, Structural)]
pub enum InjectError {
    /// The input buffer is not a decodable sfnt font.
    DecodeFailed,
    /// The resulting font runs into a limit of the codec's binary format:
    /// a `head` table shorter than its checksum-adjustment field, no
    /// tables at all or more of them than the encoder's directory fields
    /// carry, or an encoded length beyond the directory's 32-bit offsets.
    EncodeFailed,
}

/// The codec cannot faithfully re-encode a font with these tables.
pub open spec fn spec_encode_blocked(m: TableMap) -> bool {
    ||| m.dom().contains(head_tag()) && m[head_tag()].len() < 12
    ||| m.dom().len() == 0
    ||| m.dom().len() > MAX_TABLES
    ||| encoded_size(m) > 0xFFFF_FFFF
}

/// Decodes `source`, installs `payload` verbatim under `tag` if `tag` is
/// exactly `"CPAL"` or `"COLR"` (any other tag changes nothing), and
/// re-encodes the font.  The output decodes to the injected tables,
/// content-identical but for the `head` checksum-adjustment field the
/// codec recomputes.
pub fn inject(source: &[u8], tag: &str, payload: &[u8]) -> (r: Result<Vec<u8>, InjectError>)
    ensures
        (r == Err::<Vec<u8>, InjectError>(InjectError::DecodeFailed)) <==> !spec_decodes(source@),
        spec_decodes(source@) ==> ((r == Err::<Vec<u8>, InjectError>(InjectError::EncodeFailed))
            <==> spec_encode_blocked(inject_model(decoded_tables(source@), tag@, payload@))),
        r matches Ok(out) ==> {
            let injected = inject_model(decoded_tables(source@), tag@, payload@);
            &&& spec_decodes(source@)
            &&& !spec_encode_blocked(injected)
            &&& 12 <= out@.len() <= 0xFFFF_FFFF
            &&& spec_decodes(out@)
            &&& decoded_tables(out@).dom().finite()
            &&& tables_agree_mod_head(decoded_tables(out@), injected)
            &&& ({
                let re = inject_model(decoded_tables(out@), tag@, payload@);
                &&& !spec_encode_blocked(re)
                &&& tables_agree_mod_head(re, injected)
            })
        },
{
    if !directory_ok(source) {
        return Err(InjectError::DecodeFailed);
    }
    match decode_font(source) {
        None => Err(InjectError::DecodeFailed),
        Some(mut font) => {
            let ghost source_tables: TableMap = decoded_tables(source@);
            let tag_owned = tag.to_owned();
            let is_cpal = tag_owned == "CPAL".to_owned();
            let is_colr = !is_cpal && tag_owned == "COLR".to_owned();
            if is_cpal {
                let t: [u8; 4] = [0x43, 0x50, 0x41, 0x4C];
                proof {
                    assert(t@ =~= cpal_tag());
                }
                insert_raw_table(&mut font, t, payload);
            } else if is_colr {
                let t: [u8; 4] = [0x43, 0x4F, 0x4C, 0x52];
                proof {
                    assert(t@ =~= colr_tag());
                }
                insert_raw_table(&mut font, t, payload);
            }
            let ghost injected: TableMap = inject_model(source_tables, tag@, payload@);
            proof {
                assert(crate::codec::font_tables(font) == injected);
            }
            let head_t: [u8; 4] = [0x68, 0x65, 0x61, 0x64];
            proof {
                assert(head_t@ =~= head_tag());
                assert(cpal_tag()[0] == 0x43u8 && colr_tag()[0] == 0x43u8 && head_tag()[0]
                    == 0x68u8);
            }
            match raw_table_bytes(&font, head_t) {
                Some(h) => {
                    if h.len() < 12 {
                        return Err(InjectError::EncodeFailed);
                    }
                },
                None => {},
            }
            let count = table_count(&font);
            if count == 0 || count > MAX_TABLES {
                return Err(InjectError::EncodeFailed);
            }
            let out = encode_font(&font);
            if out.len() > 0xFFFF_FFFF {
                return Err(InjectError::EncodeFailed);
            }
            proof {
                let mid = decoded_tables(out@);
                let re = inject_model(mid, tag@, payload@);
                lemma_agree_implies_same_shape(mid, injected);
                if recognized(tag@) {
                    lemma_agree_preserved_by_inject(mid, injected, tag@, payload@);
                    assert(inject_model(injected, tag@, payload@) =~= injected);
                    assert(tables_agree_mod_head(re, injected));
                }
                lemma_agree_implies_same_shape(re, injected);
                assert(encoded_size(re) == out@.len());
                if re.dom().contains(head_tag()) {
                    assert(injected.dom().contains(head_tag()));
                    assert(head_like(re[head_tag()], injected[head_tag()]));
                }
                assert(!spec_encode_blocked(re));
            }
            Ok(out)
        },
    }
}

/// The host-facing entry point: like `inject`, but with every failure
/// collapsed into the single sentinel the embedding expects — an empty
/// buffer.  A non-empty result is always a decodable font.
pub fn add_table(left: &[u8], tag: String, right: &[u8]) -> (r: Vec<u8>)
    ensures
        (r@.len() != 0) <==> (spec_decodes(left@) && !spec_encode_blocked(
            inject_model(decoded_tables(left@), tag@, right@),
        )),
        r@.len() != 0 ==> {
            let injected = inject_model(decoded_tables(left@), tag@, right@);
            &&& 12 <= r@.len() <= 0xFFFF_FFFF
            &&& spec_decodes(r@)
            &&& decoded_tables(r@).dom().finite()
            &&& tables_agree_mod_head(decoded_tables(r@), injected)
            &&& ({
                let re = inject_model(decoded_tables(r@), tag@, right@);
                &&& !spec_encode_blocked(re)
                &&& tables_agree_mod_head(re, injected)
            })
        },
{
    match inject(left, tag.as_str(), right) {
        Ok(out) => out,
        Err(InjectError::DecodeFailed) => Vec::new(),
        Err(InjectError::EncodeFailed) => Vec::new(),
    }
}

/// Reads one table's raw content out of a font buffer: decodes the buffer
/// and looks the 4-byte tag up.
pub fn table_bytes(source: &[u8], tag: [u8; 4]) -> (r: Option<Vec<u8>>)
    ensures
        (r is Some) <==> (spec_decodes(source@) && decoded_tables(source@).dom().contains(tag@)),
        r matches Some(v) ==> v@ == decoded_tables(source@)[tag@],
{
    if !directory_ok(source) {
        return None;
    }
    match decode_font(source) {
        None => None,
        Some(font) => raw_table_bytes(&font, tag),
    }
}

} // verus!
