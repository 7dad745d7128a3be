use fontwriter::inject::{add_table, inject, table_bytes, InjectError};

/// Builds an sfnt buffer by hand: the 12-byte header, one 16-byte
/// directory record per table, then the table contents back to back.
fn mk_font(tables: &[([u8; 4], Vec<u8>)]) -> Vec<u8> {
    let mut out: Vec<u8> = vec![];
    out.extend_from_slice(&0x00010000u32.to_be_bytes());
    out.extend_from_slice(&(tables.len() as u16).to_be_bytes());
    out.extend_from_slice(&[0u8; 6]);
    let mut offset = 12 + 16 * tables.len();
    for (tag, data) in tables {
        out.extend_from_slice(tag);
        out.extend_from_slice(&0u32.to_be_bytes());
        out.extend_from_slice(&(offset as u32).to_be_bytes());
        out.extend_from_slice(&(data.len() as u32).to_be_bytes());
        offset += data.len();
    }
    for (_, data) in tables {
        out.extend_from_slice(data);
    }
    out
}

/// A plausible 54-byte `head` table (the real one's length), with
/// distinctive bytes in the checksum-adjustment slot 8..12.
fn head_content() -> Vec<u8> {
    let mut h = vec![0u8; 54];
    h[0] = 0x00;
    h[1] = 0x01;
    h[8] = 0xAA;
    h[9] = 0xBB;
    h[10] = 0xCC;
    h[11] = 0xDD;
    h[50] = 0x00;
    h[51] = 0x02;
    h
}

fn minimal_font() -> Vec<u8> {
    mk_font(&[
        (*b"glyf", vec![1, 2, 3, 4, 5, 6, 7, 8]),
        (*b"head", head_content()),
        (*b"maxp", vec![0, 0, 0x50, 0, 0, 1]),
    ])
}

#[test]
fn injects_cpal_into_font_without_one() {
    let font = minimal_font();
    let palette = vec![9u8, 8, 7, 6, 5];
    let out = add_table(&font, "CPAL".to_string(), &palette);
    assert!(!out.is_empty());
    assert_eq!(table_bytes(&out, *b"CPAL"), Some(palette));
}

#[test]
fn overwrites_existing_cpal_completely() {
    let font = mk_font(&[
        (*b"CPAL", vec![1, 1, 1, 1, 1, 1, 1, 1, 1, 1]),
        (*b"glyf", vec![1, 2, 3]),
    ]);
    let palette = vec![2u8, 2];
    let out = add_table(&font, "CPAL".to_string(), &palette);
    assert!(!out.is_empty());
    assert_eq!(table_bytes(&out, *b"CPAL"), Some(palette));
    assert_eq!(table_bytes(&out, *b"glyf"), Some(vec![1, 2, 3]));
}

#[test]
fn idempotent_overwrite() {
    let font = minimal_font();
    let palette = vec![4u8, 4, 4, 4];
    let once = add_table(&font, "CPAL".to_string(), &palette);
    let twice = add_table(&once, "CPAL".to_string(), &palette);
    assert!(!once.is_empty());
    assert!(!twice.is_empty());
    assert_eq!(table_bytes(&twice, *b"CPAL"), Some(palette));
    assert_eq!(table_bytes(&once, *b"glyf"), table_bytes(&twice, *b"glyf"));
    assert_eq!(table_bytes(&once, *b"maxp"), table_bytes(&twice, *b"maxp"));
    assert_eq!(table_bytes(&once, *b"head"), table_bytes(&twice, *b"head"));
}

#[test]
fn unrecognized_tag_keeps_content() {
    let font = minimal_font();
    let out = add_table(&font, "GSUB".to_string(), &[0xFF, 0xEE]);
    assert!(!out.is_empty());
    // No mutation: the re-encoded font holds the same tables, and the tag
    // itself was not installed.
    assert_eq!(table_bytes(&out, *b"GSUB"), None);
    assert_eq!(table_bytes(&out, *b"glyf"), table_bytes(&font, *b"glyf"));
    assert_eq!(table_bytes(&out, *b"maxp"), table_bytes(&font, *b"maxp"));
    // The head table may differ only in the recomputed checksum-adjustment
    // field, bytes 8..12.
    let head_in = table_bytes(&font, *b"head").unwrap();
    let head_out = table_bytes(&out, *b"head").unwrap();
    assert_eq!(head_in.len(), head_out.len());
    assert_eq!(head_in[..8], head_out[..8]);
    assert_eq!(head_in[12..], head_out[12..]);
}

#[test]
fn tag_match_is_case_sensitive() {
    let font = mk_font(&[(*b"glyf", vec![1, 2, 3])]);
    let out = add_table(&font, "cpal".to_string(), &[7, 7, 7]);
    assert!(!out.is_empty());
    assert_eq!(table_bytes(&out, *b"cpal"), None);
    assert_eq!(table_bytes(&out, *b"CPAL"), None);
    assert_eq!(table_bytes(&out, *b"glyf"), Some(vec![1, 2, 3]));
}

#[test]
fn cpal_then_colr_scenario() {
    let font = minimal_font();
    let palette = vec![0u8, 1, 0, 2, 0xAB, 0xCD];
    let layers = vec![0u8, 0, 0, 9];
    let with_palette = add_table(&font, "CPAL".to_string(), &palette);
    assert!(!with_palette.is_empty());
    let with_both = add_table(&with_palette, "COLR".to_string(), &layers);
    assert!(!with_both.is_empty());
    assert_eq!(table_bytes(&with_both, *b"CPAL"), Some(palette));
    assert_eq!(table_bytes(&with_both, *b"COLR"), Some(layers));
    assert_eq!(table_bytes(&with_both, *b"glyf"), table_bytes(&font, *b"glyf"));
    assert_eq!(table_bytes(&with_both, *b"maxp"), table_bytes(&font, *b"maxp"));
    let head_in = table_bytes(&font, *b"head").unwrap();
    let head_out = table_bytes(&with_both, *b"head").unwrap();
    assert_eq!(head_in.len(), head_out.len());
    assert_eq!(head_in[..8], head_out[..8]);
    assert_eq!(head_in[12..], head_out[12..]);
}

#[test]
fn opaque_payload_is_installed_verbatim() {
    let font = minimal_font();
    // Nothing like a structurally valid COLR table.
    let garbage = vec![0xDEu8, 0xAD, 0xBE, 0xEF, 0x00, 0xFF, 0x13];
    let r = inject(&font, "COLR", &garbage);
    assert_eq!(r.as_ref().err(), None);
    let out = r.unwrap();
    assert_eq!(table_bytes(&out, *b"COLR"), Some(garbage));
}

#[test]
fn empty_payload_is_allowed() {
    let font = minimal_font();
    let out = add_table(&font, "CPAL".to_string(), &[]);
    assert!(!out.is_empty());
    assert_eq!(table_bytes(&out, *b"CPAL"), Some(vec![]));
}

#[test]
fn empty_input_yields_empty_output() {
    assert_eq!(add_table(&[], "CPAL".to_string(), &[1, 2, 3]), Vec::<u8>::new());
    assert_eq!(add_table(&[], "GSUB".to_string(), &[]), Vec::<u8>::new());
}

#[test]
fn invalid_version_yields_empty_output() {
    let zeros = vec![0u8; 64];
    assert_eq!(add_table(&zeros, "CPAL".to_string(), &[1]), Vec::<u8>::new());
    let mut font = minimal_font();
    font[0] = 0xDE;
    font[1] = 0xAD;
    assert_eq!(add_table(&font, "CPAL".to_string(), &[1]), Vec::<u8>::new());
}

#[test]
fn truncated_directory_yields_empty_output() {
    let font = minimal_font();
    let truncated = font[..20].to_vec();
    assert_eq!(add_table(&truncated, "CPAL".to_string(), &[1]), Vec::<u8>::new());
}

#[test]
fn out_of_bounds_record_yields_empty_output() {
    // A well-formed header whose single record points far past the end.
    let mut font = mk_font(&[(*b"glyf", vec![1, 2, 3, 4])]);
    // Overwrite the record's offset field (bytes 20..24 of the buffer).
    font[20] = 0x7F;
    font[21] = 0xFF;
    font[22] = 0xFF;
    font[23] = 0xFF;
    assert_eq!(add_table(&font, "CPAL".to_string(), &[1]), Vec::<u8>::new());
}

#[test]
fn decode_failure_is_reported_as_such() {
    assert_eq!(inject(&[], "CPAL", &[1]), Err(InjectError::DecodeFailed));
    let zeros = vec![0u8; 32];
    assert_eq!(inject(&zeros, "COLR", &[1]), Err(InjectError::DecodeFailed));
}

#[test]
fn short_head_table_blocks_encoding() {
    // The codec rewrites bytes 8..12 of `head` while encoding, so a head
    // table shorter than that cannot be re-encoded.
    let font = mk_font(&[(*b"head", vec![0, 1, 2, 3]), (*b"glyf", vec![9, 9])]);
    assert_eq!(inject(&font, "CPAL", &[5, 5]), Err(InjectError::EncodeFailed));
    assert_eq!(add_table(&font, "CPAL".to_string(), &[5, 5]), Vec::<u8>::new());
}

#[test]
fn font_with_no_tables_cannot_be_reencoded() {
    // A bare 12-byte header with a zero table count decodes, but the
    // encoder's search-field arithmetic underflows on a font left with no
    // tables, so an unrecognized tag has nothing it can return.
    let font = mk_font(&[]);
    assert_eq!(inject(&font, "GSUB", &[1, 2]), Err(InjectError::EncodeFailed));
    assert_eq!(add_table(&font, "GSUB".to_string(), &[1, 2]), Vec::<u8>::new());
}

#[test]
fn injection_into_empty_font_succeeds() {
    // The same zero-table font becomes encodable once the injection gives
    // it a table.
    let font = mk_font(&[]);
    let palette = vec![1u8, 2, 3];
    let out = add_table(&font, "CPAL".to_string(), &palette);
    assert!(!out.is_empty());
    assert_eq!(table_bytes(&out, *b"CPAL"), Some(palette));
}

#[test]
fn too_many_tables_block_encoding() {
    let mut tables: Vec<([u8; 4], Vec<u8>)> = vec![];
    for i in 0..4096u16 {
        let b = i.to_be_bytes();
        tables.push(([b[0], b[1], 0x78, 0x78], vec![]));
    }
    let font = mk_font(&tables);
    // The font itself decodes, but 4096 tables already exceed what the
    // encoder's 16-bit search fields carry.
    assert_eq!(table_bytes(&font, [0x00, 0x01, 0x78, 0x78]), Some(vec![]));
    assert_eq!(inject(&font, "CPAL", &[1]), Err(InjectError::EncodeFailed));
}

#[test]
fn table_bytes_reads_each_table() {
    let font = mk_font(&[
        (*b"aaaa", vec![10, 11]),
        (*b"bbbb", vec![]),
        (*b"cccc", vec![12]),
    ]);
    assert_eq!(table_bytes(&font, *b"aaaa"), Some(vec![10, 11]));
    assert_eq!(table_bytes(&font, *b"bbbb"), Some(vec![]));
    assert_eq!(table_bytes(&font, *b"cccc"), Some(vec![12]));
    assert_eq!(table_bytes(&font, *b"dddd"), None);
    assert_eq!(table_bytes(&[1, 2, 3], *b"aaaa"), None);
}

#[test]
fn output_matches_codec_view() {
    // Cross-check the library's reader against the codec itself: decode
    // the injected output with otspec/fonttools directly.
    let font = minimal_font();
    let palette = vec![3u8, 1, 4, 1, 5];
    let out = add_table(&font, "CPAL".to_string(), &palette);
    assert!(!out.is_empty());
    let decoded: fonttools::font::Font = otspec::de::from_bytes(&out).unwrap();
    match decoded.tables.get(b"CPAL") {
        Some(fonttools::font::Table::Unknown(v)) => assert_eq!(v, &palette),
        other => panic!("unexpected table state: {:?}", other),
    }
    match decoded.tables.get(b"glyf") {
        Some(fonttools::font::Table::Unknown(v)) => {
            assert_eq!(v, &vec![1u8, 2, 3, 4, 5, 6, 7, 8])
        }
        other => panic!("unexpected table state: {:?}", other),
    }
}
