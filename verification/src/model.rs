//! The mathematical model of a font that the library's contracts speak of:
//! a finite map from 4-byte table tags to the raw bytes of each table, and
//! the effect of installing a color table in it.

use vstd::prelude::*;

verus! {

/// A font's tables: each 4-byte tag mapped to the table's raw content.
pub type TableMap = Map<Seq<u8>, Seq<u8>>;

/// The tag of the color-palette table, `"CPAL"` in ASCII.
pub open spec fn cpal_tag() -> Seq<u8> {
    seq![0x43u8, 0x50u8, 0x41u8, 0x4Cu8]
}

/// The tag of the color-layer table, `"COLR"` in ASCII.
pub open spec fn colr_tag() -> Seq<u8> {
    seq![0x43u8, 0x4Fu8, 0x4Cu8, 0x52u8]
}

/// The tag of the font header table, `"head"` in ASCII.  The codec rewrites
/// one field of this table on every encode, so the contracts treat it
/// specially.
pub open spec fn head_tag() -> Seq<u8> {
    seq![0x68u8, 0x65u8, 0x61u8, 0x64u8]
}

/// The only two tags under which the injector installs a table; matching
/// is exact, case-sensitive string equality.
pub open spec fn recognized(tag: Seq<char>) -> bool {
    tag == "CPAL"@ || tag == "COLR"@
}

/// The 4-byte tag that a recognized string tag names.
pub open spec fn tag_bytes(tag: Seq<char>) -> Seq<u8>
    recommends
        recognized(tag),
{
    if tag == "CPAL"@ {
        cpal_tag()
    } else {
        colr_tag()
    }
}

/// What injection does to a font's tables: install the payload under the
/// named color table (inserting or overwriting), and leave the font alone
/// under any other tag.
pub open spec fn inject_model(m: TableMap, tag: Seq<char>, payload: Seq<u8>) -> TableMap {
    if tag == "CPAL"@ {
        m.insert(cpal_tag(), payload)
    } else if tag == "COLR"@ {
        m.insert(colr_tag(), payload)
    } else {
        m
    }
}

/// Two table contents that agree everywhere except possibly in bytes
/// 8..12: the slot where the codec recomputes the whole-font checksum
/// adjustment of the `head` table on every encode.
pub open spec fn head_like(a: Seq<u8>, b: Seq<u8>) -> bool {
    &&& a.len() == b.len()
    &&& forall|i: int| 0 <= i < a.len() && !(8 <= i < 12) ==> a[i] == b[i]
}

/// Content equivalence of two table maps: the same tables with
/// byte-identical contents, except that the `head` table may differ in its
/// checksum-adjustment field.
pub open spec fn tables_agree_mod_head(a: TableMap, b: TableMap) -> bool {
    &&& a.dom() == b.dom()
    &&& forall|k: Seq<u8>| #[trigger] b.dom().contains(k) ==> (k == head_tag() || a[k] == b[k])
    &&& (b.dom().contains(head_tag()) ==> head_like(a[head_tag()], b[head_tag()]))
}

/// The same table names with the same content lengths.  The length of an
/// encoded font depends on its tables' names and lengths alone, so two
/// fonts of the same shape encode to buffers of one length.
pub open spec fn same_shape(a: TableMap, b: TableMap) -> bool {
    &&& a.dom() == b.dom()
    &&& forall|k: Seq<u8>| #[trigger] b.dom().contains(k) ==> a[k].len() == b[k].len()
}

/// Law: a tag outside the recognized set changes nothing — the injected
/// font holds exactly the tables of the input, so its re-encoded output
/// decodes to the same content as the input.
pub proof fn lemma_unrecognized_tag_is_identity(m: TableMap, tag: Seq<char>, payload: Seq<u8>)
    requires
        !recognized(tag),
    ensures
        inject_model(m, tag, payload) == m,
{
}

/// Law: installing the same payload twice under the same tag is the same
/// as installing it once.
pub proof fn lemma_inject_idempotent(m: TableMap, tag: Seq<char>, payload: Seq<u8>)
    ensures
        inject_model(inject_model(m, tag, payload), tag, payload) == inject_model(m, tag, payload),
{
    if tag == "CPAL"@ {
        assert(inject_model(inject_model(m, tag, payload), tag, payload) =~= inject_model(
            m,
            tag,
            payload,
        ));
    } else if tag == "COLR"@ {
        assert(inject_model(inject_model(m, tag, payload), tag, payload) =~= inject_model(
            m,
            tag,
            payload,
        ));
    }
}

/// Law: after injection under a recognized tag the named table holds
/// exactly the payload — inserted if it was absent, fully overwritten if
/// it was present, with no merging either way.
pub proof fn lemma_injected_content(m: TableMap, tag: Seq<char>, payload: Seq<u8>)
    requires
        recognized(tag),
    ensures
        inject_model(m, tag, payload).dom().contains(tag_bytes(tag)),
        inject_model(m, tag, payload)[tag_bytes(tag)] == payload,
{
}

/// Law: injection under a recognized tag leaves every other table's
/// presence and content untouched.
pub proof fn lemma_other_tables_unchanged(
    m: TableMap,
    tag: Seq<char>,
    payload: Seq<u8>,
    k: Seq<u8>,
)
    requires
        recognized(tag),
        k != tag_bytes(tag),
    ensures
        inject_model(m, tag, payload).dom().contains(k) == m.dom().contains(k),
        m.dom().contains(k) ==> inject_model(m, tag, payload)[k] == m[k],
{
}

/// Law: installing a palette table and then a color-layer table yields a
/// font holding both payloads verbatim, with every other table exactly as
/// before.
pub proof fn lemma_both_color_tables(m: TableMap, palette: Seq<u8>, layers: Seq<u8>)
    ensures
        ({
            let m2 = inject_model(inject_model(m, "CPAL"@, palette), "COLR"@, layers);
            &&& m2[cpal_tag()] == palette
            &&& m2[colr_tag()] == layers
            &&& m2.dom() == m.dom().insert(cpal_tag()).insert(colr_tag())
            &&& forall|k: Seq<u8>|
                #[trigger] m.dom().contains(k) && k != cpal_tag() && k != colr_tag() ==> m2[k]
                    == m[k]
        }),
{
    lemma_tag_strings_distinct();
    assert(cpal_tag()[1] == 0x50u8);
    assert(colr_tag()[1] == 0x4Fu8);
    let m2 = inject_model(inject_model(m, "CPAL"@, palette), "COLR"@, layers);
    assert(m2.dom() =~= m.dom().insert(cpal_tag()).insert(colr_tag()));
}

/// Law: content equivalence up to the checksum-adjustment field is kept by
/// injection — equivalent fonts stay equivalent after installing the same
/// payload under the same tag.
pub proof fn lemma_agree_preserved_by_inject(
    a: TableMap,
    b: TableMap,
    tag: Seq<char>,
    payload: Seq<u8>,
)
    requires
        tables_agree_mod_head(a, b),
    ensures
        tables_agree_mod_head(inject_model(a, tag, payload), inject_model(b, tag, payload)),
{
    if recognized(tag) {
        let k = tag_bytes(tag);
        assert(inject_model(a, tag, payload).dom() =~= inject_model(b, tag, payload).dom());
        assert(k[0] == 0x43u8);
        assert(head_tag()[0] == 0x68u8);
        assert(k != head_tag());
    }
}

/// Law: content equivalence up to the checksum-adjustment field is
/// transitive, so a chain of injections stays content-equivalent to what
/// the model says of the first input.
pub proof fn lemma_agree_mod_head_transitive(a: TableMap, b: TableMap, c: TableMap)
    requires
        tables_agree_mod_head(a, b),
        tables_agree_mod_head(b, c),
    ensures
        tables_agree_mod_head(a, c),
{
    assert forall|k: Seq<u8>| #[trigger] c.dom().contains(k) implies (k == head_tag() || a[k]
        == c[k]) by {
        assert(b.dom().contains(k));
    }
}

/// Law: content equivalence up to the checksum-adjustment field keeps
/// every table's length, so equivalent fonts have the same shape — and
/// with it the same encoded length.
pub proof fn lemma_agree_implies_same_shape(a: TableMap, b: TableMap)
    requires
        tables_agree_mod_head(a, b),
    ensures
        same_shape(a, b),
{
    assert forall|k: Seq<u8>| #[trigger] b.dom().contains(k) implies a[k].len() == b[k].len() by {
        if k != head_tag() {
            assert(a[k] == b[k]);
        }
    }
}

/// Law: installing a color-layer table on the re-encoded output of a
/// palette injection yields both payloads verbatim, with every other
/// table still content-identical to the first input (the `head` table up
/// to its checksum-adjustment field, which each encode rewrites).  Here
/// `src` is the first input's tables and `mid` what the first output
/// decodes to.  The second clause of the requires is the first
/// injection's own success condition on the `head` table; under it, the
/// follow-up font is never blocked on `head` and never empty, so only the
/// directory's count and size limits can refuse the second encode.
pub proof fn lemma_chained_color_injection(
    src: TableMap,
    mid: TableMap,
    palette: Seq<u8>,
    layers: Seq<u8>,
)
    requires
        tables_agree_mod_head(mid, inject_model(src, "CPAL"@, palette)),
        inject_model(src, "CPAL"@, palette).dom().contains(head_tag()) ==> inject_model(
            src,
            "CPAL"@,
            palette,
        )[head_tag()].len() >= 12,
    ensures
        ({
            let re = inject_model(mid, "COLR"@, layers);
            &&& re[cpal_tag()] == palette
            &&& re[colr_tag()] == layers
            &&& re.dom() == src.dom().insert(cpal_tag()).insert(colr_tag())
            &&& forall|k: Seq<u8>|
                #[trigger] src.dom().contains(k) && k != cpal_tag() && k != colr_tag() && k
                    != head_tag() ==> re[k] == src[k]
            &&& (src.dom().contains(head_tag()) ==> head_like(re[head_tag()], src[head_tag()]))
            &&& (re.dom().contains(head_tag()) ==> re[head_tag()].len() >= 12)
        }),
{
    lemma_tag_strings_distinct();
    assert(cpal_tag()[1] == 0x50u8);
    assert(colr_tag()[1] == 0x4Fu8);
    assert(cpal_tag()[0] == 0x43u8 && colr_tag()[0] == 0x43u8 && head_tag()[0] == 0x68u8);
    let first = inject_model(src, "CPAL"@, palette);
    let re = inject_model(mid, "COLR"@, layers);
    assert(first.dom().contains(cpal_tag()));
    assert(mid[cpal_tag()] == first[cpal_tag()]);
    assert(re.dom() =~= src.dom().insert(cpal_tag()).insert(colr_tag()));
    assert forall|k: Seq<u8>|
        src.dom().contains(k) && k != cpal_tag() && k != colr_tag() && k
            != head_tag() implies re[k] == src[k] by {
        assert(first.dom().contains(k));
        assert(mid[k] == first[k]);
    }
    if src.dom().contains(head_tag()) {
        assert(first.dom().contains(head_tag()));
        assert(head_like(mid[head_tag()], first[head_tag()]));
    }
    if re.dom().contains(head_tag()) {
        assert(first.dom().contains(head_tag()));
        assert(head_like(mid[head_tag()], first[head_tag()]));
    }
}

/// The two recognized string tags differ from each other.
pub proof fn lemma_tag_strings_distinct()
    ensures
        "CPAL"@ != "COLR"@,
{
    reveal_strlit("CPAL");
    reveal_strlit("COLR");
    assert("CPAL"@[1] == 'P');
    assert("COLR"@[1] == 'O');
}

} // verus!
