use moped::release::ReleaseId;

const SAMPLE: &str = "76df3287-6cda-33eb-8e9a-044b5e15ffdd";
const SAMPLE_BITS: u128 = 0x76df3287_6cda_33eb_8e9a_044b5e15ffdd;

#[test]
fn parse_reads_hyphenated_text() {
    assert_eq!(ReleaseId::parse(SAMPLE), Some(ReleaseId { bits: SAMPLE_BITS }));
}

#[test]
fn parse_reads_simple_and_urn_text() {
    let id = Some(ReleaseId::from_bits(SAMPLE_BITS));
    assert_eq!(ReleaseId::parse("76df32876cda33eb8e9a044b5e15ffdd"), id);
    assert_eq!(ReleaseId::parse("urn:uuid:76df3287-6cda-33eb-8e9a-044b5e15ffdd"), id);
    assert_eq!(ReleaseId::parse("76DF3287-6CDA-33EB-8E9A-044B5E15FFDD"), id);
}

#[test]
fn parse_rejects_what_is_no_identifier() {
    assert_eq!(ReleaseId::parse(""), None);
    assert_eq!(ReleaseId::parse("not an identifier"), None);
    assert_eq!(ReleaseId::parse("76df3287-6cda-33eb-8e9a-044b5e15ffd"), None);
    assert_eq!(ReleaseId::parse("76df3287-6cda-33eb-8e9a-044b5e15ffddd"), None);
    assert_eq!(ReleaseId::parse("76df3287-6cda-33eb-8e9a-044b5e15ffdg"), None);
    assert_eq!(ReleaseId::parse("76df3287+6cda+33eb+8e9a+044b5e15ffdd"), None);
    assert_eq!(ReleaseId::parse("76df3287-6cda-33eb-8e9a-044b5e15ff\u{e9}"), None);
}

#[test]
fn to_text_is_lower_case_hyphenated() {
    assert_eq!(ReleaseId::from_bits(SAMPLE_BITS).to_text(), SAMPLE);
    assert_eq!(ReleaseId::from_bits(0).to_text(), "00000000-0000-0000-0000-000000000000");
    assert_eq!(ReleaseId::from_bits(u128::MAX).to_text(), "ffffffff-ffff-ffff-ffff-ffffffffffff");
    assert_eq!(
        ReleaseId::from_bits(0x0123_4567_89ab_cdef_0123_4567_89ab_cdef).to_text(),
        "01234567-89ab-cdef-0123-456789abcdef"
    );
    assert_eq!(ReleaseId::from_bits(1).to_text(), "00000000-0000-0000-0000-000000000001");
    assert_eq!(ReleaseId::from_bits(1 << 127).to_text(), "80000000-0000-0000-0000-000000000000");
}

#[test]
fn text_has_the_canonical_shape() {
    let text = ReleaseId::from_bits(0xdead_beef_0000_1111_2222_3333_4444_5555).to_text();
    let chars: Vec<char> = text.chars().collect();
    assert_eq!(chars.len(), 36);
    for (i, c) in chars.iter().enumerate() {
        if i == 8 || i == 13 || i == 18 || i == 23 {
            assert_eq!(*c, '-');
        } else {
            assert!(c.is_ascii_digit() || ('a'..='f').contains(c));
        }
    }
}

#[test]
fn text_and_parse_round_trip() {
    for bits in [0u128, 1, 0xff, SAMPLE_BITS, u128::MAX, 0x8000_0000_0000_0000_0000_0000_0000_0001] {
        let id = ReleaseId::from_bits(bits);
        assert_eq!(ReleaseId::parse(&id.to_text()), Some(id));
    }
    let id = ReleaseId::parse(SAMPLE).unwrap();
    assert_eq!(id.to_text(), SAMPLE);
}

#[test]
fn different_identifiers_have_different_texts() {
    let a = ReleaseId::from_bits(SAMPLE_BITS);
    let b = ReleaseId::from_bits(SAMPLE_BITS ^ 1);
    let c = ReleaseId::from_bits(SAMPLE_BITS ^ (1 << 127));
    assert_ne!(a.to_text(), b.to_text());
    assert_ne!(a.to_text(), c.to_text());
    assert_ne!(b.to_text(), c.to_text());
}
