use tfx::kinds::TfxExtern;
use tfx::tags::{parse_tag_input, resolve_hash64, swap_u32, swap_u64, TagHash, TagQuery};

#[test]
fn short_input_parses_as_swapped_hash32() {
    assert_eq!(
        parse_tag_input(b"80FFFFFF"),
        TagQuery::Hash32(TagHash(0xffff_ff80))
    );
    assert_eq!(parse_tag_input(b"1a"), TagQuery::Hash32(TagHash(0x1a00_0000)));
    assert_eq!(parse_tag_input(b"+1a"), TagQuery::Hash32(TagHash(0x1a00_0000)));
    assert_eq!(parse_tag_input(b"deadBEEF"), TagQuery::Hash32(TagHash(0xefbe_adde)));
}

#[test]
fn malformed_or_overflowing_input_stands_for_zero() {
    assert_eq!(parse_tag_input(b""), TagQuery::Hash32(TagHash(0)));
    assert_eq!(parse_tag_input(b"+"), TagQuery::Hash32(TagHash(0)));
    assert_eq!(parse_tag_input(b"80FFg"), TagQuery::Hash32(TagHash(0)));
    // Nine digits overflow a 32-bit hash.
    assert_eq!(parse_tag_input(b"100000000"), TagQuery::Hash32(TagHash(0)));
    // Seventeen digits overflow the 64-bit alias key.
    assert_eq!(parse_tag_input(b"10000000000000000"), TagQuery::Hash64(0));
}

#[test]
fn long_input_parses_as_swapped_hash64() {
    assert_eq!(
        parse_tag_input(b"0123456789ABCDEF"),
        TagQuery::Hash64(0xefcd_ab89_6745_2301)
    );
}

#[test]
fn byte_swaps_reverse_memory_order() {
    assert_eq!(swap_u32(0x1234_5678), 0x7856_3412);
    assert_eq!(swap_u32(0), 0);
    assert_eq!(swap_u64(0x0102_0304_0506_0708), 0x0807_0605_0403_0201);
}

#[test]
fn alias_lookup_falls_back_to_the_none_tag() {
    assert_eq!(resolve_hash64(Some(0x1234)), TagHash(0x1234));
    let missing = resolve_hash64(None);
    assert!(missing.is_none());
    assert_eq!(missing, TagHash::none());
}

#[test]
fn kind_codes_round_trip() {
    assert_eq!(TfxExtern::from_code(0), Some(TfxExtern::Unassigned));
    assert_eq!(TfxExtern::from_code(2), Some(TfxExtern::View));
    assert_eq!(TfxExtern::from_code(96), Some(TfxExtern::SoftDeform));
    assert_eq!(TfxExtern::from_code(97), None);
    assert_eq!(TfxExtern::from_code(200), None);
    assert_eq!(TfxExtern::Decal.to_code(), 44);
    assert_eq!(TfxExtern::from_code(TfxExtern::Transparent.to_code()), Some(TfxExtern::Transparent));
}
