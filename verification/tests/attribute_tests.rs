use binder::{AttributeType, PrimitiveKind};

#[test]
fn byte_sizes_follow_the_kind() {
    assert_eq!(PrimitiveKind::F32.byte_size(), 4);
    assert_eq!(PrimitiveKind::U8.byte_size(), 1);
    assert_eq!(PrimitiveKind::U16.byte_size(), 2);
    assert_eq!(PrimitiveKind::U32.byte_size(), 4);
}

#[test]
fn type_tags_follow_the_kind() {
    assert_eq!(PrimitiveKind::F32.type_tag(), 0x1406);
    assert_eq!(PrimitiveKind::U8.type_tag(), 0x1401);
    assert_eq!(PrimitiveKind::U16.type_tag(), 0x1403);
    assert_eq!(PrimitiveKind::U32.type_tag(), 0x1405);
}

#[test]
fn stride_is_count_times_byte_size_for_every_count() {
    for count in 1..=4u32 {
        assert_eq!(AttributeType::new(count, PrimitiveKind::F32).stride(), count * 4);
        assert_eq!(AttributeType::new(count, PrimitiveKind::U8).stride(), count);
        assert_eq!(AttributeType::new(count, PrimitiveKind::U16).stride(), count * 2);
        assert_eq!(AttributeType::new(count, PrimitiveKind::U32).stride(), count * 4);
    }
}

#[test]
fn stride_of_two_floats_is_eight() {
    let attr = AttributeType::new(2, PrimitiveKind::F32);
    assert_eq!(attr.stride(), 8);
    assert_eq!(attr.element_count, 2);
    assert_eq!(attr.kind, PrimitiveKind::F32);
}
