use binder::{
    AttributeData, AttributeType, BufferObject, BufferTarget, Device, GlCommand, PrimitiveKind,
};

fn bits_tuple(values: &[f32]) -> Vec<u32> {
    values.iter().map(|v| v.to_bits()).collect()
}

#[test]
fn buffer_from_three_float_pairs_reports_six_floats_flattened() {
    let mut device = Device::new();
    let attrs = vec![
        bits_tuple(&[-0.5, 0.0]),
        bits_tuple(&[0.5, 0.0]),
        bits_tuple(&[0.0, 0.8]),
    ];
    let attr_type = AttributeType::new(2, PrimitiveKind::F32);
    let buffer = BufferObject::create_from_f32_tuples(&mut device, &attrs, attr_type);

    let payload = buffer.data().f32_bits().expect("float payload");
    let floats: Vec<f32> = payload.iter().map(|b| f32::from_bits(*b)).collect();
    assert_eq!(floats, vec![-0.5, 0.0, 0.5, 0.0, 0.0, 0.8]);
    assert_eq!(buffer.vertex_count(), 3);
    assert_eq!(buffer.attribute_type(), attr_type);
}

#[test]
fn buffer_creation_allocates_handles_in_order() {
    let mut device = Device::new();
    let first = BufferObject::create(
        &mut device,
        AttributeData::U8(vec![1, 2]),
        AttributeType::new(2, PrimitiveKind::U8),
    );
    let second = BufferObject::create(
        &mut device,
        AttributeData::U8(vec![3]),
        AttributeType::new(1, PrimitiveKind::U8),
    );
    assert_eq!(first.id(), 1);
    assert_eq!(second.id(), 2);
    assert_eq!(
        device.trace().as_slice(),
        &[
            GlCommand::CreateBuffer { handle: 1 },
            GlCommand::CreateBuffer { handle: 2 },
        ]
    );
}

#[test]
fn upload_sends_little_endian_float_bytes() {
    let mut device = Device::new();
    let attrs = vec![bits_tuple(&[1.0, -2.5]), bits_tuple(&[0.25, 3.0])];
    let buffer = BufferObject::create_from_f32_tuples(
        &mut device,
        &attrs,
        AttributeType::new(2, PrimitiveKind::F32),
    );

    let guard = buffer.scoped_binder(&mut device);
    buffer.upload(&mut device);
    guard.release(&mut device);

    let mut expected = Vec::new();
    for v in [1.0f32, -2.5, 0.25, 3.0] {
        expected.extend_from_slice(&v.to_le_bytes());
    }
    let trace = device.trace();
    let sent = trace
        .iter()
        .find_map(|c| match c {
            GlCommand::BufferData { target, bytes, usage_tag } => {
                assert_eq!(*target, BufferTarget::Array);
                assert_eq!(*usage_tag, 0x88E4);
                Some(bytes.clone())
            }
            _ => None,
        })
        .expect("one payload sent");
    assert_eq!(sent, expected);
}

#[test]
fn upload_sends_little_endian_u16_bytes() {
    let mut device = Device::new();
    let buffer = BufferObject::create(
        &mut device,
        AttributeData::U16(vec![0x1122, 0x3344]),
        AttributeType::new(1, PrimitiveKind::U16),
    );
    let guard = buffer.scoped_binder(&mut device);
    buffer.upload(&mut device);
    guard.release(&mut device);

    let trace = device.trace();
    match trace.last().map(|c| c.clone()) {
        Some(GlCommand::BindBuffer { target: BufferTarget::Array, handle: 0 }) => {}
        other => panic!("expected the unbind last, got {:?}", other),
    }
    let sent = trace
        .iter()
        .find_map(|c| match c {
            GlCommand::BufferData { bytes, .. } => Some(bytes.clone()),
            _ => None,
        })
        .expect("one payload sent");
    assert_eq!(sent, vec![0x22, 0x11, 0x44, 0x33]);
}

#[test]
fn u8_payload_bytes_are_the_elements_themselves() {
    let data = AttributeData::U8(vec![9, 8, 7]);
    assert_eq!(data.to_bytes(), vec![9, 8, 7]);
    assert_eq!(data.len(), 3);
    assert_eq!(data.kind(), PrimitiveKind::U8);
}

#[test]
fn u32_payload_serializes_little_endian() {
    let data = AttributeData::U32(vec![0x11223344]);
    assert_eq!(data.to_bytes(), vec![0x44, 0x33, 0x22, 0x11]);
}

#[test]
fn vertex_count_divides_by_element_count() {
    let mut device = Device::new();
    let buffer = BufferObject::create(
        &mut device,
        AttributeData::U32(vec![1, 2, 3, 4, 5, 6]),
        AttributeType::new(3, PrimitiveKind::U32),
    );
    assert_eq!(buffer.vertex_count(), 2);
}

#[test]
fn empty_buffer_is_legal_and_has_zero_vertices() {
    let mut device = Device::new();
    let buffer = BufferObject::create(
        &mut device,
        AttributeData::F32(Vec::new()),
        AttributeType::new(4, PrimitiveKind::F32),
    );
    assert_eq!(buffer.vertex_count(), 0);
    assert_eq!(buffer.data().to_bytes(), Vec::<u8>::new());
}
