use binder::{BufferTarget, Device, GlCommand, IndexBufferObject, IndexData, IndexType};

#[test]
fn eight_bit_indices_report_count_three_and_the_eight_bit_tag() {
    let mut device = Device::new();
    let index_buf = IndexBufferObject::create(&mut device, IndexData::U8(vec![1, 2, 3]));
    assert_eq!(index_buf.vertex_count(), 3);
    assert_eq!(index_buf.index_type(), IndexType::U8);
    assert_eq!(index_buf.index_type().tag(), 0x1401);
}

#[test]
fn index_type_tags_follow_the_width() {
    assert_eq!(IndexType::U8.tag(), 0x1401);
    assert_eq!(IndexType::U16.tag(), 0x1403);
    assert_eq!(IndexType::U32.tag(), 0x1405);
}

#[test]
fn sixteen_bit_indices_upload_little_endian() {
    let mut device = Device::new();
    let index_buf =
        IndexBufferObject::create(&mut device, IndexData::U16(vec![0x0102, 0x0304]));
    let guard = index_buf.scoped_binder(&mut device);
    index_buf.upload(&mut device);
    guard.release(&mut device);

    assert_eq!(
        device.trace().as_slice(),
        &[
            GlCommand::CreateBuffer { handle: 1 },
            GlCommand::BindBuffer { target: BufferTarget::ElementArray, handle: 1 },
            GlCommand::BufferData {
                target: BufferTarget::ElementArray,
                bytes: vec![0x02, 0x01, 0x04, 0x03],
                usage_tag: 0x88E4,
            },
            GlCommand::BindBuffer { target: BufferTarget::ElementArray, handle: 0 },
        ]
    );
}

#[test]
fn thirty_two_bit_indices_report_count_and_tag() {
    let mut device = Device::new();
    let index_buf =
        IndexBufferObject::create(&mut device, IndexData::U32(vec![10, 20, 30, 40]));
    assert_eq!(index_buf.vertex_count(), 4);
    assert_eq!(index_buf.index_type().tag(), 0x1405);
    assert_eq!(
        index_buf.indices().to_bytes(),
        vec![10, 0, 0, 0, 20, 0, 0, 0, 30, 0, 0, 0, 40, 0, 0, 0]
    );
}
