use binder::{
    AttributeData, AttributeType, Binder, BufferObject, BufferTarget, Device, GlCommand,
    IndexBufferObject, IndexData, IndexType, PrimitiveKind, Program, Uniform,
};

fn one_u32_buffer(device: &mut Device) -> BufferObject {
    BufferObject::create(
        device,
        AttributeData::U32(vec![7]),
        AttributeType::new(1, PrimitiveKind::U32),
    )
}

#[test]
fn vertex_count_is_index_count_when_an_index_buffer_is_present() {
    let mut device = Device::new();
    let vbo = BufferObject::create(
        &mut device,
        AttributeData::U32(vec![1, 2, 3, 4, 5, 6, 7, 8]),
        AttributeType::new(2, PrimitiveKind::U32),
    );
    let ebo = IndexBufferObject::create(&mut device, IndexData::U8(vec![0, 1, 2]));
    let aggregate = Binder::new(&mut device, vec![vbo], Some(ebo), Program::new(5), Vec::new());
    // Four vertices in the buffer, but the three indices decide.
    assert_eq!(aggregate.vertex_count(), 3);
    assert_eq!(aggregate.index_type(), Some(IndexType::U8));
}

#[test]
fn vertex_count_is_the_first_buffer_count_without_an_index_buffer() {
    let mut device = Device::new();
    let first = BufferObject::create(
        &mut device,
        AttributeData::U16(vec![1, 2, 3, 4, 5, 6]),
        AttributeType::new(3, PrimitiveKind::U16),
    );
    let second = BufferObject::create(
        &mut device,
        AttributeData::U16(vec![1, 2, 3, 4]),
        AttributeType::new(1, PrimitiveKind::U16),
    );
    let aggregate = Binder::new(&mut device, vec![first, second], None, Program::new(5), Vec::new());
    assert_eq!(aggregate.vertex_count(), 2);
    assert_eq!(aggregate.index_type(), None);
}

#[test]
fn upload_issues_the_fixed_command_order() {
    let mut device = Device::new();
    let vbo = one_u32_buffer(&mut device);
    let ebo = IndexBufferObject::create(&mut device, IndexData::U8(vec![1, 2, 3]));
    let aggregate = Binder::new(
        &mut device,
        vec![vbo],
        Some(ebo),
        Program::new(9),
        vec![Uniform::new(String::from("perspective"))],
    );
    device.take_trace();

    aggregate.upload(&mut device);

    assert_eq!(
        device.trace().as_slice(),
        &[
            GlCommand::UseProgram { handle: 9 },
            GlCommand::BindUniform { location: 0 },
            GlCommand::BindVertexArray { handle: 3 },
            GlCommand::BindBuffer { target: BufferTarget::Array, handle: 1 },
            GlCommand::BufferData {
                target: BufferTarget::Array,
                bytes: vec![7, 0, 0, 0],
                usage_tag: 0x88E4,
            },
            GlCommand::EnableVertexAttribArray { slot: 0 },
            GlCommand::VertexAttribPointer {
                slot: 0,
                element_count: 1,
                type_tag: 0x1405,
                stride: 4,
            },
            GlCommand::BindBuffer { target: BufferTarget::Array, handle: 0 },
            GlCommand::BindBuffer { target: BufferTarget::ElementArray, handle: 2 },
            GlCommand::BufferData {
                target: BufferTarget::ElementArray,
                bytes: vec![1, 2, 3],
                usage_tag: 0x88E4,
            },
            GlCommand::BindBuffer { target: BufferTarget::ElementArray, handle: 0 },
            GlCommand::BindVertexArray { handle: 0 },
            GlCommand::UseProgram { handle: 0 },
        ]
    );
    assert_eq!(device.bound_program(), 0);
    assert_eq!(device.bound_vertex_array(), 0);
    assert_eq!(device.bound_buffer(BufferTarget::Array), 0);
    assert_eq!(device.bound_buffer(BufferTarget::ElementArray), 0);
}

#[test]
fn uploading_twice_resends_identical_commands_and_bytes() {
    let mut device = Device::new();
    let vbo = BufferObject::create(
        &mut device,
        AttributeData::U8(vec![4, 5, 6]),
        AttributeType::new(3, PrimitiveKind::U8),
    );
    let aggregate = Binder::new(&mut device, vec![vbo], None, Program::new(2), Vec::new());
    device.take_trace();

    aggregate.upload(&mut device);
    let first_run = device.take_trace();
    aggregate.upload(&mut device);
    let second_run = device.take_trace();

    assert_eq!(first_run, second_run);
    let payloads: Vec<Vec<u8>> = first_run
        .iter()
        .filter_map(|c| match c {
            GlCommand::BufferData { bytes, .. } => Some(bytes.clone()),
            _ => None,
        })
        .collect();
    assert_eq!(payloads, vec![vec![4, 5, 6]]);
}

#[test]
fn slots_are_numbered_by_buffer_position() {
    let mut device = Device::new();
    let first = BufferObject::create(
        &mut device,
        AttributeData::U8(vec![1]),
        AttributeType::new(1, PrimitiveKind::U8),
    );
    let second = BufferObject::create(
        &mut device,
        AttributeData::U8(vec![2]),
        AttributeType::new(1, PrimitiveKind::U8),
    );
    let aggregate = Binder::new(&mut device, vec![first, second], None, Program::new(2), Vec::new());
    device.take_trace();
    aggregate.upload(&mut device);

    let slots: Vec<u32> = device
        .trace()
        .iter()
        .filter_map(|c| match c {
            GlCommand::VertexAttribPointer { slot, .. } => Some(*slot),
            _ => None,
        })
        .collect();
    assert_eq!(slots, vec![0, 1]);
}

#[test]
fn uniforms_bind_to_their_positions_after_the_program() {
    let mut device = Device::new();
    let vbo = one_u32_buffer(&mut device);
    let aggregate = Binder::new(
        &mut device,
        vec![vbo],
        None,
        Program::new(11),
        vec![
            Uniform::new(String::from("perspective")),
            Uniform::new(String::from("camera")),
            Uniform::new(String::from("light")),
        ],
    );
    device.take_trace();
    aggregate.upload(&mut device);

    let trace = device.take_trace();
    assert_eq!(trace[0], GlCommand::UseProgram { handle: 11 });
    assert_eq!(trace[1], GlCommand::BindUniform { location: 0 });
    assert_eq!(trace[2], GlCommand::BindUniform { location: 1 });
    assert_eq!(trace[3], GlCommand::BindUniform { location: 2 });
}

#[test]
fn teardown_releases_every_handle_exactly_once() {
    let mut device = Device::new();
    let first = one_u32_buffer(&mut device);
    let second = BufferObject::create(
        &mut device,
        AttributeData::U32(vec![8]),
        AttributeType::new(1, PrimitiveKind::U32),
    );
    let ebo = IndexBufferObject::create(&mut device, IndexData::U8(vec![0]));
    let aggregate =
        Binder::new(&mut device, vec![first, second], Some(ebo), Program::new(9), Vec::new());
    device.take_trace();

    aggregate.delete(&mut device);

    // Buffers newest first, then the index buffer, the vertex array and
    // the program.
    assert_eq!(
        device.take_trace(),
        vec![
            GlCommand::DeleteBuffer { handle: 2 },
            GlCommand::DeleteBuffer { handle: 1 },
            GlCommand::DeleteBuffer { handle: 3 },
            GlCommand::DeleteVertexArray { handle: 4 },
            GlCommand::DeleteProgram { handle: 9 },
        ]
    );
}

#[test]
fn draw_binder_composes_and_releases_in_reverse_order() {
    let mut device = Device::new();
    let vbo = one_u32_buffer(&mut device);
    let aggregate = Binder::new(&mut device, vec![vbo], None, Program::new(4), Vec::new());
    device.take_trace();

    let guard = aggregate.draw_binder(&mut device);
    assert_eq!(device.bound_program(), 4);
    assert_eq!(device.bound_vertex_array(), 2);
    guard.release(&mut device);
    assert_eq!(device.bound_program(), 0);
    assert_eq!(device.bound_vertex_array(), 0);

    assert_eq!(
        device.take_trace(),
        vec![
            GlCommand::UseProgram { handle: 4 },
            GlCommand::BindVertexArray { handle: 2 },
            GlCommand::BindVertexArray { handle: 0 },
            GlCommand::UseProgram { handle: 0 },
        ]
    );
}
