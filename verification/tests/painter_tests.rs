use binder::{
    AttributeData, AttributeType, Binder, BufferObject, Device, DrawMode, GlCommand,
    IndexBufferObject, IndexData, Painter, PrimitiveKind, Program,
};

fn indexed_binder(device: &mut Device) -> Binder {
    let vbo = BufferObject::create(
        device,
        AttributeData::U32(vec![1, 2, 3]),
        AttributeType::new(1, PrimitiveKind::U32),
    );
    let ebo = IndexBufferObject::create(device, IndexData::U8(vec![0, 1, 2]));
    Binder::new(device, vec![vbo], Some(ebo), Program::new(6), Vec::new())
}

fn plain_binder(device: &mut Device) -> Binder {
    let vbo = BufferObject::create(
        device,
        AttributeData::U32(vec![1, 2, 3, 4]),
        AttributeType::new(1, PrimitiveKind::U32),
    );
    Binder::new(device, vec![vbo], None, Program::new(6), Vec::new())
}

fn draw_command_of(device: &mut Device) -> GlCommand {
    let trace = device.take_trace();
    // A draw is exactly: bind program, bind vertex array, one draw command,
    // unbind vertex array, unbind program.
    assert_eq!(trace.len(), 5);
    assert!(matches!(trace[0], GlCommand::UseProgram { handle } if handle != 0));
    assert!(matches!(trace[1], GlCommand::BindVertexArray { handle } if handle != 0));
    assert_eq!(trace[3], GlCommand::BindVertexArray { handle: 0 });
    assert_eq!(trace[4], GlCommand::UseProgram { handle: 0 });
    trace[2].clone()
}

#[test]
fn instanced_indexed_draw_dispatches_the_instanced_indexed_shape() {
    let mut device = Device::new();
    let aggregate = indexed_binder(&mut device);
    aggregate.upload(&mut device);
    // Per-instance slots as the instanced scene sets them up.
    let vao_guard = aggregate.vao_binder(&mut device);
    aggregate.vao().set_attrib_divisor(&mut device, 2, 1);
    vao_guard.release(&mut device);

    let painter = Painter::new(aggregate, DrawMode::Triangles).instanced(1000);
    device.take_trace();
    painter.draw(&mut device);

    assert_eq!(
        draw_command_of(&mut device),
        GlCommand::DrawElementsInstanced {
            mode_tag: 0x0004,
            vertex_count: 3,
            index_type_tag: 0x1401,
            instance_count: 1000,
        }
    );
}

#[test]
fn instanced_draw_without_indices_dispatches_the_instanced_array_shape() {
    let mut device = Device::new();
    let aggregate = plain_binder(&mut device);
    aggregate.upload(&mut device);

    let painter = Painter::new(aggregate, DrawMode::Triangles).instanced(1000);
    device.take_trace();
    painter.draw(&mut device);

    assert_eq!(
        draw_command_of(&mut device),
        GlCommand::DrawArraysInstanced {
            mode_tag: 0x0004,
            vertex_count: 4,
            instance_count: 1000,
        }
    );
}

#[test]
fn indexed_draw_without_instancing_dispatches_the_indexed_shape() {
    let mut device = Device::new();
    let aggregate = indexed_binder(&mut device);
    aggregate.upload(&mut device);

    let painter = Painter::new(aggregate, DrawMode::Triangles);
    device.take_trace();
    painter.draw(&mut device);

    assert_eq!(
        draw_command_of(&mut device),
        GlCommand::DrawElements { mode_tag: 0x0004, vertex_count: 3, index_type_tag: 0x1401 }
    );
}

#[test]
fn plain_draw_dispatches_the_array_shape() {
    let mut device = Device::new();
    let aggregate = plain_binder(&mut device);
    aggregate.upload(&mut device);

    let painter = Painter::new(aggregate, DrawMode::Triangles);
    device.take_trace();
    painter.draw(&mut device);

    assert_eq!(
        draw_command_of(&mut device),
        GlCommand::DrawArrays { mode_tag: 0x0004, vertex_count: 4 }
    );
}

#[test]
fn update_draw_mode_changes_only_the_mode() {
    let mut device = Device::new();
    let aggregate = plain_binder(&mut device);
    aggregate.upload(&mut device);

    let mut painter = Painter::new(aggregate, DrawMode::Triangles);
    painter.update_draw_mode(DrawMode::LineStrip);
    device.take_trace();
    painter.draw(&mut device);

    assert_eq!(
        draw_command_of(&mut device),
        GlCommand::DrawArrays { mode_tag: 0x0003, vertex_count: 4 }
    );
}

#[test]
fn draw_mode_tags_follow_the_mode() {
    assert_eq!(DrawMode::Points.tag(), 0x0000);
    assert_eq!(DrawMode::Lines.tag(), 0x0001);
    assert_eq!(DrawMode::LineStrip.tag(), 0x0003);
    assert_eq!(DrawMode::Triangles.tag(), 0x0004);
    assert_eq!(DrawMode::TriangleStrip.tag(), 0x0005);
    assert_eq!(DrawMode::TriangleFan.tag(), 0x0006);
}

#[test]
fn draw_restores_every_binding_point() {
    let mut device = Device::new();
    let aggregate = indexed_binder(&mut device);
    aggregate.upload(&mut device);
    let painter = Painter::new(aggregate, DrawMode::Triangles);
    painter.draw(&mut device);
    assert_eq!(device.bound_program(), 0);
    assert_eq!(device.bound_vertex_array(), 0);
}

#[test]
fn painter_exposes_its_binder() {
    let mut device = Device::new();
    let aggregate = indexed_binder(&mut device);
    let painter = Painter::new(aggregate, DrawMode::Triangles);
    assert_eq!(painter.binder().vertex_count(), 3);
}
