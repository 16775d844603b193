use binder::{
    labyrinth, sphere, Device, DrawMode, GlCommand, IndexType, Painter, Program, Triangle, Uniform,
};

fn bits_tuple(values: &[f32]) -> Vec<u32> {
    values.iter().map(|v| v.to_bits()).collect()
}

#[test]
fn triangle_scene_has_three_indexed_vertices_and_four_channels() {
    let mut device = Device::new();
    let triangle = Triangle::new(&mut device, Program::new(8));

    assert_eq!(triangle.binder.vertex_count(), 3);
    assert_eq!(triangle.binder.index_type(), Some(IndexType::U8));
    assert_eq!(triangle.binder.buffers().len(), 4);

    let positions = triangle.binder.buffers()[0]
        .data()
        .f32_bits()
        .expect("float payload")
        .iter()
        .map(|b| f32::from_bits(*b))
        .collect::<Vec<f32>>();
    assert_eq!(positions, vec![-0.5, 0.0, 0.5, 0.0, 0.0, 0.8]);

    let scales = triangle.binder.buffers()[2]
        .data()
        .f32_bits()
        .expect("float payload")
        .iter()
        .map(|b| f32::from_bits(*b))
        .collect::<Vec<f32>>();
    assert_eq!(scales, vec![0.5, 0.5, 0.5]);
}

#[test]
fn triangle_scene_marks_slots_two_and_three_per_instance() {
    let mut device = Device::new();
    let triangle = Triangle::new(&mut device, Program::new(8));

    let divisors: Vec<(u32, u32)> = device
        .trace()
        .iter()
        .filter_map(|c| match c {
            GlCommand::VertexAttribDivisor { slot, divisor } => Some((*slot, *divisor)),
            _ => None,
        })
        .collect();
    assert_eq!(divisors, vec![(2, 1), (3, 1)]);
    // The divisors are set inside a vertex-array scope that closes again.
    assert_eq!(device.bound_vertex_array(), 0);
    assert_eq!(triangle.binder.vertex_count(), 3);
}

#[test]
fn triangle_painter_draws_instanced_indexed() {
    let mut device = Device::new();
    let triangle = Triangle::new(&mut device, Program::new(8));
    let painter = Painter::new(triangle.binder, DrawMode::Triangles).instanced(1000);
    device.take_trace();
    painter.draw(&mut device);

    let trace = device.take_trace();
    assert_eq!(
        trace[2],
        GlCommand::DrawElementsInstanced {
            mode_tag: 0x0004,
            vertex_count: 3,
            index_type_tag: 0x1401,
            instance_count: 1000,
        }
    );
}

#[test]
fn sphere_scene_counts_by_its_indices() {
    let mut device = Device::new();
    let vertices = vec![
        bits_tuple(&[0.0, 0.0, 1.0]),
        bits_tuple(&[1.0, 0.0, 0.0]),
        bits_tuple(&[0.0, 1.0, 0.0]),
    ];
    let normals = vertices.clone();
    let indices: Vec<u16> = vec![0, 1, 2, 2, 1, 0];
    let aggregate = sphere(&mut device, &vertices, &normals, indices, Program::new(3));

    assert_eq!(aggregate.vertex_count(), 6);
    assert_eq!(aggregate.index_type(), Some(IndexType::U16));
    assert_eq!(aggregate.buffers().len(), 2);
    assert_eq!(device.bound_program(), 0);
    assert_eq!(device.bound_vertex_array(), 0);
}

#[test]
fn labyrinth_scene_is_instanced_on_slot_zero() {
    let mut device = Device::new();
    let rotations = vec![
        bits_tuple(&[0.1, 0.2, 0.3]),
        bits_tuple(&[0.4, 0.5, 0.6]),
    ];
    let aggregate = labyrinth(
        &mut device,
        &rotations,
        Program::new(5),
        vec![Uniform::new(String::from("perspective"))],
    );

    assert_eq!(aggregate.vertex_count(), 2);
    assert_eq!(aggregate.index_type(), None);

    let trace = device.take_trace();
    assert!(trace.contains(&GlCommand::VertexAttribDivisor { slot: 0, divisor: 1 }));
    assert!(trace.contains(&GlCommand::BindUniform { location: 0 }));
}
