use binder::buffer::ScopedBinder as BufferScopedBinder;
use binder::{BufferTarget, Device, GlCommand, Program};

#[test]
fn buffer_guard_restores_the_unbound_state_exactly_once() {
    let mut device = Device::new();
    let handle = device.create_buffer();
    assert_eq!(device.bound_buffer(BufferTarget::Array), 0);

    let guard = BufferScopedBinder::new(&mut device, BufferTarget::Array, handle);
    assert_eq!(device.bound_buffer(BufferTarget::Array), handle);

    guard.release(&mut device);
    assert_eq!(device.bound_buffer(BufferTarget::Array), 0);

    assert_eq!(
        device.trace().as_slice(),
        &[
            GlCommand::CreateBuffer { handle: 1 },
            GlCommand::BindBuffer { target: BufferTarget::Array, handle: 1 },
            GlCommand::BindBuffer { target: BufferTarget::Array, handle: 0 },
        ]
    );
}

#[test]
fn guard_release_works_on_the_early_exit_path_too() {
    // The guard is released on whichever path the function leaves by; the
    // binding point is back to unbound either way.
    fn bind_then_leave_early(device: &mut Device, handle: u32, early: bool) -> u32 {
        let guard = BufferScopedBinder::new(device, BufferTarget::ElementArray, handle);
        if early {
            guard.release(device);
            return device.bound_buffer(BufferTarget::ElementArray);
        }
        guard.release(device);
        device.bound_buffer(BufferTarget::ElementArray)
    }

    let mut device = Device::new();
    let handle = device.create_buffer();
    assert_eq!(bind_then_leave_early(&mut device, handle, true), 0);
    assert_eq!(bind_then_leave_early(&mut device, handle, false), 0);
}

#[test]
fn nested_guards_release_in_reverse_order_without_interference() {
    let mut device = Device::new();
    let vao_handle = device.create_vertex_array();
    let program = Program::new(7);

    // Outer guard: program. Inner guard: vertex array.
    let program_guard = program.scoped_binder(&mut device);
    assert_eq!(device.bound_program(), 7);

    let vao_guard = binder::array_object::ScopedBinder::new(&mut device, vao_handle);
    assert_eq!(device.bound_vertex_array(), vao_handle);
    assert_eq!(device.bound_program(), 7);

    // Inner releases first and leaves the outer binding point untouched.
    vao_guard.release(&mut device);
    assert_eq!(device.bound_vertex_array(), 0);
    assert_eq!(device.bound_program(), 7);

    program_guard.release(&mut device);
    assert_eq!(device.bound_program(), 0);

    assert_eq!(
        device.trace().as_slice(),
        &[
            GlCommand::CreateVertexArray { handle: 1 },
            GlCommand::UseProgram { handle: 7 },
            GlCommand::BindVertexArray { handle: 1 },
            GlCommand::BindVertexArray { handle: 0 },
            GlCommand::UseProgram { handle: 0 },
        ]
    );
}

#[test]
fn guards_for_different_buffer_targets_compose() {
    let mut device = Device::new();
    let array_handle = device.create_buffer();
    let element_handle = device.create_buffer();

    let array_guard = BufferScopedBinder::new(&mut device, BufferTarget::Array, array_handle);
    let element_guard =
        BufferScopedBinder::new(&mut device, BufferTarget::ElementArray, element_handle);

    assert_eq!(device.bound_buffer(BufferTarget::Array), array_handle);
    assert_eq!(device.bound_buffer(BufferTarget::ElementArray), element_handle);

    element_guard.release(&mut device);
    assert_eq!(device.bound_buffer(BufferTarget::Array), array_handle);
    assert_eq!(device.bound_buffer(BufferTarget::ElementArray), 0);

    array_guard.release(&mut device);
    assert_eq!(device.bound_buffer(BufferTarget::Array), 0);
}
