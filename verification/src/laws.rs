use vstd::prelude::*;

use crate::binder::{
    ebo_upload_cmds, uniform_cmds, upload_cmds, vbo_upload_cmds, vbos_upload_cmds, BinderView,
};
use crate::buffer::BufferView;
use crate::device::{BufferTarget, Cmd, DeviceState};

verus! {

/// A program guard restores its binding point. Acquiring a guard on a
/// previously unbound program point and releasing it returns the point to
/// exactly the pre-acquisition unbound state, moves no other binding point,
/// and appends exactly the bind and the unbind to the trace. Release
/// consumes a guard, so this happens exactly once per guard.
pub proof fn lemma_program_guard_round_trip(d0: DeviceState, handle: u32)
    requires
        d0.program == 0,
    ensures
        ({
            let released = d0.with_program(handle).with_program(0);
            &&& released.program == d0.program
            &&& released.vertex_array == d0.vertex_array
            &&& released.array_buffer == d0.array_buffer
            &&& released.element_array_buffer == d0.element_array_buffer
            &&& released.next_handle == d0.next_handle
            &&& released.log == d0.log + seq![
                Cmd::UseProgram { handle },
                Cmd::UseProgram { handle: 0 },
            ]
        }),
{
    let released = d0.with_program(handle).with_program(0);
    assert(released.log =~= d0.log + seq![
        Cmd::UseProgram { handle },
        Cmd::UseProgram { handle: 0 },
    ]);
}

/// A vertex-array guard restores its binding point, moves no other binding
/// point, and appends exactly the bind and the unbind.
pub proof fn lemma_vertex_array_guard_round_trip(d0: DeviceState, handle: u32)
    requires
        d0.vertex_array == 0,
    ensures
        ({
            let released = d0.with_vertex_array(handle).with_vertex_array(0);
            &&& released.vertex_array == d0.vertex_array
            &&& released.program == d0.program
            &&& released.array_buffer == d0.array_buffer
            &&& released.element_array_buffer == d0.element_array_buffer
            &&& released.next_handle == d0.next_handle
            &&& released.log == d0.log + seq![
                Cmd::BindVertexArray { handle },
                Cmd::BindVertexArray { handle: 0 },
            ]
        }),
{
    let released = d0.with_vertex_array(handle).with_vertex_array(0);
    assert(released.log =~= d0.log + seq![
        Cmd::BindVertexArray { handle },
        Cmd::BindVertexArray { handle: 0 },
    ]);
}

/// A buffer guard restores its own target's binding point, moves neither
/// the other buffer target nor any other binding point, and appends
/// exactly the bind and the unbind.
pub proof fn lemma_buffer_guard_round_trip(d0: DeviceState, target: BufferTarget, handle: u32)
    requires
        d0.buffer_binding(target) == 0,
    ensures
        ({
            let released = d0.with_buffer(target, handle).with_buffer(target, 0);
            &&& released.buffer_binding(target) == d0.buffer_binding(target)
            &&& released.array_buffer == d0.array_buffer
            &&& released.element_array_buffer == d0.element_array_buffer
            &&& released.program == d0.program
            &&& released.vertex_array == d0.vertex_array
            &&& released.next_handle == d0.next_handle
            &&& released.log == d0.log + seq![
                Cmd::BindBuffer { target, handle },
                Cmd::BindBuffer { target, handle: 0 },
            ]
        }),
{
    let released = d0.with_buffer(target, handle).with_buffer(target, 0);
    assert(released.log =~= d0.log + seq![
        Cmd::BindBuffer { target, handle },
        Cmd::BindBuffer { target, handle: 0 },
    ]);
}

/// Nested guards release in reverse order of acquisition without
/// interference: with a program guard outer and a vertex-array guard
/// inner, the inner guard's release leaves the outer binding point exactly
/// as the outer guard set it, and after both releases both points are back
/// in the unbound state.
pub proof fn lemma_nested_guards_release(d0: DeviceState, program_handle: u32, vao_handle: u32)
    requires
        d0.program == 0,
        d0.vertex_array == 0,
    ensures
        ({
            let outer_bound = d0.with_program(program_handle);
            let inner_bound = outer_bound.with_vertex_array(vao_handle);
            let inner_released = inner_bound.with_vertex_array(0);
            let outer_released = inner_released.with_program(0);
            &&& inner_released.program == program_handle
            &&& inner_released.vertex_array == 0
            &&& inner_released.array_buffer == d0.array_buffer
            &&& inner_released.element_array_buffer == d0.element_array_buffer
            &&& outer_released.program == 0
            &&& outer_released.vertex_array == 0
            &&& outer_released.next_handle == d0.next_handle
        }),
{
}

/// The payloads a command sequence sends to device memory, in order: the
/// bytes of each `BufferData` command, and nothing else.
pub open spec fn sent_payloads(cmds: Seq<Cmd>) -> Seq<Seq<u8>>
    decreases cmds.len(),
{
    if cmds.len() == 0 {
        Seq::empty()
    } else {
        sent_payloads(cmds.drop_last()) + (match cmds.last() {
            Cmd::BufferData { bytes, .. } => seq![bytes],
            _ => Seq::<Seq<u8>>::empty(),
        })
    }
}

proof fn lemma_sent_payloads_concat(a: Seq<Cmd>, b: Seq<Cmd>)
    ensures
        sent_payloads(a + b) == sent_payloads(a) + sent_payloads(b),
    decreases b.len(),
{
    if b.len() == 0 {
        assert(a + b =~= a);
        assert(sent_payloads(b) =~= Seq::<Seq<u8>>::empty());
        assert(sent_payloads(a) + sent_payloads(b) =~= sent_payloads(a));
    } else {
        lemma_sent_payloads_concat(a, b.drop_last());
        assert((a + b).drop_last() =~= a + b.drop_last());
        assert((a + b).last() == b.last());
        assert(sent_payloads(a + b) =~= sent_payloads(a) + sent_payloads(b));
    }
}

proof fn lemma_uniform_cmds_send_nothing(n: nat)
    ensures
        sent_payloads(uniform_cmds(n)) == Seq::<Seq<u8>>::empty(),
    decreases n,
{
    if n == 0 {
        assert(uniform_cmds(0).len() == 0);
    } else {
        lemma_uniform_cmds_send_nothing((n - 1) as nat);
        assert(uniform_cmds(n).drop_last() =~= uniform_cmds((n - 1) as nat));
        assert(sent_payloads(uniform_cmds(n)) =~= Seq::<Seq<u8>>::empty());
    }
}

proof fn lemma_vbo_upload_payload(v: BufferView, slot: u32)
    ensures
        sent_payloads(vbo_upload_cmds(v, slot)) == seq![v.data.bytes()],
{
    reveal_with_fuel(sent_payloads, 5);
    let bind_and_data = seq![
        Cmd::BindBuffer { target: BufferTarget::Array, handle: v.id },
        Cmd::BufferData {
            target: BufferTarget::Array,
            bytes: v.data.bytes(),
            usage_tag: crate::device::STATIC_DRAW_TAG,
        },
    ];
    let pointer = crate::array_object::attrib_pointer_cmds(slot, v.attr_type);
    let unbind = seq![Cmd::BindBuffer { target: BufferTarget::Array, handle: 0 }];
    assert(vbo_upload_cmds(v, slot) == bind_and_data + pointer + unbind);
    assert(bind_and_data.drop_last() =~= seq![
        Cmd::BindBuffer { target: BufferTarget::Array, handle: v.id },
    ]);
    assert(sent_payloads(bind_and_data) =~= seq![v.data.bytes()]);
    assert(pointer.drop_last() =~= seq![Cmd::EnableVertexAttribArray { slot }]);
    assert(sent_payloads(pointer) =~= Seq::<Seq<u8>>::empty());
    assert(sent_payloads(unbind) =~= Seq::<Seq<u8>>::empty());
    lemma_sent_payloads_concat(bind_and_data, pointer);
    lemma_sent_payloads_concat(bind_and_data + pointer, unbind);
    assert(sent_payloads(vbo_upload_cmds(v, slot)) =~= seq![v.data.bytes()]);
}

proof fn lemma_vbos_upload_payloads(vs: Seq<BufferView>)
    ensures
        sent_payloads(vbos_upload_cmds(vs)) == vs.map_values(|v: BufferView| v.data.bytes()),
    decreases vs.len(),
{
    if vs.len() == 0 {
        assert(vs.map_values(|v: BufferView| v.data.bytes()) =~= Seq::<Seq<u8>>::empty());
    } else {
        lemma_vbos_upload_payloads(vs.drop_last());
        lemma_vbo_upload_payload(vs.last(), (vs.len() - 1) as u32);
        lemma_sent_payloads_concat(
            vbos_upload_cmds(vs.drop_last()),
            vbo_upload_cmds(vs.last(), (vs.len() - 1) as u32),
        );
        assert(sent_payloads(vbos_upload_cmds(vs)) =~= vs.map_values(
            |v: BufferView| v.data.bytes(),
        ));
    }
}

/// An upload sends exactly the retained local data: one payload per vertex
/// buffer, in buffer order, then the index buffer's payload when one is
/// present — nothing else, and nothing twice. Together with the fact that
/// `upload_cmds` depends on the binder's local data alone, a repeated
/// upload of unchanged data re-sends identical bytes.
pub proof fn lemma_upload_sends_exactly_the_buffers(b: BinderView)
    ensures
        sent_payloads(upload_cmds(b)) == b.vbos.map_values(|v: BufferView| v.data.bytes())
            + (match b.ebo {
            Some(e) => seq![e.indices.bytes()],
            None => Seq::<Seq<u8>>::empty(),
        }),
{
    reveal_with_fuel(sent_payloads, 5);
    let use_program = seq![Cmd::UseProgram { handle: b.program }];
    let uniforms = uniform_cmds(b.uniforms.len());
    let bind_vao = seq![Cmd::BindVertexArray { handle: b.vao }];
    let vbos = vbos_upload_cmds(b.vbos);
    let ebo = ebo_upload_cmds(b.ebo);
    let tail = seq![Cmd::BindVertexArray { handle: 0 }, Cmd::UseProgram { handle: 0 }];
    assert(upload_cmds(b) == use_program + uniforms + bind_vao + vbos + ebo + tail);

    assert(sent_payloads(use_program) =~= Seq::<Seq<u8>>::empty());
    lemma_uniform_cmds_send_nothing(b.uniforms.len());
    assert(sent_payloads(bind_vao) =~= Seq::<Seq<u8>>::empty());
    lemma_vbos_upload_payloads(b.vbos);
    match b.ebo {
        Some(e) => {
            let bind_and_data = seq![
                Cmd::BindBuffer { target: BufferTarget::ElementArray, handle: e.id },
                Cmd::BufferData {
                    target: BufferTarget::ElementArray,
                    bytes: e.indices.bytes(),
                    usage_tag: crate::device::STATIC_DRAW_TAG,
                },
            ];
            assert(ebo =~= bind_and_data + seq![
                Cmd::BindBuffer { target: BufferTarget::ElementArray, handle: 0 },
            ]);
            assert(bind_and_data.drop_last() =~= seq![
                Cmd::BindBuffer { target: BufferTarget::ElementArray, handle: e.id },
            ]);
            assert(sent_payloads(bind_and_data) =~= seq![e.indices.bytes()]);
            lemma_sent_payloads_concat(
                bind_and_data,
                seq![Cmd::BindBuffer { target: BufferTarget::ElementArray, handle: 0 }],
            );
            assert(sent_payloads(ebo) =~= seq![e.indices.bytes()]);
        },
        None => {
            assert(sent_payloads(ebo) =~= Seq::<Seq<u8>>::empty());
        },
    }
    assert(tail.drop_last() =~= seq![Cmd::BindVertexArray { handle: 0 }]);
    assert(sent_payloads(tail) =~= Seq::<Seq<u8>>::empty());

    lemma_sent_payloads_concat(use_program, uniforms);
    lemma_sent_payloads_concat(use_program + uniforms, bind_vao);
    lemma_sent_payloads_concat(use_program + uniforms + bind_vao, vbos);
    lemma_sent_payloads_concat(use_program + uniforms + bind_vao + vbos, ebo);
    lemma_sent_payloads_concat(use_program + uniforms + bind_vao + vbos + ebo, tail);
    assert(sent_payloads(upload_cmds(b)) =~= b.vbos.map_values(|v: BufferView| v.data.bytes())
        + (match b.ebo {
        Some(e) => seq![e.indices.bytes()],
        None => Seq::<Seq<u8>>::empty(),
    }));
}

/// Uploading is repeatable byte for byte: the command segment a second
/// upload of an unchanged binder appends to the trace equals the segment
/// the first upload appended, including every `BufferData` payload.
pub proof fn lemma_upload_twice_identical(
    b: BinderView,
    d0: DeviceState,
    d1: DeviceState,
    d2: DeviceState,
)
    requires
        d1.log == d0.log + upload_cmds(b),
        d2.log == d1.log + upload_cmds(b),
    ensures
        d2.log.subrange(d1.log.len() as int, d2.log.len() as int) == d1.log.subrange(
            d0.log.len() as int,
            d1.log.len() as int,
        ),
{
    assert(d1.log.subrange(d0.log.len() as int, d1.log.len() as int) =~= upload_cmds(b));
    assert(d2.log.subrange(d1.log.len() as int, d2.log.len() as int) =~= upload_cmds(b));
}

} // verus!
