use vstd::prelude::*;

use crate::array_object::{self, attrib_pointer_cmds, ArrayObject};
use crate::buffer::{BufferObject, BufferView};
use crate::device::{BufferTarget, Cmd, Device, DeviceState, STATIC_DRAW_TAG};
use crate::index_buffer::{IndexBufferObject, IndexBufferView, IndexType};
use crate::program::{self, Program};
use crate::uniform::Uniform;

verus! {

/// The commands that bind the uniforms: each uniform goes to the location
/// given by its position in the collection.
pub open spec fn uniform_cmds(n: nat) -> Seq<Cmd> {
    Seq::new(n, |i: int| Cmd::BindUniform { location: i as u32 })
}

/// The commands one vertex buffer contributes to an upload: bind it, send
/// its bytes, configure its slot from its shape, unbind it.
pub open spec fn vbo_upload_cmds(v: BufferView, slot: u32) -> Seq<Cmd> {
    seq![
        Cmd::BindBuffer { target: BufferTarget::Array, handle: v.id },
        Cmd::BufferData {
            target: BufferTarget::Array,
            bytes: v.data.bytes(),
            usage_tag: STATIC_DRAW_TAG,
        },
    ] + attrib_pointer_cmds(slot, v.attr_type) + seq![
        Cmd::BindBuffer { target: BufferTarget::Array, handle: 0 },
    ]
}

/// The commands of all vertex buffers in order; buffer `i` configures
/// slot `i`.
pub open spec fn vbos_upload_cmds(vs: Seq<BufferView>) -> Seq<Cmd>
    decreases vs.len(),
{
    if vs.len() == 0 {
        Seq::empty()
    } else {
        vbos_upload_cmds(vs.drop_last()) + vbo_upload_cmds(vs.last(), (vs.len() - 1) as u32)
    }
}

/// The commands the index buffer contributes, when one is present: bind it,
/// send its bytes, unbind it.
pub open spec fn ebo_upload_cmds(e: Option<IndexBufferView>) -> Seq<Cmd> {
    match e {
        Some(e) => seq![
            Cmd::BindBuffer { target: BufferTarget::ElementArray, handle: e.id },
            Cmd::BufferData {
                target: BufferTarget::ElementArray,
                bytes: e.indices.bytes(),
                usage_tag: STATIC_DRAW_TAG,
            },
            Cmd::BindBuffer { target: BufferTarget::ElementArray, handle: 0 },
        ],
        None => Seq::empty(),
    }
}

/// The exact command sequence one upload issues, a function of the binder's
/// local data alone: bind the program, bind the uniforms by position, bind
/// the vertex array, handle each vertex buffer in order, handle the index
/// buffer if present, then release the vertex array and the program.
pub open spec fn upload_cmds(b: BinderView) -> Seq<Cmd> {
    seq![Cmd::UseProgram { handle: b.program }] + uniform_cmds(b.uniforms.len()) + seq![
        Cmd::BindVertexArray { handle: b.vao },
    ] + vbos_upload_cmds(b.vbos) + ebo_upload_cmds(b.ebo) + seq![
        Cmd::BindVertexArray { handle: 0 },
        Cmd::UseProgram { handle: 0 },
    ]
}

/// The commands that release the vertex buffers' handles, newest first.
pub open spec fn vbos_delete_cmds(vs: Seq<BufferView>) -> Seq<Cmd> {
    Seq::new(vs.len(), |i: int| Cmd::DeleteBuffer { handle: vs[vs.len() - 1 - i].id })
}

/// The exact command sequence a teardown issues: the vertex buffers'
/// handles newest first, the index buffer's handle if present, the vertex
/// array's handle, the program's handle.
pub open spec fn delete_cmds(b: BinderView) -> Seq<Cmd> {
    vbos_delete_cmds(b.vbos) + (match b.ebo {
        Some(e) => seq![Cmd::DeleteBuffer { handle: e.id }],
        None => Seq::empty(),
    }) + seq![
        Cmd::DeleteVertexArray { handle: b.vao },
        Cmd::DeleteProgram { handle: b.program },
    ]
}

/// The authoritative per-draw vertex count: the index buffer's length when
/// one is present, else the first vertex buffer's vertex count.
pub open spec fn spec_vertex_count(b: BinderView) -> nat {
    match b.ebo {
        Some(e) => e.indices.len(),
        None => b.vbos[0].vertex_count(),
    }
}

/// The mathematical image of a binder.
#[verifier::ext_equal]
pub struct BinderView {
    pub vao: u32,
    pub vbos: Seq<BufferView>,
    pub ebo: Option<IndexBufferView>,
    pub program: u32,
    pub uniforms: Seq<Seq<char>>,
}

impl BinderView {
    /// Handles are live, every buffer is well formed, and the collections
    /// are small enough for position-based slot numbering.
    pub open spec fn wf(self) -> bool {
        &&& self.vao != 0
        &&& self.program != 0
        &&& forall|i: int| 0 <= i < self.vbos.len() ==> (#[trigger] self.vbos[i]).wf()
        &&& (self.ebo matches Some(e) ==> e.wf())
        &&& self.vbos.len() <= u32::MAX
        &&& self.uniforms.len() <= u32::MAX
    }
}

/// The aggregate that owns one vertex array object, the vertex buffers, an
/// optional index buffer, the program and the uniform references, and
/// orchestrates their upload in a fixed order.
pub struct Binder {
    vao: ArrayObject,
    vbos: Vec<BufferObject>,
    ebo: Option<IndexBufferObject>,
    program: Program,
    uniforms: Vec<Uniform>,
}

impl View for Binder {
    type V = BinderView;

    closed spec fn view(&self) -> BinderView {
        BinderView {
            vao: self.vao.spec_id(),
            vbos: self.vbos@.map_values(|b: BufferObject| b@),
            ebo: match self.ebo {
                Some(e) => Some(e@),
                None => None,
            },
            program: self.program.spec_id(),
            uniforms: self.uniforms@.map_values(|u: Uniform| u@),
        }
    }
}

impl Binder {
    /// Aggregates the parts and allocates the vertex array's device handle.
    /// No data moves to the device until `upload` is called.
    pub fn new(
        device: &mut Device,
        vbos: Vec<BufferObject>,
        ebo: Option<IndexBufferObject>,
        program: Program,
        uniforms: Vec<Uniform>,
    ) -> (r: Binder)
        requires
            old(device)@.wf(),
            old(device)@.next_handle < u32::MAX,
            program.spec_id() != 0,
            forall|i: int| 0 <= i < vbos@.len() ==> (#[trigger] vbos@[i])@.wf(),
            ebo matches Some(e) ==> e@.wf(),
            vbos@.len() <= u32::MAX,
            uniforms@.len() <= u32::MAX,
        ensures
            r@ == (BinderView {
                vao: old(device)@.next_handle,
                vbos: vbos@.map_values(|b: BufferObject| b@),
                ebo: match ebo {
                    Some(e) => Some(e@),
                    None => None,
                },
                program: program.spec_id(),
                uniforms: uniforms@.map_values(|u: Uniform| u@),
            }),
            r@.wf(),
            final(device)@ == (DeviceState {
                next_handle: (old(device)@.next_handle + 1) as u32,
                log: old(device)@.log.push(Cmd::CreateVertexArray { handle: r@.vao }),
                ..old(device)@
            }),
    {
        let vao = ArrayObject::create(device);
        let r = Binder { vao, vbos, ebo, program, uniforms };
        proof {
            assert(forall|i: int|
                0 <= i < r@.vbos.len() ==> (#[trigger] r@.vbos[i]).wf());
        }
        r
    }

    /// The authoritative per-draw vertex count: the index buffer's length
    /// when one is present, else the first vertex buffer's vertex count.
    pub fn vertex_count(&self) -> (r: usize)
        requires
            self@.wf(),
            self@.ebo is Some || self@.vbos.len() > 0,
        ensures
            r == spec_vertex_count(self@),
    {
        match &self.ebo {
            Some(index_buffer) => index_buffer.vertex_count(),
            None => {
                proof {
                    assert(self@.vbos[0] == self.vbos@[0]@);
                }
                self.vbos[0].vertex_count()
            },
        }
    }

    /// The index-type tag of the index buffer, when one is present.
    pub fn index_type(&self) -> (r: Option<IndexType>)
        ensures
            r == (match self@.ebo {
                Some(e) => Some(e.indices.index_type()),
                None => None::<IndexType>,
            }),
    {
        match &self.ebo {
            Some(index_buffer) => Some(index_buffer.index_type()),
            None => None,
        }
    }

    /// The owned vertex array object.
    pub fn vao(&self) -> (r: &ArrayObject)
        ensures
            r.spec_id() == self@.vao,
    {
        &self.vao
    }

    /// Read access to the owned vertex buffers.
    pub fn buffers(&self) -> (r: &Vec<BufferObject>)
        ensures
            r@.map_values(|b: BufferObject| b@) == self@.vbos,
    {
        &self.vbos
    }

    /// Acquires a scoped binder for the owned program.
    pub fn program_binder(&self, device: &mut Device) -> (s: program::ScopedBinder)
        requires
            self@.wf(),
            old(device)@.program == 0,
        ensures
            s.spec_handle() == self@.program,
            final(device)@ == old(device)@.with_program(self@.program),
    {
        self.program.scoped_binder(device)
    }

    /// Acquires a scoped binder for the owned vertex array.
    pub fn vao_binder(&self, device: &mut Device) -> (s: array_object::ScopedBinder)
        requires
            self@.wf(),
            old(device)@.vertex_array == 0,
        ensures
            s.spec_handle() == self@.vao,
            final(device)@ == old(device)@.with_vertex_array(self@.vao),
    {
        self.vao.scoped_binder(device)
    }

    /// Acquires the composed draw-ready guard: program first, vertex array
    /// second. The two guards cover distinct binding points, so they
    /// compose without interference.
    pub fn draw_binder(&self, device: &mut Device) -> (s: DrawScopedBinder)
        requires
            self@.wf(),
            old(device)@.program == 0,
            old(device)@.vertex_array == 0,
        ensures
            s.spec_program_handle() == self@.program,
            s.spec_vao_handle() == self@.vao,
            final(device)@ == old(device)@.with_program(self@.program).with_vertex_array(
                self@.vao,
            ),
    {
        let program_guard = self.program_binder(device);
        let vao_guard = self.vao_binder(device);
        DrawScopedBinder::new(program_guard, vao_guard)
    }

    /// Pushes the binder's full local data to the device, in the fixed
    /// order stated by `upload_cmds`: program, uniforms by position, vertex
    /// array, each vertex buffer (bind, send bytes, configure its slot,
    /// unbind) and finally the index buffer if present. Every binding point
    /// ends where it started: unbound. Calling it again with unchanged
    /// local data appends the identical command sequence.
    pub fn upload(&self, device: &mut Device)
        requires
            self@.wf(),
            old(device)@.program == 0,
            old(device)@.vertex_array == 0,
            old(device)@.array_buffer == 0,
            old(device)@.element_array_buffer == 0,
        ensures
            final(device)@ == (DeviceState {
                log: old(device)@.log + upload_cmds(self@),
                ..old(device)@
            }),
    {
        let ghost d0 = device@;
        let program_guard = self.program.scoped_binder(device);
        let ghost d1 = device@;

        let uniform_count = self.uniforms.len();
        let mut i: usize = 0;
        proof {
            assert(d1.log + uniform_cmds(0) =~= d1.log);
            assert(device@ =~= (DeviceState { log: d1.log + uniform_cmds(0), ..d1 }));
        }
        while i < uniform_count
            invariant
                i <= uniform_count,
                uniform_count == self.uniforms@.len(),
                self@.wf(),
                uniform_count <= u32::MAX,
                device@ == (DeviceState { log: d1.log + uniform_cmds(i as nat), ..d1 }),
            decreases uniform_count - i,
        {
            let uniform = &self.uniforms[i];
            uniform.bind(device, i as u32);
            proof {
                assert(uniform_cmds((i + 1) as nat) =~= uniform_cmds(i as nat).push(
                    Cmd::BindUniform { location: i as u32 },
                ));
                assert(device@ =~= (DeviceState {
                    log: d1.log + uniform_cmds((i + 1) as nat),
                    ..d1
                }));
            }
            i = i + 1;
        }

        let vao_guard = self.vao.scoped_binder(device);
        let ghost d2 = device@;
        proof {
            assert(self@.uniforms.len() == uniform_count);
        }

        let vbo_count = self.vbos.len();
        let mut k: usize = 0;
        proof {
            assert(d2.log + vbos_upload_cmds(self@.vbos.subrange(0, 0)) =~= d2.log);
            assert(device@ =~= (DeviceState {
                log: d2.log + vbos_upload_cmds(self@.vbos.subrange(0, 0)),
                ..d2
            }));
        }
        while k < vbo_count
            invariant
                k <= vbo_count,
                vbo_count == self.vbos@.len(),
                self@.wf(),
                self@.vbos.len() == vbo_count,
                d2.array_buffer == 0,
                d2.element_array_buffer == 0,
                d2.vertex_array == self@.vao,
                device@ == (DeviceState {
                    log: d2.log + vbos_upload_cmds(self@.vbos.subrange(0, k as int)),
                    ..d2
                }),
            decreases vbo_count - k,
        {
            let vbo = &self.vbos[k];
            proof {
                assert(self@.vbos[k as int] == self.vbos@[k as int]@);
                assert(self@.vbos[k as int].wf());
            }
            let ghost dk = device@;
            let buffer_guard = vbo.scoped_binder(device);
            vbo.upload(device);
            self.vao.set_vertex_attrib_pointer(device, k as u32, &vbo.attribute_type());
            buffer_guard.release(device);
            proof {
                let v = self@.vbos[k as int];
                assert(device@.log =~= dk.log + vbo_upload_cmds(v, k as u32));
                assert(self@.vbos.subrange(0, (k + 1) as int).drop_last() =~= self@.vbos.subrange(
                    0,
                    k as int,
                ));
                assert(self@.vbos.subrange(0, (k + 1) as int).last() == v);
                assert(vbos_upload_cmds(self@.vbos.subrange(0, (k + 1) as int))
                    == vbos_upload_cmds(self@.vbos.subrange(0, k as int)) + vbo_upload_cmds(
                    v,
                    k as u32,
                ));
                assert(device@ =~= (DeviceState {
                    log: d2.log + vbos_upload_cmds(self@.vbos.subrange(0, (k + 1) as int)),
                    ..d2
                }));
            }
            k = k + 1;
        }
        proof {
            assert(self@.vbos.subrange(0, vbo_count as int) =~= self@.vbos);
        }

        let ghost d3 = device@;
        match &self.ebo {
            Some(index_buffer) => {
                let index_guard = index_buffer.scoped_binder(device);
                index_buffer.upload(device);
                index_guard.release(device);
                proof {
                    assert(device@.log =~= d3.log + ebo_upload_cmds(self@.ebo));
                    assert(device@ =~= (DeviceState {
                        log: d3.log + ebo_upload_cmds(self@.ebo),
                        ..d3
                    }));
                }
            },
            None => {
                proof {
                    assert(d3.log + ebo_upload_cmds(self@.ebo) =~= d3.log);
                    assert(device@ =~= (DeviceState {
                        log: d3.log + ebo_upload_cmds(self@.ebo),
                        ..d3
                    }));
                }
            },
        }

        vao_guard.release(device);
        program_guard.release(device);

        proof {
            assert(device@.log =~= d0.log + upload_cmds(self@));
            assert(device@ =~= (DeviceState { log: d0.log + upload_cmds(self@), ..d0 }));
        }
    }

    /// Deterministic teardown: releases every owned device handle exactly
    /// once (the binder is consumed), in the fixed order of `delete_cmds`.
    /// The externally owned uniforms are merely dropped. Binding points do
    /// not move.
    pub fn delete(self, device: &mut Device)
        ensures
            final(device)@ == (DeviceState {
                log: old(device)@.log + delete_cmds(self@),
                ..old(device)@
            }),
    {
        let ghost d0 = device@;
        let ghost orig = self@;
        let Binder { vao, mut vbos, ebo, program, uniforms: _ } = self;
        proof {
            assert(orig.vbos =~= vbos@.map_values(|b: BufferObject| b@));
            assert(vbos_delete_cmds(orig.vbos).subrange(0, 0) =~= Seq::<Cmd>::empty());
            assert(d0.log + vbos_delete_cmds(orig.vbos).subrange(0, 0) =~= d0.log);
            assert(device@ =~= (DeviceState {
                log: d0.log + vbos_delete_cmds(orig.vbos).subrange(0, 0),
                ..d0
            }));
        }
        while vbos.len() > 0
            invariant
                vbos@.map_values(|b: BufferObject| b@) == orig.vbos.subrange(
                    0,
                    vbos@.len() as int,
                ),
                vbos@.len() <= orig.vbos.len(),
                device@ == (DeviceState {
                    log: d0.log + vbos_delete_cmds(orig.vbos).subrange(
                        0,
                        orig.vbos.len() - vbos@.len(),
                    ),
                    ..d0
                }),
            decreases vbos.len(),
        {
            let ghost remaining = vbos@.len();
            let next = vbos.pop().unwrap();
            proof {
                assert(next@ == vbos@.map_values(|b: BufferObject| b@).push(next@)[remaining
                    - 1]);
                assert(vbos@.map_values(|b: BufferObject| b@).push(next@) =~= orig.vbos.subrange(
                    0,
                    remaining as int,
                ));
                assert(next@ == orig.vbos[remaining - 1]);
                assert(vbos@.map_values(|b: BufferObject| b@) =~= orig.vbos.subrange(
                    0,
                    vbos@.len() as int,
                ));
            }
            next.delete(device);
            proof {
                let done = orig.vbos.len() - remaining;
                assert(vbos_delete_cmds(orig.vbos)[done as int] == Cmd::DeleteBuffer {
                    handle: orig.vbos[remaining - 1].id,
                });
                assert(vbos_delete_cmds(orig.vbos).subrange(0, done + 1)
                    =~= vbos_delete_cmds(orig.vbos).subrange(0, done as int).push(
                    Cmd::DeleteBuffer { handle: orig.vbos[remaining - 1].id },
                ));
                assert(device@ =~= (DeviceState {
                    log: d0.log + vbos_delete_cmds(orig.vbos).subrange(0, done + 1),
                    ..d0
                }));
            }
        }
        proof {
            assert(vbos_delete_cmds(orig.vbos).subrange(0, orig.vbos.len() as int)
                =~= vbos_delete_cmds(orig.vbos));
        }
        match ebo {
            Some(index_buffer) => {
                index_buffer.delete(device);
            },
            None => {},
        }
        vao.delete(device);
        program.delete(device);
        proof {
            assert(device@.log =~= d0.log + delete_cmds(orig));
            assert(device@ =~= (DeviceState { log: d0.log + delete_cmds(orig), ..d0 }));
        }
    }
}

/// The composed draw-ready guard: one program guard and one vertex-array
/// guard, covering the two binding points a draw call needs. Release order
/// is the reverse of acquisition: the vertex array first, the program
/// second.
pub struct DrawScopedBinder {
    program_guard: program::ScopedBinder,
    vao_guard: array_object::ScopedBinder,
}

impl DrawScopedBinder {
    /// The handle the program guard bound.
    pub closed spec fn spec_program_handle(&self) -> u32 {
        self.program_guard.spec_handle()
    }

    /// The handle the vertex-array guard bound.
    pub closed spec fn spec_vao_handle(&self) -> u32 {
        self.vao_guard.spec_handle()
    }

    /// Composes the two guards into one.
    pub fn new(program_guard: program::ScopedBinder, vao_guard: array_object::ScopedBinder) -> (s:
        DrawScopedBinder)
        ensures
            s.spec_program_handle() == program_guard.spec_handle(),
            s.spec_vao_handle() == vao_guard.spec_handle(),
    {
        DrawScopedBinder { program_guard, vao_guard }
    }

    /// Releases the two guards in reverse order of acquisition: the
    /// vertex-array binding point returns to unbound first, the program
    /// binding point second. Each release moves only its own point, and the
    /// guard is consumed, so both restorations happen exactly once.
    pub fn release(self, device: &mut Device)
        requires
            old(device)@.program == self.spec_program_handle(),
            old(device)@.vertex_array == self.spec_vao_handle(),
        ensures
            final(device)@ == old(device)@.with_vertex_array(0).with_program(0),
    {
        let DrawScopedBinder { program_guard, vao_guard } = self;
        vao_guard.release(device);
        program_guard.release(device);
    }
}

} // verus!
