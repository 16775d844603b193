use vstd::prelude::*;

verus! {

/// The two buffer binding targets this layer uses: vertex attribute data and
/// primitive index data.
#[derive(Clone, Copy, Debug, PartialEq, Eq, Structural)]
pub enum BufferTarget {
    Array,
    ElementArray,
}

impl BufferTarget {
    /// The graphics-API tag of this binding target.
    pub open spec fn spec_tag(self) -> u32 {
        match self {
            BufferTarget::Array => 0x8892,
            BufferTarget::ElementArray => 0x8893,
        }
    }

    #[verifier::when_used_as_spec(spec_tag)]
    pub fn tag(self) -> (r: u32)
        ensures
            r == self.spec_tag(),
    {
        match self {
            BufferTarget::Array => 0x8892,
            BufferTarget::ElementArray => 0x8893,
        }
    }
}

/// Usage hint sent with every payload: uploaded once, drawn many times.
pub const STATIC_DRAW_TAG: u32 = 0x88E4;

/// One command issued to the graphics device, as the executor receives it.
/// `BufferData` owns the exact bytes that are sent to device memory.
#[derive(Clone, Debug, PartialEq)]
pub enum GlCommand {
    CreateBuffer { handle: u32 },
    CreateVertexArray { handle: u32 },
    UseProgram { handle: u32 },
    BindVertexArray { handle: u32 },
    BindBuffer { target: BufferTarget, handle: u32 },
    BufferData { target: BufferTarget, bytes: Vec<u8>, usage_tag: u32 },
    EnableVertexAttribArray { slot: u32 },
    VertexAttribPointer { slot: u32, element_count: u32, type_tag: u32, stride: u32 },
    VertexAttribDivisor { slot: u32, divisor: u32 },
    BindUniform { location: u32 },
    DrawArrays { mode_tag: u32, vertex_count: usize },
    DrawArraysInstanced { mode_tag: u32, vertex_count: usize, instance_count: usize },
    DrawElements { mode_tag: u32, vertex_count: usize, index_type_tag: u32 },
    DrawElementsInstanced {
        mode_tag: u32,
        vertex_count: usize,
        index_type_tag: u32,
        instance_count: usize,
    },
    DeleteBuffer { handle: u32 },
    DeleteVertexArray { handle: u32 },
    DeleteProgram { handle: u32 },
}

/// The mathematical image of one device command.
pub enum Cmd {
    CreateBuffer { handle: u32 },
    CreateVertexArray { handle: u32 },
    UseProgram { handle: u32 },
    BindVertexArray { handle: u32 },
    BindBuffer { target: BufferTarget, handle: u32 },
    BufferData { target: BufferTarget, bytes: Seq<u8>, usage_tag: u32 },
    EnableVertexAttribArray { slot: u32 },
    VertexAttribPointer { slot: u32, element_count: u32, type_tag: u32, stride: u32 },
    VertexAttribDivisor { slot: u32, divisor: u32 },
    BindUniform { location: u32 },
    DrawArrays { mode_tag: u32, vertex_count: usize },
    DrawArraysInstanced { mode_tag: u32, vertex_count: usize, instance_count: usize },
    DrawElements { mode_tag: u32, vertex_count: usize, index_type_tag: u32 },
    DrawElementsInstanced {
        mode_tag: u32,
        vertex_count: usize,
        index_type_tag: u32,
        instance_count: usize,
    },
    DeleteBuffer { handle: u32 },
    DeleteVertexArray { handle: u32 },
    DeleteProgram { handle: u32 },
}

impl View for GlCommand {
    type V = Cmd;

    open spec fn view(&self) -> Cmd {
        match self {
            GlCommand::CreateBuffer { handle } => Cmd::CreateBuffer { handle: *handle },
            GlCommand::CreateVertexArray { handle } => Cmd::CreateVertexArray { handle: *handle },
            GlCommand::UseProgram { handle } => Cmd::UseProgram { handle: *handle },
            GlCommand::BindVertexArray { handle } => Cmd::BindVertexArray { handle: *handle },
            GlCommand::BindBuffer { target, handle } => Cmd::BindBuffer {
                target: *target,
                handle: *handle,
            },
            GlCommand::BufferData { target, bytes, usage_tag } => Cmd::BufferData {
                target: *target,
                bytes: bytes@,
                usage_tag: *usage_tag,
            },
            GlCommand::EnableVertexAttribArray { slot } => Cmd::EnableVertexAttribArray {
                slot: *slot,
            },
            GlCommand::VertexAttribPointer { slot, element_count, type_tag, stride } =>
                Cmd::VertexAttribPointer {
                    slot: *slot,
                    element_count: *element_count,
                    type_tag: *type_tag,
                    stride: *stride,
                },
            GlCommand::VertexAttribDivisor { slot, divisor } => Cmd::VertexAttribDivisor {
                slot: *slot,
                divisor: *divisor,
            },
            GlCommand::BindUniform { location } => Cmd::BindUniform { location: *location },
            GlCommand::DrawArrays { mode_tag, vertex_count } => Cmd::DrawArrays {
                mode_tag: *mode_tag,
                vertex_count: *vertex_count,
            },
            GlCommand::DrawArraysInstanced { mode_tag, vertex_count, instance_count } =>
                Cmd::DrawArraysInstanced {
                    mode_tag: *mode_tag,
                    vertex_count: *vertex_count,
                    instance_count: *instance_count,
                },
            GlCommand::DrawElements { mode_tag, vertex_count, index_type_tag } =>
                Cmd::DrawElements {
                    mode_tag: *mode_tag,
                    vertex_count: *vertex_count,
                    index_type_tag: *index_type_tag,
                },
            GlCommand::DrawElementsInstanced {
                mode_tag,
                vertex_count,
                index_type_tag,
                instance_count,
            } => Cmd::DrawElementsInstanced {
                mode_tag: *mode_tag,
                vertex_count: *vertex_count,
                index_type_tag: *index_type_tag,
                instance_count: *instance_count,
            },
            GlCommand::DeleteBuffer { handle } => Cmd::DeleteBuffer { handle: *handle },
            GlCommand::DeleteVertexArray { handle } => Cmd::DeleteVertexArray {
                handle: *handle,
            },
            GlCommand::DeleteProgram { handle } => Cmd::DeleteProgram { handle: *handle },
        }
    }
}

/// The abstract state of the modelled device: the next fresh handle, the
/// handle bound at each binding point (0 means unbound) and the ordered
/// trace of every command issued so far.
#[verifier::ext_equal]
pub struct DeviceState {
    pub next_handle: u32,
    pub program: u32,
    pub vertex_array: u32,
    pub array_buffer: u32,
    pub element_array_buffer: u32,
    pub log: Seq<Cmd>,
}

impl DeviceState {
    /// Handle numbering starts at one, so zero always means unbound.
    pub open spec fn wf(self) -> bool {
        self.next_handle >= 1
    }

    /// The handle bound at the given buffer target.
    pub open spec fn buffer_binding(self, target: BufferTarget) -> u32 {
        match target {
            BufferTarget::Array => self.array_buffer,
            BufferTarget::ElementArray => self.element_array_buffer,
        }
    }

    /// The state after moving the program binding point to `handle`.
    pub open spec fn with_program(self, handle: u32) -> DeviceState {
        DeviceState { program: handle, log: self.log.push(Cmd::UseProgram { handle }), ..self }
    }

    /// The state after moving the vertex-array binding point to `handle`.
    pub open spec fn with_vertex_array(self, handle: u32) -> DeviceState {
        DeviceState {
            vertex_array: handle,
            log: self.log.push(Cmd::BindVertexArray { handle }),
            ..self
        }
    }

    /// The state after moving one buffer binding point to `handle`.
    pub open spec fn with_buffer(self, target: BufferTarget, handle: u32) -> DeviceState {
        match target {
            BufferTarget::Array => DeviceState {
                array_buffer: handle,
                log: self.log.push(Cmd::BindBuffer { target, handle }),
                ..self
            },
            BufferTarget::ElementArray => DeviceState {
                element_array_buffer: handle,
                log: self.log.push(Cmd::BindBuffer { target, handle }),
                ..self
            },
        }
    }

    /// The state after a command that moves no binding point.
    pub open spec fn logged(self, cmd: Cmd) -> DeviceState {
        DeviceState { log: self.log.push(cmd), ..self }
    }
}

/// The modelled graphics device. It tracks the four binding points and
/// records every command; an unverified executor later replays the trace
/// against the real graphics API.
pub struct Device {
    next_handle: u32,
    bound_program: u32,
    bound_vertex_array: u32,
    bound_array_buffer: u32,
    bound_element_array_buffer: u32,
    trace: Vec<GlCommand>,
}

impl View for Device {
    type V = DeviceState;

    closed spec fn view(&self) -> DeviceState {
        DeviceState {
            next_handle: self.next_handle,
            program: self.bound_program,
            vertex_array: self.bound_vertex_array,
            array_buffer: self.bound_array_buffer,
            element_array_buffer: self.bound_element_array_buffer,
            log: self.trace@.map_values(|c: GlCommand| c@),
        }
    }
}

impl Device {
    /// A fresh device: nothing bound, no handle given out, empty trace.
    pub fn new() -> (r: Device)
        ensures
            r@ == (DeviceState {
                next_handle: 1,
                program: 0,
                vertex_array: 0,
                array_buffer: 0,
                element_array_buffer: 0,
                log: Seq::<Cmd>::empty(),
            }),
    {
        let d = Device {
            next_handle: 1,
            bound_program: 0,
            bound_vertex_array: 0,
            bound_array_buffer: 0,
            bound_element_array_buffer: 0,
            trace: Vec::new(),
        };
        proof {
            assert(d@.log =~= Seq::<Cmd>::empty());
            assert(d@ =~= (DeviceState {
                next_handle: 1,
                program: 0,
                vertex_array: 0,
                array_buffer: 0,
                element_array_buffer: 0,
                log: Seq::<Cmd>::empty(),
            }));
        }
        d
    }

    /// Appends one command to the trace; binding points do not move.
    fn emit(&mut self, cmd: GlCommand)
        ensures
            final(self)@ == old(self)@.logged(cmd@),
    {
        let ghost pre = self@;
        let ghost c = cmd@;
        self.trace.push(cmd);
        proof {
            assert(self@.log =~= pre.log.push(c));
            assert(self@ =~= pre.logged(c));
        }
    }

    /// Allocates a fresh buffer handle and records its creation.
    pub fn create_buffer(&mut self) -> (h: u32)
        requires
            old(self)@.next_handle < u32::MAX,
        ensures
            h == old(self)@.next_handle,
            final(self)@ == (DeviceState {
                next_handle: (old(self)@.next_handle + 1) as u32,
                log: old(self)@.log.push(Cmd::CreateBuffer { handle: h }),
                ..old(self)@
            }),
    {
        let h = self.next_handle;
        self.next_handle = h + 1;
        self.emit(GlCommand::CreateBuffer { handle: h });
        proof {
            assert(self@ =~= (DeviceState {
                next_handle: (old(self)@.next_handle + 1) as u32,
                log: old(self)@.log.push(Cmd::CreateBuffer { handle: h }),
                ..old(self)@
            }));
        }
        h
    }

    /// Allocates a fresh vertex-array handle and records its creation.
    pub fn create_vertex_array(&mut self) -> (h: u32)
        requires
            old(self)@.next_handle < u32::MAX,
        ensures
            h == old(self)@.next_handle,
            final(self)@ == (DeviceState {
                next_handle: (old(self)@.next_handle + 1) as u32,
                log: old(self)@.log.push(Cmd::CreateVertexArray { handle: h }),
                ..old(self)@
            }),
    {
        let h = self.next_handle;
        self.next_handle = h + 1;
        self.emit(GlCommand::CreateVertexArray { handle: h });
        proof {
            assert(self@ =~= (DeviceState {
                next_handle: (old(self)@.next_handle + 1) as u32,
                log: old(self)@.log.push(Cmd::CreateVertexArray { handle: h }),
                ..old(self)@
            }));
        }
        h
    }

    /// Moves the program binding point.
    pub(crate) fn bind_program(&mut self, handle: u32)
        ensures
            final(self)@ == old(self)@.with_program(handle),
    {
        self.bound_program = handle;
        self.emit(GlCommand::UseProgram { handle });
        proof {
            assert(self@ =~= old(self)@.with_program(handle));
        }
    }

    /// Moves the vertex-array binding point.
    pub(crate) fn bind_vertex_array(&mut self, handle: u32)
        ensures
            final(self)@ == old(self)@.with_vertex_array(handle),
    {
        self.bound_vertex_array = handle;
        self.emit(GlCommand::BindVertexArray { handle });
        proof {
            assert(self@ =~= old(self)@.with_vertex_array(handle));
        }
    }

    /// Moves one buffer binding point.
    pub(crate) fn bind_buffer(&mut self, target: BufferTarget, handle: u32)
        ensures
            final(self)@ == old(self)@.with_buffer(target, handle),
    {
        match target {
            BufferTarget::Array => {
                self.bound_array_buffer = handle;
            },
            BufferTarget::ElementArray => {
                self.bound_element_array_buffer = handle;
            },
        }
        self.emit(GlCommand::BindBuffer { target, handle });
        proof {
            assert(self@ =~= old(self)@.with_buffer(target, handle));
        }
    }

    /// Sends a payload to the buffer bound at `target`, with the static
    /// usage hint.
    pub(crate) fn buffer_data(&mut self, target: BufferTarget, bytes: Vec<u8>)
        ensures
            final(self)@ == old(self)@.logged(
                Cmd::BufferData { target, bytes: bytes@, usage_tag: STATIC_DRAW_TAG },
            ),
    {
        self.emit(GlCommand::BufferData { target, bytes, usage_tag: STATIC_DRAW_TAG });
    }

    pub(crate) fn enable_vertex_attrib_array(&mut self, slot: u32)
        ensures
            final(self)@ == old(self)@.logged(Cmd::EnableVertexAttribArray { slot }),
    {
        self.emit(GlCommand::EnableVertexAttribArray { slot });
    }

    pub(crate) fn vertex_attrib_pointer(
        &mut self,
        slot: u32,
        element_count: u32,
        type_tag: u32,
        stride: u32,
    )
        ensures
            final(self)@ == old(self)@.logged(
                Cmd::VertexAttribPointer { slot, element_count, type_tag, stride },
            ),
    {
        self.emit(GlCommand::VertexAttribPointer { slot, element_count, type_tag, stride });
    }

    pub(crate) fn vertex_attrib_divisor(&mut self, slot: u32, divisor: u32)
        ensures
            final(self)@ == old(self)@.logged(Cmd::VertexAttribDivisor { slot, divisor }),
    {
        self.emit(GlCommand::VertexAttribDivisor { slot, divisor });
    }

    pub(crate) fn bind_uniform(&mut self, location: u32)
        ensures
            final(self)@ == old(self)@.logged(Cmd::BindUniform { location }),
    {
        self.emit(GlCommand::BindUniform { location });
    }

    pub(crate) fn draw_arrays(&mut self, mode_tag: u32, vertex_count: usize)
        ensures
            final(self)@ == old(self)@.logged(Cmd::DrawArrays { mode_tag, vertex_count }),
    {
        self.emit(GlCommand::DrawArrays { mode_tag, vertex_count });
    }

    pub(crate) fn draw_arrays_instanced(
        &mut self,
        mode_tag: u32,
        vertex_count: usize,
        instance_count: usize,
    )
        ensures
            final(self)@ == old(self)@.logged(
                Cmd::DrawArraysInstanced { mode_tag, vertex_count, instance_count },
            ),
    {
        self.emit(GlCommand::DrawArraysInstanced { mode_tag, vertex_count, instance_count });
    }

    pub(crate) fn draw_elements(&mut self, mode_tag: u32, vertex_count: usize, index_type_tag: u32)
        ensures
            final(self)@ == old(self)@.logged(
                Cmd::DrawElements { mode_tag, vertex_count, index_type_tag },
            ),
    {
        self.emit(GlCommand::DrawElements { mode_tag, vertex_count, index_type_tag });
    }

    pub(crate) fn draw_elements_instanced(
        &mut self,
        mode_tag: u32,
        vertex_count: usize,
        index_type_tag: u32,
        instance_count: usize,
    )
        ensures
            final(self)@ == old(self)@.logged(
                Cmd::DrawElementsInstanced {
                    mode_tag,
                    vertex_count,
                    index_type_tag,
                    instance_count,
                },
            ),
    {
        self.emit(GlCommand::DrawElementsInstanced {
            mode_tag,
            vertex_count,
            index_type_tag,
            instance_count,
        });
    }

    /// Records the release of a buffer handle.
    pub(crate) fn delete_buffer(&mut self, handle: u32)
        ensures
            final(self)@ == old(self)@.logged(Cmd::DeleteBuffer { handle }),
    {
        self.emit(GlCommand::DeleteBuffer { handle });
    }

    /// Records the release of a vertex-array handle.
    pub(crate) fn delete_vertex_array(&mut self, handle: u32)
        ensures
            final(self)@ == old(self)@.logged(Cmd::DeleteVertexArray { handle }),
    {
        self.emit(GlCommand::DeleteVertexArray { handle });
    }

    /// Records the release of a program handle.
    pub(crate) fn delete_program(&mut self, handle: u32)
        ensures
            final(self)@ == old(self)@.logged(Cmd::DeleteProgram { handle }),
    {
        self.emit(GlCommand::DeleteProgram { handle });
    }

    /// The next handle the device will give out.
    pub fn next_handle(&self) -> (r: u32)
        ensures
            r == self@.next_handle,
    {
        self.next_handle
    }

    /// Read access to the recorded trace.
    pub fn trace(&self) -> (r: &Vec<GlCommand>)
        ensures
            r@.map_values(|c: GlCommand| c@) == self@.log,
    {
        &self.trace
    }

    /// The handle bound at the program binding point.
    pub fn bound_program(&self) -> (r: u32)
        ensures
            r == self@.program,
    {
        self.bound_program
    }

    /// The handle bound at the vertex-array binding point.
    pub fn bound_vertex_array(&self) -> (r: u32)
        ensures
            r == self@.vertex_array,
    {
        self.bound_vertex_array
    }

    /// The handle bound at the given buffer binding point.
    pub fn bound_buffer(&self, target: BufferTarget) -> (r: u32)
        ensures
            r == self@.buffer_binding(target),
    {
        match target {
            BufferTarget::Array => self.bound_array_buffer,
            BufferTarget::ElementArray => self.bound_element_array_buffer,
        }
    }

    /// Hands the recorded trace to the caller (the executor drains it);
    /// binding points and handle numbering stay as they are.
    pub fn take_trace(&mut self) -> (r: Vec<GlCommand>)
        ensures
            r@.map_values(|c: GlCommand| c@) == old(self)@.log,
            final(self)@ == (DeviceState { log: Seq::<Cmd>::empty(), ..old(self)@ }),
    {
        let mut drained: Vec<GlCommand> = Vec::new();
        core::mem::swap(&mut drained, &mut self.trace);
        proof {
            assert(self@.log =~= Seq::<Cmd>::empty());
            assert(self@ =~= (DeviceState { log: Seq::<Cmd>::empty(), ..old(self)@ }));
        }
        drained
    }
}

} // verus!
