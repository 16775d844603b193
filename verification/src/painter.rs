use vstd::prelude::*;

use crate::binder::{spec_vertex_count, Binder, BinderView};
use crate::device::{Cmd, Device, DeviceState};

verus! {

/// The primitive assembly modes a draw call can use, each mapped to its
/// graphics-API tag.
#[derive(Clone, Copy, Debug, PartialEq, Eq, Structural)]
pub enum DrawMode {
    Points,
    Lines,
    LineStrip,
    Triangles,
    TriangleStrip,
    TriangleFan,
}

impl DrawMode {
    /// The graphics-API tag of this mode.
    pub open spec fn spec_tag(self) -> u32 {
        match self {
            DrawMode::Points => 0x0000,
            DrawMode::Lines => 0x0001,
            DrawMode::LineStrip => 0x0003,
            DrawMode::Triangles => 0x0004,
            DrawMode::TriangleStrip => 0x0005,
            DrawMode::TriangleFan => 0x0006,
        }
    }

    #[verifier::when_used_as_spec(spec_tag)]
    pub fn tag(self) -> (r: u32)
        ensures
            r == self.spec_tag(),
    {
        match self {
            DrawMode::Points => 0x0000,
            DrawMode::Lines => 0x0001,
            DrawMode::LineStrip => 0x0003,
            DrawMode::Triangles => 0x0004,
            DrawMode::TriangleStrip => 0x0005,
            DrawMode::TriangleFan => 0x0006,
        }
    }
}

/// The mathematical image of a painter.
#[verifier::ext_equal]
pub struct PainterView {
    pub binder: BinderView,
    pub draw_mode: DrawMode,
    pub instance_count: Option<usize>,
}

/// The one draw command a painter issues, selected from the two orthogonal
/// facts: is an instance count set, and does the binder hold an index
/// buffer. Indexed draws carry the index-type tag; the vertex count is the
/// binder's authoritative count.
pub open spec fn draw_shape_cmd(p: PainterView) -> Cmd {
    let mode_tag = p.draw_mode.spec_tag();
    let vertex_count = spec_vertex_count(p.binder) as usize;
    match (p.instance_count, p.binder.ebo) {
        (Some(instance_count), Some(e)) => Cmd::DrawElementsInstanced {
            mode_tag,
            vertex_count,
            index_type_tag: e.indices.index_type().spec_tag(),
            instance_count,
        },
        (Some(instance_count), None) => Cmd::DrawArraysInstanced {
            mode_tag,
            vertex_count,
            instance_count,
        },
        (None, Some(e)) => Cmd::DrawElements {
            mode_tag,
            vertex_count,
            index_type_tag: e.indices.index_type().spec_tag(),
        },
        (None, None) => Cmd::DrawArrays { mode_tag, vertex_count },
    }
}

/// The exact command sequence one draw issues: acquire the draw-ready guard
/// (program, then vertex array), issue exactly one draw command of the
/// selected shape, release the guard in reverse order.
pub open spec fn draw_cmds(p: PainterView) -> Seq<Cmd> {
    seq![
        Cmd::UseProgram { handle: p.binder.program },
        Cmd::BindVertexArray { handle: p.binder.vao },
        draw_shape_cmd(p),
        Cmd::BindVertexArray { handle: 0 },
        Cmd::UseProgram { handle: 0 },
    ]
}

/// Pairs a binder with a draw mode and an optional instance count, and
/// dispatches the matching draw-call shape.
pub struct Painter {
    binder: Binder,
    draw_mode: DrawMode,
    instance_count: Option<usize>,
}

impl View for Painter {
    type V = PainterView;

    closed spec fn view(&self) -> PainterView {
        PainterView {
            binder: self.binder@,
            draw_mode: self.draw_mode,
            instance_count: self.instance_count,
        }
    }
}

impl Painter {
    /// A painter that draws the binder's data non-instanced.
    pub fn new(binder: Binder, draw_mode: DrawMode) -> (r: Painter)
        ensures
            r@ == (PainterView { binder: binder@, draw_mode, instance_count: None }),
    {
        Painter { binder, draw_mode, instance_count: None }
    }

    /// The owned binder.
    pub fn binder(&self) -> (r: &Binder)
        ensures
            r@ == self@.binder,
    {
        &self.binder
    }

    /// The same painter, set to draw `instance_count` instances.
    pub fn instanced(self, instance_count: usize) -> (r: Painter)
        ensures
            r@ == (PainterView { instance_count: Some(instance_count), ..self@ }),
    {
        let Painter { binder, draw_mode, instance_count: _ } = self;
        let r = Painter { binder, draw_mode, instance_count: Some(instance_count) };
        proof {
            assert(r@ =~= (PainterView { instance_count: Some(instance_count), ..self@ }));
        }
        r
    }

    /// Replaces the draw mode; everything else stays.
    pub fn update_draw_mode(&mut self, new_mode: DrawMode)
        ensures
            final(self)@ == (PainterView { draw_mode: new_mode, ..old(self)@ }),
    {
        self.draw_mode = new_mode;
        proof {
            assert(self@ =~= (PainterView { draw_mode: new_mode, ..old(self)@ }));
        }
    }

    /// Acquires the binder's draw-ready guard, issues exactly one draw call
    /// of the shape selected by (instanced?, indexed?), and releases the
    /// guard. Every binding point ends where it started: unbound.
    pub fn draw(&self, device: &mut Device)
        requires
            self@.binder.wf(),
            self@.binder.ebo is Some || self@.binder.vbos.len() > 0,
            old(device)@.program == 0,
            old(device)@.vertex_array == 0,
        ensures
            final(device)@ == (DeviceState {
                log: old(device)@.log + draw_cmds(self@),
                ..old(device)@
            }),
    {
        let ghost d0 = device@;
        let draw_guard = self.binder.draw_binder(device);
        let vertex_count = self.binder.vertex_count();
        match (self.instance_count, self.binder.index_type()) {
            (Some(instance_count), Some(index_type)) => {
                device.draw_elements_instanced(
                    self.draw_mode.tag(),
                    vertex_count,
                    index_type.tag(),
                    instance_count,
                );
            },
            (Some(instance_count), None) => {
                device.draw_arrays_instanced(self.draw_mode.tag(), vertex_count, instance_count);
            },
            (None, Some(index_type)) => {
                device.draw_elements(self.draw_mode.tag(), vertex_count, index_type.tag());
            },
            (None, None) => {
                device.draw_arrays(self.draw_mode.tag(), vertex_count);
            },
        }
        draw_guard.release(device);
        proof {
            assert(device@.log =~= d0.log + draw_cmds(self@));
            assert(device@ =~= (DeviceState { log: d0.log + draw_cmds(self@), ..d0 }));
        }
    }
}

} // verus!
