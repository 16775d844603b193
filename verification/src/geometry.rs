use vstd::prelude::*;

use crate::attribute::AttributeType;
use crate::binder::{spec_vertex_count, upload_cmds, Binder, BinderView};
use crate::buffer::{AttributeData, BufferObject, BufferView, DataModel};
use crate::device::{Cmd, Device, DeviceState};
use crate::element::PrimitiveKind;
use crate::index_buffer::{IndexBufferObject, IndexBufferView, IndexData, IndexModel};
use crate::program::Program;
use crate::uniform::Uniform;

verus! {

/// IEEE-754 bit patterns of the float values the triangle scene uses.
pub const F32_BITS_ZERO: u32 = 0x0000_0000;

pub const F32_BITS_HALF: u32 = 0x3F00_0000;

pub const F32_BITS_NEG_HALF: u32 = 0xBF00_0000;

pub const F32_BITS_ONE: u32 = 0x3F80_0000;

pub const F32_BITS_EIGHT_TENTHS: u32 = 0x3F4C_CCCD;

pub const F32_BITS_NEG_TWO_TENTHS: u32 = 0xBE4C_CCCD;

/// The flattened position channel of the template triangle: three vertices
/// of two elements each.
pub open spec fn triangle_positions() -> Seq<u32> {
    seq![
        F32_BITS_NEG_HALF,
        F32_BITS_ZERO,
        F32_BITS_HALF,
        F32_BITS_ZERO,
        F32_BITS_ZERO,
        F32_BITS_EIGHT_TENTHS,
    ]
}

/// The flattened color channel: one full red, green and blue vertex.
pub open spec fn triangle_colors() -> Seq<u32> {
    seq![
        F32_BITS_ONE,
        F32_BITS_ZERO,
        F32_BITS_ZERO,
        F32_BITS_ZERO,
        F32_BITS_ONE,
        F32_BITS_ZERO,
        F32_BITS_ZERO,
        F32_BITS_ZERO,
        F32_BITS_ONE,
    ]
}

/// The per-instance scale channel: one element per vertex.
pub open spec fn triangle_scales() -> Seq<u32> {
    seq![F32_BITS_HALF, F32_BITS_HALF, F32_BITS_HALF]
}

/// The per-instance offset channel: three vertices of two elements each.
pub open spec fn triangle_offsets() -> Seq<u32> {
    seq![
        F32_BITS_ZERO,
        F32_BITS_HALF,
        F32_BITS_NEG_HALF,
        F32_BITS_NEG_TWO_TENTHS,
        F32_BITS_HALF,
        F32_BITS_NEG_TWO_TENTHS,
    ]
}

/// The triangle's index array.
pub open spec fn triangle_indices() -> Seq<u8> {
    seq![1u8, 2u8, 3u8]
}

/// The instanced triangle scene: four attribute channels (positions,
/// colors, per-instance scales and offsets), an 8-bit index buffer, and a
/// binder that has uploaded everything and marked slots 2 and 3 as
/// per-instance.
pub struct Triangle {
    pub binder: Binder,
}

impl Triangle {
    /// Builds the triangle scene around the given program: wraps the four
    /// channels and the index array in buffer objects, aggregates them,
    /// uploads, and sets the divisor of the two per-instance slots to one.
    pub fn new(device: &mut Device, program: Program) -> (r: Triangle)
        requires
            old(device)@.wf(),
            old(device)@.next_handle + 6 <= u32::MAX,
            program.spec_id() != 0,
            old(device)@.program == 0,
            old(device)@.vertex_array == 0,
            old(device)@.array_buffer == 0,
            old(device)@.element_array_buffer == 0,
        ensures
            r.binder@.wf(),
            r.binder@ == (BinderView {
                vao: (old(device)@.next_handle + 5) as u32,
                vbos: seq![
                    BufferView {
                        id: old(device)@.next_handle,
                        data: DataModel::F32(triangle_positions()),
                        attr_type: AttributeType { element_count: 2, kind: PrimitiveKind::F32 },
                    },
                    BufferView {
                        id: (old(device)@.next_handle + 1) as u32,
                        data: DataModel::F32(triangle_colors()),
                        attr_type: AttributeType { element_count: 3, kind: PrimitiveKind::F32 },
                    },
                    BufferView {
                        id: (old(device)@.next_handle + 2) as u32,
                        data: DataModel::F32(triangle_scales()),
                        attr_type: AttributeType { element_count: 1, kind: PrimitiveKind::F32 },
                    },
                    BufferView {
                        id: (old(device)@.next_handle + 3) as u32,
                        data: DataModel::F32(triangle_offsets()),
                        attr_type: AttributeType { element_count: 2, kind: PrimitiveKind::F32 },
                    },
                ],
                ebo: Some(
                    IndexBufferView {
                        id: (old(device)@.next_handle + 4) as u32,
                        indices: IndexModel::U8(triangle_indices()),
                    },
                ),
                program: program.spec_id(),
                uniforms: Seq::empty(),
            }),
            spec_vertex_count(r.binder@) == 3,
            final(device)@ == (DeviceState {
                next_handle: (old(device)@.next_handle + 6) as u32,
                log: old(device)@.log + seq![
                    Cmd::CreateBuffer { handle: old(device)@.next_handle },
                    Cmd::CreateBuffer { handle: (old(device)@.next_handle + 1) as u32 },
                    Cmd::CreateBuffer { handle: (old(device)@.next_handle + 2) as u32 },
                    Cmd::CreateBuffer { handle: (old(device)@.next_handle + 3) as u32 },
                    Cmd::CreateBuffer { handle: (old(device)@.next_handle + 4) as u32 },
                    Cmd::CreateVertexArray { handle: (old(device)@.next_handle + 5) as u32 },
                ] + upload_cmds(r.binder@) + seq![
                    Cmd::BindVertexArray { handle: (old(device)@.next_handle + 5) as u32 },
                    Cmd::VertexAttribDivisor { slot: 2, divisor: 1 },
                    Cmd::VertexAttribDivisor { slot: 3, divisor: 1 },
                    Cmd::BindVertexArray { handle: 0 },
                ],
                ..old(device)@
            }),
    {
        let mut position_elems: Vec<u32> = Vec::new();
        position_elems.push(F32_BITS_NEG_HALF);
        position_elems.push(F32_BITS_ZERO);
        position_elems.push(F32_BITS_HALF);
        position_elems.push(F32_BITS_ZERO);
        position_elems.push(F32_BITS_ZERO);
        position_elems.push(F32_BITS_EIGHT_TENTHS);
        proof {
            assert(position_elems@ =~= triangle_positions());
        }
        let positions = BufferObject::create(
            device,
            AttributeData::F32(position_elems),
            AttributeType::new(2, PrimitiveKind::F32),
        );

        let mut color_elems: Vec<u32> = Vec::new();
        color_elems.push(F32_BITS_ONE);
        color_elems.push(F32_BITS_ZERO);
        color_elems.push(F32_BITS_ZERO);
        color_elems.push(F32_BITS_ZERO);
        color_elems.push(F32_BITS_ONE);
        color_elems.push(F32_BITS_ZERO);
        color_elems.push(F32_BITS_ZERO);
        color_elems.push(F32_BITS_ZERO);
        color_elems.push(F32_BITS_ONE);
        proof {
            assert(color_elems@ =~= triangle_colors());
        }
        let colors = BufferObject::create(
            device,
            AttributeData::F32(color_elems),
            AttributeType::new(3, PrimitiveKind::F32),
        );

        let mut scale_elems: Vec<u32> = Vec::new();
        scale_elems.push(F32_BITS_HALF);
        scale_elems.push(F32_BITS_HALF);
        scale_elems.push(F32_BITS_HALF);
        proof {
            assert(scale_elems@ =~= triangle_scales());
        }
        let scales = BufferObject::create(
            device,
            AttributeData::F32(scale_elems),
            AttributeType::new(1, PrimitiveKind::F32),
        );

        let mut offset_elems: Vec<u32> = Vec::new();
        offset_elems.push(F32_BITS_ZERO);
        offset_elems.push(F32_BITS_HALF);
        offset_elems.push(F32_BITS_NEG_HALF);
        offset_elems.push(F32_BITS_NEG_TWO_TENTHS);
        offset_elems.push(F32_BITS_HALF);
        offset_elems.push(F32_BITS_NEG_TWO_TENTHS);
        proof {
            assert(offset_elems@ =~= triangle_offsets());
        }
        let offsets = BufferObject::create(
            device,
            AttributeData::F32(offset_elems),
            AttributeType::new(2, PrimitiveKind::F32),
        );

        let mut index_elems: Vec<u8> = Vec::new();
        index_elems.push(1);
        index_elems.push(2);
        index_elems.push(3);
        proof {
            assert(index_elems@ =~= triangle_indices());
        }
        let index_buf = IndexBufferObject::create(device, IndexData::U8(index_elems));

        let mut vbos: Vec<BufferObject> = Vec::new();
        vbos.push(positions);
        vbos.push(colors);
        vbos.push(scales);
        vbos.push(offsets);

        let binder = Binder::new(device, vbos, Some(index_buf), program, Vec::new());
        proof {
            assert(binder@.vbos =~= seq![
                BufferView {
                    id: old(device)@.next_handle,
                    data: DataModel::F32(triangle_positions()),
                    attr_type: AttributeType { element_count: 2, kind: PrimitiveKind::F32 },
                },
                BufferView {
                    id: (old(device)@.next_handle + 1) as u32,
                    data: DataModel::F32(triangle_colors()),
                    attr_type: AttributeType { element_count: 3, kind: PrimitiveKind::F32 },
                },
                BufferView {
                    id: (old(device)@.next_handle + 2) as u32,
                    data: DataModel::F32(triangle_scales()),
                    attr_type: AttributeType { element_count: 1, kind: PrimitiveKind::F32 },
                },
                BufferView {
                    id: (old(device)@.next_handle + 3) as u32,
                    data: DataModel::F32(triangle_offsets()),
                    attr_type: AttributeType { element_count: 2, kind: PrimitiveKind::F32 },
                },
            ]);
            assert(binder@.uniforms =~= Seq::<Seq<char>>::empty());
        }

        binder.upload(device);

        let vao_guard = binder.vao_binder(device);
        binder.vao().set_attrib_divisor(device, 2, 1);
        binder.vao().set_attrib_divisor(device, 3, 1);
        vao_guard.release(device);

        proof {
            assert(binder@ =~= (BinderView {
                vao: (old(device)@.next_handle + 5) as u32,
                vbos: binder@.vbos,
                ebo: Some(
                    IndexBufferView {
                        id: (old(device)@.next_handle + 4) as u32,
                        indices: IndexModel::U8(triangle_indices()),
                    },
                ),
                program: program.spec_id(),
                uniforms: Seq::empty(),
            }));
            assert(device@.log =~= old(device)@.log + seq![
                Cmd::CreateBuffer { handle: old(device)@.next_handle },
                Cmd::CreateBuffer { handle: (old(device)@.next_handle + 1) as u32 },
                Cmd::CreateBuffer { handle: (old(device)@.next_handle + 2) as u32 },
                Cmd::CreateBuffer { handle: (old(device)@.next_handle + 3) as u32 },
                Cmd::CreateBuffer { handle: (old(device)@.next_handle + 4) as u32 },
                Cmd::CreateVertexArray { handle: (old(device)@.next_handle + 5) as u32 },
            ] + upload_cmds(binder@) + seq![
                Cmd::BindVertexArray { handle: (old(device)@.next_handle + 5) as u32 },
                Cmd::VertexAttribDivisor { slot: 2, divisor: 1 },
                Cmd::VertexAttribDivisor { slot: 3, divisor: 1 },
                Cmd::BindVertexArray { handle: 0 },
            ]);
            assert(device@ =~= (DeviceState {
                next_handle: (old(device)@.next_handle + 6) as u32,
                log: device@.log,
                ..old(device)@
            }));
        }

        Triangle { binder }
    }
}

/// Assembles the sphere scene: a position channel and a normal channel of
/// three-element float tuples, a 16-bit index buffer, and a binder that has
/// uploaded everything. The tuple data comes from the mesh-generation
/// collaborator.
pub fn sphere(
    device: &mut Device,
    vertices: &Vec<Vec<u32>>,
    normals: &Vec<Vec<u32>>,
    indices: Vec<u16>,
    program: Program,
) -> (r: Binder)
    requires
        old(device)@.wf(),
        old(device)@.next_handle + 4 <= u32::MAX,
        program.spec_id() != 0,
        forall|i: int| 0 <= i < vertices@.len() ==> (#[trigger] vertices@[i])@.len() == 3,
        forall|i: int| 0 <= i < normals@.len() ==> (#[trigger] normals@[i])@.len() == 3,
        old(device)@.program == 0,
        old(device)@.vertex_array == 0,
        old(device)@.array_buffer == 0,
        old(device)@.element_array_buffer == 0,
    ensures
        r@.wf(),
        r@ == (BinderView {
            vao: (old(device)@.next_handle + 3) as u32,
            vbos: seq![
                BufferView {
                    id: old(device)@.next_handle,
                    data: DataModel::F32(vertices@.map_values(|t: Vec<u32>| t@).flatten()),
                    attr_type: AttributeType { element_count: 3, kind: PrimitiveKind::F32 },
                },
                BufferView {
                    id: (old(device)@.next_handle + 1) as u32,
                    data: DataModel::F32(normals@.map_values(|t: Vec<u32>| t@).flatten()),
                    attr_type: AttributeType { element_count: 3, kind: PrimitiveKind::F32 },
                },
            ],
            ebo: Some(
                IndexBufferView {
                    id: (old(device)@.next_handle + 2) as u32,
                    indices: IndexModel::U16(indices@),
                },
            ),
            program: program.spec_id(),
            uniforms: Seq::empty(),
        }),
        spec_vertex_count(r@) == indices@.len(),
        final(device)@ == (DeviceState {
            next_handle: (old(device)@.next_handle + 4) as u32,
            log: old(device)@.log + seq![
                Cmd::CreateBuffer { handle: old(device)@.next_handle },
                Cmd::CreateBuffer { handle: (old(device)@.next_handle + 1) as u32 },
                Cmd::CreateBuffer { handle: (old(device)@.next_handle + 2) as u32 },
                Cmd::CreateVertexArray { handle: (old(device)@.next_handle + 3) as u32 },
            ] + upload_cmds(r@),
            ..old(device)@
        }),
{
    let positions = BufferObject::create_from_f32_tuples(
        device,
        vertices,
        AttributeType::new(3, PrimitiveKind::F32),
    );
    let normal_buf = BufferObject::create_from_f32_tuples(
        device,
        normals,
        AttributeType::new(3, PrimitiveKind::F32),
    );
    let index_buf = IndexBufferObject::create(device, IndexData::U16(indices));

    let mut vbos: Vec<BufferObject> = Vec::new();
    vbos.push(positions);
    vbos.push(normal_buf);

    let binder = Binder::new(device, vbos, Some(index_buf), program, Vec::new());
    proof {
        assert(binder@.vbos =~= seq![
            BufferView {
                id: old(device)@.next_handle,
                data: DataModel::F32(vertices@.map_values(|t: Vec<u32>| t@).flatten()),
                attr_type: AttributeType { element_count: 3, kind: PrimitiveKind::F32 },
            },
            BufferView {
                id: (old(device)@.next_handle + 1) as u32,
                data: DataModel::F32(normals@.map_values(|t: Vec<u32>| t@).flatten()),
                attr_type: AttributeType { element_count: 3, kind: PrimitiveKind::F32 },
            },
        ]);
        assert(binder@.uniforms =~= Seq::<Seq<char>>::empty());
        assert(binder@ =~= (BinderView {
            vao: (old(device)@.next_handle + 3) as u32,
            vbos: binder@.vbos,
            ebo: Some(
                IndexBufferView {
                    id: (old(device)@.next_handle + 2) as u32,
                    indices: IndexModel::U16(indices@),
                },
            ),
            program: program.spec_id(),
            uniforms: Seq::empty(),
        }));
    }

    binder.upload(device);

    proof {
        assert(device@.log =~= old(device)@.log + seq![
            Cmd::CreateBuffer { handle: old(device)@.next_handle },
            Cmd::CreateBuffer { handle: (old(device)@.next_handle + 1) as u32 },
            Cmd::CreateBuffer { handle: (old(device)@.next_handle + 2) as u32 },
            Cmd::CreateVertexArray { handle: (old(device)@.next_handle + 3) as u32 },
        ] + upload_cmds(binder@));
        assert(device@ =~= (DeviceState {
            next_handle: (old(device)@.next_handle + 4) as u32,
            log: device@.log,
            ..old(device)@
        }));
    }

    binder
}

/// Assembles the labyrinth scene: one per-instance rotation channel of
/// three-element float tuples, no index buffer, the caller's uniforms, and
/// a binder that has marked slot 0 as per-instance and uploaded everything.
/// The rotation data comes from the scene-setup collaborator.
pub fn labyrinth(
    device: &mut Device,
    rotations: &Vec<Vec<u32>>,
    program: Program,
    uniforms: Vec<Uniform>,
) -> (r: Binder)
    requires
        old(device)@.wf(),
        old(device)@.next_handle + 2 <= u32::MAX,
        program.spec_id() != 0,
        forall|i: int| 0 <= i < rotations@.len() ==> (#[trigger] rotations@[i])@.len() == 3,
        uniforms@.len() <= u32::MAX,
        old(device)@.program == 0,
        old(device)@.vertex_array == 0,
        old(device)@.array_buffer == 0,
        old(device)@.element_array_buffer == 0,
    ensures
        r@.wf(),
        r@ == (BinderView {
            vao: (old(device)@.next_handle + 1) as u32,
            vbos: seq![
                BufferView {
                    id: old(device)@.next_handle,
                    data: DataModel::F32(rotations@.map_values(|t: Vec<u32>| t@).flatten()),
                    attr_type: AttributeType { element_count: 3, kind: PrimitiveKind::F32 },
                },
            ],
            ebo: None,
            program: program.spec_id(),
            uniforms: uniforms@.map_values(|u: Uniform| u@),
        }),
        spec_vertex_count(r@) == rotations@.len(),
        final(device)@ == (DeviceState {
            next_handle: (old(device)@.next_handle + 2) as u32,
            log: old(device)@.log + seq![
                Cmd::CreateBuffer { handle: old(device)@.next_handle },
                Cmd::CreateVertexArray { handle: (old(device)@.next_handle + 1) as u32 },
                Cmd::BindVertexArray { handle: (old(device)@.next_handle + 1) as u32 },
                Cmd::VertexAttribDivisor { slot: 0, divisor: 1 },
                Cmd::BindVertexArray { handle: 0 },
            ] + upload_cmds(r@),
            ..old(device)@
        }),
{
    let rotation_buf = BufferObject::create_from_f32_tuples(
        device,
        rotations,
        AttributeType::new(3, PrimitiveKind::F32),
    );

    let mut vbos: Vec<BufferObject> = Vec::new();
    vbos.push(rotation_buf);

    let binder = Binder::new(device, vbos, None, program, uniforms);
    proof {
        assert(binder@.vbos =~= seq![
            BufferView {
                id: old(device)@.next_handle,
                data: DataModel::F32(rotations@.map_values(|t: Vec<u32>| t@).flatten()),
                attr_type: AttributeType { element_count: 3, kind: PrimitiveKind::F32 },
            },
        ]);
        assert(binder@ =~= (BinderView {
            vao: (old(device)@.next_handle + 1) as u32,
            vbos: binder@.vbos,
            ebo: None,
            program: program.spec_id(),
            uniforms: uniforms@.map_values(|u: Uniform| u@),
        }));
    }

    let vao_guard = binder.vao_binder(device);
    binder.vao().set_attrib_divisor(device, 0, 1);
    vao_guard.release(device);

    binder.upload(device);

    proof {
        assert(device@.log =~= old(device)@.log + seq![
            Cmd::CreateBuffer { handle: old(device)@.next_handle },
            Cmd::CreateVertexArray { handle: (old(device)@.next_handle + 1) as u32 },
            Cmd::BindVertexArray { handle: (old(device)@.next_handle + 1) as u32 },
            Cmd::VertexAttribDivisor { slot: 0, divisor: 1 },
            Cmd::BindVertexArray { handle: 0 },
        ] + upload_cmds(binder@));
        assert(device@ =~= (DeviceState {
            next_handle: (old(device)@.next_handle + 2) as u32,
            log: device@.log,
            ..old(device)@
        }));
    }

    binder
}

} // verus!
