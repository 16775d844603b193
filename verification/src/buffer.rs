use vstd::prelude::*;

use crate::attribute::AttributeType;
use crate::bytes::{push_u16_le, push_u32_le, u16_le_bytes, u32_le_bytes};
use crate::device::{BufferTarget, Cmd, Device, DeviceState, STATIC_DRAW_TAG};
use crate::element::PrimitiveKind;

verus! {

/// One attribute channel's local data: a flat run of elements of one numeric
/// kind. A 32-bit float element is held as its IEEE-754 bit pattern.
#[derive(Clone, Debug, PartialEq)]
pub enum AttributeData {
    F32(Vec<u32>),
    U8(Vec<u8>),
    U16(Vec<u16>),
    U32(Vec<u32>),
}

/// The mathematical image of an attribute channel's data.
pub enum DataModel {
    F32(Seq<u32>),
    U8(Seq<u8>),
    U16(Seq<u16>),
    U32(Seq<u32>),
}

impl View for AttributeData {
    type V = DataModel;

    open spec fn view(&self) -> DataModel {
        match self {
            AttributeData::F32(v) => DataModel::F32(v@),
            AttributeData::U8(v) => DataModel::U8(v@),
            AttributeData::U16(v) => DataModel::U16(v@),
            AttributeData::U32(v) => DataModel::U32(v@),
        }
    }
}

impl DataModel {
    /// The numeric kind of the elements.
    pub open spec fn kind(self) -> PrimitiveKind {
        match self {
            DataModel::F32(_) => PrimitiveKind::F32,
            DataModel::U8(_) => PrimitiveKind::U8,
            DataModel::U16(_) => PrimitiveKind::U16,
            DataModel::U32(_) => PrimitiveKind::U32,
        }
    }

    /// The number of elements.
    pub open spec fn len(self) -> nat {
        match self {
            DataModel::F32(s) => s.len(),
            DataModel::U8(s) => s.len(),
            DataModel::U16(s) => s.len(),
            DataModel::U32(s) => s.len(),
        }
    }

    /// The little-endian byte image of the whole run: exactly the bytes an
    /// upload sends to device memory.
    pub open spec fn bytes(self) -> Seq<u8> {
        match self {
            DataModel::F32(s) => s.map_values(|x: u32| u32_le_bytes(x)).flatten(),
            DataModel::U8(s) => s,
            DataModel::U16(s) => s.map_values(|x: u16| u16_le_bytes(x)).flatten(),
            DataModel::U32(s) => s.map_values(|x: u32| u32_le_bytes(x)).flatten(),
        }
    }
}

pub(crate) fn u8s_to_bytes(v: &Vec<u8>) -> (r: Vec<u8>)
    ensures
        r@ == v@,
{
    let mut out: Vec<u8> = Vec::new();
    let mut i: usize = 0;
    while i < v.len()
        invariant
            i <= v@.len(),
            out@ == v@.subrange(0, i as int),
        decreases v@.len() - i,
    {
        out.push(v[i]);
        proof {
            assert(out@ =~= v@.subrange(0, i + 1));
        }
        i = i + 1;
    }
    proof {
        assert(v@.subrange(0, v@.len() as int) =~= v@);
    }
    out
}

pub(crate) fn u16s_to_bytes(v: &Vec<u16>) -> (r: Vec<u8>)
    ensures
        r@ == v@.map_values(|x: u16| u16_le_bytes(x)).flatten(),
{
    let mut out: Vec<u8> = Vec::new();
    let mut i: usize = 0;
    proof {
        assert(v@.subrange(0, 0).map_values(|x: u16| u16_le_bytes(x)).flatten() =~= Seq::<
            u8,
        >::empty());
    }
    while i < v.len()
        invariant
            i <= v@.len(),
            out@ == v@.subrange(0, i as int).map_values(|x: u16| u16_le_bytes(x)).flatten(),
        decreases v@.len() - i,
    {
        push_u16_le(&mut out, v[i]);
        proof {
            let s = v@.subrange(0, i as int).map_values(|x: u16| u16_le_bytes(x));
            assert(v@.subrange(0, i + 1).map_values(|x: u16| u16_le_bytes(x)) =~= s.push(
                u16_le_bytes(v@[i as int]),
            ));
            s.lemma_flatten_push(u16_le_bytes(v@[i as int]));
        }
        i = i + 1;
    }
    proof {
        assert(v@.subrange(0, v@.len() as int) =~= v@);
    }
    out
}

pub(crate) fn u32s_to_bytes(v: &Vec<u32>) -> (r: Vec<u8>)
    ensures
        r@ == v@.map_values(|x: u32| u32_le_bytes(x)).flatten(),
{
    let mut out: Vec<u8> = Vec::new();
    let mut i: usize = 0;
    proof {
        assert(v@.subrange(0, 0).map_values(|x: u32| u32_le_bytes(x)).flatten() =~= Seq::<
            u8,
        >::empty());
    }
    while i < v.len()
        invariant
            i <= v@.len(),
            out@ == v@.subrange(0, i as int).map_values(|x: u32| u32_le_bytes(x)).flatten(),
        decreases v@.len() - i,
    {
        push_u32_le(&mut out, v[i]);
        proof {
            let s = v@.subrange(0, i as int).map_values(|x: u32| u32_le_bytes(x));
            assert(v@.subrange(0, i + 1).map_values(|x: u32| u32_le_bytes(x)) =~= s.push(
                u32_le_bytes(v@[i as int]),
            ));
            s.lemma_flatten_push(u32_le_bytes(v@[i as int]));
        }
        i = i + 1;
    }
    proof {
        assert(v@.subrange(0, v@.len() as int) =~= v@);
    }
    out
}

impl AttributeData {
    /// The numeric kind of the elements.
    pub fn kind(&self) -> (r: PrimitiveKind)
        ensures
            r == self@.kind(),
    {
        match self {
            AttributeData::F32(_) => PrimitiveKind::F32,
            AttributeData::U8(_) => PrimitiveKind::U8,
            AttributeData::U16(_) => PrimitiveKind::U16,
            AttributeData::U32(_) => PrimitiveKind::U32,
        }
    }

    /// The number of elements.
    pub fn len(&self) -> (r: usize)
        ensures
            r == self@.len(),
    {
        match self {
            AttributeData::F32(v) => v.len(),
            AttributeData::U8(v) => v.len(),
            AttributeData::U16(v) => v.len(),
            AttributeData::U32(v) => v.len(),
        }
    }

    /// Serializes the run to the little-endian bytes an upload sends.
    pub fn to_bytes(&self) -> (r: Vec<u8>)
        ensures
            r@ == self@.bytes(),
    {
        match self {
            AttributeData::F32(v) => u32s_to_bytes(v),
            AttributeData::U8(v) => u8s_to_bytes(v),
            AttributeData::U16(v) => u16s_to_bytes(v),
            AttributeData::U32(v) => u32s_to_bytes(v),
        }
    }

    /// The elements, when the run holds 32-bit float bit patterns.
    pub fn f32_bits(&self) -> (r: Option<&Vec<u32>>)
        ensures
            (match self@ {
                DataModel::F32(s) => r matches Some(v) && v@ == s,
                _ => r is None,
            }),
    {
        match self {
            AttributeData::F32(v) => Some(v),
            _ => None,
        }
    }

    /// The elements, when the run holds 8-bit values.
    pub fn u8_elems(&self) -> (r: Option<&Vec<u8>>)
        ensures
            (match self@ {
                DataModel::U8(s) => r matches Some(v) && v@ == s,
                _ => r is None,
            }),
    {
        match self {
            AttributeData::U8(v) => Some(v),
            _ => None,
        }
    }

    /// The elements, when the run holds 16-bit values.
    pub fn u16_elems(&self) -> (r: Option<&Vec<u16>>)
        ensures
            (match self@ {
                DataModel::U16(s) => r matches Some(v) && v@ == s,
                _ => r is None,
            }),
    {
        match self {
            AttributeData::U16(v) => Some(v),
            _ => None,
        }
    }

    /// The elements, when the run holds 32-bit unsigned values.
    pub fn u32_elems(&self) -> (r: Option<&Vec<u32>>)
        ensures
            (match self@ {
                DataModel::U32(s) => r matches Some(v) && v@ == s,
                _ => r is None,
            }),
    {
        match self {
            AttributeData::U32(v) => Some(v),
            _ => None,
        }
    }
}

/// Flattens a run of equal-width tuples into one flat element run, keeping
/// tuple order and element order within each tuple.
pub fn flatten_tuples<T: Copy>(attrs: &Vec<Vec<T>>) -> (r: Vec<T>)
    ensures
        r@ == attrs@.map_values(|t: Vec<T>| t@).flatten(),
{
    let mut out: Vec<T> = Vec::new();
    let mut i: usize = 0;
    proof {
        assert(attrs@.subrange(0, 0).map_values(|t: Vec<T>| t@).flatten() =~= Seq::<T>::empty());
    }
    while i < attrs.len()
        invariant
            i <= attrs@.len(),
            out@ == attrs@.subrange(0, i as int).map_values(|t: Vec<T>| t@).flatten(),
        decreases attrs@.len() - i,
    {
        let tuple = &attrs[i];
        let ghost flat_prefix = out@;
        let mut j: usize = 0;
        while j < tuple.len()
            invariant
                j <= tuple@.len(),
                out@ == flat_prefix + tuple@.subrange(0, j as int),
            decreases tuple@.len() - j,
        {
            out.push(tuple[j]);
            proof {
                assert(out@ =~= flat_prefix + tuple@.subrange(0, j + 1));
            }
            j = j + 1;
        }
        proof {
            assert(tuple@.subrange(0, tuple@.len() as int) =~= tuple@);
            let s = attrs@.subrange(0, i as int).map_values(|t: Vec<T>| t@);
            assert(attrs@.subrange(0, i + 1).map_values(|t: Vec<T>| t@) =~= s.push(
                attrs@[i as int]@,
            ));
            s.lemma_flatten_push(attrs@[i as int]@);
        }
        i = i + 1;
    }
    proof {
        assert(attrs@.subrange(0, attrs@.len() as int) =~= attrs@);
    }
    out
}

/// Flattening a run of tuples that all have width `k` yields `len * k`
/// elements.
pub proof fn lemma_flatten_uniform_len<A>(s: Seq<Seq<A>>, k: nat)
    requires
        forall|i: int| 0 <= i < s.len() ==> (#[trigger] s[i]).len() == k,
    ensures
        s.flatten().len() == s.len() * k,
    decreases s.len(),
{
    if s.len() == 0 {
        assert(s.flatten().len() == 0);
        assert(s.len() * k == 0) by (nonlinear_arith)
            requires
                s.len() == 0,
        ;
    } else {
        let rest = s.drop_first();
        assert(forall|i: int| 0 <= i < rest.len() ==> (#[trigger] rest[i]).len() == k);
        lemma_flatten_uniform_len(rest, k);
        assert(s.flatten() == s.first() + rest.flatten());
        assert(s.flatten().len() == k + rest.len() * k);
        assert(k + (s.len() - 1) * k == s.len() * k) by (nonlinear_arith)
            requires
                s.len() >= 1,
        ;
    }
}

/// A buffer object: one device handle, the retained local copy of one
/// attribute channel's data, and the channel's shape. The handle and the
/// shape are fixed at construction; the local copy is kept so the object can
/// be re-uploaded at any time.
pub struct BufferObject {
    id: u32,
    data: AttributeData,
    attr_type: AttributeType,
}

/// The mathematical image of a buffer object.
pub struct BufferView {
    pub id: u32,
    pub data: DataModel,
    pub attr_type: AttributeType,
}

impl View for BufferObject {
    type V = BufferView;

    closed spec fn view(&self) -> BufferView {
        BufferView { id: self.id, data: self.data@, attr_type: self.attr_type }
    }
}

impl BufferView {
    /// The handle is live, the shape is well formed, the data matches the
    /// shape's kind and divides evenly into per-vertex tuples.
    pub open spec fn wf(self) -> bool {
        &&& self.id != 0
        &&& self.attr_type.wf()
        &&& self.data.kind() == self.attr_type.kind
        &&& self.data.len() % (self.attr_type.element_count as nat) == 0
    }

    /// The number of vertices the channel covers.
    pub open spec fn vertex_count(self) -> nat {
        self.data.len() / (self.attr_type.element_count as nat)
    }
}

impl BufferObject {
    /// Wraps a flat element run as a buffer object, allocating its device
    /// handle. The run must match the declared shape: same element kind, and
    /// a whole number of per-vertex tuples.
    pub fn create(device: &mut Device, data: AttributeData, attr_type: AttributeType) -> (r:
        BufferObject)
        requires
            old(device)@.wf(),
            old(device)@.next_handle < u32::MAX,
            attr_type.wf(),
            data@.kind() == attr_type.kind,
            data@.len() % (attr_type.element_count as nat) == 0,
        ensures
            r@ == (BufferView { id: old(device)@.next_handle, data: data@, attr_type }),
            r@.wf(),
            final(device)@ == (DeviceState {
                next_handle: (old(device)@.next_handle + 1) as u32,
                log: old(device)@.log.push(Cmd::CreateBuffer { handle: r@.id }),
                ..old(device)@
            }),
    {
        let id = device.create_buffer();
        BufferObject { id, data, attr_type }
    }

    /// Builds a buffer object from a run of float tuples (given as IEEE-754
    /// bit patterns), flattening them in order, one tuple per vertex.
    pub fn create_from_f32_tuples(
        device: &mut Device,
        attrs: &Vec<Vec<u32>>,
        attr_type: AttributeType,
    ) -> (r: BufferObject)
        requires
            old(device)@.wf(),
            old(device)@.next_handle < u32::MAX,
            attr_type.wf(),
            attr_type.kind == PrimitiveKind::F32,
            forall|i: int|
                0 <= i < attrs@.len() ==> (#[trigger] attrs@[i])@.len()
                    == attr_type.element_count,
        ensures
            r@ == (BufferView {
                id: old(device)@.next_handle,
                data: DataModel::F32(attrs@.map_values(|t: Vec<u32>| t@).flatten()),
                attr_type,
            }),
            r@.wf(),
            r@.vertex_count() == attrs@.len(),
            final(device)@ == (DeviceState {
                next_handle: (old(device)@.next_handle + 1) as u32,
                log: old(device)@.log.push(Cmd::CreateBuffer { handle: r@.id }),
                ..old(device)@
            }),
    {
        let flat = flatten_tuples(attrs);
        proof {
            let tuples = attrs@.map_values(|t: Vec<u32>| t@);
            assert(forall|i: int|
                0 <= i < tuples.len() ==> (#[trigger] tuples[i]).len() == attr_type.element_count);
            lemma_flatten_uniform_len(tuples, attr_type.element_count as nat);
            vstd::arithmetic::div_mod::lemma_mod_multiples_basic(
                attrs@.len() as int,
                attr_type.element_count as int,
            );
            assert((attrs@.len() * attr_type.element_count) as int % (
            attr_type.element_count as int) == 0) by (nonlinear_arith)
                requires
                    (attrs@.len() * (attr_type.element_count as nat)) as int % (
                    attr_type.element_count as int) == 0,
            ;
            assert(flat@.len() / (attr_type.element_count as nat) == attrs@.len())
                by (nonlinear_arith)
                requires
                    flat@.len() == attrs@.len() * (attr_type.element_count as nat),
                    attr_type.element_count >= 1,
            ;
        }
        Self::create(device, AttributeData::F32(flat), attr_type)
    }

    /// The device handle; created once, never regenerated.
    pub fn id(&self) -> (r: u32)
        ensures
            r == self@.id,
    {
        self.id
    }

    /// The channel's shape; immutable after construction.
    pub fn attribute_type(&self) -> (r: AttributeType)
        ensures
            r == self@.attr_type,
    {
        self.attr_type
    }

    /// Read access to the retained local data.
    pub fn data(&self) -> (r: &AttributeData)
        ensures
            r@ == self@.data,
    {
        &self.data
    }

    /// The number of vertices the channel covers.
    pub fn vertex_count(&self) -> (r: usize)
        requires
            self@.wf(),
        ensures
            r == self@.vertex_count(),
    {
        self.data.len() / (self.attr_type.element_count as usize)
    }

    /// Sends the full local copy to device memory with the static usage
    /// hint. The object must be the buffer currently bound at the attribute
    /// target; a live scoped binder for it provides that.
    pub fn upload(&self, device: &mut Device)
        requires
            old(device)@.array_buffer == self@.id,
        ensures
            final(device)@ == old(device)@.logged(
                Cmd::BufferData {
                    target: BufferTarget::Array,
                    bytes: self@.data.bytes(),
                    usage_tag: STATIC_DRAW_TAG,
                },
            ),
    {
        let payload = self.data.to_bytes();
        device.buffer_data(BufferTarget::Array, payload);
    }

    /// Acquires a scoped binder that makes this object the bound attribute
    /// buffer.
    pub fn scoped_binder(&self, device: &mut Device) -> (s: ScopedBinder)
        requires
            self@.id != 0,
            old(device)@.array_buffer == 0,
        ensures
            s.spec_target() == BufferTarget::Array,
            s.spec_handle() == self@.id,
            final(device)@ == old(device)@.with_buffer(BufferTarget::Array, self@.id),
    {
        ScopedBinder::new(device, BufferTarget::Array, self.id)
    }

    /// Releases the device handle. The object is consumed, so the release
    /// happens exactly once, and the retained local copy goes with it.
    pub fn delete(self, device: &mut Device)
        ensures
            final(device)@ == old(device)@.logged(Cmd::DeleteBuffer { handle: self@.id }),
    {
        device.delete_buffer(self.id);
    }
}

/// A scoped guard for one buffer binding point. Constructing it binds the
/// handle; releasing it (which consumes the guard, so it happens at most
/// once) returns the point to the unbound state. Guards for different
/// targets compose freely; two guards for the same target cannot overlap,
/// because construction demands the point free.
pub struct ScopedBinder {
    target: BufferTarget,
    handle: u32,
}

impl ScopedBinder {
    /// The buffer target this guard holds.
    pub closed spec fn spec_target(&self) -> BufferTarget {
        self.target
    }

    /// The handle this guard bound.
    pub closed spec fn spec_handle(&self) -> u32 {
        self.handle
    }

    /// Binds `handle` at `target`.
    pub fn new(device: &mut Device, target: BufferTarget, handle: u32) -> (s: ScopedBinder)
        requires
            handle != 0,
            old(device)@.buffer_binding(target) == 0,
        ensures
            s.spec_target() == target,
            s.spec_handle() == handle,
            final(device)@ == old(device)@.with_buffer(target, handle),
    {
        device.bind_buffer(target, handle);
        ScopedBinder { target, handle }
    }

    /// Restores the binding point to the unbound state. The guard is
    /// consumed, so the restoration happens exactly once; no other binding
    /// point moves.
    pub fn release(self, device: &mut Device)
        requires
            old(device)@.buffer_binding(self.spec_target()) == self.spec_handle(),
        ensures
            final(device)@ == old(device)@.with_buffer(self.spec_target(), 0),
    {
        device.bind_buffer(self.target, 0);
    }
}

} // verus!
