use vstd::prelude::*;

use crate::buffer::ScopedBinder;
use crate::bytes::{u16_le_bytes, u32_le_bytes};
use crate::device::{BufferTarget, Cmd, Device, DeviceState, STATIC_DRAW_TAG};

verus! {

/// The index widths the drawing API accepts, each mapped to its type tag.
#[derive(Clone, Copy, Debug, PartialEq, Eq, Structural)]
pub enum IndexType {
    U8,
    U16,
    U32,
}

impl IndexType {
    /// The graphics-API type tag naming this index width in indexed draw
    /// calls.
    pub open spec fn spec_tag(self) -> u32 {
        match self {
            IndexType::U8 => 0x1401,
            IndexType::U16 => 0x1403,
            IndexType::U32 => 0x1405,
        }
    }

    #[verifier::when_used_as_spec(spec_tag)]
    pub fn tag(self) -> (r: u32)
        ensures
            r == self.spec_tag(),
    {
        match self {
            IndexType::U8 => 0x1401,
            IndexType::U16 => 0x1403,
            IndexType::U32 => 0x1405,
        }
    }
}

/// A primitive-index array of one of the accepted widths.
#[derive(Clone, Debug, PartialEq)]
pub enum IndexData {
    U8(Vec<u8>),
    U16(Vec<u16>),
    U32(Vec<u32>),
}

/// The mathematical image of an index array.
pub enum IndexModel {
    U8(Seq<u8>),
    U16(Seq<u16>),
    U32(Seq<u32>),
}

impl View for IndexData {
    type V = IndexModel;

    open spec fn view(&self) -> IndexModel {
        match self {
            IndexData::U8(v) => IndexModel::U8(v@),
            IndexData::U16(v) => IndexModel::U16(v@),
            IndexData::U32(v) => IndexModel::U32(v@),
        }
    }
}

impl IndexModel {
    /// The width of the indices.
    pub open spec fn index_type(self) -> IndexType {
        match self {
            IndexModel::U8(_) => IndexType::U8,
            IndexModel::U16(_) => IndexType::U16,
            IndexModel::U32(_) => IndexType::U32,
        }
    }

    /// The number of indices.
    pub open spec fn len(self) -> nat {
        match self {
            IndexModel::U8(s) => s.len(),
            IndexModel::U16(s) => s.len(),
            IndexModel::U32(s) => s.len(),
        }
    }

    /// The little-endian byte image of the whole array: exactly the bytes
    /// an upload sends to device memory.
    pub open spec fn bytes(self) -> Seq<u8> {
        match self {
            IndexModel::U8(s) => s,
            IndexModel::U16(s) => s.map_values(|x: u16| u16_le_bytes(x)).flatten(),
            IndexModel::U32(s) => s.map_values(|x: u32| u32_le_bytes(x)).flatten(),
        }
    }
}

impl IndexData {
    /// The width of the indices.
    pub fn index_type(&self) -> (r: IndexType)
        ensures
            r == self@.index_type(),
    {
        match self {
            IndexData::U8(_) => IndexType::U8,
            IndexData::U16(_) => IndexType::U16,
            IndexData::U32(_) => IndexType::U32,
        }
    }

    /// The number of indices.
    pub fn len(&self) -> (r: usize)
        ensures
            r == self@.len(),
    {
        match self {
            IndexData::U8(v) => v.len(),
            IndexData::U16(v) => v.len(),
            IndexData::U32(v) => v.len(),
        }
    }

    /// Serializes the array to the little-endian bytes an upload sends.
    pub fn to_bytes(&self) -> (r: Vec<u8>)
        ensures
            r@ == self@.bytes(),
    {
        match self {
            IndexData::U8(v) => crate::buffer::u8s_to_bytes(v),
            IndexData::U16(v) => crate::buffer::u16s_to_bytes(v),
            IndexData::U32(v) => crate::buffer::u32s_to_bytes(v),
        }
    }
}

/// An index buffer object: a buffer object specialized to primitive-index
/// arrays. It owns a device handle and the retained local index array, and
/// reports the index-type tag and the authoritative per-draw vertex count.
pub struct IndexBufferObject {
    id: u32,
    indices: IndexData,
}

/// The mathematical image of an index buffer object.
pub struct IndexBufferView {
    pub id: u32,
    pub indices: IndexModel,
}

impl View for IndexBufferObject {
    type V = IndexBufferView;

    closed spec fn view(&self) -> IndexBufferView {
        IndexBufferView { id: self.id, indices: self.indices@ }
    }
}

impl IndexBufferView {
    /// The handle is live.
    pub open spec fn wf(self) -> bool {
        self.id != 0
    }
}

impl IndexBufferObject {
    /// Wraps an index array as an index buffer object, allocating its device
    /// handle.
    pub fn create(device: &mut Device, indices: IndexData) -> (r: IndexBufferObject)
        requires
            old(device)@.wf(),
            old(device)@.next_handle < u32::MAX,
        ensures
            r@ == (IndexBufferView { id: old(device)@.next_handle, indices: indices@ }),
            r@.wf(),
            final(device)@ == (DeviceState {
                next_handle: (old(device)@.next_handle + 1) as u32,
                log: old(device)@.log.push(Cmd::CreateBuffer { handle: r@.id }),
                ..old(device)@
            }),
    {
        let id = device.create_buffer();
        IndexBufferObject { id, indices }
    }

    /// The device handle; created once, never regenerated.
    pub fn id(&self) -> (r: u32)
        ensures
            r == self@.id,
    {
        self.id
    }

    /// The number of indices: the authoritative vertex count of any draw
    /// that uses this buffer.
    pub fn vertex_count(&self) -> (r: usize)
        ensures
            r == self@.indices.len(),
    {
        self.indices.len()
    }

    /// The type tag the drawing component hands to indexed draw calls.
    pub fn index_type(&self) -> (r: IndexType)
        ensures
            r == self@.indices.index_type(),
    {
        self.indices.index_type()
    }

    /// Read access to the retained local index array.
    pub fn indices(&self) -> (r: &IndexData)
        ensures
            r@ == self@.indices,
    {
        &self.indices
    }

    /// Sends the full index array to device memory with the static usage
    /// hint. The object must be the buffer currently bound at the index
    /// target; a live scoped binder for it provides that.
    pub fn upload(&self, device: &mut Device)
        requires
            old(device)@.element_array_buffer == self@.id,
        ensures
            final(device)@ == old(device)@.logged(
                Cmd::BufferData {
                    target: BufferTarget::ElementArray,
                    bytes: self@.indices.bytes(),
                    usage_tag: STATIC_DRAW_TAG,
                },
            ),
    {
        let payload = self.indices.to_bytes();
        device.buffer_data(BufferTarget::ElementArray, payload);
    }

    /// Acquires a scoped binder that makes this object the bound index
    /// buffer.
    pub fn scoped_binder(&self, device: &mut Device) -> (s: ScopedBinder)
        requires
            self@.id != 0,
            old(device)@.element_array_buffer == 0,
        ensures
            s.spec_target() == BufferTarget::ElementArray,
            s.spec_handle() == self@.id,
            final(device)@ == old(device)@.with_buffer(BufferTarget::ElementArray, self@.id),
    {
        ScopedBinder::new(device, BufferTarget::ElementArray, self.id)
    }

    /// Releases the device handle. The object is consumed, so the release
    /// happens exactly once, and the retained index array goes with it.
    pub fn delete(self, device: &mut Device)
        ensures
            final(device)@ == old(device)@.logged(Cmd::DeleteBuffer { handle: self@.id }),
    {
        device.delete_buffer(self.id);
    }
}

} // verus!
