use vstd::prelude::*;

use crate::attribute::AttributeType;
use crate::device::{Cmd, Device, DeviceState};

verus! {

/// The commands that configure one attribute slot: enable it, then describe
/// the bound buffer's layout for it. Count, type tag and stride come from
/// the attribute shape alone, never from the buffer's contents.
pub open spec fn attrib_pointer_cmds(slot: u32, attr_type: AttributeType) -> Seq<Cmd> {
    seq![
        Cmd::EnableVertexAttribArray { slot },
        Cmd::VertexAttribPointer {
            slot,
            element_count: attr_type.element_count,
            type_tag: attr_type.kind.spec_type_tag(),
            stride: attr_type.spec_stride(),
        },
    ]
}

/// A vertex array object: the device-side record that maps numbered
/// attribute slots to buffer layouts and divisors. This side holds only the
/// handle; the slot configuration lives on the device and is visible in the
/// command trace.
pub struct ArrayObject {
    id: u32,
}

impl ArrayObject {
    /// The device handle.
    pub closed spec fn spec_id(&self) -> u32 {
        self.id
    }

    /// Allocates a device handle for a fresh vertex array object.
    pub fn create(device: &mut Device) -> (r: ArrayObject)
        requires
            old(device)@.wf(),
            old(device)@.next_handle < u32::MAX,
        ensures
            r.spec_id() == old(device)@.next_handle,
            r.spec_id() != 0,
            final(device)@ == (DeviceState {
                next_handle: (old(device)@.next_handle + 1) as u32,
                log: old(device)@.log.push(Cmd::CreateVertexArray { handle: r.spec_id() }),
                ..old(device)@
            }),
    {
        let id = device.create_vertex_array();
        ArrayObject { id }
    }

    /// The device handle; created once, never regenerated.
    pub fn id(&self) -> (r: u32)
        ensures
            r == self.spec_id(),
    {
        self.id
    }

    /// Acquires a scoped binder that makes this the bound vertex array.
    pub fn scoped_binder(&self, device: &mut Device) -> (s: ScopedBinder)
        requires
            self.spec_id() != 0,
            old(device)@.vertex_array == 0,
        ensures
            s.spec_handle() == self.spec_id(),
            final(device)@ == old(device)@.with_vertex_array(self.spec_id()),
    {
        ScopedBinder::new(device, self.id)
    }

    /// Configures one attribute slot from the shape alone. May be called
    /// only while this vertex array and the source buffer are both bound;
    /// the two requirements state exactly that.
    pub fn set_vertex_attrib_pointer(&self, device: &mut Device, slot: u32, attr_type: &AttributeType)
        requires
            attr_type.wf(),
            old(device)@.vertex_array == self.spec_id(),
            old(device)@.array_buffer != 0,
        ensures
            final(device)@ == (DeviceState {
                log: old(device)@.log + attrib_pointer_cmds(slot, *attr_type),
                ..old(device)@
            }),
    {
        device.enable_vertex_attrib_array(slot);
        device.vertex_attrib_pointer(
            slot,
            attr_type.element_count,
            attr_type.kind.type_tag(),
            attr_type.stride(),
        );
        proof {
            assert(device@.log =~= old(device)@.log + attrib_pointer_cmds(slot, *attr_type));
            assert(device@ =~= (DeviceState {
                log: old(device)@.log + attrib_pointer_cmds(slot, *attr_type),
                ..old(device)@
            }));
        }
    }

    /// Marks one attribute slot as advancing per instance group rather than
    /// per vertex: divisor zero advances every vertex, a positive divisor
    /// advances once per that many instances. May be called only while this
    /// vertex array is bound.
    pub fn set_attrib_divisor(&self, device: &mut Device, slot: u32, divisor: u32)
        requires
            old(device)@.vertex_array == self.spec_id(),
        ensures
            final(device)@ == old(device)@.logged(Cmd::VertexAttribDivisor { slot, divisor }),
    {
        device.vertex_attrib_divisor(slot, divisor);
    }

    /// Releases the device handle. The object is consumed, so the release
    /// happens exactly once.
    pub fn delete(self, device: &mut Device)
        ensures
            final(device)@ == old(device)@.logged(Cmd::DeleteVertexArray { handle: self.spec_id() }),
    {
        device.delete_vertex_array(self.id);
    }
}

/// A scoped guard for the vertex-array binding point. Constructing it binds
/// the handle; releasing it (which consumes the guard, so it happens at
/// most once) returns the point to the unbound state.
pub struct ScopedBinder {
    handle: u32,
}

impl ScopedBinder {
    /// The handle this guard bound.
    pub closed spec fn spec_handle(&self) -> u32 {
        self.handle
    }

    /// Binds `handle` at the vertex-array binding point. Construction
    /// demands the point free, so two live vertex-array guards cannot
    /// overlap.
    pub fn new(device: &mut Device, handle: u32) -> (s: ScopedBinder)
        requires
            handle != 0,
            old(device)@.vertex_array == 0,
        ensures
            s.spec_handle() == handle,
            final(device)@ == old(device)@.with_vertex_array(handle),
    {
        device.bind_vertex_array(handle);
        ScopedBinder { handle }
    }

    /// Restores the vertex-array binding point to the unbound state. The
    /// guard is consumed, so the restoration happens exactly once; no other
    /// binding point moves.
    pub fn release(self, device: &mut Device)
        requires
            old(device)@.vertex_array == self.spec_handle(),
        ensures
            final(device)@ == old(device)@.with_vertex_array(0),
    {
        device.bind_vertex_array(0);
    }
}

} // verus!
