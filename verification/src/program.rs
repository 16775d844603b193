use vstd::prelude::*;

use crate::device::{Cmd, Device};

verus! {

/// A compiled and linked shader pipeline, immutable once built. Compiling
/// shader source is a collaborator's job outside this layer; the layer
/// receives the finished pipeline's device handle.
pub struct Program {
    id: u32,
}

impl Program {
    /// The device handle.
    pub closed spec fn spec_id(&self) -> u32 {
        self.id
    }

    /// Wraps the handle of a pipeline the shader collaborator built.
    pub fn new(id: u32) -> (r: Program)
        requires
            id != 0,
        ensures
            r.spec_id() == id,
    {
        Program { id }
    }

    /// The device handle; created once, never regenerated.
    pub fn id(&self) -> (r: u32)
        ensures
            r == self.spec_id(),
    {
        self.id
    }

    /// Acquires a scoped binder that makes this the active program.
    pub fn scoped_binder(&self, device: &mut Device) -> (s: ScopedBinder)
        requires
            self.spec_id() != 0,
            old(device)@.program == 0,
        ensures
            s.spec_handle() == self.spec_id(),
            final(device)@ == old(device)@.with_program(self.spec_id()),
    {
        ScopedBinder::new(device, self.id)
    }

    /// Releases the device handle. The object is consumed, so the release
    /// happens exactly once.
    pub fn delete(self, device: &mut Device)
        ensures
            final(device)@ == old(device)@.logged(Cmd::DeleteProgram { handle: self.spec_id() }),
    {
        device.delete_program(self.id);
    }
}

/// A scoped guard for the program binding point. Constructing it binds the
/// handle; releasing it (which consumes the guard, so it happens at most
/// once) returns the point to the unbound state.
pub struct ScopedBinder {
    handle: u32,
}

impl ScopedBinder {
    /// The handle this guard bound.
    pub closed spec fn spec_handle(&self) -> u32 {
        self.handle
    }

    /// Binds `handle` at the program binding point. Construction demands
    /// the point free, so two live program guards cannot overlap.
    pub fn new(device: &mut Device, handle: u32) -> (s: ScopedBinder)
        requires
            handle != 0,
            old(device)@.program == 0,
        ensures
            s.spec_handle() == handle,
            final(device)@ == old(device)@.with_program(handle),
    {
        device.bind_program(handle);
        ScopedBinder { handle }
    }

    /// Restores the program binding point to the unbound state. The guard
    /// is consumed, so the restoration happens exactly once; no other
    /// binding point moves.
    pub fn release(self, device: &mut Device)
        requires
            old(device)@.program == self.spec_handle(),
        ensures
            final(device)@ == old(device)@.with_program(0),
    {
        device.bind_program(0);
    }
}

} // verus!
