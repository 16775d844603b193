use vstd::prelude::*;

use crate::device::{Cmd, Device};

verus! {

/// A named uniform input of the shader pipeline. The value itself lives
/// with the scene-setup code; this layer records which location the uniform
/// is bound to, and the executor supplies the value there.
pub struct Uniform {
    name: String,
}

impl View for Uniform {
    type V = Seq<char>;

    closed spec fn view(&self) -> Seq<char> {
        self.name@
    }
}

impl Uniform {
    pub fn new(name: String) -> (r: Uniform)
        ensures
            r@ == name@,
    {
        Uniform { name }
    }

    /// The uniform's name.
    pub fn name(&self) -> (r: &String)
        ensures
            r@ == self@,
    {
        &self.name
    }

    /// Binds this uniform to the given location of the active program.
    pub fn bind(&self, device: &mut Device, location: u32)
        ensures
            final(device)@ == old(device)@.logged(Cmd::BindUniform { location }),
    {
        device.bind_uniform(location);
    }
}

} // verus!
