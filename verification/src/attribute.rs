use vstd::prelude::*;

use crate::element::PrimitiveKind;

verus! {

/// The shape of one vertex attribute channel: how many elements one vertex
/// contributes and of which numeric kind they are. Both fields are fixed at
/// construction; together they fully determine the per-vertex stride of the
/// channel.
#[derive(Clone, Copy, Debug, PartialEq, Eq, Structural)]
pub struct AttributeType {
    pub element_count: u32,
    pub kind: PrimitiveKind,
}

impl AttributeType {
    /// An attribute carries between one and four elements per vertex.
    pub open spec fn wf(self) -> bool {
        1 <= self.element_count <= 4
    }

    pub fn new(element_count: u32, kind: PrimitiveKind) -> (r: AttributeType)
        requires
            1 <= element_count <= 4,
        ensures
            r == (AttributeType { element_count, kind }),
            r.wf(),
    {
        AttributeType { element_count, kind }
    }

    /// The number of bytes one vertex contributes to this channel:
    /// the element count times the byte size of the element kind.
    pub open spec fn spec_stride(self) -> u32
        recommends
            self.wf(),
    {
        (self.element_count * self.kind.spec_byte_size()) as u32
    }

    #[verifier::when_used_as_spec(spec_stride)]
    pub fn stride(self) -> (r: u32)
        requires
            self.wf(),
        ensures
            r == self.element_count * self.kind.spec_byte_size(),
    {
        self.element_count * self.kind.byte_size()
    }
}

} // verus!
