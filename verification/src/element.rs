use vstd::prelude::*;

verus! {

/// The closed set of numeric kinds a buffer element may have. Each kind is
/// mapped to its graphics-API type tag and its byte size; both are fixed by
/// the mapping below and never inferred from data at run time.
///
/// A 32-bit float element is carried by its IEEE-754 bit pattern (a `u32`),
/// so the layer itself never computes on floating-point values.
#[derive(Clone, Copy, Debug, PartialEq, Eq, Structural)]
pub enum PrimitiveKind {
    F32,
    U8,
    U16,
    U32,
}

impl PrimitiveKind {
    /// Size in bytes of one element of this kind.
    pub open spec fn spec_byte_size(self) -> u32 {
        match self {
            PrimitiveKind::F32 => 4,
            PrimitiveKind::U8 => 1,
            PrimitiveKind::U16 => 2,
            PrimitiveKind::U32 => 4,
        }
    }

    #[verifier::when_used_as_spec(spec_byte_size)]
    pub fn byte_size(self) -> (r: u32)
        ensures
            r == self.spec_byte_size(),
    {
        match self {
            PrimitiveKind::F32 => 4,
            PrimitiveKind::U8 => 1,
            PrimitiveKind::U16 => 2,
            PrimitiveKind::U32 => 4,
        }
    }

    /// The graphics-API type tag that names this kind in attribute-pointer
    /// and draw calls.
    pub open spec fn spec_type_tag(self) -> u32 {
        match self {
            PrimitiveKind::F32 => 0x1406,
            PrimitiveKind::U8 => 0x1401,
            PrimitiveKind::U16 => 0x1403,
            PrimitiveKind::U32 => 0x1405,
        }
    }

    #[verifier::when_used_as_spec(spec_type_tag)]
    pub fn type_tag(self) -> (r: u32)
        ensures
            r == self.spec_type_tag(),
    {
        match self {
            PrimitiveKind::F32 => 0x1406,
            PrimitiveKind::U8 => 0x1401,
            PrimitiveKind::U16 => 0x1403,
            PrimitiveKind::U32 => 0x1405,
        }
    }
}

} // verus!
