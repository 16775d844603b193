//! A verified GPU resource-binding layer: vertex and index buffer objects,
//! vertex-array objects, shader programs and scoped binding guards, composed
//! by a `Binder` that orchestrates uploads and by a `Painter` that dispatches
//! draw calls.
//!
//! The graphics device is modelled explicitly by [`device::Device`]: a record
//! of the four binding points together with the ordered trace of commands
//! issued so far. Every operation of the library states exactly how it moves
//! the binding points and which commands it appends, so the scoped binding
//! discipline (guards restore their binding point, never a foreign one) and
//! the upload ordering are checked by the verifier. An unverified executor
//! replays the trace against the real graphics API.

pub mod array_object;
pub mod attribute;
pub mod binder;
pub mod buffer;
pub mod bytes;
pub mod device;
pub mod element;
pub mod geometry;
pub mod index_buffer;
pub mod laws;
pub mod painter;
pub mod program;
pub mod uniform;

pub use array_object::ArrayObject;
pub use attribute::AttributeType;
pub use binder::{Binder, DrawScopedBinder};
pub use buffer::{AttributeData, BufferObject};
pub use device::{BufferTarget, Cmd, Device, DeviceState, GlCommand};
pub use element::PrimitiveKind;
pub use geometry::{labyrinth, sphere, Triangle};
pub use index_buffer::{IndexBufferObject, IndexData, IndexType};
pub use painter::{DrawMode, Painter};
pub use program::Program;
pub use uniform::Uniform;
