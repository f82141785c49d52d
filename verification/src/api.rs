//! Backend-neutral records: opaque resource identifiers, kernel-argument
//! records, and command records, as the backend device consumes them.

use vstd::prelude::*;

verus! {

/// Opaque backend-assigned identifier of a buffer resource.
#[derive(Clone, Copy, PartialEq, Eq, Structural, Debug)]
pub struct Buffer(pub usize);

/// Opaque backend-assigned identifier of a texture resource.
#[derive(Clone, Copy, PartialEq, Eq, Structural, Debug)]
pub struct Texture(pub usize);

/// Opaque backend-assigned identifier of a bindless array.
#[derive(Clone, Copy, PartialEq, Eq, Structural, Debug)]
pub struct BindlessArray(pub usize);

/// Opaque backend-assigned identifier of a mesh.
#[derive(Clone, Copy, PartialEq, Eq, Structural, Debug)]
pub struct Mesh(pub usize);

/// Opaque backend-assigned identifier of an acceleration structure.
#[derive(Clone, Copy, PartialEq, Eq, Structural, Debug)]
pub struct Accel(pub usize);

/// Opaque backend-assigned identifier of a command stream.
#[derive(Clone, Copy, PartialEq, Eq, Structural, Debug)]
pub struct Stream(pub usize);

/// Opaque backend-assigned identifier of a compiled shader object.
#[derive(Clone, Copy, PartialEq, Eq, Structural, Debug)]
pub struct Shader(pub usize);

/// Argument record for a buffer parameter: identifier plus a byte range.
#[derive(Clone, Copy, PartialEq, Eq, Structural, Debug)]
pub struct BufferArgument {
    pub buffer: Buffer,
    /// Byte offset of the bound range from the start of the buffer.
    pub offset: usize,
    /// Byte size of the bound range.
    pub size: usize,
}

/// Argument record for a texture parameter: identifier plus a mip level.
#[derive(Clone, Copy, PartialEq, Eq, Structural, Debug)]
pub struct TextureArgument {
    pub texture: Texture,
    pub level: u32,
}

/// One backend-neutral kernel-argument record.
#[derive(Clone, Copy, PartialEq, Eq, Structural, Debug)]
pub enum Argument {
    Buffer(BufferArgument),
    Texture(TextureArgument),
    BindlessArray(BindlessArray),
    Accel(Accel),
}

/// A shader dispatch over a 3-component grid with encoded arguments.
#[derive(Debug)]
pub struct ShaderDispatchCommand {
    pub shader: Shader,
    pub args: Vec<Argument>,
    pub dispatch_size: [u32; 3],
}

/// One backend-native operation record.
#[derive(Debug)]
pub enum Command {
    ShaderDispatch(ShaderDispatchCommand),
}

/// Build hint for an acceleration structure.
#[derive(Clone, Copy, PartialEq, Eq, Structural, Debug)]
pub enum AccelUsageHint {
    FastTrace,
    FastBuild,
}

/// Options for mesh and acceleration-structure creation.
#[derive(Clone, Copy, PartialEq, Eq, Structural, Debug)]
pub struct AccelOption {
    pub hint: AccelUsageHint,
    pub allow_compaction: bool,
    pub allow_update: bool,
}

/// Pixel storage layout of a texture.
#[derive(Clone, Copy, PartialEq, Eq, Structural, Debug)]
pub enum PixelStorage {
    Byte1,
    Byte2,
    Byte4,
    Int1,
    Int2,
    Int4,
}

} // verus!
