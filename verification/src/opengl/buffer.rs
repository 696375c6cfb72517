use vstd::prelude::*;
use ogl33::{GLboolean, GLenum, GLint, GLsizei, GLuint};

verus! {

/// The types of buffer object that you can have.
#[derive(Clone, Copy, Debug, PartialEq, Eq, Structural)]
pub enum BufferType {
    /// Array Buffers holds arrays of vertex data for drawing.
    Array,
    /// Element Array Buffers hold indexes of what vertexes to use for drawing.
    ElementArray,
}

/// One call into OpenGL, with the arguments it is to be made with.
///
/// The library decides which calls are made and with what; whoever owns the
/// rendering context makes them, in the order given.
#[derive(Clone, Copy, Debug, PartialEq, Eq, Structural)]
pub enum GlCommand {
    /// `glBindVertexArray(array)`
    BindVertexArray { array: GLuint },
    /// `glBindBuffer(target, buffer)`
    BindBuffer { target: BufferType, buffer: GLuint },
    /// `glBufferData(target, size, data, usage)`, `data` being `size` bytes
    /// that the caller holds ready for this target.
    BufferData { target: BufferType, size: isize, usage: GLenum },
    /// `glEnableVertexAttribArray(index)`
    EnableVertexAttribArray { index: GLuint },
    /// `glVertexAttribPointer(index, components, type_, normalized, stride, offset)`,
    /// `offset` counting bytes from the start of the bound array buffer.
    VertexAttribPointer {
        index: GLuint,
        components: GLint,
        type_: GLenum,
        normalized: GLboolean,
        stride: GLsizei,
        offset: usize,
    },
}

/// The value of `GL_ARRAY_BUFFER`.
pub open spec fn array_buffer() -> GLenum {
    0x8892
}

/// The value of `GL_ELEMENT_ARRAY_BUFFER`.
pub open spec fn element_array_buffer() -> GLenum {
    0x8893
}

/// The value of `GL_STATIC_DRAW`.
pub open spec fn static_draw() -> GLenum {
    0x88E4
}

/// The value of `GL_FLOAT`.
pub open spec fn float_type() -> GLenum {
    0x1406
}

/// The value of `GL_FALSE`.
pub open spec fn not_normalized() -> GLboolean {
    0
}

/// Reads `ogl33::GL_ARRAY_BUFFER`, which that crate declares as `0x8892`.
#[verifier::external_body]
fn gl_array_buffer() -> (value: GLenum)
    ensures
        value == array_buffer(),
{
    ogl33::GL_ARRAY_BUFFER
}

/// Reads `ogl33::GL_ELEMENT_ARRAY_BUFFER`, which that crate declares as `0x8893`.
#[verifier::external_body]
fn gl_element_array_buffer() -> (value: GLenum)
    ensures
        value == element_array_buffer(),
{
    ogl33::GL_ELEMENT_ARRAY_BUFFER
}

/// Reads `ogl33::GL_STATIC_DRAW`, which that crate declares as `0x88E4`.
#[verifier::external_body]
pub(crate) fn gl_static_draw() -> (value: GLenum)
    ensures
        value == static_draw(),
{
    ogl33::GL_STATIC_DRAW
}

/// Reads `ogl33::GL_FLOAT`, which that crate declares as `0x1406`.
#[verifier::external_body]
pub(crate) fn gl_float() -> (value: GLenum)
    ensures
        value == float_type(),
{
    ogl33::GL_FLOAT
}

/// Reads `ogl33::GL_FALSE`, which that crate declares as `0`.
#[verifier::external_body]
pub(crate) fn gl_false() -> (value: GLboolean)
    ensures
        value == not_normalized(),
{
    ogl33::GL_FALSE
}

impl BufferType {
    /// The binding target this type of buffer has in OpenGL.
    pub open spec fn target(self) -> GLenum {
        match self {
            BufferType::Array => array_buffer(),
            BufferType::ElementArray => element_array_buffer(),
        }
    }

    /// The binding target this type of buffer has in OpenGL.
    pub fn gl_enum(self) -> (value: GLenum)
        ensures
            value == self.target(),
    {
        match self {
            BufferType::Array => gl_array_buffer(),
            BufferType::ElementArray => gl_element_array_buffer(),
        }
    }
}

/// Basic wrapper for a buffer object: the name OpenGL gave it.
#[derive(Clone, Copy, Debug, PartialEq, Eq, Structural)]
pub struct Buffer(pub GLuint);

impl Buffer {
    /// Takes the name that generating a buffer gave. OpenGL never gives the
    /// name zero to a buffer, so zero means that none was made.
    pub fn new(vbo: GLuint) -> (buffer: Option<Buffer>)
        ensures
            vbo != 0 ==> buffer == Some(Buffer(vbo)),
            vbo == 0 ==> buffer is None,
    {
        if vbo != 0 {
            Some(Buffer(vbo))
        } else {
            None
        }
    }

    /// The call that binds this buffer for the given type.
    pub fn bind(&self, ty: BufferType) -> (command: GlCommand)
        ensures
            command == (GlCommand::BindBuffer { target: ty, buffer: self.0 }),
    {
        GlCommand::BindBuffer { target: ty, buffer: self.0 }
    }

    /// The call that clears the current buffer binding for the given type.
    pub fn clear_binding(ty: BufferType) -> (command: GlCommand)
        ensures
            command == (GlCommand::BindBuffer { target: ty, buffer: 0 }),
    {
        GlCommand::BindBuffer { target: ty, buffer: 0 }
    }
}

/// The call that places a slice of data into a previously-bound buffer.
///
/// OpenGL takes the length as a signed number, so the slice may not be longer
/// than `isize::MAX` bytes.
pub fn buffer_data(ty: BufferType, data: &[u8], usage: GLenum) -> (command: GlCommand)
    requires
        data@.len() <= isize::MAX,
    ensures
        command == (GlCommand::BufferData { target: ty, size: data@.len() as isize, usage }),
{
    GlCommand::BufferData { target: ty, size: data.len() as isize, usage }
}

} // verus!
