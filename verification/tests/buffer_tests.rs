use voxel_chunk::opengl::buffer::{buffer_data, Buffer, BufferType, GlCommand};

#[test]
fn buffer_types_have_their_opengl_targets() {
    assert_eq!(BufferType::Array.gl_enum(), ogl33::GL_ARRAY_BUFFER);
    assert_eq!(BufferType::ElementArray.gl_enum(), ogl33::GL_ELEMENT_ARRAY_BUFFER);
    assert_eq!(BufferType::Array.gl_enum(), 0x8892);
    assert_eq!(BufferType::ElementArray.gl_enum(), 0x8893);
}

#[test]
fn a_buffer_named_zero_was_not_made() {
    assert_eq!(Buffer::new(0), None);
}

#[test]
fn a_buffer_keeps_its_name() {
    assert_eq!(Buffer::new(1), Some(Buffer(1)));
    assert_eq!(Buffer::new(u32::MAX), Some(Buffer(u32::MAX)));
    assert_eq!(Buffer::new(7).map(|buffer| buffer.0), Some(7));
}

#[test]
fn bind_names_the_buffer_and_the_target() {
    let buffer = Buffer(9);
    assert_eq!(
        buffer.bind(BufferType::Array),
        GlCommand::BindBuffer { target: BufferType::Array, buffer: 9 }
    );
    assert_eq!(
        buffer.bind(BufferType::ElementArray),
        GlCommand::BindBuffer { target: BufferType::ElementArray, buffer: 9 }
    );
}

#[test]
fn clear_binding_binds_zero() {
    assert_eq!(
        Buffer::clear_binding(BufferType::Array),
        GlCommand::BindBuffer { target: BufferType::Array, buffer: 0 }
    );
    assert_eq!(
        Buffer::clear_binding(BufferType::ElementArray),
        GlCommand::BindBuffer { target: BufferType::ElementArray, buffer: 0 }
    );
}

#[test]
fn buffer_data_passes_the_length_in_bytes() {
    let data = [1u8, 2, 3, 4, 5];
    assert_eq!(
        buffer_data(BufferType::Array, &data, ogl33::GL_STATIC_DRAW),
        GlCommand::BufferData {
            target: BufferType::Array,
            size: 5,
            usage: ogl33::GL_STATIC_DRAW
        }
    );
}

#[test]
fn buffer_data_of_nothing_has_size_zero() {
    assert_eq!(
        buffer_data(BufferType::ElementArray, &[], ogl33::GL_DYNAMIC_DRAW),
        GlCommand::BufferData {
            target: BufferType::ElementArray,
            size: 0,
            usage: ogl33::GL_DYNAMIC_DRAW
        }
    );
}
