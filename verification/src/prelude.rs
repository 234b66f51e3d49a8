//! The items that most programs use, for `use vita_gl_helpers::prelude::*;`.

pub use crate::attribute::{Attribute, AttributeFormat, AttributeSize, AttributeTable, AttributeType};
pub use crate::buffer::Buffer;
pub use crate::draw::{draw_arrays, Elements, Mode};
pub use crate::errors::{get_error, GlError};
pub use crate::program::Program;
pub use crate::shader::{Shader, ShaderType};
pub use crate::texture::Texture;
pub use crate::uniforms::UniformTable;
pub use crate::{swap_buffers, VitaGlBuilder, VitaGlContext};
