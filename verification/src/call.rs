//! The GL and vitaGL calls that the library decides on.
//!
//! Each operation of the library computes the calls to make, in order, as
//! plain values; the driver around the library performs them against the GL.
//! Calls that read from the GL say so in their documentation: the driver
//! hands what they return back to the library.

use vstd::prelude::*;

verus! {

/// Where the index data of an indexed draw lives.
#[derive(Clone, Copy, Debug, PartialEq, Eq)]
pub enum IndexSource {
    /// In client memory: the index slice that the driver holds.
    Client,
    /// In the buffer bound to `GL_ELEMENT_ARRAY_BUFFER`, at this byte offset.
    BufferOffset(usize),
}

/// One call into vitaGL or the GL.
#[derive(Debug, PartialEq)]
pub enum GlCall {
    /// `vglSetupRuntimeShaderCompiler`.
    SetupRuntimeShaderCompiler { opt_level: i32, use_fastmath: i32, use_fastprecision: i32, use_fastint: i32 },
    /// `vglInitExtended`; it returns a `u8` that is 0 on failure.
    InitExtended { legacy_pool_size: i32, width: i32, height: i32, ram_threshold: i32, msaa: u32 },
    /// Load the GL function pointers through `vglGetProcAddress`.
    LoadFunctions,
    /// `vglSwapBuffers`.
    SwapBuffers { has_commondialog: u8 },
    /// `glGetError`; it returns the error code.
    GetError,
    /// `glDeleteBuffers` of one buffer.
    DeleteBuffers { buffer: u32 },
    /// `glBindBuffer`.
    BindBuffer { target: u32, buffer: u32 },
    /// `glBufferData` with `bytes` bytes of the data that the driver holds.
    BufferData { target: u32, bytes: isize, usage: u32 },
    /// `glVertexAttribDivisor`.
    VertexAttribDivisor { index: u32, divisor: u32 },
    /// `glEnableVertexAttribArray`.
    EnableVertexAttribArray { index: u32 },
    /// `glDisableVertexAttribArray`.
    DisableVertexAttribArray { index: u32 },
    /// `glVertexAttribPointer`, the pointer being a byte offset into the bound buffer.
    VertexAttribPointer { index: u32, size: i32, type_: u32, normalized: u8, stride: i32, offset: usize },
    /// `glDrawArrays`.
    DrawArrays { mode: u32, first: i32, count: i32 },
    /// `glDrawArraysInstanced`.
    DrawArraysInstanced { mode: u32, first: i32, count: i32, primcount: i32 },
    /// `glDrawElements`.
    DrawElements { mode: u32, count: i32, type_: u32, indices: IndexSource },
    /// `glDrawElementsInstanced`.
    DrawElementsInstanced { mode: u32, count: i32, type_: u32, indices: IndexSource, primcount: i32 },
    /// `glCreateShader`; it returns the new shader's id, 0 on failure.
    CreateShader { shader_type: u32 },
    /// `glShaderSource` with one string of the given text.
    ShaderSource { shader: u32, source: String },
    /// `glCompileShader`.
    CompileShader { shader: u32 },
    /// `glGetShaderiv`; it returns the parameter's value.
    GetShaderiv { shader: u32, pname: u32 },
    /// `glGetShaderInfoLog` into a buffer of `max_length` bytes; it returns that buffer.
    GetShaderInfoLog { shader: u32, max_length: i32 },
    /// `glDeleteShader`.
    DeleteShader { shader: u32 },
    /// `glCreateProgram`; it returns the new program's id, 0 on failure.
    CreateProgram,
    /// `glAttachShader`.
    AttachShader { program: u32, shader: u32 },
    /// `glLinkProgram`.
    LinkProgram { program: u32 },
    /// `glGetProgramiv`; it returns the parameter's value.
    GetProgramiv { program: u32, pname: u32 },
    /// `glGetProgramInfoLog` into a buffer of `max_length` bytes; it returns that buffer.
    GetProgramInfoLog { program: u32, max_length: i32 },
    /// `glDeleteProgram`.
    DeleteProgram { program: u32 },
    /// `glUseProgram`.
    UseProgram { program: u32 },
    /// `glGetAttribLocation` of a name without NUL bytes; it returns the location.
    GetAttribLocation { program: u32, name: String },
    /// `glGetUniformLocation` of a name without NUL bytes; it returns the location.
    GetUniformLocation { program: u32, name: String },
    /// `glDeleteTextures` of one texture.
    DeleteTextures { texture: u32 },
    /// `glBindTexture`.
    BindTexture { target: u32, texture: u32 },
    /// `glActiveTexture`.
    ActiveTexture { texture: u32 },
    /// `glTexImage2D` with the pixel data that the driver holds.
    TexImage2D { target: u32, level: i32, internalformat: i32, width: i32, height: i32, border: i32, format: u32, type_: u32 },
    /// `glGenerateMipmap`.
    GenerateMipmap { target: u32 },
    /// `glTexParameteri`.
    TexParameteri { target: u32, pname: u32, param: i32 },
    /// `glUniform1i`.
    Uniform1i { location: i32, value: i32 },
    /// `glUniform{components}iv` of `count` vectors, `values` holding their components in order.
    UniformIv { components: u32, location: i32, count: i32, values: Vec<i32> },
}

/// What a query call handed back.
#[derive(Debug, PartialEq)]
pub enum Reply {
    /// An object id (`glCreateShader`, `glCreateProgram`).
    Id(u32),
    /// An integer (`glGet*iv`).
    Int(i32),
    /// The buffer that `glGet*InfoLog` wrote into.
    Bytes(Vec<u8>),
}

/// The abstract value of a [`Reply`].
pub ghost enum ReplyModel {
    Id(u32),
    Int(i32),
    Bytes(Seq<u8>),
}

impl DeepView for Reply {
    type V = ReplyModel;

    open spec fn deep_view(&self) -> ReplyModel {
        match self {
            Reply::Id(id) => ReplyModel::Id(*id),
            Reply::Int(v) => ReplyModel::Int(*v),
            Reply::Bytes(b) => ReplyModel::Bytes(b@),
        }
    }
}

/// The abstract value of a [`GlCall`]: the same call, with text and arrays as sequences.
pub ghost enum GlOp {
    SetupRuntimeShaderCompiler { opt_level: i32, use_fastmath: i32, use_fastprecision: i32, use_fastint: i32 },
    InitExtended { legacy_pool_size: i32, width: i32, height: i32, ram_threshold: i32, msaa: u32 },
    LoadFunctions,
    SwapBuffers { has_commondialog: u8 },
    GetError,
    DeleteBuffers { buffer: u32 },
    BindBuffer { target: u32, buffer: u32 },
    BufferData { target: u32, bytes: isize, usage: u32 },
    VertexAttribDivisor { index: u32, divisor: u32 },
    EnableVertexAttribArray { index: u32 },
    DisableVertexAttribArray { index: u32 },
    VertexAttribPointer { index: u32, size: i32, type_: u32, normalized: u8, stride: i32, offset: usize },
    DrawArrays { mode: u32, first: i32, count: i32 },
    DrawArraysInstanced { mode: u32, first: i32, count: i32, primcount: i32 },
    DrawElements { mode: u32, count: i32, type_: u32, indices: IndexSource },
    DrawElementsInstanced { mode: u32, count: i32, type_: u32, indices: IndexSource, primcount: i32 },
    CreateShader { shader_type: u32 },
    ShaderSource { shader: u32, source: Seq<char> },
    CompileShader { shader: u32 },
    GetShaderiv { shader: u32, pname: u32 },
    GetShaderInfoLog { shader: u32, max_length: i32 },
    DeleteShader { shader: u32 },
    CreateProgram,
    AttachShader { program: u32, shader: u32 },
    LinkProgram { program: u32 },
    GetProgramiv { program: u32, pname: u32 },
    GetProgramInfoLog { program: u32, max_length: i32 },
    DeleteProgram { program: u32 },
    UseProgram { program: u32 },
    GetAttribLocation { program: u32, name: Seq<char> },
    GetUniformLocation { program: u32, name: Seq<char> },
    DeleteTextures { texture: u32 },
    BindTexture { target: u32, texture: u32 },
    ActiveTexture { texture: u32 },
    TexImage2D { target: u32, level: i32, internalformat: i32, width: i32, height: i32, border: i32, format: u32, type_: u32 },
    GenerateMipmap { target: u32 },
    TexParameteri { target: u32, pname: u32, param: i32 },
    Uniform1i { location: i32, value: i32 },
    UniformIv { components: u32, location: i32, count: i32, values: Seq<i32> },
}

impl DeepView for GlCall {
    type V = GlOp;

    open spec fn deep_view(&self) -> GlOp {
        match self {
            GlCall::SetupRuntimeShaderCompiler { opt_level, use_fastmath, use_fastprecision, use_fastint } =>
                GlOp::SetupRuntimeShaderCompiler { opt_level: *opt_level, use_fastmath: *use_fastmath, use_fastprecision: *use_fastprecision, use_fastint: *use_fastint },
            GlCall::InitExtended { legacy_pool_size, width, height, ram_threshold, msaa } =>
                GlOp::InitExtended { legacy_pool_size: *legacy_pool_size, width: *width, height: *height, ram_threshold: *ram_threshold, msaa: *msaa },
            GlCall::LoadFunctions => GlOp::LoadFunctions,
            GlCall::SwapBuffers { has_commondialog } => GlOp::SwapBuffers { has_commondialog: *has_commondialog },
            GlCall::GetError => GlOp::GetError,
            GlCall::DeleteBuffers { buffer } => GlOp::DeleteBuffers { buffer: *buffer },
            GlCall::BindBuffer { target, buffer } => GlOp::BindBuffer { target: *target, buffer: *buffer },
            GlCall::BufferData { target, bytes, usage } => GlOp::BufferData { target: *target, bytes: *bytes, usage: *usage },
            GlCall::VertexAttribDivisor { index, divisor } => GlOp::VertexAttribDivisor { index: *index, divisor: *divisor },
            GlCall::EnableVertexAttribArray { index } => GlOp::EnableVertexAttribArray { index: *index },
            GlCall::DisableVertexAttribArray { index } => GlOp::DisableVertexAttribArray { index: *index },
            GlCall::VertexAttribPointer { index, size, type_, normalized, stride, offset } =>
                GlOp::VertexAttribPointer { index: *index, size: *size, type_: *type_, normalized: *normalized, stride: *stride, offset: *offset },
            GlCall::DrawArrays { mode, first, count } => GlOp::DrawArrays { mode: *mode, first: *first, count: *count },
            GlCall::DrawArraysInstanced { mode, first, count, primcount } =>
                GlOp::DrawArraysInstanced { mode: *mode, first: *first, count: *count, primcount: *primcount },
            GlCall::DrawElements { mode, count, type_, indices } =>
                GlOp::DrawElements { mode: *mode, count: *count, type_: *type_, indices: *indices },
            GlCall::DrawElementsInstanced { mode, count, type_, indices, primcount } =>
                GlOp::DrawElementsInstanced { mode: *mode, count: *count, type_: *type_, indices: *indices, primcount: *primcount },
            GlCall::CreateShader { shader_type } => GlOp::CreateShader { shader_type: *shader_type },
            GlCall::ShaderSource { shader, source } => GlOp::ShaderSource { shader: *shader, source: source@ },
            GlCall::CompileShader { shader } => GlOp::CompileShader { shader: *shader },
            GlCall::GetShaderiv { shader, pname } => GlOp::GetShaderiv { shader: *shader, pname: *pname },
            GlCall::GetShaderInfoLog { shader, max_length } => GlOp::GetShaderInfoLog { shader: *shader, max_length: *max_length },
            GlCall::DeleteShader { shader } => GlOp::DeleteShader { shader: *shader },
            GlCall::CreateProgram => GlOp::CreateProgram,
            GlCall::AttachShader { program, shader } => GlOp::AttachShader { program: *program, shader: *shader },
            GlCall::LinkProgram { program } => GlOp::LinkProgram { program: *program },
            GlCall::GetProgramiv { program, pname } => GlOp::GetProgramiv { program: *program, pname: *pname },
            GlCall::GetProgramInfoLog { program, max_length } => GlOp::GetProgramInfoLog { program: *program, max_length: *max_length },
            GlCall::DeleteProgram { program } => GlOp::DeleteProgram { program: *program },
            GlCall::UseProgram { program } => GlOp::UseProgram { program: *program },
            GlCall::GetAttribLocation { program, name } => GlOp::GetAttribLocation { program: *program, name: name@ },
            GlCall::GetUniformLocation { program, name } => GlOp::GetUniformLocation { program: *program, name: name@ },
            GlCall::DeleteTextures { texture } => GlOp::DeleteTextures { texture: *texture },
            GlCall::BindTexture { target, texture } => GlOp::BindTexture { target: *target, texture: *texture },
            GlCall::ActiveTexture { texture } => GlOp::ActiveTexture { texture: *texture },
            GlCall::TexImage2D { target, level, internalformat, width, height, border, format, type_ } =>
                GlOp::TexImage2D { target: *target, level: *level, internalformat: *internalformat, width: *width, height: *height, border: *border, format: *format, type_: *type_ },
            GlCall::GenerateMipmap { target } => GlOp::GenerateMipmap { target: *target },
            GlCall::TexParameteri { target, pname, param } => GlOp::TexParameteri { target: *target, pname: *pname, param: *param },
            GlCall::Uniform1i { location, value } => GlOp::Uniform1i { location: *location, value: *value },
            GlCall::UniformIv { components, location, count, values } =>
                GlOp::UniformIv { components: *components, location: *location, count: *count, values: values@ },
        }
    }
}

/// The empty list of calls.
pub fn none() -> (calls: Vec<GlCall>)
    ensures
        calls.deep_view() == Seq::<GlOp>::empty(),
{
    let calls = Vec::new();
    assert(calls.deep_view() =~= Seq::<GlOp>::empty());
    calls
}

/// A list holding the one call `c`.
pub fn single(c: GlCall) -> (calls: Vec<GlCall>)
    ensures
        calls.deep_view() == seq![c.deep_view()],
{
    let mut calls = Vec::new();
    calls.push(c);
    calls
}

/// The list of the two calls `a` then `b`.
pub fn pair(a: GlCall, b: GlCall) -> (calls: Vec<GlCall>)
    ensures
        calls.deep_view() == seq![a.deep_view(), b.deep_view()],
{
    let mut calls = Vec::new();
    calls.push(a);
    calls.push(b);
    calls
}

/// The calls of an optional call: none or the one it holds.
pub open spec fn opt_ops(c: Option<GlCall>) -> Seq<GlOp> {
    match c {
        Some(c) => seq![c.deep_view()],
        None => seq![],
    }
}

} // verus!
