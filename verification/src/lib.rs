//! # vitaGL Helpers
//!
//! Helpers for vitaGL development on PlayStation Vita: owning handles of GPU
//! resources, shader compilation and program linking, vertex attributes,
//! uniforms, textures, draw calls, GL errors and vitaGL initialization.
//!
//! The library decides; it does not touch the GPU. Every operation computes
//! the GL and vitaGL calls to make as [`call::GlCall`] values, in order, and
//! takes what a query call returned as an argument. A driver performs the
//! calls; protocols of several rounds, such as compiling a shader, are state
//! machines ([`protocol::ObjectBuild`]).

use vstd::prelude::*;
use vstd::string::StringExecFns;

pub mod attribute;
pub mod buffer;
pub mod call;
pub mod draw;
pub mod errors;
pub mod glenum;
pub mod handle;
pub mod info_log;
pub mod names;
pub mod prelude;
pub mod program;
pub mod protocol;
pub mod shader;
pub mod texture;
pub mod uniforms;

use crate::call::{GlCall, GlOp};

verus! {

/// Error during vitaGL initialization.
#[derive(Debug, Clone, Copy, PartialEq, Eq)]
pub enum InitError {
    /// `vglInitExtended` returned failure.
    InitFailed,
}

impl InitError {
    /// The error as it displays.
    pub fn to_string(&self) -> (s: String)
        ensures
            s@ == "vitaGL initialization failed"@,
    {
        String::from_str("vitaGL initialization failed")
    }
}

/// The default RAM threshold for texture memory: 65 MB.
pub const DEFAULT_RAM_THRESHOLD: i32 = 65 * 1024 * 1024;

/// The settings of a [`VitaGlBuilder`].
pub ghost struct VitaGlConfig {
    pub legacy_pool_size: i32,
    pub width: i32,
    pub height: i32,
    pub ram_threshold: i32,
    pub msaa: u32,
    pub shader_opt_level: i32,
    pub use_fastmath: bool,
    pub use_fastprecision: bool,
    pub use_fastint: bool,
}

/// The default settings: 960x544 (the Vita's native resolution), no MSAA, a
/// RAM threshold of 65 MB, no legacy pool, shader optimization level 2, fast
/// math and fast int on, fast precision off.
pub open spec fn default_config() -> VitaGlConfig {
    VitaGlConfig {
        legacy_pool_size: 0,
        width: 960,
        height: 544,
        ram_threshold: DEFAULT_RAM_THRESHOLD,
        msaa: 0,
        shader_opt_level: 2,
        use_fastmath: true,
        use_fastprecision: false,
        use_fastint: true,
    }
}

/// A flag as vitaGL takes it.
pub open spec fn flag(b: bool) -> i32 {
    if b {
        1
    } else {
        0
    }
}

/// The calls that set vitaGL up with configuration `c`: the runtime shader
/// compiler settings, then the initialization itself.
pub open spec fn init_ops(c: VitaGlConfig) -> Seq<GlOp> {
    seq![
        GlOp::SetupRuntimeShaderCompiler {
            opt_level: c.shader_opt_level,
            use_fastmath: flag(c.use_fastmath),
            use_fastprecision: flag(c.use_fastprecision),
            use_fastint: flag(c.use_fastint),
        },
        GlOp::InitExtended {
            legacy_pool_size: c.legacy_pool_size,
            width: c.width,
            height: c.height,
            ram_threshold: c.ram_threshold,
            msaa: c.msaa,
        },
    ]
}

/// Builder for vitaGL initialization.
#[derive(Debug, Clone)]
pub struct VitaGlBuilder {
    legacy_pool_size: i32,
    width: i32,
    height: i32,
    ram_threshold: i32,
    msaa: u32,
    shader_opt_level: i32,
    use_fastmath: bool,
    use_fastprecision: bool,
    use_fastint: bool,
}

impl View for VitaGlBuilder {
    type V = VitaGlConfig;

    closed spec fn view(&self) -> VitaGlConfig {
        VitaGlConfig {
            legacy_pool_size: self.legacy_pool_size,
            width: self.width,
            height: self.height,
            ram_threshold: self.ram_threshold,
            msaa: self.msaa,
            shader_opt_level: self.shader_opt_level,
            use_fastmath: self.use_fastmath,
            use_fastprecision: self.use_fastprecision,
            use_fastint: self.use_fastint,
        }
    }
}

fn flag_value(b: bool) -> (v: i32)
    ensures
        v == flag(b),
{
    if b {
        1
    } else {
        0
    }
}

impl Default for VitaGlBuilder {
    fn default() -> (b: Self)
        ensures
            b@ == default_config(),
    {
        VitaGlBuilder {
            legacy_pool_size: 0,
            width: 960,
            height: 544,
            ram_threshold: DEFAULT_RAM_THRESHOLD,
            msaa: 0,
            shader_opt_level: 2,
            use_fastmath: true,
            use_fastprecision: false,
            use_fastint: true,
        }
    }
}

impl VitaGlBuilder {
    /// A builder with the default settings (see [`default_config`]).
    pub fn new() -> (b: Self)
        ensures
            b@ == default_config(),
    {
        Self::default()
    }

    /// Sets the display resolution.
    pub fn resolution(self, width: i32, height: i32) -> (b: Self)
        ensures
            b@ == (VitaGlConfig { width, height, ..self@ }),
    {
        VitaGlBuilder { width, height, ..self }
    }

    /// Sets the MSAA level (common values: 0, 2, 4).
    pub fn msaa(self, samples: u32) -> (b: Self)
        ensures
            b@ == (VitaGlConfig { msaa: samples, ..self@ }),
    {
        VitaGlBuilder { msaa: samples, ..self }
    }

    /// Sets the RAM threshold for texture memory, in bytes.
    pub fn ram_threshold(self, bytes: i32) -> (b: Self)
        ensures
            b@ == (VitaGlConfig { ram_threshold: bytes, ..self@ }),
    {
        VitaGlBuilder { ram_threshold: bytes, ..self }
    }

    /// Sets the legacy pool size.
    pub fn legacy_pool_size(self, size: i32) -> (b: Self)
        ensures
            b@ == (VitaGlConfig { legacy_pool_size: size, ..self@ }),
    {
        VitaGlBuilder { legacy_pool_size: size, ..self }
    }

    /// Sets the shader compiler optimization level (0-3).
    pub fn shader_optimization(self, level: i32) -> (b: Self)
        ensures
            b@ == (VitaGlConfig { shader_opt_level: level, ..self@ }),
    {
        VitaGlBuilder { shader_opt_level: level, ..self }
    }

    /// Enables or disables fast math in shader compilation.
    pub fn fast_math(self, enabled: bool) -> (b: Self)
        ensures
            b@ == (VitaGlConfig { use_fastmath: enabled, ..self@ }),
    {
        VitaGlBuilder { use_fastmath: enabled, ..self }
    }

    /// Enables or disables fast precision in shader compilation.
    pub fn fast_precision(self, enabled: bool) -> (b: Self)
        ensures
            b@ == (VitaGlConfig { use_fastprecision: enabled, ..self@ }),
    {
        VitaGlBuilder { use_fastprecision: enabled, ..self }
    }

    /// Enables or disables fast int in shader compilation.
    pub fn fast_int(self, enabled: bool) -> (b: Self)
        ensures
            b@ == (VitaGlConfig { use_fastint: enabled, ..self@ }),
    {
        VitaGlBuilder { use_fastint: enabled, ..self }
    }

    /// The calls that initialize vitaGL with these settings; the last,
    /// `vglInitExtended`, returns the result that [`Self::build`] takes.
    pub fn init_calls(&self) -> (calls: Vec<GlCall>)
        ensures
            calls.deep_view() == init_ops(self@),
    {
        let mut calls = Vec::new();
        calls.push(
            GlCall::SetupRuntimeShaderCompiler {
                opt_level: self.shader_opt_level,
                use_fastmath: flag_value(self.use_fastmath),
                use_fastprecision: flag_value(self.use_fastprecision),
                use_fastint: flag_value(self.use_fastint),
            },
        );
        calls.push(
            GlCall::InitExtended {
                legacy_pool_size: self.legacy_pool_size,
                width: self.width,
                height: self.height,
                ram_threshold: self.ram_threshold,
                msaa: self.msaa,
            },
        );
        calls
    }

    /// Finishes initialization from what `vglInitExtended` returned: 0 is
    /// failure; otherwise the context has the configured resolution, and the
    /// GL functions are loaded next ([`after_init_calls`]).
    pub fn build(self, init_result: u8) -> (r: Result<VitaGlContext, InitError>)
        ensures
            init_result == 0 ==> r == Err::<VitaGlContext, InitError>(InitError::InitFailed),
            init_result != 0 ==> (r matches Ok(ctx) && ctx@ == (self@.width, self@.height)),
    {
        if init_result == 0 {
            return Err(InitError::InitFailed);
        }
        Ok(VitaGlContext { width: self.width, height: self.height })
    }
}

/// The calls that follow `vglInitExtended`, from what it returned: after a
/// success the GL function pointers are loaded; after a failure nothing more
/// is called.
pub fn after_init_calls(init_result: u8) -> (calls: Vec<GlCall>)
    ensures
        init_result == 0 ==> calls.deep_view() == Seq::<GlOp>::empty(),
        init_result != 0 ==> calls.deep_view() == seq![GlOp::LoadFunctions],
{
    let mut calls = Vec::new();
    if init_result != 0 {
        calls.push(GlCall::LoadFunctions);
    }
    calls
}

/// An initialized vitaGL graphics system.
#[derive(Debug)]
pub struct VitaGlContext {
    width: i32,
    height: i32,
}

impl View for VitaGlContext {
    type V = (i32, i32);

    /// The display resolution, (width, height).
    closed spec fn view(&self) -> (i32, i32) {
        (self.width, self.height)
    }
}

impl VitaGlContext {
    /// The call that swaps the front and back buffers, at the end of a frame.
    pub fn swap_buffers(&self) -> (c: GlCall)
        ensures
            c.deep_view() == (GlOp::SwapBuffers { has_commondialog: 0 }),
    {
        GlCall::SwapBuffers { has_commondialog: 0 }
    }

    /// The call that swaps buffers with support for the Vita's system dialogs.
    pub fn swap_buffers_with_dialog(&self) -> (c: GlCall)
        ensures
            c.deep_view() == (GlOp::SwapBuffers { has_commondialog: 1 }),
    {
        GlCall::SwapBuffers { has_commondialog: 1 }
    }

    /// The display width.
    pub fn width(&self) -> (w: i32)
        ensures
            w == self@.0,
    {
        self.width
    }

    /// The display height.
    pub fn height(&self) -> (h: i32)
        ensures
            h == self@.1,
    {
        self.height
    }

    /// The display resolution as (width, height).
    pub fn resolution(&self) -> (r: (i32, i32))
        ensures
            r == self@,
    {
        (self.width, self.height)
    }
}

/// The call that swaps buffers (standalone form of [`VitaGlContext::swap_buffers`]).
pub fn swap_buffers() -> (c: GlCall)
    ensures
        c.deep_view() == (GlOp::SwapBuffers { has_commondialog: 0 }),
{
    GlCall::SwapBuffers { has_commondialog: 0 }
}

/// Runtime shader compiler settings (the older form of [`VitaGlBuilder`]'s).
pub struct RuntimeShaderCompilerSettings {
    pub opt_level: i32,
    pub use_fastmath: i32,
    pub use_fastprecision: i32,
    pub use_fastint: i32,
}

impl Default for RuntimeShaderCompilerSettings {
    fn default() -> (s: Self)
        ensures
            s == (RuntimeShaderCompilerSettings {
                opt_level: 2,
                use_fastmath: 1,
                use_fastprecision: 0,
                use_fastint: 1,
            }),
    {
        RuntimeShaderCompilerSettings { opt_level: 2, use_fastmath: 1, use_fastprecision: 0, use_fastint: 1 }
    }
}

/// vitaGL initialization settings (the older form of [`VitaGlBuilder`]'s).
pub struct VglInitSettings {
    pub legacy_pool_size: i32,
    pub ram_threshold: i32,
    pub msaa: u32,
}

impl Default for VglInitSettings {
    fn default() -> (s: Self)
        ensures
            s == (VglInitSettings { legacy_pool_size: 0, ram_threshold: DEFAULT_RAM_THRESHOLD, msaa: 0 }),
    {
        VglInitSettings { legacy_pool_size: 0, ram_threshold: DEFAULT_RAM_THRESHOLD, msaa: 0 }
    }
}

/// The calls of [`initialise_extended`].
pub open spec fn initialise_ops(rscs: RuntimeShaderCompilerSettings, vis: VglInitSettings) -> Seq<GlOp> {
    seq![
        GlOp::SetupRuntimeShaderCompiler {
            opt_level: rscs.opt_level,
            use_fastmath: rscs.use_fastmath,
            use_fastprecision: rscs.use_fastprecision,
            use_fastint: rscs.use_fastint,
        },
        GlOp::InitExtended {
            legacy_pool_size: vis.legacy_pool_size,
            width: 960,
            height: 544,
            ram_threshold: vis.ram_threshold,
            msaa: vis.msaa,
        },
        GlOp::LoadFunctions,
    ]
}

/// The calls that initialize vitaGL at 960x544 with these settings and load
/// the GL functions, whatever the initialization returns.
pub fn initialise_extended(rscs: RuntimeShaderCompilerSettings, vis: VglInitSettings) -> (calls: Vec<GlCall>)
    ensures
        calls.deep_view() == initialise_ops(rscs, vis),
{
    let mut calls = Vec::new();
    calls.push(
        GlCall::SetupRuntimeShaderCompiler {
            opt_level: rscs.opt_level,
            use_fastmath: rscs.use_fastmath,
            use_fastprecision: rscs.use_fastprecision,
            use_fastint: rscs.use_fastint,
        },
    );
    calls.push(
        GlCall::InitExtended {
            legacy_pool_size: vis.legacy_pool_size,
            width: 960,
            height: 544,
            ram_threshold: vis.ram_threshold,
            msaa: vis.msaa,
        },
    );
    calls.push(GlCall::LoadFunctions);
    calls
}

/// A new builder initializes at the Vita's native 960x544 with no MSAA, a
/// RAM threshold of 65 MB (68157440 bytes), no legacy pool, shader
/// optimization level 2, fast math and fast int on and fast precision off.
pub proof fn law_builder_defaults(b: VitaGlBuilder, calls: Vec<GlCall>)
    requires
        call_ensures(VitaGlBuilder::new, (), b),
        call_ensures(VitaGlBuilder::init_calls, (&b,), calls),
    ensures
        calls@.len() == 2,
        calls@[0].deep_view() == (GlOp::SetupRuntimeShaderCompiler {
            opt_level: 2,
            use_fastmath: 1,
            use_fastprecision: 0,
            use_fastint: 1,
        }),
        calls@[1].deep_view() == (GlOp::InitExtended {
            legacy_pool_size: 0,
            width: 960,
            height: 544,
            ram_threshold: 68157440,
            msaa: 0,
        }),
{
    assert(calls@.len() == calls.deep_view().len());
    assert(calls@[0].deep_view() == calls.deep_view()[0]);
    assert(calls@[1].deep_view() == calls.deep_view()[1]);
}

/// The older initialization makes three calls, whatever the settings: the
/// runtime shader compiler setup with each of `rscs`' fields, the
/// initialization at 960x544 with `vis`' legacy pool size, RAM threshold and
/// MSAA, and the loading of the GL functions.
pub proof fn law_initialise_extended_passes_settings(
    rscs: RuntimeShaderCompilerSettings,
    vis: VglInitSettings,
    calls: Vec<GlCall>,
)
    requires
        call_ensures(initialise_extended, (rscs, vis), calls),
    ensures
        calls@.len() == 3,
        calls@[0].deep_view() == (GlOp::SetupRuntimeShaderCompiler {
            opt_level: rscs.opt_level,
            use_fastmath: rscs.use_fastmath,
            use_fastprecision: rscs.use_fastprecision,
            use_fastint: rscs.use_fastint,
        }),
        calls@[1].deep_view() == (GlOp::InitExtended {
            legacy_pool_size: vis.legacy_pool_size,
            width: 960,
            height: 544,
            ram_threshold: vis.ram_threshold,
            msaa: vis.msaa,
        }),
        calls@[2].deep_view() == GlOp::LoadFunctions,
{
    assert(calls@.len() == calls.deep_view().len());
    assert(calls@[0].deep_view() == calls.deep_view()[0]);
    assert(calls@[1].deep_view() == calls.deep_view()[1]);
    assert(calls@[2].deep_view() == calls.deep_view()[2]);
}

/// Initializing through a builder makes two calls: the runtime shader
/// compiler setup with the builder's optimization level and its fast math,
/// fast precision and fast int flags (1 when on, 0 when off), then the
/// initialization with the builder's legacy pool size, resolution, RAM
/// threshold and MSAA.
pub proof fn law_init_calls_pass_settings(b: VitaGlBuilder, calls: Vec<GlCall>)
    requires
        call_ensures(VitaGlBuilder::init_calls, (&b,), calls),
    ensures
        calls@.len() == 2,
        calls@[0].deep_view() matches GlOp::SetupRuntimeShaderCompiler { opt_level, use_fastmath, use_fastprecision, use_fastint }
            && opt_level == b@.shader_opt_level
            && (use_fastmath == 1 <==> b@.use_fastmath) && (use_fastmath == 0 <==> !b@.use_fastmath)
            && (use_fastprecision == 1 <==> b@.use_fastprecision) && (use_fastprecision == 0 <==> !b@.use_fastprecision)
            && (use_fastint == 1 <==> b@.use_fastint) && (use_fastint == 0 <==> !b@.use_fastint),
        calls@[1].deep_view() == (GlOp::InitExtended {
            legacy_pool_size: b@.legacy_pool_size,
            width: b@.width,
            height: b@.height,
            ram_threshold: b@.ram_threshold,
            msaa: b@.msaa,
        }),
{
    assert(calls@.len() == calls.deep_view().len());
    assert(calls@[0].deep_view() == calls.deep_view()[0]);
    assert(calls@[1].deep_view() == calls.deep_view()[1]);
}

/// A setting made on a builder reaches the initialization: after `msaa(n)`
/// the initialization asks for `n` samples, and its other settings are those
/// the builder had.
pub proof fn law_builder_settings_reach_init(
    b: VitaGlBuilder,
    samples: u32,
    with_msaa: VitaGlBuilder,
    calls: Vec<GlCall>,
)
    requires
        call_ensures(VitaGlBuilder::msaa, (b, samples), with_msaa),
        call_ensures(VitaGlBuilder::init_calls, (&with_msaa,), calls),
    ensures
        calls@.len() == 2,
        calls@[1].deep_view() == (GlOp::InitExtended {
            legacy_pool_size: b@.legacy_pool_size,
            width: b@.width,
            height: b@.height,
            ram_threshold: b@.ram_threshold,
            msaa: samples,
        }),
{
    assert(calls@.len() == calls.deep_view().len());
    assert(calls@[1].deep_view() == calls.deep_view()[1]);
}

/// The calls that initialize vitaGL with the default settings.
pub fn initialise_default() -> (calls: Vec<GlCall>)
    ensures
        calls.deep_view() == initialise_ops(
            RuntimeShaderCompilerSettings { opt_level: 2, use_fastmath: 1, use_fastprecision: 0, use_fastint: 1 },
            VglInitSettings { legacy_pool_size: 0, ram_threshold: DEFAULT_RAM_THRESHOLD, msaa: 0 },
        ),
{
    initialise_extended(RuntimeShaderCompilerSettings::default(), VglInitSettings::default())
}

/// The older initialization with default settings makes the same calls as
/// initializing through a default [`VitaGlBuilder`] that succeeds, followed by
/// loading the GL functions.
pub proof fn lemma_initialise_default_is_default_builder()
    ensures
        initialise_ops(
            RuntimeShaderCompilerSettings { opt_level: 2, use_fastmath: 1, use_fastprecision: 0, use_fastint: 1 },
            VglInitSettings { legacy_pool_size: 0, ram_threshold: DEFAULT_RAM_THRESHOLD, msaa: 0 },
        ) == init_ops(default_config()).push(GlOp::LoadFunctions),
{
    assert(initialise_ops(
        RuntimeShaderCompilerSettings { opt_level: 2, use_fastmath: 1, use_fastprecision: 0, use_fastint: 1 },
        VglInitSettings { legacy_pool_size: 0, ram_threshold: DEFAULT_RAM_THRESHOLD, msaa: 0 },
    ) =~= init_ops(default_config()).push(GlOp::LoadFunctions));
}

} // verus!
