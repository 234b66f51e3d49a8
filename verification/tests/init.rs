use vita_gl_helpers::call::GlCall;
use vita_gl_helpers::{after_init_calls, initialise_default, swap_buffers, InitError, VitaGlBuilder};

#[test]
fn builder_defaults_drive_init() {
    let calls = VitaGlBuilder::new().init_calls();
    assert_eq!(calls.len(), 2);
    assert!(matches!(
        calls[0],
        GlCall::SetupRuntimeShaderCompiler { opt_level: 2, use_fastmath: 1, use_fastprecision: 0, use_fastint: 1 }
    ));
    assert!(matches!(
        calls[1],
        GlCall::InitExtended { legacy_pool_size: 0, width: 960, height: 544, ram_threshold: 68157440, msaa: 0 }
    ));
}

#[test]
fn builder_setters() {
    let b = VitaGlBuilder::new()
        .resolution(640, 368)
        .msaa(4)
        .shader_optimization(3)
        .fast_math(false)
        .fast_precision(true)
        .fast_int(false)
        .ram_threshold(1024)
        .legacy_pool_size(16);
    let calls = b.init_calls();
    assert!(matches!(
        calls[0],
        GlCall::SetupRuntimeShaderCompiler { opt_level: 3, use_fastmath: 0, use_fastprecision: 1, use_fastint: 0 }
    ));
    assert!(matches!(
        calls[1],
        GlCall::InitExtended { legacy_pool_size: 16, width: 640, height: 368, ram_threshold: 1024, msaa: 4 }
    ));
    let ctx = b.build(1).unwrap();
    assert_eq!(ctx.resolution(), (640, 368));
    assert_eq!((ctx.width(), ctx.height()), (640, 368));
}

#[test]
fn build_failure() {
    let err = VitaGlBuilder::new().build(0).err().unwrap();
    assert_eq!(err, InitError::InitFailed);
    assert_eq!(err.to_string(), "vitaGL initialization failed");
}

#[test]
fn swap_and_legacy_init() {
    let ctx = VitaGlBuilder::new().build(1).unwrap();
    assert!(matches!(ctx.swap_buffers(), GlCall::SwapBuffers { has_commondialog: 0 }));
    assert!(matches!(ctx.swap_buffers_with_dialog(), GlCall::SwapBuffers { has_commondialog: 1 }));
    assert!(matches!(swap_buffers(), GlCall::SwapBuffers { has_commondialog: 0 }));
    let calls = initialise_default();
    assert_eq!(calls.len(), 3);
    assert!(matches!(calls[1], GlCall::InitExtended { width: 960, height: 544, .. }));
    assert!(matches!(calls[2], GlCall::LoadFunctions));
}

#[test]
fn initialise_default_matches_default_builder() {
    let mut expected = VitaGlBuilder::new().init_calls();
    expected.push(GlCall::LoadFunctions);
    assert_eq!(initialise_default(), expected);
}

#[test]
fn builder_setters_change_only_their_setting() {
    let base = VitaGlBuilder::new().init_calls();
    let changed = VitaGlBuilder::new().msaa(2).init_calls();
    assert_eq!(base[0], changed[0]);
    assert!(matches!(changed[1], GlCall::InitExtended { msaa: 2, width: 960, height: 544, legacy_pool_size: 0, .. }));
}

#[test]
fn functions_load_only_after_successful_init() {
    assert!(after_init_calls(0).is_empty());
    let calls = after_init_calls(1);
    assert_eq!(calls.len(), 1);
    assert!(matches!(calls[0], GlCall::LoadFunctions));
}
