use vita_gl_helpers::call::GlCall;
use vita_gl_helpers::uniforms::{
    resolve_uniforms, Sampler2D, Uniform1fv, Uniform1iv, Uniform3iv, Uniform4fv, UniformMatrix4fv,
};

#[test]
fn test_uniform_types_exist() {
    // Just verify the types compile
    let _ = Uniform1fv::new(0);
    let _ = Uniform4fv::new(0);
    let _ = UniformMatrix4fv::new(0);
    let _ = Sampler2D::new(0);
}

#[test]
fn integer_uniform_calls() {
    match Uniform3iv::new(4).set_subrange(2, &[[1, 2, 3], [4, 5, 6]]) {
        GlCall::UniformIv { components, location, count, values } => {
            assert_eq!((components, location, count), (3, 6, 2));
            assert_eq!(values, vec![1, 2, 3, 4, 5, 6]);
        }
        other => panic!("unexpected call {:?}", other),
    }
    match Uniform1iv::new(2).set(9) {
        GlCall::UniformIv { components, location, count, values } => {
            assert_eq!((components, location, count, values), (1, 2, 1, vec![9]));
        }
        other => panic!("unexpected call {:?}", other),
    }
    assert!(matches!(Sampler2D::new(5).set(1), GlCall::Uniform1i { location: 5, value: 1 }));
    assert_eq!(UniformMatrix4fv::new(3).element_location(2), 5);
}

#[test]
fn resolve_uniforms_reports_minus_one_only() {
    let names = vec!["uMVP", "uColor", "uTime"];
    assert_eq!(resolve_uniforms(&names, &vec![0, -2, 7]).unwrap(), vec![0, -2, 7]);
    let err = resolve_uniforms(&names, &vec![-1, 3, -1]).unwrap_err();
    assert_eq!(err.0, vec!["uMVP", "uTime"]);
    assert_eq!(err.to_string(), "Missing uniforms: [uMVP, uTime]");
}
