use slang::pipeline::{check_compile, require_profile, BackendSelector, Error};
use slang::{Backend, CompileTarget, ProfileId, ShaderPipeline};

#[test]
fn windows_selects_hlsl_sm_4_0() {
    let s = BackendSelector::for_platform(true);
    assert_eq!(s.profile, "sm_4_0");
    assert_eq!(s.target, CompileTarget::Hlsl);
    assert_eq!(s.backend, Backend::HlslSm40);
}

#[test]
fn other_hosts_select_glsl_150() {
    let s = BackendSelector::for_platform(false);
    assert_eq!(s.profile, "glsl_150");
    assert_eq!(s.target, CompileTarget::Glsl);
    assert_eq!(s.backend, Backend::Glsl150);
}

#[test]
fn clean_compile_succeeds() {
    assert!(check_compile(0, String::new()).is_ok());
}

#[test]
fn diagnostics_fail_even_with_zero_code() {
    let text = "shader.slang(3): error 20001: unexpected '}'".to_string();
    match check_compile(0, text.clone()) {
        Err(Error::CompilerOutput(d)) => assert_eq!(d, text),
        other => panic!("unexpected {:?}", other),
    }
}

#[test]
fn diagnostics_take_precedence_over_the_code() {
    match check_compile(0x80004005u32 as i32, "warning".to_string()) {
        Err(Error::CompilerOutput(d)) => assert_eq!(d, "warning"),
        other => panic!("unexpected {:?}", other),
    }
}

#[test]
fn failing_code_without_diagnostics_is_a_native_error() {
    match check_compile(0x80004005u32 as i32, String::new()) {
        Err(Error::SlangError(e)) => assert_eq!(e, slang::Error::Fail),
        other => panic!("unexpected {:?}", other),
    }
    match check_compile(5, String::new()) {
        Err(Error::SlangError(e)) => assert_eq!(e, slang::Error::Unknown(5)),
        other => panic!("unexpected {:?}", other),
    }
}

#[test]
fn missing_profile_is_reported_by_name() {
    match require_profile("no_such_profile", None) {
        Err(Error::ProfileNotFound(n)) => assert_eq!(n, "no_such_profile"),
        other => panic!("unexpected {:?}", other),
    }
    let p = ProfileId::new(3).unwrap();
    assert_eq!(require_profile("sm_4_0", Some(p)).unwrap(), p);
}

#[test]
fn pipeline_keeps_both_stages() {
    let p = ShaderPipeline::new(Backend::Glsl150, vec![1, 2, 3], vec![4, 5]);
    assert_eq!(p.backend(), Backend::Glsl150);
    assert_eq!(p.vertex(), &[1, 2, 3]);
    assert_eq!(p.pixel(), &[4, 5]);
    assert!(p.is_for(Backend::Glsl150));
    assert!(!p.is_for(Backend::Glsl300es));
}

#[test]
fn native_error_converts_into_pipeline_error() {
    match Error::from(slang::Error::Abort) {
        Error::SlangError(e) => assert_eq!(e, slang::Error::Abort),
        other => panic!("unexpected {:?}", other),
    }
}
