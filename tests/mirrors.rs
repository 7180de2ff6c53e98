use slang::{
    BindableResourceType, CompileFlags, CompileTarget, ContainerFormat, DebugInfoLevel,
    FloatingPointMode, LineDirectiveMode, MatrixLayoutMode, OptimizationLevel, PassThrough,
    ProfileId, Severity, SourceLanguage, Stage, TargetFlags,
};

#[test]
fn enum_constants_follow_the_native_header() {
    assert_eq!(Severity::Note.to_raw(), 0);
    assert_eq!(Severity::Internal.to_raw(), 4);
    assert_eq!(BindableResourceType::StorageBuffer.to_raw(), 4);
    assert_eq!(CompileTarget::TargetUnknown.to_raw(), 0);
    assert_eq!(CompileTarget::Glsl.to_raw(), 2);
    assert_eq!(CompileTarget::Hlsl.to_raw(), 5);
    assert_eq!(CompileTarget::DxilAsm.to_raw(), 11);
    assert_eq!(ContainerFormat::ContainerFormatSlangModule.to_raw(), 1);
    assert_eq!(PassThrough::Disabled.to_raw(), 0);
    assert_eq!(PassThrough::Glslang.to_raw(), 3);
    assert_eq!(FloatingPointMode::Precise.to_raw(), 2);
    assert_eq!(LineDirectiveMode::Glsl.to_raw(), 3);
    assert_eq!(SourceLanguage::Slang.to_raw(), 1);
    assert_eq!(MatrixLayoutMode::ColumnMajor.to_raw(), 2);
    assert_eq!(Stage::NoStage.to_raw(), 0);
    assert_eq!(Stage::Vertex.to_raw(), 1);
    assert_eq!(Stage::Fragment.to_raw(), 5);
    assert_eq!(Stage::Callable.to_raw(), 12);
    assert_eq!(DebugInfoLevel::Maximal.to_raw(), 3);
    assert_eq!(OptimizationLevel::Off.to_raw(), 0);
    assert_eq!(OptimizationLevel::High.to_raw(), 2);
}

#[test]
fn stage_constants_are_distinct() {
    let stages = [
        Stage::NoStage, Stage::Vertex, Stage::Hull, Stage::Domain, Stage::Geometry,
        Stage::Fragment, Stage::Compute, Stage::RayGeneration, Stage::Intersection,
        Stage::AnyHit, Stage::ClosestHit, Stage::Miss, Stage::Callable,
    ];
    for (i, a) in stages.iter().enumerate() {
        for (j, b) in stages.iter().enumerate() {
            assert_eq!(a.to_raw() == b.to_raw(), i == j);
        }
    }
}

#[test]
fn compile_flags_combine_bitwise() {
    let both = CompileFlags::no_mangling().union(CompileFlags::no_codegen());
    assert_eq!(both.bits(), 24);
    assert!(both.contains(CompileFlags::no_mangling()));
    assert_eq!(both.intersection(CompileFlags::no_codegen()).bits(), 16);
    assert_eq!(both, CompileFlags::all());
    let mut f = CompileFlags::empty();
    assert!(f.is_empty());
    f.insert(CompileFlags::no_codegen());
    assert_eq!(f.bits(), 16);
    f.remove(CompileFlags::no_codegen());
    assert!(f.is_empty());
    assert_eq!(CompileFlags::no_checking().bits(), 0);
    assert_eq!(CompileFlags::split_mixed_types().bits(), 0);
}

#[test]
fn flags_from_bits() {
    assert_eq!(CompileFlags::from_bits(8).map(|f| f.bits()), Some(8));
    assert!(CompileFlags::from_bits(1).is_none());
    assert_eq!(CompileFlags::from_bits_truncate(0xff).bits(), 24);
    assert_eq!(TargetFlags::all().bits(), 16);
    assert_eq!(TargetFlags::parameter_blocks_use_register_spaces().bits(), 16);
    assert!(TargetFlags::from_bits(8).is_none());
    assert!(!TargetFlags::empty().contains(TargetFlags::all()));
}

#[test]
fn profile_zero_is_no_profile() {
    assert!(ProfileId::new(0).is_none());
    let p = ProfileId::new(17).unwrap();
    assert_eq!(p.get(), 17);
}
