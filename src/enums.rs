//! Typed mirrors of the native compiler's enumerations.
//!
//! Each enumeration converts to the native integer constant of the same name
//! through `to_raw`; the constants below are those of the native header.
use vstd::prelude::*;

verus! {
// Severity
pub const SLANG_SEVERITY_NOTE: i32 = 0;
pub const SLANG_SEVERITY_WARNING: i32 = 1;
pub const SLANG_SEVERITY_ERROR: i32 = 2;
pub const SLANG_SEVERITY_FATAL: i32 = 3;
pub const SLANG_SEVERITY_INTERNAL: i32 = 4;

// BindableResourceType
pub const SLANG_NON_BINDABLE: i32 = 0;
pub const SLANG_TEXTURE: i32 = 1;
pub const SLANG_SAMPLER: i32 = 2;
pub const SLANG_UNIFORM_BUFFER: i32 = 3;
pub const SLANG_STORAGE_BUFFER: i32 = 4;

// CompileTarget
pub const SLANG_TARGET_UNKNOWN: i32 = 0;
pub const SLANG_TARGET_NONE: i32 = 1;
pub const SLANG_GLSL: i32 = 2;
pub const SLANG_GLSL_VULKAN: i32 = 3;
pub const SLANG_GLSL_VULKAN_ONE_DESC: i32 = 4;
pub const SLANG_HLSL: i32 = 5;
pub const SLANG_SPIRV: i32 = 6;
pub const SLANG_SPIRV_ASM: i32 = 7;
pub const SLANG_DXBC: i32 = 8;
pub const SLANG_DXBC_ASM: i32 = 9;
pub const SLANG_DXIL: i32 = 10;
pub const SLANG_DXIL_ASM: i32 = 11;

// ContainerFormat
pub const SLANG_CONTAINER_FORMAT_NONE: i32 = 0;
pub const SLANG_CONTAINER_FORMAT_SLANG_MODULE: i32 = 1;

// PassThrough
pub const SLANG_PASS_THROUGH_NONE: i32 = 0;
pub const SLANG_PASS_THROUGH_FXC: i32 = 1;
pub const SLANG_PASS_THROUGH_DXC: i32 = 2;
pub const SLANG_PASS_THROUGH_GLSLANG: i32 = 3;

// FloatingPointMode
pub const SLANG_FLOATING_POINT_MODE_DEFAULT: i32 = 0;
pub const SLANG_FLOATING_POINT_MODE_FAST: i32 = 1;
pub const SLANG_FLOATING_POINT_MODE_PRECISE: i32 = 2;

// LineDirectiveMode
pub const SLANG_LINE_DIRECTIVE_MODE_DEFAULT: i32 = 0;
pub const SLANG_LINE_DIRECTIVE_MODE_NONE: i32 = 1;
pub const SLANG_LINE_DIRECTIVE_MODE_STANDARD: i32 = 2;
pub const SLANG_LINE_DIRECTIVE_MODE_GLSL: i32 = 3;

// SourceLanguage
pub const SLANG_SOURCE_LANGUAGE_UNKNOWN: i32 = 0;
pub const SLANG_SOURCE_LANGUAGE_SLANG: i32 = 1;
pub const SLANG_SOURCE_LANGUAGE_HLSL: i32 = 2;
pub const SLANG_SOURCE_LANGUAGE_GLSL: i32 = 3;

// MatrixLayoutMode
pub const SLANG_MATRIX_LAYOUT_MODE_UNKNOWN: i32 = 0;
pub const SLANG_MATRIX_LAYOUT_ROW_MAJOR: i32 = 1;
pub const SLANG_MATRIX_LAYOUT_COLUMN_MAJOR: i32 = 2;

// Stage
pub const SLANG_STAGE_NONE: i32 = 0;
pub const SLANG_STAGE_VERTEX: i32 = 1;
pub const SLANG_STAGE_HULL: i32 = 2;
pub const SLANG_STAGE_DOMAIN: i32 = 3;
pub const SLANG_STAGE_GEOMETRY: i32 = 4;
pub const SLANG_STAGE_FRAGMENT: i32 = 5;
pub const SLANG_STAGE_COMPUTE: i32 = 6;
pub const SLANG_STAGE_RAY_GENERATION: i32 = 7;
pub const SLANG_STAGE_INTERSECTION: i32 = 8;
pub const SLANG_STAGE_ANY_HIT: i32 = 9;
pub const SLANG_STAGE_CLOSEST_HIT: i32 = 10;
pub const SLANG_STAGE_MISS: i32 = 11;
pub const SLANG_STAGE_CALLABLE: i32 = 12;

// DebugInfoLevel
pub const SLANG_DEBUG_INFO_LEVEL_NONE: i32 = 0;
pub const SLANG_DEBUG_INFO_LEVEL_MINIMAL: i32 = 1;
pub const SLANG_DEBUG_INFO_LEVEL_STANDARD: i32 = 2;
pub const SLANG_DEBUG_INFO_LEVEL_MAXIMAL: i32 = 3;

// OptimizationLevel
pub const SLANG_OPTIMIZATION_LEVEL_NONE: i32 = 0;
pub const SLANG_OPTIMIZATION_LEVEL_DEFAULT: i32 = 1;
pub const SLANG_OPTIMIZATION_LEVEL_HIGH: i32 = 2;
pub const SLANG_OPTIMIZATION_LEVEL_MAXIMAL: i32 = 3;

/// Severity of a diagnostic message.
#[derive(Debug, Clone, Copy, PartialEq, Eq, Structural)]
pub enum Severity {
    Note,
    Warning,
    Error,
    Fatal,
    Internal,
}

impl Severity {
    /// The native constant of this value.
    pub open spec fn spec_raw(self) -> i32 {
        match self {
            Severity::Note => SLANG_SEVERITY_NOTE,
            Severity::Warning => SLANG_SEVERITY_WARNING,
            Severity::Error => SLANG_SEVERITY_ERROR,
            Severity::Fatal => SLANG_SEVERITY_FATAL,
            Severity::Internal => SLANG_SEVERITY_INTERNAL,
        }
    }

    /// The native constant of this value.
    pub fn to_raw(self) -> (r: i32)
        ensures
            r == self.spec_raw(),
    {
        match self {
            Severity::Note => SLANG_SEVERITY_NOTE,
            Severity::Warning => SLANG_SEVERITY_WARNING,
            Severity::Error => SLANG_SEVERITY_ERROR,
            Severity::Fatal => SLANG_SEVERITY_FATAL,
            Severity::Internal => SLANG_SEVERITY_INTERNAL,
        }
    }
}

/// Distinct values of `Severity` have distinct native constants.
pub proof fn lemma_severity_raw_injective(a: Severity, b: Severity)
    ensures
        a.spec_raw() == b.spec_raw() <==> a == b,
{
}

/// Kind of resource that a shader parameter binds.
#[derive(Debug, Clone, Copy, PartialEq, Eq, Structural)]
pub enum BindableResourceType {
    NonBindable,
    Texture,
    Sampler,
    UniformBuffer,
    StorageBuffer,
}

impl BindableResourceType {
    /// The native constant of this value.
    pub open spec fn spec_raw(self) -> i32 {
        match self {
            BindableResourceType::NonBindable => SLANG_NON_BINDABLE,
            BindableResourceType::Texture => SLANG_TEXTURE,
            BindableResourceType::Sampler => SLANG_SAMPLER,
            BindableResourceType::UniformBuffer => SLANG_UNIFORM_BUFFER,
            BindableResourceType::StorageBuffer => SLANG_STORAGE_BUFFER,
        }
    }

    /// The native constant of this value.
    pub fn to_raw(self) -> (r: i32)
        ensures
            r == self.spec_raw(),
    {
        match self {
            BindableResourceType::NonBindable => SLANG_NON_BINDABLE,
            BindableResourceType::Texture => SLANG_TEXTURE,
            BindableResourceType::Sampler => SLANG_SAMPLER,
            BindableResourceType::UniformBuffer => SLANG_UNIFORM_BUFFER,
            BindableResourceType::StorageBuffer => SLANG_STORAGE_BUFFER,
        }
    }
}

/// Distinct values of `BindableResourceType` have distinct native constants.
pub proof fn lemma_bindable_resource_type_raw_injective(a: BindableResourceType, b: BindableResourceType)
    ensures
        a.spec_raw() == b.spec_raw() <==> a == b,
{
}

/// Form of code that a target generates.
#[derive(Debug, Clone, Copy, PartialEq, Eq, Structural)]
pub enum CompileTarget {
    TargetUnknown,
    TargetNone,
    Glsl,
    GlslVulkan,
    GlslVulkanOneDesc,
    Hlsl,
    Spirv,
    SpirvAsm,
    Dxbc,
    DxbcAsm,
    Dxil,
    DxilAsm,
}

impl CompileTarget {
    /// The native constant of this value.
    pub open spec fn spec_raw(self) -> i32 {
        match self {
            CompileTarget::TargetUnknown => SLANG_TARGET_UNKNOWN,
            CompileTarget::TargetNone => SLANG_TARGET_NONE,
            CompileTarget::Glsl => SLANG_GLSL,
            CompileTarget::GlslVulkan => SLANG_GLSL_VULKAN,
            CompileTarget::GlslVulkanOneDesc => SLANG_GLSL_VULKAN_ONE_DESC,
            CompileTarget::Hlsl => SLANG_HLSL,
            CompileTarget::Spirv => SLANG_SPIRV,
            CompileTarget::SpirvAsm => SLANG_SPIRV_ASM,
            CompileTarget::Dxbc => SLANG_DXBC,
            CompileTarget::DxbcAsm => SLANG_DXBC_ASM,
            CompileTarget::Dxil => SLANG_DXIL,
            CompileTarget::DxilAsm => SLANG_DXIL_ASM,
        }
    }

    /// The native constant of this value.
    pub fn to_raw(self) -> (r: i32)
        ensures
            r == self.spec_raw(),
    {
        match self {
            CompileTarget::TargetUnknown => SLANG_TARGET_UNKNOWN,
            CompileTarget::TargetNone => SLANG_TARGET_NONE,
            CompileTarget::Glsl => SLANG_GLSL,
            CompileTarget::GlslVulkan => SLANG_GLSL_VULKAN,
            CompileTarget::GlslVulkanOneDesc => SLANG_GLSL_VULKAN_ONE_DESC,
            CompileTarget::Hlsl => SLANG_HLSL,
            CompileTarget::Spirv => SLANG_SPIRV,
            CompileTarget::SpirvAsm => SLANG_SPIRV_ASM,
            CompileTarget::Dxbc => SLANG_DXBC,
            CompileTarget::DxbcAsm => SLANG_DXBC_ASM,
            CompileTarget::Dxil => SLANG_DXIL,
            CompileTarget::DxilAsm => SLANG_DXIL_ASM,
        }
    }
}

/// Distinct values of `CompileTarget` have distinct native constants.
pub proof fn lemma_compile_target_raw_injective(a: CompileTarget, b: CompileTarget)
    ensures
        a.spec_raw() == b.spec_raw() <==> a == b,
{
}

/// Container that compiled output is wrapped in.
#[derive(Debug, Clone, Copy, PartialEq, Eq, Structural)]
pub enum ContainerFormat {
    ContainerFormatNone,
    ContainerFormatSlangModule,
}

impl ContainerFormat {
    /// The native constant of this value.
    pub open spec fn spec_raw(self) -> i32 {
        match self {
            ContainerFormat::ContainerFormatNone => SLANG_CONTAINER_FORMAT_NONE,
            ContainerFormat::ContainerFormatSlangModule => SLANG_CONTAINER_FORMAT_SLANG_MODULE,
        }
    }

    /// The native constant of this value.
    pub fn to_raw(self) -> (r: i32)
        ensures
            r == self.spec_raw(),
    {
        match self {
            ContainerFormat::ContainerFormatNone => SLANG_CONTAINER_FORMAT_NONE,
            ContainerFormat::ContainerFormatSlangModule => SLANG_CONTAINER_FORMAT_SLANG_MODULE,
        }
    }
}

/// Distinct values of `ContainerFormat` have distinct native constants.
pub proof fn lemma_container_format_raw_injective(a: ContainerFormat, b: ContainerFormat)
    ensures
        a.spec_raw() == b.spec_raw() <==> a == b,
{
}

/// Downstream compiler that source is handed to unchanged.
#[derive(Debug, Clone, Copy, PartialEq, Eq, Structural)]
pub enum PassThrough {
    Disabled,
    Fxc,
    Dxc,
    Glslang,
}

impl PassThrough {
    /// The native constant of this value.
    pub open spec fn spec_raw(self) -> i32 {
        match self {
            PassThrough::Disabled => SLANG_PASS_THROUGH_NONE,
            PassThrough::Fxc => SLANG_PASS_THROUGH_FXC,
            PassThrough::Dxc => SLANG_PASS_THROUGH_DXC,
            PassThrough::Glslang => SLANG_PASS_THROUGH_GLSLANG,
        }
    }

    /// The native constant of this value.
    pub fn to_raw(self) -> (r: i32)
        ensures
            r == self.spec_raw(),
    {
        match self {
            PassThrough::Disabled => SLANG_PASS_THROUGH_NONE,
            PassThrough::Fxc => SLANG_PASS_THROUGH_FXC,
            PassThrough::Dxc => SLANG_PASS_THROUGH_DXC,
            PassThrough::Glslang => SLANG_PASS_THROUGH_GLSLANG,
        }
    }
}

/// Distinct values of `PassThrough` have distinct native constants.
pub proof fn lemma_pass_through_raw_injective(a: PassThrough, b: PassThrough)
    ensures
        a.spec_raw() == b.spec_raw() <==> a == b,
{
}

/// Floating-point code generation mode of a target.
#[derive(Debug, Clone, Copy, PartialEq, Eq, Structural)]
pub enum FloatingPointMode {
    Default,
    Fast,
    Precise,
}

impl FloatingPointMode {
    /// The native constant of this value.
    pub open spec fn spec_raw(self) -> i32 {
        match self {
            FloatingPointMode::Default => SLANG_FLOATING_POINT_MODE_DEFAULT,
            FloatingPointMode::Fast => SLANG_FLOATING_POINT_MODE_FAST,
            FloatingPointMode::Precise => SLANG_FLOATING_POINT_MODE_PRECISE,
        }
    }

    /// The native constant of this value.
    pub fn to_raw(self) -> (r: i32)
        ensures
            r == self.spec_raw(),
    {
        match self {
            FloatingPointMode::Default => SLANG_FLOATING_POINT_MODE_DEFAULT,
            FloatingPointMode::Fast => SLANG_FLOATING_POINT_MODE_FAST,
            FloatingPointMode::Precise => SLANG_FLOATING_POINT_MODE_PRECISE,
        }
    }
}

/// Distinct values of `FloatingPointMode` have distinct native constants.
pub proof fn lemma_floating_point_mode_raw_injective(a: FloatingPointMode, b: FloatingPointMode)
    ensures
        a.spec_raw() == b.spec_raw() <==> a == b,
{
}

/// How `#line` directives appear in generated source.
#[derive(Debug, Clone, Copy, PartialEq, Eq, Structural)]
pub enum LineDirectiveMode {
    Default,
    Off,
    Standard,
    Glsl,
}

impl LineDirectiveMode {
    /// The native constant of this value.
    pub open spec fn spec_raw(self) -> i32 {
        match self {
            LineDirectiveMode::Default => SLANG_LINE_DIRECTIVE_MODE_DEFAULT,
            LineDirectiveMode::Off => SLANG_LINE_DIRECTIVE_MODE_NONE,
            LineDirectiveMode::Standard => SLANG_LINE_DIRECTIVE_MODE_STANDARD,
            LineDirectiveMode::Glsl => SLANG_LINE_DIRECTIVE_MODE_GLSL,
        }
    }

    /// The native constant of this value.
    pub fn to_raw(self) -> (r: i32)
        ensures
            r == self.spec_raw(),
    {
        match self {
            LineDirectiveMode::Default => SLANG_LINE_DIRECTIVE_MODE_DEFAULT,
            LineDirectiveMode::Off => SLANG_LINE_DIRECTIVE_MODE_NONE,
            LineDirectiveMode::Standard => SLANG_LINE_DIRECTIVE_MODE_STANDARD,
            LineDirectiveMode::Glsl => SLANG_LINE_DIRECTIVE_MODE_GLSL,
        }
    }
}

/// Distinct values of `LineDirectiveMode` have distinct native constants.
pub proof fn lemma_line_directive_mode_raw_injective(a: LineDirectiveMode, b: LineDirectiveMode)
    ensures
        a.spec_raw() == b.spec_raw() <==> a == b,
{
}

/// Language of a translation unit.
#[derive(Debug, Clone, Copy, PartialEq, Eq, Structural)]
pub enum SourceLanguage {
    Unknown,
    Slang,
    Hlsl,
    Glsl,
}

impl SourceLanguage {
    /// The native constant of this value.
    pub open spec fn spec_raw(self) -> i32 {
        match self {
            SourceLanguage::Unknown => SLANG_SOURCE_LANGUAGE_UNKNOWN,
            SourceLanguage::Slang => SLANG_SOURCE_LANGUAGE_SLANG,
            SourceLanguage::Hlsl => SLANG_SOURCE_LANGUAGE_HLSL,
            SourceLanguage::Glsl => SLANG_SOURCE_LANGUAGE_GLSL,
        }
    }

    /// The native constant of this value.
    pub fn to_raw(self) -> (r: i32)
        ensures
            r == self.spec_raw(),
    {
        match self {
            SourceLanguage::Unknown => SLANG_SOURCE_LANGUAGE_UNKNOWN,
            SourceLanguage::Slang => SLANG_SOURCE_LANGUAGE_SLANG,
            SourceLanguage::Hlsl => SLANG_SOURCE_LANGUAGE_HLSL,
            SourceLanguage::Glsl => SLANG_SOURCE_LANGUAGE_GLSL,
        }
    }
}

/// Distinct values of `SourceLanguage` have distinct native constants.
pub proof fn lemma_source_language_raw_injective(a: SourceLanguage, b: SourceLanguage)
    ensures
        a.spec_raw() == b.spec_raw() <==> a == b,
{
}

/// Default memory layout of matrices.
#[derive(Debug, Clone, Copy, PartialEq, Eq, Structural)]
pub enum MatrixLayoutMode {
    Unknown,
    RowMajor,
    ColumnMajor,
}

impl MatrixLayoutMode {
    /// The native constant of this value.
    pub open spec fn spec_raw(self) -> i32 {
        match self {
            MatrixLayoutMode::Unknown => SLANG_MATRIX_LAYOUT_MODE_UNKNOWN,
            MatrixLayoutMode::RowMajor => SLANG_MATRIX_LAYOUT_ROW_MAJOR,
            MatrixLayoutMode::ColumnMajor => SLANG_MATRIX_LAYOUT_COLUMN_MAJOR,
        }
    }

    /// The native constant of this value.
    pub fn to_raw(self) -> (r: i32)
        ensures
            r == self.spec_raw(),
    {
        match self {
            MatrixLayoutMode::Unknown => SLANG_MATRIX_LAYOUT_MODE_UNKNOWN,
            MatrixLayoutMode::RowMajor => SLANG_MATRIX_LAYOUT_ROW_MAJOR,
            MatrixLayoutMode::ColumnMajor => SLANG_MATRIX_LAYOUT_COLUMN_MAJOR,
        }
    }
}

/// Distinct values of `MatrixLayoutMode` have distinct native constants.
pub proof fn lemma_matrix_layout_mode_raw_injective(a: MatrixLayoutMode, b: MatrixLayoutMode)
    ensures
        a.spec_raw() == b.spec_raw() <==> a == b,
{
}

/// Pipeline stage of an entry point; the pixel stage is `Fragment`.
#[derive(Debug, Clone, Copy, PartialEq, Eq, Structural)]
pub enum Stage {
    NoStage,
    Vertex,
    Hull,
    Domain,
    Geometry,
    Fragment,
    Compute,
    RayGeneration,
    Intersection,
    AnyHit,
    ClosestHit,
    Miss,
    Callable,
}

impl Stage {
    /// The native constant of this value.
    pub open spec fn spec_raw(self) -> i32 {
        match self {
            Stage::NoStage => SLANG_STAGE_NONE,
            Stage::Vertex => SLANG_STAGE_VERTEX,
            Stage::Hull => SLANG_STAGE_HULL,
            Stage::Domain => SLANG_STAGE_DOMAIN,
            Stage::Geometry => SLANG_STAGE_GEOMETRY,
            Stage::Fragment => SLANG_STAGE_FRAGMENT,
            Stage::Compute => SLANG_STAGE_COMPUTE,
            Stage::RayGeneration => SLANG_STAGE_RAY_GENERATION,
            Stage::Intersection => SLANG_STAGE_INTERSECTION,
            Stage::AnyHit => SLANG_STAGE_ANY_HIT,
            Stage::ClosestHit => SLANG_STAGE_CLOSEST_HIT,
            Stage::Miss => SLANG_STAGE_MISS,
            Stage::Callable => SLANG_STAGE_CALLABLE,
        }
    }

    /// The native constant of this value.
    pub fn to_raw(self) -> (r: i32)
        ensures
            r == self.spec_raw(),
    {
        match self {
            Stage::NoStage => SLANG_STAGE_NONE,
            Stage::Vertex => SLANG_STAGE_VERTEX,
            Stage::Hull => SLANG_STAGE_HULL,
            Stage::Domain => SLANG_STAGE_DOMAIN,
            Stage::Geometry => SLANG_STAGE_GEOMETRY,
            Stage::Fragment => SLANG_STAGE_FRAGMENT,
            Stage::Compute => SLANG_STAGE_COMPUTE,
            Stage::RayGeneration => SLANG_STAGE_RAY_GENERATION,
            Stage::Intersection => SLANG_STAGE_INTERSECTION,
            Stage::AnyHit => SLANG_STAGE_ANY_HIT,
            Stage::ClosestHit => SLANG_STAGE_CLOSEST_HIT,
            Stage::Miss => SLANG_STAGE_MISS,
            Stage::Callable => SLANG_STAGE_CALLABLE,
        }
    }
}

/// Distinct values of `Stage` have distinct native constants.
pub proof fn lemma_stage_raw_injective(a: Stage, b: Stage)
    ensures
        a.spec_raw() == b.spec_raw() <==> a == b,
{
}

/// Amount of debug information in generated code.
#[derive(Debug, Clone, Copy, PartialEq, Eq, Structural)]
pub enum DebugInfoLevel {
    Off,
    Minimal,
    Standard,
    Maximal,
}

impl DebugInfoLevel {
    /// The native constant of this value.
    pub open spec fn spec_raw(self) -> i32 {
        match self {
            DebugInfoLevel::Off => SLANG_DEBUG_INFO_LEVEL_NONE,
            DebugInfoLevel::Minimal => SLANG_DEBUG_INFO_LEVEL_MINIMAL,
            DebugInfoLevel::Standard => SLANG_DEBUG_INFO_LEVEL_STANDARD,
            DebugInfoLevel::Maximal => SLANG_DEBUG_INFO_LEVEL_MAXIMAL,
        }
    }

    /// The native constant of this value.
    pub fn to_raw(self) -> (r: i32)
        ensures
            r == self.spec_raw(),
    {
        match self {
            DebugInfoLevel::Off => SLANG_DEBUG_INFO_LEVEL_NONE,
            DebugInfoLevel::Minimal => SLANG_DEBUG_INFO_LEVEL_MINIMAL,
            DebugInfoLevel::Standard => SLANG_DEBUG_INFO_LEVEL_STANDARD,
            DebugInfoLevel::Maximal => SLANG_DEBUG_INFO_LEVEL_MAXIMAL,
        }
    }
}

/// Distinct values of `DebugInfoLevel` have distinct native constants.
pub proof fn lemma_debug_info_level_raw_injective(a: DebugInfoLevel, b: DebugInfoLevel)
    ensures
        a.spec_raw() == b.spec_raw() <==> a == b,
{
}

/// Optimization effort for generated code.
#[derive(Debug, Clone, Copy, PartialEq, Eq, Structural)]
pub enum OptimizationLevel {
    Off,
    Default,
    High,
    Maximal,
}

impl OptimizationLevel {
    /// The native constant of this value.
    pub open spec fn spec_raw(self) -> i32 {
        match self {
            OptimizationLevel::Off => SLANG_OPTIMIZATION_LEVEL_NONE,
            OptimizationLevel::Default => SLANG_OPTIMIZATION_LEVEL_DEFAULT,
            OptimizationLevel::High => SLANG_OPTIMIZATION_LEVEL_HIGH,
            OptimizationLevel::Maximal => SLANG_OPTIMIZATION_LEVEL_MAXIMAL,
        }
    }

    /// The native constant of this value.
    pub fn to_raw(self) -> (r: i32)
        ensures
            r == self.spec_raw(),
    {
        match self {
            OptimizationLevel::Off => SLANG_OPTIMIZATION_LEVEL_NONE,
            OptimizationLevel::Default => SLANG_OPTIMIZATION_LEVEL_DEFAULT,
            OptimizationLevel::High => SLANG_OPTIMIZATION_LEVEL_HIGH,
            OptimizationLevel::Maximal => SLANG_OPTIMIZATION_LEVEL_MAXIMAL,
        }
    }
}

/// Distinct values of `OptimizationLevel` have distinct native constants.
pub proof fn lemma_optimization_level_raw_injective(a: OptimizationLevel, b: OptimizationLevel)
    ensures
        a.spec_raw() == b.spec_raw() <==> a == b,
{
}

} // verus!
