//! Safe bindings to a shading-language compiler: native result codes and
//! constants mirrored as typed values, and the decisions that turn one source
//! into a packaged pair of vertex and pixel stages.
pub mod enums;
pub mod flags;
pub mod pipeline;
pub mod profile;
pub mod result;

pub use enums::BindableResourceType;
pub use enums::CompileTarget;
pub use enums::ContainerFormat;
pub use enums::DebugInfoLevel;
pub use enums::FloatingPointMode;
pub use enums::LineDirectiveMode;
pub use enums::MatrixLayoutMode;
pub use enums::OptimizationLevel;
pub use enums::PassThrough;
pub use enums::Severity;
pub use enums::SourceLanguage;
pub use enums::Stage;
pub use flags::CompileFlags;
pub use flags::TargetFlags;
pub use pipeline::Backend;
pub use pipeline::ShaderPipeline;
pub use profile::ProfileId;
pub use result::into_result;
pub use result::Error;
