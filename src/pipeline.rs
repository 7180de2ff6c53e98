//! The decisions of compiling one source into a vertex and a pixel stage:
//! which backend and profile to ask for, whether a compile succeeded, and
//! the packaged result.
use vstd::prelude::*;
use vstd::string::StringExecFns;

use crate::enums::CompileTarget;
use crate::enums::SourceLanguage;
use crate::profile::ProfileId;
use crate::result;
use crate::result::result_of;

verus! {

/// The rendering API family, and its shader dialect, that a pipeline is for.
#[derive(Copy, Clone, Eq, Debug, PartialEq, Hash, Structural)]
pub enum Backend {
    /// OpenGL 3.2+
    Glsl150,
    /// OpenGL ES 3.0+
    Glsl300es,
    /// DirectX 10+
    HlslSm40,
}

/// The profile name, code-generation target and backend used on one kind of
/// host.
#[derive(Copy, Clone, Debug)]
pub struct BackendSelector {
    pub profile: &'static str,
    pub target: CompileTarget,
    pub backend: Backend,
}

/// Language of the single translation unit that a pipeline is compiled from.
pub const PIPELINE_LANGUAGE: SourceLanguage = SourceLanguage::Slang;

/// Name of the single translation unit that a pipeline is compiled from.
pub const PIPELINE_UNIT_NAME: &'static str = "shader";

impl BackendSelector {
    /// The selection for a host: shader model 4.0 HLSL on Windows, GLSL 1.50
    /// elsewhere.
    pub fn for_platform(windows: bool) -> (r: BackendSelector)
        ensures
            windows ==> r.profile@ == "sm_4_0"@ && r.target == CompileTarget::Hlsl && r.backend
                == Backend::HlslSm40,
            !windows ==> r.profile@ == "glsl_150"@ && r.target == CompileTarget::Glsl && r.backend
                == Backend::Glsl150,
    {
        if windows {
            BackendSelector { profile: "sm_4_0", target: CompileTarget::Hlsl, backend: Backend::HlslSm40 }
        } else {
            BackendSelector {
                profile: "glsl_150",
                target: CompileTarget::Glsl,
                backend: Backend::Glsl150,
            }
        }
    }
}

/// Why compiling a pipeline failed.
#[derive(Debug, Clone)]
pub enum Error {
    /// The native layer reported a failing result code.
    SlangError(result::Error),
    /// The compiler wrote diagnostics; they are carried verbatim.
    CompilerOutput(String),
    /// The profile of the selected backend is not known to the compiler.
    ProfileNotFound(String),
}

impl From<result::Error> for Error {
    fn from(t: result::Error) -> (r: Self)
        ensures
            r == Error::SlangError(t),
    {
        Error::SlangError(t)
    }
}

impl vstd::std_specs::convert::FromSpecImpl<result::Error> for Error {
    open spec fn obeys_from_spec() -> bool {
        true
    }

    open spec fn from_spec(v: result::Error) -> Self {
        Error::SlangError(v)
    }
}

/// The profile that a lookup of `name` found, or the failure to find one.
pub fn require_profile(name: &str, found: Option<ProfileId>) -> (r: Result<ProfileId, Error>)
    ensures
        found matches Some(p) ==> r == Ok::<ProfileId, Error>(p),
        found is None ==> (r matches Err(Error::ProfileNotFound(n)) && n@ == name@),
{
    match found {
        Some(p) => Ok(p),
        None => Err(Error::ProfileNotFound(String::from_str(name))),
    }
}

/// What a compile with result code `status` and no diagnostic text amounts
/// to: success for the zero code, the named native error for any other.
pub open spec fn status_verdict(status: i32) -> Result<(), Error> {
    match result_of(status) {
        Ok(()) => Ok(()),
        Err(e) => Err(Error::SlangError(e)),
    }
}

/// Decides whether a compile succeeded: any diagnostic text is a failure that
/// carries it verbatim, whatever the result code; without diagnostics the
/// code decides.
pub fn check_compile(status: i32, diagnostics: String) -> (r: Result<(), Error>)
    ensures
        diagnostics@.len() > 0 ==> (r matches Err(Error::CompilerOutput(d)) && d@ == diagnostics@),
        diagnostics@.len() == 0 ==> r == status_verdict(status),
{
    if !diagnostics.as_str().is_empty() {
        Err(Error::CompilerOutput(diagnostics))
    } else {
        match result::into_result(status) {
            Ok(()) => Ok(()),
            Err(e) => Err(Error::from(e)),
        }
    }
}

/// Compiled vertex and pixel stages for one backend, owned and detached from
/// the compiler.
#[derive(Clone, Eq, Debug, PartialEq)]
pub struct ShaderPipeline {
    backend: Backend,
    vertex: Vec<u8>,
    pixel: Vec<u8>,
}

impl ShaderPipeline {
    pub closed spec fn spec_backend(&self) -> Backend {
        self.backend
    }

    pub closed spec fn spec_vertex(&self) -> Seq<u8> {
        self.vertex@
    }

    pub closed spec fn spec_pixel(&self) -> Seq<u8> {
        self.pixel@
    }

    /// Packages the code of the two stages.
    pub fn new(backend: Backend, vertex: Vec<u8>, pixel: Vec<u8>) -> (r: ShaderPipeline)
        ensures
            r.spec_backend() == backend,
            r.spec_vertex() == vertex@,
            r.spec_pixel() == pixel@,
    {
        ShaderPipeline { backend, vertex, pixel }
    }

    pub fn backend(&self) -> (r: Backend)
        ensures
            r == self.spec_backend(),
    {
        self.backend
    }

    pub fn vertex(&self) -> (r: &[u8])
        ensures
            r@ == self.spec_vertex(),
    {
        self.vertex.as_slice()
    }

    pub fn pixel(&self) -> (r: &[u8])
        ensures
            r@ == self.spec_pixel(),
    {
        self.pixel.as_slice()
    }

    /// Whether the pipeline was compiled for `backend`.
    pub fn is_for(&self, backend: Backend) -> (r: bool)
        ensures
            r == (self.spec_backend() == backend),
    {
        self.backend == backend
    }
}

} // verus!
