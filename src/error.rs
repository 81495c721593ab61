use vstd::prelude::*;

use crate::codegen::KernelId;

verus! {

/// A memory layout that an allocation was attempted with.
#[derive(Clone, Copy, Debug, PartialEq, Eq, Structural)]
pub struct AllocLayout {
    pub size: usize,
    pub align: usize,
}

/// The failure of a reservation in a growable allocation.
#[derive(Clone, Copy, Debug, PartialEq, Eq, Structural)]
pub enum ReserveError {
    /// The requested capacity does not fit the address space.
    CapacityOverflow,
    /// The allocator refused the layout.
    AllocError { layout: AllocLayout },
}

/// A failure reported by the device runtime.
#[derive(Clone, Copy, Debug, PartialEq, Eq, Structural)]
pub enum HsaError {
    /// An arithmetic overflow inside the device runtime.
    Overflow,
    /// Any other status code that the device runtime returned.
    Status(u32),
}

/// The runtime's error taxonomy. External causes are carried by their
/// message; staged codegen failures keep the failure of the stage.
#[derive(Debug)]
#[non_exhaustive]
pub enum Error {
    Generic(String),
    LoadRustcMetadata(String),
    Hsa(HsaError),
    AmdComgr(String),
    Cmd(String),
    Io(String),
    KernelInfoElf(String),
    KernelInfoMessagePack(String),
    ConvertKernelInstance(KernelId),
    ContextDead,
    Codegen,
    Linking,
    NoCpuAgent,
    NoGpuAgent,
    NoGpuAgentIsa,
    UnknownAmdGpuArch(String),
    UnsupportedBigEndianHost,
    MissingKernelArgumentsRegion,
    MissingHostLocalFineGrainedPool,
    MissingHostLocalCoarseGrainedPool,
    MissingKernelSymbol(String),
    UnexpectedNullKernelObject,
    MissingKernelMetadataNote,
    CodegenInitRoot(Box<Error>),
    CodegenInitConditions(Box<Error>),
    CodegenPreCodegen(Box<Error>),
    CodegenPostCodegen(Box<Error>),
    Underflow,
    Overflow,
    /// The dispatch grid has a zero length along one or more of its axes.
    ZeroGridLaunchAxis,
    KernelArgsPoolOom,
    HsaQueue(String),
    Alloc(AllocLayout),
    KernelWorkgroupDimTooLargeForDevice,
    KernelWorkgroupLenTooLargeForDevice,
    LaunchGridDimTooLargeForDevice,
    LaunchGridLenTooLargeForDevice,
}

/// A staged failure of the code generation backend. The stage variants hold
/// the runtime error that the stage failed with.
#[derive(Debug)]
pub enum CodegenError {
    Io(String),
    LoadMetadata(String),
    ConvertKernelInstance(KernelId),
    Codegen,
    Linking,
    InitRoot(Error),
    InitConditions(Error),
    PreCodegen(Error),
    PostCodegen(Error),
    ContextDead,
}

/// An external cause of unknown type, as recognised when it was caught: a
/// runtime error travelling through a foreign interface, an I/O error, or
/// anything else.
#[derive(Debug)]
pub enum ExternalCause {
    Runtime(Error),
    Io(String),
    Other(String),
}

pub open spec fn error_from_hsa(v: HsaError) -> Error {
    match v {
        HsaError::Overflow => Error::Overflow,
        _ => Error::Hsa(v),
    }
}

pub open spec fn error_from_reserve(v: ReserveError) -> Error {
    match v {
        ReserveError::CapacityOverflow => Error::Overflow,
        ReserveError::AllocError { layout } => Error::Alloc(layout),
    }
}

pub open spec fn error_from_codegen(v: CodegenError) -> Error {
    match v {
        CodegenError::Io(m) => Error::Io(m),
        CodegenError::LoadMetadata(m) => Error::LoadRustcMetadata(m),
        CodegenError::ConvertKernelInstance(k) => Error::ConvertKernelInstance(k),
        CodegenError::Codegen => Error::Codegen,
        CodegenError::Linking => Error::Linking,
        CodegenError::InitRoot(e) => Error::CodegenInitRoot(Box::new(e)),
        CodegenError::InitConditions(e) => Error::CodegenInitConditions(Box::new(e)),
        CodegenError::PreCodegen(e) => Error::CodegenPreCodegen(Box::new(e)),
        CodegenError::PostCodegen(e) => Error::CodegenPostCodegen(Box::new(e)),
        CodegenError::ContextDead => Error::ContextDead,
    }
}

pub open spec fn error_from_cause(v: ExternalCause) -> Error {
    match v {
        ExternalCause::Runtime(e) => e,
        ExternalCause::Io(m) => Error::Io(m),
        ExternalCause::Other(m) => Error::Generic(m),
    }
}

/// The failure of the stage that a staged codegen error wraps, if any.
pub open spec fn stage_source(e: Error) -> Option<Error> {
    match e {
        Error::CodegenInitRoot(inner) => Some(*inner),
        Error::CodegenInitConditions(inner) => Some(*inner),
        Error::CodegenPreCodegen(inner) => Some(*inner),
        Error::CodegenPostCodegen(inner) => Some(*inner),
        _ => None,
    }
}

impl Error {
    /// The failure that a staged codegen error was wrapped around.
    pub fn source(&self) -> (r: Option<&Error>)
        ensures
            r matches Some(inner) ==> stage_source(*self) == Some(*inner),
            r is None <==> stage_source(*self) is None,
    {
        match self {
            Error::CodegenInitRoot(inner) => Some(&**inner),
            Error::CodegenInitConditions(inner) => Some(&**inner),
            Error::CodegenPreCodegen(inner) => Some(&**inner),
            Error::CodegenPostCodegen(inner) => Some(&**inner),
            _ => None,
        }
    }

    /// Whether this is one of the staged codegen failures.
    pub fn is_codegen_stage(&self) -> (r: bool)
        ensures
            r == (stage_source(*self) is Some),
    {
        match self {
            Error::CodegenInitRoot(_)
            | Error::CodegenInitConditions(_)
            | Error::CodegenPreCodegen(_)
            | Error::CodegenPostCodegen(_) => true,
            _ => false,
        }
    }

    /// Converts an external cause of unknown type: a runtime error is kept as it
    /// is, an I/O error becomes `Io`, anything else is `Generic`.
    pub fn from_cause(v: ExternalCause) -> (r: Error)
        ensures
            r == error_from_cause(v),
    {
        match v {
            ExternalCause::Runtime(e) => e,
            ExternalCause::Io(m) => Error::Io(m),
            ExternalCause::Other(m) => Error::Generic(m),
        }
    }
}

impl From<HsaError> for Error {
    /// A device runtime overflow is the runtime's own `Overflow`; any other
    /// device failure is wrapped.
    fn from(v: HsaError) -> (r: Error) {
        match v {
            HsaError::Overflow => Error::Overflow,
            _ => Error::Hsa(v),
        }
    }
}

impl vstd::std_specs::convert::FromSpecImpl<HsaError> for Error {
    open spec fn obeys_from_spec() -> bool {
        true
    }

    open spec fn from_spec(v: HsaError) -> Error {
        error_from_hsa(v)
    }
}

impl From<ReserveError> for Error {
    /// A capacity overflow is `Overflow`; a refused allocation keeps its layout.
    fn from(v: ReserveError) -> (r: Error) {
        match v {
            ReserveError::CapacityOverflow => Error::Overflow,
            ReserveError::AllocError { layout } => Error::Alloc(layout),
        }
    }
}

impl vstd::std_specs::convert::FromSpecImpl<ReserveError> for Error {
    open spec fn obeys_from_spec() -> bool {
        true
    }

    open spec fn from_spec(v: ReserveError) -> Error {
        error_from_reserve(v)
    }
}

impl From<CodegenError> for Error {
    /// Each backend failure maps to the runtime variant of the same meaning; a
    /// failed stage is wrapped in the variant that names the stage.
    fn from(v: CodegenError) -> (r: Error) {
        match v {
            CodegenError::Io(m) => Error::Io(m),
            CodegenError::LoadMetadata(m) => Error::LoadRustcMetadata(m),
            CodegenError::ConvertKernelInstance(k) => Error::ConvertKernelInstance(k),
            CodegenError::Codegen => Error::Codegen,
            CodegenError::Linking => Error::Linking,
            CodegenError::InitRoot(e) => Error::CodegenInitRoot(Box::new(e)),
            CodegenError::InitConditions(e) => Error::CodegenInitConditions(Box::new(e)),
            CodegenError::PreCodegen(e) => Error::CodegenPreCodegen(Box::new(e)),
            CodegenError::PostCodegen(e) => Error::CodegenPostCodegen(Box::new(e)),
            CodegenError::ContextDead => Error::ContextDead,
        }
    }
}

impl vstd::std_specs::convert::FromSpecImpl<CodegenError> for Error {
    open spec fn obeys_from_spec() -> bool {
        true
    }

    open spec fn from_spec(v: CodegenError) -> Error {
        error_from_codegen(v)
    }
}

} // verus!
