//! Core of a heterogeneous-compute runtime: space-aware references, accelerator
//! target identity and its stable fingerprint, the codegen handle slot of an
//! accelerator, the kernel compilation cache, dispatch geometry checks, the
//! compiler's table of intrinsic generators, the expansion of the loader's
//! tokens in library search paths, and the error taxonomy that every layer
//! returns.

pub mod error;
pub mod search_path;
pub mod target;
pub mod codegen;
mod index;
pub mod accelerator;
pub mod dispatch;
pub mod reference;
pub mod intrinsics;
