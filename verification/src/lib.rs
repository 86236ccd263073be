//! The decision core of a binding to the TurboJPEG codec.
//!
//! Nothing in this crate touches native memory or calls the codec. Every
//! operation that needs the codec is written as a step: it is handed the
//! codec's latest [`Reply`] and answers with the next [`Call`] to make, or
//! with its result. Whoever embeds the crate makes the calls and owns the
//! destructors; this crate decides which calls are made, with which
//! arguments, and what each reply means for the buffers involved.
//!
//! Addresses of native memory and the codec's context are carried as plain
//! machine words; zero stands for the null address.

pub mod buf;
pub mod error;
pub mod handle;
pub mod native;
pub mod transform;

pub use crate::buf::{span_of, IntoOwned, OutputBuf, OutputBufView, OwnedBuf, Span};
pub use crate::error::Error;
pub use crate::handle::{Handle, Init};
pub use crate::native::{Call, Descriptor, Region, Reply, Step};
pub use crate::transform::{transform, Transform, TransformCrop, TransformOp, Transformer};
