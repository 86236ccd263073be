//! The vocabulary of the boundary to the codec: the calls that this crate
//! asks for, the replies it takes, and the codec's numeric constants.

use vstd::prelude::*;
use crate::buf::Span;

verus! {

/// Initialises a context for compression.
pub const TJINIT_COMPRESS: libc::c_int = 0;

/// Initialises a context for decompression.
pub const TJINIT_DECOMPRESS: libc::c_int = 1;

/// Initialises a context for lossless transforms.
pub const TJINIT_TRANSFORM: libc::c_int = 2;

/// The parameter that forbids the codec to reallocate the output buffer.
pub const TJPARAM_NOREALLOC: libc::c_int = 2;

/// Option bit: fail if the transform is not perfect.
pub const TJXOPT_PERFECT: u32 = 1;

/// Option bit: discard partial blocks that cannot be transformed.
pub const TJXOPT_TRIM: u32 = 2;

/// Option bit: the descriptor's region is a crop region.
pub const TJXOPT_CROP: u32 = 4;

/// Option bit: drop the colour data.
pub const TJXOPT_GRAY: u32 = 8;

/// Option bit: progressive entropy coding.
pub const TJXOPT_PROGRESSIVE: u32 = 32;

/// Option bit: copy no extra markers.
pub const TJXOPT_COPYNONE: u32 = 64;

/// Option bit: optimised baseline entropy coding.
pub const TJXOPT_OPTIMIZE: u32 = 256;

/// A rectangle in the codec's integers. A width or height of zero reaches
/// to the image's edge.
#[derive(Debug, Clone, Copy, PartialEq, Eq)]
pub struct Region {
    pub x: libc::c_int,
    pub y: libc::c_int,
    pub w: libc::c_int,
    pub h: libc::c_int,
}

/// What the codec is told about one transform: region, operation code and
/// option bits.
#[derive(Debug, Clone, Copy, PartialEq, Eq)]
pub struct Descriptor {
    pub r: Region,
    pub op: libc::c_int,
    pub options: libc::c_int,
}

/// One call into the codec, with every argument it takes but the input
/// bytes, which the caller of the step holds.
#[derive(Debug, Clone, Copy, PartialEq, Eq)]
pub enum Call {
    /// Create a context in the given mode. Answered by [`Reply::Context`].
    Init { mode: libc::c_int },
    /// Read the context's current error message. Answered by
    /// [`Reply::Text`].
    ErrorStr { ctx: usize },
    /// Read a parameter. Answered by [`Reply::Value`].
    GetParam { ctx: usize, param: libc::c_int },
    /// Write a parameter. Answered by [`Reply::Status`].
    SetParam { ctx: usize, param: libc::c_int, value: libc::c_int },
    /// Transform `count` regions of an input of `input_len` bytes into the
    /// output buffer at `out_addr`, `out_len` bytes long. Answered by
    /// [`Reply::Transformed`].
    Transform {
        ctx: usize,
        input_len: usize,
        count: libc::c_int,
        out_addr: usize,
        out_len: usize,
        descriptor: Descriptor,
    },
    /// Copy the bytes of a region out. Answered by [`Reply::Bytes`].
    Read { span: Span },
}

/// What came back from the latest [`Call`].
#[derive(Debug, PartialEq, Eq)]
pub enum Reply {
    /// The new context, or zero if none was created.
    Context(usize),
    /// The context's error message.
    Text(String),
    /// A parameter's value.
    Value(libc::c_int),
    /// Zero for success, anything else for failure.
    Status(libc::c_int),
    /// The status of a transform, and the output buffer's address and
    /// length as the codec left them.
    Transformed { status: libc::c_int, addr: usize, len: usize },
    /// The bytes of the region that was read.
    Bytes(Vec<u8>),
}

impl Call {
    /// Whether a reply is of the kind that answers this call.
    pub open spec fn answered_by(self, reply: Reply) -> bool {
        match self {
            Call::Init { .. } => reply is Context,
            Call::ErrorStr { .. } => reply is Text,
            Call::GetParam { .. } => reply is Value,
            Call::SetParam { .. } => reply is Status,
            Call::Transform { .. } => reply is Transformed,
            Call::Read { .. } => reply is Bytes,
        }
    }
}

/// The outcome of one step of an operation: the next call to make, or the
/// operation's result.
#[derive(Debug, PartialEq, Eq)]
pub enum Step<T> {
    Call(Call),
    Done(T),
}

} // verus!
