//! Lossless transforms: what the caller asks for, what the codec is told,
//! and the steps of one transform.

use vstd::prelude::*;
use crate::buf::{IntoOwned, OutputBuf, OutputBufView, OwnedBuf, Span};
use crate::error::Error;
use crate::handle::{new_step, set_step, Handle, Init};
use crate::native::{
    Call, Descriptor, Region, Reply, Step, TJPARAM_NOREALLOC, TJXOPT_COPYNONE, TJXOPT_CROP,
    TJXOPT_GRAY, TJXOPT_OPTIMIZE, TJXOPT_PERFECT, TJXOPT_PROGRESSIVE, TJXOPT_TRIM,
};

verus! {

/// Transform operation.
#[derive(Debug, Copy, Clone, PartialEq, Eq, PartialOrd, Ord, Hash)]
#[non_exhaustive]
pub enum TransformOp {
    /// No transformation.
    Noop,
    /// Flip (mirror) image horizontally.
    Hflip,
    /// Flip (mirror) image vertically.
    Vflip,
    /// Transpose image (flip along upper left to lower right axis).
    Transpose,
    /// Transverse transpose image (flip along upper right to lower left
    /// axis).
    Transverse,
    /// Rotate image clockwise by 90 degrees.
    Rot90,
    /// Rotate image 180 degrees.
    Rot180,
    /// Rotate image counter-clockwise by 90 degrees.
    Rot270,
}

impl TransformOp {
    /// The codec's number for this operation.
    pub open spec fn spec_code(self) -> libc::c_int {
        match self {
            TransformOp::Noop => 0,
            TransformOp::Hflip => 1,
            TransformOp::Vflip => 2,
            TransformOp::Transpose => 3,
            TransformOp::Transverse => 4,
            TransformOp::Rot90 => 5,
            TransformOp::Rot180 => 6,
            TransformOp::Rot270 => 7,
        }
    }

    /// The codec's number for this operation.
    pub fn code(self) -> (c: libc::c_int)
        ensures
            c == self.spec_code(),
    {
        match self {
            TransformOp::Noop => 0,
            TransformOp::Hflip => 1,
            TransformOp::Vflip => 2,
            TransformOp::Transpose => 3,
            TransformOp::Transverse => 4,
            TransformOp::Rot90 => 5,
            TransformOp::Rot180 => 6,
            TransformOp::Rot270 => 7,
        }
    }
}

impl Default for TransformOp {
    fn default() -> (r: TransformOp)
        ensures
            r == TransformOp::Noop,
    {
        TransformOp::Noop
    }
}

/// Transform cropping region.
///
/// `x` and `y` must be aligned on block boundaries of the image. A width or
/// height of `None` reaches to the image's edge. The default crops nothing.
#[derive(Debug, Copy, Clone, PartialEq, Eq, PartialOrd, Ord, Hash)]
pub struct TransformCrop {
    /// Left boundary of the region.
    pub x: usize,
    /// Upper boundary of the region.
    pub y: usize,
    /// Width of the region.
    pub width: Option<usize>,
    /// Height of the region.
    pub height: Option<usize>,
}

impl Default for TransformCrop {
    fn default() -> (r: TransformCrop)
        ensures
            r == (TransformCrop { x: 0, y: 0, width: None, height: None }),
    {
        TransformCrop { x: 0, y: 0, width: None, height: None }
    }
}

/// Lossless transform of a JPEG image.
#[derive(Debug)]
#[non_exhaustive]
pub struct Transform {
    /// Transform operation that is applied.
    pub op: TransformOp,
    /// Crop the input image before applying the transform.
    pub crop: Option<TransformCrop>,
    /// Return an error if the transform is not perfect.
    pub perfect: bool,
    /// Discard any partial blocks that cannot be transformed.
    pub trim: bool,
    /// Discard the colour data and produce a grayscale image.
    pub gray: bool,
    /// Enable progressive entropy coding in the output image.
    pub progressive: bool,
    /// Enable optimised baseline entropy coding in the output image.
    pub optimize: bool,
    /// Do not copy any extra markers from the input image.
    pub copy_none: bool,
}

impl Clone for Transform {
    fn clone(&self) -> (r: Transform)
        ensures
            r == *self,
    {
        Transform {
            op: self.op,
            crop: self.crop,
            perfect: self.perfect,
            trim: self.trim,
            gray: self.gray,
            progressive: self.progressive,
            optimize: self.optimize,
            copy_none: self.copy_none,
        }
    }
}

impl Default for Transform {
    fn default() -> (r: Transform)
        ensures
            r == Transform::spec_op(TransformOp::Noop),
    {
        Transform::op(TransformOp::Noop)
    }
}

/// The bit of an option, if the option is on.
pub open spec fn flag(on: bool, bit: u32) -> u32 {
    if on {
        bit
    } else {
        0
    }
}

/// Whether a value fits the codec's integer type.
pub open spec fn fits(v: usize) -> bool {
    v <= libc::c_int::MAX
}

/// Whether an optional value, where there is one, fits the codec's integer
/// type.
pub open spec fn fits_opt(v: Option<usize>) -> bool {
    match v {
        Some(n) => fits(n),
        None => true,
    }
}

/// An optional extent in the codec's integers: zero where there is none.
pub open spec fn extent(v: Option<usize>) -> libc::c_int {
    match v {
        Some(n) => n as libc::c_int,
        None => 0,
    }
}

/// The region that the codec is told: all zero without a crop, and with one
/// its four values, unless one of them does not fit the codec's integer
/// type. Then the error names the first that does not, in the order `x`,
/// `y`, `width`, `height`.
pub open spec fn spec_region(crop: Option<TransformCrop>) -> Result<Region, Error> {
    match crop {
        None => Ok(Region { x: 0, y: 0, w: 0, h: 0 }),
        Some(c) => if !fits(c.x) {
            Err(Error::IntegerOverflow("crop.x"))
        } else if !fits(c.y) {
            Err(Error::IntegerOverflow("crop.y"))
        } else if !fits_opt(c.width) {
            Err(Error::IntegerOverflow("crop.width"))
        } else if !fits_opt(c.height) {
            Err(Error::IntegerOverflow("crop.height"))
        } else {
            Ok(
                Region {
                    x: c.x as libc::c_int,
                    y: c.y as libc::c_int,
                    w: extent(c.width),
                    h: extent(c.height),
                },
            )
        },
    }
}

impl Transform {
    /// The transform with the given operation, no crop and every option
    /// off.
    pub open spec fn spec_op(op: TransformOp) -> Transform {
        Transform {
            op,
            crop: None,
            perfect: false,
            trim: false,
            gray: false,
            progressive: false,
            optimize: false,
            copy_none: false,
        }
    }

    /// Creates a [`Transform`] with the given `op` and all other parameters
    /// set to default.
    pub fn op(op: TransformOp) -> (r: Transform)
        ensures
            r == Transform::spec_op(op),
    {
        Transform {
            op,
            crop: None,
            perfect: false,
            trim: false,
            gray: false,
            progressive: false,
            optimize: false,
            copy_none: false,
        }
    }

    /// The option bits that the codec is told: one bit for each option that
    /// is on, and the crop bit where there is a crop.
    pub open spec fn spec_options(&self) -> u32 {
        flag(self.perfect, TJXOPT_PERFECT) | flag(self.trim, TJXOPT_TRIM) | flag(
            self.gray,
            TJXOPT_GRAY,
        ) | flag(self.progressive, TJXOPT_PROGRESSIVE) | flag(self.optimize, TJXOPT_OPTIMIZE)
            | flag(self.copy_none, TJXOPT_COPYNONE) | flag(self.crop is Some, TJXOPT_CROP)
    }

    /// What the codec is told about this transform, or the error for the
    /// crop value that the codec's integers cannot hold.
    pub open spec fn spec_descriptor(&self) -> Result<Descriptor, Error> {
        match spec_region(self.crop) {
            Ok(r) => Ok(
                Descriptor {
                    r,
                    op: self.op.spec_code(),
                    options: self.spec_options() as libc::c_int,
                },
            ),
            Err(e) => Err(e),
        }
    }

    /// The option bits that the codec is told.
    pub fn options(&self) -> (bits: u32)
        ensures
            bits == self.spec_options(),
            bits <= 511,
    {
        let bits = bit(self.perfect, TJXOPT_PERFECT) | bit(self.trim, TJXOPT_TRIM) | bit(
            self.gray,
            TJXOPT_GRAY,
        ) | bit(self.progressive, TJXOPT_PROGRESSIVE) | bit(self.optimize, TJXOPT_OPTIMIZE) | bit(
            self.copy_none,
            TJXOPT_COPYNONE,
        ) | bit(self.crop.is_some(), TJXOPT_CROP);
        proof {
            lemma_options_fit(*self);
        }
        bits
    }

    /// What the codec is told about this transform.
    pub fn descriptor(&self) -> (r: Result<Descriptor, Error>)
        ensures
            r == self.spec_descriptor(),
    {
        let bits = self.options();
        let mut region = Region { x: 0, y: 0, w: 0, h: 0 };
        if let Some(crop) = self.crop {
            region.x = narrow(crop.x, "crop.x")?;
            region.y = narrow(crop.y, "crop.y")?;
            if let Some(crop_w) = crop.width {
                region.w = narrow(crop_w, "crop.width")?;
            }
            if let Some(crop_h) = crop.height {
                region.h = narrow(crop_h, "crop.height")?;
            }
        }
        Ok(Descriptor { r: region, op: self.op.code(), options: bits as libc::c_int })
    }
}

/// The bit of an option, if the option is on.
fn bit(on: bool, mask: u32) -> (r: u32)
    ensures
        r == flag(on, mask),
{
    if on {
        mask
    } else {
        0
    }
}

/// Converts a value to the codec's integer type, or fails with the name of
/// the field that it came from.
fn narrow(v: usize, field: &'static str) -> (r: Result<libc::c_int, Error>)
    ensures
        fits(v) ==> r == Ok::<libc::c_int, Error>(v as libc::c_int),
        !fits(v) ==> r == Err::<libc::c_int, Error>(Error::IntegerOverflow(field)),
{
    match libc::c_int::try_from(v) {
        Ok(n) => Ok(n),
        Err(_) => Err(Error::IntegerOverflow(field)),
    }
}

/// The option bits never reach the sign of the codec's integer.
pub proof fn lemma_options_fit(t: Transform)
    ensures
        t.spec_options() <= 511,
{
    let a = flag(t.perfect, TJXOPT_PERFECT);
    let b = flag(t.trim, TJXOPT_TRIM);
    let c = flag(t.gray, TJXOPT_GRAY);
    let d = flag(t.progressive, TJXOPT_PROGRESSIVE);
    let e = flag(t.optimize, TJXOPT_OPTIMIZE);
    let f = flag(t.copy_none, TJXOPT_COPYNONE);
    let g = flag(t.crop is Some, TJXOPT_CROP);
    assert((a | b | c | d | e | f | g) <= 511) by (bit_vector)
        requires
            a <= 1,
            b <= 2,
            c <= 8,
            d <= 32,
            e <= 256,
            f <= 64,
            g <= 4,
    ;
}

/// The option bits say exactly which options are on: each option's bit is
/// set if and only if the option is on, the crop bit if and only if there is
/// a crop, and no other bit is set.
pub proof fn lemma_options_decode(t: Transform)
    ensures
        (t.spec_options() & TJXOPT_PERFECT != 0) <==> t.perfect,
        (t.spec_options() & TJXOPT_TRIM != 0) <==> t.trim,
        (t.spec_options() & TJXOPT_GRAY != 0) <==> t.gray,
        (t.spec_options() & TJXOPT_PROGRESSIVE != 0) <==> t.progressive,
        (t.spec_options() & TJXOPT_OPTIMIZE != 0) <==> t.optimize,
        (t.spec_options() & TJXOPT_COPYNONE != 0) <==> t.copy_none,
        (t.spec_options() & TJXOPT_CROP != 0) <==> t.crop is Some,
        t.spec_options() & !(1u32 | 2 | 4 | 8 | 32 | 64 | 256) == 0,
{
    let a = flag(t.perfect, TJXOPT_PERFECT);
    let b = flag(t.trim, TJXOPT_TRIM);
    let c = flag(t.gray, TJXOPT_GRAY);
    let d = flag(t.progressive, TJXOPT_PROGRESSIVE);
    let e = flag(t.optimize, TJXOPT_OPTIMIZE);
    let f = flag(t.copy_none, TJXOPT_COPYNONE);
    let g = flag(t.crop is Some, TJXOPT_CROP);
    let o = a | b | c | d | e | f | g;
    assert(((o & 1 != 0) <==> a != 0) && ((o & 2 != 0) <==> b != 0) && ((o & 8 != 0) <==> c != 0)
        && ((o & 32 != 0) <==> d != 0) && ((o & 256 != 0) <==> e != 0) && ((o & 64 != 0) <==> f
        != 0) && ((o & 4 != 0) <==> g != 0) && (o & !(1u32 | 2 | 4 | 8 | 32 | 64 | 256) == 0))
        by (bit_vector)
        requires
            o == a | b | c | d | e | f | g,
            a == 0 || a == 1,
            b == 0 || b == 2,
            c == 0 || c == 8,
            d == 0 || d == 32,
            e == 0 || e == 256,
            f == 0 || f == 64,
            g == 0 || g == 4,
    ;
}

/// Transforms JPEG images without recompression. Its view is the token of
/// the codec context that it holds.
#[derive(Debug)]
pub struct Transformer {
    handle: Handle,
}

impl View for Transformer {
    type V = usize;

    closed spec fn view(&self) -> usize {
        self.handle@
    }
}

/// The value of the no-reallocation parameter for an output buffer: on for a
/// borrowed buffer, which the codec must not outgrow, and off for an owned
/// one, which it may reallocate.
pub open spec fn no_realloc(owned: bool) -> libc::c_int {
    if owned {
        0
    } else {
        1
    }
}

/// What a step of [`Transformer::transform`] does to the output buffer and
/// answers, on the context `ctx`, for an input of `input_len` bytes.
///
/// The outcome of the transform is stored in the buffer whatever it is; a
/// failure then asks for the context's message, success with a null address
/// empties the buffer and is the error [`Error::Null`], and anything else is
/// success. Before that outcome there is, in this order, the descriptor,
/// whose error ends the transform before any call, the write of the
/// no-reallocation parameter, and after its success the transform itself, of
/// one region, into the buffer as it is.
pub open spec fn transform_step(
    ctx: usize,
    t: Transform,
    input_len: usize,
    out: OutputBufView,
    reply: Option<Reply>,
) -> (OutputBufView, Step<Result<(), Error>>) {
    match reply {
        Some(Reply::Transformed { status, addr, len }) => if status != 0 {
            (out.stored(addr, len), Step::Call(Call::ErrorStr { ctx }))
        } else if addr == 0 {
            (out.stored(0, 0), Step::Done(Err(Error::Null)))
        } else {
            (out.stored(addr, len), Step::Done(Ok(())))
        },
        _ => match t.spec_descriptor() {
            Err(e) => (out, Step::Done(Err(e))),
            Ok(descriptor) => match set_step(
                ctx,
                TJPARAM_NOREALLOC,
                no_realloc(out.owned),
                reply,
            ) {
                Step::Call(call) => (out, Step::Call(call)),
                Step::Done(Err(e)) => (out, Step::Done(Err(e))),
                Step::Done(Ok(_)) => (
                    out,
                    Step::Call(
                        Call::Transform {
                            ctx,
                            input_len,
                            count: 1,
                            out_addr: out.addr,
                            out_len: out.len,
                            descriptor,
                        },
                    ),
                ),
            },
        },
    }
}

/// What a step of [`Transformer::transform_to_slice`] answers: the steps of
/// a transform into a borrowed buffer over the region, and at its success
/// the length that the codec reported.
pub open spec fn to_slice_step(
    ctx: usize,
    t: Transform,
    input_len: usize,
    addr: usize,
    len: usize,
    reply: Option<Reply>,
) -> Step<Result<usize, Error>> {
    let (out, inner) = transform_step(
        ctx,
        t,
        input_len,
        OutputBufView { addr, len, owned: false },
        reply,
    );
    match inner {
        Step::Call(call) => Step::Call(call),
        Step::Done(Err(e)) => Step::Done(Err(e)),
        Step::Done(Ok(_)) => Step::Done(Ok(out.len)),
    }
}

/// Whether `step`, with the buffer left as `after`, is what a step of
/// [`Transformer::transform_to_owned`] answers for the buffer `before`: the
/// steps of a transform into an owned buffer over that memory, whose success
/// moves the memory out into the result and leaves the buffer empty.
pub open spec fn to_owned_step(
    ctx: usize,
    t: Transform,
    input_len: usize,
    before: Span,
    reply: Option<Reply>,
    after: Span,
    step: Step<Result<OwnedBuf, Error>>,
) -> bool {
    let (out, inner) = transform_step(ctx, t, input_len, before.owned(), reply);
    match inner {
        Step::Call(call) => step == Step::<Result<OwnedBuf, Error>>::Call(call) && after
            == out.span(),
        Step::Done(Err(e)) => step == Step::<Result<OwnedBuf, Error>>::Done(Err(e)) && after
            == out.span(),
        Step::Done(Ok(_)) => (step matches Step::Done(Ok(o)) && o@ == out.span()) && after
            == Span::empty(),
    }
}

/// Moves the memory of an owned output buffer out.
fn into_owned_buf(out: &mut OutputBuf) -> (r: OwnedBuf)
    requires
        old(out)@.owned,
    ensures
        r@ == old(out)@.span(),
        final(out)@ == old(out)@.emptied(),
{
    match out.into_owned() {
        IntoOwned::Moved(buf) => buf,
        IntoOwned::Copy { .. } => {
            proof {
                assert(false);
            }
            OwnedBuf::new()
        },
    }
}

impl Transformer {
    /// One step of creating a transformer: the steps of [`Handle::new`] in
    /// transform mode.
    pub fn new(reply: Option<Reply>) -> (step: Step<Result<Transformer, Error>>)
        ensures
            match new_step(Init::Transform.spec_code(), reply) {
                Step::Call(call) => step == Step::<Result<Transformer, Error>>::Call(call),
                Step::Done(Err(e)) => step == Step::<Result<Transformer, Error>>::Done(Err(e)),
                Step::Done(Ok(ctx)) => step matches Step::Done(Ok(t)) && t@ == ctx,
            },
    {
        match Handle::new(Init::Transform, reply) {
            Step::Call(call) => Step::Call(call),
            Step::Done(Ok(handle)) => Step::Done(Ok(Transformer { handle })),
            Step::Done(Err(e)) => Step::Done(Err(e)),
        }
    }

    /// One step of applying a transformation to the compressed JPEG
    /// `jpeg_data`, with full control of the output buffer.
    ///
    /// The caller makes the call that a step answers with and hands its
    /// reply to the next step, with the same transform, input and buffer,
    /// until a step is done.
    pub fn transform(
        &mut self,
        transform: &Transform,
        jpeg_data: &[u8],
        output: &mut OutputBuf,
        reply: Option<Reply>,
    ) -> (step: Step<Result<(), Error>>)
        ensures
            final(self)@ == old(self)@,
            (final(output)@, step) == transform_step(
                old(self)@,
                *transform,
                jpeg_data@.len() as usize,
                old(output)@,
                reply,
            ),
    {
        match reply {
            Some(Reply::Transformed { status, addr, len }) => {
                output.store(addr, len);
                if status != 0 {
                    match self.handle.get_error(None) {
                        Step::Call(call) => Step::Call(call),
                        Step::Done(e) => Step::Done(Err(e)),
                    }
                } else if addr == 0 {
                    output.store(0, 0);
                    Step::Done(Err(Error::Null))
                } else {
                    Step::Done(Ok(()))
                }
            },
            reply => {
                let descriptor = match transform.descriptor() {
                    Ok(descriptor) => descriptor,
                    Err(e) => {
                        return Step::Done(Err(e));
                    },
                };
                let value: libc::c_int = if output.is_owned() {
                    0
                } else {
                    1
                };
                match self.handle.set(TJPARAM_NOREALLOC, value, reply) {
                    Step::Call(call) => Step::Call(call),
                    Step::Done(Err(e)) => Step::Done(Err(e)),
                    Step::Done(Ok(())) => Step::Call(
                        Call::Transform {
                            ctx: self.handle.as_ptr(),
                            input_len: jpeg_data.len(),
                            count: 1,
                            out_addr: output.addr(),
                            out_len: output.len(),
                            descriptor,
                        },
                    ),
                }
            },
        }
    }

    /// One step of transforming the image into the owned buffer `buf`, which
    /// the caller keeps between the steps and which starts out as it was
    /// created, commonly empty.
    ///
    /// The steps are those of [`Transformer::transform`] on the memory of
    /// `buf` as an owned output buffer. Success moves that memory out into
    /// the result, without a copy, and leaves `buf` empty. Until then, and on
    /// failure, the memory stays in `buf`, for the caller to give back.
    pub fn transform_to_owned(
        &mut self,
        transform: &Transform,
        jpeg_data: &[u8],
        buf: &mut OwnedBuf,
        reply: Option<Reply>,
    ) -> (step: Step<Result<OwnedBuf, Error>>)
        ensures
            final(self)@ == old(self)@,
            to_owned_step(
                old(self)@,
                *transform,
                jpeg_data@.len() as usize,
                old(buf)@,
                reply,
                final(buf)@,
                step,
            ),
    {
        let mut out = OutputBuf::owned(buf);
        match self.transform(transform, jpeg_data, &mut out, reply) {
            Step::Call(call) => {
                *buf = into_owned_buf(&mut out);
                Step::Call(call)
            },
            Step::Done(Err(e)) => {
                *buf = into_owned_buf(&mut out);
                Step::Done(Err(e))
            },
            Step::Done(Ok(())) => Step::Done(Ok(into_owned_buf(&mut out))),
        }
    }

    /// One step of transforming the image into a new `Vec<u8>`, by way of
    /// the owned buffer `buf`, which the caller keeps between the steps and
    /// gives back at the end.
    ///
    /// The steps are those of [`Transformer::transform`] on the memory of
    /// `buf` as an owned output buffer. After its success the bytes of the
    /// buffer are asked for, unless it has none: then the result is the
    /// empty vector and nothing is read. The bytes that come back are the
    /// result.
    pub fn transform_to_vec(
        &mut self,
        transform: &Transform,
        jpeg_data: &[u8],
        buf: &mut OwnedBuf,
        reply: Option<Reply>,
    ) -> (step: Step<Result<Vec<u8>, Error>>)
        ensures
            final(self)@ == old(self)@,
            reply matches Some(Reply::Bytes(bytes)) ==> step == Step::<
                Result<Vec<u8>, Error>,
            >::Done(Ok(bytes)) && final(buf)@ == old(buf)@,
            !(reply matches Some(Reply::Bytes(_))) ==> ({
                let (out, inner) = transform_step(
                    old(self)@,
                    *transform,
                    jpeg_data@.len() as usize,
                    old(buf)@.owned(),
                    reply,
                );
                &&& final(buf)@ == out.span()
                &&& match inner {
                    Step::Call(call) => step == Step::<Result<Vec<u8>, Error>>::Call(call),
                    Step::Done(Err(e)) => step == Step::<Result<Vec<u8>, Error>>::Done(Err(e)),
                    Step::Done(Ok(_)) => if out.len != 0 {
                        step == Step::<Result<Vec<u8>, Error>>::Call(
                            Call::Read { span: out.span() },
                        )
                    } else {
                        step matches Step::Done(Ok(v)) && v@.len() == 0
                    },
                }
            }),
    {
        match reply {
            Some(Reply::Bytes(bytes)) => Step::Done(Ok(bytes)),
            reply => {
                let mut out = OutputBuf::owned(buf);
                let step = self.transform(transform, jpeg_data, &mut out, reply);
                *buf = into_owned_buf(&mut out);
                match step {
                    Step::Call(call) => Step::Call(call),
                    Step::Done(Err(e)) => Step::Done(Err(e)),
                    Step::Done(Ok(())) => match buf.span() {
                        Some(span) => Step::Call(Call::Read { span }),
                        None => Step::Done(Ok(Vec::new())),
                    },
                }
            },
        }
    }

    /// One step of transforming the image into the `len` bytes at `addr`
    /// that the caller provides.
    ///
    /// The steps are those of [`Transformer::transform`] on a borrowed
    /// buffer over that region, so the codec is told not to reallocate and
    /// fails if the image does not fit. Success returns the size of the
    /// transformed image.
    pub fn transform_to_slice(
        &mut self,
        transform: &Transform,
        jpeg_data: &[u8],
        addr: usize,
        len: usize,
        reply: Option<Reply>,
    ) -> (step: Step<Result<usize, Error>>)
        ensures
            final(self)@ == old(self)@,
            step == to_slice_step(
                old(self)@,
                *transform,
                jpeg_data@.len() as usize,
                addr,
                len,
                reply,
            ),
    {
        let mut buf = OutputBuf::borrowed(addr, len);
        match self.transform(transform, jpeg_data, &mut buf, reply) {
            Step::Call(call) => Step::Call(call),
            Step::Done(Err(e)) => Step::Done(Err(e)),
            Step::Done(Ok(())) => Step::Done(Ok(buf.len())),
        }
    }

    /// Ends the transformer: returns the context to destroy.
    pub fn release(self) -> (ctx: usize)
        ensures
            ctx == self@,
            ctx != 0,
    {
        self.handle.release()
    }
}

/// One step of losslessly transforming a JPEG image with a transformer of
/// its own, into the owned buffer `buf`.
///
/// `session` holds the transformer once it is created, and `buf` the
/// output; the caller keeps both between the steps, starts with no
/// transformer, and ends both when a step is done. Without a transformer the
/// steps are those of [`Transformer::new`]: its failure is the result, and
/// its success is followed at once by the first step of
/// [`Transformer::transform_to_owned`], whose steps the rest are.
pub fn transform(
    config: &Transform,
    jpeg_data: &[u8],
    session: &mut Option<Transformer>,
    buf: &mut OwnedBuf,
    reply: Option<Reply>,
) -> (step: Step<Result<OwnedBuf, Error>>)
    ensures
        match *old(session) {
            Some(t) => (*final(session) matches Some(u) && u@ == t@) && to_owned_step(
                t@,
                *config,
                jpeg_data@.len() as usize,
                old(buf)@,
                reply,
                final(buf)@,
                step,
            ),
            None => match new_step(Init::Transform.spec_code(), reply) {
                Step::Call(call) => (*final(session) is None) && final(buf)@ == old(buf)@ && step
                    == Step::<Result<OwnedBuf, Error>>::Call(call),
                Step::Done(Err(e)) => (*final(session) is None) && final(buf)@ == old(buf)@
                    && step == Step::<Result<OwnedBuf, Error>>::Done(Err(e)),
                Step::Done(Ok(ctx)) => (*final(session) matches Some(u) && u@ == ctx)
                    && to_owned_step(
                    ctx,
                    *config,
                    jpeg_data@.len() as usize,
                    old(buf)@,
                    None,
                    final(buf)@,
                    step,
                ),
            },
        },
{
    match session.take() {
        Some(mut transformer) => {
            let step = transformer.transform_to_owned(config, jpeg_data, buf, reply);
            *session = Some(transformer);
            step
        },
        None => match Transformer::new(reply) {
            Step::Call(call) => Step::Call(call),
            Step::Done(Err(e)) => Step::Done(Err(e)),
            Step::Done(Ok(mut transformer)) => {
                let step = transformer.transform_to_owned(config, jpeg_data, buf, None);
                *session = Some(transformer);
                step
            },
        },
    }
}

/// Whether every value of a crop fits the codec's integer type.
pub open spec fn crop_fits(crop: Option<TransformCrop>) -> bool {
    match crop {
        Some(c) => fits(c.x) && fits(c.y) && fits_opt(c.width) && fits_opt(c.height),
        None => true,
    }
}

/// A crop value that the codec's integers cannot hold ends a transform at
/// its first step, before any call is made, with the error that names the
/// field: of several such fields the first, in the order `x`, `y`, `width`,
/// `height`. The buffer stays as it was. No other transform ends so.
pub proof fn lemma_crop_overflow_ends_before_any_call(
    ctx: usize,
    t: Transform,
    input_len: usize,
    out: OutputBufView,
)
    ensures
        !crop_fits(t.crop) ==> (transform_step(ctx, t, input_len, out, None).1 matches Step::Done(
            Err(Error::IntegerOverflow(_)),
        )),
        crop_fits(t.crop) ==> (transform_step(ctx, t, input_len, out, None).1 is Call),
        transform_step(ctx, t, input_len, out, None).0 == out,
        t.crop matches Some(c) ==> {
            let step = transform_step(ctx, t, input_len, out, None).1;
            &&& !fits(c.x) ==> step == Step::<Result<(), Error>>::Done(
                Err(Error::IntegerOverflow("crop.x")),
            )
            &&& fits(c.x) && !fits(c.y) ==> step == Step::<Result<(), Error>>::Done(
                Err(Error::IntegerOverflow("crop.y")),
            )
            &&& fits(c.x) && fits(c.y) && !fits_opt(c.width) ==> step == Step::<
                Result<(), Error>,
            >::Done(Err(Error::IntegerOverflow("crop.width")))
            &&& fits(c.x) && fits(c.y) && fits_opt(c.width) && !fits_opt(c.height) ==> step
                == Step::<Result<(), Error>>::Done(Err(Error::IntegerOverflow("crop.height")))
        },
{
}

/// A transform whose crop fits tells the codec exactly what was asked for:
/// the operation's number, the option bits, and the crop's values, with zero
/// for a width or height that was left open.
pub proof fn lemma_descriptor_of_fitting_crop(t: Transform)
    requires
        crop_fits(t.crop),
    ensures
        t.spec_descriptor() matches Ok(d) && d.op == t.op.spec_code() && d.options
            == t.spec_options() && 0 <= d.options <= 511 && match t.crop {
            Some(c) => d.r.x == c.x && d.r.y == c.y && d.r.w == (match c.width {
                Some(w) => w,
                None => 0,
            }) && d.r.h == (match c.height {
                Some(h) => h,
                None => 0,
            }),
            None => d.r == (Region { x: 0, y: 0, w: 0, h: 0 }),
        },
{
    lemma_options_fit(t);
}

/// The transform with only an operation set asks the codec for that
/// operation on the whole image with no option.
pub proof fn lemma_plain_transform_has_no_options(op: TransformOp)
    ensures
        Transform::spec_op(op).spec_descriptor() == Ok::<Descriptor, Error>(
            Descriptor { r: Region { x: 0, y: 0, w: 0, h: 0 }, op: op.spec_code(), options: 0 },
        ),
{
    assert(0u32 | 0u32 | 0u32 | 0u32 | 0u32 | 0u32 | 0u32 == 0u32) by (bit_vector);
}

/// The first call of a transform forbids the codec to reallocate a borrowed
/// buffer and allows it for an owned one, and the transform itself is asked
/// for only in answer to the success of that call, into the buffer as it
/// is, for one region.
pub proof fn lemma_transform_follows_no_realloc(
    ctx: usize,
    t: Transform,
    input_len: usize,
    out: OutputBufView,
    reply: Option<Reply>,
)
    requires
        crop_fits(t.crop),
    ensures
        transform_step(ctx, t, input_len, out, None).1 == Step::<Result<(), Error>>::Call(
            Call::SetParam {
                ctx,
                param: TJPARAM_NOREALLOC,
                value: if out.owned {
                    0
                } else {
                    1
                },
            },
        ),
        (transform_step(ctx, t, input_len, out, reply).1 matches Step::Call(
            Call::Transform { .. },
        )) <==> reply == Some(Reply::Status(0)),
        reply == Some(Reply::Status(0)) ==> transform_step(ctx, t, input_len, out, reply).1
            == Step::<Result<(), Error>>::Call(
            Call::Transform {
                ctx,
                input_len,
                count: 1,
                out_addr: out.addr,
                out_len: out.len,
                descriptor: t.spec_descriptor()->Ok_0,
            },
        ),
{
}

/// What a transform leaves in its buffer. Only the outcome of the codec's
/// transform changes the buffer, and never whether it is owned. A transform
/// that succeeds leaves a buffer with a real address, and the error
/// [`Error::Null`] leaves an empty one: the null address is never left with
/// a length. After a failure that the codec signalled, the buffer holds what
/// the codec reported, so that an owned buffer still gives back the memory
/// that the codec left it.
pub proof fn lemma_transform_buffer(
    ctx: usize,
    t: Transform,
    input_len: usize,
    out: OutputBufView,
    reply: Option<Reply>,
)
    ensures
        ({
            let (after, step) = transform_step(ctx, t, input_len, out, reply);
            &&& after.owned == out.owned
            &&& !(reply matches Some(Reply::Transformed { .. })) ==> after == out
            &&& step == Step::<Result<(), Error>>::Done(Ok(())) <==> (reply matches Some(
                Reply::Transformed { status, addr, .. },
            ) && status == 0 && addr != 0)
            &&& step == Step::<Result<(), Error>>::Done(Ok(())) ==> after.addr != 0 && after.wf()
            &&& step == Step::<Result<(), Error>>::Done(Err(Error::Null)) <==> (reply matches Some(
                Reply::Transformed { status, addr, .. },
            ) && status == 0 && addr == 0)
            &&& step == Step::<Result<(), Error>>::Done(Err(Error::Null)) ==> after
                == out.emptied()
            &&& (reply matches Some(Reply::Transformed { status, addr, len }) && status != 0)
                ==> after == out.stored(reply->0->Transformed_addr, reply->0->Transformed_len)
                && step == Step::<Result<(), Error>>::Call(Call::ErrorStr { ctx })
        }),
{
}

/// The steps of a transform, run against a codec that answers each call:
/// the buffer and the result when a step is done, or `None` if `fuel` steps
/// were not enough.
pub open spec fn transform_run(
    ctx: usize,
    t: Transform,
    input_len: usize,
    out: OutputBufView,
    codec: spec_fn(Call) -> Reply,
    reply: Option<Reply>,
    fuel: nat,
) -> Option<(OutputBufView, Result<(), Error>)>
    decreases fuel,
{
    if fuel == 0 {
        None
    } else {
        let (after, step) = transform_step(ctx, t, input_len, out, reply);
        match step {
            Step::Done(result) => Some((after, result)),
            Step::Call(call) => transform_run(
                ctx,
                t,
                input_len,
                after,
                codec,
                Some(codec(call)),
                (fuel - 1) as nat,
            ),
        }
    }
}

/// What a whole transform comes to, with a codec that answers the calls as
/// `codec` does.
///
/// A crop value that does not fit fails it before anything else. Then the
/// codec is told whether it may reallocate the buffer; if it refuses, the
/// transform fails with the codec's message and the buffer is as it was.
/// Then the codec transforms, and the buffer takes the address and length
/// that it reports: on failure the error is the codec's message, on success
/// with the null address the buffer is emptied and the error is
/// [`Error::Null`], and otherwise the transform has succeeded.
pub open spec fn transform_outcome(
    ctx: usize,
    t: Transform,
    input_len: usize,
    out: OutputBufView,
    codec: spec_fn(Call) -> Reply,
) -> (OutputBufView, Result<(), Error>) {
    match t.spec_descriptor() {
        Err(e) => (out, Err(e)),
        Ok(descriptor) => {
            let message = codec(Call::ErrorStr { ctx })->Text_0;
            let accepted = codec(
                Call::SetParam { ctx, param: TJPARAM_NOREALLOC, value: no_realloc(out.owned) },
            );
            let transformed = codec(
                Call::Transform {
                    ctx,
                    input_len,
                    count: 1,
                    out_addr: out.addr,
                    out_len: out.len,
                    descriptor,
                },
            );
            let addr = transformed->Transformed_addr;
            let len = transformed->Transformed_len;
            if accepted->Status_0 != 0 {
                (out, Err(Error::TurboJpegError(message)))
            } else if transformed->Transformed_status != 0 {
                (out.stored(addr, len), Err(Error::TurboJpegError(message)))
            } else if addr == 0 {
                (out.emptied(), Err(Error::Null))
            } else {
                (out.stored(addr, len), Ok(()))
            }
        },
    }
}

/// Run against a codec that answers each call in its kind, the steps of a
/// transform are done within four steps, and come to
/// [`transform_outcome`].
pub proof fn lemma_transform_run(
    ctx: usize,
    t: Transform,
    input_len: usize,
    out: OutputBufView,
    codec: spec_fn(Call) -> Reply,
)
    requires
        forall|call: Call| call.answered_by(#[trigger] codec(call)),
    ensures
        transform_run(ctx, t, input_len, out, codec, None, 4) == Some(
            transform_outcome(ctx, t, input_len, out, codec),
        ),
{
    reveal_with_fuel(transform_run, 5);
    let set = Call::SetParam { ctx, param: TJPARAM_NOREALLOC, value: no_realloc(out.owned) };
    assert(set.answered_by(codec(set)));
    assert((Call::ErrorStr { ctx }).answered_by(codec(Call::ErrorStr { ctx })));
    if let Ok(descriptor) = t.spec_descriptor() {
        let call = Call::Transform {
            ctx,
            input_len,
            count: 1,
            out_addr: out.addr,
            out_len: out.len,
            descriptor,
        };
        assert(call.answered_by(codec(call)));
    }
}

/// A transform into a borrowed buffer tells the codec not to reallocate. If
/// the codec accepts that and then succeeds at the address it was given, the
/// transform succeeds and the buffer is still at that address, with the
/// length that the codec reported.
pub proof fn lemma_borrowed_buffer_keeps_its_address(
    ctx: usize,
    t: Transform,
    input_len: usize,
    out: OutputBufView,
    codec: spec_fn(Call) -> Reply,
    len: usize,
)
    requires
        !out.owned,
        out.addr != 0,
        t.spec_descriptor() matches Ok(descriptor) && codec(
            Call::Transform {
                ctx,
                input_len,
                count: 1,
                out_addr: out.addr,
                out_len: out.len,
                descriptor,
            },
        ) == (Reply::Transformed { status: 0, addr: out.addr, len }),
        codec(Call::SetParam { ctx, param: TJPARAM_NOREALLOC, value: 1 }) == Reply::Status(0),
    ensures
        transform_outcome(ctx, t, input_len, out, codec) == (
            OutputBufView { addr: out.addr, len, owned: false },
            Ok::<(), Error>(()),
        ),
{
}

/// If the codec fails a transform, the transform fails with the codec's
/// message, and the buffer has the address and length that the codec
/// reported: a length within the buffer's capacity, if the codec reported
/// one.
pub proof fn lemma_failed_transform_keeps_reported_length(
    ctx: usize,
    t: Transform,
    input_len: usize,
    out: OutputBufView,
    codec: spec_fn(Call) -> Reply,
    status: libc::c_int,
    addr: usize,
    len: usize,
)
    requires
        status != 0,
        t.spec_descriptor() matches Ok(descriptor) && codec(
            Call::Transform {
                ctx,
                input_len,
                count: 1,
                out_addr: out.addr,
                out_len: out.len,
                descriptor,
            },
        ) == (Reply::Transformed { status, addr, len }),
        codec(Call::SetParam { ctx, param: TJPARAM_NOREALLOC, value: no_realloc(out.owned) })
            == Reply::Status(0),
    ensures
        transform_outcome(ctx, t, input_len, out, codec) == (
            OutputBufView { addr, len, owned: out.owned },
            Err::<(), Error>(Error::TurboJpegError(codec(Call::ErrorStr { ctx })->Text_0)),
        ),
        len <= out.len ==> transform_outcome(ctx, t, input_len, out, codec).0.len <= out.len,
{
}

/// A transform into an empty owned buffer lets the codec allocate. If the
/// codec accepts that and then succeeds at a real address, the transform
/// succeeds and the buffer has that address and the length that the codec
/// reported.
pub proof fn lemma_owned_buffer_takes_reported_length(
    ctx: usize,
    t: Transform,
    input_len: usize,
    codec: spec_fn(Call) -> Reply,
    addr: usize,
    len: usize,
)
    requires
        addr != 0,
        t.spec_descriptor() matches Ok(descriptor) && codec(
            Call::Transform { ctx, input_len, count: 1, out_addr: 0, out_len: 0, descriptor },
        ) == (Reply::Transformed { status: 0, addr, len }),
        codec(Call::SetParam { ctx, param: TJPARAM_NOREALLOC, value: 0 }) == Reply::Status(0),
    ensures
        transform_outcome(ctx, t, input_len, Span::empty().owned(), codec) == (
            OutputBufView { addr, len, owned: true },
            Ok::<(), Error>(()),
        ),
{
}

/// A transform is done after at most three calls, each answered in its
/// kind: no call is made again after it failed.
pub proof fn lemma_transform_ends_within_three_calls(
    ctx: usize,
    t: Transform,
    input_len: usize,
    out: OutputBufView,
    first: Reply,
    second: Reply,
    third: Reply,
)
    ensures
        ({
            let (out0, step0) = transform_step(ctx, t, input_len, out, None);
            let (out1, step1) = transform_step(ctx, t, input_len, out0, Some(first));
            let (out2, step2) = transform_step(ctx, t, input_len, out1, Some(second));
            let (out3, step3) = transform_step(ctx, t, input_len, out2, Some(third));
            (step0 matches Step::Call(call0) && call0.answered_by(first)) ==> (step1 matches Step::Call(
                call1,
            ) && call1.answered_by(second)) ==> (step2 matches Step::Call(call2)
                && call2.answered_by(third)) ==> step3 is Done
        }),
{
}

/// A failure that the codec signalled is reported with the codec's own
/// message, unchanged, whichever call had failed.
pub proof fn lemma_codec_message_is_the_error(
    ctx: usize,
    t: Transform,
    input_len: usize,
    out: OutputBufView,
    msg: String,
)
    requires
        crop_fits(t.crop),
    ensures
        transform_step(ctx, t, input_len, out, Some(Reply::Text(msg))) == (
            out,
            Step::<Result<(), Error>>::Done(Err(Error::TurboJpegError(msg))),
        ),
        forall|status: libc::c_int|
            status != 0 ==> #[trigger] transform_step(
                ctx,
                t,
                input_len,
                out,
                Some(Reply::Status(status)),
            ) == (out, Step::<Result<(), Error>>::Call(Call::ErrorStr { ctx })),
{
}

} // verus!
