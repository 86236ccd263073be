//! One context of the codec, and the steps that create, read and configure
//! it.
//!
//! A step is handed the codec's latest reply, or `None` before the first
//! call. A reply that answers none of the operation's calls is taken as no
//! reply.

use vstd::prelude::*;
use crate::error::Error;
use crate::native::{Call, Reply, Step, TJINIT_COMPRESS, TJINIT_DECOMPRESS, TJINIT_TRANSFORM};

verus! {

/// What a context is created for.
#[derive(Debug, Clone, Copy, PartialEq, Eq)]
pub enum Init {
    Compress,
    Decompress,
    Transform,
}

impl Init {
    /// The codec's number for this mode.
    pub open spec fn spec_code(self) -> libc::c_int {
        match self {
            Init::Compress => TJINIT_COMPRESS,
            Init::Decompress => TJINIT_DECOMPRESS,
            Init::Transform => TJINIT_TRANSFORM,
        }
    }

    /// The codec's number for this mode.
    pub fn code(self) -> (c: libc::c_int)
        ensures
            c == self.spec_code(),
    {
        match self {
            Init::Compress => TJINIT_COMPRESS,
            Init::Decompress => TJINIT_DECOMPRESS,
            Init::Transform => TJINIT_TRANSFORM,
        }
    }
}

/// A context of the codec that was created and not yet destroyed. Its view
/// is the context's token, which is never null.
#[derive(Debug)]
pub struct Handle {
    ctx: usize,
}

impl View for Handle {
    type V = usize;

    closed spec fn view(&self) -> usize {
        self.ctx
    }
}

/// What a step of creating a context in mode `mode` answers, with the
/// context's token in the place of the handle: it asks for the context, is
/// done if one came back, and if the null context came back it asks for the
/// message that the codec left for it, which is then the error.
pub open spec fn new_step(mode: libc::c_int, reply: Option<Reply>) -> Step<Result<usize, Error>> {
    match reply {
        Some(Reply::Context(ctx)) => if ctx == 0 {
            Step::Call(Call::ErrorStr { ctx: 0 })
        } else {
            Step::Done(Ok(ctx))
        },
        Some(Reply::Text(msg)) => Step::Done(Err(Error::TurboJpegError(msg))),
        _ => Step::Call(Call::Init { mode }),
    }
}

/// What a step of [`Handle::get_error`] on the context `ctx` answers: it
/// asks for the message and wraps it, unchanged.
pub open spec fn get_error_step(ctx: usize, reply: Option<Reply>) -> Step<Error> {
    match reply {
        Some(Reply::Text(msg)) => Step::Done(Error::TurboJpegError(msg)),
        _ => Step::Call(Call::ErrorStr { ctx }),
    }
}

/// What a step of [`Handle::get`] on the context `ctx` answers: it asks for
/// the value and passes it on.
pub open spec fn get_step(ctx: usize, param: libc::c_int, reply: Option<Reply>) -> Step<
    libc::c_int,
> {
    match reply {
        Some(Reply::Value(v)) => Step::Done(v),
        _ => Step::Call(Call::GetParam { ctx, param }),
    }
}

/// What a step of [`Handle::set`] on the context `ctx` answers: the write,
/// then success on status zero, and on any other status the question for
/// the context's message, which is then the error.
pub open spec fn set_step(
    ctx: usize,
    param: libc::c_int,
    value: libc::c_int,
    reply: Option<Reply>,
) -> Step<Result<(), Error>> {
    match reply {
        Some(Reply::Status(status)) => if status != 0 {
            Step::Call(Call::ErrorStr { ctx })
        } else {
            Step::Done(Ok(()))
        },
        Some(Reply::Text(msg)) => Step::Done(Err(Error::TurboJpegError(msg))),
        _ => Step::Call(Call::SetParam { ctx, param, value }),
    }
}

/// Creating a context is done after at most two calls, each answered in
/// its kind: the second is only made for the null context, and its answer is
/// the error.
pub proof fn lemma_new_ends_within_two_calls(mode: libc::c_int, first: Reply, second: Reply)
    ensures
        new_step(mode, None) == Step::<Result<usize, Error>>::Call(Call::Init { mode }),
        (Call::Init { mode }).answered_by(first) ==> new_step(mode, Some(first)) == (if first
            == Reply::Context(0) {
            Step::<Result<usize, Error>>::Call(Call::ErrorStr { ctx: 0 })
        } else {
            Step::<Result<usize, Error>>::Done(Ok(first->Context_0))
        }),
        (Call::ErrorStr { ctx: 0 }).answered_by(second) ==> (new_step(mode, Some(second))
            matches Step::Done(Err(Error::TurboJpegError(_)))),
{
}

/// Writing a parameter is done after at most two calls, each answered in
/// its kind, and it succeeds exactly when the codec answers the write with
/// status zero.
pub proof fn lemma_set_ends_within_two_calls(
    ctx: usize,
    param: libc::c_int,
    value: libc::c_int,
    first: Reply,
    second: Reply,
)
    ensures
        set_step(ctx, param, value, None) == Step::<Result<(), Error>>::Call(
            Call::SetParam { ctx, param, value },
        ),
        set_step(ctx, param, value, Some(first)) == Step::<Result<(), Error>>::Done(Ok(()))
            <==> first == Reply::Status(0),
        (Call::SetParam { ctx, param, value }).answered_by(first) && first != Reply::Status(0)
            ==> set_step(ctx, param, value, Some(first)) == Step::<Result<(), Error>>::Call(
            Call::ErrorStr { ctx },
        ),
        (Call::ErrorStr { ctx }).answered_by(second) ==> (set_step(ctx, param, value, Some(second))
            matches Step::Done(Err(Error::TurboJpegError(_)))),
{
}

impl Handle {
    #[verifier::type_invariant]
    spec fn live(&self) -> bool {
        self.ctx != 0
    }

    /// One step of creating a context: [`new_step`], with a handle that
    /// holds the context that was created.
    pub fn new(init: Init, reply: Option<Reply>) -> (step: Step<Result<Handle, Error>>)
        ensures
            match new_step(init.spec_code(), reply) {
                Step::Call(call) => step == Step::<Result<Handle, Error>>::Call(call),
                Step::Done(Err(e)) => step == Step::<Result<Handle, Error>>::Done(Err(e)),
                Step::Done(Ok(ctx)) => step matches Step::Done(Ok(h)) && h@ == ctx,
            },
    {
        match reply {
            Some(Reply::Context(ctx)) => {
                if ctx == 0 {
                    Step::Call(Call::ErrorStr { ctx: 0 })
                } else {
                    Step::Done(Ok(Handle { ctx }))
                }
            },
            Some(Reply::Text(msg)) => Step::Done(Err(Error::TurboJpegError(msg))),
            _ => Step::Call(Call::Init { mode: init.code() }),
        }
    }

    /// One step of reading the context's current error.
    pub fn get_error(&mut self, reply: Option<Reply>) -> (step: Step<Error>)
        ensures
            final(self)@ == old(self)@,
            step == get_error_step(old(self)@, reply),
    {
        match reply {
            Some(Reply::Text(msg)) => Step::Done(Error::TurboJpegError(msg)),
            _ => Step::Call(Call::ErrorStr { ctx: self.ctx }),
        }
    }

    /// One step of reading a parameter.
    pub fn get(&mut self, param: libc::c_int, reply: Option<Reply>) -> (step: Step<libc::c_int>)
        ensures
            final(self)@ == old(self)@,
            step == get_step(old(self)@, param, reply),
    {
        match reply {
            Some(Reply::Value(v)) => Step::Done(v),
            _ => Step::Call(Call::GetParam { ctx: self.ctx, param }),
        }
    }

    /// One step of writing a parameter.
    pub fn set(&mut self, param: libc::c_int, value: libc::c_int, reply: Option<Reply>) -> (step:
        Step<Result<(), Error>>)
        ensures
            final(self)@ == old(self)@,
            step == set_step(old(self)@, param, value, reply),
    {
        match reply {
            Some(Reply::Status(status)) => {
                if status != 0 {
                    match self.get_error(None) {
                        Step::Call(call) => Step::Call(call),
                        Step::Done(e) => Step::Done(Err(e)),
                    }
                } else {
                    Step::Done(Ok(()))
                }
            },
            Some(Reply::Text(msg)) => {
                match self.get_error(Some(Reply::Text(msg))) {
                    Step::Call(call) => Step::Call(call),
                    Step::Done(e) => Step::Done(Err(e)),
                }
            },
            _ => Step::Call(Call::SetParam { ctx: self.ctx, param, value }),
        }
    }

    /// The context's token, for the calls that this crate asks for.
    pub(crate) fn as_ptr(&mut self) -> (ctx: usize)
        ensures
            final(self)@ == old(self)@,
            ctx == old(self)@,
            ctx != 0,
    {
        proof {
            use_type_invariant(&*self);
        }
        self.ctx
    }

    /// Ends the handle: returns the context to destroy. The handle is gone
    /// after this, so the context is destroyed once and not used again.
    pub fn release(self) -> (ctx: usize)
        ensures
            ctx == self@,
            ctx != 0,
    {
        proof {
            use_type_invariant(&self);
        }
        self.ctx
    }
}

} // verus!
