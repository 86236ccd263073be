//! Buffers of JPEG data: who holds the memory, and who has to give it back.
//!
//! A buffer is a record of address, length and ownership. The memory itself
//! is never touched here. A byte view is handed out as the [`Span`] that it
//! has to cover, and a destructor is the question which address, if any,
//! goes back to the native allocator.

use vstd::prelude::*;

verus! {

/// A region of memory: where it starts and how many bytes it has.
#[derive(Debug, Clone, Copy, PartialEq, Eq)]
pub struct Span {
    pub addr: usize,
    pub len: usize,
}

impl Span {
    /// A region that holds bytes starts at a real address.
    pub open spec fn wf(self) -> bool {
        self.len > 0 ==> self.addr != 0
    }

    /// The region that a byte view of this memory covers: none where there
    /// are no bytes.
    pub open spec fn visible(self) -> Option<Span> {
        if self.len != 0 {
            Some(self)
        } else {
            None
        }
    }

    /// The address that goes back to the native allocator when a buffer
    /// that owns this memory ends. Giving back null does nothing, so null is
    /// not given back.
    pub open spec fn released(self) -> Option<usize> {
        if self.addr != 0 {
            Some(self.addr)
        } else {
            None
        }
    }

    /// No memory at all.
    pub open spec fn empty() -> Span {
        Span { addr: 0, len: 0 }
    }

    /// The owned output buffer over this memory.
    pub open spec fn owned(self) -> OutputBufView {
        OutputBufView { addr: self.addr, len: self.len, owned: true }
    }
}

/// The region that a byte view of `len` bytes at `addr` has to cover, or
/// `None` for the empty view. An empty buffer is never looked into, so its
/// address may be null.
pub fn span_of(addr: usize, len: usize) -> (r: Option<Span>)
    requires
        len != 0 ==> addr != 0,
    ensures
        r == (Span { addr, len }).visible(),
        r matches Some(s) ==> s.addr != 0 && s.len > 0,
{
    if len != 0 {
        Some(Span { addr, len })
    } else {
        None
    }
}

/// A buffer in memory of the native allocator. It can grow when it is used
/// as an output buffer.
#[derive(Debug)]
pub struct OwnedBuf {
    addr: usize,
    len: usize,
}

impl View for OwnedBuf {
    type V = Span;

    closed spec fn view(&self) -> Span {
        Span { addr: self.addr, len: self.len }
    }
}

impl OwnedBuf {
    /// Creates an empty buffer.
    pub fn new() -> (r: OwnedBuf)
        ensures
            r@ == Span::empty(),
    {
        OwnedBuf { addr: 0, len: 0 }
    }

    /// Takes the native allocator's answer `addr` to a request for `len`
    /// bytes. The allocator failing a non-empty request is fatal, not an
    /// input.
    pub fn allocate(len: usize, addr: usize) -> (r: OwnedBuf)
        requires
            len > 0 ==> addr != 0,
        ensures
            r@ == (Span { addr, len }),
            r@.wf(),
    {
        OwnedBuf { addr, len }
    }

    /// Takes the native allocator's answer `addr` to a request for room for
    /// a copy of `data`. Filling the room is left to the caller.
    pub fn copy_from_slice(data: &[u8], addr: usize) -> (r: OwnedBuf)
        requires
            data@.len() > 0 ==> addr != 0,
        ensures
            r@ == (Span { addr, len: data@.len() as usize }),
            r@.wf(),
    {
        OwnedBuf::allocate(data.len(), addr)
    }

    /// Returns the length of the buffer.
    pub fn len(&self) -> (n: usize)
        ensures
            n == self@.len,
    {
        self.len
    }

    /// Whether the buffer can be looked into: it has no bytes, or it starts
    /// at a real address.
    pub fn is_valid(&self) -> (b: bool)
        ensures
            b == self@.wf(),
    {
        self.len == 0 || self.addr != 0
    }

    /// The region that a byte view of the buffer covers.
    pub fn span(&self) -> (r: Option<Span>)
        requires
            self@.wf(),
        ensures
            r == self@.visible(),
            r matches Some(s) ==> s.addr != 0 && s.len > 0,
    {
        span_of(self.addr, self.len)
    }

    /// Ends the buffer: returns the address to give back to the native
    /// allocator, if there is one, and leaves the buffer empty.
    pub fn release(&mut self) -> (r: Option<usize>)
        ensures
            r == old(self)@.released(),
            final(self)@ == Span::empty(),
    {
        let addr = self.addr;
        self.addr = 0;
        self.len = 0;
        if addr != 0 {
            Some(addr)
        } else {
            None
        }
    }
}

/// What an [`OutputBuf`] stands for: a region, and whether the native
/// allocator owns it.
pub struct OutputBufView {
    pub addr: usize,
    pub len: usize,
    pub owned: bool,
}

impl OutputBufView {
    /// The buffer's region.
    pub open spec fn span(self) -> Span {
        Span { addr: self.addr, len: self.len }
    }

    /// A buffer that holds bytes starts at a real address.
    pub open spec fn wf(self) -> bool {
        self.span().wf()
    }

    /// The address that goes back to the native allocator when the buffer
    /// ends: none for a borrowed buffer, whose memory is the caller's.
    pub open spec fn released(self) -> Option<usize> {
        if self.owned {
            self.span().released()
        } else {
            None
        }
    }

    /// The buffer after its memory was handed on: nothing is left in it.
    pub open spec fn emptied(self) -> OutputBufView {
        OutputBufView { addr: 0, len: 0, owned: self.owned }
    }

    /// The buffer after the codec reported a new address and length.
    pub open spec fn stored(self, addr: usize, len: usize) -> OutputBufView {
        OutputBufView { addr, len, owned: self.owned }
    }
}

/// How an [`OutputBuf`] becomes an [`OwnedBuf`].
#[derive(Debug)]
pub enum IntoOwned {
    /// The buffer was owned: this is its memory, moved and not copied.
    Moved(OwnedBuf),
    /// The buffer was borrowed: the bytes of this region have to be copied
    /// into a fresh [`OwnedBuf`].
    Copy { addr: usize, len: usize },
}

/// Output buffer for JPEG data, borrowed or owned.
///
/// A borrowed buffer is a region of fixed size that the caller provides; the
/// codec must fail rather than write past it. An owned buffer is memory of
/// the native allocator, which the codec may reallocate.
#[derive(Debug)]
pub struct OutputBuf {
    addr: usize,
    len: usize,
    is_owned: bool,
}

impl View for OutputBuf {
    type V = OutputBufView;

    closed spec fn view(&self) -> OutputBufView {
        OutputBufView { addr: self.addr, len: self.len, owned: self.is_owned }
    }
}

impl OutputBuf {
    /// Wraps `len` bytes at `addr` that the caller provides. Nothing is
    /// allocated.
    pub fn borrowed(addr: usize, len: usize) -> (r: OutputBuf)
        ensures
            r@ == (OutputBufView { addr, len, owned: false }),
    {
        OutputBuf { addr, len, is_owned: false }
    }

    /// Takes the memory of `buf` over into an owned output buffer, and
    /// leaves `buf` empty, so that only one of the two gives it back.
    pub fn owned(buf: &mut OwnedBuf) -> (r: OutputBuf)
        ensures
            r@ == old(buf)@.owned(),
            final(buf)@ == Span::empty(),
    {
        let addr = buf.addr;
        let len = buf.len;
        buf.addr = 0;
        buf.len = 0;
        OutputBuf { addr, len, is_owned: true }
    }

    /// Creates an empty owned buffer.
    pub fn new_owned() -> (r: OutputBuf)
        ensures
            r@ == (OutputBufView { addr: 0, len: 0, owned: true }),
    {
        let mut buf = OwnedBuf::new();
        OutputBuf::owned(&mut buf)
    }

    /// Creates an owned buffer of `cap` bytes from the native allocator's
    /// answer `addr` to a request for them.
    pub fn allocate_owned(cap: usize, addr: usize) -> (r: OutputBuf)
        requires
            cap > 0 ==> addr != 0,
        ensures
            r@ == (OutputBufView { addr, len: cap, owned: true }),
            r@.wf(),
    {
        let mut buf = OwnedBuf::allocate(cap, addr);
        OutputBuf::owned(&mut buf)
    }

    /// Returns the length of the buffer.
    pub fn len(&self) -> (n: usize)
        ensures
            n == self@.len,
    {
        self.len
    }

    /// Whether the native allocator owns the buffer's memory.
    pub fn is_owned(&self) -> (b: bool)
        ensures
            b == self@.owned,
    {
        self.is_owned
    }

    /// Whether the buffer can be looked into: it has no bytes, or it starts
    /// at a real address.
    pub fn is_valid(&self) -> (b: bool)
        ensures
            b == self@.wf(),
    {
        self.len == 0 || self.addr != 0
    }

    /// The region that a byte view of the buffer covers.
    pub fn span(&self) -> (r: Option<Span>)
        requires
            self@.wf(),
        ensures
            r == self@.span().visible(),
            r matches Some(s) ==> s.addr != 0 && s.len > 0,
    {
        span_of(self.addr, self.len)
    }

    /// Converts this buffer into an owned buffer and leaves it empty. An
    /// owned buffer's memory is moved; a borrowed buffer's bytes have to be
    /// copied, since the caller's memory cannot be handed on.
    pub fn into_owned(&mut self) -> (r: IntoOwned)
        ensures
            final(self)@ == old(self)@.emptied(),
            old(self)@.owned ==> (r matches IntoOwned::Moved(o) && o@ == old(self)@.span()),
            !old(self)@.owned ==> r == (IntoOwned::Copy {
                addr: old(self)@.addr,
                len: old(self)@.len,
            }),
    {
        let addr = self.addr;
        let len = self.len;
        self.addr = 0;
        self.len = 0;
        if self.is_owned {
            IntoOwned::Moved(OwnedBuf { addr, len })
        } else {
            IntoOwned::Copy { addr, len }
        }
    }

    /// Ends the buffer: returns the address to give back to the native
    /// allocator, if the buffer owns one, and leaves the buffer empty.
    pub fn release(&mut self) -> (r: Option<usize>)
        ensures
            r == old(self)@.released(),
            final(self)@ == old(self)@.emptied(),
    {
        let addr = self.addr;
        self.addr = 0;
        self.len = 0;
        if self.is_owned && addr != 0 {
            Some(addr)
        } else {
            None
        }
    }

    /// The buffer's address, for the codec to write to.
    pub(crate) fn addr(&self) -> (a: usize)
        ensures
            a == self@.addr,
    {
        self.addr
    }

    /// Takes over the address and length that the codec reported.
    pub(crate) fn store(&mut self, addr: usize, len: usize)
        ensures
            final(self)@ == old(self)@.stored(addr, len),
    {
        self.addr = addr;
        self.len = len;
    }
}

impl From<OwnedBuf> for OutputBuf {
    /// Converts an [`OwnedBuf`] into an owned output buffer.
    fn from(buf: OwnedBuf) -> (r: OutputBuf) {
        let mut buf = buf;
        OutputBuf::owned(&mut buf)
    }
}

impl vstd::std_specs::convert::FromSpecImpl<OwnedBuf> for OutputBuf {
    open spec fn obeys_from_spec() -> bool {
        true
    }

    open spec fn from_spec(buf: OwnedBuf) -> OutputBuf {
        OutputBuf::over(buf)
    }
}

impl OutputBuf {
    /// The owned output buffer that holds the memory of `buf`.
    pub closed spec fn over(buf: OwnedBuf) -> OutputBuf {
        OutputBuf { addr: buf.addr, len: buf.len, is_owned: true }
    }

    /// The output buffer that an [`OwnedBuf`] converts into is the owned
    /// buffer over its memory.
    pub proof fn lemma_over(buf: OwnedBuf)
        ensures
            OutputBuf::over(buf)@ == buf@.owned(),
    {
    }
}

/// Memory that was handed on is given back once: after
/// [`OutputBuf::into_owned`] on an owned buffer, the buffer that was left
/// behind gives nothing back, and the buffer that came out gives back what
/// the first would have.
pub proof fn lemma_into_owned_releases_once(v: OutputBufView)
    requires
        v.owned,
    ensures
        v.emptied().released() is None,
        v.span().released() == v.released(),
{
}

/// Memory that went from an [`OwnedBuf`] into an owned [`OutputBuf`] is
/// given back by the output buffer alone.
pub proof fn lemma_owned_releases_once(s: Span)
    ensures
        Span::empty().released() is None,
        s.owned().released() == s.released(),
{
}

/// A buffer gives its memory back at most once: after it has ended, ending
/// it again gives nothing back.
pub proof fn lemma_release_is_final(v: OutputBufView)
    ensures
        v.emptied().released() is None,
        Span::empty().released() is None,
{
}

/// A borrowed buffer gives nothing back, whatever it holds.
pub proof fn lemma_borrowed_releases_nothing(v: OutputBufView)
    requires
        !v.owned,
    ensures
        v.released() is None,
        v.emptied().released() is None,
{
}

/// A buffer without bytes has the empty view, whatever its address, and a
/// view that is not empty never starts at null.
pub proof fn lemma_empty_buffer_has_empty_view(v: OutputBufView)
    requires
        v.wf(),
    ensures
        v.len == 0 ==> (v.span().visible() is None),
        v.len != 0 ==> v.span().visible() == Some(v.span()) && v.addr != 0,
        v.emptied().wf(),
{
}

} // verus!
