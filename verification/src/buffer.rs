//! Reusable fixed-capacity byte buffers and the pool that recycles them.

use vstd::prelude::*;

verus! {

/// Capacity of every buffer: the maximum UDP payload size in bytes.
pub const MAX_BUFFER_SIZE: usize = 65535;

/// A fixed-capacity byte region plus a logical length marking the valid
/// prefix. Bytes beyond the logical length are stale and must never be
/// interpreted as payload.
#[derive(Clone, Debug)]
pub struct Buffer {
    buf: Vec<u8>,
    len: usize,
}

impl Buffer {
    /// The whole fixed-capacity storage, stale bytes included.
    pub closed spec fn storage(self) -> Seq<u8> {
        self.buf@
    }

    /// The logical length: how many leading bytes of the storage are valid.
    pub closed spec fn spec_len(self) -> nat {
        self.len as nat
    }

    /// The valid prefix of the storage.
    pub open spec fn contents(self) -> Seq<u8> {
        self.storage().take(self.spec_len() as int)
    }

    /// Well-formedness: the storage spans exactly the full capacity and the
    /// logical length never exceeds it.
    pub open spec fn wf(self) -> bool {
        self.storage().len() == MAX_BUFFER_SIZE && self.spec_len() <= MAX_BUFFER_SIZE
    }

    /// Runtime well-formedness test, so unverified callers can check the
    /// preconditions of the functions that take a buffer.
    pub fn is_well_formed(&self) -> (r: bool)
        ensures
            r == self.wf(),
    {
        self.buf.len() == MAX_BUFFER_SIZE && self.len <= MAX_BUFFER_SIZE
    }

    /// Mutable access to the whole storage, for filling it from a socket.
    /// The logical length is untouched; the storage may only be mutated
    /// element-wise through the returned reference.
    pub fn get_mut(&mut self) -> (r: &mut Vec<u8>)
        ensures
            (*r)@ == old(self).storage(),
            final(self).storage() == (*final(r))@,
            final(self).spec_len() == old(self).spec_len(),
    {
        &mut self.buf
    }

    /// The valid prefix, as a slice.
    pub fn get(&self) -> (r: &[u8])
        requires
            self.wf(),
        ensures
            r@ == self.contents(),
    {
        vstd::slice::slice_subrange(self.buf.as_slice(), 0, self.len)
    }

    /// The first `n` bytes of the storage, as a slice.
    pub fn prefix(&self, n: usize) -> (r: &[u8])
        requires
            self.wf(),
            n <= MAX_BUFFER_SIZE,
        ensures
            r@ == self.storage().take(n as int),
    {
        vstd::slice::slice_subrange(self.buf.as_slice(), 0, n)
    }

    /// Set the logical length, leaving the storage as it is.
    pub fn set_len(&mut self, len: usize)
        requires
            len <= MAX_BUFFER_SIZE,
        ensures
            final(self).spec_len() == len,
            final(self).storage() == old(self).storage(),
    {
        self.len = len;
    }

    /// The logical length.
    pub fn len(&self) -> (r: usize)
        ensures
            r == self.spec_len(),
    {
        self.len
    }

    /// Overwrite one byte of the storage; the logical length is untouched.
    pub(crate) fn set_byte(&mut self, i: usize, b: u8)
        requires
            old(self).wf(),
            i < MAX_BUFFER_SIZE,
        ensures
            final(self).storage() == old(self).storage().update(i as int, b),
            final(self).spec_len() == old(self).spec_len(),
            final(self).wf(),
    {
        let p = &mut self.buf[i];
        *p = b;
    }
}

impl Default for Buffer {
    /// A fresh zero-filled buffer at full capacity, with its logical length
    /// set to the full capacity.
    fn default() -> (r: Buffer)
        ensures
            r.wf(),
            r.spec_len() == MAX_BUFFER_SIZE,
            r.storage() == Seq::new(MAX_BUFFER_SIZE as nat, |i: int| 0u8),
    {
        let buf: Vec<u8> = vec![0u8; MAX_BUFFER_SIZE];
        proof {
            assert(buf@ =~= Seq::new(MAX_BUFFER_SIZE as nat, |i: int| 0u8));
        }
        Buffer { buf, len: MAX_BUFFER_SIZE }
    }
}

/// An unbounded stack of idle buffers: most recently recycled first.
pub struct BufferPool {
    queue: Vec<Buffer>,
}

impl BufferPool {
    /// The idle buffers, in stack order (last is handed out first).
    pub closed spec fn view(self) -> Seq<Buffer> {
        self.queue@
    }

    #[verifier::type_invariant]
    spec fn inv(self) -> bool {
        forall|i: int|
            0 <= i < self.queue@.len() ==> (#[trigger] self.queue@[i]).wf()
                && self.queue@[i].spec_len() == MAX_BUFFER_SIZE
    }

    /// A previously recycled buffer if any exist, otherwise a fresh
    /// zero-filled one; either way its logical length is the full capacity.
    pub fn get_buffer(&mut self) -> (r: Buffer)
        ensures
            r.wf(),
            r.spec_len() == MAX_BUFFER_SIZE,
            old(self)@.len() == 0 ==> final(self)@ == old(self)@ && r.storage() == Seq::new(
                MAX_BUFFER_SIZE as nat,
                |i: int| 0u8,
            ),
            old(self)@.len() > 0 ==> final(self)@ == old(self)@.drop_last() && r == old(
                self,
            )@.last(),
    {
        proof {
            use_type_invariant(&*self);
        }
        let mut q: Vec<Buffer> = Vec::new();
        core::mem::swap(&mut q, &mut self.queue);
        let r = if q.is_empty() {
            Buffer::default()
        } else {
            q.pop().unwrap()
        };
        core::mem::swap(&mut q, &mut self.queue);
        r
    }

    /// Reset the buffer's logical length to full capacity and keep it for
    /// future reuse.
    pub fn recycle_byffer(&mut self, buffer: Buffer)
        requires
            buffer.wf(),
        ensures
            final(self)@.len() == old(self)@.len() + 1,
            final(self)@.last().storage() == buffer.storage(),
            final(self)@.last().spec_len() == MAX_BUFFER_SIZE,
            final(self)@.drop_last() == old(self)@,
    {
        proof {
            use_type_invariant(&*self);
        }
        let mut buffer = buffer;
        buffer.set_len(MAX_BUFFER_SIZE);
        let mut q: Vec<Buffer> = Vec::new();
        core::mem::swap(&mut q, &mut self.queue);
        q.push(buffer);
        core::mem::swap(&mut q, &mut self.queue);
    }
}

impl Default for BufferPool {
    /// An empty pool.
    fn default() -> (r: BufferPool)
        ensures
            r@ == Seq::<Buffer>::empty(),
    {
        let r = BufferPool { queue: Vec::with_capacity(1024) };
        proof {
            assert(r@ =~= Seq::<Buffer>::empty());
        }
        r
    }
}

} // verus!
