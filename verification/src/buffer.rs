//! Request buffers and the pool that recycles them.
//!
//! Each request is read into one buffer big enough for the largest
//! frame the kernel may send: the advertised maximum write body plus
//! header slack. A buffer records its storage alignment — the real
//! allocation at the process boundary honours it — and a logical
//! length, the bytes the last read filled. The pool is a bounded stack
//! of idle buffers — the storage lives in a lock-free bounded queue —
//! and acquiring pops one or makes a fresh zeroed one, while releasing
//! pushes the buffer back exactly when its dimensions still match the
//! pool's and there is room.

use vstd::multiset::Multiset;
use vstd::prelude::*;

verus! {

#[verifier::external_type_specification]
#[verifier::external_body]
#[verifier::reject_recursive_types(T)]
pub struct ExArrayQueue<T>(crossbeam_queue::ArrayQueue<T>);

/// What the idle-storage queue holds: the multiset of its byte runs.
pub uninterp spec fn queue_contents(q: crossbeam_queue::ArrayQueue<Vec<u8>>) -> Multiset<Seq<u8>>;

/// The bound the idle-storage queue was created with.
pub uninterp spec fn queue_capacity(q: crossbeam_queue::ArrayQueue<Vec<u8>>) -> nat;

/// Relies on `crossbeam_queue::ArrayQueue::new`: a fresh empty queue
/// with the given capacity. It panics on a zero capacity, or when no
/// power of two above the capacity exists; both are left out here.
#[verifier::external_body]
fn queue_new(cap: usize) -> (q: crossbeam_queue::ArrayQueue<Vec<u8>>)
    requires
        0 < cap <= usize::MAX / 4,
    ensures
        queue_contents(q) == Multiset::<Seq<u8>>::empty(),
        queue_capacity(q) == cap,
{
    crossbeam_queue::ArrayQueue::new(cap)
}

/// Relies on `crossbeam_queue::ArrayQueue::push_mut`: the element goes
/// in when the queue is not yet at its capacity, and comes back as the
/// error when it is full.
#[verifier::external_body]
fn queue_push(q: &mut crossbeam_queue::ArrayQueue<Vec<u8>>, v: Vec<u8>) -> (r: Result<
    (),
    Vec<u8>,
>)
    ensures
        queue_capacity(*final(q)) == queue_capacity(*old(q)),
        match r {
            Ok(()) => {
                &&& queue_contents(*old(q)).len() < queue_capacity(*old(q))
                &&& queue_contents(*final(q)) == queue_contents(*old(q)).insert(v@)
            },
            Err(back) => {
                &&& queue_contents(*old(q)).len() == queue_capacity(*old(q))
                &&& queue_contents(*final(q)) == queue_contents(*old(q))
                &&& back@ == v@
            },
        },
{
    q.push_mut(v)
}

/// Relies on `crossbeam_queue::ArrayQueue::pop_mut`: one of the held
/// elements comes out, or `None` exactly when the queue is empty.
#[verifier::external_body]
fn queue_pop(q: &mut crossbeam_queue::ArrayQueue<Vec<u8>>) -> (r: Option<Vec<u8>>)
    ensures
        queue_capacity(*final(q)) == queue_capacity(*old(q)),
        match r {
            Some(v) => {
                &&& queue_contents(*old(q)).count(v@) > 0
                &&& queue_contents(*final(q)) == queue_contents(*old(q)).remove(v@)
            },
            None => {
                &&& queue_contents(*old(q)).len() == 0
                &&& queue_contents(*final(q)) == queue_contents(*old(q))
            },
        },
{
    q.pop_mut()
}

/// One request buffer: owned storage with a recorded alignment and a
/// logical length of valid bytes.
#[derive(Debug)]
pub struct Buffer {
    data: Vec<u8>,
    len: usize,
    align: usize,
}

impl Buffer {
    /// The buffer's full storage.
    pub closed spec fn spec_data(&self) -> Seq<u8> {
        self.data@
    }

    /// The logical length: how many bytes the last read filled.
    pub closed spec fn spec_len(&self) -> usize {
        self.len
    }

    /// The storage alignment the buffer was allocated with.
    pub closed spec fn spec_align(&self) -> usize {
        self.align
    }

    #[verifier::type_invariant]
    spec fn len_in_capacity(self) -> bool {
        self.len <= self.data@.len()
    }

    /// A fresh zeroed buffer of `size` bytes, recorded as aligned to
    /// `align`; its logical length starts at the full size.
    pub fn new_zeroed(size: usize, align: usize) -> (b: Self)
        ensures
            b.spec_data() == Seq::new(size as nat, |i: int| 0u8),
            b.spec_len() == size,
            b.spec_align() == align,
    {
        let data: Vec<u8> = vec![0u8; size];
        proof {
            assert(data@ =~= Seq::new(size as nat, |i: int| 0u8));
        }
        Buffer { data, len: size, align }
    }

    /// The buffer's capacity: its allocation size.
    pub fn capacity(&self) -> (n: usize)
        ensures
            n == self.spec_data().len(),
    {
        self.data.len()
    }

    /// The recorded storage alignment.
    pub fn alignment(&self) -> (n: usize)
        ensures
            n == self.spec_align(),
    {
        self.align
    }

    /// Sets the logical length, after a read filled `len` bytes. A
    /// length beyond the capacity is left out.
    pub fn set_len(&mut self, len: usize)
        requires
            len <= old(self).spec_data().len(),
        ensures
            final(self).spec_data() == old(self).spec_data(),
            final(self).spec_align() == old(self).spec_align(),
            final(self).spec_len() == len,
    {
        proof {
            use_type_invariant(&*self);
        }
        self.len = len;
    }

    /// The valid bytes: the first `len` bytes of the storage.
    pub fn as_slice(&self) -> (r: &[u8])
        ensures
            r@ == self.spec_data().take(self.spec_len() as int),
    {
        proof {
            use_type_invariant(self);
        }
        vstd::slice::slice_subrange(self.data.as_slice(), 0, self.len)
    }

    /// Takes the storage out, leaving the buffer empty: how a reader
    /// borrows the allocation for the read that fills it.
    pub fn take_storage(&mut self) -> (r: Vec<u8>)
        ensures
            r@ == old(self).spec_data(),
            final(self).spec_data().len() == 0,
            final(self).spec_len() == 0,
            final(self).spec_align() == old(self).spec_align(),
    {
        proof {
            use_type_invariant(&*self);
        }
        self.len = 0;
        let mut data: Vec<u8> = Vec::new();
        core::mem::swap(&mut data, &mut self.data);
        data
    }

    /// Puts storage back after a read filled its first `len` bytes. A
    /// length beyond the storage is left out.
    pub fn put_storage(&mut self, data: Vec<u8>, len: usize)
        requires
            len <= data@.len(),
        ensures
            final(self).spec_data() == data@,
            final(self).spec_len() == len,
            final(self).spec_align() == old(self).spec_align(),
    {
        proof {
            use_type_invariant(&*self);
        }
        self.len = 0;
        self.data = data;
        self.len = len;
    }
}

/// A bounded pool of idle request buffers, recycled across requests;
/// the idle storage sits in a lock-free bounded queue.
#[derive(Debug)]
pub struct BufferPool {
    queue: crossbeam_queue::ArrayQueue<Vec<u8>>,
    cap: usize,
    buf_size: usize,
    align: usize,
}

impl BufferPool {
    /// How many buffers are waiting in the pool.
    pub closed spec fn spec_pooled(&self) -> nat {
        queue_contents(self.queue).len()
    }

    /// The pool's capacity: the most buffers it keeps.
    pub closed spec fn spec_cap(&self) -> usize {
        self.cap
    }

    /// The size every pooled buffer has.
    pub closed spec fn spec_buf_size(&self) -> usize {
        self.buf_size
    }

    /// The alignment every pooled buffer has.
    pub closed spec fn spec_align(&self) -> usize {
        self.align
    }

    /// The pool is sound: its queue was made with the pool's capacity
    /// and holds only storage of the pool's buffer size.
    pub closed spec fn wf(&self) -> bool {
        &&& queue_capacity(self.queue) == self.cap
        &&& forall|s: Seq<u8>|
            #[trigger] queue_contents(self.queue).count(s) > 0 ==> s.len() == self.buf_size
    }

    /// An empty pool that keeps up to `cap` buffers of `buf_size`
    /// bytes, aligned to `align`. A zero capacity, or one so large no
    /// power of two lies above it, is left out.
    pub fn new(cap: usize, buf_size: usize, align: usize) -> (p: Self)
        requires
            0 < cap <= usize::MAX / 4,
        ensures
            p.wf(),
            p.spec_pooled() == 0,
            p.spec_cap() == cap,
            p.spec_buf_size() == buf_size,
            p.spec_align() == align,
    {
        BufferPool { queue: queue_new(cap), cap, buf_size, align }
    }

    /// A fresh zeroed buffer with the pool's dimensions.
    pub fn create(&self) -> (b: Buffer)
        ensures
            b.spec_data() == Seq::new(self.spec_buf_size() as nat, |i: int| 0u8),
            b.spec_len() == self.spec_buf_size(),
            b.spec_align() == self.spec_align(),
    {
        Buffer::new_zeroed(self.buf_size, self.align)
    }

    /// A buffer with the pool's dimensions and its logical length reset
    /// to the full capacity: a recycled one when any is waiting — the
    /// pool then shrinks by one — or a fresh zeroed one.
    pub fn acquire(&mut self) -> (b: Buffer)
        requires
            old(self).wf(),
        ensures
            final(self).wf(),
            b.spec_data().len() == final(self).spec_buf_size(),
            b.spec_len() == b.spec_data().len(),
            b.spec_align() == final(self).spec_align(),
            final(self).spec_cap() == old(self).spec_cap(),
            final(self).spec_buf_size() == old(self).spec_buf_size(),
            final(self).spec_align() == old(self).spec_align(),
            old(self).spec_pooled() > 0 ==> final(self).spec_pooled() == old(self).spec_pooled()
                - 1,
            old(self).spec_pooled() == 0 ==> {
                &&& final(self).spec_pooled() == 0
                &&& b.spec_data() == Seq::new(old(self).spec_buf_size() as nat, |i: int| 0u8)
            },
    {
        match queue_pop(&mut self.queue) {
            Some(storage) => {
                proof {
                    assert(queue_contents(old(self).queue).count(storage@) > 0);
                }
                let len: usize = storage.len();
                Buffer { data: storage, len, align: self.align }
            },
            None => Buffer::new_zeroed(self.buf_size, self.align),
        }
    }

    /// Returns a buffer's storage to the pool. It is kept exactly when
    /// the buffer's dimensions match the pool's and the pool has room;
    /// otherwise it is dropped.
    pub fn release(&mut self, buf: Buffer)
        requires
            old(self).wf(),
        ensures
            final(self).wf(),
            final(self).spec_cap() == old(self).spec_cap(),
            final(self).spec_buf_size() == old(self).spec_buf_size(),
            final(self).spec_align() == old(self).spec_align(),
            final(self).spec_pooled() == if buf.spec_data().len() == old(self).spec_buf_size()
                && buf.spec_align() == old(self).spec_align() && old(self).spec_pooled() < old(
                self,
            ).spec_cap() {
                old(self).spec_pooled() + 1
            } else {
                old(self).spec_pooled()
            },
    {
        let keep = buf.capacity() == self.buf_size && buf.alignment() == self.align;
        if keep {
            let mut buf = buf;
            let storage = buf.take_storage();
            let r = queue_push(&mut self.queue, storage);
            proof {
                if r is Ok {
                    assert forall|s: Seq<u8>|
                        #[trigger] queue_contents(self.queue).count(s) > 0 implies s.len()
                        == self.buf_size by {
                        if s != storage@ {
                            assert(queue_contents(old(self).queue).count(s) > 0);
                        }
                    }
                }
            }
        }
    }
}

} // verus!
