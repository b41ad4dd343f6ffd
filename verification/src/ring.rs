//! Fixed-capacity byte FIFOs used for the host TX queue and the UART buffers.
//!
//! The queue is a circular buffer: the bytes in it are modelled by the sequence
//! `view()`, oldest first. Writes append at most as many bytes as there is room for,
//! reads take bytes from the front.
use vstd::prelude::*;

verus! {

/// Position `x` of a circular buffer of `cap` slots, for `0 <= x < 2 * cap`.
pub open spec fn wrap(x: int, cap: int) -> int {
    if x < cap {
        x
    } else {
        x - cap
    }
}

/// A circular byte queue whose capacity is fixed when it is made.
pub struct ByteQueue {
    buf: Vec<u8>,
    start: usize,
    len: usize,
}

impl ByteQueue {
    /// The queue's storage invariant.
    pub closed spec fn wf(&self) -> bool {
        &&& self.buf@.len() > 0
        &&& self.start < self.buf@.len()
        &&& self.len <= self.buf@.len()
    }

    /// How many bytes the queue can hold.
    pub closed spec fn capacity(&self) -> nat {
        self.buf@.len()
    }

    /// The queued bytes, oldest first.
    pub closed spec fn view(&self) -> Seq<u8> {
        Seq::new(self.len as nat, |i: int| self.buf@[wrap(self.start + i, self.buf@.len() as int)])
    }

    /// An empty queue that holds up to `capacity` bytes.
    pub fn with_capacity(capacity: usize) -> (r: Self)
        requires
            capacity > 0,
        ensures
            r.wf(),
            r.capacity() == capacity,
            r.view() == Seq::<u8>::empty(),
    {
        let mut buf: Vec<u8> = Vec::new();
        let mut i: usize = 0;
        while i < capacity
            invariant
                i <= capacity,
                buf@.len() == i,
            decreases capacity - i,
        {
            buf.push(0);
            i = i + 1;
        }
        let r = Self { buf, start: 0, len: 0 };
        assert(r.view() =~= Seq::<u8>::empty());
        r
    }

    /// Number of queued bytes.
    pub fn len(&self) -> (r: usize)
        requires
            self.wf(),
        ensures
            r == self.view().len(),
    {
        self.len
    }

    /// Room left for more bytes.
    pub fn free(&self) -> (r: usize)
        requires
            self.wf(),
        ensures
            r == self.capacity() - self.view().len(),
    {
        self.buf.len() - self.len
    }

    /// Append as many bytes of `data` as fit; returns how many were appended.
    pub fn push_slice(&mut self, data: &[u8]) -> (n: usize)
        requires
            old(self).wf(),
        ensures
            final(self).wf(),
            final(self).capacity() == old(self).capacity(),
            n == if data@.len() < old(self).capacity() - old(self).view().len() {
                data@.len() as int
            } else {
                old(self).capacity() - old(self).view().len()
            },
            final(self).view() == old(self).view() + data@.take(n as int),
    {
        let cap = self.buf.len();
        let room = cap - self.len;
        let n = if data.len() < room {
            data.len()
        } else {
            room
        };
        let ghost old_view = self.view();
        let mut i: usize = 0;
        while i < n
            invariant
                self.buf@.len() == cap,
                cap > 0,
                self.start < cap,
                self.len + n - i <= cap,
                self.len == old_view.len() + i,
                i <= n,
                n <= data@.len(),
                self.view() == old_view + data@.take(i as int),
            decreases n - i,
        {
            let pos = if self.len < cap - self.start {
                self.start + self.len
            } else {
                self.len - (cap - self.start)
            };
            let ghost before = self.view();
            self.buf.set(pos, data[i]);
            self.len = self.len + 1;
            assert forall|k: int| 0 <= k < before.len() implies #[trigger] self.view()[k]
                == before[k] by {
                assert(wrap(self.start + k, cap as int) != pos) by {
                    assert(0 <= k < self.len - 1);
                }
            }
            assert(self.view() =~= old_view + data@.take(i + 1));
            i = i + 1;
        }
        n
    }

    /// Remove and return the oldest byte, if any.
    pub fn pop(&mut self) -> (r: Option<u8>)
        requires
            old(self).wf(),
        ensures
            final(self).wf(),
            final(self).capacity() == old(self).capacity(),
            old(self).view().len() == 0 ==> r is None && final(self).view() == old(self).view(),
            old(self).view().len() > 0 ==> r == Some(old(self).view()[0]) && final(self).view()
                == old(self).view().drop_first(),
    {
        if self.len == 0 {
            return None;
        }
        let ghost before = self.view();
        let cap = self.buf.len();
        let byte = self.buf[self.start];
        self.start = if self.start + 1 < cap {
            self.start + 1
        } else {
            0
        };
        self.len = self.len - 1;
        assert forall|k: int| 0 <= k < self.len implies #[trigger] self.view()[k] == before[k + 1] by {
        }
        assert(self.view() =~= before.drop_first());
        Some(byte)
    }

    /// Move up to `out.len()` of the oldest bytes into the front of `out`; returns
    /// how many were moved. The rest of `out` is left as it was.
    pub fn pop_slice(&mut self, out: &mut [u8]) -> (n: usize)
        requires
            old(self).wf(),
        ensures
            final(self).wf(),
            final(self).capacity() == old(self).capacity(),
            n == if old(out)@.len() < old(self).view().len() {
                old(out)@.len() as int
            } else {
                old(self).view().len() as int
            },
            final(out)@.len() == old(out)@.len(),
            final(out)@.take(n as int) == old(self).view().take(n as int),
            final(out)@.skip(n as int) == old(out)@.skip(n as int),
            final(self).view() == old(self).view().skip(n as int),
    {
        let n = if out.len() < self.len {
            out.len()
        } else {
            self.len
        };
        let ghost old_view = self.view();
        let ghost old_out = out@;
        let mut i: usize = 0;
        while i < n
            invariant
                self.wf(),
                self.capacity() == old(self).capacity(),
                i <= n,
                n <= old_out.len(),
                n <= old_view.len(),
                out@.len() == old_out.len(),
                self.view() == old_view.skip(i as int),
                forall|k: int| 0 <= k < i ==> #[trigger] out@[k] == old_view[k],
                forall|k: int| i <= k < out@.len() ==> #[trigger] out@[k] == old_out[k],
            decreases n - i,
        {
            let b = self.pop();
            match b {
                Some(byte) => {
                    out[i] = byte;
                },
                None => {},
            }
            assert(self.view() =~= old_view.skip(i + 1));
            i = i + 1;
        }
        assert(out@.take(n as int) =~= old_view.take(n as int));
        assert(out@.skip(n as int) =~= old_out.skip(n as int));
        n
    }

    /// Copy up to `out.len()` of the oldest bytes into the front of `out` without
    /// removing them; returns how many were copied.
    pub fn peek_slice(&self, out: &mut [u8]) -> (n: usize)
        requires
            self.wf(),
        ensures
            n == if old(out)@.len() < self.view().len() {
                old(out)@.len() as int
            } else {
                self.view().len() as int
            },
            final(out)@.len() == old(out)@.len(),
            final(out)@.take(n as int) == self.view().take(n as int),
            final(out)@.skip(n as int) == old(out)@.skip(n as int),
    {
        let n = if out.len() < self.len {
            out.len()
        } else {
            self.len
        };
        let cap = self.buf.len();
        let ghost old_out = out@;
        let mut i: usize = 0;
        while i < n
            invariant
                self.wf(),
                cap == self.buf@.len(),
                i <= n,
                n <= old_out.len(),
                n <= self.view().len(),
                out@.len() == old_out.len(),
                forall|k: int| 0 <= k < i ==> #[trigger] out@[k] == self.view()[k],
                forall|k: int| i <= k < out@.len() ==> #[trigger] out@[k] == old_out[k],
            decreases n - i,
        {
            let pos = if i < cap - self.start {
                self.start + i
            } else {
                i - (cap - self.start)
            };
            out[i] = self.buf[pos];
            i = i + 1;
        }
        assert(out@.take(n as int) =~= self.view().take(n as int));
        assert(out@.skip(n as int) =~= old_out.skip(n as int));
        n
    }

    /// Drop the `k` oldest bytes.
    pub fn discard(&mut self, k: usize)
        requires
            old(self).wf(),
            k <= old(self).view().len(),
        ensures
            final(self).wf(),
            final(self).capacity() == old(self).capacity(),
            final(self).view() == old(self).view().skip(k as int),
    {
        let ghost old_view = self.view();
        let mut i: usize = 0;
        while i < k
            invariant
                self.wf(),
                self.capacity() == old(self).capacity(),
                i <= k,
                k <= old_view.len(),
                self.view() == old_view.skip(i as int),
            decreases k - i,
        {
            self.pop();
            assert(self.view() =~= old_view.skip(i + 1));
            i = i + 1;
        }
    }

    /// Drop every queued byte.
    pub fn clear(&mut self)
        requires
            old(self).wf(),
        ensures
            final(self).wf(),
            final(self).capacity() == old(self).capacity(),
            final(self).view() == Seq::<u8>::empty(),
    {
        self.len = 0;
        assert(self.view() =~= Seq::<u8>::empty());
    }
}


/// Host TX queue size
pub const TX_QUEUE_SIZE: usize = 2048;

/// The overflow counter after one more overflow: a 16-bit counter that wraps.
pub open spec fn bumped(count: u16) -> u16 {
    if count == u16::MAX {
        0
    } else {
        (count + 1) as u16
    }
}

/// The number of bytes a write of `len` bytes stores when `free` bytes are free.
pub open spec fn stored(len: int, free: int) -> int {
    if len < free {
        len
    } else {
        free
    }
}

/// Host TX queue: a FIFO of `TX_QUEUE_SIZE` bytes that counts refused writes.
pub struct RingBuffer {
    queue: ByteQueue,
    overflow_count: u16,
}

impl RingBuffer {
    /// The queue's invariant.
    pub closed spec fn wf(&self) -> bool {
        self.queue.wf() && self.queue.capacity() == TX_QUEUE_SIZE
    }

    /// The queued bytes, oldest first.
    pub closed spec fn view(&self) -> Seq<u8> {
        self.queue.view()
    }

    /// How many writes stored nothing (modulo 65536).
    pub closed spec fn overflows(&self) -> u16 {
        self.overflow_count
    }

    /// An empty queue.
    pub fn new() -> (r: Self)
        ensures
            r.wf(),
            r.view() == Seq::<u8>::empty(),
            r.overflows() == 0,
    {
        Self { queue: ByteQueue::with_capacity(TX_QUEUE_SIZE), overflow_count: 0 }
    }

    /// Append as much of `data` as fits, returning the number of bytes stored.
    /// A write that stores nothing counts as an overflow.
    pub fn write(&mut self, data: &[u8]) -> (n: usize)
        requires
            old(self).wf(),
        ensures
            final(self).wf(),
            n == stored(data@.len() as int, TX_QUEUE_SIZE - old(self).view().len()),
            final(self).view() == old(self).view() + data@.take(n as int),
            final(self).overflows() == if n == 0 {
                bumped(old(self).overflows())
            } else {
                old(self).overflows()
            },
    {
        let n = self.queue.push_slice(data);
        if n == 0 {
            self.overflow_count = self.overflow_count.wrapping_add(1);
        }
        n
    }

    /// Move up to `buf.len()` of the oldest bytes into `buf`, returning how many.
    pub fn read(&mut self, buf: &mut [u8]) -> (n: usize)
        requires
            old(self).wf(),
        ensures
            final(self).wf(),
            final(self).overflows() == old(self).overflows(),
            n == stored(old(buf)@.len() as int, old(self).view().len() as int),
            final(buf)@.len() == old(buf)@.len(),
            final(buf)@.take(n as int) == old(self).view().take(n as int),
            final(buf)@.skip(n as int) == old(buf)@.skip(n as int),
            final(self).view() == old(self).view().skip(n as int),
    {
        self.queue.pop_slice(buf)
    }

    /// Number of queued bytes.
    pub fn available(&self) -> (r: usize)
        requires
            self.wf(),
        ensures
            r == self.view().len(),
    {
        self.queue.len()
    }

    /// Room left in the queue.
    pub fn free_space(&self) -> (r: usize)
        requires
            self.wf(),
        ensures
            r == TX_QUEUE_SIZE - self.view().len(),
    {
        self.queue.free()
    }

    /// Number of refused writes (wraps at 65536).
    pub fn overflow_count(&self) -> (r: u16)
        ensures
            r == self.overflows(),
    {
        self.overflow_count
    }

    /// Discard every queued byte.
    pub fn clear(&mut self)
        requires
            old(self).wf(),
        ensures
            final(self).wf(),
            final(self).view() == Seq::<u8>::empty(),
            final(self).overflows() == old(self).overflows(),
    {
        self.queue.clear();
    }
}

/// Read queued bytes into `buf`; returns the number read.
pub fn dequeue_bytes(queue: &mut RingBuffer, buf: &mut [u8]) -> (n: usize)
    requires
        old(queue).wf(),
    ensures
        final(queue).wf(),
        n == stored(old(buf)@.len() as int, old(queue).view().len() as int),
        final(buf)@.len() == old(buf)@.len(),
        final(buf)@.take(n as int) == old(queue).view().take(n as int),
        final(buf)@.skip(n as int) == old(buf)@.skip(n as int),
        final(queue).view() == old(queue).view().skip(n as int),
        final(queue).overflows() == old(queue).overflows(),
{
    queue.read(buf)
}

/// Queue status: (bytes queued, bytes free, overflow count).
pub fn queue_status(queue: &RingBuffer) -> (r: (usize, usize, u16))
    requires
        queue.wf(),
    ensures
        r.0 == queue.view().len(),
        r.1 == TX_QUEUE_SIZE - queue.view().len(),
        r.2 == queue.overflows(),
{
    (queue.available(), queue.free_space(), queue.overflow_count())
}

/// UART ring buffer holding up to `N` bytes.
pub struct UartRingBuffer<const N: usize> {
    queue: ByteQueue,
}

impl<const N: usize> UartRingBuffer<N> {
    /// The buffer's invariant.
    pub closed spec fn wf(&self) -> bool {
        self.queue.wf() && self.queue.capacity() == N
    }

    /// The buffered bytes, oldest first.
    pub closed spec fn view(&self) -> Seq<u8> {
        self.queue.view()
    }

    /// An empty buffer.
    pub fn new() -> (r: Self)
        requires
            N > 0,
        ensures
            r.wf(),
            r.view() == Seq::<u8>::empty(),
    {
        Self { queue: ByteQueue::with_capacity(N) }
    }

    /// Append as much of `data` as fits, returning the number of bytes stored.
    pub fn write(&mut self, data: &[u8]) -> (n: usize)
        requires
            old(self).wf(),
        ensures
            final(self).wf(),
            n == stored(data@.len() as int, N - old(self).view().len()),
            final(self).view() == old(self).view() + data@.take(n as int),
    {
        self.queue.push_slice(data)
    }

    /// Take the oldest byte, if any.
    pub fn read_byte(&mut self) -> (r: Option<u8>)
        requires
            old(self).wf(),
        ensures
            final(self).wf(),
            old(self).view().len() == 0 ==> r is None && final(self).view() == old(self).view(),
            old(self).view().len() > 0 ==> r == Some(old(self).view()[0]) && final(self).view()
                == old(self).view().drop_first(),
    {
        self.queue.pop()
    }

    /// Copy up to `out.len()` of the oldest bytes into `out` without removing them.
    pub fn peek(&self, out: &mut [u8]) -> (n: usize)
        requires
            self.wf(),
        ensures
            n == stored(old(out)@.len() as int, self.view().len() as int),
            final(out)@.len() == old(out)@.len(),
            final(out)@.take(n as int) == self.view().take(n as int),
            final(out)@.skip(n as int) == old(out)@.skip(n as int),
    {
        self.queue.peek_slice(out)
    }

    /// Drop the `k` oldest bytes.
    pub fn discard(&mut self, k: usize)
        requires
            old(self).wf(),
            k <= old(self).view().len(),
        ensures
            final(self).wf(),
            final(self).view() == old(self).view().skip(k as int),
    {
        self.queue.discard(k)
    }

    /// Number of buffered bytes.
    pub fn available(&self) -> (r: usize)
        requires
            self.wf(),
        ensures
            r == self.view().len(),
    {
        self.queue.len()
    }
}

/// UART2 TX ring buffer size
pub const UART_TX_BUF_SIZE: usize = 2048;
/// UART1 TX ring buffer size
pub const UART1_TX_BUF_SIZE: usize = 1024;
/// UART RX ring buffer size
pub const UART_RX_BUF_SIZE: usize = 512;

/// Queue bytes for UART2 transmission; returns the number queued.
pub fn enqueue_tx(tx: &mut UartRingBuffer<UART_TX_BUF_SIZE>, data: &[u8]) -> (n: usize)
    requires
        old(tx).wf(),
    ensures
        final(tx).wf(),
        n == stored(data@.len() as int, UART_TX_BUF_SIZE - old(tx).view().len()),
        final(tx).view() == old(tx).view() + data@.take(n as int),
{
    tx.write(data)
}

/// Queue bytes for UART1 (servo bus) transmission; returns the number queued.
pub fn uart1_enqueue_tx(tx: &mut UartRingBuffer<UART1_TX_BUF_SIZE>, data: &[u8]) -> (n: usize)
    requires
        old(tx).wf(),
    ensures
        final(tx).wf(),
        n == stored(data@.len() as int, UART1_TX_BUF_SIZE - old(tx).view().len()),
        final(tx).view() == old(tx).view() + data@.take(n as int),
{
    tx.write(data)
}

/// Whether UART1 still has bytes to send or a transmission in progress.
pub fn uart1_tx_pending(tx: &UartRingBuffer<UART1_TX_BUF_SIZE>, tx_active: bool) -> (r: bool)
    requires
        tx.wf(),
    ensures
        r == (tx.view().len() > 0 || tx_active),
{
    tx.available() > 0 || tx_active
}

/// Move the bytes buffered from UART1 into `buf`, oldest first, until either runs
/// out; returns the number moved.
pub fn uart1_read_rx(rx: &mut UartRingBuffer<UART_RX_BUF_SIZE>, buf: &mut [u8]) -> (count: usize)
    requires
        old(rx).wf(),
    ensures
        final(rx).wf(),
        count == stored(old(buf)@.len() as int, old(rx).view().len() as int),
        final(buf)@.len() == old(buf)@.len(),
        final(buf)@.take(count as int) == old(rx).view().take(count as int),
        final(buf)@.skip(count as int) == old(buf)@.skip(count as int),
        final(rx).view() == old(rx).view().skip(count as int),
{
    let ghost old_view = rx.view();
    let ghost old_buf = buf@;
    let mut count: usize = 0;
    while count < buf.len()
        invariant_except_break
            rx.wf(),
            count <= buf@.len(),
            count <= old_view.len(),
            buf@.len() == old_buf.len(),
            rx.view() == old_view.skip(count as int),
            forall|k: int| 0 <= k < count ==> #[trigger] buf@[k] == old_view[k],
            forall|k: int| count <= k < buf@.len() ==> #[trigger] buf@[k] == old_buf[k],
        ensures
            rx.wf(),
            count == stored(old_buf.len() as int, old_view.len() as int),
            buf@.len() == old_buf.len(),
            rx.view() == old_view.skip(count as int),
            forall|k: int| 0 <= k < count ==> #[trigger] buf@[k] == old_view[k],
            forall|k: int| count <= k < buf@.len() ==> #[trigger] buf@[k] == old_buf[k],
        decreases buf@.len() - count,
    {
        match rx.read_byte() {
            Some(b) => {
                buf[count] = b;
                assert(rx.view() =~= old_view.skip(count + 1));
                count = count + 1;
            },
            None => {
                break;
            },
        }
    }
    assert(buf@.take(count as int) =~= old_view.take(count as int));
    assert(buf@.skip(count as int) =~= old_buf.skip(count as int));
    count
}

/// First in, first out: after a write that stored `n` bytes of `data` into a queue
/// holding `s`, reading `s.len() + k` bytes (`k <= n`) yields `s` followed by the first
/// `k` bytes of `data`, and leaves the remaining `n - k` written bytes queued in order.
pub proof fn lemma_fifo_order(s: Seq<u8>, data: Seq<u8>, n: int, k: int)
    requires
        0 <= k <= n <= data.len(),
    ensures
        (s + data.take(n)).take(s.len() + k) == s + data.take(k),
        (s + data.take(n)).skip(s.len() + k) == data.take(n).skip(k),
{
    assert((s + data.take(n)).take(s.len() + k) =~= s + data.take(k));
    assert((s + data.take(n)).skip(s.len() + k) =~= data.take(n).skip(k));
}

} // verus!
