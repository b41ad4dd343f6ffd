//! Host protocol framing.
//!
//! Frame layout: `[HEAD:1][TYPE:1][LEN:2 LE][PAYLOAD:LEN][CRC:2 LE]` with `HEAD = 0xAA`.
//! The check code is CRC-16/CCITT (polynomial 0x1021, initial value 0xFFFF, no
//! reflection) over TYPE, LEN and PAYLOAD.
use vstd::prelude::*;
use crate::bytes::le16;
use crate::ring::{stored, RingBuffer, UartRingBuffer, TX_QUEUE_SIZE, UART_RX_BUF_SIZE};

verus! {

/// Frame start byte.
pub const FRAME_HEAD: u8 = 0xAA;
/// Bytes before the payload: HEAD, TYPE and LEN.
pub const FRAME_HEADER_SIZE: usize = 4;
/// Bytes of the trailing check code.
pub const FRAME_CRC_SIZE: usize = 2;
/// TX buffer size
pub const TX_BUF_SIZE: usize = 512;
/// RX buffer size
pub const RX_BUF_SIZE: usize = 512;

/// One bit step of CRC-16/CCITT (polynomial 0x1021, most significant bit first).
pub open spec fn crc16_shift(crc: u16) -> u16 {
    if crc & 0x8000 != 0 {
        ((crc << 1u16) ^ 0x1021u16) as u16
    } else {
        (crc << 1u16) as u16
    }
}

/// `k` bit steps of CRC-16/CCITT.
pub open spec fn crc16_shifts(crc: u16, k: nat) -> u16
    decreases k,
{
    if k == 0 {
        crc
    } else {
        crc16_shifts(crc16_shift(crc), (k - 1) as nat)
    }
}

/// The CRC-16/CCITT register after taking in one more byte.
pub open spec fn crc16_byte(crc: u16, b: u8) -> u16 {
    crc16_shifts(crc ^ ((b as u16) << 8u16), 8)
}

/// CRC-16/CCITT of a byte sequence (initial value 0xFFFF, no final XOR).
pub open spec fn crc16(s: Seq<u8>) -> u16
    decreases s.len(),
{
    if s.len() == 0 {
        0xFFFF
    } else {
        crc16_byte(crc16(s.drop_last()), s.last())
    }
}

/// Compute CRC-16/CCITT over `data`.
pub fn crc16_ccitt(data: &[u8]) -> (r: u16)
    ensures
        r == crc16(data@),
{
    let mut crc: u16 = 0xFFFF;
    let mut i: usize = 0;
    while i < data.len()
        invariant
            i <= data@.len(),
            crc == crc16(data@.take(i as int)),
        decreases data@.len() - i,
    {
        let ghost before = crc;
        crc = crc ^ ((data[i] as u16) << 8u16);
        let mut k: usize = 0;
        while k < 8
            invariant
                k <= 8,
                crc16_shifts(crc, (8 - k) as nat) == crc16_byte(before, data@[i as int]),
            decreases 8 - k,
        {
            if crc & 0x8000 != 0 {
                crc = (crc << 1u16) ^ 0x1021;
            } else {
                crc = crc << 1u16;
            }
            k = k + 1;
        }
        assert(data@.take(i + 1).drop_last() =~= data@.take(i as int));
        i = i + 1;
    }
    assert(data@.take(data@.len() as int) =~= data@);
    crc
}

/// A raw protocol frame: its type byte and payload.
#[derive(Debug, PartialEq, Eq)]
pub struct RawFrame {
    pub frame_type: u8,
    pub payload: Vec<u8>,
}

/// Decoding error
#[derive(Debug, Clone, Copy, PartialEq, Eq, Structural)]
pub enum DecodeError {
    /// No frame head byte in the buffer
    NoHeader,
    /// The frame is not complete yet
    Incomplete,
    /// The check code does not match
    CrcMismatch { expected: u16, got: u16 },
}

/// The bytes that the check code covers: TYPE, LEN (low byte first) and PAYLOAD.
pub open spec fn checked_part(frame_type: u8, len: u16, payload: Seq<u8>) -> Seq<u8> {
    seq![frame_type, (len % 256) as u8, (len / 256) as u8] + payload
}

/// The encoding of a frame. LEN holds the payload length modulo 65536.
pub open spec fn frame_bytes(frame_type: u8, payload: Seq<u8>) -> Seq<u8> {
    let len = (payload.len() % 65536) as u16;
    let crc = crc16(checked_part(frame_type, len, payload));
    seq![FRAME_HEAD] + checked_part(frame_type, len, payload) + seq![
        (crc % 256) as u8,
        (crc / 256) as u8,
    ]
}

/// Encode a raw protocol frame into `buf`; returns the frame length, or 0 (leaving
/// `buf` untouched) when the frame does not fit.
pub fn encode_frame(frame: &RawFrame, buf: &mut [u8]) -> (n: usize)
    ensures
        final(buf)@.len() == old(buf)@.len(),
        frame.payload@.len() + 6 > old(buf)@.len() ==> n == 0 && final(buf)@ == old(buf)@,
        frame.payload@.len() + 6 <= old(buf)@.len() ==> {
            &&& n == frame.payload@.len() + 6
            &&& final(buf)@.take(n as int) == frame_bytes(frame.frame_type, frame.payload@)
            &&& final(buf)@.skip(n as int) == old(buf)@.skip(n as int)
        },
{
    let payload_len = frame.payload.len();
    if payload_len > buf.len() || buf.len() - payload_len < FRAME_HEADER_SIZE + FRAME_CRC_SIZE {
        return 0;
    }
    let total_len = FRAME_HEADER_SIZE + payload_len + FRAME_CRC_SIZE;
    let ghost old_buf = buf@;
    let len16: u16 = (payload_len % 65536) as u16;
    buf[0] = FRAME_HEAD;
    buf[1] = frame.frame_type;
    buf[2] = (len16 % 256) as u8;
    buf[3] = (len16 / 256) as u8;
    let mut i: usize = 0;
    while i < payload_len
        invariant
            payload_len == frame.payload@.len(),
            total_len == payload_len + 6,
            total_len <= buf@.len(),
            buf@.len() == old_buf.len(),
            i <= payload_len,
            buf@[0] == FRAME_HEAD,
            buf@[1] == frame.frame_type,
            buf@[2] == (len16 % 256) as u8,
            buf@[3] == (len16 / 256) as u8,
            forall|k: int| 0 <= k < i ==> #[trigger] buf@[4 + k] == frame.payload@[k],
            forall|k: int| total_len <= k < buf@.len() ==> #[trigger] buf@[k] == old_buf[k],
        decreases payload_len - i,
    {
        buf[4 + i] = frame.payload[i];
        i = i + 1;
    }
    let ghost covered = checked_part(frame.frame_type, len16, frame.payload@);
    assert forall|j: int| 3 <= j < covered.len() implies buf@.subrange(
        1,
        4 + payload_len as int,
    )[j] == covered[j] by {
        assert(buf@[4 + (j - 3)] == frame.payload@[j - 3]);
    }
    assert(buf@.subrange(1, 4 + payload_len as int) =~= covered);
    let crc = crc16_ccitt(&buf[1..4 + payload_len]);
    buf[4 + payload_len] = (crc % 256) as u8;
    buf[5 + payload_len] = (crc / 256) as u8;
    assert(buf@.take(total_len as int) =~= frame_bytes(frame.frame_type, frame.payload@));
    assert(buf@.skip(total_len as int) =~= old_buf.skip(total_len as int));
    total_len
}

/// `h` is the position of the first frame head byte of `s`.
pub open spec fn first_head(s: Seq<u8>, h: int) -> bool {
    &&& 0 <= h < s.len()
    &&& s[h] == FRAME_HEAD
    &&& forall|j: int| 0 <= j < h ==> s[j] != FRAME_HEAD
}

/// `s` holds no frame head byte.
pub open spec fn no_head(s: Seq<u8>) -> bool {
    forall|j: int| 0 <= j < s.len() ==> s[j] != FRAME_HEAD
}

/// The payload length that the LEN field at head position `h` announces.
pub open spec fn announced_len(s: Seq<u8>, h: int) -> int {
    le16(s[h + 2], s[h + 3])
}

/// What decoding `s` gives when its first head byte is at `h`:
/// the frame type, the payload and the number of bytes consumed, or the error.
pub open spec fn decode_at(s: Seq<u8>, h: int) -> Result<(u8, Seq<u8>, int), DecodeError> {
    if s.len() - h < 4 {
        Err(DecodeError::Incomplete)
    } else if s.len() - h < 6 + announced_len(s, h) {
        Err(DecodeError::Incomplete)
    } else {
        let len = announced_len(s, h);
        let expected = crc16(s.subrange(h + 1, h + 4 + len));
        let got = le16(s[h + 4 + len], s[h + 5 + len]) as u16;
        if got != expected {
            Err(DecodeError::CrcMismatch { expected, got })
        } else {
            Ok((s[h + 1], s.subrange(h + 4, h + 4 + len), h + 6 + len))
        }
    }
}

/// Try to decode one frame from the receive buffer.
///
/// Returns `Ok((frame, consumed_bytes))` or the reason no frame could be taken.
pub fn try_decode_frame(buf: &[u8]) -> (r: Result<(RawFrame, usize), DecodeError>)
    ensures
        no_head(buf@) ==> r == Err::<(RawFrame, usize), DecodeError>(DecodeError::NoHeader),
        r matches Ok((_, n)) ==> 0 < n <= buf@.len(),
        forall|h: int|
            first_head(buf@, h) ==> match decode_at(buf@, h) {
                Ok((ft, payload, consumed)) => r matches Ok((f, n)) && f.frame_type == ft
                    && f.payload@ == payload && n == consumed,
                Err(e) => r == Err::<(RawFrame, usize), DecodeError>(e),
            },
{
    let mut header_pos: usize = 0;
    while header_pos < buf.len() && buf[header_pos] != FRAME_HEAD
        invariant
            header_pos <= buf@.len(),
            forall|j: int| 0 <= j < header_pos ==> buf@[j] != FRAME_HEAD,
        decreases buf@.len() - header_pos,
    {
        header_pos = header_pos + 1;
    }
    if header_pos == buf.len() {
        return Err(DecodeError::NoHeader);
    }
    let ghost h = header_pos as int;
    assert(first_head(buf@, h));
    assert(forall|g: int| first_head(buf@, g) ==> g == h);
    if buf.len() - header_pos < FRAME_HEADER_SIZE {
        return Err(DecodeError::Incomplete);
    }
    let frame_type = buf[header_pos + 1];
    let payload_len = (buf[header_pos + 2] as usize) + (buf[header_pos + 3] as usize) * 256;
    if buf.len() - header_pos - FRAME_HEADER_SIZE < payload_len + FRAME_CRC_SIZE {
        return Err(DecodeError::Incomplete);
    }
    let payload_start = header_pos + FRAME_HEADER_SIZE;
    let payload_end = payload_start + payload_len;
    let mut payload: Vec<u8> = Vec::new();
    let mut i: usize = payload_start;
    while i < payload_end
        invariant
            payload_start <= i <= payload_end,
            payload_end < buf@.len(),
            payload@ == buf@.subrange(payload_start as int, i as int),
        decreases payload_end - i,
    {
        payload.push(buf[i]);
        assert(payload@ =~= buf@.subrange(payload_start as int, i + 1));
        i = i + 1;
    }
    let received_crc = (buf[payload_end] as u16) + (buf[payload_end + 1] as u16) * 256;
    let calculated_crc = crc16_ccitt(&buf[header_pos + 1..payload_end]);
    if received_crc != calculated_crc {
        return Err(DecodeError::CrcMismatch { expected: calculated_crc, got: received_crc });
    }
    Ok((RawFrame { frame_type, payload }, payload_end + FRAME_CRC_SIZE))
}

/// What stays in the receive buffer after one receive step, and the frame taken
/// from it, given the window `s` of received bytes (the buffered bytes, then the
/// new ones that fit).
pub open spec fn receive_outcome(s: Seq<u8>, kept: Seq<u8>, got: Option<(u8, Seq<u8>)>) -> bool {
    &&& s.len() == 0 ==> kept == s && got is None
    &&& s.len() > 0 && no_head(s) ==> kept == Seq::<u8>::empty() && got is None
    &&& forall|h: int|
        s.len() > 0 && first_head(s, h) ==> match decode_at(s, h) {
            Ok((ft, payload, consumed)) => kept == s.skip(consumed) && got == Some((ft, payload)),
            Err(DecodeError::Incomplete) => kept == s && got is None,
            Err(DecodeError::CrcMismatch { .. }) => kept == s.skip(1) && got is None,
            Err(DecodeError::NoHeader) => got is None,
        }
}

/// Move `buf[from..end]` to the start of `buf`.
fn shift_left(buf: &mut [u8], from: usize, end: usize)
    requires
        from <= end <= old(buf)@.len(),
    ensures
        final(buf)@.len() == old(buf)@.len(),
        final(buf)@.take((end - from) as int) == old(buf)@.subrange(from as int, end as int),
{
    let ghost orig = buf@;
    let mut k: usize = 0;
    while k < end - from
        invariant
            from <= end <= buf@.len(),
            buf@.len() == orig.len(),
            k <= end - from,
            forall|j: int| 0 <= j < k ==> #[trigger] buf@[j] == orig[from + j],
            forall|j: int| from + k <= j < orig.len() ==> #[trigger] buf@[j] == orig[j],
        decreases end - from - k,
    {
        buf[k] = buf[from + k];
        k = k + 1;
    }
    assert(buf@.take((end - from) as int) =~= orig.subrange(from as int, end as int));
}

/// One receive step of the frame channel: append the newly received bytes that fit
/// after the `rx_pos` bytes already buffered, then try to take one frame from the
/// buffer. A decoded frame is returned and its bytes (with any noise before it)
/// dropped; a buffer with no head byte is emptied; an incomplete frame is kept; a
/// check-code mismatch drops the first byte so that the search moves on.
pub fn try_receive_frame(rx_buf: &mut [u8], rx_pos: &mut usize, incoming: &[u8]) -> (r: Option<
    RawFrame,
>)
    requires
        *old(rx_pos) <= old(rx_buf)@.len(),
    ensures
        final(rx_buf)@.len() == old(rx_buf)@.len(),
        ({
            let room = old(rx_buf)@.len() - *old(rx_pos);
            let fit = if incoming@.len() < room { incoming@.len() as int } else { room };
            let s = old(rx_buf)@.take(*old(rx_pos) as int) + incoming@.take(fit);
            let got = match r {
                Some(f) => Some((f.frame_type, f.payload@)),
                None => None,
            };
            &&& *final(rx_pos) <= final(rx_buf)@.len()
            &&& receive_outcome(s, final(rx_buf)@.take(*final(rx_pos) as int), got)
        }),
{
    let ghost old_buf = rx_buf@;
    let ghost old_pos = *rx_pos as int;
    let len = rx_buf.len();
    let room = len - *rx_pos;
    let to_copy = if incoming.len() < room { incoming.len() } else { room };
    let mut i: usize = 0;
    while i < to_copy
        invariant
            *rx_pos == old_pos,
            old_pos + to_copy <= len,
            rx_buf@.len() == len,
            len == old_buf.len(),
            to_copy <= incoming@.len(),
            i <= to_copy,
            forall|j: int| 0 <= j < old_pos ==> #[trigger] rx_buf@[j] == old_buf[j],
            forall|j: int| old_pos <= j < old_pos + i ==> #[trigger] rx_buf@[j] == incoming@[j - old_pos],
        decreases to_copy - i,
    {
        rx_buf[*rx_pos + i] = incoming[i];
        i = i + 1;
    }
    let p = *rx_pos + to_copy;
    *rx_pos = p;
    let ghost s = old_buf.take(old_pos) + incoming@.take(to_copy as int);
    assert(rx_buf@.take(p as int) =~= s);
    if p == 0 {
        return None;
    }
    let decoded = try_decode_frame(&rx_buf[0..p]);
    assert(rx_buf@.subrange(0, p as int) =~= s);
    match decoded {
        Ok((frame, consumed)) => {
            proof {
                assert forall|h: int| first_head(s, h) implies decode_at(s, h) matches Ok((_, _, c))
                    && c == consumed by {}
            }
            shift_left(rx_buf, consumed, p);
            *rx_pos = p - consumed;
            assert(rx_buf@.take((p - consumed) as int) =~= s.skip(consumed as int));
            Some(frame)
        },
        Err(DecodeError::NoHeader) => {
            *rx_pos = 0;
            assert(rx_buf@.take(0) =~= Seq::<u8>::empty());
            None
        },
        Err(DecodeError::Incomplete) => None,
        Err(DecodeError::CrcMismatch { .. }) => {
            shift_left(rx_buf, 1, p);
            *rx_pos = p - 1;
            assert(rx_buf@.take((p - 1) as int) =~= s.skip(1));
            None
        },
    }
}

/// Encode a frame and append it to the host TX queue; returns the number of bytes
/// queued. A frame longer than the 512-byte encode buffer queues nothing (and is
/// not counted as an overflow); otherwise as much of its encoding as fits is queued.
pub fn enqueue_frame(queue: &mut RingBuffer, frame: &RawFrame) -> (n: usize)
    requires
        old(queue).wf(),
    ensures
        final(queue).wf(),
        frame.payload@.len() + 6 > TX_BUF_SIZE ==> n == 0 && final(queue).view() == old(
            queue,
        ).view() && final(queue).overflows() == old(queue).overflows(),
        frame.payload@.len() + 6 <= TX_BUF_SIZE ==> {
            &&& n == stored(
                (frame.payload@.len() + 6) as int,
                TX_QUEUE_SIZE - old(queue).view().len(),
            )
            &&& final(queue).view() == old(queue).view() + frame_bytes(
                frame.frame_type,
                frame.payload@,
            ).take(n as int)
        },
{
    let mut buf = [0u8; TX_BUF_SIZE];
    let len = encode_frame(frame, &mut buf);
    if len > 0 {
        let n = queue.write(&buf[0..len]);
        assert(buf@.subrange(0, len as int) =~= buf@.take(len as int));
        n
    } else {
        0
    }
}

/// Index of the first head byte of `w`, or `w.len()` when there is none.
pub open spec fn head_index(w: Seq<u8>) -> int
    decreases w.len(),
{
    if w.len() == 0 {
        0
    } else if w[0] == FRAME_HEAD {
        0
    } else {
        1 + head_index(w.drop_first())
    }
}

/// `p` is the first head position of `w` (or its length when it has none).
proof fn lemma_head_index(w: Seq<u8>, p: int)
    requires
        0 <= p <= w.len(),
        forall|j: int| 0 <= j < p ==> w[j] != FRAME_HEAD,
        p < w.len() ==> w[p] == FRAME_HEAD,
    ensures
        head_index(w) == p,
    decreases p,
{
    if p > 0 {
        lemma_head_index(w.drop_first(), p - 1);
    }
}

/// What the stream scan of the UART receive buffer holding `s` takes from it: the
/// first frame it decodes, and the bytes left. Only the first 512 buffered bytes
/// are looked at. With fewer than 4 bytes nothing happens; bytes before a head
/// byte, or a window with none, are dropped; at a head byte the window is decoded:
/// a frame is taken with its bytes, and any error (an incomplete frame too) drops
/// the head byte and the scan goes on.
pub open spec fn uart_scan(s: Seq<u8>) -> (Option<(u8, Seq<u8>)>, Seq<u8>)
    decreases s.len(),
{
    if s.len() < 4 {
        (None, s)
    } else {
        let w = s.take(if s.len() < 512 { s.len() as int } else { 512 });
        let h = head_index(w);
        if h >= w.len() {
            uart_scan(s.skip(w.len() as int))
        } else if h > 0 {
            uart_scan(s.skip(h))
        } else {
            match decode_at(w, 0) {
                Ok((ft, payload, consumed)) => (Some((ft, payload)), s.skip(consumed)),
                Err(_) => uart_scan(s.skip(1)),
            }
        }
    }
}

/// Scan the UART receive buffer for one frame (see [`uart_scan`]).
pub fn uart2_try_decode_frame(rx: &mut UartRingBuffer<UART_RX_BUF_SIZE>) -> (r: Option<RawFrame>)
    requires
        old(rx).wf(),
    ensures
        final(rx).wf(),
        final(rx).view() == uart_scan(old(rx).view()).1,
        match r {
            Some(f) => uart_scan(old(rx).view()).0 == Some((f.frame_type, f.payload@)),
            None => uart_scan(old(rx).view()).0 is None,
        },
{
    loop
        invariant
            rx.wf(),
            uart_scan(rx.view()) == uart_scan(old(rx).view()),
        decreases rx.view().len(),
    {
        let available = rx.available();
        if available < 4 {
            return None;
        }
        let mut buf = [0u8; 512];
        let to_read = rx.peek(&mut buf);
        let ghost v = rx.view();
        let ghost w = v.take(to_read as int);
        assert(buf@.take(to_read as int) == w);
        let mut pos: usize = 0;
        while pos < to_read && buf[pos] != FRAME_HEAD
            invariant
                to_read <= 512,
                pos <= to_read,
                forall|j: int| 0 <= j < pos ==> buf@[j] != FRAME_HEAD,
            decreases to_read - pos,
        {
            pos = pos + 1;
        }
        proof {
            assert forall|j: int| 0 <= j < pos implies w[j] != FRAME_HEAD by {
                assert(w[j] == buf@.take(to_read as int)[j]);
            }
            if pos < to_read {
                assert(w[pos as int] == buf@.take(to_read as int)[pos as int]);
            }
            lemma_head_index(w, pos as int);
        }
        if pos == to_read {
            rx.discard(to_read);
            continue;
        }
        if pos > 0 {
            rx.discard(pos);
            continue;
        }
        let window = &buf[0..to_read];
        assert(window@ == w);
        assert(first_head(w, 0));
        match try_decode_frame(window) {
            Ok((frame, consumed)) => {
                rx.discard(consumed);
                return Some(frame);
            },
            Err(_) => {
                rx.discard(1);
            },
        }
    }
}

/// Decoding an encoded frame gives the frame back, whatever bytes without a head
/// byte come before it and whatever bytes follow it: the frame, and the count of
/// bytes up to its end as the bytes consumed.
pub proof fn lemma_frame_roundtrip(prefix: Seq<u8>, frame_type: u8, payload: Seq<u8>, rest: Seq<u8>)
    requires
        payload.len() <= 65535,
        no_head(prefix),
    ensures
        first_head(prefix + frame_bytes(frame_type, payload) + rest, prefix.len() as int),
        decode_at(prefix + frame_bytes(frame_type, payload) + rest, prefix.len() as int) == Ok::<
            (u8, Seq<u8>, int),
            DecodeError,
        >((frame_type, payload, (prefix.len() + payload.len() + 6) as int)),
{
    let s = prefix + frame_bytes(frame_type, payload) + rest;
    let h = prefix.len() as int;
    let len = payload.len() as u16;
    let covered = checked_part(frame_type, len, payload);
    assert(s[h] == FRAME_HEAD);
    assert(announced_len(s, h) == payload.len());
    assert(s.subrange(h + 1, h + 4 + payload.len()) =~= covered);
    assert(s.subrange(h + 4, h + 4 + payload.len()) =~= payload);
    let crc = crc16(covered);
    assert(le16((crc % 256) as u8, (crc / 256) as u8) == crc);
}

/// A whole frame arriving at an empty receive buffer comes out of the receive
/// step, and nothing stays buffered.
pub proof fn lemma_receive_whole_frame(frame_type: u8, payload: Seq<u8>, kept: Seq<u8>, got: Option<(u8, Seq<u8>)>)
    requires
        payload.len() <= 65535,
        receive_outcome(frame_bytes(frame_type, payload), kept, got),
    ensures
        got == Some((frame_type, payload)),
        kept == Seq::<u8>::empty(),
{
    let s = frame_bytes(frame_type, payload);
    let empty = Seq::<u8>::empty();
    lemma_frame_roundtrip(empty, frame_type, payload, empty);
    assert(empty + s + empty =~= s);
    assert(s.len() == payload.len() + 6);
    assert(s.skip(s.len() as int) =~= empty);
}

} // verus!
