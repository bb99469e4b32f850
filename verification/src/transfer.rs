//! Transfer engine: single-shot command timeouts and the chunked sessions
//! used to stream a cartridge image in fixed 64-byte packets, one
//! outstanding request at a time. A write session yields one frame per
//! packet, advancing only on an acknowledged exchange, with a bounded
//! per-packet retry budget before the caller must abort; a read session is
//! the mirror image, collecting validated data frames in order.

use vstd::prelude::*;

use crate::error::ProtocolError;
use crate::frame::{Command, Frame, encode, spec_encode};

verus! {

/// Payload bytes carried by one data packet.
pub const CHUNK_LEN: usize = 64;

/// Offset of the payload inside a data frame: three opcode bytes, the
/// packet-index byte, and the two page-index bytes come first.
pub const DATA_OFFSET: usize = 6;

/// Largest region a session will stream: the biggest flash size the
/// hardware offers, 8 MiB.
pub const MAX_REGION_LEN: usize = 0x800000;

/// Failed exchanges tolerated for a single packet before the session
/// tells the caller to abort.
pub const MAX_PACKET_RETRIES: u8 = 3;

/// Short reply window for ordinary commands, in milliseconds.
pub const SHORT_TIMEOUT_MS: u64 = 500;

/// Extended reply window for the materially slower flash erase, in
/// milliseconds.
pub const ERASE_FLASH_TIMEOUT_MS: u64 = 60000;

/// How long to wait for the reply to `cmd`: erasing flash takes tens of
/// seconds on real hardware, everything else answers within the short
/// window.
pub fn response_timeout_ms(cmd: &Command) -> (t: u64)
    ensures
        *cmd is EraseFlash ==> t == ERASE_FLASH_TIMEOUT_MS,
        !(*cmd is EraseFlash) ==> t == SHORT_TIMEOUT_MS,
{
    match cmd {
        Command::EraseFlash => ERASE_FLASH_TIMEOUT_MS,
        _ => SHORT_TIMEOUT_MS,
    }
}

/// Number of packets needed for `len` bytes: one per full 64-byte chunk,
/// plus one for a final partial chunk.
pub open spec fn spec_packet_count(len: nat) -> nat {
    if len % 64 == 0 {
        len / 64
    } else {
        len / 64 + 1
    }
}

/// The bytes of packet `i`: the next 64 source bytes, fewer for the final
/// packet of a length that is not a multiple of 64 (the frame encoder
/// zero-pads the remainder).
pub open spec fn spec_chunk(img: Seq<u8>, i: int) -> Seq<u8>
    recommends
        0 <= i < spec_packet_count(img.len()),
{
    img.subrange(64 * i, if 64 * i + 64 <= img.len() { 64 * i + 64 } else { img.len() as int })
}

/// The full wire image of data packet `i`: a write-flash packet frame
/// whose index byte wraps every 256 packets, whose big-endian page index
/// is the packet number divided by 256, and whose payload is chunk `i` of
/// the source.
pub open spec fn spec_packet_frame(img: Seq<u8>, i: int) -> Seq<u8>
    recommends
        0 <= i < spec_packet_count(img.len()),
        img.len() <= MAX_REGION_LEN,
{
    spec_encode(
        Command::WriteFlashPacket {
            packet_index: (i % 256) as u8,
            page_index: (i / 256) as u16,
        },
        spec_chunk(img, i),
    )
}

/// Every source byte is carried by exactly the packet the chunking
/// formulas name: byte `k` of the image travels as byte `k % 64` of
/// packet `k / 64`, and that packet exists.
pub proof fn lemma_every_byte_reaches_its_packet(img: Seq<u8>, k: int)
    requires
        0 <= k < img.len(),
    ensures
        0 <= k / 64 < spec_packet_count(img.len()),
        spec_chunk(img, k / 64)[k % 64] == img[k],
{
    let i = k / 64;
    let j = k % 64;
    assert(64 * i + j == k);
    assert(i < spec_packet_count(img.len())) by {
        let len = img.len() as int;
        assert(64 * (len / 64) + len % 64 == len);
    }
}

/// A chunked write in progress: the source image and the index of the
/// next packet to send. Advances one packet per acknowledged exchange.
pub struct TransferSession {
    /// The whole source image, fixed for the session's lifetime.
    pub image: Vec<u8>,
    /// Index of the next packet to send, `0 ..= packet_count`.
    pub next_packet: usize,
    /// Failed exchanges recorded for the current packet.
    pub retries: u8,
}

impl TransferSession {
    /// The session's invariant: the image fits the largest region and the
    /// cursor never passes the packet count.
    pub open spec fn wf(self) -> bool {
        &&& self.image@.len() <= MAX_REGION_LEN
        &&& self.next_packet <= spec_packet_count(self.image@.len())
    }

    /// All packets acknowledged.
    pub open spec fn spec_done(self) -> bool {
        self.next_packet == spec_packet_count(self.image@.len())
    }

    /// Open a write session, rejecting an image larger than the target
    /// region before any frame is sent.
    pub fn begin_write(image: Vec<u8>, region_len: usize) -> (r: Result<
        TransferSession,
        ProtocolError,
    >)
        requires
            region_len <= MAX_REGION_LEN,
        ensures
            match r {
                Ok(s) => {
                    &&& image@.len() <= region_len
                    &&& s.image@ == image@
                    &&& s.next_packet == 0
                    &&& s.retries == 0
                    &&& s.wf()
                },
                Err(e) => image@.len() > region_len && e == ProtocolError::SizeMismatch,
            },
    {
        if image.len() > region_len {
            Err(ProtocolError::SizeMismatch)
        } else {
            Ok(TransferSession { image, next_packet: 0, retries: 0 })
        }
    }

    /// Total number of data packets this session will send.
    pub fn packet_count(&self) -> (n: usize)
        requires
            self.wf(),
        ensures
            n == spec_packet_count(self.image@.len()),
    {
        let len = self.image.len();
        if len % 64 == 0 {
            len / 64
        } else {
            len / 64 + 1
        }
    }

    /// Whether every packet has been acknowledged.
    pub fn is_done(&self) -> (b: bool)
        requires
            self.wf(),
        ensures
            b == self.spec_done(),
    {
        self.next_packet == self.packet_count()
    }

    /// The index of the packet currently being sent (or, after a failed
    /// exchange, the packet to report as failed).
    pub fn current_packet(&self) -> (i: usize)
        ensures
            i == self.next_packet,
    {
        self.next_packet
    }

    /// Build the frame for the current packet. Re-sending after a failed
    /// exchange builds the identical frame, same packet index included.
    pub fn current_frame(&self) -> (f: Frame)
        requires
            self.wf(),
            !self.spec_done(),
        ensures
            f@ == spec_packet_frame(self.image@, self.next_packet as int),
            f.wf(),
    {
        let start = self.next_packet * 64;
        proof {
            let len = self.image@.len() as int;
            let np = self.next_packet as int;
            assert(np < spec_packet_count(len as nat));
            assert(64 * np < len) by {
                if len % 64 == 0 {
                    assert(np <= len / 64 - 1);
                } else {
                    assert(np <= len / 64);
                }
                assert(64 * (len / 64) + len % 64 == len);
            }
        }
        let end = if start + 64 <= self.image.len() {
            start + 64
        } else {
            self.image.len()
        };
        let mut payload: Vec<u8> = Vec::new();
        let mut k: usize = start;
        while k < end
            invariant
                start <= k <= end,
                end <= self.image@.len(),
                payload@ == self.image@.subrange(start as int, k as int),
            decreases end - k,
        {
            payload.push(self.image[k]);
            proof {
                assert(self.image@.subrange(start as int, k + 1)
                    =~= self.image@.subrange(start as int, k as int).push(self.image@[k as int]));
            }
            k = k + 1;
        }
        assert(payload@ == spec_chunk(self.image@, self.next_packet as int));
        let cmd = Command::WriteFlashPacket {
            packet_index: (self.next_packet % 256) as u8,
            page_index: (self.next_packet / 256) as u16,
        };
        encode(&cmd, &payload)
    }

    /// Record a validated acknowledgement: move to the next packet and
    /// reset the retry budget.
    pub fn ack_ok(&mut self)
        requires
            old(self).wf(),
            !old(self).spec_done(),
        ensures
            final(self).image@ == old(self).image@,
            final(self).next_packet == old(self).next_packet + 1,
            final(self).retries == 0,
            final(self).wf(),
    {
        self.next_packet = self.next_packet + 1;
        self.retries = 0;
    }

    /// Record a failed exchange (timeout or checksum mismatch) for the
    /// current packet. Returns whether the caller should re-send the same
    /// packet; once the bounded budget is spent, the session must be
    /// aborted and `current_packet` names the failing index.
    pub fn on_failed_exchange(&mut self) -> (retry: bool)
        requires
            old(self).wf(),
        ensures
            final(self).image@ == old(self).image@,
            final(self).next_packet == old(self).next_packet,
            retry == (old(self).retries < MAX_PACKET_RETRIES),
            retry ==> final(self).retries == old(self).retries + 1,
            !retry ==> final(self).retries == old(self).retries,
            final(self).wf(),
    {
        if self.retries < MAX_PACKET_RETRIES {
            self.retries = self.retries + 1;
            true
        } else {
            false
        }
    }
}

/// How many payload bytes the next data frame of a read contributes:
/// a full chunk, or whatever remains of the expected length.
pub open spec fn spec_take_len(received: nat, expected: nat) -> nat
    recommends
        received < expected,
{
    if expected - received < 64 {
        (expected - received) as nat
    } else {
        64
    }
}

/// A chunked read in progress: the mirror image of a write session. Data
/// frames arrive in packet order; each validated frame contributes its
/// payload bytes until the expected length is reached.
pub struct ReadSession {
    /// How many bytes the device will send in all.
    pub expected_len: usize,
    /// The payload bytes collected so far, in arrival order.
    pub received: Vec<u8>,
}

impl ReadSession {
    /// The session's invariant: everything collected so far is whole
    /// chunks, except that the final chunk may be short.
    pub open spec fn wf(self) -> bool {
        &&& self.expected_len <= MAX_REGION_LEN
        &&& self.received@.len() <= self.expected_len
        &&& (self.received@.len() % 64 == 0 || self.received@.len() == self.expected_len)
    }

    /// The whole region has arrived.
    pub open spec fn spec_done(self) -> bool {
        self.received@.len() == self.expected_len
    }

    /// Open a read session for a region of `expected_len` bytes.
    pub fn begin_read(expected_len: usize) -> (s: ReadSession)
        requires
            expected_len <= MAX_REGION_LEN,
        ensures
            s.expected_len == expected_len,
            s.received@ == Seq::<u8>::empty(),
            s.wf(),
    {
        ReadSession { expected_len, received: Vec::new() }
    }

    /// Whether the whole region has arrived.
    pub fn is_done(&self) -> (b: bool)
        ensures
            b == self.spec_done(),
    {
        self.received.len() == self.expected_len
    }

    /// Accept one validated data frame. The frame's packet-index byte
    /// must echo the expected wrapping packet number; a stale or shuffled
    /// frame is rejected as a protocol violation and changes nothing.
    pub fn accept_frame(&mut self, f: &Frame) -> (r: Result<(), ProtocolError>)
        requires
            old(self).wf(),
            !old(self).spec_done(),
            f.wf(),
        ensures
            match r {
                Ok(()) => {
                    &&& f@[3] == (((old(self).received@.len() / 64) % 256) as u8)
                    &&& final(self).expected_len == old(self).expected_len
                    &&& final(self).received@ == old(self).received@ + f@.subrange(
                        6,
                        6 + spec_take_len(
                            old(self).received@.len(),
                            old(self).expected_len as nat,
                        ) as int,
                    )
                    &&& final(self).wf()
                },
                Err(e) => {
                    &&& e == ProtocolError::ProtocolViolation
                    &&& f@[3] != (((old(self).received@.len() / 64) % 256) as u8)
                    &&& *final(self) == *old(self)
                },
            },
    {
        let packet_number = self.received.len() / 64;
        let expected_echo = (packet_number % 256) as u8;
        if f.byte_at(3) != expected_echo {
            return Err(ProtocolError::ProtocolViolation);
        }
        let remaining = self.expected_len - self.received.len();
        let take = if remaining < 64 {
            remaining
        } else {
            64
        };
        let ghost pre = self.received@;
        let mut k: usize = 0;
        while k < take
            invariant
                k <= take,
                take <= 64,
                f.wf(),
                self.expected_len == old(self).expected_len,
                self.received@ == pre + f@.subrange(6, 6 + k),
            decreases take - k,
        {
            self.received.push(f.byte_at(6 + k));
            proof {
                assert(pre + f@.subrange(6, 6 + (k + 1))
                    =~= (pre + f@.subrange(6, 6 + k as int)).push(f@[6 + k]));
            }
            k = k + 1;
        }
        Ok(())
    }

    /// Hand back the collected region once it is complete.
    pub fn into_data(self) -> (r: Vec<u8>)
        requires
            self.spec_done(),
        ensures
            r@ == self.received@,
            r@.len() == self.expected_len,
    {
        self.received
    }
}

} // verus!
