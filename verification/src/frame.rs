//! Frame codec: every request and reply is exactly 72 bytes, holding the
//! opcode bytes, the command payload, zero padding up to byte 70, and a
//! big-endian CRC-16/XMODEM over bytes [0, 70) in the final two bytes.

use vstd::prelude::*;

use crate::crc::{crc16_xmodem, crc16_xmodem_prefix, spec_crc16};
use crate::error::ProtocolError;

verus! {

/// Total length of every frame on the wire.
pub const FRAME_LEN: usize = 72;

/// Length of the checksummed span: everything but the two trailing bytes.
pub const FRAME_BODY_LEN: usize = 70;

/// The closed set of commands this protocol revision can put on the wire.
/// Write-RAM has no documented opcode in this revision, so it has no
/// variant: an unsupported command is a visible gap, not a runtime panic.
#[derive(Debug, Clone, Copy, PartialEq, Eq, Structural)]
pub enum Command {
    /// Query the cartridge header; shares its opcode with `Status`.
    Info,
    /// Query reader status; shares its opcode with `Info`.
    Status,
    /// Erase the cartridge flash.
    EraseFlash,
    /// Erase the cartridge RAM.
    EraseRam,
    /// Start a chunked flash write.
    WriteFlashBegin,
    /// One data chunk of a flash write: a wrapping packet-index byte and a
    /// big-endian page index, followed by up to 64 payload bytes.
    WriteFlashPacket { packet_index: u8, page_index: u16 },
}

/// The opcode bytes a command puts at the start of its frame.
pub open spec fn spec_opcode(cmd: Command) -> Seq<u8> {
    match cmd {
        Command::Info => seq![0x55u8, 0x04u8, 0x01u8],
        Command::Status => seq![0x55u8, 0x04u8, 0x01u8],
        Command::EraseFlash => seq![0x55u8, 0x03u8, 0x00u8, 0x00u8, 0x00u8, 0x03u8],
        Command::EraseRam => seq![0x55u8, 0x03u8, 0x01u8, 0x00u8, 0x00u8, 0x03u8],
        Command::WriteFlashBegin => seq![
            0x55u8, 0x00u8, 0x02u8, 0x00u8, 0x00u8, 0x00u8, 0x03u8, 0x00u8, 0x05u8,
        ],
        Command::WriteFlashPacket { packet_index, page_index } => seq![
            0x55u8, 0x01u8, 0x00u8, packet_index, (page_index >> 8) as u8,
            (page_index & 0xff) as u8,
        ],
    }
}

/// A sequence of `n` zero bytes.
pub open spec fn zero_bytes(n: nat) -> Seq<u8> {
    Seq::new(n, |i: int| 0u8)
}

/// The checksummed span of a frame: opcode, then payload, zero-padded to
/// seventy bytes.
pub open spec fn spec_frame_body(cmd: Command, payload: Seq<u8>) -> Seq<u8>
    recommends
        spec_opcode(cmd).len() + payload.len() <= 70,
{
    let filled = spec_opcode(cmd) + payload;
    filled + zero_bytes((70 - filled.len()) as nat)
}

/// The full 72-byte image of an encoded frame.
pub open spec fn spec_encode(cmd: Command, payload: Seq<u8>) -> Seq<u8>
    recommends
        spec_opcode(cmd).len() + payload.len() <= 70,
{
    let body = spec_frame_body(cmd, payload);
    let c = spec_crc16(body);
    body + seq![(c >> 8) as u8, (c & 0xff) as u8]
}

/// The big-endian checksum stored in a frame's last two bytes.
pub open spec fn spec_stored_checksum(s: Seq<u8>) -> u16
    recommends
        s.len() == 72,
{
    ((s[70] as u16) << 8) | (s[71] as u16)
}

/// A 72-byte buffer is a valid frame when the checksum computed over its
/// first seventy bytes equals the stored trailer.
pub open spec fn spec_frame_ok(s: Seq<u8>) -> bool {
    &&& s.len() == 72
    &&& spec_crc16(s.subrange(0, 70)) == spec_stored_checksum(s)
}

/// A checksummed 72-byte frame. Immutable once built: the only ways to get
/// one are `encode` and `decode_and_validate`, so a `Frame` always carries
/// a matching checksum.
pub struct Frame {
    bytes: Vec<u8>,
}

impl View for Frame {
    type V = Seq<u8>;

    closed spec fn view(&self) -> Seq<u8> {
        self.bytes@
    }
}

impl Frame {
    /// Checksum validity, tied to every constructor.
    pub open spec fn wf(self) -> bool {
        spec_frame_ok(self@)
    }

    /// Read one byte of the frame.
    pub fn byte_at(&self, i: usize) -> (b: u8)
        requires
            self.wf(),
            i < 72,
        ensures
            b == self@[i as int],
    {
        self.bytes[i]
    }

    /// The raw bytes, for handing to the transport.
    pub fn as_bytes(&self) -> (r: &Vec<u8>)
        ensures
            r@ == self@,
    {
        &self.bytes
    }
}

/// The opcode bytes of `cmd` as a vector.
pub fn opcode_bytes(cmd: &Command) -> (v: Vec<u8>)
    ensures
        v@ == spec_opcode(*cmd),
{
    let mut v: Vec<u8> = Vec::new();
    match cmd {
        Command::Info | Command::Status => {
            v.push(0x55);
            v.push(0x04);
            v.push(0x01);
        },
        Command::EraseFlash => {
            v.push(0x55);
            v.push(0x03);
            v.push(0x00);
            v.push(0x00);
            v.push(0x00);
            v.push(0x03);
        },
        Command::EraseRam => {
            v.push(0x55);
            v.push(0x03);
            v.push(0x01);
            v.push(0x00);
            v.push(0x00);
            v.push(0x03);
        },
        Command::WriteFlashBegin => {
            v.push(0x55);
            v.push(0x00);
            v.push(0x02);
            v.push(0x00);
            v.push(0x00);
            v.push(0x00);
            v.push(0x03);
            v.push(0x00);
            v.push(0x05);
        },
        Command::WriteFlashPacket { packet_index, page_index } => {
            v.push(0x55);
            v.push(0x01);
            v.push(0x00);
            v.push(*packet_index);
            let hi = *page_index >> 8;
            let lo = *page_index & 0xff;
            assert(hi < 256 && lo < 256) by (bit_vector)
                requires
                    hi == *page_index >> 8,
                    lo == *page_index & 0xff,
            ;
            v.push(hi as u8);
            v.push(lo as u8);
        },
    }
    assert(v@ =~= spec_opcode(*cmd));
    v
}

/// Build the frame for `cmd` with the given payload: opcode, payload, zero
/// fill to seventy bytes, then the big-endian CRC-16/XMODEM trailer.
pub fn encode(cmd: &Command, payload: &Vec<u8>) -> (f: Frame)
    requires
        spec_opcode(*cmd).len() + payload@.len() <= 70,
    ensures
        f@ == spec_encode(*cmd, payload@),
        f.wf(),
{
    let mut body = opcode_bytes(cmd);
    let mut i: usize = 0;
    while i < payload.len()
        invariant
            i <= payload@.len(),
            body@ == spec_opcode(*cmd) + payload@.subrange(0, i as int),
        decreases payload@.len() - i,
    {
        body.push(payload[i]);
        proof {
            assert(spec_opcode(*cmd) + payload@.subrange(0, i + 1)
                =~= (spec_opcode(*cmd) + payload@.subrange(0, i as int)).push(payload@[i as int]));
        }
        i = i + 1;
    }
    proof {
        assert(payload@.subrange(0, payload@.len() as int) =~= payload@);
    }
    let ghost filled = spec_opcode(*cmd) + payload@;
    while body.len() < 70
        invariant
            filled.len() <= body@.len() <= 70,
            body@ == filled + zero_bytes((body@.len() - filled.len()) as nat),
        decreases 70 - body@.len(),
    {
        body.push(0);
        proof {
            assert(filled + zero_bytes((body@.len() - filled.len()) as nat)
                =~= (filled + zero_bytes((body@.len() - 1 - filled.len()) as nat)).push(0u8));
        }
    }
    assert(body@ =~= spec_frame_body(*cmd, payload@));
    let c = crc16_xmodem(&body);
    let hi = c >> 8;
    let lo = c & 0xff;
    assert(hi < 256 && lo < 256) by (bit_vector)
        requires
            hi == c >> 8,
            lo == c & 0xff,
    ;
    body.push(hi as u8);
    body.push(lo as u8);
    proof {
        assert(body@ =~= spec_encode(*cmd, payload@));
        assert(body@.subrange(0, 70) =~= spec_frame_body(*cmd, payload@));
        assert((((c >> 8) as u8 as u16) << 8) | ((c & 0xff) as u8 as u16) == c) by (bit_vector);
    }
    Frame { bytes: body }
}

/// Validate a received 72-byte buffer: recompute the checksum over bytes
/// [0, 70) and compare it to the stored big-endian trailer. A mismatch is
/// reported as `ChecksumMismatch`, never silently ignored.
pub fn decode_and_validate(bytes: Vec<u8>) -> (r: Result<Frame, ProtocolError>)
    requires
        bytes@.len() == 72,
    ensures
        match r {
            Ok(f) => spec_frame_ok(bytes@) && f@ == bytes@ && f.wf(),
            Err(e) => !spec_frame_ok(bytes@) && e == ProtocolError::ChecksumMismatch,
        },
{
    let computed = crc16_xmodem_prefix(&bytes, 70);
    let stored = ((bytes[70] as u16) << 8) | (bytes[71] as u16);
    if computed == stored {
        Ok(Frame { bytes })
    } else {
        Err(ProtocolError::ChecksumMismatch)
    }
}

/// Round trip: a frame built from any command and any payload that fits
/// always validates, and the payload bytes read back unchanged from their
/// position right after the opcode.
pub proof fn lemma_encode_round_trip(cmd: Command, payload: Seq<u8>)
    requires
        spec_opcode(cmd).len() + payload.len() <= 70,
    ensures
        spec_encode(cmd, payload).len() == 72,
        spec_frame_ok(spec_encode(cmd, payload)),
        spec_encode(cmd, payload).subrange(
            spec_opcode(cmd).len() as int,
            (spec_opcode(cmd).len() + payload.len()) as int,
        ) == payload,
{
    let body = spec_frame_body(cmd, payload);
    let c = spec_crc16(body);
    let enc = spec_encode(cmd, payload);
    assert(enc.subrange(0, 70) =~= body);
    assert(enc[70] == (c >> 8) as u8 && enc[71] == (c & 0xff) as u8);
    assert((((c >> 8) as u8 as u16) << 8) | ((c & 0xff) as u8 as u16) == c) by (bit_vector);
    assert(enc.subrange(spec_opcode(cmd).len() as int, (spec_opcode(cmd).len() + payload.len()) as int)
        =~= payload);
}

/// Corruption detection: flipping any single bit within the checksummed
/// span [0, 70) of a valid frame makes validation fail.
pub proof fn lemma_single_bit_corruption_detected(frame: Seq<u8>, i: int, j: u8)
    requires
        spec_frame_ok(frame),
        0 <= i < 70,
        j < 8,
    ensures
        !spec_frame_ok(frame.update(i, frame[i] ^ (1u8 << j))),
{
    let g = frame.update(i, frame[i] ^ (1u8 << j));
    let body = frame.subrange(0, 70);
    assert(g.subrange(0, 70) =~= body.update(i, body[i] ^ (1u8 << j)));
    crate::crc::lemma_crc16_bit_flip(body, i, j);
    assert(g[70] == frame[70] && g[71] == frame[71]);
}

} // verus!
