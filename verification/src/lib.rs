//! Host-side protocol engine for an ATmega8515-based Game Boy cartridge
//! reader/writer: fixed 72-byte framed serial protocol with a CRC-16/XMODEM
//! trailer, a chunked flash-programming state machine, and a decoder that
//! turns raw response frames into typed cartridge-header reports.

pub mod crc;
pub mod decode;
pub mod error;
pub mod frame;
pub mod transfer;
pub mod types;

pub use crc::crc16_xmodem;
pub use error::ProtocolError;
pub use frame::{Command, Frame, decode_and_validate, encode};
pub use decode::{CartridgeHeader, CartridgeReport, Licensee, decode_cartridge};
pub use transfer::{ReadSession, TransferSession, response_timeout_ms};
pub use types::{CartType, FlashManufacturer, InfoResponse, NewLicensee, OldLicensee, to_ascii_u16};
