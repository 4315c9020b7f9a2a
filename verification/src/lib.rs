//! Verified core of a network-programmable flash bootloader.
//!
//! The crate models the device state that the bootloader manipulates — the
//! flash bank, the reset-surviving RAM flag, the Ethernet descriptor rings and
//! the millisecond tick counter — as plain data, and verifies the logic that
//! drives them: address validation, sector erase mapping, checksummed
//! configuration records, the command wire protocol, and the host-side
//! verified-transfer algorithm.

use vstd::prelude::*;

pub mod bootload;
pub mod cmd;
pub mod crc32;
pub mod defaults;
pub mod ethernet;
pub mod flash;
pub mod link;

verus! {

/// Status word of the wire protocol, shared by the device and the host client.
#[derive(Clone, Copy, Debug, PartialEq, Eq, Structural)]
pub enum Error {
    Success,
    InvalidAddress,
    LengthNotMultiple4,
    LengthTooLong,
    DataLengthIncorrect,
    EraseError,
    WriteError,
    FlashError,
    NetworkError,
    InternalError,
}

/// Returned when a wire value does not name any `Error` variant.
pub struct UnknownValue;

impl Error {
    /// The 32-bit status code this variant is sent as on the wire.
    pub open spec fn spec_code(self) -> u32 {
        match self {
            Error::Success => 0,
            Error::InvalidAddress => 1,
            Error::LengthNotMultiple4 => 2,
            Error::LengthTooLong => 3,
            Error::DataLengthIncorrect => 4,
            Error::EraseError => 5,
            Error::WriteError => 6,
            Error::FlashError => 7,
            Error::NetworkError => 8,
            Error::InternalError => 9,
        }
    }

    /// Encode this status as its wire code.
    pub fn code(self) -> (c: u32)
        ensures
            c == self.spec_code(),
    {
        match self {
            Error::Success => 0,
            Error::InvalidAddress => 1,
            Error::LengthNotMultiple4 => 2,
            Error::LengthTooLong => 3,
            Error::DataLengthIncorrect => 4,
            Error::EraseError => 5,
            Error::WriteError => 6,
            Error::FlashError => 7,
            Error::NetworkError => 8,
            Error::InternalError => 9,
        }
    }

    /// Decode a wire code; fails exactly on codes no variant carries.
    pub fn try_from(u: u32) -> (r: Result<Error, UnknownValue>)
        ensures
            u <= 9 ==> r is Ok && r->Ok_0.spec_code() == u,
            u > 9 ==> r is Err,
    {
        let e = match u {
            0 => Error::Success,
            1 => Error::InvalidAddress,
            2 => Error::LengthNotMultiple4,
            3 => Error::LengthTooLong,
            4 => Error::DataLengthIncorrect,
            5 => Error::EraseError,
            6 => Error::WriteError,
            7 => Error::FlashError,
            8 => Error::NetworkError,
            9 => Error::InternalError,
            _ => {
                return Err(UnknownValue);
            },
        };
        Ok(e)
    }
}

} // verus!
