//! The confirmation codes that each kind of reply can carry.
//!
//! Every kind of reply defines its own closed set of status bytes; a byte outside that set
//! is not a status of that kind, and `from` returns `None` for it.
use vstd::prelude::*;

verus! {

/// Enum for the password handshake result
#[derive(Debug, Clone, Copy, PartialEq, Eq, Structural)]
pub enum PasswordVerificationState {
    Correct,
    Incorrect,
    Error,
}

impl PasswordVerificationState {
    pub open spec fn from_code(byte: u8) -> Option<Self> {
        match byte {
            0x00 => Some(Self::Correct),
            0x13 => Some(Self::Incorrect),
            0x01 => Some(Self::Error),
            _ => None,
        }
    }

    pub fn from(byte: u8) -> (r: Option<Self>)
        ensures
            r == Self::from_code(byte),
    {
        match byte {
            0x00 => Some(Self::Correct),
            0x13 => Some(Self::Incorrect),
            0x01 => Some(Self::Error),
            _ => None,
        }
    }
}

/// Enum for the `GenImg` status code
#[derive(Debug, Clone, Copy, PartialEq, Eq, Structural)]
pub enum GenImgStatus {
    /// Fingerprint has been captured successfully
    Success,
    /// Error reading packet from the host
    PacketError,
    /// Finger not detected
    FingerNotDetected,
    /// Image failed to capture
    ImageNotCaptured,
}

impl GenImgStatus {
    pub open spec fn from_code(byte: u8) -> Option<Self> {
        match byte {
            0x00 => Some(Self::Success),
            0x01 => Some(Self::PacketError),
            0x02 => Some(Self::FingerNotDetected),
            0x03 => Some(Self::ImageNotCaptured),
            _ => None,
        }
    }

    pub fn from(byte: u8) -> (r: Option<Self>)
        ensures
            r == Self::from_code(byte),
    {
        match byte {
            0x00 => Some(Self::Success),
            0x01 => Some(Self::PacketError),
            0x02 => Some(Self::FingerNotDetected),
            0x03 => Some(Self::ImageNotCaptured),
            _ => None,
        }
    }
}

/// Enum for the `Img2Tz` status code
#[derive(Debug, Clone, Copy, PartialEq, Eq, Structural)]
pub enum Img2TzStatus {
    /// Fingerprint processed successfully
    Success,
    /// Error reading packet from the host
    PacketError,
    /// Fingerprint image overly distorted
    FingerprintImageDistorted,
    /// Could not build a character file: too few character points, or the image is too small
    ProcessingFailed,
    /// Input image buffer not valid
    InvalidInput,
}

impl Img2TzStatus {
    pub open spec fn from_code(byte: u8) -> Option<Self> {
        match byte {
            0x00 => Some(Self::Success),
            0x01 => Some(Self::PacketError),
            0x06 => Some(Self::FingerprintImageDistorted),
            0x07 => Some(Self::ProcessingFailed),
            0x15 => Some(Self::InvalidInput),
            _ => None,
        }
    }

    pub fn from(byte: u8) -> (r: Option<Self>)
        ensures
            r == Self::from_code(byte),
    {
        match byte {
            0x00 => Some(Self::Success),
            0x01 => Some(Self::PacketError),
            0x06 => Some(Self::FingerprintImageDistorted),
            0x07 => Some(Self::ProcessingFailed),
            0x15 => Some(Self::InvalidInput),
            _ => None,
        }
    }
}

/// Enum for the `Search` status code
#[derive(Debug, Clone, Copy, PartialEq, Eq, Structural)]
pub enum SearchStatus {
    /// There is a match
    Success,
    /// Error reading packet from the host
    PacketError,
    /// No match - index and score will be 0
    NoMatch,
}

impl SearchStatus {
    pub open spec fn from_code(byte: u8) -> Option<Self> {
        match byte {
            0x00 => Some(Self::Success),
            0x01 => Some(Self::PacketError),
            0x09 => Some(Self::NoMatch),
            _ => None,
        }
    }

    pub fn from(byte: u8) -> (r: Option<Self>)
        ensures
            r == Self::from_code(byte),
    {
        match byte {
            0x00 => Some(Self::Success),
            0x01 => Some(Self::PacketError),
            0x09 => Some(Self::NoMatch),
            _ => None,
        }
    }
}

/// `LoadChar` status code
#[derive(Debug, Clone, Copy, PartialEq, Eq, Structural)]
pub enum LoadCharStatus {
    /// Operation completed successfully.
    Success,
    /// Error reading packet from the host
    PacketError,
    /// Error reading the template from the library, or the template read is invalid
    LibraryReadError,
    /// Index given is out of range (eg. > 200 for the R502)
    IndexOutOfRange,
}

impl LoadCharStatus {
    pub open spec fn from_code(byte: u8) -> Option<Self> {
        match byte {
            0x00 => Some(Self::Success),
            0x01 => Some(Self::PacketError),
            0x0c => Some(Self::LibraryReadError),
            0x0b => Some(Self::IndexOutOfRange),
            _ => None,
        }
    }

    pub fn from(byte: u8) -> (r: Option<Self>)
        ensures
            r == Self::from_code(byte),
    {
        match byte {
            0x00 => Some(Self::Success),
            0x01 => Some(Self::PacketError),
            0x0c => Some(Self::LibraryReadError),
            0x0b => Some(Self::IndexOutOfRange),
            _ => None,
        }
    }
}

/// `Match` status code
#[derive(Debug, Clone, Copy, PartialEq, Eq, Structural)]
pub enum MatchStatus {
    /// Match performed successfully and the two buffers match
    Success,
    /// Error reading packet from the host
    PacketError,
    /// Matching was performed but the two buffers don't match
    NoMatch,
}

impl MatchStatus {
    pub open spec fn from_code(byte: u8) -> Option<Self> {
        match byte {
            0x00 => Some(Self::Success),
            0x01 => Some(Self::PacketError),
            0x08 => Some(Self::NoMatch),
            _ => None,
        }
    }

    pub fn from(byte: u8) -> (r: Option<Self>)
        ensures
            r == Self::from_code(byte),
    {
        match byte {
            0x00 => Some(Self::Success),
            0x01 => Some(Self::PacketError),
            0x08 => Some(Self::NoMatch),
            _ => None,
        }
    }
}

/// `TemplateNum` status code
#[derive(Debug, Clone, Copy, PartialEq, Eq, Structural)]
pub enum TemplateNumStatus {
    /// The template count was read successfully
    Success,
    /// Error reading packet from the host
    PacketError,
}

impl TemplateNumStatus {
    pub open spec fn from_code(byte: u8) -> Option<Self> {
        match byte {
            0x00 => Some(Self::Success),
            0x01 => Some(Self::PacketError),
            _ => None,
        }
    }

    pub fn from(byte: u8) -> (r: Option<Self>)
        ensures
            r == Self::from_code(byte),
    {
        match byte {
            0x00 => Some(Self::Success),
            0x01 => Some(Self::PacketError),
            _ => None,
        }
    }
}

/// `RegModel` status code
#[derive(Debug, Clone, Copy, PartialEq, Eq, Structural)]
pub enum RegModelStatus {
    /// The two character buffers were combined into a template
    Success,
    /// Error reading packet from the host
    PacketError,
    /// The character buffers do not belong to the same finger
    CombineFailed,
}

impl RegModelStatus {
    pub open spec fn from_code(byte: u8) -> Option<Self> {
        match byte {
            0x00 => Some(Self::Success),
            0x01 => Some(Self::PacketError),
            0x0a => Some(Self::CombineFailed),
            _ => None,
        }
    }

    pub fn from(byte: u8) -> (r: Option<Self>)
        ensures
            r == Self::from_code(byte),
    {
        match byte {
            0x00 => Some(Self::Success),
            0x01 => Some(Self::PacketError),
            0x0a => Some(Self::CombineFailed),
            _ => None,
        }
    }
}

/// `Store` status code
#[derive(Debug, Clone, Copy, PartialEq, Eq, Structural)]
pub enum StoreStatus {
    /// The template was stored
    Success,
    /// Error reading packet from the host
    PacketError,
    /// The index is beyond the end of the library
    IndexOutOfRange,
    /// Error writing to flash
    FlashWriteError,
}

impl StoreStatus {
    pub open spec fn from_code(byte: u8) -> Option<Self> {
        match byte {
            0x00 => Some(Self::Success),
            0x01 => Some(Self::PacketError),
            0x0b => Some(Self::IndexOutOfRange),
            0x18 => Some(Self::FlashWriteError),
            _ => None,
        }
    }

    pub fn from(byte: u8) -> (r: Option<Self>)
        ensures
            r == Self::from_code(byte),
    {
        match byte {
            0x00 => Some(Self::Success),
            0x01 => Some(Self::PacketError),
            0x0b => Some(Self::IndexOutOfRange),
            0x18 => Some(Self::FlashWriteError),
            _ => None,
        }
    }
}

/// `DeletChar` status code
#[derive(Debug, Clone, Copy, PartialEq, Eq, Structural)]
pub enum DeletCharStatus {
    /// The templates were deleted
    Success,
    /// Error reading packet from the host
    PacketError,
    /// The templates could not be deleted
    DeleteFailed,
}

impl DeletCharStatus {
    pub open spec fn from_code(byte: u8) -> Option<Self> {
        match byte {
            0x00 => Some(Self::Success),
            0x01 => Some(Self::PacketError),
            0x10 => Some(Self::DeleteFailed),
            _ => None,
        }
    }

    pub fn from(byte: u8) -> (r: Option<Self>)
        ensures
            r == Self::from_code(byte),
    {
        match byte {
            0x00 => Some(Self::Success),
            0x01 => Some(Self::PacketError),
            0x10 => Some(Self::DeleteFailed),
            _ => None,
        }
    }
}

} // verus!
