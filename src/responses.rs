//! Replies of the R502 and how they are decoded from a received packet.
//!
//! Every decoder takes the whole received packet: the address at bytes 2..6, the
//! confirmation code at byte 9, the fields of its kind at fixed offsets after it, and the
//! checksum at the end. A packet too short for the fields of its kind is `MalformedReply`;
//! a status byte that its kind does not define is `UnknownStatusCode`.
use vstd::prelude::*;
use crate::commands::Command;
use crate::status::{
    DeletCharStatus, GenImgStatus, Img2TzStatus, LoadCharStatus, MatchStatus,
    PasswordVerificationState, RegModelStatus, SearchStatus, StoreStatus, TemplateNumStatus,
};
use crate::utils::{FromPayload, PayloadError};
use crate::wire::{be16_at, be32_at, read_be16, read_be32};

verus! {

/// Responses to commands returned by the R502. Names are the same as commands.
#[derive(Debug, Clone, Copy, PartialEq, Eq, Structural)]
pub enum Reply {
    /// Contains system status and configuration information
    ReadSysPara(ReadSysParaResult),
    /// Contains result of password verification
    VfyPwd(VfyPwdResult),
    /// Contains result of acquiring an image
    GenImg(GenImgResult),
    /// Contains result of processing a fingerprint image into a _character buffer_
    Img2Tz(Img2TzResult),
    /// Contains result of searching the library for a match
    Search(SearchResult),
    /// Contains result of loading a character file into a character buffer
    LoadChar(LoadCharResult),
    /// Contains result of matching two fingers against each other
    Match(MatchResult),
    /// Contains the next free index in the library
    TemplateNum(TemplateNumResult),
    /// Contains result of combining the character buffers into a template
    RegModel(RegModelResult),
    /// Contains result of storing a template into the library
    Store(StoreResult),
    /// Contains result of deleting templates from the library
    DeletChar(DeletCharResult),
}

/// Result struct for the `ReadSysPara` call
#[derive(Debug, Clone, Copy, PartialEq, Eq, Structural)]
pub struct ReadSysParaResult {
    /// Address of the R502 this message came from
    pub address: u32,
    /// Status code
    pub confirmation_code: u8,
    /// System parameters
    pub system_parameters: SystemParameters,
    pub checksum: u16,
}

/// Result struct for the `VfyPwd` call
#[derive(Debug, Clone, Copy, PartialEq, Eq, Structural)]
pub struct VfyPwdResult {
    /// Address of the R502 this message came from
    pub address: u32,
    /// Handshake result
    pub confirmation_code: PasswordVerificationState,
    pub checksum: u16,
}

/// Result struct for the `GenImg` call
#[derive(Debug, Clone, Copy, PartialEq, Eq, Structural)]
pub struct GenImgResult {
    /// Address of the R502 that sent this message
    pub address: u32,
    /// Fingerprint capture result
    pub confirmation_code: GenImgStatus,
    pub checksum: u16,
}

/// Result struct for the `Img2Tz` call
#[derive(Debug, Clone, Copy, PartialEq, Eq, Structural)]
pub struct Img2TzResult {
    /// Address of the R502 that sent this message
    pub address: u32,
    /// Fingerprint processing result
    pub confirmation_code: Img2TzStatus,
    pub checksum: u16,
}

/// Result struct for the `Search` call
#[derive(Debug, Clone, Copy, PartialEq, Eq, Structural)]
pub struct SearchResult {
    /// Address of the R502 that sent this message
    pub address: u32,
    /// Search processing result
    pub confirmation_code: SearchStatus,
    /// Index, in the library, of the best match.
    pub match_id: u16,
    /// Match score. A score of 0 means no match (`confirmation_code` will be `NoMatch`).
    pub match_score: u16,
    pub checksum: u16,
}

/// Structure containing the status code of the `LoadChar` call
#[derive(Debug, Clone, Copy, PartialEq, Eq, Structural)]
pub struct LoadCharResult {
    /// Address of the R502 that sent this message
    pub address: u32,
    /// Response code
    pub confirmation_code: LoadCharStatus,
    pub checksum: u16,
}

/// Structure containing the status code of the `Match` call
#[derive(Debug, Clone, Copy, PartialEq, Eq, Structural)]
pub struct MatchResult {
    /// Address of the R502 that sent this message
    pub address: u32,
    /// Response code
    pub confirmation_code: MatchStatus,
    /// Match confidence value
    pub match_score: u16,
    pub checksum: u16,
}

/// Result struct for the `TemplateNum` call
#[derive(Debug, Clone, Copy, PartialEq, Eq, Structural)]
pub struct TemplateNumResult {
    /// Address of the R502 that sent this message
    pub address: u32,
    /// Response code
    pub confirmation_code: TemplateNumStatus,
    /// The next valid index at which a fingerprint can be enrolled
    pub template_num: u16,
    pub checksum: u16,
}

/// Result struct for the `RegModel` call
#[derive(Debug, Clone, Copy, PartialEq, Eq, Structural)]
pub struct RegModelResult {
    /// Address of the R502 that sent this message
    pub address: u32,
    /// Response code
    pub confirmation_code: RegModelStatus,
    pub checksum: u16,
}

/// Result struct for the `Store` call
#[derive(Debug, Clone, Copy, PartialEq, Eq, Structural)]
pub struct StoreResult {
    /// Address of the R502 that sent this message
    pub address: u32,
    /// Response code
    pub confirmation_code: StoreStatus,
    pub checksum: u16,
}

/// Result struct for the `DeletChar` call
#[derive(Debug, Clone, Copy, PartialEq, Eq, Structural)]
pub struct DeletCharResult {
    /// Address of the R502 that sent this message
    pub address: u32,
    /// Response code
    pub confirmation_code: DeletCharStatus,
    pub checksum: u16,
}

/// System status and configuration.
#[derive(Debug, Clone, Copy, PartialEq, Eq, Structural)]
pub struct SystemParameters {
    /// Status information. Use the methods of `SystemParameters` to read individual bits.
    pub status_register: u16,
    /// System identifier code; the datasheet gives it the constant value 0x0009
    pub system_identifier_code: u16,
    /// Finger library size (maximum, not the number of fingerprints enrolled)
    pub finger_library_size: u16,
    /// Security level [1-5]
    pub security_level: u16,
    /// Device address, repeated from the packet header
    pub device_address: u32,
    /// Packet size code [0-3]: 32, 64, 128 (the default) or 256 bytes
    pub packet_size: u16,
    /// Baud setting. Multiply by 9600 for the baud rate.
    pub baud_setting: u16,
}

/// Convenience methods for reading the bits of the R502's status register
impl SystemParameters {
    /// True if the R502 is busy executing another command (*Busy*, bit 0).
    pub fn busy(self) -> (r: bool)
        ensures
            r == (self.status_register & 0x1 != 0),
    {
        self.status_register & 0x1 != 0
    }

    /// True if the module found a matching finger (*Pass*, bit 1). Always check the reply
    /// to the matching request itself as well.
    pub fn has_finger_match(self) -> (r: bool)
        ensures
            r == (self.status_register & 0x2 != 0),
    {
        self.status_register & 0x2 != 0
    }

    /// True if the password given in the handshake is correct (*PWD*, bit 2).
    pub fn password_ok(self) -> (r: bool)
        ensures
            r == (self.status_register & 0x4 != 0),
    {
        self.status_register & 0x4 != 0
    }

    /// True if the image buffer holds a valid image (*ImgBufStat*, bit 3). The R502 may
    /// still perform matches while this is `false`.
    pub fn has_valid_image(self) -> (r: bool)
        ensures
            r == (self.status_register & 0x8 != 0),
    {
        self.status_register & 0x8 != 0
    }

    /// The parameters held by the 16-byte block `b`, in big-endian words.
    pub open spec fn of_block(b: Seq<u8>) -> Self {
        SystemParameters {
            status_register: be16_at(b, 0),
            system_identifier_code: be16_at(b, 2),
            finger_library_size: be16_at(b, 4),
            security_level: be16_at(b, 6),
            device_address: be32_at(b, 8),
            packet_size: be16_at(b, 12),
            baud_setting: be16_at(b, 14),
        }
    }
}

/// Decodes the 16-byte system-parameters block (not a whole packet).
impl FromPayload for SystemParameters {
    open spec fn decoded(payload: Seq<u8>) -> Result<Self, PayloadError> {
        if payload.len() < 16 {
            Err(PayloadError::MalformedReply)
        } else {
            Ok(SystemParameters::of_block(payload))
        }
    }

    fn from_payload(payload: &[u8]) -> (r: Result<Self, PayloadError>) {
        if payload.len() < 16 {
            return Err(PayloadError::MalformedReply);
        }
        let p = SystemParameters {
            status_register: read_be16(payload, 0),
            system_identifier_code: read_be16(payload, 2),
            finger_library_size: read_be16(payload, 4),
            security_level: read_be16(payload, 6),
            device_address: read_be32(payload, 8),
            packet_size: read_be16(payload, 12),
            baud_setting: read_be16(payload, 14),
        };
        assert(p == SystemParameters::of_block(payload@));
        assert(Self::decoded(payload@) == Ok::<SystemParameters, PayloadError>(p));
        Ok(p)
    }
}

impl FromPayload for ReadSysParaResult {
    open spec fn decoded(payload: Seq<u8>) -> Result<Self, PayloadError> {
        if payload.len() < 28 {
            Err(PayloadError::MalformedReply)
        } else {
            Ok(
                ReadSysParaResult {
                    address: be32_at(payload, 2),
                    confirmation_code: payload[9],
                    system_parameters: SystemParameters::of_block(payload.subrange(10, 26)),
                    checksum: be16_at(payload, 26),
                },
            )
        }
    }

    fn from_payload(payload: &[u8]) -> (r: Result<Self, PayloadError>) {
        if payload.len() < 28 {
            return Err(PayloadError::MalformedReply);
        }
        match SystemParameters::from_payload(&payload[10..26]) {
            Ok(system_parameters) => Ok(
                ReadSysParaResult {
                    address: read_be32(payload, 2),
                    confirmation_code: payload[9],
                    system_parameters,
                    checksum: read_be16(payload, 26),
                },
            ),
            Err(e) => Err(e),
        }
    }
}

impl FromPayload for VfyPwdResult {
    open spec fn decoded(payload: Seq<u8>) -> Result<Self, PayloadError> {
        if payload.len() < 12 {
            Err(PayloadError::MalformedReply)
        } else {
            match PasswordVerificationState::from_code(payload[9]) {
                Some(c) => Ok(
                    VfyPwdResult {
                        address: be32_at(payload, 2),
                        confirmation_code: c,
                        checksum: be16_at(payload, 10),
                    },
                ),
                None => Err(PayloadError::UnknownStatusCode(payload[9])),
            }
        }
    }

    fn from_payload(payload: &[u8]) -> (r: Result<Self, PayloadError>) {
        if payload.len() < 12 {
            return Err(PayloadError::MalformedReply);
        }
        match PasswordVerificationState::from(payload[9]) {
            Some(c) => Ok(
                VfyPwdResult {
                    address: read_be32(payload, 2),
                    confirmation_code: c,
                    checksum: read_be16(payload, 10),
                },
            ),
            None => Err(PayloadError::UnknownStatusCode(payload[9])),
        }
    }
}

impl FromPayload for GenImgResult {
    open spec fn decoded(payload: Seq<u8>) -> Result<Self, PayloadError> {
        if payload.len() < 12 {
            Err(PayloadError::MalformedReply)
        } else {
            match GenImgStatus::from_code(payload[9]) {
                Some(c) => Ok(
                    GenImgResult {
                        address: be32_at(payload, 2),
                        confirmation_code: c,
                        checksum: be16_at(payload, 10),
                    },
                ),
                None => Err(PayloadError::UnknownStatusCode(payload[9])),
            }
        }
    }

    fn from_payload(payload: &[u8]) -> (r: Result<Self, PayloadError>) {
        if payload.len() < 12 {
            return Err(PayloadError::MalformedReply);
        }
        match GenImgStatus::from(payload[9]) {
            Some(c) => Ok(
                GenImgResult {
                    address: read_be32(payload, 2),
                    confirmation_code: c,
                    checksum: read_be16(payload, 10),
                },
            ),
            None => Err(PayloadError::UnknownStatusCode(payload[9])),
        }
    }
}

impl FromPayload for Img2TzResult {
    open spec fn decoded(payload: Seq<u8>) -> Result<Self, PayloadError> {
        if payload.len() < 12 {
            Err(PayloadError::MalformedReply)
        } else {
            match Img2TzStatus::from_code(payload[9]) {
                Some(c) => Ok(
                    Img2TzResult {
                        address: be32_at(payload, 2),
                        confirmation_code: c,
                        checksum: be16_at(payload, 10),
                    },
                ),
                None => Err(PayloadError::UnknownStatusCode(payload[9])),
            }
        }
    }

    fn from_payload(payload: &[u8]) -> (r: Result<Self, PayloadError>) {
        if payload.len() < 12 {
            return Err(PayloadError::MalformedReply);
        }
        match Img2TzStatus::from(payload[9]) {
            Some(c) => Ok(
                Img2TzResult {
                    address: read_be32(payload, 2),
                    confirmation_code: c,
                    checksum: read_be16(payload, 10),
                },
            ),
            None => Err(PayloadError::UnknownStatusCode(payload[9])),
        }
    }
}

impl FromPayload for SearchResult {
    open spec fn decoded(payload: Seq<u8>) -> Result<Self, PayloadError> {
        if payload.len() < 16 {
            Err(PayloadError::MalformedReply)
        } else {
            match SearchStatus::from_code(payload[9]) {
                Some(c) => Ok(
                    SearchResult {
                        address: be32_at(payload, 2),
                        confirmation_code: c,
                        match_id: be16_at(payload, 10),
                        match_score: be16_at(payload, 12),
                        checksum: be16_at(payload, 14),
                    },
                ),
                None => Err(PayloadError::UnknownStatusCode(payload[9])),
            }
        }
    }

    fn from_payload(payload: &[u8]) -> (r: Result<Self, PayloadError>) {
        if payload.len() < 16 {
            return Err(PayloadError::MalformedReply);
        }
        match SearchStatus::from(payload[9]) {
            Some(c) => Ok(
                SearchResult {
                    address: read_be32(payload, 2),
                    confirmation_code: c,
                    match_id: read_be16(payload, 10),
                    match_score: read_be16(payload, 12),
                    checksum: read_be16(payload, 14),
                },
            ),
            None => Err(PayloadError::UnknownStatusCode(payload[9])),
        }
    }
}

impl FromPayload for LoadCharResult {
    open spec fn decoded(payload: Seq<u8>) -> Result<Self, PayloadError> {
        if payload.len() < 12 {
            Err(PayloadError::MalformedReply)
        } else {
            match LoadCharStatus::from_code(payload[9]) {
                Some(c) => Ok(
                    LoadCharResult {
                        address: be32_at(payload, 2),
                        confirmation_code: c,
                        checksum: be16_at(payload, 10),
                    },
                ),
                None => Err(PayloadError::UnknownStatusCode(payload[9])),
            }
        }
    }

    fn from_payload(payload: &[u8]) -> (r: Result<Self, PayloadError>) {
        if payload.len() < 12 {
            return Err(PayloadError::MalformedReply);
        }
        match LoadCharStatus::from(payload[9]) {
            Some(c) => Ok(
                LoadCharResult {
                    address: read_be32(payload, 2),
                    confirmation_code: c,
                    checksum: read_be16(payload, 10),
                },
            ),
            None => Err(PayloadError::UnknownStatusCode(payload[9])),
        }
    }
}

impl FromPayload for MatchResult {
    open spec fn decoded(payload: Seq<u8>) -> Result<Self, PayloadError> {
        if payload.len() < 14 {
            Err(PayloadError::MalformedReply)
        } else {
            match MatchStatus::from_code(payload[9]) {
                Some(c) => Ok(
                    MatchResult {
                        address: be32_at(payload, 2),
                        confirmation_code: c,
                        match_score: be16_at(payload, 10),
                        checksum: be16_at(payload, 12),
                    },
                ),
                None => Err(PayloadError::UnknownStatusCode(payload[9])),
            }
        }
    }

    fn from_payload(payload: &[u8]) -> (r: Result<Self, PayloadError>) {
        if payload.len() < 14 {
            return Err(PayloadError::MalformedReply);
        }
        match MatchStatus::from(payload[9]) {
            Some(c) => Ok(
                MatchResult {
                    address: read_be32(payload, 2),
                    confirmation_code: c,
                    match_score: read_be16(payload, 10),
                    checksum: read_be16(payload, 12),
                },
            ),
            None => Err(PayloadError::UnknownStatusCode(payload[9])),
        }
    }
}

impl FromPayload for TemplateNumResult {
    open spec fn decoded(payload: Seq<u8>) -> Result<Self, PayloadError> {
        if payload.len() < 14 {
            Err(PayloadError::MalformedReply)
        } else {
            match TemplateNumStatus::from_code(payload[9]) {
                Some(c) => Ok(
                    TemplateNumResult {
                        address: be32_at(payload, 2),
                        confirmation_code: c,
                        template_num: be16_at(payload, 10),
                        checksum: be16_at(payload, 12),
                    },
                ),
                None => Err(PayloadError::UnknownStatusCode(payload[9])),
            }
        }
    }

    fn from_payload(payload: &[u8]) -> (r: Result<Self, PayloadError>) {
        if payload.len() < 14 {
            return Err(PayloadError::MalformedReply);
        }
        match TemplateNumStatus::from(payload[9]) {
            Some(c) => Ok(
                TemplateNumResult {
                    address: read_be32(payload, 2),
                    confirmation_code: c,
                    template_num: read_be16(payload, 10),
                    checksum: read_be16(payload, 12),
                },
            ),
            None => Err(PayloadError::UnknownStatusCode(payload[9])),
        }
    }
}

impl FromPayload for RegModelResult {
    open spec fn decoded(payload: Seq<u8>) -> Result<Self, PayloadError> {
        if payload.len() < 12 {
            Err(PayloadError::MalformedReply)
        } else {
            match RegModelStatus::from_code(payload[9]) {
                Some(c) => Ok(
                    RegModelResult {
                        address: be32_at(payload, 2),
                        confirmation_code: c,
                        checksum: be16_at(payload, 10),
                    },
                ),
                None => Err(PayloadError::UnknownStatusCode(payload[9])),
            }
        }
    }

    fn from_payload(payload: &[u8]) -> (r: Result<Self, PayloadError>) {
        if payload.len() < 12 {
            return Err(PayloadError::MalformedReply);
        }
        match RegModelStatus::from(payload[9]) {
            Some(c) => Ok(
                RegModelResult {
                    address: read_be32(payload, 2),
                    confirmation_code: c,
                    checksum: read_be16(payload, 10),
                },
            ),
            None => Err(PayloadError::UnknownStatusCode(payload[9])),
        }
    }
}

impl FromPayload for StoreResult {
    open spec fn decoded(payload: Seq<u8>) -> Result<Self, PayloadError> {
        if payload.len() < 12 {
            Err(PayloadError::MalformedReply)
        } else {
            match StoreStatus::from_code(payload[9]) {
                Some(c) => Ok(
                    StoreResult {
                        address: be32_at(payload, 2),
                        confirmation_code: c,
                        checksum: be16_at(payload, 10),
                    },
                ),
                None => Err(PayloadError::UnknownStatusCode(payload[9])),
            }
        }
    }

    fn from_payload(payload: &[u8]) -> (r: Result<Self, PayloadError>) {
        if payload.len() < 12 {
            return Err(PayloadError::MalformedReply);
        }
        match StoreStatus::from(payload[9]) {
            Some(c) => Ok(
                StoreResult {
                    address: read_be32(payload, 2),
                    confirmation_code: c,
                    checksum: read_be16(payload, 10),
                },
            ),
            None => Err(PayloadError::UnknownStatusCode(payload[9])),
        }
    }
}

impl FromPayload for DeletCharResult {
    open spec fn decoded(payload: Seq<u8>) -> Result<Self, PayloadError> {
        if payload.len() < 12 {
            Err(PayloadError::MalformedReply)
        } else {
            match DeletCharStatus::from_code(payload[9]) {
                Some(c) => Ok(
                    DeletCharResult {
                        address: be32_at(payload, 2),
                        confirmation_code: c,
                        checksum: be16_at(payload, 10),
                    },
                ),
                None => Err(PayloadError::UnknownStatusCode(payload[9])),
            }
        }
    }

    fn from_payload(payload: &[u8]) -> (r: Result<Self, PayloadError>) {
        if payload.len() < 12 {
            return Err(PayloadError::MalformedReply);
        }
        match DeletCharStatus::from(payload[9]) {
            Some(c) => Ok(
                DeletCharResult {
                    address: read_be32(payload, 2),
                    confirmation_code: c,
                    checksum: read_be16(payload, 10),
                },
            ),
            None => Err(PayloadError::UnknownStatusCode(payload[9])),
        }
    }
}

/// `r` with its success value turned into a `Reply` by `f`.
pub open spec fn lift<T>(r: Result<T, PayloadError>, f: spec_fn(T) -> Reply) -> Result<
    Reply,
    PayloadError,
> {
    match r {
        Ok(x) => Ok(f(x)),
        Err(e) => Err(e),
    }
}

impl Reply {
    /// What the packet `payload` decodes to as the reply to `cmd`: each command has
    /// exactly one decoder.
    pub open spec fn decoded_for(cmd: Command, payload: Seq<u8>) -> Result<Reply, PayloadError> {
        match cmd {
            Command::ReadSysPara => lift(
                ReadSysParaResult::decoded(payload),
                |x| Reply::ReadSysPara(x),
            ),
            Command::VfyPwd { .. } => lift(VfyPwdResult::decoded(payload), |x| Reply::VfyPwd(x)),
            Command::GenImg => lift(GenImgResult::decoded(payload), |x| Reply::GenImg(x)),
            Command::Img2Tz { .. } => lift(Img2TzResult::decoded(payload), |x| Reply::Img2Tz(x)),
            Command::Search { .. } => lift(SearchResult::decoded(payload), |x| Reply::Search(x)),
            Command::LoadChar { .. } => lift(
                LoadCharResult::decoded(payload),
                |x| Reply::LoadChar(x),
            ),
            Command::Match => lift(MatchResult::decoded(payload), |x| Reply::Match(x)),
            Command::TemplateNum => lift(
                TemplateNumResult::decoded(payload),
                |x| Reply::TemplateNum(x),
            ),
            Command::RegModel => lift(RegModelResult::decoded(payload), |x| Reply::RegModel(x)),
            Command::Store { .. } => lift(StoreResult::decoded(payload), |x| Reply::Store(x)),
            Command::DeletChar { .. } => lift(
                DeletCharResult::decoded(payload),
                |x| Reply::DeletChar(x),
            ),
        }
    }

    /// True when `self` is the kind of reply that `cmd` asks for.
    pub open spec fn answers(self, cmd: Command) -> bool {
        match cmd {
            Command::ReadSysPara => self is ReadSysPara,
            Command::VfyPwd { .. } => self is VfyPwd,
            Command::GenImg => self is GenImg,
            Command::Img2Tz { .. } => self is Img2Tz,
            Command::Search { .. } => self is Search,
            Command::LoadChar { .. } => self is LoadChar,
            Command::Match => self is Match,
            Command::TemplateNum => self is TemplateNum,
            Command::RegModel => self is RegModel,
            Command::Store { .. } => self is Store,
            Command::DeletChar { .. } => self is DeletChar,
        }
    }

    /// The fewest bytes that a packet holding the reply to `cmd` has.
    pub open spec fn min_len(cmd: Command) -> nat {
        match cmd {
            Command::ReadSysPara => 28,
            Command::Search { .. } => 16,
            Command::Match => 14,
            Command::TemplateNum => 14,
            _ => 12,
        }
    }

    /// True when `byte` is a confirmation code that the reply to `cmd` defines.
    pub open spec fn status_defined(cmd: Command, byte: u8) -> bool {
        match cmd {
            Command::ReadSysPara => true,
            Command::VfyPwd { .. } => PasswordVerificationState::from_code(byte) is Some,
            Command::GenImg => GenImgStatus::from_code(byte) is Some,
            Command::Img2Tz { .. } => Img2TzStatus::from_code(byte) is Some,
            Command::Search { .. } => SearchStatus::from_code(byte) is Some,
            Command::LoadChar { .. } => LoadCharStatus::from_code(byte) is Some,
            Command::Match => MatchStatus::from_code(byte) is Some,
            Command::TemplateNum => TemplateNumStatus::from_code(byte) is Some,
            Command::RegModel => RegModelStatus::from_code(byte) is Some,
            Command::Store { .. } => StoreStatus::from_code(byte) is Some,
            Command::DeletChar { .. } => DeletCharStatus::from_code(byte) is Some,
        }
    }

    /// Decodes the packet `payload` with the decoder registered for `cmd`.
    pub fn from_packet(cmd: &Command, payload: &[u8]) -> (r: Result<Reply, PayloadError>)
        ensures
            r == Self::decoded_for(*cmd, payload@),
    {
        match cmd {
            Command::ReadSysPara => match ReadSysParaResult::from_payload(payload) {
                Ok(x) => Ok(Reply::ReadSysPara(x)),
                Err(e) => Err(e),
            },
            Command::VfyPwd { .. } => match VfyPwdResult::from_payload(payload) {
                Ok(x) => Ok(Reply::VfyPwd(x)),
                Err(e) => Err(e),
            },
            Command::GenImg => match GenImgResult::from_payload(payload) {
                Ok(x) => Ok(Reply::GenImg(x)),
                Err(e) => Err(e),
            },
            Command::Img2Tz { .. } => match Img2TzResult::from_payload(payload) {
                Ok(x) => Ok(Reply::Img2Tz(x)),
                Err(e) => Err(e),
            },
            Command::Search { .. } => match SearchResult::from_payload(payload) {
                Ok(x) => Ok(Reply::Search(x)),
                Err(e) => Err(e),
            },
            Command::LoadChar { .. } => match LoadCharResult::from_payload(payload) {
                Ok(x) => Ok(Reply::LoadChar(x)),
                Err(e) => Err(e),
            },
            Command::Match => match MatchResult::from_payload(payload) {
                Ok(x) => Ok(Reply::Match(x)),
                Err(e) => Err(e),
            },
            Command::TemplateNum => match TemplateNumResult::from_payload(payload) {
                Ok(x) => Ok(Reply::TemplateNum(x)),
                Err(e) => Err(e),
            },
            Command::RegModel => match RegModelResult::from_payload(payload) {
                Ok(x) => Ok(Reply::RegModel(x)),
                Err(e) => Err(e),
            },
            Command::Store { .. } => match StoreResult::from_payload(payload) {
                Ok(x) => Ok(Reply::Store(x)),
                Err(e) => Err(e),
            },
            Command::DeletChar { .. } => match DeletCharResult::from_payload(payload) {
                Ok(x) => Ok(Reply::DeletChar(x)),
                Err(e) => Err(e),
            },
        }
    }
}

/// Dispatch is total and exact: a packet decodes as the reply to `cmd` exactly when it is
/// long enough for that kind and carries a confirmation code that the kind defines, and
/// what it decodes to is always the kind of reply that `cmd` asks for.
pub proof fn lemma_decoded_reply_answers_command(cmd: Command, payload: Seq<u8>)
    ensures
        Reply::decoded_for(cmd, payload) is Ok <==> (payload.len() >= Reply::min_len(cmd)
            && Reply::status_defined(cmd, payload[9])),
        Reply::decoded_for(cmd, payload) matches Ok(r) ==> r.answers(cmd),
{
}

} // verus!
