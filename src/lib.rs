//! Host-side driver core for the HZ Grow R502 capacitive fingerprint module.
//!
//! The module speaks a fixed binary packet format over a serial line. This crate frames
//! commands, computes the protocol checksum, tracks the one command in flight, collects
//! the reply and decodes it into a typed `Reply`. Moving bytes over the serial port is
//! left to the caller.
pub mod buffer;
pub mod commands;
pub mod driver;
mod responses;
pub mod status;
pub mod utils;
pub mod wire;

pub use crate::commands::Command;
pub use crate::driver::{CMD_CAPACITY, R502, RECEIVE_CAPACITY, REPLY_HEADER_LENGTH};
pub use crate::responses::{
    DeletCharResult, GenImgResult, Img2TzResult, LoadCharResult, MatchResult, ReadSysParaResult,
    RegModelResult, Reply, SearchResult, StoreResult, SystemParameters, TemplateNumResult,
    VfyPwdResult,
};
pub use crate::status::{
    DeletCharStatus, GenImgStatus, Img2TzStatus, LoadCharStatus, MatchStatus,
    PasswordVerificationState, RegModelStatus, SearchStatus, StoreStatus, TemplateNumStatus,
};
pub use crate::utils::{CommandWriter, Error, FromPayload, PayloadError, ToPayload};
