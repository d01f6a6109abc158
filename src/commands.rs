//! The commands that the R502 understands and their encoding.
use vstd::prelude::*;
use crate::utils::{CommandWriter, ToPayload};
use crate::wire::{be16_bytes, be16_encode, be32_bytes, be32_encode};

verus! {

/// Commands that one can send to the R502.
///
/// Command naming and some field names follow the R502 datasheet.
#[derive(Debug, Clone, Copy, PartialEq, Eq, Structural)]
pub enum Command {
    /// Reads system status and configuration.
    ReadSysPara,
    /// Performs a handshake with the device to verify the password.
    /// The default password on the R502 is 0x00000000.
    VfyPwd {
        /// The device password.
        password: u32,
    },
    /// Captures an image of the fingerprint into the _image buffer_.
    GenImg,
    /// Processes the image from the _image buffer_ into one of the two _character buffers_.
    Img2Tz {
        /// Which buffer to store the processed fingerprint data into.
        ///
        /// **Note:** The buffers are named **1** and **2**. Any other value means 2.
        buffer: u8,
    },
    /// Matches the captured fingerprint against a range of stored templates.
    Search {
        /// Which character buffer holds the fingerprint to search for (1 or 2).
        buffer: u8,
        /// Where the search starts from. 0-based.
        start_index: u16,
        /// Where the search stops.
        end_index: u16,
    },
    /// Loads a fingerprint _character file_ from the library into a _character buffer_.
    LoadChar {
        /// Which character buffer to load into (1 or 2).
        buffer: u8,
        /// Which fingerprint to load from the library (0-based index).
        index: u16,
    },
    /// Matches the two _character buffers_ against each other.
    Match,
    /// Returns the next valid index at which a new fingerprint can be enrolled.
    TemplateNum,
    /// Combines the two _character buffers_ into a _template_, returned into both buffers.
    RegModel,
    /// Stores the template from the given buffer into the library.
    ///
    /// **Note:** This overwrites an existing template at `index`.
    Store {
        /// Which character buffer to read the template from (1 or 2).
        buffer: u8,
        /// Which index in the library to store the template into.
        index: u16,
    },
    /// Deletes enrolled templates starting from the given index.
    DeletChar {
        /// Index of the first template to delete.
        start_index: u16,
        /// Number of templates to delete.
        num_to_delete: u16,
    },
}

impl Command {
    /// The instruction byte of the command.
    pub open spec fn opcode(self) -> u8 {
        match self {
            Command::ReadSysPara => 0x0F,
            Command::VfyPwd { .. } => 0x13,
            Command::GenImg => 0x01,
            Command::Img2Tz { .. } => 0x02,
            Command::Search { .. } => 0x04,
            Command::LoadChar { .. } => 0x07,
            Command::Match => 0x03,
            Command::TemplateNum => 0x1D,
            Command::RegModel => 0x05,
            Command::Store { .. } => 0x06,
            Command::DeletChar { .. } => 0x0C,
        }
    }

    /// The parameter bytes that follow the instruction byte.
    pub open spec fn params(self) -> Seq<u8> {
        match self {
            Command::VfyPwd { password } => be32_bytes(password),
            Command::Img2Tz { buffer } => seq![buffer],
            Command::Search { buffer, start_index, end_index } => seq![buffer] + be16_bytes(
                start_index,
            ) + be16_bytes(end_index),
            Command::LoadChar { buffer, index } => seq![buffer] + be16_bytes(index),
            Command::Store { buffer, index } => seq![buffer] + be16_bytes(index),
            Command::DeletChar { start_index, num_to_delete } => be16_bytes(start_index)
                + be16_bytes(num_to_delete),
            _ => Seq::empty(),
        }
    }

    /// The number of bytes `to_payload` appends: the instruction byte and the parameters.
    pub fn payload_len(&self) -> (r: u16)
        ensures
            r == self.payload().len(),
            r <= 6,
    {
        match self {
            Command::VfyPwd { .. } => 5,
            Command::Img2Tz { .. } => 2,
            Command::Search { .. } => 6,
            Command::LoadChar { .. } => 4,
            Command::Store { .. } => 4,
            Command::DeletChar { .. } => 5,
            _ => 1,
        }
    }
}

impl ToPayload for Command {
    open spec fn payload(&self) -> Seq<u8> {
        seq![self.opcode()] + self.params()
    }

    fn to_payload<W: CommandWriter>(&self, writer: &mut W) {
        let ghost start = writer.written();
        match self {
            Command::ReadSysPara => {
                writer.write_cmd_bytes(&[0x0F]);
            },
            Command::VfyPwd { password } => {
                writer.write_cmd_bytes(&[0x13]);
                writer.write_cmd_bytes(&be32_encode(*password));
            },
            Command::GenImg => {
                writer.write_cmd_bytes(&[0x01]);
            },
            Command::Img2Tz { buffer } => {
                writer.write_cmd_bytes(&[0x02, *buffer]);
            },
            Command::Search { buffer, start_index, end_index } => {
                writer.write_cmd_bytes(&[0x04, *buffer]);
                writer.write_cmd_bytes(&be16_encode(*start_index));
                writer.write_cmd_bytes(&be16_encode(*end_index));
            },
            Command::LoadChar { buffer, index } => {
                writer.write_cmd_bytes(&[0x07, *buffer]);
                writer.write_cmd_bytes(&be16_encode(*index));
            },
            Command::Match => {
                writer.write_cmd_bytes(&[0x03]);
            },
            Command::TemplateNum => {
                writer.write_cmd_bytes(&[0x1D]);
            },
            Command::RegModel => {
                writer.write_cmd_bytes(&[0x05]);
            },
            Command::Store { buffer, index } => {
                writer.write_cmd_bytes(&[0x06, *buffer]);
                writer.write_cmd_bytes(&be16_encode(*index));
            },
            Command::DeletChar { start_index, num_to_delete } => {
                writer.write_cmd_bytes(&[0x0C]);
                writer.write_cmd_bytes(&be16_encode(*start_index));
                writer.write_cmd_bytes(&be16_encode(*num_to_delete));
            },
        }
        assert(writer.written() =~= start + self.payload());
    }
}

} // verus!
