//! Command and response packet types of the stub-loader serial protocol,
//! together with their wire codes. The numeric codes are the contract
//! boundary with the host tool and must remain stable, so each enum comes
//! with an explicit code mapping.

use vstd::prelude::*;

verus! {

/// Size of a serialized response header, without the variable data bytes.
pub const RESPONSE_SIZE: usize = 10;

/// Protocol-level fault codes, surfaced to the host as the `error` byte of
/// an error response.
#[derive(Debug, Clone, Copy, PartialEq, Eq, Structural)]
pub enum Error {
    BadDataLen,
    BadDataChecksum,
    BadBlocksize,
    InvalidCommand,
    FailedSpiOp,
    FailedSpiUnlock,
    NotInFlashMode,
    Inflate,
    NotEnoughData,
    TooMuchData,
    CmdNotImplemented,
    /// Error while reading from SPI flash.
    Err0x63,
    /// Address to be erased is not aligned to the flash sector size.
    Err0x32,
    /// Length to be erased is not aligned to the flash sector size.
    Err0x33,
    /// Error while unlocking SPI flash.
    Err0x34,
    /// Error while erasing a flash sector.
    Err0x35,
    EraseErr,
}

impl Error {
    /// Wire value of the error code.
    pub open spec fn spec_code(self) -> u8 {
        match self {
            Error::BadDataLen => 0xC0,
            Error::BadDataChecksum => 0xC1,
            Error::BadBlocksize => 0xC2,
            Error::InvalidCommand => 0xC3,
            Error::FailedSpiOp => 0xC4,
            Error::FailedSpiUnlock => 0xC5,
            Error::NotInFlashMode => 0xC6,
            Error::Inflate => 0xC7,
            Error::NotEnoughData => 0xC8,
            Error::TooMuchData => 0xC9,
            Error::CmdNotImplemented => 0xFF,
            Error::Err0x63 => 0x63,
            Error::Err0x32 => 0x32,
            Error::Err0x33 => 0x33,
            Error::Err0x34 => 0x34,
            Error::Err0x35 => 0x35,
            Error::EraseErr => 0x36,
        }
    }

    /// Wire value of the error code.
    pub fn code(&self) -> (r: u8)
        ensures
            r == self.spec_code(),
    {
        match self {
            Error::BadDataLen => 0xC0,
            Error::BadDataChecksum => 0xC1,
            Error::BadBlocksize => 0xC2,
            Error::InvalidCommand => 0xC3,
            Error::FailedSpiOp => 0xC4,
            Error::FailedSpiUnlock => 0xC5,
            Error::NotInFlashMode => 0xC6,
            Error::Inflate => 0xC7,
            Error::NotEnoughData => 0xC8,
            Error::TooMuchData => 0xC9,
            Error::CmdNotImplemented => 0xFF,
            Error::Err0x63 => 0x63,
            Error::Err0x32 => 0x32,
            Error::Err0x33 => 0x33,
            Error::Err0x34 => 0x34,
            Error::Err0x35 => 0x35,
            Error::EraseErr => 0x36,
        }
    }
}

/// Command identifier.
#[derive(Debug, Clone, Copy, PartialEq, Eq, Structural)]
pub enum CommandCode {
    FlashBegin,
    FlashData,
    FlashEnd,
    MemBegin,
    MemEnd,
    MemData,
    Sync,
    WriteReg,
    ReadReg,
    SpiSetParams,
    SpiAttach,
    ChangeBaudrate,
    FlashDeflBegin,
    FlashDeflData,
    FlashDeflEnd,
    SpiFlashMd5,
    GetSecurityInfo,
    EraseFlash,
    EraseRegion,
    ReadFlash,
    RunUserCode,
    FlashEncryptedData,
}

impl CommandCode {
    /// Wire value of the command identifier.
    pub open spec fn spec_byte(self) -> u8 {
        match self {
            CommandCode::FlashBegin => 0x02,
            CommandCode::FlashData => 0x03,
            CommandCode::FlashEnd => 0x04,
            CommandCode::MemBegin => 0x05,
            CommandCode::MemEnd => 0x06,
            CommandCode::MemData => 0x07,
            CommandCode::Sync => 0x08,
            CommandCode::WriteReg => 0x09,
            CommandCode::ReadReg => 0x0A,
            CommandCode::SpiSetParams => 0x0B,
            CommandCode::SpiAttach => 0x0D,
            CommandCode::ChangeBaudrate => 0x0F,
            CommandCode::FlashDeflBegin => 0x10,
            CommandCode::FlashDeflData => 0x11,
            CommandCode::FlashDeflEnd => 0x12,
            CommandCode::SpiFlashMd5 => 0x13,
            CommandCode::GetSecurityInfo => 0x14,
            CommandCode::EraseFlash => 0xD0,
            CommandCode::EraseRegion => 0xD1,
            CommandCode::ReadFlash => 0xD2,
            CommandCode::RunUserCode => 0xD3,
            CommandCode::FlashEncryptedData => 0xD4,
        }
    }

    /// Wire value of the command identifier.
    pub fn byte(&self) -> (r: u8)
        ensures
            r == self.spec_byte(),
    {
        match self {
            CommandCode::FlashBegin => 0x02,
            CommandCode::FlashData => 0x03,
            CommandCode::FlashEnd => 0x04,
            CommandCode::MemBegin => 0x05,
            CommandCode::MemEnd => 0x06,
            CommandCode::MemData => 0x07,
            CommandCode::Sync => 0x08,
            CommandCode::WriteReg => 0x09,
            CommandCode::ReadReg => 0x0A,
            CommandCode::SpiSetParams => 0x0B,
            CommandCode::SpiAttach => 0x0D,
            CommandCode::ChangeBaudrate => 0x0F,
            CommandCode::FlashDeflBegin => 0x10,
            CommandCode::FlashDeflData => 0x11,
            CommandCode::FlashDeflEnd => 0x12,
            CommandCode::SpiFlashMd5 => 0x13,
            CommandCode::GetSecurityInfo => 0x14,
            CommandCode::EraseFlash => 0xD0,
            CommandCode::EraseRegion => 0xD1,
            CommandCode::ReadFlash => 0xD2,
            CommandCode::RunUserCode => 0xD3,
            CommandCode::FlashEncryptedData => 0xD4,
        }
    }

    /// The command identifier denoted by a wire byte, if any.
    pub open spec fn spec_from_byte(b: u8) -> Option<CommandCode> {
        if b == 0x02 { Some(CommandCode::FlashBegin) }
        else if b == 0x03 { Some(CommandCode::FlashData) }
        else if b == 0x04 { Some(CommandCode::FlashEnd) }
        else if b == 0x05 { Some(CommandCode::MemBegin) }
        else if b == 0x06 { Some(CommandCode::MemEnd) }
        else if b == 0x07 { Some(CommandCode::MemData) }
        else if b == 0x08 { Some(CommandCode::Sync) }
        else if b == 0x09 { Some(CommandCode::WriteReg) }
        else if b == 0x0A { Some(CommandCode::ReadReg) }
        else if b == 0x0B { Some(CommandCode::SpiSetParams) }
        else if b == 0x0D { Some(CommandCode::SpiAttach) }
        else if b == 0x0F { Some(CommandCode::ChangeBaudrate) }
        else if b == 0x10 { Some(CommandCode::FlashDeflBegin) }
        else if b == 0x11 { Some(CommandCode::FlashDeflData) }
        else if b == 0x12 { Some(CommandCode::FlashDeflEnd) }
        else if b == 0x13 { Some(CommandCode::SpiFlashMd5) }
        else if b == 0x14 { Some(CommandCode::GetSecurityInfo) }
        else if b == 0xD0 { Some(CommandCode::EraseFlash) }
        else if b == 0xD1 { Some(CommandCode::EraseRegion) }
        else if b == 0xD2 { Some(CommandCode::ReadFlash) }
        else if b == 0xD3 { Some(CommandCode::RunUserCode) }
        else if b == 0xD4 { Some(CommandCode::FlashEncryptedData) }
        else { None }
    }

    /// The command identifier denoted by a wire byte, if any.
    pub fn from_byte(b: u8) -> (r: Option<CommandCode>)
        ensures
            r == Self::spec_from_byte(b),
    {
        if b == 0x02 { Some(CommandCode::FlashBegin) }
        else if b == 0x03 { Some(CommandCode::FlashData) }
        else if b == 0x04 { Some(CommandCode::FlashEnd) }
        else if b == 0x05 { Some(CommandCode::MemBegin) }
        else if b == 0x06 { Some(CommandCode::MemEnd) }
        else if b == 0x07 { Some(CommandCode::MemData) }
        else if b == 0x08 { Some(CommandCode::Sync) }
        else if b == 0x09 { Some(CommandCode::WriteReg) }
        else if b == 0x0A { Some(CommandCode::ReadReg) }
        else if b == 0x0B { Some(CommandCode::SpiSetParams) }
        else if b == 0x0D { Some(CommandCode::SpiAttach) }
        else if b == 0x0F { Some(CommandCode::ChangeBaudrate) }
        else if b == 0x10 { Some(CommandCode::FlashDeflBegin) }
        else if b == 0x11 { Some(CommandCode::FlashDeflData) }
        else if b == 0x12 { Some(CommandCode::FlashDeflEnd) }
        else if b == 0x13 { Some(CommandCode::SpiFlashMd5) }
        else if b == 0x14 { Some(CommandCode::GetSecurityInfo) }
        else if b == 0xD0 { Some(CommandCode::EraseFlash) }
        else if b == 0xD1 { Some(CommandCode::EraseRegion) }
        else if b == 0xD2 { Some(CommandCode::ReadFlash) }
        else if b == 0xD3 { Some(CommandCode::RunUserCode) }
        else if b == 0xD4 { Some(CommandCode::FlashEncryptedData) }
        else { None }
    }
}

/// Decoding a command identifier's wire byte gives back that identifier.
pub proof fn lemma_code_byte_inverse(c: CommandCode)
    ensures
        CommandCode::spec_from_byte(c.spec_byte()) == Some(c),
{
}

/// Direction of a packet.
#[derive(Debug, Clone, Copy, PartialEq, Eq, Structural)]
pub enum Direction {
    /// Requests
    In,
    /// Responses
    Out,
}

impl Direction {
    /// Wire value of the direction field.
    pub open spec fn spec_byte(self) -> u8 {
        match self {
            Direction::In => 0x00,
            Direction::Out => 0x01,
        }
    }

    /// Wire value of the direction field.
    pub fn byte(&self) -> (r: u8)
        ensures
            r == self.spec_byte(),
    {
        match self {
            Direction::In => 0x00,
            Direction::Out => 0x01,
        }
    }
}

/// Command packet header, common to every command.
#[derive(Debug, Clone, Copy, PartialEq, Eq, Structural)]
pub struct CommandBase {
    /// Direction of the packet. Always `In` for commands.
    pub direction: Direction,
    /// Command identifier.
    pub code: CommandCode,
    /// Length of the body that follows the header, in bytes.
    pub size: u16,
    /// Simple checksum over the payload (only used for the Data commands).
    pub checksum: u32,
}

/// SYNC command input data. The payload must hold the 36-byte magic:
/// `0x07 0x07 0x12 0x20` followed by 32 times `0x55`.
#[derive(Debug, Clone, PartialEq, Eq)]
pub struct SyncCommand {
    pub base: CommandBase,
    /// 36 bytes: 0x07 0x07 0x12 0x20, followed by 32 x 0x55.
    pub payload: Vec<u8>,
}

/// Begin commands input data (FlashBegin, FlashDeflBegin, MemBegin).
#[derive(Debug, Clone, Copy, PartialEq, Eq, Structural)]
pub struct BeginCommand {
    pub base: CommandBase,
    /// Size to erase.
    pub total_size: u32,
    /// Number of data packets.
    pub packet_count: u32,
    /// Data size in one packet.
    pub packet_size: u32,
    /// Flash offset.
    pub offset: u32,
}

/// Data commands input data (FlashData, FlashDeflData, MemData). The
/// variable-length payload travels beside this fixed part.
#[derive(Debug, Clone, Copy, PartialEq, Eq, Structural)]
pub struct DataCommand {
    pub base: CommandBase,
    /// Payload size.
    pub size: u32,
    /// Sequence number.
    pub sequence_num: u32,
    /// 0, 0
    pub reserved0: u32,
    /// 0, 0
    pub reserved1: u32,
}

/// End commands input data (FlashEnd, FlashDeflEnd).
#[derive(Debug, Clone, Copy, PartialEq, Eq, Structural)]
pub struct EndFlashCommand {
    pub base: CommandBase,
    /// Raw field: 0 means reboot, 1 means run user code.
    pub reboot: bool,
}

impl EndFlashCommand {
    /// Whether the caller should reboot the chip: the raw field is
    /// inverted, a raw 0 asks for a reboot.
    pub fn should_reboot(&self) -> (r: bool)
        ensures
            r == !self.reboot,
    {
        !self.reboot
    }
}

/// MEM_END command input data.
#[derive(Debug, Clone, Copy, PartialEq, Eq, Structural)]
pub struct MemEndCommand {
    pub base: CommandBase,
    /// Execute flag: 0 asks to jump to `entrypoint`.
    pub stay_in_stub: u32,
    /// Entry point address; opaque to this layer, never dereferenced here.
    pub entrypoint: u32,
}

/// WRITE_REG command input data.
#[derive(Debug, Clone, Copy, PartialEq, Eq, Structural)]
pub struct WriteRegCommand {
    pub base: CommandBase,
    /// Address.
    pub address: u32,
    /// Value.
    pub value: u32,
    /// Mask.
    pub mask: u32,
    /// Delay in microseconds.
    pub delay_us: u32,
}

/// READ_REG command input data.
#[derive(Debug, Clone, Copy, PartialEq, Eq, Structural)]
pub struct ReadRegCommand {
    pub base: CommandBase,
    /// Address.
    pub address: u32,
}

/// Parameters of the attached SPI flash chip (sizes, etc).
#[derive(Debug, Clone, Copy, PartialEq, Eq, Structural)]
pub struct SpiParams {
    /// Flash chip ID.
    pub id: u32,
    /// Total size in bytes.
    pub total_size: u32,
    /// Block size.
    pub block_size: u32,
    /// Sector size.
    pub sector_size: u32,
    /// Page size.
    pub page_size: u32,
    /// Status mask.
    pub status_mask: u32,
}

/// SPI_SET_PARAMS command input data.
#[derive(Debug, Clone, Copy, PartialEq, Eq, Structural)]
pub struct SpiSetParamsCommand {
    pub base: CommandBase,
    /// SPI parameters.
    pub params: SpiParams,
}

/// Parameters for attaching to a target device's SPI flash.
#[derive(Debug, Clone, Copy, PartialEq, Eq, Structural)]
pub struct SpiAttachParams {
    /// CLK pin.
    pub clk: u8,
    /// Q pin.
    pub q: u8,
    /// D pin.
    pub d: u8,
    /// HD pin.
    pub hd: u8,
    /// CS pin.
    pub cs: u8,
}

/// SPI_ATTACH command input data.
#[derive(Debug, Clone, Copy, PartialEq, Eq, Structural)]
pub struct SpiAttachCommand {
    pub base: CommandBase,
    /// SPI attach parameters.
    pub params: SpiAttachParams,
}

/// CHANGE_BAUDRATE command input data.
#[derive(Debug, Clone, Copy, PartialEq, Eq, Structural)]
pub struct ChangeBaudrateCommand {
    pub base: CommandBase,
    /// New baud rate.
    pub new: u32,
    /// 0 if we are talking to the ROM loader, or the current/old baud rate
    /// if we are talking to the stub loader.
    pub old: u32,
}

/// SPI_FLASH_MD5 command input data.
#[derive(Debug, Clone, Copy, PartialEq, Eq, Structural)]
pub struct SpiFlashMd5Command {
    pub base: CommandBase,
    /// Address.
    pub address: u32,
    /// Size.
    pub size: u32,
    /// 0, 0
    pub reserved0: u32,
    /// 0, 0
    pub reserved1: u32,
}

/// ERASE_REGION command input data.
#[derive(Debug, Clone, Copy, PartialEq, Eq, Structural)]
pub struct EraseRegionCommand {
    pub base: CommandBase,
    /// Address.
    pub address: u32,
    /// Size.
    pub size: u32,
}

/// Parameters of READ_FLASH.
#[derive(Debug, Clone, Copy, PartialEq, Eq, Structural)]
pub struct ReadFlashParams {
    /// Flash offset.
    pub address: u32,
    /// Read size.
    pub total_size: u32,
    /// Size of each individual packet of data.
    pub packet_size: u32,
    /// Maximum number of un-acked packets.
    pub max_in_flight: u32,
}

/// READ_FLASH command input data.
#[derive(Debug, Clone, Copy, PartialEq, Eq, Structural)]
pub struct ReadFlashCommand {
    pub base: CommandBase,
    /// Read Flash parameters.
    pub params: ReadFlashParams,
}

/// A decoded command: the tagged union over all supported operations.
/// Data-carrying variants hold their variable-length payload beside the
/// fixed fields. Commands whose code is known but which this stub does not
/// implement decode to `Unsupported`.
#[derive(Debug, Clone, PartialEq, Eq)]
pub enum Command {
    Sync(SyncCommand),
    FlashBegin(BeginCommand),
    FlashData(DataCommand, Vec<u8>),
    FlashEnd(EndFlashCommand),
    MemBegin(BeginCommand),
    MemEnd(MemEndCommand),
    MemData(DataCommand, Vec<u8>),
    WriteReg(WriteRegCommand),
    ReadReg(ReadRegCommand),
    SpiSetParams(SpiSetParamsCommand),
    SpiAttach(SpiAttachCommand),
    ChangeBaudrate(ChangeBaudrateCommand),
    FlashDeflBegin(BeginCommand),
    FlashDeflData(DataCommand, Vec<u8>),
    FlashDeflEnd(EndFlashCommand),
    SpiFlashMd5(SpiFlashMd5Command),
    EraseRegion(EraseRegionCommand),
    ReadFlash(ReadFlashCommand),
    GetSecurityInfo(CommandBase),
    Unsupported(CommandBase),
}

impl Command {
    /// The command identifier a decoded command answers to.
    pub open spec fn spec_code(self) -> CommandCode {
        match self {
            Command::Sync(_) => CommandCode::Sync,
            Command::FlashBegin(_) => CommandCode::FlashBegin,
            Command::FlashData(_, _) => CommandCode::FlashData,
            Command::FlashEnd(_) => CommandCode::FlashEnd,
            Command::MemBegin(_) => CommandCode::MemBegin,
            Command::MemEnd(_) => CommandCode::MemEnd,
            Command::MemData(_, _) => CommandCode::MemData,
            Command::WriteReg(_) => CommandCode::WriteReg,
            Command::ReadReg(_) => CommandCode::ReadReg,
            Command::SpiSetParams(_) => CommandCode::SpiSetParams,
            Command::SpiAttach(_) => CommandCode::SpiAttach,
            Command::ChangeBaudrate(_) => CommandCode::ChangeBaudrate,
            Command::FlashDeflBegin(_) => CommandCode::FlashDeflBegin,
            Command::FlashDeflData(_, _) => CommandCode::FlashDeflData,
            Command::FlashDeflEnd(_) => CommandCode::FlashDeflEnd,
            Command::SpiFlashMd5(_) => CommandCode::SpiFlashMd5,
            Command::EraseRegion(_) => CommandCode::EraseRegion,
            Command::ReadFlash(_) => CommandCode::ReadFlash,
            Command::GetSecurityInfo(_) => CommandCode::GetSecurityInfo,
            Command::Unsupported(base) => base.code,
        }
    }

    /// The command identifier a decoded command answers to.
    pub fn code(&self) -> (r: CommandCode)
        ensures
            r == self.spec_code(),
    {
        match self {
            Command::Sync(_) => CommandCode::Sync,
            Command::FlashBegin(_) => CommandCode::FlashBegin,
            Command::FlashData(_, _) => CommandCode::FlashData,
            Command::FlashEnd(_) => CommandCode::FlashEnd,
            Command::MemBegin(_) => CommandCode::MemBegin,
            Command::MemEnd(_) => CommandCode::MemEnd,
            Command::MemData(_, _) => CommandCode::MemData,
            Command::WriteReg(_) => CommandCode::WriteReg,
            Command::ReadReg(_) => CommandCode::ReadReg,
            Command::SpiSetParams(_) => CommandCode::SpiSetParams,
            Command::SpiAttach(_) => CommandCode::SpiAttach,
            Command::ChangeBaudrate(_) => CommandCode::ChangeBaudrate,
            Command::FlashDeflBegin(_) => CommandCode::FlashDeflBegin,
            Command::FlashDeflData(_, _) => CommandCode::FlashDeflData,
            Command::FlashDeflEnd(_) => CommandCode::FlashDeflEnd,
            Command::SpiFlashMd5(_) => CommandCode::SpiFlashMd5,
            Command::EraseRegion(_) => CommandCode::EraseRegion,
            Command::ReadFlash(_) => CommandCode::ReadFlash,
            Command::GetSecurityInfo(_) => CommandCode::GetSecurityInfo,
            Command::Unsupported(base) => base.code,
        }
    }
}

/// Response packet.
#[derive(Debug, Clone, PartialEq, Eq)]
pub struct Response {
    /// Direction of the packet. Always `Out` for responses.
    pub direction: Direction,
    /// Same value as the command identifier in the request packet that
    /// triggered the response.
    pub command: CommandCode,
    /// Size of the data field. At least the length of the status bytes.
    pub size: u16,
    /// Response value used by the READ_REG command. Zero otherwise.
    pub value: u32,
    /// Status flag, success (0) or failure (1).
    pub status: u8,
    /// If status is 1, this indicates the type of error.
    pub error: u8,
    /// Variable length data payload. Length indicated by the `size` field.
    pub data: Vec<u8>,
}

impl Response {
    /// A fresh success response answering `cmd`, with no data.
    pub fn new(cmd: CommandCode) -> (r: Response)
        ensures
            r.direction == Direction::Out,
            r.command == cmd,
            r.size == 2,
            r.value == 0,
            r.status == 0,
            r.error == 0,
            r.data@ == Seq::<u8>::empty(),
    {
        Response {
            direction: Direction::Out,
            command: cmd,
            size: 2,
            value: 0,
            status: 0,
            error: 0,
            data: Vec::new(),
        }
    }

    /// Set the response value (used by READ_REG).
    pub fn value(&mut self, value: u32)
        ensures
            final(self).value == value,
            final(self).direction == old(self).direction,
            final(self).command == old(self).command,
            final(self).size == old(self).size,
            final(self).status == old(self).status,
            final(self).error == old(self).error,
            final(self).data@ == old(self).data@,
    {
        self.value = value;
    }

    /// Attach a data payload; the size field is recomputed as two status
    /// bytes plus the payload length.
    pub fn data(&mut self, data: &[u8])
        requires
            data@.len() + 2 <= u16::MAX,
        ensures
            final(self).size == 2 + data@.len(),
            final(self).data@ == data@,
            final(self).direction == old(self).direction,
            final(self).command == old(self).command,
            final(self).value == old(self).value,
            final(self).status == old(self).status,
            final(self).error == old(self).error,
    {
        self.size = 2 + data.len() as u16;
        self.data = vstd::slice::slice_to_vec(data);
    }

    /// Mark the response as failed with the given protocol error.
    pub fn error(&mut self, error: Error)
        ensures
            final(self).status == 1,
            final(self).error == error.spec_code(),
            final(self).direction == old(self).direction,
            final(self).command == old(self).command,
            final(self).size == old(self).size,
            final(self).value == old(self).value,
            final(self).data@ == old(self).data@,
    {
        self.status = 1;
        self.error = error.code();
    }
}

} // verus!
