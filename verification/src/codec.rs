//! Packet codec: interprets a raw byte buffer as a command header plus
//! command-specific body, and serializes a typed response into a byte
//! buffer. Every multi-byte field sits at a fixed offset in little-endian
//! order with no padding, byte-for-byte as the host tool lays it out.

use vstd::prelude::*;
use vstd::bytes::lemma_auto_spec_u16_to_from_le_bytes;
use vstd::bytes::lemma_auto_spec_u32_to_from_le_bytes;
use vstd::bytes::spec_u16_from_le_bytes;
use vstd::bytes::spec_u16_to_le_bytes;
use vstd::bytes::spec_u32_from_le_bytes;
use vstd::bytes::spec_u32_to_le_bytes;
use vstd::bytes::u16_from_le_bytes;
use vstd::bytes::u16_to_le_bytes;
use vstd::bytes::u32_from_le_bytes;
use vstd::bytes::u32_to_le_bytes;
use vstd::slice::slice_subrange;
use vstd::slice::slice_to_vec;
use crate::proto::BeginCommand;
use crate::proto::ChangeBaudrateCommand;
use crate::proto::Command;
use crate::proto::CommandBase;
use crate::proto::CommandCode;
use crate::proto::DataCommand;
use crate::proto::Direction;
use crate::proto::EndFlashCommand;
use crate::proto::EraseRegionCommand;
use crate::proto::Error;
use crate::proto::MemEndCommand;
use crate::proto::ReadFlashCommand;
use crate::proto::ReadFlashParams;
use crate::proto::ReadRegCommand;
use crate::proto::Response;
use crate::proto::SpiAttachCommand;
use crate::proto::SpiAttachParams;
use crate::proto::SpiFlashMd5Command;
use crate::proto::SpiParams;
use crate::proto::SpiSetParamsCommand;
use crate::proto::SyncCommand;
use crate::proto::WriteRegCommand;

verus! {

/// The little-endian 16-bit value at byte offset `i`.
pub open spec fn le16_at(b: Seq<u8>, i: int) -> u16 {
    spec_u16_from_le_bytes(b.subrange(i, i + 2))
}

/// The little-endian 32-bit value at byte offset `i`.
pub open spec fn le32_at(b: Seq<u8>, i: int) -> u32 {
    spec_u32_from_le_bytes(b.subrange(i, i + 4))
}

fn read_u16_at(buf: &[u8], i: usize) -> (r: u16)
    requires
        i + 2 <= buf@.len(),
    ensures
        r == le16_at(buf@, i as int),
{
    // the exec length pins the slice length, and so i + 2, within usize
    let n = buf.len();
    u16_from_le_bytes(slice_subrange(buf, i, i + 2))
}

fn read_u32_at(buf: &[u8], i: usize) -> (r: u32)
    requires
        i + 4 <= buf@.len(),
    ensures
        r == le32_at(buf@, i as int),
{
    // the exec length pins the slice length, and so i + 4, within usize
    let n = buf.len();
    u32_from_le_bytes(slice_subrange(buf, i, i + 4))
}

/// Spec-level image of a decoded command: the same shape as [`Command`],
/// with payloads as byte sequences.
pub ghost enum CmdSpec {
    Sync(CommandBase, Seq<u8>),
    FlashBegin(BeginCommand),
    FlashData(DataCommand, Seq<u8>),
    FlashEnd(EndFlashCommand),
    MemBegin(BeginCommand),
    MemEnd(MemEndCommand),
    MemData(DataCommand, Seq<u8>),
    WriteReg(WriteRegCommand),
    ReadReg(ReadRegCommand),
    SpiSetParams(SpiSetParamsCommand),
    SpiAttach(SpiAttachCommand),
    ChangeBaudrate(ChangeBaudrateCommand),
    FlashDeflBegin(BeginCommand),
    FlashDeflData(DataCommand, Seq<u8>),
    FlashDeflEnd(EndFlashCommand),
    SpiFlashMd5(SpiFlashMd5Command),
    EraseRegion(EraseRegionCommand),
    ReadFlash(ReadFlashCommand),
    GetSecurityInfo(CommandBase),
    Unsupported(CommandBase),
}

impl Command {
    /// The spec-level image of this command.
    pub open spec fn model(self) -> CmdSpec {
        match self {
            Command::Sync(c) => CmdSpec::Sync(c.base, c.payload@),
            Command::FlashBegin(c) => CmdSpec::FlashBegin(c),
            Command::FlashData(c, p) => CmdSpec::FlashData(c, p@),
            Command::FlashEnd(c) => CmdSpec::FlashEnd(c),
            Command::MemBegin(c) => CmdSpec::MemBegin(c),
            Command::MemEnd(c) => CmdSpec::MemEnd(c),
            Command::MemData(c, p) => CmdSpec::MemData(c, p@),
            Command::WriteReg(c) => CmdSpec::WriteReg(c),
            Command::ReadReg(c) => CmdSpec::ReadReg(c),
            Command::SpiSetParams(c) => CmdSpec::SpiSetParams(c),
            Command::SpiAttach(c) => CmdSpec::SpiAttach(c),
            Command::ChangeBaudrate(c) => CmdSpec::ChangeBaudrate(c),
            Command::FlashDeflBegin(c) => CmdSpec::FlashDeflBegin(c),
            Command::FlashDeflData(c, p) => CmdSpec::FlashDeflData(c, p@),
            Command::FlashDeflEnd(c) => CmdSpec::FlashDeflEnd(c),
            Command::SpiFlashMd5(c) => CmdSpec::SpiFlashMd5(c),
            Command::EraseRegion(c) => CmdSpec::EraseRegion(c),
            Command::ReadFlash(c) => CmdSpec::ReadFlash(c),
            Command::GetSecurityInfo(b) => CmdSpec::GetSecurityInfo(b),
            Command::Unsupported(b) => CmdSpec::Unsupported(b),
        }
    }
}

/// The command header as decoded from the first eight wire bytes, once the
/// direction byte and the code byte have been validated.
pub open spec fn spec_base(b: Seq<u8>, code: CommandCode) -> CommandBase {
    CommandBase { direction: Direction::In, code, size: le16_at(b, 2), checksum: le32_at(b, 4) }
}

/// Validation of a fixed-size body: the declared size must equal the
/// shape's body length, and the buffer must hold exactly the header plus
/// that body.
pub open spec fn spec_fixed_check(b: Seq<u8>, size: u16, expected: u16) -> Option<Error> {
    if size != expected {
        Some(Error::BadDataLen)
    } else if b.len() < 8 + expected {
        Some(Error::NotEnoughData)
    } else if b.len() > 8 + expected {
        Some(Error::TooMuchData)
    } else {
        None
    }
}

pub open spec fn spec_begin_body(b: Seq<u8>, base: CommandBase) -> BeginCommand {
    BeginCommand {
        base,
        total_size: le32_at(b, 8),
        packet_count: le32_at(b, 12),
        packet_size: le32_at(b, 16),
        offset: le32_at(b, 20),
    }
}

pub open spec fn spec_data_body(b: Seq<u8>, base: CommandBase) -> DataCommand {
    DataCommand {
        base,
        size: le32_at(b, 8),
        sequence_num: le32_at(b, 12),
        reserved0: le32_at(b, 16),
        reserved1: le32_at(b, 20),
    }
}

pub open spec fn spec_end_body(b: Seq<u8>, base: CommandBase) -> EndFlashCommand {
    EndFlashCommand { base, reboot: le32_at(b, 8) != 0 }
}

/// Decoding of the command-specific body, after the header has been read
/// and the code recognized. Fixed-size shapes are validated against their
/// body length; the Data shapes carry a variable payload whose length is
/// both implied by the header size and declared by the body's own size
/// field, and the two must agree. The codes this stub knows but does not
/// implement decode to `Unsupported` with their body ignored.
pub open spec fn spec_decode_body(b: Seq<u8>, code: CommandCode) -> Result<CmdSpec, Error> {
    let base = spec_base(b, code);
    match code {
        CommandCode::Sync => match spec_fixed_check(b, base.size, 36) {
            Some(e) => Err(e),
            None => Ok(CmdSpec::Sync(base, b.subrange(8, 44))),
        },
        CommandCode::FlashBegin => match spec_fixed_check(b, base.size, 16) {
            Some(e) => Err(e),
            None => Ok(CmdSpec::FlashBegin(spec_begin_body(b, base))),
        },
        CommandCode::MemBegin => match spec_fixed_check(b, base.size, 16) {
            Some(e) => Err(e),
            None => Ok(CmdSpec::MemBegin(spec_begin_body(b, base))),
        },
        CommandCode::FlashDeflBegin => match spec_fixed_check(b, base.size, 16) {
            Some(e) => Err(e),
            None => Ok(CmdSpec::FlashDeflBegin(spec_begin_body(b, base))),
        },
        CommandCode::FlashData => spec_decode_data(b, base, SessionFamily::Flash),
        CommandCode::MemData => spec_decode_data(b, base, SessionFamily::Mem),
        CommandCode::FlashDeflData => spec_decode_data(b, base, SessionFamily::FlashDefl),
        CommandCode::FlashEnd => match spec_fixed_check(b, base.size, 4) {
            Some(e) => Err(e),
            None => Ok(CmdSpec::FlashEnd(spec_end_body(b, base))),
        },
        CommandCode::FlashDeflEnd => match spec_fixed_check(b, base.size, 4) {
            Some(e) => Err(e),
            None => Ok(CmdSpec::FlashDeflEnd(spec_end_body(b, base))),
        },
        CommandCode::MemEnd => match spec_fixed_check(b, base.size, 8) {
            Some(e) => Err(e),
            None => Ok(
                CmdSpec::MemEnd(
                    MemEndCommand { base, stay_in_stub: le32_at(b, 8), entrypoint: le32_at(b, 12) },
                ),
            ),
        },
        CommandCode::WriteReg => match spec_fixed_check(b, base.size, 16) {
            Some(e) => Err(e),
            None => Ok(
                CmdSpec::WriteReg(
                    WriteRegCommand {
                        base,
                        address: le32_at(b, 8),
                        value: le32_at(b, 12),
                        mask: le32_at(b, 16),
                        delay_us: le32_at(b, 20),
                    },
                ),
            ),
        },
        CommandCode::ReadReg => match spec_fixed_check(b, base.size, 4) {
            Some(e) => Err(e),
            None => Ok(CmdSpec::ReadReg(ReadRegCommand { base, address: le32_at(b, 8) })),
        },
        CommandCode::SpiSetParams => match spec_fixed_check(b, base.size, 24) {
            Some(e) => Err(e),
            None => Ok(
                CmdSpec::SpiSetParams(
                    SpiSetParamsCommand {
                        base,
                        params: SpiParams {
                            id: le32_at(b, 8),
                            total_size: le32_at(b, 12),
                            block_size: le32_at(b, 16),
                            sector_size: le32_at(b, 20),
                            page_size: le32_at(b, 24),
                            status_mask: le32_at(b, 28),
                        },
                    },
                ),
            ),
        },
        CommandCode::SpiAttach => match spec_fixed_check(b, base.size, 5) {
            Some(e) => Err(e),
            None => Ok(
                CmdSpec::SpiAttach(
                    SpiAttachCommand {
                        base,
                        params: SpiAttachParams {
                            clk: b[8],
                            q: b[9],
                            d: b[10],
                            hd: b[11],
                            cs: b[12],
                        },
                    },
                ),
            ),
        },
        CommandCode::ChangeBaudrate => match spec_fixed_check(b, base.size, 8) {
            Some(e) => Err(e),
            None => Ok(
                CmdSpec::ChangeBaudrate(
                    ChangeBaudrateCommand { base, new: le32_at(b, 8), old: le32_at(b, 12) },
                ),
            ),
        },
        CommandCode::SpiFlashMd5 => match spec_fixed_check(b, base.size, 16) {
            Some(e) => Err(e),
            None => Ok(
                CmdSpec::SpiFlashMd5(
                    SpiFlashMd5Command {
                        base,
                        address: le32_at(b, 8),
                        size: le32_at(b, 12),
                        reserved0: le32_at(b, 16),
                        reserved1: le32_at(b, 20),
                    },
                ),
            ),
        },
        CommandCode::EraseRegion => match spec_fixed_check(b, base.size, 8) {
            Some(e) => Err(e),
            None => Ok(
                CmdSpec::EraseRegion(
                    EraseRegionCommand { base, address: le32_at(b, 8), size: le32_at(b, 12) },
                ),
            ),
        },
        CommandCode::ReadFlash => match spec_fixed_check(b, base.size, 16) {
            Some(e) => Err(e),
            None => Ok(
                CmdSpec::ReadFlash(
                    ReadFlashCommand {
                        base,
                        params: ReadFlashParams {
                            address: le32_at(b, 8),
                            total_size: le32_at(b, 12),
                            packet_size: le32_at(b, 16),
                            max_in_flight: le32_at(b, 20),
                        },
                    },
                ),
            ),
        },
        CommandCode::GetSecurityInfo => match spec_fixed_check(b, base.size, 0) {
            Some(e) => Err(e),
            None => Ok(CmdSpec::GetSecurityInfo(base)),
        },
        CommandCode::EraseFlash => Ok(CmdSpec::Unsupported(base)),
        CommandCode::RunUserCode => Ok(CmdSpec::Unsupported(base)),
        CommandCode::FlashEncryptedData => Ok(CmdSpec::Unsupported(base)),
    }
}

/// Which Data variant a data-shaped body decodes to.
pub ghost enum SessionFamily {
    Flash,
    FlashDefl,
    Mem,
}

/// Decoding of a data-shaped body: sixteen fixed bytes, then a payload of
/// exactly the length that both the header size field and the body's own
/// size field declare.
pub open spec fn spec_decode_data(b: Seq<u8>, base: CommandBase, fam: SessionFamily) -> Result<
    CmdSpec,
    Error,
> {
    if base.size < 16 {
        Err(Error::BadDataLen)
    } else if b.len() < 8 + base.size {
        Err(Error::NotEnoughData)
    } else if b.len() > 8 + base.size {
        Err(Error::TooMuchData)
    } else {
        let dc = spec_data_body(b, base);
        let payload = b.subrange(24, 8 + base.size);
        if dc.size > payload.len() {
            Err(Error::NotEnoughData)
        } else if dc.size < payload.len() {
            Err(Error::TooMuchData)
        } else {
            match fam {
                SessionFamily::Flash => Ok(CmdSpec::FlashData(dc, payload)),
                SessionFamily::FlashDefl => Ok(CmdSpec::FlashDeflData(dc, payload)),
                SessionFamily::Mem => Ok(CmdSpec::MemData(dc, payload)),
            }
        }
    }
}

/// Decoding of a whole command buffer: at least a header must be there,
/// the direction byte must mark a request, the code byte must be a known
/// command identifier, and the body must fit its shape.
pub open spec fn spec_decode(b: Seq<u8>) -> Result<CmdSpec, Error> {
    if b.len() < 8 {
        Err(Error::NotEnoughData)
    } else if b[0] != Direction::In.spec_byte() {
        Err(Error::InvalidCommand)
    } else {
        match CommandCode::spec_from_byte(b[1]) {
            None => Err(Error::InvalidCommand),
            Some(code) => spec_decode_body(b, code),
        }
    }
}

fn check_fixed(buf: &[u8], size: u16, expected: u16) -> (r: Option<Error>)
    ensures
        r == spec_fixed_check(buf@, size, expected),
{
    if size != expected {
        Some(Error::BadDataLen)
    } else if buf.len() < 8 + expected as usize {
        Some(Error::NotEnoughData)
    } else if buf.len() > 8 + expected as usize {
        Some(Error::TooMuchData)
    } else {
        None
    }
}

fn read_begin_body(buf: &[u8], base: CommandBase) -> (r: BeginCommand)
    requires
        buf@.len() >= 24,
    ensures
        r == spec_begin_body(buf@, base),
{
    BeginCommand {
        base,
        total_size: read_u32_at(buf, 8),
        packet_count: read_u32_at(buf, 12),
        packet_size: read_u32_at(buf, 16),
        offset: read_u32_at(buf, 20),
    }
}

fn read_end_body(buf: &[u8], base: CommandBase) -> (r: EndFlashCommand)
    requires
        buf@.len() >= 12,
    ensures
        r == spec_end_body(buf@, base),
{
    EndFlashCommand { base, reboot: read_u32_at(buf, 8) != 0 }
}

/// Decode one raw buffer into a typed command, or the protocol error that
/// its response must carry.
pub fn decode(buf: &[u8]) -> (r: Result<Command, Error>)
    ensures
        match spec_decode(buf@) {
            Ok(cs) => r matches Ok(c) && c.model() == cs,
            Err(e) => r == Err::<Command, Error>(e),
        },
{
    if buf.len() < 8 {
        return Err(Error::NotEnoughData);
    }
    if buf[0] != 0x00 {
        return Err(Error::InvalidCommand);
    }
    let code = match CommandCode::from_byte(buf[1]) {
        None => {
            return Err(Error::InvalidCommand);
        },
        Some(code) => code,
    };
    let size = read_u16_at(buf, 2);
    let checksum = read_u32_at(buf, 4);
    let base = CommandBase { direction: Direction::In, code, size, checksum };
    match code {
        CommandCode::Sync => match check_fixed(buf, size, 36) {
            Some(e) => Err(e),
            None => Ok(
                Command::Sync(SyncCommand { base, payload: slice_to_vec(slice_subrange(buf, 8, 44)) }),
            ),
        },
        CommandCode::FlashBegin => match check_fixed(buf, size, 16) {
            Some(e) => Err(e),
            None => Ok(Command::FlashBegin(read_begin_body(buf, base))),
        },
        CommandCode::MemBegin => match check_fixed(buf, size, 16) {
            Some(e) => Err(e),
            None => Ok(Command::MemBegin(read_begin_body(buf, base))),
        },
        CommandCode::FlashDeflBegin => match check_fixed(buf, size, 16) {
            Some(e) => Err(e),
            None => Ok(Command::FlashDeflBegin(read_begin_body(buf, base))),
        },
        CommandCode::FlashData => decode_data(buf, base, 0),
        CommandCode::FlashDeflData => decode_data(buf, base, 1),
        CommandCode::MemData => decode_data(buf, base, 2),
        CommandCode::FlashEnd => match check_fixed(buf, size, 4) {
            Some(e) => Err(e),
            None => Ok(Command::FlashEnd(read_end_body(buf, base))),
        },
        CommandCode::FlashDeflEnd => match check_fixed(buf, size, 4) {
            Some(e) => Err(e),
            None => Ok(Command::FlashDeflEnd(read_end_body(buf, base))),
        },
        CommandCode::MemEnd => match check_fixed(buf, size, 8) {
            Some(e) => Err(e),
            None => Ok(
                Command::MemEnd(
                    MemEndCommand {
                        base,
                        stay_in_stub: read_u32_at(buf, 8),
                        entrypoint: read_u32_at(buf, 12),
                    },
                ),
            ),
        },
        CommandCode::WriteReg => match check_fixed(buf, size, 16) {
            Some(e) => Err(e),
            None => Ok(
                Command::WriteReg(
                    WriteRegCommand {
                        base,
                        address: read_u32_at(buf, 8),
                        value: read_u32_at(buf, 12),
                        mask: read_u32_at(buf, 16),
                        delay_us: read_u32_at(buf, 20),
                    },
                ),
            ),
        },
        CommandCode::ReadReg => match check_fixed(buf, size, 4) {
            Some(e) => Err(e),
            None => Ok(Command::ReadReg(ReadRegCommand { base, address: read_u32_at(buf, 8) })),
        },
        CommandCode::SpiSetParams => match check_fixed(buf, size, 24) {
            Some(e) => Err(e),
            None => Ok(
                Command::SpiSetParams(
                    SpiSetParamsCommand {
                        base,
                        params: SpiParams {
                            id: read_u32_at(buf, 8),
                            total_size: read_u32_at(buf, 12),
                            block_size: read_u32_at(buf, 16),
                            sector_size: read_u32_at(buf, 20),
                            page_size: read_u32_at(buf, 24),
                            status_mask: read_u32_at(buf, 28),
                        },
                    },
                ),
            ),
        },
        CommandCode::SpiAttach => match check_fixed(buf, size, 5) {
            Some(e) => Err(e),
            None => Ok(
                Command::SpiAttach(
                    SpiAttachCommand {
                        base,
                        params: SpiAttachParams {
                            clk: buf[8],
                            q: buf[9],
                            d: buf[10],
                            hd: buf[11],
                            cs: buf[12],
                        },
                    },
                ),
            ),
        },
        CommandCode::ChangeBaudrate => match check_fixed(buf, size, 8) {
            Some(e) => Err(e),
            None => Ok(
                Command::ChangeBaudrate(
                    ChangeBaudrateCommand {
                        base,
                        new: read_u32_at(buf, 8),
                        old: read_u32_at(buf, 12),
                    },
                ),
            ),
        },
        CommandCode::SpiFlashMd5 => match check_fixed(buf, size, 16) {
            Some(e) => Err(e),
            None => Ok(
                Command::SpiFlashMd5(
                    SpiFlashMd5Command {
                        base,
                        address: read_u32_at(buf, 8),
                        size: read_u32_at(buf, 12),
                        reserved0: read_u32_at(buf, 16),
                        reserved1: read_u32_at(buf, 20),
                    },
                ),
            ),
        },
        CommandCode::EraseRegion => match check_fixed(buf, size, 8) {
            Some(e) => Err(e),
            None => Ok(
                Command::EraseRegion(
                    EraseRegionCommand {
                        base,
                        address: read_u32_at(buf, 8),
                        size: read_u32_at(buf, 12),
                    },
                ),
            ),
        },
        CommandCode::ReadFlash => match check_fixed(buf, size, 16) {
            Some(e) => Err(e),
            None => Ok(
                Command::ReadFlash(
                    ReadFlashCommand {
                        base,
                        params: ReadFlashParams {
                            address: read_u32_at(buf, 8),
                            total_size: read_u32_at(buf, 12),
                            packet_size: read_u32_at(buf, 16),
                            max_in_flight: read_u32_at(buf, 20),
                        },
                    },
                ),
            ),
        },
        CommandCode::GetSecurityInfo => match check_fixed(buf, size, 0) {
            Some(e) => Err(e),
            None => Ok(Command::GetSecurityInfo(base)),
        },
        CommandCode::EraseFlash => Ok(Command::Unsupported(base)),
        CommandCode::RunUserCode => Ok(Command::Unsupported(base)),
        CommandCode::FlashEncryptedData => Ok(Command::Unsupported(base)),
    }
}

/// Decode a data-shaped body; `fam` selects the Flash (0), FlashDefl (1)
/// or Mem (2) variant.
fn decode_data(buf: &[u8], base: CommandBase, fam: u8) -> (r: Result<Command, Error>)
    requires
        buf@.len() >= 8,
        base.size == le16_at(buf@, 2),
        fam < 3,
    ensures
        ({
            let sf = if fam == 0 {
                SessionFamily::Flash
            } else if fam == 1 {
                SessionFamily::FlashDefl
            } else {
                SessionFamily::Mem
            };
            match spec_decode_data(buf@, base, sf) {
                Ok(cs) => r matches Ok(c) && c.model() == cs,
                Err(e) => r == Err::<Command, Error>(e),
            }
        }),
{
    if base.size < 16 {
        return Err(Error::BadDataLen);
    }
    let total: usize = 8 + base.size as usize;
    if buf.len() < total {
        return Err(Error::NotEnoughData);
    }
    if buf.len() > total {
        return Err(Error::TooMuchData);
    }
    let dc = DataCommand {
        base,
        size: read_u32_at(buf, 8),
        sequence_num: read_u32_at(buf, 12),
        reserved0: read_u32_at(buf, 16),
        reserved1: read_u32_at(buf, 20),
    };
    let payload = slice_to_vec(slice_subrange(buf, 24, total));
    if dc.size as usize > payload.len() {
        return Err(Error::NotEnoughData);
    }
    if (dc.size as usize) < payload.len() {
        return Err(Error::TooMuchData);
    }
    if fam == 0 {
        Ok(Command::FlashData(dc, payload))
    } else if fam == 1 {
        Ok(Command::FlashDeflData(dc, payload))
    } else {
        Ok(Command::MemData(dc, payload))
    }
}

/// The wire bytes of a response: the fixed ten-byte header — direction
/// marked as a response, the echoed command code, the recomputed size,
/// the value, the two status bytes — followed by the data verbatim.
pub open spec fn spec_encode_response(r: Response) -> Seq<u8> {
    seq![Direction::Out.spec_byte(), r.command.spec_byte()]
        + spec_u16_to_le_bytes((r.data@.len() + 2) as u16) + spec_u32_to_le_bytes(r.value)
        + seq![r.status, r.error] + r.data@
}

/// Serialize a response. The size field is always recomputed as two status
/// bytes plus the data length, and the direction always marks a response,
/// whatever the caller left in those fields.
pub fn encode_response(resp: &Response) -> (out: Vec<u8>)
    requires
        resp.data@.len() + 2 <= u16::MAX,
    ensures
        out@ == spec_encode_response(*resp),
        out@.len() == 10 + resp.data@.len(),
{
    proof {
        lemma_auto_spec_u16_to_from_le_bytes();
        lemma_auto_spec_u32_to_from_le_bytes();
    }
    let mut out: Vec<u8> = Vec::new();
    out.push(0x01);
    out.push(resp.command.byte());
    let mut sz = u16_to_le_bytes(2 + resp.data.len() as u16);
    out.append(&mut sz);
    let mut val = u32_to_le_bytes(resp.value);
    out.append(&mut val);
    out.push(resp.status);
    out.push(resp.error);
    let mut d = slice_to_vec(resp.data.as_slice());
    out.append(&mut d);
    proof {
        assert(out@ =~= spec_encode_response(*resp));
    }
    out
}

/// Spec-level image of a decoded response.
pub ghost struct RespSpec {
    pub direction: Direction,
    pub command: CommandCode,
    pub size: u16,
    pub value: u32,
    pub status: u8,
    pub error: u8,
    pub data: Seq<u8>,
}

/// Decoding of a response buffer, the mirror of encoding: at least the
/// ten-byte header must be there, the direction byte must mark a response,
/// the code byte must be known, the size field must count the two status
/// bytes, and the buffer must hold exactly the data the size declares.
pub open spec fn spec_decode_response(b: Seq<u8>) -> Result<RespSpec, Error> {
    if b.len() < 10 {
        Err(Error::NotEnoughData)
    } else if b[0] != Direction::Out.spec_byte() {
        Err(Error::InvalidCommand)
    } else {
        match CommandCode::spec_from_byte(b[1]) {
            None => Err(Error::InvalidCommand),
            Some(code) => {
                let size = le16_at(b, 2);
                if size < 2 {
                    Err(Error::BadDataLen)
                } else if b.len() < 8 + size {
                    Err(Error::NotEnoughData)
                } else if b.len() > 8 + size {
                    Err(Error::TooMuchData)
                } else {
                    Ok(
                        RespSpec {
                            direction: Direction::Out,
                            command: code,
                            size,
                            value: le32_at(b, 4),
                            status: b[8],
                            error: b[9],
                            data: b.subrange(10, b.len() as int),
                        },
                    )
                }
            },
        }
    }
}

/// Decode one raw buffer into a typed response, or the error that makes it
/// unreadable.
pub fn decode_response(buf: &[u8]) -> (r: Result<Response, Error>)
    ensures
        match spec_decode_response(buf@) {
            Ok(rs) => r matches Ok(resp) && {
                &&& resp.direction == rs.direction
                &&& resp.command == rs.command
                &&& resp.size == rs.size
                &&& resp.value == rs.value
                &&& resp.status == rs.status
                &&& resp.error == rs.error
                &&& resp.data@ == rs.data
            },
            Err(e) => r == Err::<Response, Error>(e),
        },
{
    if buf.len() < 10 {
        return Err(Error::NotEnoughData);
    }
    if buf[0] != 0x01 {
        return Err(Error::InvalidCommand);
    }
    let code = match CommandCode::from_byte(buf[1]) {
        None => {
            return Err(Error::InvalidCommand);
        },
        Some(code) => code,
    };
    let size = read_u16_at(buf, 2);
    if size < 2 {
        return Err(Error::BadDataLen);
    }
    let total: usize = 8 + size as usize;
    if buf.len() < total {
        return Err(Error::NotEnoughData);
    }
    if buf.len() > total {
        return Err(Error::TooMuchData);
    }
    Ok(
        Response {
            direction: Direction::Out,
            command: code,
            size,
            value: read_u32_at(buf, 4),
            status: buf[8],
            error: buf[9],
            data: slice_to_vec(slice_subrange(buf, 10, total)),
        },
    )
}

/// Round trip: encoding a response and decoding the bytes recovers the
/// command code, the value, the status and error bytes, and the data
/// payload, with the size recomputed from the data length.
pub proof fn lemma_response_round_trip(r: Response)
    requires
        r.data@.len() + 2 <= u16::MAX,
    ensures
        ({
            let d = spec_decode_response(spec_encode_response(r));
            &&& d is Ok
            &&& d->Ok_0.command == r.command
            &&& d->Ok_0.value == r.value
            &&& d->Ok_0.status == r.status
            &&& d->Ok_0.error == r.error
            &&& d->Ok_0.data == r.data@
            &&& d->Ok_0.size == 2 + r.data@.len()
        }),
{
    lemma_auto_spec_u16_to_from_le_bytes();
    lemma_auto_spec_u32_to_from_le_bytes();
    crate::proto::lemma_code_byte_inverse(r.command);
    let b = spec_encode_response(r);
    let s: u16 = (r.data@.len() + 2) as u16;
    assert(spec_u16_to_le_bytes(s).len() == 2);
    assert(spec_u32_to_le_bytes(r.value).len() == 4);
    assert(b.len() == 10 + r.data@.len());
    assert(b[0] == Direction::Out.spec_byte());
    assert(b[1] == r.command.spec_byte());
    assert(b.subrange(2, 4) =~= spec_u16_to_le_bytes(s));
    assert(le16_at(b, 2) == s);
    assert(b.subrange(4, 8) =~= spec_u32_to_le_bytes(r.value));
    assert(le32_at(b, 4) == r.value);
    assert(b[8] == r.status);
    assert(b[9] == r.error);
    assert(b.subrange(10, b.len() as int) =~= r.data@);
}

} // verus!
