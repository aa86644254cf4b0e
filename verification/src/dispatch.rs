//! Command dispatcher: maps each decoded command to the response it earns
//! and to the operation it authorizes on the device collaborators (flash,
//! SPI bus, registers, decompressor, execution transfer). The dispatcher
//! itself is pure protocol logic: it decides, and hands every side effect
//! out as an [`Action`] for the surrounding runtime to perform; the
//! runtime folds the device's outcome back in through [`Dispatcher::device_result`].

use vstd::prelude::*;
use vstd::slice::slice_to_vec;
use crate::codec::CmdSpec;
use crate::codec::spec_decode;
use crate::codec::decode;
use crate::proto::Command;
use crate::proto::CommandCode;
use crate::proto::Direction;
use crate::proto::Error;
use crate::proto::Response;
use crate::proto::SpiAttachParams;
use crate::proto::SpiParams;
use crate::readflow::ReadFlow;
use crate::session::FlashSession;
use crate::session::SessionKind;
use crate::session::spec_begin;
use crate::session::spec_data;
use crate::session::spec_end;

verus! {

/// Flash sector size: ERASE_REGION arguments must be aligned to it.
pub const FLASH_SECTOR_SIZE: u32 = 4096;

/// An operation on a device collaborator that a command authorizes. The
/// dispatcher never touches hardware: the surrounding runtime performs the
/// action and reports back.
#[derive(Debug, Clone, PartialEq, Eq)]
pub enum Action {
    /// Erase `size` bytes of flash at `address` (from a Begin command).
    Erase { address: u32, size: u32 },
    /// Write the payload to flash at `address`.
    WriteFlash { address: u64, data: Vec<u8> },
    /// Inflate the payload, then write it to flash at `address`.
    WriteFlashDefl { address: u64, data: Vec<u8> },
    /// Write the payload to memory at `address`.
    WriteMem { address: u64, data: Vec<u8> },
    /// Finalize a flash write; `reboot` reports whether the caller should
    /// reboot the chip.
    Finalize { reboot: bool },
    /// Transfer control to `entrypoint`; never returns on success.
    Jump { entrypoint: u32 },
    /// Apply `(current & !mask) | (value & mask)` to the register at
    /// `address`, then busy-wait `delay_us` microseconds.
    RegWrite { address: u32, value: u32, mask: u32, delay_us: u32 },
    /// Read the register at `address`; its value comes back in the
    /// response.
    RegRead { address: u32 },
    /// Configure the SPI flash chip geometry.
    SpiSetParams { params: SpiParams },
    /// Attach to the SPI flash over the given pins.
    SpiAttach { params: SpiAttachParams },
    /// Switch the transport baud rate, after the response has been sent.
    SetBaud { new_rate: u32, old_rate: u32 },
    /// Digest `size` bytes of flash at `address`; the digest comes back in
    /// the response as ASCII hex.
    Md5 { address: u32, size: u32 },
    /// Erase `size` bytes of flash at `address` (ERASE_REGION).
    EraseRegion { address: u32, size: u32 },
    /// Fetch the security info bytes; they come back in the response.
    SecurityInfo,
}

/// What one command steps to.
#[derive(Debug, Clone, PartialEq, Eq)]
pub enum Step {
    /// The protocol layer decided alone: send this response.
    Reply(Response),
    /// Perform the action, then build the response from its outcome
    /// through [`Dispatcher::device_result`].
    Act(Action),
    /// Send the response first, then perform the action (used where the
    /// host expects the acknowledgment before the effect).
    ReplyAndAct(Response, Action),
}

/// Which collaborator failed, when one did.
#[derive(Debug, Clone, Copy, PartialEq, Eq, Structural)]
pub enum DeviceFault {
    /// A SPI/flash driver operation failed.
    Spi,
    /// Unlocking the SPI flash failed.
    SpiUnlock,
    /// The decompressor rejected its input.
    Inflate,
    /// An erase operation failed.
    Erase,
    /// Reading from SPI flash failed.
    Read,
}

impl DeviceFault {
    /// The protocol error a device fault is reported as.
    pub open spec fn spec_error(self) -> Error {
        match self {
            DeviceFault::Spi => Error::FailedSpiOp,
            DeviceFault::SpiUnlock => Error::FailedSpiUnlock,
            DeviceFault::Inflate => Error::Inflate,
            DeviceFault::Erase => Error::EraseErr,
            DeviceFault::Read => Error::Err0x63,
        }
    }

    /// The protocol error a device fault is reported as.
    pub fn to_error(&self) -> (r: Error)
        ensures
            r == self.spec_error(),
    {
        match self {
            DeviceFault::Spi => Error::FailedSpiOp,
            DeviceFault::SpiUnlock => Error::FailedSpiUnlock,
            DeviceFault::Inflate => Error::Inflate,
            DeviceFault::Erase => Error::EraseErr,
            DeviceFault::Read => Error::Err0x63,
        }
    }
}

/// The outcome of an [`Action`], reported by the runtime: the value read
/// (registers) and the bytes fetched (digest, security info), or the
/// collaborator that failed.
#[derive(Debug, Clone, PartialEq, Eq)]
pub enum DeviceOutcome {
    Done { value: u32, data: Vec<u8> },
    Failed(DeviceFault),
}

/// A plain success response answering `code`: empty data, zero value.
pub open spec fn is_ok_response(r: Response, code: CommandCode) -> bool {
    &&& r.direction == Direction::Out
    &&& r.command == code
    &&& r.size == 2
    &&& r.value == 0
    &&& r.status == 0
    &&& r.error == 0
    &&& r.data@ == Seq::<u8>::empty()
}

/// An error response answering `code` with the error byte of `e`.
pub open spec fn is_err_response(r: Response, code: CommandCode, e: Error) -> bool {
    &&& r.direction == Direction::Out
    &&& r.command == code
    &&& r.size == 2
    &&& r.value == 0
    &&& r.status == 1
    &&& r.error == e.spec_code()
    &&& r.data@ == Seq::<u8>::empty()
}

fn ok_response(code: CommandCode) -> (r: Response)
    ensures
        is_ok_response(r, code),
{
    Response::new(code)
}

fn err_response(code: CommandCode, e: Error) -> (r: Response)
    ensures
        is_err_response(r, code, e),
{
    let mut r = Response::new(code);
    r.error(e);
    r
}

/// The byte the SYNC magic payload holds at offset `i`.
pub open spec fn sync_magic_byte(i: int) -> u8 {
    if i == 0 || i == 1 {
        0x07
    } else if i == 2 {
        0x12
    } else if i == 3 {
        0x20
    } else {
        0x55
    }
}

/// Whether a payload is exactly the 36-byte SYNC magic.
pub open spec fn is_sync_magic(p: Seq<u8>) -> bool {
    p.len() == 36 && (forall|i: int| 0 <= i < 36 ==> p[i] == sync_magic_byte(i))
}

/// Check a SYNC payload against the fixed magic.
pub fn check_sync_magic(p: &[u8]) -> (r: bool)
    ensures
        r == is_sync_magic(p@),
{
    if p.len() != 36 {
        return false;
    }
    let mut i: usize = 0;
    while i < 36
        invariant
            0 <= i <= 36,
            p@.len() == 36,
            forall|j: int| 0 <= j < i ==> p@[j] == sync_magic_byte(j),
        decreases 36 - i,
    {
        let expected: u8 = if i == 0 || i == 1 {
            0x07
        } else if i == 2 {
            0x12
        } else if i == 3 {
            0x20
        } else {
            0x55
        };
        if p[i] != expected {
            proof {
                assert(expected == sync_magic_byte(i as int));
                assert(!is_sync_magic(p@));
            }
            return false;
        }
        i = i + 1;
    }
    true
}

/// The nibble `n` as a lowercase ASCII hex digit.
pub open spec fn hex_digit(n: u8) -> u8 {
    if n < 10 {
        (n + 0x30) as u8
    } else {
        (n + 0x57) as u8
    }
}

/// A byte sequence as lowercase ASCII hex, two digits per byte.
pub open spec fn spec_hex(d: Seq<u8>) -> Seq<u8> {
    Seq::new(
        d.len() * 2,
        |i: int|
            if i % 2 == 0 {
                hex_digit(d[i / 2] >> 4)
            } else {
                hex_digit((d[i / 2] & 0xF) as u8)
            },
    )
}

fn hex_digit_of(n: u8) -> (r: u8)
    requires
        n < 16,
    ensures
        r == hex_digit(n),
{
    if n < 10 {
        n + 0x30
    } else {
        n + 0x57
    }
}

/// Encode bytes as lowercase ASCII hex, two digits per byte.
pub fn hex_encode(d: &[u8]) -> (out: Vec<u8>)
    requires
        d@.len() * 2 <= usize::MAX,
    ensures
        out@ == spec_hex(d@),
{
    let mut out: Vec<u8> = Vec::new();
    let mut i: usize = 0;
    while i < d.len()
        invariant
            0 <= i <= d@.len(),
            d@.len() * 2 <= usize::MAX,
            out@.len() == 2 * i,
            forall|j: int| 0 <= j < out@.len() ==> out@[j] == spec_hex(d@)[j],
        decreases d@.len() - i,
    {
        let b = d[i];
        let hi = b >> 4;
        let lo = b & 0xF;
        proof {
            assert(b >> 4 < 16 && b & 0xF < 16) by (bit_vector);
            assert((2 * i as int) / 2 == i as int);
            assert((2 * i as int + 1) / 2 == i as int);
        }
        out.push(hex_digit_of(hi));
        out.push(hex_digit_of(lo));
        i = i + 1;
    }
    proof {
        assert(out@ =~= spec_hex(d@));
    }
    out
}

/// The protocol engine: the flash-write session and the read-flow
/// controller, each a process-wide singleton.
#[derive(Debug, Clone, PartialEq, Eq)]
pub struct Dispatcher {
    /// The flash/mem write session state machine.
    pub session: FlashSession,
    /// The READ_FLASH flow controller, while a read transfer is open.
    pub read: Option<ReadFlow>,
}

/// What one command steps the engine to: the relation between the state
/// before (`pre`) and after (`post`), the command's spec-level image `c`,
/// and the step `r` handed back. The flash-family Begin commands delegate
/// an erase of the addressed region to the flash collaborator before they
/// succeed; a memory-write Begin targets RAM, so it opens its session with
/// no erase and succeeds at once. This is the whole contract of
/// [`Dispatcher::dispatch`], shared by [`Dispatcher::handle_frame`].
pub open spec fn dispatch_post(pre: Dispatcher, post: Dispatcher, c: CmdSpec, r: Step) -> bool {
    match c {
        CmdSpec::Sync(_, p) => {
            &&& post == pre
            &&& if is_sync_magic(p) {
                r matches Step::Reply(resp) && is_ok_response(resp, CommandCode::Sync)
            } else {
                r matches Step::Reply(resp) && is_err_response(
                    resp,
                    CommandCode::Sync,
                    Error::InvalidCommand,
                )
            }
        },
        CmdSpec::FlashBegin(bc) => {
            let (s2, res) = spec_begin(
                SessionKind::Flash,
                bc.total_size,
                bc.packet_count,
                bc.packet_size,
                bc.offset,
            );
            &&& post.session == s2
            &&& post.read == pre.read
            &&& match res {
                Ok(_) => r == Step::Act(
                    Action::Erase { address: bc.offset, size: bc.total_size },
                ),
                Err(e) => r matches Step::Reply(resp) && is_err_response(
                    resp,
                    CommandCode::FlashBegin,
                    e,
                ),
            }
        },
        CmdSpec::FlashDeflBegin(bc) => {
            let (s2, res) = spec_begin(
                SessionKind::FlashDefl,
                bc.total_size,
                bc.packet_count,
                bc.packet_size,
                bc.offset,
            );
            &&& post.session == s2
            &&& post.read == pre.read
            &&& match res {
                Ok(_) => r == Step::Act(
                    Action::Erase { address: bc.offset, size: bc.total_size },
                ),
                Err(e) => r matches Step::Reply(resp) && is_err_response(
                    resp,
                    CommandCode::FlashDeflBegin,
                    e,
                ),
            }
        },
        CmdSpec::MemBegin(bc) => {
            let (s2, res) = spec_begin(
                SessionKind::Mem,
                bc.total_size,
                bc.packet_count,
                bc.packet_size,
                bc.offset,
            );
            &&& post.session == s2
            &&& post.read == pre.read
            &&& match res {
                Ok(_) => r matches Step::Reply(resp) && is_ok_response(
                    resp,
                    CommandCode::MemBegin,
                ),
                Err(e) => r matches Step::Reply(resp) && is_err_response(
                    resp,
                    CommandCode::MemBegin,
                    e,
                ),
            }
        },
        CmdSpec::FlashData(dc, p) => {
            let (s2, res) = spec_data(
                pre.session,
                SessionKind::Flash,
                dc.sequence_num,
                dc.base.checksum,
                p,
            );
            &&& post.session == s2
            &&& post.read == pre.read
            &&& match res {
                Ok(addr) => r matches Step::Act(a) && (a matches Action::WriteFlash {
                    address,
                    data,
                } && address == addr && data@ == p),
                Err(e) => r matches Step::Reply(resp) && is_err_response(
                    resp,
                    CommandCode::FlashData,
                    e,
                ),
            }
        },
        CmdSpec::FlashDeflData(dc, p) => {
            let (s2, res) = spec_data(
                pre.session,
                SessionKind::FlashDefl,
                dc.sequence_num,
                dc.base.checksum,
                p,
            );
            &&& post.session == s2
            &&& post.read == pre.read
            &&& match res {
                Ok(addr) => r matches Step::Act(a) && (a matches Action::WriteFlashDefl {
                    address,
                    data,
                } && address == addr && data@ == p),
                Err(e) => r matches Step::Reply(resp) && is_err_response(
                    resp,
                    CommandCode::FlashDeflData,
                    e,
                ),
            }
        },
        CmdSpec::MemData(dc, p) => {
            let (s2, res) = spec_data(
                pre.session,
                SessionKind::Mem,
                dc.sequence_num,
                dc.base.checksum,
                p,
            );
            &&& post.session == s2
            &&& post.read == pre.read
            &&& match res {
                Ok(addr) => r matches Step::Act(a) && (a matches Action::WriteMem {
                    address,
                    data,
                } && address == addr && data@ == p),
                Err(e) => r matches Step::Reply(resp) && is_err_response(
                    resp,
                    CommandCode::MemData,
                    e,
                ),
            }
        },
        CmdSpec::FlashEnd(ec) => {
            let (s2, res) = spec_end(pre.session, SessionKind::Flash);
            &&& post.session == s2
            &&& post.read == pre.read
            &&& match res {
                Ok(_) => r matches Step::ReplyAndAct(resp, a) && is_ok_response(
                    resp,
                    CommandCode::FlashEnd,
                ) && a == (Action::Finalize { reboot: !ec.reboot }),
                Err(e) => r matches Step::Reply(resp) && is_err_response(
                    resp,
                    CommandCode::FlashEnd,
                    e,
                ),
            }
        },
        CmdSpec::FlashDeflEnd(ec) => {
            let (s2, res) = spec_end(pre.session, SessionKind::FlashDefl);
            &&& post.session == s2
            &&& post.read == pre.read
            &&& match res {
                Ok(_) => r matches Step::ReplyAndAct(resp, a) && is_ok_response(
                    resp,
                    CommandCode::FlashDeflEnd,
                ) && a == (Action::Finalize { reboot: !ec.reboot }),
                Err(e) => r matches Step::Reply(resp) && is_err_response(
                    resp,
                    CommandCode::FlashDeflEnd,
                    e,
                ),
            }
        },
        CmdSpec::MemEnd(mc) => {
            let (s2, res) = spec_end(pre.session, SessionKind::Mem);
            &&& post.session == s2
            &&& post.read == pre.read
            &&& match res {
                Ok(_) => if mc.stay_in_stub == 0 {
                    r matches Step::ReplyAndAct(resp, a) && is_ok_response(
                        resp,
                        CommandCode::MemEnd,
                    ) && a == (Action::Jump { entrypoint: mc.entrypoint })
                } else {
                    r matches Step::Reply(resp) && is_ok_response(resp, CommandCode::MemEnd)
                },
                Err(e) => r matches Step::Reply(resp) && is_err_response(
                    resp,
                    CommandCode::MemEnd,
                    e,
                ),
            }
        },
        CmdSpec::WriteReg(wc) => {
            &&& post == pre
            &&& r == Step::Act(
                Action::RegWrite {
                    address: wc.address,
                    value: wc.value,
                    mask: wc.mask,
                    delay_us: wc.delay_us,
                },
            )
        },
        CmdSpec::ReadReg(rc) => {
            &&& post == pre
            &&& r == Step::Act(Action::RegRead { address: rc.address })
        },
        CmdSpec::SpiSetParams(sc) => {
            &&& post == pre
            &&& r == Step::Act(Action::SpiSetParams { params: sc.params })
        },
        CmdSpec::SpiAttach(ac) => {
            &&& post == pre
            &&& r == Step::Act(Action::SpiAttach { params: ac.params })
        },
        CmdSpec::ChangeBaudrate(cb) => {
            &&& post == pre
            &&& r matches Step::ReplyAndAct(resp, a) && is_ok_response(
                resp,
                CommandCode::ChangeBaudrate,
            ) && a == (Action::SetBaud { new_rate: cb.new, old_rate: cb.old })
        },
        CmdSpec::SpiFlashMd5(mc) => {
            &&& post == pre
            &&& r == Step::Act(Action::Md5 { address: mc.address, size: mc.size })
        },
        CmdSpec::EraseRegion(ec) => {
            &&& post == pre
            &&& if ec.address % FLASH_SECTOR_SIZE != 0 {
                r matches Step::Reply(resp) && is_err_response(
                    resp,
                    CommandCode::EraseRegion,
                    Error::Err0x32,
                )
            } else if ec.size % FLASH_SECTOR_SIZE != 0 {
                r matches Step::Reply(resp) && is_err_response(
                    resp,
                    CommandCode::EraseRegion,
                    Error::Err0x33,
                )
            } else {
                r == Step::Act(Action::EraseRegion { address: ec.address, size: ec.size })
            }
        },
        CmdSpec::ReadFlash(rc) => {
            &&& post.session == pre.session
            &&& if rc.params.packet_size == 0 {
                &&& post.read is None
                &&& r matches Step::Reply(resp) && is_err_response(
                    resp,
                    CommandCode::ReadFlash,
                    Error::BadBlocksize,
                )
            } else if rc.params.max_in_flight == 0 {
                &&& post.read is None
                &&& r matches Step::Reply(resp) && is_err_response(
                    resp,
                    CommandCode::ReadFlash,
                    Error::InvalidCommand,
                )
            } else {
                &&& post.read == Some(
                    ReadFlow {
                        address: rc.params.address,
                        total_size: rc.params.total_size,
                        packet_size: rc.params.packet_size,
                        max_in_flight: rc.params.max_in_flight,
                        sent_bytes: 0,
                        inflight: 0,
                    },
                )
                &&& r matches Step::Reply(resp) && is_ok_response(
                    resp,
                    CommandCode::ReadFlash,
                )
            }
        },
        CmdSpec::GetSecurityInfo(_) => {
            &&& post == pre
            &&& r == Step::Act(Action::SecurityInfo)
        },
        CmdSpec::Unsupported(base) => {
            &&& post == pre
            &&& r matches Step::Reply(resp) && is_err_response(
                resp,
                base.code,
                Error::CmdNotImplemented,
            )
        },
    }
}

impl Dispatcher {
    /// Internal invariant of both state machines.
    pub open spec fn wf(self) -> bool {
        &&& self.session.wf()
        &&& (self.read matches Some(f) ==> f.wf())
    }

    /// A fresh engine: no session, no read transfer.
    pub fn new() -> (r: Dispatcher)
        ensures
            r.session == FlashSession::Idle,
            r.read is None,
            r.wf(),
    {
        Dispatcher { session: FlashSession::Idle, read: None }
    }

    /// Decide one command: update the state machines and produce the
    /// response, the device action, or both. Every protocol-level
    /// rejection is decided here, before any device work is authorized.
    pub fn dispatch(&mut self, cmd: &Command) -> (r: Step)
        requires
            old(self).wf(),
        ensures
            final(self).wf(),
            dispatch_post(*old(self), *final(self), cmd.model(), r),
    {
        match cmd {
            Command::Sync(sc) => {
                if check_sync_magic(sc.payload.as_slice()) {
                    Step::Reply(ok_response(CommandCode::Sync))
                } else {
                    Step::Reply(err_response(CommandCode::Sync, Error::InvalidCommand))
                }
            },
            Command::FlashBegin(bc) => {
                match self.session.begin(
                    SessionKind::Flash,
                    bc.total_size,
                    bc.packet_count,
                    bc.packet_size,
                    bc.offset,
                ) {
                    Ok(_) => Step::Act(Action::Erase { address: bc.offset, size: bc.total_size }),
                    Err(e) => Step::Reply(err_response(CommandCode::FlashBegin, e)),
                }
            },
            Command::FlashDeflBegin(bc) => {
                match self.session.begin(
                    SessionKind::FlashDefl,
                    bc.total_size,
                    bc.packet_count,
                    bc.packet_size,
                    bc.offset,
                ) {
                    Ok(_) => Step::Act(Action::Erase { address: bc.offset, size: bc.total_size }),
                    Err(e) => Step::Reply(err_response(CommandCode::FlashDeflBegin, e)),
                }
            },
            Command::MemBegin(bc) => {
                match self.session.begin(
                    SessionKind::Mem,
                    bc.total_size,
                    bc.packet_count,
                    bc.packet_size,
                    bc.offset,
                ) {
                    Ok(_) => Step::Reply(ok_response(CommandCode::MemBegin)),
                    Err(e) => Step::Reply(err_response(CommandCode::MemBegin, e)),
                }
            },
            Command::FlashData(dc, payload) => {
                match self.session.data(
                    SessionKind::Flash,
                    dc.sequence_num,
                    dc.base.checksum,
                    payload.as_slice(),
                ) {
                    Ok(addr) => Step::Act(
                        Action::WriteFlash { address: addr, data: slice_to_vec(payload.as_slice()) },
                    ),
                    Err(e) => Step::Reply(err_response(CommandCode::FlashData, e)),
                }
            },
            Command::FlashDeflData(dc, payload) => {
                match self.session.data(
                    SessionKind::FlashDefl,
                    dc.sequence_num,
                    dc.base.checksum,
                    payload.as_slice(),
                ) {
                    Ok(addr) => Step::Act(
                        Action::WriteFlashDefl {
                            address: addr,
                            data: slice_to_vec(payload.as_slice()),
                        },
                    ),
                    Err(e) => Step::Reply(err_response(CommandCode::FlashDeflData, e)),
                }
            },
            Command::MemData(dc, payload) => {
                match self.session.data(
                    SessionKind::Mem,
                    dc.sequence_num,
                    dc.base.checksum,
                    payload.as_slice(),
                ) {
                    Ok(addr) => Step::Act(
                        Action::WriteMem { address: addr, data: slice_to_vec(payload.as_slice()) },
                    ),
                    Err(e) => Step::Reply(err_response(CommandCode::MemData, e)),
                }
            },
            Command::FlashEnd(ec) => {
                match self.session.end(SessionKind::Flash) {
                    Ok(_) => Step::ReplyAndAct(
                        ok_response(CommandCode::FlashEnd),
                        Action::Finalize { reboot: ec.should_reboot() },
                    ),
                    Err(e) => Step::Reply(err_response(CommandCode::FlashEnd, e)),
                }
            },
            Command::FlashDeflEnd(ec) => {
                match self.session.end(SessionKind::FlashDefl) {
                    Ok(_) => Step::ReplyAndAct(
                        ok_response(CommandCode::FlashDeflEnd),
                        Action::Finalize { reboot: ec.should_reboot() },
                    ),
                    Err(e) => Step::Reply(err_response(CommandCode::FlashDeflEnd, e)),
                }
            },
            Command::MemEnd(mc) => {
                match self.session.end(SessionKind::Mem) {
                    Ok(_) => {
                        if mc.stay_in_stub == 0 {
                            Step::ReplyAndAct(
                                ok_response(CommandCode::MemEnd),
                                Action::Jump { entrypoint: mc.entrypoint },
                            )
                        } else {
                            Step::Reply(ok_response(CommandCode::MemEnd))
                        }
                    },
                    Err(e) => Step::Reply(err_response(CommandCode::MemEnd, e)),
                }
            },
            Command::WriteReg(wc) => Step::Act(
                Action::RegWrite {
                    address: wc.address,
                    value: wc.value,
                    mask: wc.mask,
                    delay_us: wc.delay_us,
                },
            ),
            Command::ReadReg(rc) => Step::Act(Action::RegRead { address: rc.address }),
            Command::SpiSetParams(sc) => Step::Act(Action::SpiSetParams { params: sc.params }),
            Command::SpiAttach(ac) => Step::Act(Action::SpiAttach { params: ac.params }),
            Command::ChangeBaudrate(cb) => Step::ReplyAndAct(
                ok_response(CommandCode::ChangeBaudrate),
                Action::SetBaud { new_rate: cb.new, old_rate: cb.old },
            ),
            Command::SpiFlashMd5(mc) => Step::Act(Action::Md5 { address: mc.address, size: mc.size }),
            Command::EraseRegion(ec) => {
                if ec.address % FLASH_SECTOR_SIZE != 0 {
                    Step::Reply(err_response(CommandCode::EraseRegion, Error::Err0x32))
                } else if ec.size % FLASH_SECTOR_SIZE != 0 {
                    Step::Reply(err_response(CommandCode::EraseRegion, Error::Err0x33))
                } else {
                    Step::Act(Action::EraseRegion { address: ec.address, size: ec.size })
                }
            },
            Command::ReadFlash(rc) => {
                match ReadFlow::new(&rc.params) {
                    Ok(flow) => {
                        self.read = Some(flow);
                        Step::Reply(ok_response(CommandCode::ReadFlash))
                    },
                    Err(e) => {
                        self.read = None;
                        Step::Reply(err_response(CommandCode::ReadFlash, e))
                    },
                }
            },
            Command::GetSecurityInfo(_) => Step::Act(Action::SecurityInfo),
            Command::Unsupported(base) => Step::Reply(
                err_response(base.code, Error::CmdNotImplemented),
            ),
        }
    }

    /// Fold a device outcome back into the response the host gets. A fault
    /// is reported as its protocol error, and a fault during a write
    /// session tears the session down; success echoes the value (READ_REG)
    /// or the fetched bytes (the MD5 digest as ASCII hex, the security
    /// info verbatim).
    pub fn device_result(&mut self, cmd: &Command, outcome: DeviceOutcome) -> (r: Response)
        requires
            old(self).wf(),
            outcome matches DeviceOutcome::Done { data, .. } ==> 2 * data@.len() + 2 <= u16::MAX,
        ensures
            final(self).wf(),
            final(self).read == old(self).read,
            match outcome {
                DeviceOutcome::Failed(f) => {
                    &&& is_err_response(r, cmd.spec_code(), f.spec_error())
                    &&& final(self).session == (match *cmd {
                        Command::FlashBegin(_)
                        | Command::FlashDeflBegin(_)
                        | Command::MemBegin(_)
                        | Command::FlashData(_, _)
                        | Command::FlashDeflData(_, _)
                        | Command::MemData(_, _) => FlashSession::Idle,
                        _ => old(self).session,
                    })
                },
                DeviceOutcome::Done { value, data } => {
                    &&& final(self).session == old(self).session
                    &&& match *cmd {
                        Command::ReadReg(_) => {
                            &&& r.direction == Direction::Out
                            &&& r.command == cmd.spec_code()
                            &&& r.size == 2
                            &&& r.value == value
                            &&& r.status == 0
                            &&& r.error == 0
                            &&& r.data@ == Seq::<u8>::empty()
                        },
                        Command::SpiFlashMd5(_) => {
                            &&& r.direction == Direction::Out
                            &&& r.command == cmd.spec_code()
                            &&& r.size == 2 + 2 * data@.len()
                            &&& r.value == 0
                            &&& r.status == 0
                            &&& r.error == 0
                            &&& r.data@ == spec_hex(data@)
                        },
                        Command::GetSecurityInfo(_) => {
                            &&& r.direction == Direction::Out
                            &&& r.command == cmd.spec_code()
                            &&& r.size == 2 + data@.len()
                            &&& r.value == 0
                            &&& r.status == 0
                            &&& r.error == 0
                            &&& r.data@ == data@
                        },
                        _ => is_ok_response(r, cmd.spec_code()),
                    }
                },
            },
    {
        match outcome {
            DeviceOutcome::Failed(f) => {
                match cmd {
                    Command::FlashBegin(_)
                    | Command::FlashDeflBegin(_)
                    | Command::MemBegin(_)
                    | Command::FlashData(_, _)
                    | Command::FlashDeflData(_, _)
                    | Command::MemData(_, _) => {
                        self.session = FlashSession::Idle;
                    },
                    _ => {},
                }
                err_response(cmd.code(), f.to_error())
            },
            DeviceOutcome::Done { value, data } => {
                match cmd {
                    Command::ReadReg(_) => {
                        let mut r = ok_response(cmd.code());
                        r.value(value);
                        r
                    },
                    Command::SpiFlashMd5(_) => {
                        let mut r = ok_response(cmd.code());
                        let hex = hex_encode(data.as_slice());
                        r.data(hex.as_slice());
                        r
                    },
                    Command::GetSecurityInfo(_) => {
                        let mut r = ok_response(cmd.code());
                        r.data(data.as_slice());
                        r
                    },
                    _ => ok_response(cmd.code()),
                }
            },
        }
    }

    /// Claim the next READ_FLASH chunk to send: its flash address and
    /// length. `None` while no transfer is open, the window is full, or
    /// all bytes are out.
    pub fn read_next(&mut self) -> (r: Option<(u64, u32)>)
        requires
            old(self).wf(),
        ensures
            final(self).wf(),
            final(self).session == old(self).session,
            match old(self).read {
                None => r is None && final(self).read == old(self).read,
                Some(f) => {
                    let (f2, r2) = f.spec_next_chunk();
                    &&& final(self).read == Some(f2)
                    &&& r == r2
                },
            },
    {
        match &mut self.read {
            None => None,
            Some(f) => f.next_chunk(),
        }
    }

    /// Record one acknowledgment from the host for a READ_FLASH packet.
    pub fn read_ack(&mut self)
        requires
            old(self).wf(),
        ensures
            final(self).wf(),
            final(self).session == old(self).session,
            match old(self).read {
                None => final(self).read == old(self).read,
                Some(f) => final(self).read == Some(f.spec_ack()),
            },
    {
        match &mut self.read {
            None => {},
            Some(f) => f.ack(),
        }
    }

    /// Close a finished READ_FLASH transfer: once every requested byte is
    /// out, the final success response closes the session, exactly once.
    /// `None` while no transfer is open or bytes remain.
    pub fn read_finish(&mut self) -> (r: Option<Response>)
        requires
            old(self).wf(),
        ensures
            final(self).wf(),
            final(self).session == old(self).session,
            match old(self).read {
                Some(f) => if f.spec_complete() {
                    &&& final(self).read is None
                    &&& r matches Some(resp) && is_ok_response(resp, CommandCode::ReadFlash)
                } else {
                    &&& final(self).read == old(self).read
                    &&& r is None
                },
                None => final(self).read == old(self).read && r is None,
            },
    {
        let complete = match &self.read {
            None => false,
            Some(f) => f.is_complete(),
        };
        if complete {
            self.read = None;
            Some(ok_response(CommandCode::ReadFlash))
        } else {
            None
        }
    }

    /// Take one raw buffer from the transport and step the engine: decode,
    /// dispatch, and never stay silent — a buffer that decodes to no
    /// command earns an error response, so every request yields exactly
    /// one response. The error response echoes the buffer's code byte
    /// where it names a known command; a buffer too short for that, or
    /// with an unknown code byte, is answered on the Sync code, the
    /// command the host uses to resynchronize.
    pub fn handle_frame(&mut self, buf: &[u8]) -> (r: Step)
        requires
            old(self).wf(),
        ensures
            final(self).wf(),
            match spec_decode(buf@) {
                Ok(c) => dispatch_post(*old(self), *final(self), c, r),
                Err(e) => {
                    &&& *final(self) == *old(self)
                    &&& r matches Step::Reply(resp) && is_err_response(
                        resp,
                        spec_echo_code(buf@),
                        e,
                    )
                },
            },
    {
        match decode(buf) {
            Ok(cmd) => self.dispatch(&cmd),
            Err(e) => Step::Reply(err_response(echo_code(buf), e)),
        }
    }
}

/// The command code an unreadable buffer is answered on: its own code byte
/// where that names a known command, else the Sync code.
pub open spec fn spec_echo_code(b: Seq<u8>) -> CommandCode {
    if b.len() >= 2 && CommandCode::spec_from_byte(b[1]) is Some {
        CommandCode::spec_from_byte(b[1])->Some_0
    } else {
        CommandCode::Sync
    }
}

fn echo_code(buf: &[u8]) -> (r: CommandCode)
    ensures
        r == spec_echo_code(buf@),
{
    if buf.len() >= 2 {
        match CommandCode::from_byte(buf[1]) {
            Some(c) => c,
            None => CommandCode::Sync,
        }
    } else {
        CommandCode::Sync
    }
}

} // verus!
