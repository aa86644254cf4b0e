//! Flash session state machine: tracks an in-progress flash-write (or
//! mem-write) transfer across the Begin/Data/End commands. At most one
//! write session is live at a time; a new Begin discards whatever session
//! was open and starts afresh.

use vstd::prelude::*;
use crate::checksum::spec_checksum;
use crate::proto::Error;

verus! {

/// Which Begin/Data/End family a session belongs to. A Data or End command
/// is honoured only by a session of its own family.
#[derive(Debug, Clone, Copy, PartialEq, Eq, Structural)]
pub enum SessionKind {
    Flash,
    FlashDefl,
    Mem,
}

/// The flash session: idle, or writing with the parameters declared by the
/// opening Begin command and the running counters.
#[derive(Debug, Clone, Copy, PartialEq, Eq, Structural)]
pub enum FlashSession {
    Idle,
    Writing {
        kind: SessionKind,
        /// Bytes to erase/allocate, declared by Begin.
        total_size: u32,
        /// Number of Data packets expected, declared by Begin.
        packet_count: u32,
        /// Maximum payload size of one Data packet, declared by Begin.
        packet_size: u32,
        /// Destination address, declared by Begin.
        offset: u32,
        /// Data packets accepted so far; the next packet must carry this
        /// value as its sequence number.
        received: u32,
        /// Payload bytes accepted so far.
        bytes: u32,
    },
}

impl FlashSession {
    /// Internal invariant: counters never pass the declared bounds.
    pub open spec fn wf(self) -> bool {
        match self {
            FlashSession::Idle => true,
            FlashSession::Writing { total_size, packet_count, packet_size, received, bytes, .. } => {
                &&& bytes <= total_size
                &&& received <= packet_count
                &&& total_size > 0
                &&& packet_size > 0
            },
        }
    }
}

/// State and result after a Begin command: any open session is discarded;
/// a zero total size or packet size is rejected and leaves the machine
/// idle; otherwise a fresh session opens with zeroed counters. The caller
/// is expected to erase the addressed region on success.
pub open spec fn spec_begin(
    kind: SessionKind,
    total_size: u32,
    packet_count: u32,
    packet_size: u32,
    offset: u32,
) -> (FlashSession, Result<(), Error>) {
    if total_size == 0 {
        (FlashSession::Idle, Err(Error::BadDataLen))
    } else if packet_size == 0 {
        (FlashSession::Idle, Err(Error::BadBlocksize))
    } else {
        (
            FlashSession::Writing {
                kind,
                total_size,
                packet_count,
                packet_size,
                offset,
                received: 0,
                bytes: 0,
            },
            Ok(()),
        )
    }
}

/// State and result after a Data command carrying `payload` with the header
/// checksum field `chk` and sequence number `seq`. The checks run in order:
/// a session of the command's family must be open (else `NotInFlashMode`),
/// the checksum must match before any payload byte is forwarded (else
/// `BadDataChecksum`), the sequence number must equal the count of packets
/// already accepted and stay below the declared packet count (else
/// `BadDataLen`), and the payload must fit both the declared packet size
/// and the room left up to the total size (else `TooMuchData`). Every
/// failure of an open session tears it down. On success the result is the
/// destination address `offset + seq * packet_size` and the counters
/// advance.
pub open spec fn spec_data(
    s: FlashSession,
    kind: SessionKind,
    seq: u32,
    chk: u32,
    payload: Seq<u8>,
) -> (FlashSession, Result<u64, Error>) {
    match s {
        FlashSession::Idle => (FlashSession::Idle, Err(Error::NotInFlashMode)),
        FlashSession::Writing { kind: k, total_size, packet_count, packet_size, offset, received, bytes } => {
            if k != kind {
                (FlashSession::Idle, Err(Error::NotInFlashMode))
            } else if chk != spec_checksum(payload) as u32 {
                (FlashSession::Idle, Err(Error::BadDataChecksum))
            } else if seq != received || received >= packet_count {
                (FlashSession::Idle, Err(Error::BadDataLen))
            } else if payload.len() > packet_size || bytes + payload.len() > total_size {
                (FlashSession::Idle, Err(Error::TooMuchData))
            } else {
                (
                    FlashSession::Writing {
                        kind: k,
                        total_size,
                        packet_count,
                        packet_size,
                        offset,
                        received: (received + 1) as u32,
                        bytes: (bytes + payload.len()) as u32,
                    },
                    Ok((offset + seq * packet_size) as u64),
                )
            }
        },
    }
}

/// State and result after an End command: a session of the command's family
/// must be open (else `NotInFlashMode`) and must have received exactly the
/// declared packet count and total byte count (else `BadDataLen`). The
/// session closes either way.
pub open spec fn spec_end(s: FlashSession, kind: SessionKind) -> (FlashSession, Result<(), Error>) {
    match s {
        FlashSession::Idle => (FlashSession::Idle, Err(Error::NotInFlashMode)),
        FlashSession::Writing { kind: k, total_size, packet_count, received, bytes, .. } => {
            if k != kind {
                (FlashSession::Idle, Err(Error::NotInFlashMode))
            } else if received == packet_count && bytes == total_size {
                (FlashSession::Idle, Ok(()))
            } else {
                (FlashSession::Idle, Err(Error::BadDataLen))
            }
        },
    }
}

impl FlashSession {
    /// Open a session for a Begin command, discarding any session that was
    /// open. On success the caller must erase `total_size` bytes at
    /// `offset` before accepting data.
    pub fn begin(
        &mut self,
        kind: SessionKind,
        total_size: u32,
        packet_count: u32,
        packet_size: u32,
        offset: u32,
    ) -> (r: Result<(), Error>)
        ensures
            (*final(self), r) == spec_begin(kind, total_size, packet_count, packet_size, offset),
            final(self).wf(),
    {
        if total_size == 0 {
            *self = FlashSession::Idle;
            Err(Error::BadDataLen)
        } else if packet_size == 0 {
            *self = FlashSession::Idle;
            Err(Error::BadBlocksize)
        } else {
            *self = FlashSession::Writing {
                kind,
                total_size,
                packet_count,
                packet_size,
                offset,
                received: 0,
                bytes: 0,
            };
            Ok(())
        }
    }

    /// Accept or reject one Data command. On success the result is the
    /// flash address the payload must be written to.
    pub fn data(&mut self, kind: SessionKind, seq: u32, chk: u32, payload: &[u8]) -> (r: Result<
        u64,
        Error,
    >)
        requires
            old(self).wf(),
        ensures
            (*final(self), r) == spec_data(*old(self), kind, seq, chk, payload@),
            final(self).wf(),
    {
        match *self {
            FlashSession::Idle => Err(Error::NotInFlashMode),
            FlashSession::Writing { kind: k, total_size, packet_count, packet_size, offset, received, bytes } => {
                if k != kind {
                    *self = FlashSession::Idle;
                    Err(Error::NotInFlashMode)
                } else if chk != crate::checksum::checksum(payload) as u32 {
                    *self = FlashSession::Idle;
                    Err(Error::BadDataChecksum)
                } else if seq != received || received >= packet_count {
                    *self = FlashSession::Idle;
                    Err(Error::BadDataLen)
                } else if payload.len() > packet_size as usize
                    || payload.len() > (total_size - bytes) as usize {
                    *self = FlashSession::Idle;
                    Err(Error::TooMuchData)
                } else {
                    *self = FlashSession::Writing {
                        kind: k,
                        total_size,
                        packet_count,
                        packet_size,
                        offset,
                        received: received + 1,
                        bytes: bytes + payload.len() as u32,
                    };
                    proof {
                        assert((seq as int) * (packet_size as int) <= 0xFFFF_FFFF * 0xFFFF_FFFF)
                            by (nonlinear_arith)
                            requires
                                seq <= 0xFFFF_FFFFu32,
                                packet_size <= 0xFFFF_FFFFu32,
                        ;
                    }
                    Ok(offset as u64 + seq as u64 * packet_size as u64)
                }
            },
        }
    }

    /// Close the session for an End command, checking that exactly the
    /// declared packets and bytes arrived.
    pub fn end(&mut self, kind: SessionKind) -> (r: Result<(), Error>)
        ensures
            (*final(self), r) == spec_end(*old(self), kind),
            final(self).wf(),
    {
        match *self {
            FlashSession::Idle => Err(Error::NotInFlashMode),
            FlashSession::Writing { kind: k, total_size, packet_count, received, bytes, .. } => {
                *self = FlashSession::Idle;
                if k != kind {
                    Err(Error::NotInFlashMode)
                } else if received == packet_count && bytes == total_size {
                    Ok(())
                } else {
                    Err(Error::BadDataLen)
                }
            },
        }
    }
}

/// An accepted Data payload never exceeds the session's declared packet
/// size, and never pushes the byte total past the declared total size: an
/// oversized payload is rejected with `TooMuchData` and no write address is
/// handed out.
pub proof fn lemma_data_payload_bounded(
    s: FlashSession,
    kind: SessionKind,
    seq: u32,
    chk: u32,
    payload: Seq<u8>,
)
    ensures
        spec_data(s, kind, seq, chk, payload).1 is Ok ==> {
            &&& s matches FlashSession::Writing { packet_size, total_size, bytes, .. }
            &&& payload.len() <= packet_size
            &&& bytes + payload.len() <= total_size
        },
{
}

/// A Data command whose sequence number differs from the count of packets
/// already accepted is always rejected, whatever else it carries.
pub proof fn lemma_data_sequence_monotonic(
    s: FlashSession,
    kind: SessionKind,
    seq: u32,
    chk: u32,
    payload: Seq<u8>,
)
    requires
        !(s matches FlashSession::Writing { received, .. } && seq == received),
    ensures
        spec_data(s, kind, seq, chk, payload).1 is Err,
{
}

/// A Data command whose checksum field does not match the checksum of a
/// tampered payload — one byte changed by any non-zero bit mask — is
/// rejected with `BadDataChecksum`, and the open session is torn down
/// before any byte is forwarded.
pub proof fn lemma_data_tampering_rejected(
    s: FlashSession,
    kind: SessionKind,
    seq: u32,
    payload: Seq<u8>,
    i: int,
    mask: u8,
)
    requires
        0 <= i < payload.len(),
        mask != 0,
        s matches FlashSession::Writing { kind: k, .. } && k == kind,
    ensures
        spec_data(s, kind, seq, spec_checksum(payload) as u32, payload.update(i, payload[i] ^ mask))
            == (FlashSession::Idle, Err::<u64, Error>(Error::BadDataChecksum)),
{
    let tampered = payload.update(i, payload[i] ^ mask);
    crate::checksum::lemma_checksum_detects_tampering(payload, i, mask);
    assert(spec_checksum(tampered) != spec_checksum(payload));
    assert(spec_checksum(tampered) as u32 != spec_checksum(payload) as u32);
}

/// A Begin command leaves no trace of the session that was open: the
/// machine ends idle on rejection, or in a fresh session whose counters
/// start at zero and whose parameters are exactly the new command's — so
/// writes of two different sessions can never mix.
pub proof fn lemma_begin_exclusive(
    kind: SessionKind,
    total_size: u32,
    packet_count: u32,
    packet_size: u32,
    offset: u32,
)
    ensures
        ({
            let (s2, r) = spec_begin(kind, total_size, packet_count, packet_size, offset);
            match s2 {
                FlashSession::Idle => r is Err,
                FlashSession::Writing {
                    kind: k,
                    total_size: t,
                    packet_count: c,
                    packet_size: p,
                    offset: o,
                    received,
                    bytes,
                } => {
                    &&& r is Ok
                    &&& k == kind
                    &&& t == total_size
                    &&& c == packet_count
                    &&& p == packet_size
                    &&& o == offset
                    &&& received == 0
                    &&& bytes == 0
                },
            }
        }),
{
}

} // verus!
