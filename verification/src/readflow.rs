//! Streaming read flow controller: paces the READ_FLASH transfer, keeping
//! the number of sent-but-unacknowledged packets within the window the host
//! declared, until exactly the requested byte count has been produced.

use vstd::prelude::*;
use crate::proto::Error;
use crate::proto::ReadFlashParams;

verus! {

/// State of one READ_FLASH transfer.
#[derive(Debug, Clone, Copy, PartialEq, Eq, Structural)]
pub struct ReadFlow {
    /// Flash offset the transfer starts at.
    pub address: u32,
    /// Bytes to read in total.
    pub total_size: u32,
    /// Maximum payload size of one data packet.
    pub packet_size: u32,
    /// Window size: maximum number of un-acked packets.
    pub max_in_flight: u32,
    /// Bytes handed out so far.
    pub sent_bytes: u32,
    /// Packets sent but not yet acknowledged by the host.
    pub inflight: u32,
}

impl ReadFlow {
    /// Internal invariant: the byte counter never passes the requested
    /// total, and the window bound is never exceeded.
    pub open spec fn wf(self) -> bool {
        &&& self.sent_bytes <= self.total_size
        &&& self.inflight <= self.max_in_flight
        &&& self.packet_size > 0
        &&& self.max_in_flight > 0
    }

    /// Whether the controller may push another packet: a window slot is
    /// free and bytes remain.
    pub open spec fn spec_can_send(self) -> bool {
        self.inflight < self.max_in_flight && self.sent_bytes < self.total_size
    }

    /// Whether the transfer has produced all requested bytes.
    pub open spec fn spec_complete(self) -> bool {
        self.sent_bytes == self.total_size
    }

    /// Open a read flow. A zero packet size is rejected with
    /// `BadBlocksize`; a zero window could never send and is rejected with
    /// `InvalidCommand`.
    pub fn new(params: &ReadFlashParams) -> (r: Result<ReadFlow, Error>)
        ensures
            params.packet_size == 0 ==> r == Err::<ReadFlow, Error>(Error::BadBlocksize),
            params.packet_size > 0 && params.max_in_flight == 0 ==> r == Err::<
                ReadFlow,
                Error,
            >(Error::InvalidCommand),
            params.packet_size > 0 && params.max_in_flight > 0 ==> r == Ok::<
                ReadFlow,
                Error,
            >(
                ReadFlow {
                    address: params.address,
                    total_size: params.total_size,
                    packet_size: params.packet_size,
                    max_in_flight: params.max_in_flight,
                    sent_bytes: 0,
                    inflight: 0,
                },
            ),
            r matches Ok(f) ==> f.wf(),
    {
        if params.packet_size == 0 {
            Err(Error::BadBlocksize)
        } else if params.max_in_flight == 0 {
            Err(Error::InvalidCommand)
        } else {
            Ok(
                ReadFlow {
                    address: params.address,
                    total_size: params.total_size,
                    packet_size: params.packet_size,
                    max_in_flight: params.max_in_flight,
                    sent_bytes: 0,
                    inflight: 0,
                },
            )
        }
    }

    /// Whether the controller may push another packet.
    pub fn can_send(&self) -> (r: bool)
        ensures
            r == self.spec_can_send(),
    {
        self.inflight < self.max_in_flight && self.sent_bytes < self.total_size
    }

    /// The length of the next chunk: the declared packet size, or less at
    /// the tail of the transfer.
    pub open spec fn spec_next_len(self) -> u32 {
        if self.total_size - self.sent_bytes < self.packet_size {
            (self.total_size - self.sent_bytes) as u32
        } else {
            self.packet_size
        }
    }

    /// State and result of claiming the next chunk: nothing moves while
    /// the window is full or all bytes are out; otherwise the chunk is the
    /// next run of bytes, the byte counter advances by its length and one
    /// window slot fills.
    pub open spec fn spec_next_chunk(self) -> (ReadFlow, Option<(u64, u32)>) {
        if self.spec_can_send() {
            (
                ReadFlow {
                    sent_bytes: (self.sent_bytes + self.spec_next_len()) as u32,
                    inflight: (self.inflight + 1) as u32,
                    ..self
                },
                Some(((self.address + self.sent_bytes) as u64, self.spec_next_len())),
            )
        } else {
            (self, None)
        }
    }

    /// Claim the next chunk to send: its flash address and length. The
    /// chunk is never empty and never reaches past the end of the
    /// requested region.
    pub fn next_chunk(&mut self) -> (r: Option<(u64, u32)>)
        requires
            old(self).wf(),
        ensures
            final(self).wf(),
            (*final(self), r) == old(self).spec_next_chunk(),
            old(self).spec_can_send() ==> old(self).spec_next_len() > 0,
            final(self).inflight <= final(self).max_in_flight,
    {
        if self.inflight < self.max_in_flight && self.sent_bytes < self.total_size {
            let remaining = self.total_size - self.sent_bytes;
            let len = if remaining < self.packet_size {
                remaining
            } else {
                self.packet_size
            };
            let addr = self.address as u64 + self.sent_bytes as u64;
            self.sent_bytes = self.sent_bytes + len;
            self.inflight = self.inflight + 1;
            Some((addr, len))
        } else {
            None
        }
    }

    /// State after one acknowledgment: a window slot frees; one that
    /// arrives with nothing in flight changes nothing.
    pub open spec fn spec_ack(self) -> ReadFlow {
        if self.inflight > 0 {
            ReadFlow { inflight: (self.inflight - 1) as u32, ..self }
        } else {
            self
        }
    }

    /// Record one acknowledgment from the host, freeing a window slot. An
    /// acknowledgment with nothing in flight is ignored.
    pub fn ack(&mut self)
        requires
            old(self).wf(),
        ensures
            final(self).wf(),
            *final(self) == old(self).spec_ack(),
    {
        if self.inflight > 0 {
            self.inflight = self.inflight - 1;
        }
    }

    /// Whether the transfer has produced all requested bytes.
    pub fn is_complete(&self) -> (r: bool)
        ensures
            r == self.spec_complete(),
    {
        self.sent_bytes == self.total_size
    }
}

/// The window invariant can never be broken: whatever interleaving of
/// chunk claims and acknowledgments runs, a well-formed controller keeps
/// at most `max_in_flight` unacknowledged packets. While bytes remain and
/// a slot is free, each claimed chunk makes strict progress; once the
/// transfer is complete no further chunk is ever produced — the session
/// terminates exactly once.
pub proof fn lemma_window_never_exceeded(f: ReadFlow)
    requires
        f.wf(),
    ensures
        f.inflight <= f.max_in_flight,
        f.spec_next_chunk().0.inflight <= f.max_in_flight,
        f.spec_ack().inflight <= f.max_in_flight,
        f.spec_can_send() ==> f.spec_next_chunk().0.sent_bytes > f.sent_bytes,
        f.spec_complete() ==> f.spec_next_chunk() == (f, Option::<(u64, u32)>::None),
{
}

} // verus!
