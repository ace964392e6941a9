//! Transport protocol (J1939-21)

pub mod message;
pub mod storage;

pub use message::{
    AbortReason, AbortSenderRole, ClearToSend, ConnectionAbort, DataTransfer, EndOfMessageAck,
    RequestToSend,
};

use crate::saelient::id::Pgn;
use managed::ManagedSlice;
use message::packets_for;
use storage::{
    managed_contents, managed_is_owned, storage_as_slice, storage_extend, storage_is_owned,
    storage_owned, storage_set, storage_truncate,
};
use vstd::prelude::*;
use vstd::std_specs::convert::FromSpecImpl;

verus! {

/// Why a data transfer was refused.
#[derive(Debug, Clone, Copy, PartialEq, Eq, Structural)]
pub enum Error {
    StorageTooSmall,
    Sequence,
    PreviousAbort,
}

/// A message the receiver answers with.
#[derive(Debug, Clone)]
pub enum Response {
    Cts(ClearToSend),
    End(EndOfMessageAck),
}

impl From<&Response> for [u8; 8] {
    fn from(value: &Response) -> (r: [u8; 8])
        ensures
            match value {
                Response::Cts(cts) => r@ == message::cts_bytes(cts@),
                Response::End(end) => r@ == message::eom_bytes(end@),
            },
    {
        match value {
            Response::Cts(cts) => <[u8; 8]>::from(cts),
            Response::End(end) => <[u8; 8]>::from(end),
        }
    }
}

impl FromSpecImpl<&Response> for [u8; 8] {
    open spec fn obeys_from_spec() -> bool {
        true
    }

    closed spec fn from_spec(value: &Response) -> [u8; 8] {
        let b = match value {
            Response::Cts(cts) => message::cts_bytes(cts@),
            Response::End(end) => message::eom_bytes(end@),
        };
        [b[0], b[1], b[2], b[3], b[4], b[5], b[6], b[7]]
    }
}

/// An ongoing transport-protocol transfer.
pub struct Transfer<'a> {
    rts: RequestToSend,
    rx_packets: u8,
    storage: ManagedSlice<'a, u8>,
    abort: bool,
}

/// The bytes held after storing packet number `rx` (counted from 0) with
/// payload `data`: appended and cut to `total` bytes for owned storage,
/// written over the packet's 7-byte chunk (cut to the slice's end) for
/// borrowed storage.
pub open spec fn stored_after(owned: bool, contents: Seq<u8>, rx: int, data: Seq<u8>, total: int) -> Seq<u8> {
    if owned {
        let grown = contents + data;
        if total < grown.len() {
            grown.take(total)
        } else {
            grown
        }
    } else {
        Seq::new(
            contents.len(),
            |i: int|
                if 7 * rx <= i < 7 * rx + 7 {
                    data[i - 7 * rx]
                } else {
                    contents[i]
                },
        )
    }
}

impl<'a> Transfer<'a> {
    /// The request this transfer answers.
    pub closed spec fn request(&self) -> (u16, u8, Option<u8>, Pgn) {
        self.rts@
    }

    /// Number of packets stored so far.
    pub closed spec fn received(&self) -> u8 {
        self.rx_packets
    }

    /// Whether the transfer was aborted.
    pub closed spec fn aborted(&self) -> bool {
        self.abort
    }

    /// Whether the storage is an owned, growing vector.
    pub closed spec fn owned(&self) -> bool {
        managed_is_owned(&self.storage)
    }

    /// The bytes in the storage.
    pub closed spec fn contents(&self) -> Seq<u8> {
        managed_contents(&self.storage)
    }

    /// Create a new transfer from a RTS message received from the sender,
    /// storing into a growing vector.
    pub fn new(rts: RequestToSend) -> (r: Self)
        ensures
            r.request() == rts@,
            r.received() == 0,
            !r.aborted(),
            r.owned(),
            r.contents() == Seq::<u8>::empty(),
    {
        Self { rts, rx_packets: 0, storage: storage_owned(Vec::new()), abort: false }
    }

    /// Create a new transfer from a RTS message received from the sender using provided storage.
    pub fn new_with_storage(rts: RequestToSend, storage: ManagedSlice<'a, u8>) -> (r: Self)
        ensures
            r.request() == rts@,
            r.received() == 0,
            !r.aborted(),
            r.owned() == managed_is_owned(&storage),
            r.contents() == managed_contents(&storage),
    {
        Self { rts, rx_packets: 0, storage, abort: false }
    }

    /// All packets are in and the transfer was not aborted.
    pub open spec fn complete(&self) -> bool {
        self.received() >= self.request().1 && !self.aborted()
    }

    /// Read-only access to the received bytes, once the transfer is complete.
    pub fn finished(&self) -> (r: Option<&[u8]>)
        requires
            self.complete() ==> self.contents().len() >= self.request().0,
        ensures
            r is Some <==> self.complete(),
            r matches Some(d) ==> d@ == self.contents().take(self.request().0 as int),
    {
        if self.rx_packets >= self.rts.total_packets() && !self.abort {
            let all = storage_as_slice(&self.storage);
            Some(crate::bytes::prefix(all, self.rts.total_size() as usize))
        } else {
            None
        }
    }

    /// The storage has room for packet number `rx` (counted from 0): owned
    /// storage always does, borrowed storage when the packet's chunk starts
    /// inside the slice.
    pub open spec fn has_room(&self, rx: int) -> bool {
        self.owned() || 7 * rx < self.contents().len()
    }

    /// `after` is this transfer once it stored packet `msg`: the packet was
    /// the next in sequence and had room, and the counter went up by one.
    pub open spec fn accepts(&self, msg: DataTransfer, after: Transfer<'a>) -> bool {
        &&& !self.aborted()
        &&& msg@.0 == self.received() + 1
        &&& self.has_room(self.received() as int)
        &&& after.request() == self.request()
        &&& after.owned() == self.owned()
        &&& !after.aborted()
        &&& after.received() == self.received() + 1
        &&& after.contents() == stored_after(
            self.owned(),
            self.contents(),
            self.received() as int,
            msg@.1,
            self.request().0 as int,
        )
    }

    /// Feeding packet `seq` would overflow the packet counter.
    pub open spec fn next_overflows(&self, seq: u8) -> bool {
        &&& !self.aborted()
        &&& {
            ||| self.received() == 255
            ||| {
                &&& seq == self.received() + 1
                &&& self.has_room(self.received() as int)
                &&& self.received() + 1 == 255
                &&& self.received() + 1 != self.request().1
                &&& (self.request().2 matches Some(p) && (if p == 0 { seq == 0 } else { seq % p == 0 }))
            }
        }
    }

    /// Feed the transfer with the next data transfer.
    ///
    /// After an abort every packet is refused. A packet out of sequence, or
    /// one that borrowed storage has no room for, aborts the transfer. A
    /// stored packet is answered with an end-of-message acknowledgement when
    /// it is the last, with a CTS when its sequence number is a multiple of
    /// the packet limit, and with nothing otherwise.
    pub fn next(&mut self, msg: DataTransfer) -> (r: Result<Option<Response>, (Error, ConnectionAbort)>)
        requires
            !old(self).next_overflows(msg@.0),
        ensures
            final(self).request() == old(self).request(),
            final(self).owned() == old(self).owned(),
            r is Ok <==> old(self).accepts(msg, *final(self)),
            r is Err ==> final(self).aborted(),
            ({
                let pgn = old(self).request().3;
                let seq = msg@.0;
                let rx = old(self).received();
                if old(self).aborted() {
                    &&& *final(self) == *old(self)
                    &&& r matches Err((e, a)) && e == Error::PreviousAbort && a@ == (
                        AbortReason::UnexpectedDataTransfer,
                        AbortSenderRole::Receiver,
                        pgn,
                    )
                } else if seq != rx + 1 {
                    &&& final(self).aborted()
                    &&& final(self).received() == rx
                    &&& final(self).contents() == old(self).contents()
                    &&& r matches Err((e, a)) && e == Error::Sequence && a@ == (
                        AbortReason::BadSequenceNumber,
                        AbortSenderRole::Receiver,
                        pgn,
                    )
                } else if !old(self).has_room(rx as int) {
                    &&& final(self).aborted()
                    &&& final(self).received() == rx
                    &&& final(self).contents() == old(self).contents()
                    &&& r matches Err((e, a)) && e == Error::StorageTooSmall && a@ == (
                        AbortReason::Custom,
                        AbortSenderRole::Receiver,
                        pgn,
                    )
                } else {
                    &&& !final(self).aborted()
                    &&& final(self).received() == rx + 1
                    &&& final(self).contents() == stored_after(
                        old(self).owned(),
                        old(self).contents(),
                        rx as int,
                        msg@.1,
                        old(self).request().0 as int,
                    )
                    &&& r matches Ok(resp) && if rx + 1 == old(self).request().1 {
                        resp matches Some(Response::End(end)) && end@ == (
                            old(self).request().0,
                            old(self).request().1,
                            pgn,
                        )
                    } else if old(self).request().2 matches Some(p) && (if p == 0 {
                        seq == 0
                    } else {
                        seq % p == 0
                    }) {
                        resp matches Some(Response::Cts(cts)) && cts@ == (
                            old(self).request().2,
                            (rx + 2) as u8,
                            pgn,
                        )
                    } else {
                        resp is None
                    }
                }
            }),
    {
        if self.abort {
            return Err(
                (
                    Error::PreviousAbort,
                    ConnectionAbort::new(
                        AbortReason::UnexpectedDataTransfer,
                        AbortSenderRole::Receiver,
                        self.rts.pgn(),
                    ),
                ),
            );
        }
        if msg.sequence() != self.rx_packets + 1 {
            self.abort = true;
            return Err(
                (
                    Error::Sequence,
                    ConnectionAbort::new(
                        AbortReason::BadSequenceNumber,
                        AbortSenderRole::Receiver,
                        self.rts.pgn(),
                    ),
                ),
            );
        }
        let data = msg.data();
        proof {
            msg.lemma_len();
        }
        if storage_is_owned(&self.storage) {
            storage_extend(&mut self.storage, data.as_slice());
            storage_truncate(&mut self.storage, self.rts.total_size() as usize);
        } else {
            let len = storage_as_slice(&self.storage).len();
            let start = (self.rx_packets as usize) * 7;
            if start >= len {
                self.abort = true;
                return Err(
                    (
                        Error::StorageTooSmall,
                        ConnectionAbort::new(AbortReason::Custom, AbortSenderRole::Receiver, self.rts.pgn()),
                    ),
                );
            }
            let end = if start + 7 < len {
                start + 7
            } else {
                len
            };
            let ghost before = managed_contents(&self.storage);
            let ghost rx0 = self.rx_packets;
            let ghost rts0 = self.rts;
            let mut i = start;
            while i < end
                invariant
                    self.rx_packets == rx0,
                    self.rts == rts0,
                    !self.abort,
                    start == 7 * rx0,
                    end == (if start + 7 < len { start + 7 } else { len as int }),
                    start <= i <= end <= len,
                    end <= start + 7,
                    len == before.len(),
                    data@.len() == 7,
                    !managed_is_owned(&self.storage),
                    managed_contents(&self.storage).len() == len,
                    forall|k: int|
                        0 <= k < len ==> managed_contents(&self.storage)[k] == if start <= k < i {
                            data@[k - start]
                        } else {
                            before[k]
                        },
                decreases end - i,
            {
                storage_set(&mut self.storage, i, data[i - start]);
                i = i + 1;
            }
            assert(managed_contents(&self.storage) =~= stored_after(
                false,
                before,
                self.rx_packets as int,
                data@,
                self.rts@.0 as int,
            ));
        }
        self.rx_packets = self.rx_packets + 1;
        if self.rx_packets == self.rts.total_packets() {
            return Ok(
                Some(
                    Response::End(
                        EndOfMessageAck::new(self.rts.total_size(), self.rts.total_packets(), self.rts.pgn()),
                    ),
                ),
            );
        }
        if let Some(packets_per_response) = self.rts.max_packets_per_response() {
            if msg.sequence().is_multiple_of(packets_per_response) {
                return Ok(
                    Some(
                        Response::Cts(
                            ClearToSend::new(
                                self.rts.max_packets_per_response(),
                                self.rx_packets + 1,
                                self.rts.pgn(),
                            ),
                        ),
                    ),
                );
            }
        }
        Ok(None)
    }
}

/// The payloads of `packets`, one after another.
pub open spec fn joined(packets: Seq<Seq<u8>>) -> Seq<u8>
    decreases packets.len(),
{
    if packets.len() == 0 {
        Seq::empty()
    } else {
        joined(packets.drop_last()) + packets.last()
    }
}

/// The bytes owned storage holds once `packets` were stored in order into
/// an empty transfer of `total` bytes.
pub open spec fn owned_stored(packets: Seq<Seq<u8>>, total: int) -> Seq<u8>
    decreases packets.len(),
{
    if packets.len() == 0 {
        Seq::empty()
    } else {
        stored_after(
            true,
            owned_stored(packets.drop_last(), total),
            packets.len() - 1,
            packets.last(),
            total,
        )
    }
}

/// Reassembly: a transfer into owned storage holds the packets' payloads
/// one after another, cut to the transfer's total size.
pub proof fn lemma_owned_reassembly(packets: Seq<Seq<u8>>, total: nat)
    ensures
        owned_stored(packets, total as int) == (if joined(packets).len() <= total {
            joined(packets)
        } else {
            joined(packets).take(total as int)
        }),
    decreases packets.len(),
{
    if packets.len() > 0 {
        let front = packets.drop_last();
        let d = packets.last();
        lemma_owned_reassembly(front, total);
        let jf = joined(front);
        let j = joined(packets);
        assert(j == jf + d);
        let c = owned_stored(front, total as int);
        let g = c + d;
        if jf.len() <= total {
            assert(g =~= j);
        } else {
            assert(c =~= jf.take(total as int));
            if d.len() == 0 {
                assert(g =~= c);
                assert(j.take(total as int) =~= jf.take(total as int));
            } else {
                assert(g.take(total as int) =~= j.take(total as int));
            }
        }
    }
}

/// The bytes borrowed storage holds once `packets` were stored in order
/// over its initial bytes `initial`.
pub open spec fn borrowed_stored(initial: Seq<u8>, packets: Seq<Seq<u8>>) -> Seq<u8>
    decreases packets.len(),
{
    if packets.len() == 0 {
        initial
    } else {
        stored_after(
            false,
            borrowed_stored(initial, packets.drop_last()),
            packets.len() - 1,
            packets.last(),
            0,
        )
    }
}

/// Reassembly into borrowed storage: packet `k` (counted from 0) fills the
/// storage's bytes `7 * k` to `7 * k + 6`, cut at the storage's end, and the
/// bytes beyond the packets stored keep their initial values.
pub proof fn lemma_borrowed_reassembly(initial: Seq<u8>, packets: Seq<Seq<u8>>)
    requires
        forall|k: int| 0 <= k < packets.len() ==> (#[trigger] packets[k]).len() == 7,
    ensures
        borrowed_stored(initial, packets).len() == initial.len(),
        forall|i: int|
            0 <= i < initial.len() ==> #[trigger] borrowed_stored(initial, packets)[i] == (if i < 7
                * packets.len() {
                packets[i / 7][i % 7]
            } else {
                initial[i]
            }),
    decreases packets.len(),
{
    if packets.len() > 0 {
        let front = packets.drop_last();
        lemma_borrowed_reassembly(initial, front);
        let n = packets.len() - 1;
        assert forall|i: int| 0 <= i < initial.len() implies #[trigger] borrowed_stored(
            initial,
            packets,
        )[i] == (if i < 7 * packets.len() {
            packets[i / 7][i % 7]
        } else {
            initial[i]
        }) by {
            assert(borrowed_stored(initial, front)[i] == (if i < 7 * n {
                front[i / 7][i % 7]
            } else {
                initial[i]
            }));
            if 7 * n <= i < 7 * n + 7 {
                assert(i / 7 == n && i % 7 == i - 7 * n);
            } else if i < 7 * n {
                assert(i / 7 < n);
                assert(front[i / 7] == packets[i / 7]);
            }
        }
    }
}


/// The payloads of the packets `msgs`.
pub open spec fn payloads(msgs: Seq<DataTransfer>) -> Seq<Seq<u8>> {
    msgs.map_values(|m: DataTransfer| m@.1)
}

/// `states` is a run of `next` calls that each stored their packet:
/// `states[i + 1]` is `states[i]` once it accepted `msgs[i]`.
pub open spec fn accepted_run<'a>(states: Seq<Transfer<'a>>, msgs: Seq<DataTransfer>) -> bool {
    &&& states.len() == msgs.len() + 1
    &&& forall|i: int| 0 <= i < msgs.len() ==> (#[trigger] states[i]).accepts(msgs[i], states[i + 1])
}

/// Packets of seven bytes joined: byte `i` is byte `i % 7` of packet `i / 7`.
pub proof fn lemma_joined_index(packets: Seq<Seq<u8>>)
    requires
        forall|k: int| 0 <= k < packets.len() ==> (#[trigger] packets[k]).len() == 7,
    ensures
        joined(packets).len() == 7 * packets.len(),
        forall|i: int|
            0 <= i < 7 * packets.len() ==> #[trigger] joined(packets)[i] == packets[i / 7][i % 7],
    decreases packets.len(),
{
    if packets.len() > 0 {
        let front = packets.drop_last();
        lemma_joined_index(front);
        let n = packets.len() - 1;
        assert forall|i: int| 0 <= i < 7 * packets.len() implies #[trigger] joined(packets)[i]
            == packets[i / 7][i % 7] by {
            if i < 7 * n {
                assert(joined(front)[i] == front[i / 7][i % 7]);
                assert(i / 7 < n);
            } else {
                assert(i / 7 == n && i % 7 == i - 7 * n);
            }
        }
    }
}

/// The transfer at the end of a run of stored packets: the same request and
/// storage kind, not aborted, one more packet counted per packet stored, and
/// the storage as the packets left it, one after another.
pub proof fn lemma_run<'a>(states: Seq<Transfer<'a>>, msgs: Seq<DataTransfer>)
    requires
        accepted_run(states, msgs),
    ensures
        ({
            let first = states[0];
            let last = states.last();
            let total = first.request().0 as int;
            &&& last.request() == first.request()
            &&& last.owned() == first.owned()
            &&& msgs.len() > 0 ==> !last.aborted()
            &&& last.received() == first.received() + msgs.len()
            &&& (first.owned() && first.received() == 0 && first.contents() == Seq::<u8>::empty())
                ==> last.contents() == owned_stored(payloads(msgs), total)
            &&& (!first.owned() && first.received() == 0) ==> last.contents() == borrowed_stored(
                first.contents(),
                payloads(msgs),
            )
        }),
    decreases msgs.len(),
{
    if msgs.len() > 0 {
        let n = msgs.len() - 1;
        let front = states.drop_last();
        let fm = msgs.drop_last();
        assert forall|i: int| 0 <= i < fm.len() implies (#[trigger] front[i]).accepts(fm[i], front[i + 1]) by {
            assert(states[i].accepts(msgs[i], states[i + 1]));
        }
        lemma_run(front, fm);
        assert(states[n].accepts(msgs[n], states[n + 1]));
        assert(payloads(fm) =~= payloads(msgs).drop_last());
        assert(front.last() == states[n]);
    }
}

/// Reassembly over a run, as `finished` reads it: once a fresh transfer
/// stored as many packets as its request announces, the request's packets
/// hold its total size, and (for borrowed storage) the storage holds that
/// many bytes, the first `total_size` stored bytes are the packets'
/// payloads one after another, cut to the total size.
pub proof fn lemma_run_finished<'a>(states: Seq<Transfer<'a>>, msgs: Seq<DataTransfer>)
    requires
        accepted_run(states, msgs),
        states[0].received() == 0,
        states[0].owned() ==> states[0].contents() == Seq::<u8>::empty(),
        !states[0].owned() ==> states[0].contents().len() >= states[0].request().0,
        states.last().complete(),
        7 * states[0].request().1 >= states[0].request().0,
    ensures
        ({
            let last = states.last();
            let total = last.request().0 as int;
            &&& last.contents().len() >= total
            &&& last.contents().take(total) == joined(payloads(msgs)).take(total)
        }),
{
    lemma_run(states, msgs);
    let ds = payloads(msgs);
    assert forall|k: int| 0 <= k < ds.len() implies (#[trigger] ds[k]).len() == 7 by {
        msgs[k].lemma_len();
    }
    lemma_joined_index(ds);
    let first = states[0];
    let last = states.last();
    let total = first.request().0 as int;
    assert(7 * msgs.len() >= total);
    if first.owned() {
        lemma_owned_reassembly(ds, total as nat);
        assert(last.contents().take(total) =~= joined(ds).take(total));
    } else {
        lemma_borrowed_reassembly(first.contents(), ds);
        assert(last.contents().take(total) =~= joined(ds).take(total));
    }
}

} // verus!
