//! The bridge between the master of a pseudo-terminal and a transport.
//!
//! A bridge has two pumps. The outbound pump reads from the master and
//! forwards what it has read to the transport; the inbound pump receives
//! from the transport and writes what it has received to the master. Each
//! pump runs once. It stops when its source is at its end, when its source
//! or its sink fails, or when the other pump has stopped; a pump that stops
//! asks the other one to stop too. A pump that has been asked to stop does
//! so as soon as it takes note of the request, at its next event at the
//! latest, and treats the request like the end of its source: it is no
//! failure.
//!
//! The pumps perform nothing themselves. A pump is told what has happened
//! and answers with what to do next.

use vstd::prelude::*;
use crate::session::SessionId;
use crate::status::FailureReason;

verus! {

/// The most bytes that the outbound pump asks of the master in one read.
pub const READ_CHUNK: usize = 1024;

/// One frame of the transport: text or bytes.
#[derive(Debug, PartialEq, Eq)]
pub enum Frame {
    Text(String),
    Binary(Vec<u8>),
}

/// The state of one pump.
#[derive(Clone, Copy, Debug, PartialEq, Eq, Structural)]
pub enum PumpState {
    /// The pump runs.
    Running,
    /// The pump has been asked to stop and has not yet done so.
    Cancelled,
    /// The pump has stopped. It does not start again.
    Stopped,
}

/// What a bridge shows: the session it belongs to, the state of its two
/// pumps, and the first failure that stopped one of them.
pub struct BridgeState {
    pub session_id: SessionId,
    pub outbound: PumpState,
    pub inbound: PumpState,
    pub fault: Option<FailureReason>,
}

/// The bridge of one session. There is one handle for a bridge. Only the
/// registry makes one, when it attaches a bridge to a session; it can be
/// moved and not copied, and nothing but the steps of its pumps changes it.
#[derive(Debug, PartialEq, Eq)]
pub struct BridgeHandle {
    session_id: SessionId,
    outbound: PumpState,
    inbound: PumpState,
    fault: Option<FailureReason>,
}

impl View for BridgeHandle {
    type V = BridgeState;

    closed spec fn view(&self) -> BridgeState {
        BridgeState {
            session_id: self.session_id,
            outbound: self.outbound,
            inbound: self.inbound,
            fault: self.fault,
        }
    }
}

/// What has happened to the outbound pump.
#[derive(Debug, PartialEq, Eq)]
pub enum OutboundEvent {
    /// A read from the master returned these bytes. No bytes mean that the
    /// worker's side is closed.
    Read(Vec<u8>),
    /// A read from the master failed.
    ReadFailed,
    /// The transport did not take the frame that was forwarded last.
    SendFailed,
    /// The worker has ended and the time allowed for forwarding what the
    /// pseudo-terminal still held is up.
    DrainExpired,
}

/// What the outbound pump does next.
#[derive(Debug, PartialEq, Eq)]
pub enum OutboundAction {
    /// Forward these bytes to the transport as one frame, then read again.
    Forward(Vec<u8>),
    /// The pump has stopped.
    Halt,
}

/// What has happened to the inbound pump.
#[derive(Debug, PartialEq, Eq)]
pub enum InboundEvent {
    /// The transport delivered a frame with these bytes.
    Received(Vec<u8>),
    /// The transport is closed.
    Closed,
    /// Receiving from the transport failed.
    ReceiveFailed,
    /// The master did not take the bytes that were written last.
    WriteFailed,
}

/// What the inbound pump does next.
#[derive(Debug, PartialEq, Eq)]
pub enum InboundAction {
    /// Write these bytes to the master, then receive again.
    Write(Vec<u8>),
    /// There is nothing to write; receive again.
    Idle,
    /// The pump has stopped.
    Halt,
}

impl Frame {
    /// The bytes that a frame carries: those of a binary frame as they are,
    /// and the UTF-8 encoding of a text frame.
    pub open spec fn payload(self) -> Seq<u8> {
        match self {
            Frame::Text(text) => vstd::utf8::encode_utf8(text@),
            Frame::Binary(bytes) => bytes@,
        }
    }

    /// Turns a frame into the bytes it carries.
    pub fn into_bytes(self) -> (bytes: Vec<u8>)
        ensures
            bytes@ == self.payload(),
    {
        match self {
            Frame::Binary(bytes) => bytes,
            Frame::Text(text) => {
                let encoded = text.as_str().as_bytes();
                let mut bytes: Vec<u8> = Vec::new();
                let mut i: usize = 0;
                while i < encoded.len()
                    invariant
                        i <= encoded.len(),
                        bytes@ == encoded@.take(i as int),
                    decreases encoded.len() - i,
                {
                    bytes.push(encoded[i]);
                    i = i + 1;
                }
                bytes
            },
        }
    }
}

impl PumpState {
    /// The state of a pump after it has been asked to stop.
    pub open spec fn asked_to_stop(self) -> PumpState {
        if self is Running {
            PumpState::Cancelled
        } else {
            self
        }
    }

    /// The state of a pump after it has taken note of what was asked of it:
    /// a pump that was asked to stop has stopped.
    pub open spec fn acknowledged(self) -> PumpState {
        if self is Cancelled {
            PumpState::Stopped
        } else {
            self
        }
    }
}

/// The first of two failures: the earlier one stays.
pub open spec fn first_fault(earlier: Option<FailureReason>, later: Option<FailureReason>) -> Option<
    FailureReason,
> {
    if earlier is Some {
        earlier
    } else {
        later
    }
}

impl BridgeState {
    /// The bridge of `session_id` at the moment it is attached: both pumps
    /// run and nothing has failed.
    pub open spec fn fresh(session_id: SessionId) -> BridgeState {
        BridgeState {
            session_id,
            outbound: PumpState::Running,
            inbound: PumpState::Running,
            fault: None,
        }
    }

    /// A bridge is finished when both of its pumps have stopped.
    pub open spec fn finished(self) -> bool {
        self.outbound is Stopped && self.inbound is Stopped
    }

    /// The bridge after each pump that was asked to stop has done so.
    pub open spec fn acknowledged(self) -> BridgeState {
        BridgeState {
            session_id: self.session_id,
            outbound: self.outbound.acknowledged(),
            inbound: self.inbound.acknowledged(),
            fault: self.fault,
        }
    }

    /// The bridge after its outbound pump has stopped, with the failure that
    /// stopped it, if one did: the inbound pump is asked to stop.
    pub open spec fn outbound_halted(self, fault: Option<FailureReason>) -> BridgeState {
        BridgeState {
            session_id: self.session_id,
            outbound: PumpState::Stopped,
            inbound: self.inbound.asked_to_stop(),
            fault: first_fault(self.fault, fault),
        }
    }

    /// The bridge after its inbound pump has stopped, with the failure that
    /// stopped it, if one did: the outbound pump is asked to stop.
    pub open spec fn inbound_halted(self, fault: Option<FailureReason>) -> BridgeState {
        BridgeState {
            session_id: self.session_id,
            outbound: self.outbound.asked_to_stop(),
            inbound: PumpState::Stopped,
            fault: first_fault(self.fault, fault),
        }
    }

    /// The bridge and the action that follow `event` at the outbound pump.
    /// A running pump forwards every read that holds bytes, stops at a read
    /// that holds none and when the time to drain is up, and stops with a
    /// failure where the read or the transport failed. A pump that does not
    /// run stops whatever the event.
    pub open spec fn after_outbound(self, event: OutboundEvent) -> (BridgeState, OutboundAction) {
        if self.outbound is Running {
            match event {
                OutboundEvent::Read(bytes) => if bytes@.len() > 0 {
                    (self, OutboundAction::Forward(bytes))
                } else {
                    (self.outbound_halted(None), OutboundAction::Halt)
                },
                OutboundEvent::ReadFailed => (
                    self.outbound_halted(Some(FailureReason::PtyIo)),
                    OutboundAction::Halt,
                ),
                OutboundEvent::SendFailed => (
                    self.outbound_halted(Some(FailureReason::TransportIo)),
                    OutboundAction::Halt,
                ),
                OutboundEvent::DrainExpired => (self.outbound_halted(None), OutboundAction::Halt),
            }
        } else {
            (self.outbound_halted(None), OutboundAction::Halt)
        }
    }

    /// The bridge and the action that follow `event` at the inbound pump.
    /// A running pump writes every frame that holds bytes, passes over one
    /// that holds none, stops when the transport is closed, and stops with
    /// a failure where the transport or the master failed. A pump that does
    /// not run stops whatever the event.
    pub open spec fn after_inbound(self, event: InboundEvent) -> (BridgeState, InboundAction) {
        if self.inbound is Running {
            match event {
                InboundEvent::Received(bytes) => if bytes@.len() > 0 {
                    (self, InboundAction::Write(bytes))
                } else {
                    (self, InboundAction::Idle)
                },
                InboundEvent::Closed => (self.inbound_halted(None), InboundAction::Halt),
                InboundEvent::ReceiveFailed => (
                    self.inbound_halted(Some(FailureReason::TransportIo)),
                    InboundAction::Halt,
                ),
                InboundEvent::WriteFailed => (
                    self.inbound_halted(Some(FailureReason::PtyIo)),
                    InboundAction::Halt,
                ),
            }
        } else {
            (self.inbound_halted(None), InboundAction::Halt)
        }
    }
}

impl BridgeHandle {
    /// Makes the bridge of a session. Its two pumps run.
    pub(crate) fn attach(session_id: SessionId) -> (handle: BridgeHandle)
        ensures
            handle@ == BridgeState::fresh(session_id),
    {
        BridgeHandle {
            session_id,
            outbound: PumpState::Running,
            inbound: PumpState::Running,
            fault: None,
        }
    }

    /// The session that the bridge belongs to.
    pub fn session_id(&self) -> (id: SessionId)
        ensures
            id == self@.session_id,
    {
        self.session_id
    }

    /// The state of the outbound pump.
    pub fn outbound(&self) -> (state: PumpState)
        ensures
            state == self@.outbound,
    {
        self.outbound
    }

    /// The state of the inbound pump.
    pub fn inbound(&self) -> (state: PumpState)
        ensures
            state == self@.inbound,
    {
        self.inbound
    }

    /// The first failure that stopped a pump, if one did.
    pub fn fault(&self) -> (fault: Option<FailureReason>)
        ensures
            fault == self@.fault,
    {
        self.fault
    }

    /// Tells whether both pumps have stopped.
    pub fn is_finished(&self) -> (b: bool)
        ensures
            b == self@.finished(),
    {
        matches!(self.outbound, PumpState::Stopped) && matches!(self.inbound, PumpState::Stopped)
    }

    /// Lets each pump that has been asked to stop do so, and tells whether
    /// the bridge is finished then. Being asked to stop is no failure.
    pub fn acknowledge(&mut self) -> (finished: bool)
        ensures
            final(self)@ == old(self)@.acknowledged(),
            finished == final(self)@.finished(),
    {
        if matches!(self.outbound, PumpState::Cancelled) {
            self.outbound = PumpState::Stopped;
        }
        if matches!(self.inbound, PumpState::Cancelled) {
            self.inbound = PumpState::Stopped;
        }
        self.is_finished()
    }

    fn halt_outbound(&mut self, fault: Option<FailureReason>)
        ensures
            final(self)@ == old(self)@.outbound_halted(fault),
    {
        self.outbound = PumpState::Stopped;
        if matches!(self.inbound, PumpState::Running) {
            self.inbound = PumpState::Cancelled;
        }
        if self.fault.is_none() {
            self.fault = fault;
        }
    }

    fn halt_inbound(&mut self, fault: Option<FailureReason>)
        ensures
            final(self)@ == old(self)@.inbound_halted(fault),
    {
        self.inbound = PumpState::Stopped;
        if matches!(self.outbound, PumpState::Running) {
            self.outbound = PumpState::Cancelled;
        }
        if self.fault.is_none() {
            self.fault = fault;
        }
    }

    /// Tells the outbound pump what has happened and returns what it does
    /// next.
    pub fn outbound_step(&mut self, event: OutboundEvent) -> (action: OutboundAction)
        ensures
            (final(self)@, action) == old(self)@.after_outbound(event),
    {
        if !matches!(self.outbound, PumpState::Running) {
            self.halt_outbound(None);
            return OutboundAction::Halt;
        }
        match event {
            OutboundEvent::Read(bytes) => {
                if bytes.len() > 0 {
                    OutboundAction::Forward(bytes)
                } else {
                    self.halt_outbound(None);
                    OutboundAction::Halt
                }
            },
            OutboundEvent::ReadFailed => {
                self.halt_outbound(Some(FailureReason::PtyIo));
                OutboundAction::Halt
            },
            OutboundEvent::SendFailed => {
                self.halt_outbound(Some(FailureReason::TransportIo));
                OutboundAction::Halt
            },
            OutboundEvent::DrainExpired => {
                self.halt_outbound(None);
                OutboundAction::Halt
            },
        }
    }

    /// Tells the inbound pump what has happened and returns what it does
    /// next.
    pub fn inbound_step(&mut self, event: InboundEvent) -> (action: InboundAction)
        ensures
            (final(self)@, action) == old(self)@.after_inbound(event),
    {
        if !matches!(self.inbound, PumpState::Running) {
            self.halt_inbound(None);
            return InboundAction::Halt;
        }
        match event {
            InboundEvent::Received(bytes) => {
                if bytes.len() > 0 {
                    InboundAction::Write(bytes)
                } else {
                    InboundAction::Idle
                }
            },
            InboundEvent::Closed => {
                self.halt_inbound(None);
                InboundAction::Halt
            },
            InboundEvent::ReceiveFailed => {
                self.halt_inbound(Some(FailureReason::TransportIo));
                InboundAction::Halt
            },
            InboundEvent::WriteFailed => {
                self.halt_inbound(Some(FailureReason::PtyIo));
                InboundAction::Halt
            },
        }
    }
}

/// The number under which the system reports an input/output error. A read
/// from the master fails with it once the worker's side of the
/// pseudo-terminal is closed.
pub const HANGUP_ERRNO: i32 = 5;

/// What the outbound pump is told of a read that failed with the error
/// number `errno`. An input/output error is the way in which the system
/// says that the worker's side is closed, so it counts as a read without
/// bytes, which stops the pump without a failure. Every other error is a
/// failed read.
pub fn read_failure(errno: i32) -> (event: OutboundEvent)
    ensures
        match event {
            OutboundEvent::Read(bytes) => errno == HANGUP_ERRNO && bytes@.len() == 0,
            OutboundEvent::ReadFailed => errno != HANGUP_ERRNO,
            _ => false,
        },
{
    if errno == HANGUP_ERRNO {
        OutboundEvent::Read(Vec::new())
    } else {
        OutboundEvent::ReadFailed
    }
}

/// Bytes on their way to the master. One write may take fewer bytes than it
/// was given, so a frame is written in as many writes as it takes: each
/// write is given what is left, and what it took is struck off the front.
pub struct PendingWrite {
    bytes: Vec<u8>,
    taken: usize,
}

impl PendingWrite {
    /// All the bytes, those taken and those left.
    pub closed spec fn all(&self) -> Seq<u8> {
        self.bytes@
    }

    /// The number of bytes that the master has taken.
    pub closed spec fn taken(&self) -> nat {
        self.taken as nat
    }

    /// No more bytes are taken than there are.
    #[verifier::type_invariant]
    closed spec fn within(&self) -> bool {
        self.taken <= self.bytes.len()
    }

    /// The bytes that the master has taken: the front of all bytes.
    pub open spec fn gone(&self) -> Seq<u8> {
        self.all().take(self.taken() as int)
    }

    /// The bytes that are left to write: all but those taken.
    pub open spec fn left(&self) -> Seq<u8> {
        self.all().skip(self.taken() as int)
    }

    /// Starts the writing of `bytes`: none is taken yet.
    pub fn new(bytes: Vec<u8>) -> (pending: PendingWrite)
        ensures
            pending.all() == bytes@,
            pending.taken() == 0,
            pending.left() == bytes@,
    {
        PendingWrite { bytes, taken: 0 }
    }

    /// The bytes to give to the next write.
    pub fn rest(&self) -> (rest: &[u8])
        ensures
            rest@ == self.left(),
            self.taken() <= self.all().len(),
    {
        proof {
            use_type_invariant(self);
        }
        vstd::slice::slice_subrange(self.bytes.as_slice(), self.taken, self.bytes.len())
    }

    /// Tells whether every byte has been taken.
    pub fn is_done(&self) -> (done: bool)
        ensures
            done == (self.left().len() == 0),
            done == (self.gone() == self.all()),
            self.taken() <= self.all().len(),
    {
        proof {
            use_type_invariant(self);
            if self.taken >= self.bytes.len() {
                assert(self.gone() =~= self.all());
            } else {
                assert(self.gone().len() == self.taken());
            }
        }
        self.taken >= self.bytes.len()
    }

    /// Takes note that the last write took `count` bytes of what it was
    /// given. The bytes taken are the first of those left, and they are
    /// added to the end of those gone: the master gets the bytes in their
    /// order, each one once. A count beyond what was left is taken as all.
    pub fn advance(&mut self, count: usize)
        ensures
            final(self).taken() <= final(self).all().len(),
            final(self).all() == old(self).all(),
            final(self).taken() == old(self).taken() + vstd::math::min(
                count as int,
                old(self).left().len() as int,
            ),
            final(self).gone() == old(self).gone() + old(self).left().take(
                vstd::math::min(count as int, old(self).left().len() as int),
            ),
            final(self).left() == old(self).left().skip(
                vstd::math::min(count as int, old(self).left().len() as int),
            ),
    {
        proof {
            use_type_invariant(&*self);
        }
        let room = self.bytes.len() - self.taken;
        let step = if count < room {
            count
        } else {
            room
        };
        self.taken = self.taken + step;
    }
}

/// The frames of the longest run of reads that hold bytes at the start of
/// `events`: what the master gave before its first read without bytes, its
/// first failure or the transport's.
pub open spec fn leading_reads(events: Seq<OutboundEvent>) -> Seq<Seq<u8>>
    decreases events.len(),
{
    if events.len() == 0 {
        Seq::empty()
    } else {
        match events.first() {
            OutboundEvent::Read(bytes) => if bytes@.len() > 0 {
                seq![bytes@] + leading_reads(events.drop_first())
            } else {
                Seq::empty()
            },
            _ => Seq::empty(),
        }
    }
}

/// The bytes of the longest run of received frames at the start of
/// `events`, one after the other: what the transport delivered before it
/// was closed or something failed.
pub open spec fn leading_received(events: Seq<InboundEvent>) -> Seq<u8>
    decreases events.len(),
{
    if events.len() == 0 {
        Seq::empty()
    } else {
        match events.first() {
            InboundEvent::Received(bytes) => bytes@ + leading_received(events.drop_first()),
            _ => Seq::empty(),
        }
    }
}

impl BridgeState {
    /// The frames that the outbound pump forwards while it is told `events`
    /// one after the other, in the order in which it forwards them.
    pub open spec fn forwarded(self, events: Seq<OutboundEvent>) -> Seq<Seq<u8>>
        decreases events.len(),
    {
        if events.len() == 0 {
            Seq::empty()
        } else {
            let (next, action) = self.after_outbound(events.first());
            let rest = next.forwarded(events.drop_first());
            match action {
                OutboundAction::Forward(bytes) => seq![bytes@] + rest,
                OutboundAction::Halt => rest,
            }
        }
    }

    /// The bytes that the inbound pump writes to the master while it is
    /// told `events` one after the other, in the order in which it writes
    /// them.
    pub open spec fn written(self, events: Seq<InboundEvent>) -> Seq<u8>
        decreases events.len(),
    {
        if events.len() == 0 {
            Seq::empty()
        } else {
            let (next, action) = self.after_inbound(events.first());
            let rest = next.written(events.drop_first());
            match action {
                InboundAction::Write(bytes) => bytes@ + rest,
                _ => rest,
            }
        }
    }
}

/// The stop of one pump stops the other. Where both pumps run, an event at
/// either of them leaves both running and the bridge as it was, or stops
/// that pump and asks the other to stop, so that the bridge is finished as
/// soon as the other has taken note.
pub proof fn lemma_stop_spreads(handle: BridgeState, out: OutboundEvent, inb: InboundEvent)
    requires
        handle.outbound is Running,
        handle.inbound is Running,
    ensures
        ({
            let after = handle.after_outbound(out).0;
            ||| after == handle
            ||| after.outbound is Stopped && after.inbound is Cancelled
                && after.acknowledged().finished()
        }),
        ({
            let after = handle.after_inbound(inb).0;
            ||| after == handle
            ||| after.inbound is Stopped && after.outbound is Cancelled
                && after.acknowledged().finished()
        }),
{
}

/// An outbound pump that does not run forwards nothing, whatever it is
/// told: a pump runs once.
pub proof fn lemma_halted_outbound_is_silent(handle: BridgeState, events: Seq<OutboundEvent>)
    requires
        !(handle.outbound is Running),
    ensures
        handle.forwarded(events) == Seq::<Seq<u8>>::empty(),
    decreases events.len(),
{
    if events.len() > 0 {
        lemma_halted_outbound_is_silent(
            handle.after_outbound(events.first()).0,
            events.drop_first(),
        );
    }
}

/// An inbound pump that does not run writes nothing, whatever it is told.
pub proof fn lemma_halted_inbound_is_silent(handle: BridgeState, events: Seq<InboundEvent>)
    requires
        !(handle.inbound is Running),
    ensures
        handle.written(events) == Seq::<u8>::empty(),
    decreases events.len(),
{
    if events.len() > 0 {
        lemma_halted_inbound_is_silent(handle.after_inbound(events.first()).0, events.drop_first());
    }
}

/// The outbound pump keeps the order of what the worker produced: a running
/// pump forwards exactly the reads that came before its stop, each as one
/// frame and in the order in which they were read, and nothing after.
pub proof fn lemma_outbound_keeps_order(handle: BridgeState, events: Seq<OutboundEvent>)
    requires
        handle.outbound is Running,
    ensures
        handle.forwarded(events) == leading_reads(events),
    decreases events.len(),
{
    if events.len() > 0 {
        let next = handle.after_outbound(events.first()).0;
        if next.outbound is Running {
            lemma_outbound_keeps_order(next, events.drop_first());
        } else {
            lemma_halted_outbound_is_silent(next, events.drop_first());
        }
    }
}

/// The inbound pump keeps the order of what the transport delivered: a
/// running pump writes to the master exactly the bytes of the frames that
/// came before its stop, frame after frame, and nothing after.
pub proof fn lemma_inbound_keeps_order(handle: BridgeState, events: Seq<InboundEvent>)
    requires
        handle.inbound is Running,
    ensures
        handle.written(events) == leading_received(events),
    decreases events.len(),
{
    if events.len() > 0 {
        let next = handle.after_inbound(events.first()).0;
        if next.inbound is Running {
            lemma_inbound_keeps_order(next, events.drop_first());
            match events.first() {
                InboundEvent::Received(bytes) => {
                    assert(bytes@.len() == 0 ==> bytes@ + leading_received(events.drop_first())
                        =~= leading_received(events.drop_first()));
                },
                _ => {},
            }
        } else {
            lemma_halted_inbound_is_silent(next, events.drop_first());
        }
    }
}

/// What is told to a pump in two parts has the effect of the two parts one
/// after the other: the frames forwarded for the first part come before
/// those forwarded for the second.
pub proof fn lemma_forwarded_in_sequence(
    handle: BridgeState,
    first: Seq<OutboundEvent>,
    second: Seq<OutboundEvent>,
)
    requires
        handle.outbound is Running,
        leading_reads(first).len() == first.len(),
    ensures
        handle.forwarded(first + second) == leading_reads(first) + leading_reads(second),
{
    lemma_outbound_keeps_order(handle, first + second);
    lemma_leading_reads_of_concat(first, second);
}

/// The leading reads of two runs of events, where the first run holds
/// nothing but reads with bytes.
proof fn lemma_leading_reads_of_concat(first: Seq<OutboundEvent>, second: Seq<OutboundEvent>)
    requires
        leading_reads(first).len() == first.len(),
    ensures
        leading_reads(first + second) == leading_reads(first) + leading_reads(second),
    decreases first.len(),
{
    if first.len() == 0 {
        assert(first + second =~= second);
        assert(leading_reads(first) + leading_reads(second) =~= leading_reads(second));
    } else {
        assert((first + second).first() == first.first());
        assert((first + second).drop_first() =~= first.drop_first() + second);
        lemma_leading_reads_bounded(first.drop_first());
        lemma_leading_reads_of_concat(first.drop_first(), second);
        assert(leading_reads(first + second) =~= leading_reads(first) + leading_reads(second));
    }
}

/// There are no more leading reads than events.
proof fn lemma_leading_reads_bounded(events: Seq<OutboundEvent>)
    ensures
        leading_reads(events).len() <= events.len(),
    decreases events.len(),
{
    if events.len() > 0 {
        lemma_leading_reads_bounded(events.drop_first());
    }
}

} // verus!
