//! Fixed-capacity IPC event queues and wait reasons.

use vstd::prelude::*;

use crate::channel::ChannelId;
use crate::port::PortId;
use crate::{DataClass, IpcError, IpcResult, TraceContext};

verus! {

/// Module boundary descriptor.
#[derive(Clone, Debug, PartialEq, Eq)]
pub struct QueueDescriptor<'a> {
    /// Human-readable descriptor name.
    pub name: &'a str,
    /// Descriptor version.
    pub version: u32,
}

impl<'a> QueueDescriptor<'a> {
    /// Creates a queue descriptor.
    pub fn new(name: &'a str, version: u32) -> (descriptor: Self)
        ensures
            descriptor == (QueueDescriptor { name, version }),
    {
        QueueDescriptor { name, version }
    }
}

/// IPC event kind.
#[derive(Clone, Copy, Debug, PartialEq, Eq, Structural)]
pub enum EventKind {
    /// Message was enqueued or delivered.
    Message,
    /// Port became ready.
    PortReady,
    /// Channel closed or drained.
    ChannelClosed,
    /// Shared memory was revoked.
    SharedMemoryRevoked,
    /// Route was denied by rights or policy.
    RouteDenied,
    /// Queue back-pressure was observed.
    BackPressure,
}

impl EventKind {
    /// The stable label of each event kind.
    pub open spec fn spec_label(self) -> Seq<char> {
        match self {
            EventKind::Message => "message"@,
            EventKind::PortReady => "port_ready"@,
            EventKind::ChannelClosed => "channel_closed"@,
            EventKind::SharedMemoryRevoked => "shared_memory_revoked"@,
            EventKind::RouteDenied => "route_denied"@,
            EventKind::BackPressure => "back_pressure"@,
        }
    }

    /// Stable event label.
    pub fn label(self) -> (label: &'static str)
        ensures
            label@ == self.spec_label(),
    {
        match self {
            EventKind::Message => "message",
            EventKind::PortReady => "port_ready",
            EventKind::ChannelClosed => "channel_closed",
            EventKind::SharedMemoryRevoked => "shared_memory_revoked",
            EventKind::RouteDenied => "route_denied",
            EventKind::BackPressure => "back_pressure",
        }
    }
}

/// Wait reason for tasks blocked on IPC.
#[derive(Clone, Copy, Debug, PartialEq, Eq, Structural)]
pub enum WaitReason {
    /// Waiting to send.
    Send,
    /// Waiting to receive.
    Receive,
    /// Waiting for route availability.
    Route,
    /// Waiting for shared-memory seal or revoke.
    SharedMemory,
    /// Waiting for a deadline.
    Deadline,
}

impl WaitReason {
    /// The stable label of each wait reason.
    pub open spec fn spec_label(self) -> Seq<char> {
        match self {
            WaitReason::Send => "send"@,
            WaitReason::Receive => "receive"@,
            WaitReason::Route => "route"@,
            WaitReason::SharedMemory => "shared_memory"@,
            WaitReason::Deadline => "deadline"@,
        }
    }

    /// Stable wait label.
    pub fn label(self) -> (label: &'static str)
        ensures
            label@ == self.spec_label(),
    {
        match self {
            WaitReason::Send => "send",
            WaitReason::Receive => "receive",
            WaitReason::Route => "route",
            WaitReason::SharedMemory => "shared_memory",
            WaitReason::Deadline => "deadline",
        }
    }
}

/// Queue overflow behavior.
#[derive(Clone, Copy, Debug, PartialEq, Eq, Structural)]
pub enum QueuePolicy {
    /// Reject new entries when full.
    FailClosed,
    /// Drop newest entry when full.
    DropNewest,
    /// Drop oldest entry to make room.
    DropOldest,
}

impl QueuePolicy {
    /// The stable label of each policy.
    pub open spec fn spec_label(self) -> Seq<char> {
        match self {
            QueuePolicy::FailClosed => "fail_closed"@,
            QueuePolicy::DropNewest => "drop_newest"@,
            QueuePolicy::DropOldest => "drop_oldest"@,
        }
    }

    /// Stable policy label.
    pub fn label(self) -> (label: &'static str)
        ensures
            label@ == self.spec_label(),
    {
        match self {
            QueuePolicy::FailClosed => "fail_closed",
            QueuePolicy::DropNewest => "drop_newest",
            QueuePolicy::DropOldest => "drop_oldest",
        }
    }
}

/// Queue status summary.
#[derive(Clone, Copy, Debug, PartialEq, Eq, Structural)]
pub struct QueueStatus {
    /// Current queue length.
    pub len: usize,
    /// Queue capacity.
    pub capacity: usize,
    /// Number of overflow events.
    pub overflow_count: u64,
    /// Whether the queue is full.
    pub full: bool,
}

/// IPC event record for deferred routing and observability.
#[derive(Clone, Copy, Debug, PartialEq, Eq, Structural)]
pub struct IpcEvent {
    /// Monotonic event sequence.
    pub sequence: u64,
    /// Event kind.
    pub kind: EventKind,
    /// Port associated with the event.
    pub port: PortId,
    /// Channel associated with the event.
    pub channel: ChannelId,
    /// Message identifier associated with the event.
    pub message_id: u64,
    /// Wait reason, when this event wakes a task.
    pub wait_reason: Option<WaitReason>,
    /// Data class for diagnostic export.
    pub data_class: DataClass,
    /// Trace context.
    pub trace: TraceContext,
}

impl IpcEvent {
    /// Creates a message event.
    pub fn message(sequence: u64, port: PortId, channel: ChannelId, message_id: u64) -> (event:
        Self)
        ensures
            event == (IpcEvent {
                sequence,
                kind: EventKind::Message,
                port,
                channel,
                message_id,
                wait_reason: Some(WaitReason::Receive),
                data_class: DataClass::Operational,
                trace: TraceContext::spec_empty(),
            }),
    {
        IpcEvent {
            sequence,
            kind: EventKind::Message,
            port,
            channel,
            message_id,
            wait_reason: Some(WaitReason::Receive),
            data_class: DataClass::Operational,
            trace: TraceContext::empty(),
        }
    }

    /// Sets event kind.
    pub fn with_kind(self, kind: EventKind) -> (event: Self)
        ensures
            event == (IpcEvent { kind, ..self }),
    {
        IpcEvent { kind, ..self }
    }

    /// Sets wait reason.
    pub fn with_wait_reason(self, wait_reason: Option<WaitReason>) -> (event: Self)
        ensures
            event == (IpcEvent { wait_reason, ..self }),
    {
        IpcEvent { wait_reason, ..self }
    }

    /// Sets trace context.
    pub fn with_trace(self, trace: TraceContext) -> (event: Self)
        ensures
            event == (IpcEvent { trace, ..self }),
    {
        IpcEvent { trace, ..self }
    }

    /// What `validate` answers: sequence, port, channel, a message event
    /// without a message identifier, and finally the trace.
    pub open spec fn spec_validate(self) -> IpcResult<()> {
        if self.sequence == 0 {
            Err(IpcError::InvalidMessage)
        } else if self.port.0 == 0 {
            Err(IpcError::InvalidPort)
        } else if self.channel.0 == 0 {
            Err(IpcError::InvalidChannel)
        } else if self.kind == EventKind::Message && self.message_id == 0 {
            Err(IpcError::InvalidMessage)
        } else {
            self.trace.spec_validate()
        }
    }

    /// Validates event metadata.
    pub fn validate(self) -> (outcome: IpcResult<()>)
        ensures
            outcome == self.spec_validate(),
    {
        if self.sequence == 0 {
            return Err(IpcError::InvalidMessage);
        }
        match self.port.validate() {
            Ok(()) => {},
            Err(error) => return Err(error),
        }
        match self.channel.validate() {
            Ok(()) => {},
            Err(error) => return Err(error),
        }
        if let EventKind::Message = self.kind {
            if self.message_id == 0 {
                return Err(IpcError::InvalidMessage);
            }
        }
        self.trace.validate()
    }
}

/// What pushing `event` answers for a queue holding `events` with room for
/// `capacity` events: an invalid event, then a queue without room, which
/// only the fail-closed policy reports.
pub open spec fn push_outcome(
    events: Seq<IpcEvent>,
    capacity: nat,
    policy: QueuePolicy,
    event: IpcEvent,
) -> IpcResult<()> {
    if event.spec_validate() is Err {
        event.spec_validate()
    } else if capacity == 0 {
        Err(IpcError::CapacityExceeded)
    } else if events.len() >= capacity && policy == QueuePolicy::FailClosed {
        Err(IpcError::CapacityExceeded)
    } else {
        Ok(())
    }
}

/// `true` when pushing `event` meets a queue without room.
pub open spec fn push_overflows(events: Seq<IpcEvent>, capacity: nat, event: IpcEvent) -> bool {
    event.spec_validate() is Ok && events.len() >= capacity
}

/// The queued events after pushing `event`: a valid event is appended when
/// there is room; without room the drop-oldest policy drops the front event
/// and appends, and the other policies leave the queue as it was.
pub open spec fn pushed_events(
    events: Seq<IpcEvent>,
    capacity: nat,
    policy: QueuePolicy,
    event: IpcEvent,
) -> Seq<IpcEvent> {
    if event.spec_validate() is Err || capacity == 0 {
        events
    } else if events.len() >= capacity {
        if policy == QueuePolicy::DropOldest {
            events.drop_first().push(event)
        } else {
            events
        }
    } else {
        events.push(event)
    }
}

/// The slot of the `i`-th queued event in a ring of `capacity` slots whose
/// front event sits at `head`.
pub open spec fn ring_slot(head: int, i: int, capacity: int) -> int {
    if head + i < capacity {
        head + i
    } else {
        head + i - capacity
    }
}

/// How far slot `j` lies after the front slot `head` in a ring of
/// `capacity` slots.
pub open spec fn ring_offset(head: int, j: int, capacity: int) -> int {
    if j >= head {
        j - head
    } else {
        j + capacity - head
    }
}

/// Fixed-capacity event queue.
#[derive(Clone, Copy, Debug, PartialEq, Eq)]
pub struct EventQueue<const N: usize> {
    events: [Option<IpcEvent>; N],
    head: usize,
    len: usize,
    overflow_count: u64,
    policy: QueuePolicy,
}

impl<const N: usize> View for EventQueue<N> {
    type V = Seq<IpcEvent>;

    /// The queued events, oldest first.
    closed spec fn view(&self) -> Seq<IpcEvent> {
        queued_events(self.events@, self.head as int, self.len as nat, N as int)
    }
}

/// The `len` events of a ring whose front event sits at `head`.
spec fn queued_events(slots: Seq<Option<IpcEvent>>, head: int, len: nat, capacity: int) -> Seq<
    IpcEvent,
> {
    Seq::new(len, |i: int| slots[ring_slot(head, i, capacity)]->0)
}

impl<const N: usize> EventQueue<N> {
    /// The front index lies inside the ring, the `len` slots from it on are
    /// filled and every other slot is empty.
    #[verifier::type_invariant]
    spec fn well_formed(self) -> bool {
        &&& self.len <= N
        &&& (N > 0 ==> self.head < N)
        &&& forall|i: int|
            0 <= i < self.len ==> (#[trigger] self.events@[ring_slot(
                self.head as int,
                i,
                N as int,
            )]) is Some
        &&& forall|j: int|
            0 <= j < N ==> ((#[trigger] self.events@[j]) is Some <==> ring_offset(
                self.head as int,
                j,
                N as int,
            ) < self.len)
    }

    /// The number of pushes that met a full queue.
    pub closed spec fn overflow_total(self) -> u64 {
        self.overflow_count
    }

    /// The overflow policy chosen at creation.
    pub closed spec fn queue_policy(self) -> QueuePolicy {
        self.policy
    }

    /// Creates an empty queue with fail-closed overflow policy.
    pub fn new() -> (queue: Self)
        ensures
            queue@ == Seq::<IpcEvent>::empty(),
            queue.overflow_total() == 0,
            queue.queue_policy() == QueuePolicy::FailClosed,
    {
        Self::with_policy(QueuePolicy::FailClosed)
    }

    /// Creates an empty queue with the selected policy.
    pub fn with_policy(policy: QueuePolicy) -> (queue: Self)
        ensures
            queue@ == Seq::<IpcEvent>::empty(),
            queue.overflow_total() == 0,
            queue.queue_policy() == policy,
    {
        let queue = EventQueue { events: [None;N], head: 0, len: 0, overflow_count: 0, policy };
        assert(queue@ =~= Seq::<IpcEvent>::empty());
        queue
    }

    /// Returns queue length.
    pub fn len(self) -> (count: usize)
        ensures
            count == self@.len(),
            count <= N,
    {
        proof {
            use_type_invariant(&self);
        }
        self.len
    }

    /// Returns `true` when queue is empty.
    pub fn is_empty(self) -> (empty: bool)
        ensures
            empty == (self@.len() == 0),
    {
        self.len == 0
    }

    /// Returns queue status.
    pub fn status(self) -> (status: QueueStatus)
        ensures
            status == (QueueStatus {
                len: self@.len() as usize,
                capacity: N,
                overflow_count: self.overflow_total(),
                full: self@.len() == N,
            }),
    {
        QueueStatus {
            len: self.len,
            capacity: N,
            overflow_count: self.overflow_count,
            full: self.len == N,
        }
    }

    /// Pushes an event.
    pub fn push(&mut self, event: IpcEvent) -> (outcome: IpcResult<()>)
        requires
            push_overflows(old(self)@, N as nat, event) ==> old(self).overflow_total() < u64::MAX,
        ensures
            outcome == push_outcome(old(self)@, N as nat, old(self).queue_policy(), event),
            final(self)@ == pushed_events(old(self)@, N as nat, old(self).queue_policy(), event),
            final(self).overflow_total() == (if push_overflows(old(self)@, N as nat, event) {
                old(self).overflow_total() + 1
            } else {
                old(self).overflow_total() as int
            }),
            final(self).queue_policy() == old(self).queue_policy(),
            final(self)@.len() <= N,
            event.spec_validate() is Err ==> *final(self) == *old(self),
    {
        proof {
            use_type_invariant(&*self);
        }
        event.validate()?;
        if N == 0 {
            self.overflow_count = self.overflow_count + 1;
            return Err(IpcError::CapacityExceeded);
        }
        if self.len >= N {
            self.overflow_count = self.overflow_count + 1;
            return match self.policy {
                QueuePolicy::FailClosed => Err(IpcError::CapacityExceeded),
                QueuePolicy::DropNewest => Ok(()),
                QueuePolicy::DropOldest => {
                    let ghost before = self@;
                    let _ = self.pop();
                    self.append(event);
                    assert(self@ =~= before.drop_first().push(event));
                    Ok(())
                },
            };
        }
        self.append(event);
        Ok(())
    }

    /// Writes `event` into the slot after the last queued event.
    fn append(&mut self, event: IpcEvent)
        requires
            old(self)@.len() < N,
        ensures
            final(self)@ == old(self)@.push(event),
            final(self).overflow_total() == old(self).overflow_total(),
            final(self).queue_policy() == old(self).queue_policy(),
    {
        proof {
            use_type_invariant(&*self);
        }
        let ghost before = self@;
        let index = if self.head < N - self.len {
            self.head + self.len
        } else {
            self.head - (N - self.len)
        };
        assert(index == ring_slot(self.head as int, self.len as int, N as int));
        let mut events = self.events;
        events[index] = Some(event);
        assert forall|i: int| 0 <= i < self.len + 1 implies (#[trigger] events@[ring_slot(
            self.head as int,
            i,
            N as int,
        )]) is Some by {
            if i < self.len {
                assert(self.events@[ring_slot(self.head as int, i, N as int)] is Some);
            }
        }
        assert(queued_events(events@, self.head as int, (self.len + 1) as nat, N as int)
            =~= before.push(event)) by {
            assert forall|i: int| 0 <= i < self.len implies #[trigger] ring_slot(self.head as int, i, N as int)
                != index by {}
        }
        assert forall|j: int| 0 <= j < N implies ((#[trigger] events@[j]) is Some <==> ring_offset(
            self.head as int,
            j,
            N as int,
        ) < self.len + 1) by {
            if j == index as int {
                assert(ring_offset(self.head as int, j, N as int) == self.len);
            }
        }
        *self = EventQueue {
            events,
            head: self.head,
            len: self.len + 1,
            overflow_count: self.overflow_count,
            policy: self.policy,
        };
    }

    /// Pops the oldest event.
    pub fn pop(&mut self) -> (popped: Option<IpcEvent>)
        ensures
            popped == (if old(self)@.len() == 0 {
                None
            } else {
                Some(old(self)@[0])
            }),
            final(self)@ == (if old(self)@.len() == 0 {
                old(self)@
            } else {
                old(self)@.drop_first()
            }),
            final(self).overflow_total() == old(self).overflow_total(),
            final(self).queue_policy() == old(self).queue_policy(),
            popped is None ==> *final(self) == *old(self),
    {
        proof {
            use_type_invariant(&*self);
        }
        if self.len == 0 {
            return None;
        }
        let ghost before = self@;
        let head = self.head;
        let event = self.events[head];
        assert(ring_slot(head as int, 0, N as int) == head);
        let mut events = self.events;
        events[head] = None;
        let next = if head + 1 == N {
            0
        } else {
            head + 1
        };
        assert forall|i: int| 0 <= i < self.len - 1 implies #[trigger] ring_slot(next as int, i, N as int)
            == ring_slot(head as int, i + 1, N as int) && ring_slot(head as int, i + 1, N as int)
            != head by {}
        assert forall|i: int| 0 <= i < self.len - 1 implies (#[trigger] events@[ring_slot(
            next as int,
            i,
            N as int,
        )]) is Some by {
            assert(self.events@[ring_slot(head as int, i + 1, N as int)] is Some);
        }
        assert(queued_events(events@, next as int, (self.len - 1) as nat, N as int)
            =~= before.drop_first());
        assert forall|j: int| 0 <= j < N implies ((#[trigger] events@[j]) is Some <==> ring_offset(
            next as int,
            j,
            N as int,
        ) < self.len - 1) by {
            if j != head {
                assert(ring_offset(next as int, j, N as int) == ring_offset(head as int, j, N as int)
                    - 1);
            }
        }
        *self = EventQueue {
            events,
            head: next,
            len: self.len - 1,
            overflow_count: self.overflow_count,
            policy: self.policy,
        };
        event
    }
}

impl<const N: usize> Default for EventQueue<N> {
    fn default() -> (queue: Self)
        ensures
            queue@ == Seq::<IpcEvent>::empty(),
            queue.overflow_total() == 0,
            queue.queue_policy() == QueuePolicy::FailClosed,
    {
        Self::new()
    }
}

/// An event is accepted exactly when its sequence, port and channel are
/// set, a message event carries a message identifier, and its trace is valid.
pub proof fn lemma_event_valid_iff(event: IpcEvent)
    ensures
        event.spec_validate() is Ok <==> {
            &&& event.sequence != 0 && event.port.0 != 0 && event.channel.0 != 0
            &&& event.kind == EventKind::Message ==> event.message_id != 0
            &&& event.trace.spec_validate() is Ok
        },
{
}

/// A push is accepted exactly when the event is valid, the queue has slots
/// at all, and the queue has room or its policy is not fail-closed; an
/// accepted push onto a queue with room appends the event.
pub proof fn lemma_push_iff(events: Seq<IpcEvent>, capacity: nat, policy: QueuePolicy, event: IpcEvent)
    ensures
        push_outcome(events, capacity, policy, event) is Ok <==> {
            &&& event.spec_validate() is Ok
            &&& capacity > 0
            &&& (events.len() < capacity || policy != QueuePolicy::FailClosed)
        },
        event.spec_validate() is Ok && events.len() < capacity ==> pushed_events(
            events,
            capacity,
            policy,
            event,
        ) == events.push(event),
        event.spec_validate() is Err ==> pushed_events(events, capacity, policy, event) == events,
{
}

/// How many of `flags` are set.
pub open spec fn count_set(flags: Seq<bool>) -> nat
    decreases flags.len(),
{
    if flags.len() == 0 {
        0
    } else {
        count_set(flags.drop_last()) + if flags.last() {
            1nat
        } else {
            0nat
        }
    }
}

/// A queue made by `new` or `with_policy` and then a series of `push` and
/// `pop` calls has counted exactly the calls that overflowed: `overflowed`
/// records, call by call, whether a push met a full queue (a pop never does).
pub proof fn lemma_overflow_count<const N: usize>(queues: Seq<EventQueue<N>>, overflowed: Seq<bool>)
    requires
        queues.len() == overflowed.len() + 1,
        queues[0].overflow_total() == 0,
        forall|i: int|
            0 <= i < overflowed.len() ==> queues[i + 1].overflow_total() == queues[i].overflow_total()
                + if #[trigger] overflowed[i] {
                1int
            } else {
                0int
            },
    ensures
        queues.last().overflow_total() == count_set(overflowed),
    decreases overflowed.len(),
{
    if overflowed.len() > 0 {
        let k = overflowed.len() - 1;
        assert(queues[k + 1].overflow_total() == queues[k].overflow_total() + if overflowed[k] {
            1int
        } else {
            0int
        });
        lemma_overflow_count(queues.drop_last(), overflowed.drop_last());
    }
}

/// Events leave a queue in the order in which they entered it: pushing onto
/// a queue with room keeps its front, or makes the pushed event the front of
/// an empty queue.  A queue never holds more than its capacity.  When full,
/// the fail-closed and drop-newest policies leave the queue as it was, and
/// the drop-oldest policy keeps the newest events, ending with the pushed
/// one.
pub proof fn lemma_queue_order(
    events: Seq<IpcEvent>,
    capacity: nat,
    policy: QueuePolicy,
    event: IpcEvent,
)
    requires
        events.len() <= capacity,
        event.spec_validate() is Ok,
    ensures
        pushed_events(events, capacity, policy, event).len() <= capacity,
        events.len() < capacity ==> pushed_events(events, capacity, policy, event)[0] == (if events.len()
            > 0 {
            events[0]
        } else {
            event
        }),
        events.len() < capacity ==> pushed_events(events, capacity, policy, event).last() == event,
        events.len() == capacity && policy != QueuePolicy::DropOldest ==> pushed_events(
            events,
            capacity,
            policy,
            event,
        ) == events,
        events.len() == capacity && capacity > 0 && policy == QueuePolicy::DropOldest ==> {
            let after = pushed_events(events, capacity, policy, event);
            &&& after.len() == capacity
            &&& after.last() == event
            &&& forall|i: int| 0 <= i < capacity - 1 ==> after[i] == events[i + 1]
        },
{
}

} // verus!
