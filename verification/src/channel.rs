//! IPC channel descriptors and message envelopes.

use vstd::prelude::*;

use crate::port::PortId;
use crate::shared_memory::SharedMemoryHandle;
use crate::{
    accepted, known_rights, DataClass, IpcError, IpcResult, IpcRights, RedactionState, TraceContext,
    IPC_KNOWN_RIGHTS, IPC_RIGHT_ADMIN, IPC_RIGHT_RECEIVE, IPC_RIGHT_SEND, IPC_RIGHT_SIGNAL,
};

verus! {

/// Maximum channel name length.
pub const MAX_CHANNEL_NAME_LEN: usize = 96;
/// Maximum inline message bytes.
pub const MAX_MESSAGE_BYTES: u64 = 64 * 1024;
/// Maximum payload descriptors per message envelope.
pub const MAX_PAYLOAD_DESCRIPTORS: usize = 4;

/// Message requires a response.
pub const MESSAGE_FLAG_REQUIRES_REPLY: u32 = 1 << 0;
/// Message references shared memory.
pub const MESSAGE_FLAG_SHARED_MEMORY: u32 = 1 << 1;
/// Message should emit audit evidence.
pub const MESSAGE_FLAG_AUDIT: u32 = 1 << 2;
/// Message carries high-priority wakeup semantics.
pub const MESSAGE_FLAG_SIGNAL: u32 = 1 << 3;
/// Message flags known by this crate version.
pub const MESSAGE_KNOWN_FLAGS: u32 = MESSAGE_FLAG_REQUIRES_REPLY | MESSAGE_FLAG_SHARED_MEMORY
    | MESSAGE_FLAG_AUDIT | MESSAGE_FLAG_SIGNAL;

/// Stable IPC channel identifier.
#[derive(Clone, Copy, Debug, Default, PartialEq, Eq, Structural)]
pub struct ChannelId(pub u64);

impl ChannelId {
    /// Invalid channel identifier.
    pub fn invalid() -> (id: Self)
        ensures
            id == ChannelId(0),
    {
        ChannelId(0)
    }

    /// Creates a channel identifier.
    pub fn new(raw: u64) -> (id: Self)
        ensures
            id == ChannelId(raw),
    {
        ChannelId(raw)
    }

    /// Returns raw identifier.
    pub fn raw(self) -> (raw: u64)
        ensures
            raw == self.0,
    {
        self.0
    }

    /// The zero identifier is invalid.
    pub open spec fn spec_validate(self) -> IpcResult<()> {
        if self.0 == 0 {
            Err(IpcError::InvalidChannel)
        } else {
            Ok(())
        }
    }

    /// Validates the identifier.
    pub fn validate(self) -> (outcome: IpcResult<()>)
        ensures
            outcome == self.spec_validate(),
    {
        if self.0 == 0 {
            return Err(IpcError::InvalidChannel);
        }
        Ok(())
    }
}

/// Message kind.
#[derive(Clone, Copy, Debug, PartialEq, Eq, Structural)]
pub enum MessageKind {
    /// Request expecting a response.
    Request,
    /// Response to a request.
    Response,
    /// Event notification.
    Event,
    /// Signal or wakeup notification.
    Signal,
    /// Control-plane message.
    Control,
}

impl MessageKind {
    /// The stable label of each kind.
    pub open spec fn spec_label(self) -> Seq<char> {
        match self {
            MessageKind::Request => "request"@,
            MessageKind::Response => "response"@,
            MessageKind::Event => "event"@,
            MessageKind::Signal => "signal"@,
            MessageKind::Control => "control"@,
        }
    }

    /// Stable kind label.
    pub fn label(self) -> (label: &'static str)
        ensures
            label@ == self.spec_label(),
    {
        match self {
            MessageKind::Request => "request",
            MessageKind::Response => "response",
            MessageKind::Event => "event",
            MessageKind::Signal => "signal",
            MessageKind::Control => "control",
        }
    }

    /// Every kind needs the send right; signals also need the signal right
    /// and control messages the administration right.
    pub open spec fn spec_required_rights(self) -> IpcRights {
        match self {
            MessageKind::Signal => IpcRights(IPC_RIGHT_SEND | IPC_RIGHT_SIGNAL),
            MessageKind::Control => IpcRights(IPC_RIGHT_SEND | IPC_RIGHT_ADMIN),
            _ => IpcRights(IPC_RIGHT_SEND),
        }
    }

    /// Required rights to send this message kind.
    pub fn required_rights(self) -> (rights: IpcRights)
        ensures
            rights == self.spec_required_rights(),
    {
        match self {
            MessageKind::Signal => IpcRights(IPC_RIGHT_SEND | IPC_RIGHT_SIGNAL),
            MessageKind::Control => IpcRights(IPC_RIGHT_SEND | IPC_RIGHT_ADMIN),
            _ => IpcRights(IPC_RIGHT_SEND),
        }
    }
}

/// Channel delivery mode.
#[derive(Clone, Copy, Debug, PartialEq, Eq, Structural)]
pub enum DeliveryMode {
    /// Best-effort delivery.
    BestEffort,
    /// Reliable ordered delivery.
    Reliable,
    /// Rendezvous delivery with receiver acknowledgement.
    Rendezvous,
}

impl DeliveryMode {
    /// The stable label of each mode.
    pub open spec fn spec_label(self) -> Seq<char> {
        match self {
            DeliveryMode::BestEffort => "best_effort"@,
            DeliveryMode::Reliable => "reliable"@,
            DeliveryMode::Rendezvous => "rendezvous"@,
        }
    }

    /// Stable mode label.
    pub fn label(self) -> (label: &'static str)
        ensures
            label@ == self.spec_label(),
    {
        match self {
            DeliveryMode::BestEffort => "best_effort",
            DeliveryMode::Reliable => "reliable",
            DeliveryMode::Rendezvous => "rendezvous",
        }
    }
}

/// Channel lifecycle state.
#[derive(Clone, Copy, Debug, PartialEq, Eq, Structural)]
pub enum ChannelState {
    /// Channel was created but is not yet bound.
    Created,
    /// Channel endpoints are bound.
    Bound,
    /// Channel is open for messages.
    Open,
    /// Channel is draining queued messages.
    Draining,
    /// Channel is closed.
    Closed,
    /// Channel faulted.
    Faulted,
}

impl ChannelState {
    /// The stable label of each state.
    pub open spec fn spec_label(self) -> Seq<char> {
        match self {
            ChannelState::Created => "created"@,
            ChannelState::Bound => "bound"@,
            ChannelState::Open => "open"@,
            ChannelState::Draining => "draining"@,
            ChannelState::Closed => "closed"@,
            ChannelState::Faulted => "faulted"@,
        }
    }

    /// Stable state label.
    pub fn label(self) -> (label: &'static str)
        ensures
            label@ == self.spec_label(),
    {
        match self {
            ChannelState::Created => "created",
            ChannelState::Bound => "bound",
            ChannelState::Open => "open",
            ChannelState::Draining => "draining",
            ChannelState::Closed => "closed",
            ChannelState::Faulted => "faulted",
        }
    }

    /// Only an open channel carries messages.
    pub open spec fn spec_allows_send(self) -> bool {
        self == ChannelState::Open
    }

    /// Returns `true` when messages can be sent.
    pub fn allows_send(self) -> (allowed: bool)
        ensures
            allowed == self.spec_allows_send(),
    {
        match self {
            ChannelState::Open => true,
            _ => false,
        }
    }
}

/// Channel descriptor.
#[derive(Clone, Copy, Debug, PartialEq, Eq)]
pub struct ChannelDescriptor<'a> {
    /// Channel identifier.
    pub id: ChannelId,
    /// Channel name.
    pub name: &'a str,
    /// Source port.
    pub source: PortId,
    /// Target port.
    pub target: PortId,
    /// Delivery mode.
    pub mode: DeliveryMode,
    /// Lifecycle state.
    pub state: ChannelState,
    /// Rights required to send on this channel.
    pub send_rights: IpcRights,
    /// Rights required to receive from this channel.
    pub receive_rights: IpcRights,
    /// Maximum inline message bytes accepted by the channel.
    pub max_message_len: u64,
    /// Queue capacity hint.
    pub queue_capacity: usize,
    /// Whether channel traffic is audit-critical.
    pub audit_required: bool,
}

impl<'a> ChannelDescriptor<'a> {
    /// Creates a channel descriptor.
    pub fn new(id: ChannelId, name: &'a str, source: PortId, target: PortId) -> (channel: Self)
        ensures
            channel == (ChannelDescriptor {
                id,
                name,
                source,
                target,
                mode: DeliveryMode::Reliable,
                state: ChannelState::Bound,
                send_rights: IpcRights(IPC_RIGHT_SEND),
                receive_rights: IpcRights(IPC_RIGHT_RECEIVE),
                max_message_len: MAX_MESSAGE_BYTES,
                queue_capacity: 16,
                audit_required: true,
            }),
    {
        ChannelDescriptor {
            id,
            name,
            source,
            target,
            mode: DeliveryMode::Reliable,
            state: ChannelState::Bound,
            send_rights: IpcRights(IPC_RIGHT_SEND),
            receive_rights: IpcRights(IPC_RIGHT_RECEIVE),
            max_message_len: MAX_MESSAGE_BYTES,
            queue_capacity: 16,
            audit_required: true,
        }
    }

    /// Sets delivery mode.
    pub fn with_mode(self, mode: DeliveryMode) -> (channel: Self)
        ensures
            channel == (ChannelDescriptor { mode, ..self }),
    {
        ChannelDescriptor { mode, ..self }
    }

    /// Sets lifecycle state.
    pub fn with_state(self, state: ChannelState) -> (channel: Self)
        ensures
            channel == (ChannelDescriptor { state, ..self }),
    {
        ChannelDescriptor { state, ..self }
    }

    /// Sets required rights.
    pub fn with_rights(self, send_rights: IpcRights, receive_rights: IpcRights) -> (channel: Self)
        ensures
            channel == (ChannelDescriptor { send_rights, receive_rights, ..self }),
    {
        ChannelDescriptor { send_rights, receive_rights, ..self }
    }

    /// Sets queue and message limits.
    pub fn with_limits(self, max_message_len: u64, queue_capacity: usize) -> (channel: Self)
        ensures
            channel == (ChannelDescriptor { max_message_len, queue_capacity, ..self }),
    {
        ChannelDescriptor { max_message_len, queue_capacity, ..self }
    }

    /// What `validate` answers: identifiers, name, reserved rights, limits,
    /// and finally a closed or faulted state.
    pub open spec fn spec_validate(self) -> IpcResult<()> {
        if self.id.0 == 0 {
            Err(IpcError::InvalidChannel)
        } else if self.source.0 == 0 || self.target.0 == 0 {
            Err(IpcError::InvalidPort)
        } else if self.name@.len() == 0 {
            Err(IpcError::MissingField)
        } else if self.name.len() > MAX_CHANNEL_NAME_LEN {
            Err(IpcError::FieldTooLong)
        } else if !known_rights(self.send_rights.0) || !known_rights(self.receive_rights.0) {
            Err(IpcError::ReservedBits)
        } else if self.max_message_len == 0 || self.max_message_len > MAX_MESSAGE_BYTES {
            Err(IpcError::InvalidChannel)
        } else if self.queue_capacity == 0 {
            Err(IpcError::InvalidChannel)
        } else if self.state == ChannelState::Closed || self.state == ChannelState::Faulted {
            Err(IpcError::Closed)
        } else {
            Ok(())
        }
    }

    /// Validates channel metadata.
    pub fn validate(self) -> (outcome: IpcResult<()>)
        ensures
            outcome == self.spec_validate(),
    {
        self.id.validate()?;
        self.source.validate()?;
        self.target.validate()?;
        if self.name.is_empty() {
            return Err(IpcError::MissingField);
        }
        if self.name.len() > MAX_CHANNEL_NAME_LEN {
            return Err(IpcError::FieldTooLong);
        }
        IpcRights::from_bits(self.send_rights.bits())?;
        IpcRights::from_bits(self.receive_rights.bits())?;
        if self.max_message_len == 0 || self.max_message_len > MAX_MESSAGE_BYTES {
            return Err(IpcError::InvalidChannel);
        }
        if self.queue_capacity == 0 {
            return Err(IpcError::InvalidChannel);
        }
        match self.state {
            ChannelState::Closed | ChannelState::Faulted => Err(IpcError::Closed),
            _ => Ok(()),
        }
    }
}

/// Payload descriptor inside a message envelope.
#[derive(Clone, Copy, Debug, PartialEq, Eq, Structural)]
pub struct PayloadDescriptor {
    /// Inline payload offset.
    pub offset: u32,
    /// Payload length.
    pub len: u32,
    /// Optional shared-memory handle.
    pub shared_memory: SharedMemoryHandle,
}

impl PayloadDescriptor {
    /// Creates an inline payload descriptor.
    pub fn inline(offset: u32, len: u32) -> (payload: Self)
        ensures
            payload == (PayloadDescriptor { offset, len, shared_memory: SharedMemoryHandle(0) }),
    {
        PayloadDescriptor { offset, len, shared_memory: SharedMemoryHandle::invalid() }
    }

    /// Creates a shared-memory payload descriptor.
    pub fn shared(shared_memory: SharedMemoryHandle, len: u32) -> (payload: Self)
        ensures
            payload == (PayloadDescriptor { offset: 0, len, shared_memory }),
    {
        PayloadDescriptor { offset: 0, len, shared_memory }
    }

    /// A payload uses shared memory when its handle is not the zero handle.
    pub open spec fn spec_uses_shared_memory(self) -> bool {
        self.shared_memory.0 != 0
    }

    /// Returns `true` when the payload uses shared memory.
    pub fn uses_shared_memory(self) -> (shared: bool)
        ensures
            shared == self.spec_uses_shared_memory(),
    {
        self.shared_memory.raw() != 0
    }

    /// What `validate` answers: an empty payload, then an oversized one.  A
    /// shared-memory handle is checked too, but a payload only uses shared
    /// memory when its handle is valid, so that check never fails.
    pub open spec fn spec_validate(self) -> IpcResult<()> {
        if self.len == 0 {
            Err(IpcError::InvalidMessage)
        } else if self.len > MAX_MESSAGE_BYTES {
            Err(IpcError::PayloadTooLarge)
        } else {
            Ok(())
        }
    }

    /// Validates payload metadata.
    pub fn validate(self) -> (outcome: IpcResult<()>)
        ensures
            outcome == self.spec_validate(),
    {
        if self.len == 0 {
            return Err(IpcError::InvalidMessage);
        }
        if self.len as u64 > MAX_MESSAGE_BYTES {
            return Err(IpcError::PayloadTooLarge);
        }
        if self.uses_shared_memory() {
            match self.shared_memory.validate() {
                Ok(()) => {},
                Err(error) => return Err(error),
            }
        }
        Ok(())
    }
}

/// Message header used by IPC queues and routes.
#[derive(Clone, Copy, Debug, PartialEq, Eq, Structural)]
pub struct MessageHeader {
    /// Message identifier.
    pub message_id: u64,
    /// Correlation identifier for request/response flows.
    pub correlation_id: u64,
    /// Source port.
    pub source: PortId,
    /// Target port.
    pub target: PortId,
    /// Message kind.
    pub kind: MessageKind,
    /// Priority bucket.
    pub priority: u8,
    /// Message flags.
    pub flags: u32,
    /// Total payload length.
    pub payload_len: u64,
    /// Payload data class.
    pub data_class: DataClass,
    /// Payload redaction state.
    pub redaction: RedactionState,
    /// Trace context.
    pub trace: TraceContext,
}

impl MessageHeader {
    /// Creates a message header.
    pub fn new(message_id: u64, source: PortId, target: PortId, kind: MessageKind) -> (header: Self)
        ensures
            header == (MessageHeader {
                message_id,
                correlation_id: 0,
                source,
                target,
                kind,
                priority: 0,
                flags: 0,
                payload_len: 0,
                data_class: DataClass::Operational,
                redaction: RedactionState::Operational,
                trace: TraceContext::spec_empty(),
            }),
    {
        MessageHeader {
            message_id,
            correlation_id: 0,
            source,
            target,
            kind,
            priority: 0,
            flags: 0,
            payload_len: 0,
            data_class: DataClass::Operational,
            redaction: RedactionState::Operational,
            trace: TraceContext::empty(),
        }
    }

    /// Sets correlation id.
    pub fn with_correlation(self, correlation_id: u64) -> (header: Self)
        ensures
            header == (MessageHeader { correlation_id, ..self }),
    {
        MessageHeader { correlation_id, ..self }
    }

    /// Sets priority.
    pub fn with_priority(self, priority: u8) -> (header: Self)
        ensures
            header == (MessageHeader { priority, ..self }),
    {
        MessageHeader { priority, ..self }
    }

    /// Sets flags.
    pub fn with_flags(self, flags: u32) -> (header: Self)
        ensures
            header == (MessageHeader { flags, ..self }),
    {
        MessageHeader { flags, ..self }
    }

    /// Sets payload metadata.
    pub fn with_payload(self, payload_len: u64, data_class: DataClass, redaction: RedactionState) -> (header:
        Self)
        ensures
            header == (MessageHeader { payload_len, data_class, redaction, ..self }),
    {
        MessageHeader { payload_len, data_class, redaction, ..self }
    }

    /// Sets trace context.
    pub fn with_trace(self, trace: TraceContext) -> (header: Self)
        ensures
            header == (MessageHeader { trace, ..self }),
    {
        MessageHeader { trace, ..self }
    }

    /// What `validate` answers: message identifier, ports, reserved flags,
    /// payload size, redaction, and finally the trace.
    pub open spec fn spec_validate(self) -> IpcResult<()> {
        if self.message_id == 0 {
            Err(IpcError::InvalidMessage)
        } else if self.source.0 == 0 || self.target.0 == 0 {
            Err(IpcError::InvalidPort)
        } else if self.flags & !MESSAGE_KNOWN_FLAGS != 0 {
            Err(IpcError::ReservedBits)
        } else if self.payload_len > MAX_MESSAGE_BYTES {
            Err(IpcError::PayloadTooLarge)
        } else if !self.redaction.spec_satisfies(self.data_class) {
            Err(IpcError::SensitiveData)
        } else {
            self.trace.spec_validate()
        }
    }

    /// Validates header metadata.
    pub fn validate(self) -> (outcome: IpcResult<()>)
        ensures
            outcome == self.spec_validate(),
    {
        if self.message_id == 0 {
            return Err(IpcError::InvalidMessage);
        }
        match self.source.validate() {
            Ok(()) => {},
            Err(error) => return Err(error),
        }
        match self.target.validate() {
            Ok(()) => {},
            Err(error) => return Err(error),
        }
        if self.flags & !MESSAGE_KNOWN_FLAGS != 0 {
            return Err(IpcError::ReservedBits);
        }
        if self.payload_len > MAX_MESSAGE_BYTES {
            return Err(IpcError::PayloadTooLarge);
        }
        if !self.redaction.satisfies(self.data_class) {
            return Err(IpcError::SensitiveData);
        }
        self.trace.validate()
    }
}

/// The error of the first invalid payload of `payloads`, if any.
pub open spec fn payloads_check(payloads: Seq<PayloadDescriptor>) -> IpcResult<()>
    decreases payloads.len(),
{
    if payloads.len() == 0 {
        Ok(())
    } else if payloads[0].spec_validate() is Err {
        payloads[0].spec_validate()
    } else {
        payloads_check(payloads.drop_first())
    }
}

/// The sum of the payload lengths.
pub open spec fn total_payload_len(payloads: Seq<PayloadDescriptor>) -> nat
    decreases payloads.len(),
{
    if payloads.len() == 0 {
        0
    } else {
        total_payload_len(payloads.drop_last()) + payloads.last().len as nat
    }
}

/// No payloads add up to zero, and appending a payload adds its length to
/// the total.
pub proof fn lemma_total_payload_len_push(payloads: Seq<PayloadDescriptor>, payload: PayloadDescriptor)
    ensures
        total_payload_len(Seq::<PayloadDescriptor>::empty()) == 0,
        total_payload_len(payloads.push(payload)) == total_payload_len(payloads) + payload.len,
{
    assert(payloads.push(payload).drop_last() =~= payloads);
}

/// The payload descriptors of an envelope: up to four, in the order in
/// which they were added.
#[derive(Clone, Copy, Debug, PartialEq, Eq)]
pub struct PayloadList {
    slots: [Option<PayloadDescriptor>; MAX_PAYLOAD_DESCRIPTORS],
    len: usize,
}

impl View for PayloadList {
    type V = Seq<PayloadDescriptor>;

    /// The payload descriptors, in the order in which they were added.
    closed spec fn view(&self) -> Seq<PayloadDescriptor> {
        live_payloads(self.slots@, self.len as nat)
    }
}

/// The payloads held in the first `len` slots.
spec fn live_payloads(slots: Seq<Option<PayloadDescriptor>>, len: nat) -> Seq<PayloadDescriptor> {
    Seq::new(len, |i: int| slots[i]->0)
}

impl PayloadList {
    /// At most four payloads, held in the first slots; the others are empty.
    #[verifier::type_invariant]
    spec fn well_formed(self) -> bool {
        &&& self.len <= MAX_PAYLOAD_DESCRIPTORS
        &&& forall|i: int| 0 <= i < self.len ==> (#[trigger] self.slots@[i]) is Some
        &&& forall|i: int| self.len <= i < MAX_PAYLOAD_DESCRIPTORS ==> (#[trigger] self.slots@[i]) is None
    }
}

/// Fixed-size message envelope with up to four payload descriptors.
#[derive(Clone, Copy, Debug, PartialEq, Eq)]
pub struct MessageEnvelope<'a> {
    /// Header.
    pub header: MessageHeader,
    /// Routing topic or operation name.
    pub topic: &'a str,
    /// Payload descriptors, added with `push_payload`.
    pub payloads: PayloadList,
}

impl<'a> MessageEnvelope<'a> {
    /// Creates an empty envelope.
    pub fn new(header: MessageHeader, topic: &'a str) -> (envelope: Self)
        ensures
            envelope.header == header,
            envelope.topic == topic,
            envelope.payloads@ == Seq::<PayloadDescriptor>::empty(),
    {
        let payloads = PayloadList { slots: [None;MAX_PAYLOAD_DESCRIPTORS], len: 0 };
        assert(payloads@ =~= Seq::<PayloadDescriptor>::empty());
        MessageEnvelope { header, topic, payloads }
    }

    /// What `push_payload` answers: a full envelope, then an invalid payload.
    pub open spec fn spec_push_payload(self, payload: PayloadDescriptor) -> IpcResult<()> {
        if self.payloads@.len() >= MAX_PAYLOAD_DESCRIPTORS {
            Err(IpcError::CapacityExceeded)
        } else {
            payload.spec_validate()
        }
    }

    /// The header after `payload` was added: its length grows by the
    /// payload's, and a shared-memory payload sets the shared-memory flag.
    pub open spec fn spec_pushed_header(header: MessageHeader, payload: PayloadDescriptor) -> MessageHeader {
        MessageHeader {
            payload_len: (header.payload_len + payload.len) as u64,
            flags: if payload.spec_uses_shared_memory() {
                header.flags | MESSAGE_FLAG_SHARED_MEMORY
            } else {
                header.flags
            },
            ..header
        }
    }

    /// Adds a payload descriptor.
    pub fn push_payload(&mut self, payload: PayloadDescriptor) -> (outcome: IpcResult<()>)
        requires
            old(self).spec_push_payload(payload) is Ok ==> old(self).header.payload_len + payload.len
                <= u64::MAX,
        ensures
            outcome == old(self).spec_push_payload(payload),
            outcome is Ok ==> {
                &&& final(self).payloads@ == old(self).payloads@.push(payload)
                &&& final(self).header == Self::spec_pushed_header(old(self).header, payload)
                &&& final(self).topic == old(self).topic
            },
            outcome is Err ==> *final(self) == *old(self),
            payload_step(
                old(self).payloads@,
                final(self).payloads@,
                if outcome is Ok {
                    Some(payload)
                } else {
                    None
                },
            ),
            total_payload_len(old(self).payloads@) == old(self).header.payload_len
                ==> total_payload_len(final(self).payloads@) == final(self).header.payload_len,
    {
        proof {
            use_type_invariant(&self.payloads);
        }
        if self.payloads.len >= MAX_PAYLOAD_DESCRIPTORS {
            return Err(IpcError::CapacityExceeded);
        }
        payload.validate()?;
        let ghost before = self.payloads@;
        let index = self.payloads.len;
        let mut slots = self.payloads.slots;
        slots[index] = Some(payload);
        assert(live_payloads(slots@, (index + 1) as nat) =~= before.push(payload));
        self.payloads = PayloadList { slots, len: index + 1 };
        proof {
            lemma_total_payload_len_push(before, payload);
        }
        self.header.payload_len = self.header.payload_len + payload.len as u64;
        if payload.uses_shared_memory() {
            self.header.flags = self.header.flags | MESSAGE_FLAG_SHARED_MEMORY;
        }
        Ok(())
    }

    /// Returns payload count.
    pub fn len(self) -> (count: usize)
        ensures
            count == self.payloads@.len(),
            count <= MAX_PAYLOAD_DESCRIPTORS,
    {
        proof {
            use_type_invariant(&self.payloads);
        }
        self.payloads.len
    }

    /// Returns `true` when no payload descriptors are present.
    pub fn is_empty(self) -> (empty: bool)
        ensures
            empty == (self.payloads@.len() == 0),
    {
        self.payloads.len == 0
    }

    /// Returns a payload descriptor by index.
    pub fn payload(self, index: usize) -> (payload: Option<PayloadDescriptor>)
        ensures
            payload == (if index < self.payloads@.len() {
                Some(self.payloads@[index as int])
            } else {
                None
            }),
    {
        proof {
            use_type_invariant(&self.payloads);
        }
        if index >= self.payloads.len {
            return None;
        }
        self.payloads.slots[index]
    }

    /// What `validate_for_channel` answers: the channel, the envelope, the
    /// channel's state, the endpoints, the channel's send rights, the rights
    /// of the message kind, and finally the channel's size limit.
    pub open spec fn spec_validate_for_channel(self, channel: ChannelDescriptor, rights: IpcRights) -> IpcResult<()> {
        if channel.spec_validate() is Err {
            channel.spec_validate()
        } else if self.spec_validate() is Err {
            self.spec_validate()
        } else if !channel.state.spec_allows_send() {
            Err(IpcError::Closed)
        } else if self.header.source != channel.source || self.header.target != channel.target {
            Err(IpcError::InvalidChannel)
        } else if rights.spec_require(channel.send_rights) is Err {
            rights.spec_require(channel.send_rights)
        } else if rights.spec_require(self.header.kind.spec_required_rights()) is Err {
            rights.spec_require(self.header.kind.spec_required_rights())
        } else if self.header.payload_len > channel.max_message_len {
            Err(IpcError::PayloadTooLarge)
        } else {
            Ok(())
        }
    }

    /// Validates envelope metadata against a channel.
    pub fn validate_for_channel(self, channel: ChannelDescriptor<'_>, rights: IpcRights) -> (outcome:
        IpcResult<()>)
        ensures
            outcome == self.spec_validate_for_channel(channel, rights),
    {
        channel.validate()?;
        self.validate()?;
        if !channel.state.allows_send() {
            return Err(IpcError::Closed);
        }
        if self.header.source != channel.source || self.header.target != channel.target {
            return Err(IpcError::InvalidChannel);
        }
        rights.require(channel.send_rights)?;
        rights.require(self.header.kind.required_rights())?;
        if self.header.payload_len > channel.max_message_len {
            return Err(IpcError::PayloadTooLarge);
        }
        Ok(())
    }

    /// What `validate` answers: the header, the topic, the first invalid
    /// payload, and finally a header length that differs from the payloads'.
    pub open spec fn spec_validate(self) -> IpcResult<()> {
        if self.header.spec_validate() is Err {
            self.header.spec_validate()
        } else if self.topic@.len() == 0 {
            Err(IpcError::MissingField)
        } else if self.topic.len() > MAX_CHANNEL_NAME_LEN {
            Err(IpcError::FieldTooLong)
        } else if payloads_check(self.payloads@) is Err {
            payloads_check(self.payloads@)
        } else if total_payload_len(self.payloads@) != self.header.payload_len {
            Err(IpcError::InvalidMessage)
        } else {
            Ok(())
        }
    }

    /// Validates the envelope independently.
    pub fn validate(self) -> (outcome: IpcResult<()>)
        ensures
            outcome == self.spec_validate(),
    {
        proof {
            use_type_invariant(&self.payloads);
        }
        self.header.validate()?;
        if self.topic.is_empty() {
            return Err(IpcError::MissingField);
        }
        if self.topic.len() > MAX_CHANNEL_NAME_LEN {
            return Err(IpcError::FieldTooLong);
        }
        let ghost payloads = self.payloads@;
        let mut total: u64 = 0;
        let mut index: usize = 0;
        assert(payloads.skip(0) =~= payloads);
        while index < self.payloads.len
            invariant
                self.payloads.len <= MAX_PAYLOAD_DESCRIPTORS,
                forall|i: int| 0 <= i < self.payloads.len ==> (#[trigger] self.payloads.slots@[i]) is Some,
                payloads == self.payloads@,
                index <= self.payloads.len,
                payloads_check(payloads) == payloads_check(payloads.skip(index as int)),
                total == total_payload_len(payloads.take(index as int)),
                total <= index * 0x10000,
                self.header.spec_validate() is Ok,
                self.topic@.len() != 0,
                self.topic.len() <= MAX_CHANNEL_NAME_LEN,
            decreases self.payloads.len - index,
        {
            let payload = match self.payloads.slots[index] {
                Some(payload) => payload,
                None => return Err(IpcError::InvalidMessage),
            };
            let ghost rest = payloads.skip(index as int);
            assert(rest[0] == payload);
            match payload.validate() {
                Ok(()) => {},
                Err(error) => {
                    assert(payloads_check(rest) == payload.spec_validate());
                    return Err(error);
                },
            }
            assert(payloads_check(rest) == payloads_check(rest.drop_first()));
            assert(payloads.skip(index as int).drop_first() =~= payloads.skip(index + 1));
            assert(payloads.take(index + 1).drop_last() =~= payloads.take(index as int));
            assert(payload.len <= MAX_MESSAGE_BYTES);
            total = total + payload.len as u64;
            index += 1;
        }
        assert(payloads.take(index as int) =~= payloads);
        assert(payloads.skip(index as int) =~= Seq::<PayloadDescriptor>::empty());
        if total != self.header.payload_len {
            return Err(IpcError::InvalidMessage);
        }
        Ok(())
    }
}

/// One step of building an envelope's payload list: `added` is the payload
/// that was appended, if any, and an appended payload found room.
pub open spec fn payload_step(
    before: Seq<PayloadDescriptor>,
    after: Seq<PayloadDescriptor>,
    added: Option<PayloadDescriptor>,
) -> bool {
    match added {
        Some(payload) => before.len() < MAX_PAYLOAD_DESCRIPTORS && after == before.push(payload),
        None => after == before,
    }
}

/// An envelope made by `new` and then a series of `push_payload` calls holds
/// exactly the payloads whose push succeeded, in call order, and at most four
/// of them.
pub proof fn lemma_envelope_holds_accepted_payloads<'a>(
    envelopes: Seq<MessageEnvelope<'a>>,
    added: Seq<Option<PayloadDescriptor>>,
)
    requires
        envelopes.len() == added.len() + 1,
        envelopes[0].payloads@ == Seq::<PayloadDescriptor>::empty(),
        forall|i: int|
            0 <= i < added.len() ==> payload_step(
                envelopes[i].payloads@,
                envelopes[i + 1].payloads@,
                #[trigger] added[i],
            ),
    ensures
        envelopes.last().payloads@ == accepted(added),
        accepted(added).len() <= MAX_PAYLOAD_DESCRIPTORS,
    decreases added.len(),
{
    if added.len() > 0 {
        let k = added.len() - 1;
        assert(payload_step(envelopes[k].payloads@, envelopes[k + 1].payloads@, added[k]));
        lemma_envelope_holds_accepted_payloads(envelopes.drop_last(), added.drop_last());
    }
}

/// Every message kind needs the send right; a signal also needs the signal
/// right and a control message the administration right; nothing else.
pub proof fn lemma_kind_rights(kind: MessageKind)
    ensures
        kind.spec_required_rights().0 == match kind {
            MessageKind::Signal => IPC_RIGHT_SEND | IPC_RIGHT_SIGNAL,
            MessageKind::Control => IPC_RIGHT_SEND | IPC_RIGHT_ADMIN,
            _ => IPC_RIGHT_SEND,
        },
{
}

/// A channel descriptor is accepted exactly when its identifier and both
/// ports are set, its name is non-empty and at most `MAX_CHANNEL_NAME_LEN`
/// bytes long, neither rights set has a reserved bit, its message limit lies
/// between 1 and `MAX_MESSAGE_BYTES`, its queue capacity is positive, and it
/// is neither closed nor faulted.
pub proof fn lemma_channel_valid_iff(channel: ChannelDescriptor)
    ensures
        channel.spec_validate() is Ok <==> {
            &&& channel.id.0 != 0 && channel.source.0 != 0 && channel.target.0 != 0
            &&& channel.name@.len() > 0 && channel.name.len() <= MAX_CHANNEL_NAME_LEN
            &&& channel.send_rights.0 & !IPC_KNOWN_RIGHTS == 0
            &&& channel.receive_rights.0 & !IPC_KNOWN_RIGHTS == 0
            &&& 0 < channel.max_message_len <= MAX_MESSAGE_BYTES
            &&& channel.queue_capacity > 0
            &&& channel.state != ChannelState::Closed && channel.state != ChannelState::Faulted
        },
{
}

/// A payload is accepted exactly when its length lies between 1 and
/// `MAX_MESSAGE_BYTES`, whatever its offset and handle.
pub proof fn lemma_payload_valid_iff(payload: PayloadDescriptor)
    ensures
        payload.spec_validate() is Ok <==> 0 < payload.len <= MAX_MESSAGE_BYTES,
{
}

/// A header is accepted exactly when it has a message identifier and both
/// ports, no unknown flag, a payload length of at most `MAX_MESSAGE_BYTES`, a
/// redaction that suits its data class, and a valid trace.
pub proof fn lemma_header_valid_iff(header: MessageHeader)
    ensures
        header.spec_validate() is Ok <==> {
            &&& header.message_id != 0 && header.source.0 != 0 && header.target.0 != 0
            &&& header.flags & !MESSAGE_KNOWN_FLAGS == 0
            &&& header.payload_len <= MAX_MESSAGE_BYTES
            &&& header.redaction.spec_satisfies(header.data_class)
            &&& header.trace.spec_validate() is Ok
        },
{
}

/// The first invalid payload decides, so the list passes exactly when every
/// payload is valid.
pub proof fn lemma_payloads_check_iff(payloads: Seq<PayloadDescriptor>)
    ensures
        payloads_check(payloads) is Ok <==> forall|i: int|
            0 <= i < payloads.len() ==> (#[trigger] payloads[i]).spec_validate() is Ok,
    decreases payloads.len(),
{
    if payloads.len() > 0 {
        lemma_payloads_check_iff(payloads.drop_first());
        if payloads_check(payloads) is Ok {
            assert forall|i: int| 0 <= i < payloads.len() implies (#[trigger] payloads[i]).spec_validate()
                is Ok by {
                if i > 0 {
                    assert(payloads[i] == payloads.drop_first()[i - 1]);
                }
            }
        }
        if forall|i: int| 0 <= i < payloads.len() ==> (#[trigger] payloads[i]).spec_validate() is Ok {
            assert forall|i: int| 0 <= i < payloads.drop_first().len() implies (
            #[trigger] payloads.drop_first()[i]).spec_validate() is Ok by {
                assert(payloads.drop_first()[i] == payloads[i + 1]);
            }
        }
    }
}

/// An envelope is accepted exactly when its header is valid, its topic is
/// non-empty and at most `MAX_CHANNEL_NAME_LEN` bytes long, every payload is
/// valid, and the payload lengths add up to the header's payload length; an
/// envelope without payloads is accepted when its header length is zero.
pub proof fn lemma_envelope_valid_iff(envelope: MessageEnvelope)
    ensures
        envelope.spec_validate() is Ok <==> {
            &&& envelope.header.spec_validate() is Ok
            &&& envelope.topic@.len() > 0 && envelope.topic.len() <= MAX_CHANNEL_NAME_LEN
            &&& forall|i: int|
                0 <= i < envelope.payloads@.len() ==> 0 < (#[trigger] envelope.payloads@[i]).len
                    <= MAX_MESSAGE_BYTES
            &&& total_payload_len(envelope.payloads@) == envelope.header.payload_len
        },
{
    lemma_payloads_check_iff(envelope.payloads@);
}

/// An envelope may be sent on a channel exactly when the channel and the
/// envelope are valid, the channel is open, the message travels between the
/// channel's own endpoints, the rights have no reserved bit and include the
/// channel's send rights and the rights of the message kind, and the payload
/// fits the channel's limit.  Nothing else (such as the number of payloads)
/// is asked.
pub proof fn lemma_send_iff(envelope: MessageEnvelope, channel: ChannelDescriptor, rights: IpcRights)
    ensures
        envelope.spec_validate_for_channel(channel, rights) is Ok <==> {
            &&& channel.spec_validate() is Ok
            &&& envelope.spec_validate() is Ok
            &&& channel.state == ChannelState::Open
            &&& envelope.header.source == channel.source
            &&& envelope.header.target == channel.target
            &&& rights.0 & !IPC_KNOWN_RIGHTS == 0
            &&& rights.0 & channel.send_rights.0 == channel.send_rights.0
            &&& rights.0 & envelope.header.kind.spec_required_rights().0
                == envelope.header.kind.spec_required_rights().0
            &&& envelope.header.payload_len <= channel.max_message_len
        },
{
}

/// A payload is added exactly when the envelope holds fewer than four and
/// the payload's length lies between 1 and `MAX_MESSAGE_BYTES`.
pub proof fn lemma_push_payload_iff(envelope: MessageEnvelope, payload: PayloadDescriptor)
    ensures
        envelope.spec_push_payload(payload) is Ok <==> (envelope.payloads@.len()
            < MAX_PAYLOAD_DESCRIPTORS && 0 < payload.len <= MAX_MESSAGE_BYTES),
{
}

/// Sending fails closed: an envelope that passes `validate_for_channel`
/// travels on an open channel between that channel's endpoints, with rights
/// that hold the channel's send rights and those of the message kind, and
/// within the channel's size limit.
pub proof fn lemma_send_fails_closed(envelope: MessageEnvelope, channel: ChannelDescriptor, rights: IpcRights)
    requires
        envelope.spec_validate_for_channel(channel, rights) is Ok,
    ensures
        channel.state == ChannelState::Open,
        envelope.header.source == channel.source && envelope.header.target == channel.target,
        known_rights(rights.0),
        rights.spec_contains(channel.send_rights),
        rights.spec_contains(envelope.header.kind.spec_required_rights()),
        envelope.header.payload_len <= channel.max_message_len,
        envelope.spec_validate() is Ok,
        channel.spec_validate() is Ok,
{
}

} // verus!
