//! Capability-aware IPC contracts: ports, channels, message envelopes,
//! shared-memory handles, bounded event queues and route tables.
//!
//! Every validation routine is specified by an `open spec fn` that lists its
//! checks in the order in which they are made, so that the first failing
//! check decides the error that is returned.  Fixed-capacity containers are
//! modelled as sequences of their live entries.

pub mod channel;
pub mod port;
pub mod queue;
pub mod router;
pub mod shared_memory;
mod text;

pub use channel::{
    ChannelDescriptor, ChannelId, ChannelState, DeliveryMode, MessageEnvelope, MessageHeader,
    MessageKind, PayloadDescriptor, MAX_CHANNEL_NAME_LEN, MAX_MESSAGE_BYTES, MAX_PAYLOAD_DESCRIPTORS,
    MESSAGE_FLAG_AUDIT, MESSAGE_FLAG_REQUIRES_REPLY, MESSAGE_FLAG_SHARED_MEMORY,
    MESSAGE_FLAG_SIGNAL, MESSAGE_KNOWN_FLAGS,
};
pub use port::{
    PortDescriptor, PortId, PortKind, PortOpenRequest, PortState, PortTable, MAX_PORT_NAME_LEN,
};
pub use queue::{
    EventKind, EventQueue, IpcEvent, QueueDescriptor, QueuePolicy, QueueStatus, WaitReason,
};
pub use router::{
    IpcRouter, RouteDecision, RouteDescriptor, RouteRule, RouteState, MAX_ROUTE_LABEL_LEN,
};
pub use shared_memory::{
    MemoryAccess, MemoryGrant, MemoryMapIntent, SharedMemoryDescriptor, SharedMemoryHandle,
    SharedMemoryRegion, SharedMemoryState, MAX_SHARED_MEMORY_LEN,
};

use vstd::prelude::*;

verus! {

/// Repository name.
pub const REPOSITORY: &'static str = "alani-ipc";

/// Crate version.
pub const VERSION: &'static str = "0.1.0";

/// Public module names exposed by this crate.
pub const MODULES: [&'static str; 5] = ["channel", "port", "shared_memory", "router", "queue"];

/// Feature bit for port descriptors and tables.
pub const IPC_FEATURE_PORTS: u64 = 1 << 0;
/// Feature bit for channel descriptors and message envelopes.
pub const IPC_FEATURE_CHANNELS: u64 = 1 << 1;
/// Feature bit for bounded event queues.
pub const IPC_FEATURE_QUEUES: u64 = 1 << 2;
/// Feature bit for shared-memory handles.
pub const IPC_FEATURE_SHARED_MEMORY: u64 = 1 << 3;
/// Feature bit for route tables.
pub const IPC_FEATURE_ROUTER: u64 = 1 << 4;
/// Feature bit for audit and trace metadata.
pub const IPC_FEATURE_TRACE_AUDIT: u64 = 1 << 5;

/// All IPC feature bits known by this crate version.
pub const IPC_KNOWN_FEATURES: u64 = IPC_FEATURE_PORTS | IPC_FEATURE_CHANNELS | IPC_FEATURE_QUEUES
    | IPC_FEATURE_SHARED_MEMORY | IPC_FEATURE_ROUTER | IPC_FEATURE_TRACE_AUDIT;

/// Right to connect to a port.
pub const IPC_RIGHT_CONNECT: u64 = 1 << 0;
/// Right to send messages.
pub const IPC_RIGHT_SEND: u64 = 1 << 1;
/// Right to receive messages.
pub const IPC_RIGHT_RECEIVE: u64 = 1 << 2;
/// Right to share memory handles.
pub const IPC_RIGHT_SHARE_MEMORY: u64 = 1 << 3;
/// Right to route or forward messages.
pub const IPC_RIGHT_ROUTE: u64 = 1 << 4;
/// Right to administer ports, channels, or routes.
pub const IPC_RIGHT_ADMIN: u64 = 1 << 5;
/// Right to observe queue and channel state.
pub const IPC_RIGHT_OBSERVE: u64 = 1 << 6;
/// Right to seal or revoke shared memory.
pub const IPC_RIGHT_SEAL: u64 = 1 << 7;
/// Right to signal wait queues.
pub const IPC_RIGHT_SIGNAL: u64 = 1 << 8;

/// All IPC rights known by this crate version.
pub const IPC_KNOWN_RIGHTS: u64 = IPC_RIGHT_CONNECT | IPC_RIGHT_SEND | IPC_RIGHT_RECEIVE
    | IPC_RIGHT_SHARE_MEMORY | IPC_RIGHT_ROUTE | IPC_RIGHT_ADMIN | IPC_RIGHT_OBSERVE
    | IPC_RIGHT_SEAL | IPC_RIGHT_SIGNAL;

/// Trace flag indicating the event was sampled.
pub const TRACE_FLAG_SAMPLED: u32 = 1 << 0;
/// Trace flag indicating verbose diagnostics are allowed.
pub const TRACE_FLAG_DEBUG: u32 = 1 << 1;
/// Trace flags known by this crate version.
pub const TRACE_KNOWN_FLAGS: u32 = TRACE_FLAG_SAMPLED | TRACE_FLAG_DEBUG;

/// Result alias used by IPC validation and host-mode APIs.
pub type IpcResult<T> = Result<T, IpcError>;

/// The present items of `added`, in order: what a series of operations
/// accepted, when each records the item it accepted or `None`.
pub open spec fn accepted<T>(added: Seq<Option<T>>) -> Seq<T>
    decreases added.len(),
{
    if added.len() == 0 {
        Seq::empty()
    } else {
        let rest = accepted(added.drop_last());
        match added.last() {
            Some(item) => rest.push(item),
            None => rest,
        }
    }
}

/// Error taxonomy for IPC ports, channels, queues, routes, and memory grants.
#[derive(Clone, Copy, Debug, PartialEq, Eq, Structural)]
pub enum IpcError {
    /// Required field was omitted.
    MissingField,
    /// String metadata exceeded a documented maximum.
    FieldTooLong,
    /// Reserved flag or right bits were present.
    ReservedBits,
    /// Port metadata or state was invalid.
    InvalidPort,
    /// Port identifier already exists.
    DuplicatePort,
    /// Port could not be found.
    PortNotFound,
    /// Channel metadata or state was invalid.
    InvalidChannel,
    /// Channel identifier already exists.
    DuplicateChannel,
    /// Message metadata or envelope was invalid.
    InvalidMessage,
    /// Payload length exceeded the supported bound.
    PayloadTooLarge,
    /// Shared-memory metadata was invalid.
    InvalidSharedMemory,
    /// Shared memory must be sealed before transfer.
    NotSealed,
    /// Shared memory was revoked.
    Revoked,
    /// Route metadata was invalid.
    InvalidRoute,
    /// Route identifier already exists.
    DuplicateRoute,
    /// No matching route exists.
    RouteNotFound,
    /// Required IPC capability was missing.
    AccessDenied,
    /// Fixed-capacity queue, table, or route list is full.
    CapacityExceeded,
    /// Operation would block under the selected queue policy.
    WouldBlock,
    /// Endpoint or channel is closed.
    Closed,
    /// Deadline expired before delivery.
    DeadlineExceeded,
    /// Trace context was malformed.
    InvalidTrace,
    /// Sensitive payload metadata lacked an acceptable redaction state.
    SensitiveData,
    /// Internal invariant failed.
    Internal,
}

impl IpcError {
    /// The stable reason label of each error.
    pub open spec fn spec_reason(self) -> Seq<char> {
        match self {
            IpcError::MissingField => "missing_field"@,
            IpcError::FieldTooLong => "field_too_long"@,
            IpcError::ReservedBits => "reserved_bits"@,
            IpcError::InvalidPort => "invalid_port"@,
            IpcError::DuplicatePort => "duplicate_port"@,
            IpcError::PortNotFound => "port_not_found"@,
            IpcError::InvalidChannel => "invalid_channel"@,
            IpcError::DuplicateChannel => "duplicate_channel"@,
            IpcError::InvalidMessage => "invalid_message"@,
            IpcError::PayloadTooLarge => "payload_too_large"@,
            IpcError::InvalidSharedMemory => "invalid_shared_memory"@,
            IpcError::NotSealed => "not_sealed"@,
            IpcError::Revoked => "revoked"@,
            IpcError::InvalidRoute => "invalid_route"@,
            IpcError::DuplicateRoute => "duplicate_route"@,
            IpcError::RouteNotFound => "route_not_found"@,
            IpcError::AccessDenied => "access_denied"@,
            IpcError::CapacityExceeded => "capacity_exceeded"@,
            IpcError::WouldBlock => "would_block"@,
            IpcError::Closed => "closed"@,
            IpcError::DeadlineExceeded => "deadline_exceeded"@,
            IpcError::InvalidTrace => "invalid_trace"@,
            IpcError::SensitiveData => "sensitive_data"@,
            IpcError::Internal => "internal"@,
        }
    }

    /// Stable reason label for diagnostics and tests.
    pub fn reason(self) -> (label: &'static str)
        ensures
            label@ == self.spec_reason(),
    {
        match self {
            IpcError::MissingField => "missing_field",
            IpcError::FieldTooLong => "field_too_long",
            IpcError::ReservedBits => "reserved_bits",
            IpcError::InvalidPort => "invalid_port",
            IpcError::DuplicatePort => "duplicate_port",
            IpcError::PortNotFound => "port_not_found",
            IpcError::InvalidChannel => "invalid_channel",
            IpcError::DuplicateChannel => "duplicate_channel",
            IpcError::InvalidMessage => "invalid_message",
            IpcError::PayloadTooLarge => "payload_too_large",
            IpcError::InvalidSharedMemory => "invalid_shared_memory",
            IpcError::NotSealed => "not_sealed",
            IpcError::Revoked => "revoked",
            IpcError::InvalidRoute => "invalid_route",
            IpcError::DuplicateRoute => "duplicate_route",
            IpcError::RouteNotFound => "route_not_found",
            IpcError::AccessDenied => "access_denied",
            IpcError::CapacityExceeded => "capacity_exceeded",
            IpcError::WouldBlock => "would_block",
            IpcError::Closed => "closed",
            IpcError::DeadlineExceeded => "deadline_exceeded",
            IpcError::InvalidTrace => "invalid_trace",
            IpcError::SensitiveData => "sensitive_data",
            IpcError::Internal => "internal",
        }
    }

    /// The errors that mark a fail-closed trust boundary.
    pub open spec fn spec_is_security_relevant(self) -> bool {
        match self {
            IpcError::ReservedBits | IpcError::AccessDenied | IpcError::PayloadTooLarge
            | IpcError::InvalidSharedMemory | IpcError::NotSealed | IpcError::Revoked
            | IpcError::InvalidRoute | IpcError::InvalidTrace | IpcError::SensitiveData => true,
            _ => false,
        }
    }

    /// Returns `true` when this error represents a fail-closed trust boundary.
    pub fn is_security_relevant(self) -> (relevant: bool)
        ensures
            relevant == self.spec_is_security_relevant(),
    {
        match self {
            IpcError::ReservedBits | IpcError::AccessDenied | IpcError::PayloadTooLarge
            | IpcError::InvalidSharedMemory | IpcError::NotSealed | IpcError::Revoked
            | IpcError::InvalidRoute | IpcError::InvalidTrace | IpcError::SensitiveData => true,
            _ => false,
        }
    }
}

/// IPC rights bitset.
#[derive(Clone, Copy, Debug, PartialEq, Eq, Structural)]
pub struct IpcRights(pub u64);

/// `true` when `bits` holds no bit outside the known rights.
pub open spec fn known_rights(bits: u64) -> bool {
    bits & !IPC_KNOWN_RIGHTS == 0
}

impl IpcRights {
    /// Empty rights set.
    pub fn empty() -> (rights: Self)
        ensures
            rights == IpcRights(0),
    {
        IpcRights(0)
    }

    /// Connect right.
    pub fn connect() -> (rights: Self)
        ensures
            rights == IpcRights(IPC_RIGHT_CONNECT),
    {
        IpcRights(IPC_RIGHT_CONNECT)
    }

    /// Send right.
    pub fn send() -> (rights: Self)
        ensures
            rights == IpcRights(IPC_RIGHT_SEND),
    {
        IpcRights(IPC_RIGHT_SEND)
    }

    /// Receive right.
    pub fn receive() -> (rights: Self)
        ensures
            rights == IpcRights(IPC_RIGHT_RECEIVE),
    {
        IpcRights(IPC_RIGHT_RECEIVE)
    }

    /// Share-memory right.
    pub fn share_memory() -> (rights: Self)
        ensures
            rights == IpcRights(IPC_RIGHT_SHARE_MEMORY),
    {
        IpcRights(IPC_RIGHT_SHARE_MEMORY)
    }

    /// Route right.
    pub fn route() -> (rights: Self)
        ensures
            rights == IpcRights(IPC_RIGHT_ROUTE),
    {
        IpcRights(IPC_RIGHT_ROUTE)
    }

    /// Administration right.
    pub fn admin() -> (rights: Self)
        ensures
            rights == IpcRights(IPC_RIGHT_ADMIN),
    {
        IpcRights(IPC_RIGHT_ADMIN)
    }

    /// Observe right.
    pub fn observe() -> (rights: Self)
        ensures
            rights == IpcRights(IPC_RIGHT_OBSERVE),
    {
        IpcRights(IPC_RIGHT_OBSERVE)
    }

    /// Seal right.
    pub fn seal() -> (rights: Self)
        ensures
            rights == IpcRights(IPC_RIGHT_SEAL),
    {
        IpcRights(IPC_RIGHT_SEAL)
    }

    /// Signal right.
    pub fn signal() -> (rights: Self)
        ensures
            rights == IpcRights(IPC_RIGHT_SIGNAL),
    {
        IpcRights(IPC_RIGHT_SIGNAL)
    }

    /// What `from_bits` answers for `bits`.
    pub open spec fn spec_from_bits(bits: u64) -> IpcResult<IpcRights> {
        if !known_rights(bits) {
            Err(IpcError::ReservedBits)
        } else {
            Ok(IpcRights(bits))
        }
    }

    /// Creates rights from raw bits.
    pub fn from_bits(bits: u64) -> (rights: IpcResult<Self>)
        ensures
            rights == Self::spec_from_bits(bits),
    {
        if bits & !IPC_KNOWN_RIGHTS != 0 {
            return Err(IpcError::ReservedBits);
        }
        Ok(IpcRights(bits))
    }

    /// Returns raw bits.
    pub fn bits(self) -> (bits: u64)
        ensures
            bits == self.0,
    {
        self.0
    }

    /// `true` when every bit of `required` is held.
    pub open spec fn spec_contains(self, required: IpcRights) -> bool {
        self.0 & required.0 == required.0
    }

    /// Returns `true` when all required rights are present.
    pub fn contains(self, required: Self) -> (held: bool)
        ensures
            held == self.spec_contains(required),
    {
        (self.0 & required.0) == required.0
    }

    /// Combines two rights sets.
    pub fn union(self, other: Self) -> (combined: Self)
        ensures
            combined == IpcRights(self.0 | other.0),
    {
        IpcRights(self.0 | other.0)
    }

    /// What `require` answers: reserved bits first, then missing rights.
    pub open spec fn spec_require(self, required: IpcRights) -> IpcResult<()> {
        if !known_rights(self.0) {
            Err(IpcError::ReservedBits)
        } else if !self.spec_contains(required) {
            Err(IpcError::AccessDenied)
        } else {
            Ok(())
        }
    }

    /// Requires the given rights.
    pub fn require(self, required: Self) -> (outcome: IpcResult<()>)
        ensures
            outcome == self.spec_require(required),
    {
        if self.0 & !IPC_KNOWN_RIGHTS != 0 {
            return Err(IpcError::ReservedBits);
        }
        if !self.contains(required) {
            return Err(IpcError::AccessDenied);
        }
        Ok(())
    }
}

/// A union of rights holds each of its parts, and holding is reflexive and
/// transitive.
pub proof fn lemma_rights_containment(a: IpcRights, b: IpcRights, c: IpcRights)
    ensures
        IpcRights(a.0 | b.0).spec_contains(a),
        IpcRights(a.0 | b.0).spec_contains(b),
        a.spec_contains(a),
        a.spec_contains(IpcRights(0)),
        a.spec_contains(b) && b.spec_contains(c) ==> a.spec_contains(c),
{
    let (x, y, z) = (a.0, b.0, c.0);
    assert((x | y) & x == x) by (bit_vector);
    assert((x | y) & y == y) by (bit_vector);
    assert(x & x == x) by (bit_vector);
    assert(x & 0 == 0) by (bit_vector);
    assert(x & y == y && y & z == z ==> x & z == z) by (bit_vector);
}

/// The union of two rights sets without reserved bits has no reserved bits;
/// a set that passes `require` holds what was required.
pub proof fn lemma_rights_union_known(a: IpcRights, b: IpcRights, required: IpcRights)
    ensures
        known_rights(a.0) && known_rights(b.0) ==> known_rights(a.0 | b.0),
        a.spec_require(required) is Ok <==> known_rights(a.0) && a.spec_contains(required),
{
    let (x, y) = (a.0, b.0);
    assert(x & !IPC_KNOWN_RIGHTS == 0 && y & !IPC_KNOWN_RIGHTS == 0 ==> (x | y) & !IPC_KNOWN_RIGHTS
        == 0) by (bit_vector);
}

/// Rights are built from bits exactly when no bit lies outside the known
/// rights, and then carry exactly those bits; `require` succeeds exactly when
/// the held bits have no reserved bit and include every required bit, so a
/// superset of the required rights is always accepted.
pub proof fn lemma_rights_bits(bits: u64, held: IpcRights, required: IpcRights)
    ensures
        IpcRights::spec_from_bits(bits) is Ok <==> bits & !IPC_KNOWN_RIGHTS == 0,
        IpcRights::spec_from_bits(bits) matches Ok(rights) ==> rights.0 == bits,
        held.spec_require(required) is Ok <==> (held.0 & !IPC_KNOWN_RIGHTS == 0 && held.0
            & required.0 == required.0),
        held.spec_require(required) is Err && held.0 & !IPC_KNOWN_RIGHTS == 0
            ==> held.spec_require(required) == Err::<(), IpcError>(IpcError::AccessDenied),
        held.0 & !IPC_KNOWN_RIGHTS != 0 ==> held.spec_require(required) == Err::<(), IpcError>(
            IpcError::ReservedBits,
        ),
{
}

/// Data sensitivity classification for IPC diagnostics and payload metadata.
#[derive(Clone, Copy, Debug, PartialEq, Eq, Structural)]
pub enum DataClass {
    /// Public data.
    Public,
    /// Operational metadata.
    Operational,
    /// Sensitive data requiring redaction.
    Sensitive,
    /// Secret data that must not be broadly exported.
    Secret,
}

impl DataClass {
    /// The stable label of each class.
    pub open spec fn spec_label(self) -> Seq<char> {
        match self {
            DataClass::Public => "public"@,
            DataClass::Operational => "operational"@,
            DataClass::Sensitive => "sensitive"@,
            DataClass::Secret => "secret"@,
        }
    }

    /// Stable class label.
    pub fn label(self) -> (label: &'static str)
        ensures
            label@ == self.spec_label(),
    {
        match self {
            DataClass::Public => "public",
            DataClass::Operational => "operational",
            DataClass::Sensitive => "sensitive",
            DataClass::Secret => "secret",
        }
    }

    /// Sensitive and secret data must be redacted in broad diagnostics.
    pub open spec fn spec_requires_redaction(self) -> bool {
        self == DataClass::Sensitive || self == DataClass::Secret
    }

    /// Returns `true` when broad diagnostics require redaction.
    pub fn requires_redaction(self) -> (needed: bool)
        ensures
            needed == self.spec_requires_redaction(),
    {
        match self {
            DataClass::Sensitive | DataClass::Secret => true,
            _ => false,
        }
    }
}

/// Redaction state for IPC payload metadata.
#[derive(Clone, Copy, Debug, PartialEq, Eq, Structural)]
pub enum RedactionState {
    /// No redaction needed.
    Public,
    /// Operational metadata only.
    Operational,
    /// Sensitive data was redacted.
    SensitiveRedacted,
    /// Secret data was redacted.
    SecretRedacted,
    /// Sensitive or secret data remains present.
    Unredacted,
}

impl RedactionState {
    /// The stable label of each redaction state.
    pub open spec fn spec_label(self) -> Seq<char> {
        match self {
            RedactionState::Public => "public"@,
            RedactionState::Operational => "operational"@,
            RedactionState::SensitiveRedacted => "sensitive_redacted"@,
            RedactionState::SecretRedacted => "secret_redacted"@,
            RedactionState::Unredacted => "unredacted"@,
        }
    }

    /// Stable redaction label.
    pub fn label(self) -> (label: &'static str)
        ensures
            label@ == self.spec_label(),
    {
        match self {
            RedactionState::Public => "public",
            RedactionState::Operational => "operational",
            RedactionState::SensitiveRedacted => "sensitive_redacted",
            RedactionState::SecretRedacted => "secret_redacted",
            RedactionState::Unredacted => "unredacted",
        }
    }

    /// Public and operational data need nothing; sensitive data needs a
    /// sensitive or secret redaction; secret data needs a secret redaction.
    pub open spec fn spec_satisfies(self, data_class: DataClass) -> bool {
        match data_class {
            DataClass::Public | DataClass::Operational => true,
            DataClass::Sensitive => self == RedactionState::SensitiveRedacted || self
                == RedactionState::SecretRedacted,
            DataClass::Secret => self == RedactionState::SecretRedacted,
        }
    }

    /// Returns `true` when this state is acceptable for the data class.
    pub fn satisfies(self, data_class: DataClass) -> (acceptable: bool)
        ensures
            acceptable == self.spec_satisfies(data_class),
    {
        match data_class {
            DataClass::Public | DataClass::Operational => true,
            DataClass::Sensitive => match self {
                RedactionState::SensitiveRedacted | RedactionState::SecretRedacted => true,
                _ => false,
            },
            DataClass::Secret => match self {
                RedactionState::SecretRedacted => true,
                _ => false,
            },
        }
    }
}

/// Data that needs no redaction is acceptable in any redaction state, and
/// unredacted data is acceptable exactly when its class needs no redaction;
/// a secret redaction is acceptable for every class.
pub proof fn lemma_redaction_fail_closed(state: RedactionState, data_class: DataClass)
    ensures
        !data_class.spec_requires_redaction() ==> state.spec_satisfies(data_class),
        RedactionState::Unredacted.spec_satisfies(data_class)
            <==> !data_class.spec_requires_redaction(),
        RedactionState::SecretRedacted.spec_satisfies(data_class),
{
}

/// Trace context propagated through IPC operations.
#[derive(Clone, Copy, Debug, PartialEq, Eq, Structural)]
pub struct TraceContext {
    /// Stable trace identifier.
    pub trace_id: u64,
    /// Current span identifier.
    pub span_id: u64,
    /// Parent span identifier.
    pub parent_span_id: u64,
    /// Trace flags.
    pub flags: u32,
}

impl TraceContext {
    /// The empty trace context, as a value.
    pub open spec fn spec_empty() -> TraceContext {
        TraceContext { trace_id: 0, span_id: 0, parent_span_id: 0, flags: 0 }
    }

    /// Empty trace context.
    pub fn empty() -> (trace: Self)
        ensures
            trace == Self::spec_empty(),
    {
        TraceContext { trace_id: 0, span_id: 0, parent_span_id: 0, flags: 0 }
    }

    /// Creates a root trace context.
    pub fn root(trace_id: u64, span_id: u64) -> (trace: Self)
        ensures
            trace == (TraceContext {
                trace_id,
                span_id,
                parent_span_id: 0,
                flags: TRACE_FLAG_SAMPLED,
            }),
    {
        TraceContext { trace_id, span_id, parent_span_id: 0, flags: TRACE_FLAG_SAMPLED }
    }

    /// Creates a child span context.
    pub fn child(self, span_id: u64) -> (trace: Self)
        ensures
            trace == (TraceContext {
                trace_id: self.trace_id,
                span_id,
                parent_span_id: self.span_id,
                flags: self.flags,
            }),
    {
        TraceContext {
            trace_id: self.trace_id,
            span_id,
            parent_span_id: self.span_id,
            flags: self.flags,
        }
    }

    /// `true` when any identifier is set.
    pub open spec fn spec_is_present(self) -> bool {
        self.trace_id != 0 || self.span_id != 0 || self.parent_span_id != 0
    }

    /// Returns `true` when identifiers are present.
    pub fn is_present(self) -> (present: bool)
        ensures
            present == self.spec_is_present(),
    {
        self.trace_id != 0 || self.span_id != 0 || self.parent_span_id != 0
    }

    /// What `validate` answers: unknown flags, then an absent trace is fine,
    /// then a present trace needs both its trace and span identifiers.
    pub open spec fn spec_validate(self) -> IpcResult<()> {
        if self.flags & !TRACE_KNOWN_FLAGS != 0 {
            Err(IpcError::ReservedBits)
        } else if !self.spec_is_present() {
            Ok(())
        } else if self.trace_id == 0 || self.span_id == 0 {
            Err(IpcError::InvalidTrace)
        } else {
            Ok(())
        }
    }

    /// Validates trace metadata.
    pub fn validate(self) -> (outcome: IpcResult<()>)
        ensures
            outcome == self.spec_validate(),
    {
        if self.flags & !TRACE_KNOWN_FLAGS != 0 {
            return Err(IpcError::ReservedBits);
        }
        if !self.is_present() {
            return Ok(());
        }
        if self.trace_id == 0 || self.span_id == 0 {
            return Err(IpcError::InvalidTrace);
        }
        Ok(())
    }
}

/// A trace is accepted exactly when it carries no unknown flag and, if any
/// of its identifiers is set, both its trace and span identifiers are set.
pub proof fn lemma_trace_valid_iff(trace: TraceContext)
    ensures
        trace.spec_validate() is Ok <==> {
            &&& trace.flags & !TRACE_KNOWN_FLAGS == 0
            &&& (trace.trace_id != 0 || trace.span_id != 0 || trace.parent_span_id != 0)
                ==> trace.trace_id != 0 && trace.span_id != 0
        },
        trace.flags & !TRACE_KNOWN_FLAGS != 0 ==> trace.spec_validate() == Err::<(), IpcError>(
            IpcError::ReservedBits,
        ),
{
}

/// The empty trace is valid; a root trace with both identifiers set is
/// valid; a child span (with a span identifier) of a valid, present trace is
/// valid, keeps the trace identifier and records its parent span.
pub proof fn lemma_trace_propagation(trace: TraceContext, trace_id: u64, span_id: u64)
    ensures
        TraceContext::spec_empty().spec_validate() == Ok::<(), IpcError>(()),
        trace_id != 0 && span_id != 0 ==> (TraceContext {
            trace_id,
            span_id,
            parent_span_id: 0,
            flags: TRACE_FLAG_SAMPLED,
        }).spec_validate() == Ok::<(), IpcError>(()),
        trace.spec_validate() is Ok && trace.spec_is_present() && span_id != 0 ==> (TraceContext {
            trace_id: trace.trace_id,
            span_id,
            parent_span_id: trace.span_id,
            flags: trace.flags,
        }).spec_validate() == Ok::<(), IpcError>(()),
{
    assert(0u32 & !TRACE_KNOWN_FLAGS == 0) by (bit_vector);
    assert(TRACE_FLAG_SAMPLED & !TRACE_KNOWN_FLAGS == 0) by (bit_vector);
}

/// Implementation maturity marker for generated repository metadata.
#[derive(Clone, Copy, Debug, PartialEq, Eq, Structural)]
pub enum ComponentStatus {
    /// API is present as a draft skeleton.
    Draft,
    /// API is implemented enough for host-mode experimentation.
    Experimental,
    /// API is compatible and stable.
    Stable,
}

/// Stable component identity record.
#[derive(Clone, Debug, PartialEq, Eq)]
pub struct ComponentInfo {
    /// Repository name.
    pub repository: &'static str,
    /// Crate version.
    pub version: &'static str,
    /// Current implementation status.
    pub status: ComponentStatus,
}

/// Returns stable component identity metadata.
pub fn component_info() -> (info: ComponentInfo)
    ensures
        info.repository@ == REPOSITORY@,
        info.version@ == VERSION@,
        info.status == ComponentStatus::Experimental,
{
    ComponentInfo { repository: REPOSITORY, version: VERSION, status: ComponentStatus::Experimental }
}

/// Returns the repository name.
pub fn repository_name() -> (name: &'static str)
    ensures
        name@ == REPOSITORY@,
{
    REPOSITORY
}

/// Returns public module names.
pub fn module_names() -> (names: &'static [&'static str])
    ensures
        names@ == MODULES@,
{
    &MODULES
}

/// Compact root view of the IPC crate contract.
#[derive(Clone, Copy, Debug, PartialEq, Eq)]
pub struct IpcCatalog {
    /// Repository name.
    pub repository: &'static str,
    /// Crate version.
    pub version: &'static str,
    /// Feature bitmap.
    pub features: u64,
    /// Known IPC rights.
    pub known_rights: u64,
    /// Maximum inline message bytes.
    pub max_message_bytes: u64,
    /// Maximum shared memory region length.
    pub max_shared_memory_len: u64,
}

impl IpcCatalog {
    /// The current catalog, field by field.
    pub open spec fn is_current(self) -> bool {
        &&& self.repository@ == REPOSITORY@
        &&& self.version@ == VERSION@
        &&& self.features == IPC_KNOWN_FEATURES
        &&& self.known_rights == IPC_KNOWN_RIGHTS
        &&& self.max_message_bytes == MAX_MESSAGE_BYTES
        &&& self.max_shared_memory_len == MAX_SHARED_MEMORY_LEN
    }

    /// Returns the current catalog.
    pub fn current() -> (catalog: Self)
        ensures
            catalog.is_current(),
    {
        IpcCatalog {
            repository: REPOSITORY,
            version: VERSION,
            features: IPC_KNOWN_FEATURES,
            known_rights: IPC_KNOWN_RIGHTS,
            max_message_bytes: MAX_MESSAGE_BYTES,
            max_shared_memory_len: MAX_SHARED_MEMORY_LEN,
        }
    }

    /// What `validate` answers: names, then reserved bits, then limits.
    pub open spec fn spec_validate(self) -> IpcResult<()> {
        if self.repository@.len() == 0 || self.version@.len() == 0 {
            Err(IpcError::MissingField)
        } else if self.features & !IPC_KNOWN_FEATURES != 0 || self.known_rights & !IPC_KNOWN_RIGHTS
            != 0 {
            Err(IpcError::ReservedBits)
        } else if self.max_message_bytes == 0 || self.max_shared_memory_len == 0 {
            Err(IpcError::InvalidMessage)
        } else {
            Ok(())
        }
    }

    /// Validates catalog metadata.
    pub fn validate(self) -> (outcome: IpcResult<()>)
        ensures
            outcome == self.spec_validate(),
    {
        if self.repository.is_empty() || self.version.is_empty() {
            return Err(IpcError::MissingField);
        }
        if self.features & !IPC_KNOWN_FEATURES != 0 || self.known_rights & !IPC_KNOWN_RIGHTS != 0 {
            return Err(IpcError::ReservedBits);
        }
        if self.max_message_bytes == 0 || self.max_shared_memory_len == 0 {
            return Err(IpcError::InvalidMessage);
        }
        Ok(())
    }
}

/// A catalog is accepted exactly when it names a repository and a version,
/// has no unknown feature or right, and has non-zero limits.
pub proof fn lemma_catalog_valid_iff(catalog: IpcCatalog)
    ensures
        catalog.spec_validate() is Ok <==> {
            &&& catalog.repository@.len() > 0 && catalog.version@.len() > 0
            &&& catalog.features & !IPC_KNOWN_FEATURES == 0
            &&& catalog.known_rights & !IPC_KNOWN_RIGHTS == 0
            &&& catalog.max_message_bytes > 0 && catalog.max_shared_memory_len > 0
        },
{
}

/// The current catalog validates.
pub proof fn lemma_current_catalog_valid(catalog: IpcCatalog)
    requires
        catalog.is_current(),
    ensures
        catalog.spec_validate() == Ok::<(), IpcError>(()),
{
    reveal_strlit("alani-ipc");
    reveal_strlit("0.1.0");
    assert(IPC_KNOWN_FEATURES & !IPC_KNOWN_FEATURES == 0) by (bit_vector);
    assert(IPC_KNOWN_RIGHTS & !IPC_KNOWN_RIGHTS == 0) by (bit_vector);
}

/// Returns the current IPC catalog.
pub fn ipc_catalog() -> (catalog: IpcCatalog)
    ensures
        catalog.is_current(),
{
    IpcCatalog::current()
}

} // verus!
