//! IPC port descriptors, open requests, and fixed-capacity port tables.

use vstd::prelude::*;

use crate::channel::MAX_MESSAGE_BYTES;
use crate::text::same_text;
use crate::{
    accepted, known_rights, DataClass, IpcError, IpcResult, IpcRights, TraceContext,
    IPC_KNOWN_RIGHTS, IPC_RIGHT_CONNECT,
};

verus! {

/// Maximum port name length.
pub const MAX_PORT_NAME_LEN: usize = 96;

/// Stable IPC port identifier.
#[derive(Clone, Copy, Debug, Default, PartialEq, Eq, Structural)]
pub struct PortId(pub u64);

impl PortId {
    /// Invalid port identifier.
    pub fn invalid() -> (id: Self)
        ensures
            id == PortId(0),
    {
        PortId(0)
    }

    /// Creates a port identifier.
    pub fn new(raw: u64) -> (id: Self)
        ensures
            id == PortId(raw),
    {
        PortId(raw)
    }

    /// Returns the raw identifier.
    pub fn raw(self) -> (raw: u64)
        ensures
            raw == self.0,
    {
        self.0
    }

    /// The zero identifier is invalid.
    pub open spec fn spec_validate(self) -> IpcResult<()> {
        if self.0 == 0 {
            Err(IpcError::InvalidPort)
        } else {
            Ok(())
        }
    }

    /// Validates the identifier.
    pub fn validate(self) -> (outcome: IpcResult<()>)
        ensures
            outcome == self.spec_validate(),
    {
        if self.0 == 0 {
            return Err(IpcError::InvalidPort);
        }
        Ok(())
    }
}

/// IPC port kind.
#[derive(Clone, Copy, Debug, PartialEq, Eq, Structural)]
pub enum PortKind {
    /// Kernel subsystem port.
    Kernel,
    /// Runtime service port.
    Runtime,
    /// Userspace agent port.
    Agent,
    /// Named service port.
    Service,
    /// Device mediation port.
    Device,
    /// Audit ingestion or query port.
    Audit,
    /// Debug or diagnostics port.
    Debug,
}

impl PortKind {
    /// The stable label of each kind.
    pub open spec fn spec_label(self) -> Seq<char> {
        match self {
            PortKind::Kernel => "kernel"@,
            PortKind::Runtime => "runtime"@,
            PortKind::Agent => "agent"@,
            PortKind::Service => "service"@,
            PortKind::Device => "device"@,
            PortKind::Audit => "audit"@,
            PortKind::Debug => "debug"@,
        }
    }

    /// Stable kind label.
    pub fn label(self) -> (label: &'static str)
        ensures
            label@ == self.spec_label(),
    {
        match self {
            PortKind::Kernel => "kernel",
            PortKind::Runtime => "runtime",
            PortKind::Agent => "agent",
            PortKind::Service => "service",
            PortKind::Device => "device",
            PortKind::Audit => "audit",
            PortKind::Debug => "debug",
        }
    }

    /// Kernel, device, audit and debug ports are audit-relevant.
    pub open spec fn spec_audit_relevant(self) -> bool {
        match self {
            PortKind::Kernel | PortKind::Device | PortKind::Audit | PortKind::Debug => true,
            _ => false,
        }
    }

    /// Returns `true` when route or open operations should be audited.
    pub fn audit_relevant(self) -> (relevant: bool)
        ensures
            relevant == self.spec_audit_relevant(),
    {
        match self {
            PortKind::Kernel | PortKind::Device | PortKind::Audit | PortKind::Debug => true,
            _ => false,
        }
    }
}

/// Port lifecycle state.
#[derive(Clone, Copy, Debug, PartialEq, Eq, Structural)]
pub enum PortState {
    /// Port was allocated but not yet bound.
    Created,
    /// Port has a stable name and owner.
    Bound,
    /// Port accepts incoming messages.
    Listening,
    /// Port is connected to a channel.
    Connected,
    /// Port is draining and no longer accepts new messages.
    Draining,
    /// Port is closed.
    Closed,
    /// Port faulted.
    Faulted,
}

impl PortState {
    /// The stable label of each state.
    pub open spec fn spec_label(self) -> Seq<char> {
        match self {
            PortState::Created => "created"@,
            PortState::Bound => "bound"@,
            PortState::Listening => "listening"@,
            PortState::Connected => "connected"@,
            PortState::Draining => "draining"@,
            PortState::Closed => "closed"@,
            PortState::Faulted => "faulted"@,
        }
    }

    /// Stable state label.
    pub fn label(self) -> (label: &'static str)
        ensures
            label@ == self.spec_label(),
    {
        match self {
            PortState::Created => "created",
            PortState::Bound => "bound",
            PortState::Listening => "listening",
            PortState::Connected => "connected",
            PortState::Draining => "draining",
            PortState::Closed => "closed",
            PortState::Faulted => "faulted",
        }
    }

    /// Bound, listening and connected ports may be opened.
    pub open spec fn spec_allows_connect(self) -> bool {
        self == PortState::Bound || self == PortState::Listening || self == PortState::Connected
    }

    /// Returns `true` when the port can be opened or connected.
    pub fn allows_connect(self) -> (allowed: bool)
        ensures
            allowed == self.spec_allows_connect(),
    {
        match self {
            PortState::Bound | PortState::Listening | PortState::Connected => true,
            _ => false,
        }
    }

    /// Listening and connected ports carry messages.
    pub open spec fn spec_allows_message(self) -> bool {
        self == PortState::Listening || self == PortState::Connected
    }

    /// Returns `true` when messages may be sent from or to this port.
    pub fn allows_message(self) -> (allowed: bool)
        ensures
            allowed == self.spec_allows_message(),
    {
        match self {
            PortState::Listening | PortState::Connected => true,
            _ => false,
        }
    }
}

/// Port descriptor published by kernel or runtime owners.
#[derive(Clone, Copy, Debug, PartialEq, Eq)]
pub struct PortDescriptor<'a> {
    /// Port identifier.
    pub id: PortId,
    /// Stable port name.
    pub name: &'a str,
    /// Port owner task or service identifier.
    pub owner: u64,
    /// Port kind.
    pub kind: PortKind,
    /// Lifecycle state.
    pub state: PortState,
    /// Rights required to connect to this port.
    pub required_rights: IpcRights,
    /// Maximum inline message length accepted by this port.
    pub max_message_len: u64,
    /// Receive queue capacity hint.
    pub queue_depth: usize,
    /// Diagnostic data class.
    pub data_class: DataClass,
    /// Whether connection or delivery is audit-critical.
    pub audit_required: bool,
}

impl<'a> PortDescriptor<'a> {
    /// Creates a descriptor for a named port.
    pub fn new(id: PortId, name: &'a str, owner: u64, kind: PortKind) -> (descriptor: Self)
        ensures
            descriptor == (PortDescriptor {
                id,
                name,
                owner,
                kind,
                state: PortState::Bound,
                required_rights: IpcRights(IPC_RIGHT_CONNECT),
                max_message_len: MAX_MESSAGE_BYTES,
                queue_depth: 16,
                data_class: DataClass::Operational,
                audit_required: kind.spec_audit_relevant(),
            }),
    {
        PortDescriptor {
            id,
            name,
            owner,
            kind,
            state: PortState::Bound,
            required_rights: IpcRights(IPC_RIGHT_CONNECT),
            max_message_len: MAX_MESSAGE_BYTES,
            queue_depth: 16,
            data_class: DataClass::Operational,
            audit_required: kind.audit_relevant(),
        }
    }

    /// Sets lifecycle state.
    pub fn with_state(self, state: PortState) -> (descriptor: Self)
        ensures
            descriptor == (PortDescriptor { state, ..self }),
    {
        PortDescriptor { state, ..self }
    }

    /// Sets required rights.
    pub fn with_required_rights(self, required_rights: IpcRights) -> (descriptor: Self)
        ensures
            descriptor == (PortDescriptor { required_rights, ..self }),
    {
        PortDescriptor { required_rights, ..self }
    }

    /// Sets maximum message length and queue depth.
    pub fn with_limits(self, max_message_len: u64, queue_depth: usize) -> (descriptor: Self)
        ensures
            descriptor == (PortDescriptor { max_message_len, queue_depth, ..self }),
    {
        PortDescriptor { max_message_len, queue_depth, ..self }
    }

    /// Sets data class.
    pub fn with_data_class(self, data_class: DataClass) -> (descriptor: Self)
        ensures
            descriptor == (PortDescriptor { data_class, ..self }),
    {
        PortDescriptor { data_class, ..self }
    }

    /// What `validate` answers: identifier, name and owner, name length,
    /// reserved rights, limits, and finally a closed or faulted state.
    pub open spec fn spec_validate(self) -> IpcResult<()> {
        if self.id.0 == 0 {
            Err(IpcError::InvalidPort)
        } else if self.name@.len() == 0 || self.owner == 0 {
            Err(IpcError::MissingField)
        } else if self.name.len() > MAX_PORT_NAME_LEN {
            Err(IpcError::FieldTooLong)
        } else if !known_rights(self.required_rights.0) {
            Err(IpcError::ReservedBits)
        } else if self.max_message_len == 0 || self.max_message_len > MAX_MESSAGE_BYTES {
            Err(IpcError::InvalidPort)
        } else if self.queue_depth == 0 {
            Err(IpcError::InvalidPort)
        } else if self.state == PortState::Closed || self.state == PortState::Faulted {
            Err(IpcError::Closed)
        } else {
            Ok(())
        }
    }

    /// Validates port metadata.
    pub fn validate(self) -> (outcome: IpcResult<()>)
        ensures
            outcome == self.spec_validate(),
    {
        self.id.validate()?;
        if self.name.is_empty() || self.owner == 0 {
            return Err(IpcError::MissingField);
        }
        if self.name.len() > MAX_PORT_NAME_LEN {
            return Err(IpcError::FieldTooLong);
        }
        IpcRights::from_bits(self.required_rights.bits())?;
        if self.max_message_len == 0 || self.max_message_len > MAX_MESSAGE_BYTES {
            return Err(IpcError::InvalidPort);
        }
        if self.queue_depth == 0 {
            return Err(IpcError::InvalidPort);
        }
        match self.state {
            PortState::Closed | PortState::Faulted => Err(IpcError::Closed),
            _ => Ok(()),
        }
    }
}

/// Request to open or connect to a port.
#[derive(Clone, Copy, Debug, PartialEq, Eq)]
pub struct PortOpenRequest<'a> {
    /// Target port.
    pub port_id: PortId,
    /// Principal requesting access.
    pub principal: &'a str,
    /// Caller rights.
    pub rights: IpcRights,
    /// Trace context.
    pub trace: TraceContext,
}

impl<'a> PortOpenRequest<'a> {
    /// Creates an open request.
    pub fn new(port_id: PortId, principal: &'a str, rights: IpcRights) -> (request: Self)
        ensures
            request == (PortOpenRequest {
                port_id,
                principal,
                rights,
                trace: TraceContext::spec_empty(),
            }),
    {
        PortOpenRequest { port_id, principal, rights, trace: TraceContext::empty() }
    }

    /// Sets trace context.
    pub fn with_trace(self, trace: TraceContext) -> (request: Self)
        ensures
            request == (PortOpenRequest { trace, ..self }),
    {
        PortOpenRequest { trace, ..self }
    }

    /// What `validate` answers: port identifier, principal, the connect
    /// right, then the trace.
    pub open spec fn spec_validate(self) -> IpcResult<()> {
        if self.port_id.0 == 0 {
            Err(IpcError::InvalidPort)
        } else if self.principal@.len() == 0 {
            Err(IpcError::MissingField)
        } else if self.principal.len() > MAX_PORT_NAME_LEN {
            Err(IpcError::FieldTooLong)
        } else if self.rights.spec_require(IpcRights(IPC_RIGHT_CONNECT)) is Err {
            self.rights.spec_require(IpcRights(IPC_RIGHT_CONNECT))
        } else {
            self.trace.spec_validate()
        }
    }

    /// Validates the request.
    pub fn validate(self) -> (outcome: IpcResult<()>)
        ensures
            outcome == self.spec_validate(),
    {
        self.port_id.validate()?;
        if self.principal.is_empty() {
            return Err(IpcError::MissingField);
        }
        if self.principal.len() > MAX_PORT_NAME_LEN {
            return Err(IpcError::FieldTooLong);
        }
        self.rights.require(IpcRights::connect())?;
        self.trace.validate()
    }
}

/// `true` when some port of `ports` has identifier `id`.
pub open spec fn has_port_id<'a>(ports: Seq<PortDescriptor<'a>>, id: PortId) -> bool {
    exists|i: int| 0 <= i < ports.len() && (#[trigger] ports[i]).id == id
}

/// `true` when some port of `ports` is named `name`.
pub open spec fn has_port_name<'a>(ports: Seq<PortDescriptor<'a>>, name: Seq<char>) -> bool {
    exists|i: int| 0 <= i < ports.len() && (#[trigger] ports[i]).name@ == name
}

/// No two ports of `ports` share an identifier or a name.
pub open spec fn ports_unique<'a>(ports: Seq<PortDescriptor<'a>>) -> bool {
    forall|i: int, j: int|
        0 <= i < ports.len() && 0 <= j < ports.len() && i != j ==> (#[trigger] ports[i]).id != (
        #[trigger] ports[j]).id && ports[i].name@ != ports[j].name@
}

/// `i` is the first position of `ports` that holds identifier `id`.
pub open spec fn first_port_at<'a>(ports: Seq<PortDescriptor<'a>>, id: PortId, i: int) -> bool {
    &&& 0 <= i < ports.len()
    &&& ports[i].id == id
    &&& forall|j: int| 0 <= j < i ==> (#[trigger] ports[j]).id != id
}

/// The first position of `ports` that holds identifier `id`, if any.
pub open spec fn port_index<'a>(ports: Seq<PortDescriptor<'a>>, id: PortId) -> Option<int> {
    if exists|i: int| first_port_at(ports, id, i) {
        Some(choose|i: int| first_port_at(ports, id, i))
    } else {
        None
    }
}

/// The first port of `ports` with identifier `id`, if any.
pub open spec fn port_lookup<'a>(ports: Seq<PortDescriptor<'a>>, id: PortId) -> Option<
    PortDescriptor<'a>,
> {
    match port_index(ports, id) {
        Some(i) => Some(ports[i]),
        None => None,
    }
}

/// A lookup by identifier finds a port exactly when one has that identifier.
pub proof fn lemma_port_index_some_iff<'a>(ports: Seq<PortDescriptor<'a>>, id: PortId, k: int)
    requires
        0 <= k < ports.len(),
        ports[k].id == id,
    ensures
        port_index(ports, id) is Some,
        port_lookup(ports, id) is Some,
    decreases k,
{
    if exists|j: int| 0 <= j < k && (#[trigger] ports[j]).id == id {
        let j = choose|j: int| 0 <= j < k && (#[trigger] ports[j]).id == id;
        lemma_port_index_some_iff(ports, id, j);
    } else {
        assert(first_port_at(ports, id, k));
    }
}

/// What opening `request` answers against `ports`: the request, then the
/// port's presence, its metadata, its state, and finally the caller's rights.
pub open spec fn open_outcome<'a>(ports: Seq<PortDescriptor<'a>>, request: PortOpenRequest) -> IpcResult<
    PortDescriptor<'a>,
> {
    match request.spec_validate() {
        Err(error) => Err(error),
        Ok(_) => match port_lookup(ports, request.port_id) {
            None => Err(IpcError::PortNotFound),
            Some(port) => match port.spec_validate() {
                Err(error) => Err(error),
                Ok(_) => if !port.state.spec_allows_connect() {
                    Err(IpcError::Closed)
                } else {
                    match request.rights.spec_require(port.required_rights) {
                        Err(error) => Err(error),
                        Ok(_) => Ok(port),
                    }
                },
            },
        },
    }
}

/// A lookup by identifier answers the earliest port with that identifier,
/// and answers nothing exactly when no port has it.
pub proof fn lemma_port_lookup_first<'a>(ports: Seq<PortDescriptor<'a>>, id: PortId)
    ensures
        port_index(ports, id) matches Some(i) ==> {
            &&& 0 <= i < ports.len()
            &&& ports[i].id == id
            &&& forall|j: int| 0 <= j < i ==> (#[trigger] ports[j]).id != id
            &&& port_lookup(ports, id) == Some(ports[i])
        },
        port_lookup(ports, id) is None <==> forall|j: int|
            0 <= j < ports.len() ==> (#[trigger] ports[j]).id != id,
{
    if port_index(ports, id) is Some {
        let i = choose|i: int| first_port_at(ports, id, i);
        assert(first_port_at(ports, id, i));
    }
    if exists|k: int| 0 <= k < ports.len() && (#[trigger] ports[k]).id == id {
        let k = choose|k: int| 0 <= k < ports.len() && (#[trigger] ports[k]).id == id;
        lemma_port_index_some_iff(ports, id, k);
    }
}

/// Fixed-capacity port table.
#[derive(Clone, Copy, Debug, PartialEq, Eq)]
pub struct PortTable<'a, const N: usize> {
    ports: [Option<PortDescriptor<'a>>; N],
    len: usize,
}

impl<'a, const N: usize> View for PortTable<'a, N> {
    type V = Seq<PortDescriptor<'a>>;

    /// The registered ports, in registration order.
    closed spec fn view(&self) -> Seq<PortDescriptor<'a>> {
        live_ports(self.ports@, self.len as nat)
    }
}

/// The ports held in the first `len` slots.
spec fn live_ports<'a>(slots: Seq<Option<PortDescriptor<'a>>>, len: nat) -> Seq<PortDescriptor<'a>> {
    Seq::new(len, |i: int| slots[i]->0)
}

impl<'a, const N: usize> PortTable<'a, N> {
    /// The first `len` slots are filled, the others are empty, and registered
    /// ports never share an identifier or a name.
    #[verifier::type_invariant]
    spec fn well_formed(self) -> bool {
        &&& self.len <= N
        &&& forall|i: int| 0 <= i < self.len ==> (#[trigger] self.ports@[i]) is Some
        &&& forall|i: int| self.len <= i < N ==> (#[trigger] self.ports@[i]) is None
        &&& ports_unique(self@)
    }

    /// Creates an empty port table.
    pub fn new() -> (table: Self)
        ensures
            table@ == Seq::<PortDescriptor<'a>>::empty(),
    {
        let table = PortTable { ports: [None;N], len: 0 };
        assert(table@ =~= Seq::<PortDescriptor<'a>>::empty());
        table
    }

    /// Returns registered port count.
    pub fn len(self) -> (count: usize)
        ensures
            count == self@.len(),
            count <= N,
    {
        proof {
            use_type_invariant(&self);
        }
        self.len
    }

    /// Returns `true` when no ports are registered.
    pub fn is_empty(self) -> (empty: bool)
        ensures
            empty == (self@.len() == 0),
    {
        self.len == 0
    }

    /// What `register` answers: a full table, then an invalid descriptor,
    /// then a duplicate identifier or name.
    pub open spec fn spec_register(self, descriptor: PortDescriptor<'a>) -> IpcResult<()> {
        if self@.len() >= N {
            Err(IpcError::CapacityExceeded)
        } else if descriptor.spec_validate() is Err {
            descriptor.spec_validate()
        } else if has_port_id(self@, descriptor.id) || has_port_name(self@, descriptor.name@) {
            Err(IpcError::DuplicatePort)
        } else {
            Ok(())
        }
    }

    /// Registers one port.
    pub fn register(&mut self, descriptor: PortDescriptor<'a>) -> (outcome: IpcResult<()>)
        ensures
            outcome == old(self).spec_register(descriptor),
            outcome is Ok ==> final(self)@ == old(self)@.push(descriptor),
            outcome is Err ==> *final(self) == *old(self),
            port_step(
                old(self)@,
                final(self)@,
                if outcome is Ok {
                    Some(descriptor)
                } else {
                    None
                },
            ),
            ports_unique(final(self)@),
            final(self)@.len() <= N,
    {
        proof {
            use_type_invariant(&*self);
        }
        if self.len >= N {
            return Err(IpcError::CapacityExceeded);
        }
        descriptor.validate()?;
        if self.contains_id(descriptor.id) {
            return Err(IpcError::DuplicatePort);
        }
        if self.contains_name(descriptor.name) {
            return Err(IpcError::DuplicatePort);
        }
        let ghost before = self@;
        let index = self.len;
        let mut ports = self.ports;
        ports[index] = Some(descriptor);
        assert(live_ports(ports@, (index + 1) as nat) =~= before.push(descriptor));
        *self = PortTable { ports, len: index + 1 };
        Ok(())
    }

    /// Returns `true` when an identifier is registered.
    pub fn contains_id(self, id: PortId) -> (found: bool)
        ensures
            found == has_port_id(self@, id),
    {
        let index = self.find_index(id);
        proof {
            if let Some(i) = index {
                assert(self@[i as int].id == id);
            }
        }
        index.is_some()
    }

    /// Returns `true` when a name is registered.
    pub fn contains_name(self, name: &str) -> (found: bool)
        ensures
            found == has_port_name(self@, name@),
    {
        proof {
            use_type_invariant(&self);
        }
        let mut index: usize = 0;
        while index < self.len
            invariant
                self.len <= N,
                index <= self.len,
                forall|i: int| 0 <= i < self.len ==> (#[trigger] self.ports@[i]) is Some,
                forall|j: int| 0 <= j < index ==> (#[trigger] self@[j]).name@ != name@,
            decreases self.len - index,
        {
            if let Some(port) = self.ports[index] {
                if same_text(port.name, name) {
                    assert(self@[index as int] == port);
                    return true;
                }
            }
            assert(self@[index as int].name@ != name@);
            index += 1;
        }
        false
    }

    /// Finds a port descriptor.
    pub fn get(self, id: PortId) -> (port: Option<PortDescriptor<'a>>)
        ensures
            port == port_lookup(self@, id),
    {
        proof {
            use_type_invariant(&self);
        }
        match self.find_index(id) {
            Some(index) => self.ports[index],
            None => None,
        }
    }

    /// What `open` answers.
    pub open spec fn spec_open(self, request: PortOpenRequest) -> IpcResult<PortDescriptor<'a>> {
        open_outcome(self@, request)
    }

    /// Applies a port open request and returns the descriptor.
    pub fn open(self, request: PortOpenRequest<'_>) -> (opened: IpcResult<PortDescriptor<'a>>)
        ensures
            opened == self.spec_open(request),
    {
        request.validate()?;
        let port = match self.get(request.port_id) {
            Some(port) => port,
            None => return Err(IpcError::PortNotFound),
        };
        port.validate()?;
        if !port.state.allows_connect() {
            return Err(IpcError::Closed);
        }
        request.rights.require(port.required_rights)?;
        Ok(port)
    }

    /// The table after `set_state`: the first port with identifier `id`
    /// takes `state`, all else is unchanged.
    pub open spec fn spec_set_state(self, id: PortId, state: PortState) -> Seq<PortDescriptor<'a>> {
        match port_index(self@, id) {
            Some(i) => self@.update(i, PortDescriptor { state, ..self@[i] }),
            None => self@,
        }
    }

    /// Updates port state.
    pub fn set_state(&mut self, id: PortId, state: PortState) -> (outcome: IpcResult<()>)
        ensures
            outcome == (if port_index(old(self)@, id) is Some {
                Ok(())
            } else {
                Err(IpcError::PortNotFound)
            }),
            final(self)@ == old(self).spec_set_state(id, state),
            outcome is Err ==> *final(self) == *old(self),
            port_step(old(self)@, final(self)@, None),
            ports_unique(final(self)@),
            final(self)@.len() <= N,
    {
        proof {
            use_type_invariant(&*self);
        }
        let index = match self.find_index(id) {
            Some(index) => index,
            None => return Err(IpcError::PortNotFound),
        };
        let mut port = match self.ports[index] {
            Some(port) => port,
            None => return Err(IpcError::Internal),
        };
        let ghost before = self@;
        port.state = state;
        let mut ports = self.ports;
        ports[index] = Some(port);
        assert(live_ports(ports@, self.len as nat) =~= before.update(
            index as int,
            PortDescriptor { state, ..before[index as int] },
        ));
        *self = PortTable { ports, len: self.len };
        Ok(())
    }

    fn find_index(self, id: PortId) -> (index: Option<usize>)
        ensures
            match index {
                Some(i) => port_index(self@, id) == Some(i as int) && i < self@.len(),
                None => port_index(self@, id) is None && !has_port_id(self@, id),
            },
    {
        proof {
            use_type_invariant(&self);
        }
        let mut index: usize = 0;
        while index < self.len
            invariant
                self.len <= N,
                index <= self.len,
                forall|i: int| 0 <= i < self.len ==> (#[trigger] self.ports@[i]) is Some,
                forall|j: int| 0 <= j < index ==> (#[trigger] self@[j]).id != id,
            decreases self.len - index,
        {
            if let Some(port) = self.ports[index] {
                if port.id == id {
                    assert(first_port_at(self@, id, index as int));
                    let ghost chosen = choose|i: int| first_port_at(self@, id, i);
                    assert(chosen == index as int) by {
                        if chosen < index as int {
                            assert(self@[chosen].id != id);
                        } else if chosen > index as int {
                            assert(self@[index as int].id != id);
                        }
                    }
                    return Some(index);
                }
            }
            assert(self@[index as int].id != id);
            index += 1;
        }
        assert(!exists|i: int| first_port_at(self@, id, i));
        None
    }
}

impl<'a, const N: usize> Default for PortTable<'a, N> {
    fn default() -> (table: Self)
        ensures
            table@ == Seq::<PortDescriptor<'a>>::empty(),
    {
        Self::new()
    }
}

/// After a successful registration the port can be looked up by its
/// identifier and its name, and registering it again is refused.
pub proof fn lemma_register_then_lookup<'a, const N: usize>(
    table: PortTable<'a, N>,
    after: PortTable<'a, N>,
    descriptor: PortDescriptor<'a>,
)
    requires
        table.spec_register(descriptor) is Ok,
        after@ == table@.push(descriptor),
    ensures
        port_lookup(after@, descriptor.id) == Some(descriptor),
        has_port_id(after@, descriptor.id),
        has_port_name(after@, descriptor.name@),
        after.spec_register(descriptor) is Err,
{
    let k = table@.len() as int;
    assert(after@[k] == descriptor);
    assert(first_port_at(after@, descriptor.id, k));
    let chosen = choose|i: int| first_port_at(after@, descriptor.id, i);
    assert(chosen == k);
}

/// One step of building a port table: `added` is the port that was
/// appended, if any; otherwise every port keeps its identifier and name.
pub open spec fn port_step<'a>(
    before: Seq<PortDescriptor<'a>>,
    after: Seq<PortDescriptor<'a>>,
    added: Option<PortDescriptor<'a>>,
) -> bool {
    match added {
        Some(port) => after == before.push(port),
        None => {
            &&& after.len() == before.len()
            &&& forall|i: int|
                0 <= i < before.len() ==> (#[trigger] after[i]).id == before[i].id && after[i].name@
                    == before[i].name@
        },
    }
}

/// A table made by `new` and then a series of `register` and `set_state`
/// calls holds, slot by slot, the identifiers and names of the ports whose
/// registration succeeded, in call order; so it knows a name or an
/// identifier exactly when an accepted port has it.
pub proof fn lemma_table_holds_accepted_ports<'a, const N: usize>(
    tables: Seq<PortTable<'a, N>>,
    added: Seq<Option<PortDescriptor<'a>>>,
)
    requires
        tables.len() == added.len() + 1,
        tables[0]@ == Seq::<PortDescriptor<'a>>::empty(),
        forall|i: int|
            0 <= i < added.len() ==> port_step(tables[i]@, tables[i + 1]@, #[trigger] added[i]),
    ensures
        tables.last()@.len() == accepted(added).len(),
        forall|i: int|
            0 <= i < accepted(added).len() ==> (#[trigger] tables.last()@[i]).id == accepted(
                added,
            )[i].id && tables.last()@[i].name@ == accepted(added)[i].name@,
        forall|name: Seq<char>|
            #[trigger] has_port_name(tables.last()@, name) <==> has_port_name(accepted(added), name),
        forall|id: PortId| #[trigger] has_port_id(tables.last()@, id) <==> has_port_id(accepted(added), id),
    decreases added.len(),
{
    let last = tables.last()@;
    let ports = accepted(added);
    if added.len() > 0 {
        let k = added.len() - 1;
        assert(port_step(tables[k]@, tables[k + 1]@, added[k]));
        lemma_table_holds_accepted_ports(tables.drop_last(), added.drop_last());
        assert(tables.drop_last().last() == tables[k]);
        assert forall|i: int| 0 <= i < ports.len() implies (#[trigger] last[i]).id == ports[i].id
            && last[i].name@ == ports[i].name@ by {
            if i < tables[k]@.len() {
                assert(tables[k]@[i].id == accepted(added.drop_last())[i].id);
            }
        }
    }
    assert forall|name: Seq<char>| #[trigger] has_port_name(last, name) implies has_port_name(ports, name) by {
        let i = choose|i: int| 0 <= i < last.len() && (#[trigger] last[i]).name@ == name;
        assert(ports[i].name@ == name);
    }
    assert forall|name: Seq<char>| #[trigger] has_port_name(ports, name) implies has_port_name(last, name) by {
        let i = choose|i: int| 0 <= i < ports.len() && (#[trigger] ports[i]).name@ == name;
        assert(last[i].name@ == name);
    }
    assert forall|id: PortId| #[trigger] has_port_id(last, id) implies has_port_id(ports, id) by {
        let i = choose|i: int| 0 <= i < last.len() && (#[trigger] last[i]).id == id;
        assert(ports[i].id == id);
    }
    assert forall|id: PortId| #[trigger] has_port_id(ports, id) implies has_port_id(last, id) by {
        let i = choose|i: int| 0 <= i < ports.len() && (#[trigger] ports[i]).id == id;
        assert(last[i].id == id);
    }
}

/// A port descriptor is accepted exactly when its identifier and owner are
/// set, its name is non-empty and at most `MAX_PORT_NAME_LEN` bytes long, its
/// required rights have no reserved bit, its message limit lies between 1
/// and `MAX_MESSAGE_BYTES`, its queue depth is positive, and it is neither
/// closed nor faulted.
pub proof fn lemma_port_descriptor_valid_iff(port: PortDescriptor)
    ensures
        port.spec_validate() is Ok <==> {
            &&& port.id.0 != 0 && port.owner != 0
            &&& port.name@.len() > 0 && port.name.len() <= MAX_PORT_NAME_LEN
            &&& port.required_rights.0 & !IPC_KNOWN_RIGHTS == 0
            &&& 0 < port.max_message_len <= MAX_MESSAGE_BYTES
            &&& port.queue_depth > 0
            &&& port.state != PortState::Closed && port.state != PortState::Faulted
        },
{
}

/// An open request is accepted exactly when it names a port, its principal
/// is non-empty and at most `MAX_PORT_NAME_LEN` bytes long, its rights have
/// no reserved bit and include the connect right, and its trace is valid.
pub proof fn lemma_open_request_valid_iff(request: PortOpenRequest)
    ensures
        request.spec_validate() is Ok <==> {
            &&& request.port_id.0 != 0
            &&& request.principal@.len() > 0 && request.principal.len() <= MAX_PORT_NAME_LEN
            &&& request.rights.0 & !IPC_KNOWN_RIGHTS == 0
            &&& request.rights.0 & IPC_RIGHT_CONNECT == IPC_RIGHT_CONNECT
            &&& request.trace.spec_validate() is Ok
        },
{
}

/// Registration succeeds exactly when the table has room, the descriptor is
/// valid, and no registered port has its identifier or its name.
pub proof fn lemma_register_iff<'a, const N: usize>(table: PortTable<'a, N>, port: PortDescriptor<'a>)
    ensures
        table.spec_register(port) is Ok <==> {
            &&& table@.len() < N
            &&& port.spec_validate() is Ok
            &&& forall|i: int|
                0 <= i < table@.len() ==> (#[trigger] table@[i]).id != port.id && table@[i].name@
                    != port.name@
        },
{
    if table.spec_register(port) is Ok {
        assert forall|i: int| 0 <= i < table@.len() implies (#[trigger] table@[i]).id != port.id
            && table@[i].name@ != port.name@ by {
            if table@[i].id == port.id {
                assert(has_port_id(table@, port.id));
            }
            if table@[i].name@ == port.name@ {
                assert(has_port_name(table@, port.name@));
            }
        }
    }
}

/// Opening answers with the earliest registered port of the requested
/// identifier, and does so exactly when the request is valid, that port is
/// valid and accepts connections (bound, listening or connected), and the
/// caller's rights include every right the port requires: holding more
/// rights than required never refuses an open.
pub proof fn lemma_open_iff<'a>(ports: Seq<PortDescriptor<'a>>, request: PortOpenRequest, i: int)
    requires
        0 <= i < ports.len(),
        ports[i].id == request.port_id,
        forall|j: int| 0 <= j < i ==> (#[trigger] ports[j]).id != request.port_id,
    ensures
        open_outcome(ports, request) is Ok <==> {
            &&& request.spec_validate() is Ok
            &&& ports[i].spec_validate() is Ok
            &&& (ports[i].state == PortState::Bound || ports[i].state == PortState::Listening
                || ports[i].state == PortState::Connected)
            &&& request.rights.0 & ports[i].required_rights.0 == ports[i].required_rights.0
        },
        open_outcome(ports, request) is Ok ==> open_outcome(ports, request) == Ok::<
            PortDescriptor<'a>,
            IpcError,
        >(ports[i]),
{
    assert(first_port_at(ports, request.port_id, i));
    let chosen = choose|k: int| first_port_at(ports, request.port_id, k);
    assert(chosen == i) by {
        if chosen < i {
            assert(ports[chosen].id != request.port_id);
        } else if chosen > i {
            assert(ports[i].id != request.port_id);
        }
    }
}

/// Without a port of the requested identifier, a valid request is refused
/// with `PortNotFound`.
pub proof fn lemma_open_missing_port<'a>(ports: Seq<PortDescriptor<'a>>, request: PortOpenRequest)
    requires
        request.spec_validate() is Ok,
        forall|j: int| 0 <= j < ports.len() ==> (#[trigger] ports[j]).id != request.port_id,
    ensures
        open_outcome(ports, request) == Err::<PortDescriptor<'a>, IpcError>(IpcError::PortNotFound),
{
}

/// Opening fails closed: an opened port is the registered port with the
/// requested identifier, it validates and accepts connections, and the
/// caller's rights have no reserved bits and hold both the connect right and
/// the port's required rights.
pub proof fn lemma_open_fails_closed<'a>(ports: Seq<PortDescriptor<'a>>, request: PortOpenRequest)
    requires
        open_outcome(ports, request) is Ok,
    ensures
        ({
            let port = open_outcome(ports, request)->Ok_0;
            &&& port_lookup(ports, request.port_id) == Some(port)
            &&& port.id == request.port_id
            &&& ports.contains(port)
            &&& port.spec_validate() is Ok
            &&& port.state.spec_allows_connect()
            &&& known_rights(request.rights.0)
            &&& request.rights.spec_contains(IpcRights(IPC_RIGHT_CONNECT))
            &&& request.rights.spec_contains(port.required_rights)
        }),
{
    let i = choose|i: int| first_port_at(ports, request.port_id, i);
    assert(ports[i] == port_lookup(ports, request.port_id)->Some_0);
}

/// Once a port has been set to a closed or faulted state, opening it fails.
pub proof fn lemma_closed_port_refuses_open<'a, const N: usize>(
    table: PortTable<'a, N>,
    request: PortOpenRequest,
    state: PortState,
)
    requires
        state == PortState::Closed || state == PortState::Faulted,
    ensures
        open_outcome(table.spec_set_state(request.port_id, state), request) is Err,
{
    let id = request.port_id;
    let after = table.spec_set_state(id, state);
    match port_index(table@, id) {
        Some(i) => {
            let pick = choose|k: int| first_port_at(table@, id, k);
            assert(first_port_at(table@, id, pick));
            assert(first_port_at(after, id, pick));
            let chosen = choose|k: int| first_port_at(after, id, k);
            assert(chosen == pick) by {
                if chosen < pick {
                    assert(after[chosen].id != id);
                } else if chosen > pick {
                    assert(after[pick].id == id);
                }
            }
        },
        None => {
            assert(after == table@);
        },
    }
}

} // verus!
