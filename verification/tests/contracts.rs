use alani_ipc::{
    component_info, repository_name, ChannelDescriptor, ChannelId, ChannelState, DataClass,
    DeliveryMode, EventKind, EventQueue, IpcCatalog, IpcError, IpcEvent, IpcRights, IpcRouter,
    MemoryAccess, MemoryGrant, MemoryMapIntent, MessageEnvelope, MessageHeader, MessageKind,
    PayloadDescriptor, PortDescriptor, PortId, PortKind, PortOpenRequest, PortState, PortTable,
    QueueDescriptor, QueuePolicy, QueueStatus, RedactionState, RouteDecision, RouteDescriptor,
    RouteRule, RouteState, SharedMemoryDescriptor, SharedMemoryHandle, SharedMemoryRegion,
    SharedMemoryState, TraceContext, WaitReason, IPC_KNOWN_RIGHTS, IPC_RIGHT_ADMIN,
    IPC_RIGHT_CONNECT, IPC_RIGHT_RECEIVE, IPC_RIGHT_ROUTE, IPC_RIGHT_SEAL, IPC_RIGHT_SEND,
    IPC_RIGHT_SHARE_MEMORY, IPC_RIGHT_SIGNAL, MAX_MESSAGE_BYTES, MAX_SHARED_MEMORY_LEN,
    MESSAGE_FLAG_SHARED_MEMORY, TRACE_FLAG_DEBUG, TRACE_FLAG_SAMPLED,
};

fn bits(bits: u64) -> IpcRights {
    IpcRights::from_bits(bits).unwrap()
}

fn long_name() -> String {
    "x".repeat(97)
}

fn open_channel() -> ChannelDescriptor<'static> {
    ChannelDescriptor::new(ChannelId::new(7), "runtime-to-kernel", PortId::new(1), PortId::new(2))
        .with_state(ChannelState::Open)
}

fn connected(id: u64, name: &'static str) -> PortDescriptor<'static> {
    PortDescriptor::new(PortId::new(id), name, 10, PortKind::Runtime).with_state(PortState::Connected)
}

fn request_envelope(kind: MessageKind) -> MessageEnvelope<'static> {
    let header = MessageHeader::new(100, PortId::new(1), PortId::new(2), kind)
        .with_trace(TraceContext::root(44, 1));
    let mut envelope = MessageEnvelope::new(header, "sys_task_spawn");
    envelope.push_payload(PayloadDescriptor::inline(0, 32)).unwrap();
    envelope
}

fn event(sequence: u64) -> IpcEvent {
    IpcEvent::message(sequence, PortId::new(1), ChannelId::new(7), 100 + sequence)
}

#[test]
fn error_reasons_are_stable_labels() {
    let expected = [
        (IpcError::MissingField, "missing_field", false),
        (IpcError::FieldTooLong, "field_too_long", false),
        (IpcError::ReservedBits, "reserved_bits", true),
        (IpcError::InvalidPort, "invalid_port", false),
        (IpcError::DuplicatePort, "duplicate_port", false),
        (IpcError::PortNotFound, "port_not_found", false),
        (IpcError::InvalidChannel, "invalid_channel", false),
        (IpcError::DuplicateChannel, "duplicate_channel", false),
        (IpcError::InvalidMessage, "invalid_message", false),
        (IpcError::PayloadTooLarge, "payload_too_large", true),
        (IpcError::InvalidSharedMemory, "invalid_shared_memory", true),
        (IpcError::NotSealed, "not_sealed", true),
        (IpcError::Revoked, "revoked", true),
        (IpcError::InvalidRoute, "invalid_route", true),
        (IpcError::DuplicateRoute, "duplicate_route", false),
        (IpcError::RouteNotFound, "route_not_found", false),
        (IpcError::AccessDenied, "access_denied", true),
        (IpcError::CapacityExceeded, "capacity_exceeded", false),
        (IpcError::WouldBlock, "would_block", false),
        (IpcError::Closed, "closed", false),
        (IpcError::DeadlineExceeded, "deadline_exceeded", false),
        (IpcError::InvalidTrace, "invalid_trace", true),
        (IpcError::SensitiveData, "sensitive_data", true),
        (IpcError::Internal, "internal", false),
    ];
    for (error, label, security) in expected {
        assert_eq!(error.reason(), label);
        assert_eq!(error.is_security_relevant(), security);
    }
}

#[test]
fn rights_algebra_and_reserved_bits() {
    assert_eq!(IpcRights::from_bits(IPC_KNOWN_RIGHTS), Ok(IpcRights(0x1ff)));
    assert_eq!(IpcRights::from_bits(1 << 9), Err(IpcError::ReservedBits));
    assert_eq!(IpcRights::empty().bits(), 0);
    assert_eq!(IpcRights::connect(), IpcRights(IPC_RIGHT_CONNECT));
    assert_eq!(IpcRights::send().bits(), 2);
    assert_eq!(IpcRights::receive().bits(), 4);
    assert_eq!(IpcRights::share_memory().bits(), 8);
    assert_eq!(IpcRights::route().bits(), 16);
    assert_eq!(IpcRights::admin().bits(), 32);
    assert_eq!(IpcRights::observe().bits(), 64);
    assert_eq!(IpcRights::seal().bits(), 128);
    assert_eq!(IpcRights::signal().bits(), 256);

    let send = IpcRights::send();
    let route = IpcRights::route();
    let both = send.union(route);
    assert_eq!(both, IpcRights(IPC_RIGHT_SEND | IPC_RIGHT_ROUTE));
    assert!(both.contains(send));
    assert!(both.contains(route));
    assert!(both.contains(both));
    assert!(both.contains(IpcRights::empty()));
    assert!(!send.contains(both));
    assert_eq!(both.require(send), Ok(()));
    assert_eq!(send.require(both), Err(IpcError::AccessDenied));
    assert_eq!(IpcRights(1 << 40).require(IpcRights::empty()), Err(IpcError::ReservedBits));
}

#[test]
fn data_classes_and_redaction_states() {
    assert_eq!(DataClass::Public.label(), "public");
    assert_eq!(DataClass::Operational.label(), "operational");
    assert_eq!(DataClass::Sensitive.label(), "sensitive");
    assert_eq!(DataClass::Secret.label(), "secret");
    assert!(!DataClass::Public.requires_redaction());
    assert!(!DataClass::Operational.requires_redaction());
    assert!(DataClass::Sensitive.requires_redaction());
    assert!(DataClass::Secret.requires_redaction());

    assert_eq!(RedactionState::Public.label(), "public");
    assert_eq!(RedactionState::Operational.label(), "operational");
    assert_eq!(RedactionState::SensitiveRedacted.label(), "sensitive_redacted");
    assert_eq!(RedactionState::SecretRedacted.label(), "secret_redacted");
    assert_eq!(RedactionState::Unredacted.label(), "unredacted");

    let classes = [DataClass::Public, DataClass::Operational, DataClass::Sensitive, DataClass::Secret];
    for class in classes {
        assert!(RedactionState::SecretRedacted.satisfies(class));
        assert_eq!(RedactionState::Unredacted.satisfies(class), !class.requires_redaction());
    }
    assert!(RedactionState::SensitiveRedacted.satisfies(DataClass::Sensitive));
    assert!(!RedactionState::SensitiveRedacted.satisfies(DataClass::Secret));
    assert!(!RedactionState::Public.satisfies(DataClass::Sensitive));
}

#[test]
fn trace_contexts_propagate_and_validate() {
    let root = TraceContext::root(5, 6);
    assert_eq!(
        root,
        TraceContext { trace_id: 5, span_id: 6, parent_span_id: 0, flags: TRACE_FLAG_SAMPLED }
    );
    let child = root.child(9);
    assert_eq!(child.trace_id, 5);
    assert_eq!(child.span_id, 9);
    assert_eq!(child.parent_span_id, 6);
    assert_eq!(child.flags, TRACE_FLAG_SAMPLED);
    assert_eq!(child.validate(), Ok(()));

    let empty = TraceContext::empty();
    assert!(!empty.is_present());
    assert_eq!(empty.validate(), Ok(()));
    assert_eq!(TraceContext::root(0, 0).validate(), Ok(()));
    assert_eq!(root.child(0).validate(), Err(IpcError::InvalidTrace));
    let orphan = TraceContext { trace_id: 0, span_id: 0, parent_span_id: 3, flags: 0 };
    assert!(orphan.is_present());
    assert_eq!(orphan.validate(), Err(IpcError::InvalidTrace));
    let flagged = TraceContext { flags: TRACE_FLAG_DEBUG | 4, ..root };
    assert_eq!(flagged.validate(), Err(IpcError::ReservedBits));
}

#[test]
fn catalog_and_identity_metadata() {
    let info = component_info();
    assert_eq!(info.version, "0.1.0");
    assert_eq!(repository_name(), "alani-ipc");
    let catalog = IpcCatalog::current();
    assert_eq!(catalog.known_rights, IPC_KNOWN_RIGHTS);
    assert_eq!(catalog.max_message_bytes, 65536);
    assert_eq!(catalog.max_shared_memory_len, 16 * 1024 * 1024);
    assert_eq!(IpcCatalog { repository: "", ..catalog }.validate(), Err(IpcError::MissingField));
    assert_eq!(IpcCatalog { version: "", ..catalog }.validate(), Err(IpcError::MissingField));
    assert_eq!(IpcCatalog { features: 1 << 6, ..catalog }.validate(), Err(IpcError::ReservedBits));
    assert_eq!(IpcCatalog { known_rights: 1 << 9, ..catalog }.validate(), Err(IpcError::ReservedBits));
    assert_eq!(IpcCatalog { max_message_bytes: 0, ..catalog }.validate(), Err(IpcError::InvalidMessage));
    assert_eq!(
        IpcCatalog { max_shared_memory_len: 0, ..catalog }.validate(),
        Err(IpcError::InvalidMessage)
    );
}

#[test]
fn port_labels_states_and_defaults() {
    assert_eq!(PortId::invalid(), PortId(0));
    assert_eq!(PortId::new(4).raw(), 4);
    assert_eq!(PortId::new(0).validate(), Err(IpcError::InvalidPort));
    assert_eq!(PortId::new(1).validate(), Ok(()));

    let kinds = [
        (PortKind::Kernel, "kernel", true),
        (PortKind::Runtime, "runtime", false),
        (PortKind::Agent, "agent", false),
        (PortKind::Service, "service", false),
        (PortKind::Device, "device", true),
        (PortKind::Audit, "audit", true),
        (PortKind::Debug, "debug", true),
    ];
    for (kind, label, audited) in kinds {
        assert_eq!(kind.label(), label);
        assert_eq!(kind.audit_relevant(), audited);
        assert_eq!(PortDescriptor::new(PortId::new(1), "p", 1, kind).audit_required, audited);
    }

    let states = [
        (PortState::Created, "created", false, false),
        (PortState::Bound, "bound", true, false),
        (PortState::Listening, "listening", true, true),
        (PortState::Connected, "connected", true, true),
        (PortState::Draining, "draining", false, false),
        (PortState::Closed, "closed", false, false),
        (PortState::Faulted, "faulted", false, false),
    ];
    for (state, label, connect, message) in states {
        assert_eq!(state.label(), label);
        assert_eq!(state.allows_connect(), connect);
        assert_eq!(state.allows_message(), message);
    }

    let port = PortDescriptor::new(PortId::new(3), "svc", 7, PortKind::Service);
    assert_eq!(port.state, PortState::Bound);
    assert_eq!(port.required_rights, IpcRights::connect());
    assert_eq!(port.max_message_len, MAX_MESSAGE_BYTES);
    assert_eq!(port.queue_depth, 16);
    assert_eq!(port.data_class, DataClass::Operational);
    let tuned = port.with_limits(512, 4).with_data_class(DataClass::Sensitive);
    assert_eq!(tuned.max_message_len, 512);
    assert_eq!(tuned.queue_depth, 4);
    assert_eq!(tuned.data_class, DataClass::Sensitive);
    assert_eq!(tuned.name, "svc");
}

#[test]
fn port_descriptor_validation_errors() {
    let name = long_name();
    let port = PortDescriptor::new(PortId::new(3), "svc", 7, PortKind::Service);
    assert_eq!(port.validate(), Ok(()));
    assert_eq!(PortDescriptor { id: PortId(0), ..port }.validate(), Err(IpcError::InvalidPort));
    assert_eq!(PortDescriptor { name: "", ..port }.validate(), Err(IpcError::MissingField));
    assert_eq!(PortDescriptor { owner: 0, ..port }.validate(), Err(IpcError::MissingField));
    assert_eq!(PortDescriptor { name: &name, ..port }.validate(), Err(IpcError::FieldTooLong));
    assert_eq!(
        port.with_required_rights(IpcRights(1 << 12)).validate(),
        Err(IpcError::ReservedBits)
    );
    assert_eq!(port.with_limits(0, 4).validate(), Err(IpcError::InvalidPort));
    assert_eq!(port.with_limits(MAX_MESSAGE_BYTES + 1, 4).validate(), Err(IpcError::InvalidPort));
    assert_eq!(port.with_limits(16, 0).validate(), Err(IpcError::InvalidPort));
    assert_eq!(port.with_state(PortState::Faulted).validate(), Err(IpcError::Closed));
    assert_eq!(port.with_state(PortState::Draining).validate(), Ok(()));
}

#[test]
fn port_open_requests_validate() {
    let name = long_name();
    let request = PortOpenRequest::new(PortId::new(2), "task", IpcRights::connect());
    assert_eq!(request.trace, TraceContext::empty());
    assert_eq!(request.validate(), Ok(()));
    assert_eq!(PortOpenRequest { port_id: PortId(0), ..request }.validate(), Err(IpcError::InvalidPort));
    assert_eq!(PortOpenRequest { principal: "", ..request }.validate(), Err(IpcError::MissingField));
    assert_eq!(PortOpenRequest { principal: &name, ..request }.validate(), Err(IpcError::FieldTooLong));
    assert_eq!(
        PortOpenRequest { rights: IpcRights::send(), ..request }.validate(),
        Err(IpcError::AccessDenied)
    );
    assert_eq!(
        PortOpenRequest { rights: IpcRights(1 << 20), ..request }.validate(),
        Err(IpcError::ReservedBits)
    );
    assert_eq!(
        request.with_trace(TraceContext::root(0, 5)).validate(),
        Err(IpcError::InvalidTrace)
    );
}

#[test]
fn port_table_capacity_lookup_and_state() {
    let mut table = PortTable::<2>::default();
    assert!(table.is_empty());
    let a = connected(1, "a");
    let b = connected(2, "b");
    let c = connected(3, "c");
    assert_eq!(table.register(PortDescriptor { owner: 0, ..a }), Err(IpcError::MissingField));
    assert!(table.is_empty());
    assert_eq!(table.register(a), Ok(()));
    assert_eq!(table.register(PortDescriptor { id: PortId(9), ..a }), Err(IpcError::DuplicatePort));
    assert_eq!(table.register(b), Ok(()));
    assert_eq!(table.register(c), Err(IpcError::CapacityExceeded));
    assert_eq!(table.len(), 2);
    assert!(table.contains_id(PortId::new(2)));
    assert!(!table.contains_id(PortId::new(3)));
    assert!(table.contains_name("a"));
    assert!(!table.contains_name("c"));
    assert_eq!(table.get(PortId::new(1)), Some(a));
    assert_eq!(table.get(PortId::new(3)), None);

    let request = PortOpenRequest::new(PortId::new(3), "task", IpcRights::connect());
    assert_eq!(table.open(request), Err(IpcError::PortNotFound));
    assert_eq!(
        table.open(PortOpenRequest { principal: "", ..request }),
        Err(IpcError::MissingField)
    );
    assert_eq!(table.open(PortOpenRequest { port_id: PortId(1), ..request }), Ok(a));

    assert_eq!(table.set_state(PortId::new(3), PortState::Closed), Err(IpcError::PortNotFound));
    assert_eq!(table.set_state(PortId::new(1), PortState::Draining), Ok(()));
    assert_eq!(table.get(PortId::new(1)).unwrap().state, PortState::Draining);
    assert_eq!(table.get(PortId::new(2)), Some(b));
    assert_eq!(
        table.open(PortOpenRequest { port_id: PortId(1), ..request }),
        Err(IpcError::Closed)
    );
}

#[test]
fn channel_labels_rights_and_defaults() {
    assert_eq!(ChannelId::invalid(), ChannelId(0));
    assert_eq!(ChannelId::new(0).validate(), Err(IpcError::InvalidChannel));
    assert_eq!(ChannelId::new(8).raw(), 8);
    assert_eq!(MessageKind::Request.label(), "request");
    assert_eq!(MessageKind::Response.label(), "response");
    assert_eq!(MessageKind::Event.label(), "event");
    assert_eq!(MessageKind::Signal.label(), "signal");
    assert_eq!(MessageKind::Control.label(), "control");
    assert_eq!(MessageKind::Request.required_rights(), IpcRights::send());
    assert_eq!(MessageKind::Event.required_rights(), IpcRights::send());
    assert_eq!(
        MessageKind::Signal.required_rights(),
        IpcRights(IPC_RIGHT_SEND | IPC_RIGHT_SIGNAL)
    );
    assert_eq!(
        MessageKind::Control.required_rights(),
        IpcRights(IPC_RIGHT_SEND | IPC_RIGHT_ADMIN)
    );
    assert_eq!(DeliveryMode::BestEffort.label(), "best_effort");
    assert_eq!(DeliveryMode::Reliable.label(), "reliable");
    assert_eq!(DeliveryMode::Rendezvous.label(), "rendezvous");
    let states = [
        (ChannelState::Created, "created"),
        (ChannelState::Bound, "bound"),
        (ChannelState::Open, "open"),
        (ChannelState::Draining, "draining"),
        (ChannelState::Closed, "closed"),
        (ChannelState::Faulted, "faulted"),
    ];
    for (state, label) in states {
        assert_eq!(state.label(), label);
        assert_eq!(state.allows_send(), state == ChannelState::Open);
    }

    let channel = ChannelDescriptor::new(ChannelId::new(7), "c", PortId::new(1), PortId::new(2));
    assert_eq!(channel.mode, DeliveryMode::Reliable);
    assert_eq!(channel.state, ChannelState::Bound);
    assert_eq!(channel.send_rights, IpcRights::send());
    assert_eq!(channel.receive_rights, IpcRights(IPC_RIGHT_RECEIVE));
    assert_eq!(channel.max_message_len, MAX_MESSAGE_BYTES);
    assert_eq!(channel.queue_capacity, 16);
    assert!(channel.audit_required);
    let tuned = channel.with_mode(DeliveryMode::Rendezvous).with_limits(64, 2);
    assert_eq!(tuned.mode, DeliveryMode::Rendezvous);
    assert_eq!(tuned.max_message_len, 64);
    assert_eq!(tuned.queue_capacity, 2);
}

#[test]
fn channel_descriptor_validation_errors() {
    let name = long_name();
    let channel = open_channel();
    assert_eq!(channel.validate(), Ok(()));
    assert_eq!(ChannelDescriptor { id: ChannelId(0), ..channel }.validate(), Err(IpcError::InvalidChannel));
    assert_eq!(ChannelDescriptor { source: PortId(0), ..channel }.validate(), Err(IpcError::InvalidPort));
    assert_eq!(ChannelDescriptor { target: PortId(0), ..channel }.validate(), Err(IpcError::InvalidPort));
    assert_eq!(ChannelDescriptor { name: "", ..channel }.validate(), Err(IpcError::MissingField));
    assert_eq!(ChannelDescriptor { name: &name, ..channel }.validate(), Err(IpcError::FieldTooLong));
    assert_eq!(
        channel.with_rights(IpcRights(1 << 30), IpcRights::receive()).validate(),
        Err(IpcError::ReservedBits)
    );
    assert_eq!(
        channel.with_rights(IpcRights::send(), IpcRights(1 << 30)).validate(),
        Err(IpcError::ReservedBits)
    );
    assert_eq!(channel.with_limits(0, 1).validate(), Err(IpcError::InvalidChannel));
    assert_eq!(channel.with_limits(MAX_MESSAGE_BYTES + 1, 1).validate(), Err(IpcError::InvalidChannel));
    assert_eq!(channel.with_limits(16, 0).validate(), Err(IpcError::InvalidChannel));
    assert_eq!(channel.with_state(ChannelState::Faulted).validate(), Err(IpcError::Closed));
}

#[test]
fn payloads_and_headers_validate() {
    let inline = PayloadDescriptor::inline(8, 16);
    assert_eq!(inline, PayloadDescriptor { offset: 8, len: 16, shared_memory: SharedMemoryHandle(0) });
    assert!(!inline.uses_shared_memory());
    let shared = PayloadDescriptor::shared(SharedMemoryHandle::new(5), 64);
    assert_eq!(shared.offset, 0);
    assert!(shared.uses_shared_memory());
    assert_eq!(shared.validate(), Ok(()));
    assert_eq!(PayloadDescriptor::inline(0, 0).validate(), Err(IpcError::InvalidMessage));
    assert_eq!(PayloadDescriptor::inline(0, 65537).validate(), Err(IpcError::PayloadTooLarge));
    assert_eq!(PayloadDescriptor::inline(0, 65536).validate(), Ok(()));

    let header = MessageHeader::new(1, PortId::new(1), PortId::new(2), MessageKind::Event);
    assert_eq!(header.correlation_id, 0);
    assert_eq!(header.priority, 0);
    assert_eq!(header.trace, TraceContext::empty());
    assert_eq!(header.validate(), Ok(()));
    let tuned = header.with_priority(3).with_correlation(8);
    assert_eq!((tuned.priority, tuned.correlation_id), (3, 8));
    assert_eq!(MessageHeader { message_id: 0, ..header }.validate(), Err(IpcError::InvalidMessage));
    assert_eq!(MessageHeader { source: PortId(0), ..header }.validate(), Err(IpcError::InvalidPort));
    assert_eq!(MessageHeader { target: PortId(0), ..header }.validate(), Err(IpcError::InvalidPort));
    assert_eq!(header.with_flags(1 << 4).validate(), Err(IpcError::ReservedBits));
    assert_eq!(
        header.with_payload(MAX_MESSAGE_BYTES + 1, DataClass::Public, RedactionState::Public).validate(),
        Err(IpcError::PayloadTooLarge)
    );
    assert_eq!(
        header.with_payload(1, DataClass::Secret, RedactionState::SensitiveRedacted).validate(),
        Err(IpcError::SensitiveData)
    );
    assert_eq!(
        header.with_trace(TraceContext::root(3, 0)).validate(),
        Err(IpcError::InvalidTrace)
    );
}

#[test]
fn envelopes_hold_four_payloads_and_track_length() {
    let header = MessageHeader::new(1, PortId::new(1), PortId::new(2), MessageKind::Event);
    let mut envelope = MessageEnvelope::new(header, "topic");
    assert!(envelope.is_empty());
    assert_eq!(envelope.validate(), Ok(()));
    assert_eq!(envelope.push_payload(PayloadDescriptor::inline(0, 0)), Err(IpcError::InvalidMessage));
    assert!(envelope.is_empty());
    assert_eq!(envelope.push_payload(PayloadDescriptor::inline(0, 10)), Ok(()));
    assert_eq!(envelope.header.flags & MESSAGE_FLAG_SHARED_MEMORY, 0);
    assert_eq!(
        envelope.push_payload(PayloadDescriptor::shared(SharedMemoryHandle::new(9), 20)),
        Ok(())
    );
    assert_eq!(envelope.header.flags, MESSAGE_FLAG_SHARED_MEMORY);
    assert_eq!(envelope.push_payload(PayloadDescriptor::inline(10, 30)), Ok(()));
    assert_eq!(envelope.push_payload(PayloadDescriptor::inline(40, 40)), Ok(()));
    assert_eq!(
        envelope.push_payload(PayloadDescriptor::inline(80, 1)),
        Err(IpcError::CapacityExceeded)
    );
    assert_eq!(envelope.len(), 4);
    assert_eq!(envelope.header.payload_len, 100);
    assert_eq!(envelope.payload(1), Some(PayloadDescriptor::shared(SharedMemoryHandle::new(9), 20)));
    assert_eq!(envelope.payload(4), None);
    assert_eq!(envelope.validate(), Ok(()));

    let mut skewed = envelope;
    skewed.header.payload_len = 99;
    assert_eq!(skewed.validate(), Err(IpcError::InvalidMessage));
    assert_eq!(MessageEnvelope { topic: "", ..envelope }.validate(), Err(IpcError::MissingField));
    let name = long_name();
    assert_eq!(MessageEnvelope { topic: &name, ..envelope }.validate(), Err(IpcError::FieldTooLong));
}

#[test]
fn envelopes_validate_against_channels() {
    let channel = open_channel();
    let send = IpcRights::send();
    let envelope = request_envelope(MessageKind::Request);
    assert_eq!(envelope.validate_for_channel(channel, send), Ok(()));
    assert_eq!(
        envelope.validate_for_channel(channel.with_state(ChannelState::Bound), send),
        Err(IpcError::Closed)
    );
    assert_eq!(
        envelope.validate_for_channel(ChannelDescriptor { target: PortId(5), ..channel }, send),
        Err(IpcError::InvalidChannel)
    );
    assert_eq!(
        envelope.validate_for_channel(channel.with_limits(16, 1), send),
        Err(IpcError::PayloadTooLarge)
    );
    assert_eq!(
        envelope.validate_for_channel(channel, IpcRights(1 << 33)),
        Err(IpcError::ReservedBits)
    );
    assert_eq!(
        envelope.validate_for_channel(ChannelDescriptor { id: ChannelId(0), ..channel }, send),
        Err(IpcError::InvalidChannel)
    );
    let signal = request_envelope(MessageKind::Signal);
    assert_eq!(signal.validate_for_channel(channel, send), Err(IpcError::AccessDenied));
    assert_eq!(signal.validate_for_channel(channel, bits(IPC_RIGHT_SEND | IPC_RIGHT_SIGNAL)), Ok(()));
}

#[test]
fn shared_memory_lifecycle_and_labels() {
    assert_eq!(SharedMemoryHandle::invalid().validate(), Err(IpcError::InvalidSharedMemory));
    assert_eq!(SharedMemoryHandle::new(3).raw(), 3);
    assert_eq!(MemoryAccess::Read.label(), "read");
    assert_eq!(MemoryAccess::Write.label(), "write");
    assert_eq!(MemoryAccess::ReadWrite.label(), "read_write");
    assert!(MemoryAccess::Read.allows_read() && !MemoryAccess::Read.allows_write());
    assert!(!MemoryAccess::Write.allows_read() && MemoryAccess::Write.allows_write());
    assert!(MemoryAccess::ReadWrite.allows_read() && MemoryAccess::ReadWrite.allows_write());
    let states = [
        (SharedMemoryState::Created, "created", false),
        (SharedMemoryState::Mapped, "mapped", false),
        (SharedMemoryState::Pinned, "pinned", false),
        (SharedMemoryState::Sealed, "sealed", true),
        (SharedMemoryState::Transferred, "transferred", true),
        (SharedMemoryState::Revoked, "revoked", false),
    ];
    for (state, label, transfer) in states {
        assert_eq!(state.label(), label);
        assert_eq!(state.allows_transfer(), transfer);
    }
    assert_eq!(MemoryMapIntent::Payload.label(), "payload");
    assert_eq!(MemoryMapIntent::Response.label(), "response");
    assert_eq!(MemoryMapIntent::CognitiveBuffer.label(), "cognitive_buffer");
    assert_eq!(MemoryMapIntent::AuditEvidence.label(), "audit_evidence");

    let region = SharedMemoryRegion::new(SharedMemoryHandle::new(4), PortId::new(1), 64, MemoryAccess::Read);
    assert_eq!(region.state, SharedMemoryState::Created);
    assert_eq!(region.rights, bits(IPC_RIGHT_SHARE_MEMORY | IPC_RIGHT_SEAL));
    assert_eq!(region.generation, 1);
    assert_eq!(region.validate_basic(), Ok(()));
    assert_eq!(
        SharedMemoryRegion { handle: SharedMemoryHandle(0), ..region }.validate_basic(),
        Err(IpcError::InvalidSharedMemory)
    );
    assert_eq!(SharedMemoryRegion { owner: PortId(0), ..region }.validate_basic(), Err(IpcError::InvalidPort));
    assert_eq!(SharedMemoryRegion { len: 0, ..region }.validate_basic(), Err(IpcError::InvalidSharedMemory));
    assert_eq!(
        SharedMemoryRegion { len: MAX_SHARED_MEMORY_LEN + 1, ..region }.validate_basic(),
        Err(IpcError::PayloadTooLarge)
    );
    assert_eq!(
        SharedMemoryRegion { generation: 0, ..region }.validate_basic(),
        Err(IpcError::InvalidSharedMemory)
    );
    assert_eq!(region.with_rights(IpcRights::seal()).validate_basic(), Err(IpcError::AccessDenied));
    assert_eq!(
        region.with_class(DataClass::Secret, RedactionState::Unredacted).validate_basic(),
        Err(IpcError::SensitiveData)
    );
    assert_eq!(region.with_rights(IpcRights::share_memory()).seal(), Err(IpcError::AccessDenied));
    assert_eq!(region.revoke().seal(), Err(IpcError::Revoked));
    assert_eq!(SharedMemoryRegion { len: 0, ..region }.pin(), Err(IpcError::InvalidSharedMemory));
    assert_eq!(region.pin().unwrap().validate_for_transfer(), Err(IpcError::NotSealed));
    assert_eq!(region.with_state(SharedMemoryState::Transferred).validate_for_transfer(), Ok(()));
    assert_eq!(region.seal().unwrap().state, SharedMemoryState::Sealed);
}

#[test]
fn memory_grants_match_their_region() {
    let region = SharedMemoryRegion::new(SharedMemoryHandle::new(4), PortId::new(1), 64, MemoryAccess::ReadWrite)
        .seal()
        .unwrap();
    let grant = MemoryGrant::new(region, PortId::new(2), MemoryAccess::Write, MemoryMapIntent::AuditEvidence);
    assert_eq!(grant.handle, SharedMemoryHandle(4));
    assert_eq!(grant.source, PortId(1));
    assert_eq!(grant.trace, TraceContext::empty());
    assert_eq!(grant.validate(region), Ok(()));
    assert_eq!(grant.validate(region.revoke()), Err(IpcError::Revoked));
    assert_eq!(
        MemoryGrant { handle: SharedMemoryHandle(5), ..grant }.validate(region),
        Err(IpcError::InvalidSharedMemory)
    );
    assert_eq!(
        MemoryGrant { source: PortId(3), ..grant }.validate(region),
        Err(IpcError::InvalidSharedMemory)
    );
    assert_eq!(MemoryGrant { target: PortId(0), ..grant }.validate(region), Err(IpcError::InvalidPort));
    assert_eq!(
        grant.with_trace(TraceContext::root(0, 1)).validate(region),
        Err(IpcError::InvalidTrace)
    );
}

#[test]
fn event_metadata_and_labels() {
    assert_eq!(EventKind::Message.label(), "message");
    assert_eq!(EventKind::PortReady.label(), "port_ready");
    assert_eq!(EventKind::ChannelClosed.label(), "channel_closed");
    assert_eq!(EventKind::SharedMemoryRevoked.label(), "shared_memory_revoked");
    assert_eq!(EventKind::RouteDenied.label(), "route_denied");
    assert_eq!(EventKind::BackPressure.label(), "back_pressure");
    assert_eq!(WaitReason::Send.label(), "send");
    assert_eq!(WaitReason::Receive.label(), "receive");
    assert_eq!(WaitReason::Route.label(), "route");
    assert_eq!(WaitReason::SharedMemory.label(), "shared_memory");
    assert_eq!(WaitReason::Deadline.label(), "deadline");
    assert_eq!(QueuePolicy::FailClosed.label(), "fail_closed");
    assert_eq!(QueuePolicy::DropNewest.label(), "drop_newest");
    assert_eq!(QueuePolicy::DropOldest.label(), "drop_oldest");

    let base = event(1);
    assert_eq!(base.kind, EventKind::Message);
    assert_eq!(base.wait_reason, Some(WaitReason::Receive));
    assert_eq!(base.validate(), Ok(()));
    assert_eq!(IpcEvent { sequence: 0, ..base }.validate(), Err(IpcError::InvalidMessage));
    assert_eq!(IpcEvent { port: PortId(0), ..base }.validate(), Err(IpcError::InvalidPort));
    assert_eq!(IpcEvent { channel: ChannelId(0), ..base }.validate(), Err(IpcError::InvalidChannel));
    assert_eq!(IpcEvent { message_id: 0, ..base }.validate(), Err(IpcError::InvalidMessage));
    let ready = IpcEvent { message_id: 0, ..base }.with_kind(EventKind::PortReady).with_wait_reason(None);
    assert_eq!(ready.validate(), Ok(()));
    assert_eq!(ready.wait_reason, None);
    assert_eq!(base.with_trace(TraceContext::root(1, 0)).validate(), Err(IpcError::InvalidTrace));
}

#[test]
fn event_queue_ring_order_and_policies() {
    let mut queue = EventQueue::<3>::default();
    assert_eq!(queue.status(), QueueStatus { len: 0, capacity: 3, overflow_count: 0, full: false });
    assert_eq!(queue.pop(), None);
    assert_eq!(queue.push(IpcEvent { sequence: 0, ..event(1) }), Err(IpcError::InvalidMessage));
    for sequence in 1..=3 {
        assert_eq!(queue.push(event(sequence)), Ok(()));
    }
    assert_eq!(queue.status(), QueueStatus { len: 3, capacity: 3, overflow_count: 0, full: true });
    assert_eq!(queue.pop().unwrap().sequence, 1);
    assert_eq!(queue.pop().unwrap().sequence, 2);
    assert_eq!(queue.push(event(4)), Ok(()));
    assert_eq!(queue.push(event(5)), Ok(()));
    assert_eq!(queue.push(event(6)), Err(IpcError::CapacityExceeded));
    assert_eq!(queue.len(), 3);
    let order: Vec<u64> = (0..3).map(|_| queue.pop().unwrap().sequence).collect();
    assert_eq!(order, vec![3, 4, 5]);
    assert!(queue.is_empty());
    assert_eq!(queue.status().overflow_count, 1);

    let mut newest = EventQueue::<2>::with_policy(QueuePolicy::DropNewest);
    assert_eq!(newest.push(event(1)), Ok(()));
    assert_eq!(newest.push(event(2)), Ok(()));
    assert_eq!(newest.push(event(3)), Ok(()));
    assert_eq!(newest.status().overflow_count, 1);
    assert_eq!(newest.pop().unwrap().sequence, 1);
    assert_eq!(newest.pop().unwrap().sequence, 2);
    assert_eq!(newest.pop(), None);

    let mut oldest = EventQueue::<2>::with_policy(QueuePolicy::DropOldest);
    for sequence in 1..=5 {
        assert_eq!(oldest.push(event(sequence)), Ok(()));
    }
    assert_eq!(oldest.status().overflow_count, 3);
    assert_eq!(oldest.pop().unwrap().sequence, 4);
    assert_eq!(oldest.pop().unwrap().sequence, 5);

    let mut none = EventQueue::<0>::with_policy(QueuePolicy::DropOldest);
    assert_eq!(none.push(event(1)), Err(IpcError::CapacityExceeded));
    assert_eq!(none.status(), QueueStatus { len: 0, capacity: 0, overflow_count: 1, full: true });
    assert_eq!(none.pop(), None);
}

#[test]
fn route_rules_validate_and_match() {
    assert_eq!(RouteState::Created.label(), "created");
    assert_eq!(RouteState::Active.label(), "active");
    assert_eq!(RouteState::Disabled.label(), "disabled");
    assert_eq!(RouteState::Revoked.label(), "revoked");
    assert!(RouteState::Active.allows_route());
    assert!(!RouteState::Created.allows_route());

    let name = long_name();
    let rule = RouteRule::new(1, "r", PortId::new(1), PortId::new(2), ChannelId::new(7));
    assert_eq!(rule.kind, None);
    assert_eq!(rule.required_rights, bits(IPC_RIGHT_SEND | IPC_RIGHT_ROUTE));
    assert_eq!(rule.state, RouteState::Active);
    assert!(rule.audit_required);
    assert_eq!(rule.validate(), Ok(()));
    assert_eq!(RouteRule { id: 0, ..rule }.validate(), Err(IpcError::MissingField));
    assert_eq!(RouteRule { label: "", ..rule }.validate(), Err(IpcError::MissingField));
    assert_eq!(RouteRule { label: &name, ..rule }.validate(), Err(IpcError::FieldTooLong));
    assert_eq!(RouteRule { source: PortId(0), ..rule }.validate(), Err(IpcError::InvalidPort));
    assert_eq!(RouteRule { target: PortId(0), ..rule }.validate(), Err(IpcError::InvalidPort));
    assert_eq!(RouteRule { channel: ChannelId(0), ..rule }.validate(), Err(IpcError::InvalidChannel));
    assert_eq!(rule.with_required_rights(IpcRights(1 << 50)).validate(), Err(IpcError::ReservedBits));
    assert_eq!(rule.with_state(RouteState::Revoked).validate(), Err(IpcError::InvalidRoute));
    assert_eq!(rule.with_state(RouteState::Disabled).validate(), Ok(()));

    let request = request_envelope(MessageKind::Request);
    assert!(rule.matches(request));
    assert!(rule.with_kind(MessageKind::Request).matches(request));
    assert!(!rule.with_kind(MessageKind::Event).matches(request));
    assert!(!RouteRule { target: PortId(3), ..rule }.matches(request));

    let decision = RouteDecision { rule, channel: open_channel(), audit_required: true };
    assert_eq!(decision.validate(), Ok(()));
    assert_eq!(
        RouteDecision { rule: RouteRule { channel: ChannelId(8), ..rule }, ..decision }.validate(),
        Err(IpcError::InvalidRoute)
    );
    assert_eq!(
        RouteDecision { channel: open_channel().with_limits(0, 1), ..decision }.validate(),
        Err(IpcError::InvalidChannel)
    );
}

#[test]
fn router_resolution_errors() {
    let rule = RouteRule::new(1, "r", PortId::new(1), PortId::new(2), ChannelId::new(7));
    let source = connected(1, "a");
    let target = connected(2, "b");
    let channels = [ChannelDescriptor { id: ChannelId(6), ..open_channel() }, open_channel()];
    let rights = bits(IPC_RIGHT_SEND | IPC_RIGHT_ROUTE);
    let envelope = request_envelope(MessageKind::Request);

    let mut router = IpcRouter::<1>::default();
    assert!(router.is_empty());
    assert_eq!(router.add_route(RouteRule { id: 0, ..rule }), Err(IpcError::MissingField));
    assert_eq!(router.resolve(envelope, source, target, &channels, rights), Err(IpcError::RouteNotFound));
    assert_eq!(router.add_route(rule.with_kind(MessageKind::Event)), Ok(()));
    assert_eq!(router.add_route(RouteRule { id: 2, ..rule }), Err(IpcError::CapacityExceeded));
    assert_eq!(router.len(), 1);
    assert!(router.contains_id(1));
    assert!(!router.contains_id(2));
    assert_eq!(router.resolve(envelope, source, target, &channels, rights), Err(IpcError::RouteNotFound));

    let mut router = IpcRouter::<2>::new();
    assert_eq!(router.add_route(RouteRule { channel: ChannelId(9), ..rule }), Ok(()));
    assert_eq!(router.resolve(envelope, source, target, &channels, rights), Err(IpcError::InvalidRoute));

    let mut router = IpcRouter::<2>::new();
    let quiet = RouteRule { audit_required: false, ..rule };
    assert_eq!(router.add_route(quiet), Ok(()));
    let decision = router.resolve(envelope, source, target, &channels, rights).unwrap();
    assert_eq!(decision.rule, quiet);
    assert_eq!(decision.channel, open_channel());
    assert!(decision.audit_required);
    let quiet_channels = [ChannelDescriptor { audit_required: false, ..open_channel() }];
    assert!(!router.resolve(envelope, source, target, &quiet_channels, rights).unwrap().audit_required);

    assert_eq!(
        router.resolve(envelope, connected(3, "c"), target, &channels, rights),
        Err(IpcError::InvalidRoute)
    );
    assert_eq!(
        router.resolve(envelope, source.with_state(PortState::Bound), target, &channels, rights),
        Err(IpcError::Closed)
    );
    assert_eq!(
        router.resolve(envelope, PortDescriptor { owner: 0, ..source }, target, &channels, rights),
        Err(IpcError::MissingField)
    );
    assert_eq!(
        router.resolve(envelope, source, target, &channels, IpcRights::route()),
        Err(IpcError::AccessDenied)
    );
    let mut unchecked = envelope;
    unchecked.header.payload_len = 1;
    assert_eq!(
        router.resolve(unchecked, source, target, &channels, rights),
        Err(IpcError::InvalidMessage)
    );
}

#[test]
fn module_descriptors_keep_their_fields() {
    let queue = QueueDescriptor::new("queue", 2);
    assert_eq!((queue.name, queue.version), ("queue", 2));
    let route = RouteDescriptor::new("router", 3);
    assert_eq!((route.name, route.version), ("router", 3));
    let memory = SharedMemoryDescriptor::new("shared_memory", 4);
    assert_eq!((memory.name, memory.version), ("shared_memory", 4));
}

#[test]
fn revoked_memory_cannot_be_pinned_back() {
    let region = SharedMemoryRegion::new(SharedMemoryHandle::new(4), PortId::new(1), 64, MemoryAccess::Read);
    let revoked = region.revoke();
    assert_eq!(revoked.state, SharedMemoryState::Revoked);
    assert_eq!(revoked.pin(), Err(IpcError::Revoked));
    assert_eq!(revoked.seal(), Err(IpcError::Revoked));
    assert_eq!(revoked.validate_for_transfer(), Err(IpcError::Revoked));
    assert_eq!(SharedMemoryRegion { len: 0, ..revoked }.pin(), Err(IpcError::InvalidSharedMemory));
    assert_eq!(region.pin().unwrap().state, SharedMemoryState::Pinned);
}

#[test]
fn failed_operations_leave_tables_unchanged() {
    assert_eq!(PortTable::<2>::new(), PortTable::<2>::default());
    assert_eq!(IpcRouter::<2>::new(), IpcRouter::<2>::default());
    assert_eq!(EventQueue::<2>::new(), EventQueue::<2>::default());

    let mut table = PortTable::<1>::new();
    assert_eq!(table.register(connected(1, "a")), Ok(()));
    let before = table;
    assert_eq!(table.register(connected(2, "b")), Err(IpcError::CapacityExceeded));
    assert_eq!(table.set_state(PortId::new(2), PortState::Closed), Err(IpcError::PortNotFound));
    assert_eq!(table, before);
    assert_eq!(table.set_state(PortId::new(1), PortState::Listening), Ok(()));
    assert!(table.contains_name("a"));
    assert!(table.contains_id(PortId::new(1)));
    assert_ne!(table, before);

    let rule = RouteRule::new(1, "r", PortId::new(1), PortId::new(2), ChannelId::new(7));
    let mut router = IpcRouter::<2>::new();
    assert_eq!(router.add_route(rule), Ok(()));
    let before = router;
    assert_eq!(router.add_route(rule), Err(IpcError::DuplicateRoute));
    assert_eq!(router, before);
    assert!(router.contains_id(1));

    let mut queue = EventQueue::<1>::new();
    assert_eq!(queue.push(event(1)), Ok(()));
    let before = queue;
    assert_eq!(queue.push(IpcEvent { sequence: 0, ..event(2) }), Err(IpcError::InvalidMessage));
    assert_eq!(queue, before);
    assert_eq!(queue.push(event(2)), Err(IpcError::CapacityExceeded));
    assert_eq!(queue.push(event(3)), Err(IpcError::CapacityExceeded));
    assert_eq!(queue.status().overflow_count, 2);
}

#[test]
fn empty_pops_and_invalid_pushes_leave_queues_unchanged() {
    let mut queue = EventQueue::<2>::with_policy(QueuePolicy::DropOldest);
    let fresh = queue;
    assert_eq!(queue.pop(), None);
    assert_eq!(queue, fresh);
    assert_eq!(queue.push(event(1)), Ok(()));
    assert_eq!(queue.pop().unwrap().sequence, 1);
    let drained = queue;
    assert_eq!(queue.pop(), None);
    assert_eq!(queue, drained);
    assert_eq!(queue.push(IpcEvent { port: PortId(0), ..event(2) }), Err(IpcError::InvalidPort));
    assert_eq!(queue, drained);
    assert_eq!(queue.push(event(2)), Ok(()));
    assert_eq!(queue.push(event(3)), Ok(()));
    assert_eq!(queue.push(event(4)), Ok(()));
    let order: Vec<u64> = (0..2).map(|_| queue.pop().unwrap().sequence).collect();
    assert_eq!(order, vec![3, 4]);
}
