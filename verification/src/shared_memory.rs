//! Shared-memory handle and grant contracts for IPC payload transfer.

use vstd::prelude::*;

use crate::port::PortId;
use crate::{
    DataClass, IpcError, IpcResult, IpcRights, RedactionState, TraceContext, IPC_KNOWN_RIGHTS,
    IPC_RIGHT_SEAL, IPC_RIGHT_SHARE_MEMORY,
};

verus! {

/// Maximum shared memory region length.
pub const MAX_SHARED_MEMORY_LEN: u64 = 16 * 1024 * 1024;

/// Stable shared memory handle.
#[derive(Clone, Copy, Debug, Default, PartialEq, Eq, Structural)]
pub struct SharedMemoryHandle(pub u64);

impl SharedMemoryHandle {
    /// Invalid handle.
    pub fn invalid() -> (handle: Self)
        ensures
            handle == SharedMemoryHandle(0),
    {
        SharedMemoryHandle(0)
    }

    /// Creates a handle.
    pub fn new(raw: u64) -> (handle: Self)
        ensures
            handle == SharedMemoryHandle(raw),
    {
        SharedMemoryHandle(raw)
    }

    /// Returns raw handle.
    pub fn raw(self) -> (raw: u64)
        ensures
            raw == self.0,
    {
        self.0
    }

    /// The zero handle is invalid.
    pub open spec fn spec_validate(self) -> IpcResult<()> {
        if self.0 == 0 {
            Err(IpcError::InvalidSharedMemory)
        } else {
            Ok(())
        }
    }

    /// Validates the handle.
    pub fn validate(self) -> (outcome: IpcResult<()>)
        ensures
            outcome == self.spec_validate(),
    {
        if self.0 == 0 {
            return Err(IpcError::InvalidSharedMemory);
        }
        Ok(())
    }
}

/// Shared memory access mode.
#[derive(Clone, Copy, Debug, PartialEq, Eq, Structural)]
pub enum MemoryAccess {
    /// Read-only mapping.
    Read,
    /// Write-only mapping.
    Write,
    /// Read-write mapping.
    ReadWrite,
}

impl MemoryAccess {
    /// The stable label of each access mode.
    pub open spec fn spec_label(self) -> Seq<char> {
        match self {
            MemoryAccess::Read => "read"@,
            MemoryAccess::Write => "write"@,
            MemoryAccess::ReadWrite => "read_write"@,
        }
    }

    /// Stable access label.
    pub fn label(self) -> (label: &'static str)
        ensures
            label@ == self.spec_label(),
    {
        match self {
            MemoryAccess::Read => "read",
            MemoryAccess::Write => "write",
            MemoryAccess::ReadWrite => "read_write",
        }
    }

    /// Read and read-write mappings may read.
    pub open spec fn spec_allows_read(self) -> bool {
        self == MemoryAccess::Read || self == MemoryAccess::ReadWrite
    }

    /// Returns `true` when reading is allowed.
    pub fn allows_read(self) -> (allowed: bool)
        ensures
            allowed == self.spec_allows_read(),
    {
        match self {
            MemoryAccess::Read | MemoryAccess::ReadWrite => true,
            MemoryAccess::Write => false,
        }
    }

    /// Write and read-write mappings may write.
    pub open spec fn spec_allows_write(self) -> bool {
        self == MemoryAccess::Write || self == MemoryAccess::ReadWrite
    }

    /// Returns `true` when writing is allowed.
    pub fn allows_write(self) -> (allowed: bool)
        ensures
            allowed == self.spec_allows_write(),
    {
        match self {
            MemoryAccess::Write | MemoryAccess::ReadWrite => true,
            MemoryAccess::Read => false,
        }
    }
}

/// Shared memory lifecycle state.
#[derive(Clone, Copy, Debug, PartialEq, Eq, Structural)]
pub enum SharedMemoryState {
    /// Region was created.
    Created,
    /// Region is mapped.
    Mapped,
    /// Region is pinned.
    Pinned,
    /// Region is sealed against mutation.
    Sealed,
    /// Region was transferred.
    Transferred,
    /// Region was revoked.
    Revoked,
}

impl SharedMemoryState {
    /// The stable label of each state.
    pub open spec fn spec_label(self) -> Seq<char> {
        match self {
            SharedMemoryState::Created => "created"@,
            SharedMemoryState::Mapped => "mapped"@,
            SharedMemoryState::Pinned => "pinned"@,
            SharedMemoryState::Sealed => "sealed"@,
            SharedMemoryState::Transferred => "transferred"@,
            SharedMemoryState::Revoked => "revoked"@,
        }
    }

    /// Stable state label.
    pub fn label(self) -> (label: &'static str)
        ensures
            label@ == self.spec_label(),
    {
        match self {
            SharedMemoryState::Created => "created",
            SharedMemoryState::Mapped => "mapped",
            SharedMemoryState::Pinned => "pinned",
            SharedMemoryState::Sealed => "sealed",
            SharedMemoryState::Transferred => "transferred",
            SharedMemoryState::Revoked => "revoked",
        }
    }

    /// Only sealed or already transferred regions may travel with a message.
    pub open spec fn spec_allows_transfer(self) -> bool {
        self == SharedMemoryState::Sealed || self == SharedMemoryState::Transferred
    }

    /// Returns `true` when the region can be attached to an IPC message.
    pub fn allows_transfer(self) -> (allowed: bool)
        ensures
            allowed == self.spec_allows_transfer(),
    {
        match self {
            SharedMemoryState::Sealed | SharedMemoryState::Transferred => true,
            _ => false,
        }
    }
}

/// Mapping intent used by kernel/runtime mediation.
#[derive(Clone, Copy, Debug, PartialEq, Eq, Structural)]
pub enum MemoryMapIntent {
    /// Use as message payload.
    Payload,
    /// Use as response output.
    Response,
    /// Use as cognitive tensor or embedding payload.
    CognitiveBuffer,
    /// Use as audit evidence payload.
    AuditEvidence,
}

impl MemoryMapIntent {
    /// The stable label of each intent.
    pub open spec fn spec_label(self) -> Seq<char> {
        match self {
            MemoryMapIntent::Payload => "payload"@,
            MemoryMapIntent::Response => "response"@,
            MemoryMapIntent::CognitiveBuffer => "cognitive_buffer"@,
            MemoryMapIntent::AuditEvidence => "audit_evidence"@,
        }
    }

    /// Stable intent label.
    pub fn label(self) -> (label: &'static str)
        ensures
            label@ == self.spec_label(),
    {
        match self {
            MemoryMapIntent::Payload => "payload",
            MemoryMapIntent::Response => "response",
            MemoryMapIntent::CognitiveBuffer => "cognitive_buffer",
            MemoryMapIntent::AuditEvidence => "audit_evidence",
        }
    }
}

/// Shared memory region descriptor.
#[derive(Clone, Copy, Debug, PartialEq, Eq, Structural)]
pub struct SharedMemoryRegion {
    /// Region handle.
    pub handle: SharedMemoryHandle,
    /// Owner port.
    pub owner: PortId,
    /// Region byte length.
    pub len: u64,
    /// Access mode.
    pub access: MemoryAccess,
    /// Lifecycle state.
    pub state: SharedMemoryState,
    /// Data class.
    pub data_class: DataClass,
    /// Redaction state.
    pub redaction: RedactionState,
    /// Rights held by the owner.
    pub rights: IpcRights,
    /// Handle generation.
    pub generation: u32,
}

impl SharedMemoryRegion {
    /// Creates a shared memory region descriptor.
    pub fn new(handle: SharedMemoryHandle, owner: PortId, len: u64, access: MemoryAccess) -> (region:
        Self)
        ensures
            region == (SharedMemoryRegion {
                handle,
                owner,
                len,
                access,
                state: SharedMemoryState::Created,
                data_class: DataClass::Operational,
                redaction: RedactionState::Operational,
                rights: IpcRights(IPC_RIGHT_SHARE_MEMORY | IPC_RIGHT_SEAL),
                generation: 1,
            }),
    {
        SharedMemoryRegion {
            handle,
            owner,
            len,
            access,
            state: SharedMemoryState::Created,
            data_class: DataClass::Operational,
            redaction: RedactionState::Operational,
            rights: IpcRights(IPC_RIGHT_SHARE_MEMORY | IPC_RIGHT_SEAL),
            generation: 1,
        }
    }

    /// Sets lifecycle state.
    pub fn with_state(self, state: SharedMemoryState) -> (region: Self)
        ensures
            region == (SharedMemoryRegion { state, ..self }),
    {
        SharedMemoryRegion { state, ..self }
    }

    /// Sets data class and redaction state.
    pub fn with_class(self, data_class: DataClass, redaction: RedactionState) -> (region: Self)
        ensures
            region == (SharedMemoryRegion { data_class, redaction, ..self }),
    {
        SharedMemoryRegion { data_class, redaction, ..self }
    }

    /// Sets rights.
    pub fn with_rights(self, rights: IpcRights) -> (region: Self)
        ensures
            region == (SharedMemoryRegion { rights, ..self }),
    {
        SharedMemoryRegion { rights, ..self }
    }

    /// What `pin` answers: the basic checks, then the pinned region.
    pub open spec fn spec_pin(self) -> IpcResult<SharedMemoryRegion> {
        match self.spec_validate_basic() {
            Err(error) => Err(error),
            Ok(_) => if self.state == SharedMemoryState::Revoked {
                Err(IpcError::Revoked)
            } else {
                Ok(SharedMemoryRegion { state: SharedMemoryState::Pinned, ..self })
            },
        }
    }

    /// Marks the region pinned; revoked memory stays revoked.
    pub fn pin(self) -> (pinned: IpcResult<Self>)
        ensures
            pinned == self.spec_pin(),
    {
        match self.validate_basic() {
            Ok(()) => {},
            Err(error) => return Err(error),
        }
        if let SharedMemoryState::Revoked = self.state {
            return Err(IpcError::Revoked);
        }
        Ok(SharedMemoryRegion { state: SharedMemoryState::Pinned, ..self })
    }

    /// What `seal` answers: the basic checks, the seal right, a revoked
    /// region, then the sealed region.
    pub open spec fn spec_seal(self) -> IpcResult<SharedMemoryRegion> {
        match self.spec_validate_basic() {
            Err(error) => Err(error),
            Ok(_) => match self.rights.spec_require(IpcRights(IPC_RIGHT_SEAL)) {
                Err(error) => Err(error),
                Ok(_) => if self.state == SharedMemoryState::Revoked {
                    Err(IpcError::Revoked)
                } else {
                    Ok(SharedMemoryRegion { state: SharedMemoryState::Sealed, ..self })
                },
            },
        }
    }

    /// Seals the region for transfer.
    pub fn seal(self) -> (sealed: IpcResult<Self>)
        ensures
            sealed == self.spec_seal(),
    {
        match self.validate_basic() {
            Ok(()) => {},
            Err(error) => return Err(error),
        }
        match self.rights.require(IpcRights::seal()) {
            Ok(()) => {},
            Err(error) => return Err(error),
        }
        if let SharedMemoryState::Revoked = self.state {
            return Err(IpcError::Revoked);
        }
        Ok(SharedMemoryRegion { state: SharedMemoryState::Sealed, ..self })
    }

    /// Revokes the region.
    pub fn revoke(self) -> (revoked: Self)
        ensures
            revoked == (SharedMemoryRegion { state: SharedMemoryState::Revoked, ..self }),
    {
        SharedMemoryRegion { state: SharedMemoryState::Revoked, ..self }
    }

    /// What `validate_basic` answers: handle, owner, length, generation, the
    /// share right, and finally the redaction of the data class.
    pub open spec fn spec_validate_basic(self) -> IpcResult<()> {
        if self.handle.0 == 0 {
            Err(IpcError::InvalidSharedMemory)
        } else if self.owner.0 == 0 {
            Err(IpcError::InvalidPort)
        } else if self.len == 0 {
            Err(IpcError::InvalidSharedMemory)
        } else if self.len > MAX_SHARED_MEMORY_LEN {
            Err(IpcError::PayloadTooLarge)
        } else if self.generation == 0 {
            Err(IpcError::InvalidSharedMemory)
        } else if self.rights.spec_require(IpcRights(IPC_RIGHT_SHARE_MEMORY)) is Err {
            self.rights.spec_require(IpcRights(IPC_RIGHT_SHARE_MEMORY))
        } else if !self.redaction.spec_satisfies(self.data_class) {
            Err(IpcError::SensitiveData)
        } else {
            Ok(())
        }
    }

    /// Validates identity, size, rights, and sensitivity.
    pub fn validate_basic(self) -> (outcome: IpcResult<()>)
        ensures
            outcome == self.spec_validate_basic(),
    {
        match self.handle.validate() {
            Ok(()) => {},
            Err(error) => return Err(error),
        }
        match self.owner.validate() {
            Ok(()) => {},
            Err(error) => return Err(error),
        }
        if self.len == 0 {
            return Err(IpcError::InvalidSharedMemory);
        }
        if self.len > MAX_SHARED_MEMORY_LEN {
            return Err(IpcError::PayloadTooLarge);
        }
        if self.generation == 0 {
            return Err(IpcError::InvalidSharedMemory);
        }
        match self.rights.require(IpcRights::share_memory()) {
            Ok(()) => {},
            Err(error) => return Err(error),
        }
        if !self.redaction.satisfies(self.data_class) {
            return Err(IpcError::SensitiveData);
        }
        Ok(())
    }

    /// What `validate_for_transfer` answers: the basic checks, a revoked
    /// region, then a region that is not sealed.
    pub open spec fn spec_validate_for_transfer(self) -> IpcResult<()> {
        if self.spec_validate_basic() is Err {
            self.spec_validate_basic()
        } else if self.state == SharedMemoryState::Revoked {
            Err(IpcError::Revoked)
        } else if !self.state.spec_allows_transfer() {
            Err(IpcError::NotSealed)
        } else {
            Ok(())
        }
    }

    /// Validates transfer readiness.
    pub fn validate_for_transfer(self) -> (outcome: IpcResult<()>)
        ensures
            outcome == self.spec_validate_for_transfer(),
    {
        match self.validate_basic() {
            Ok(()) => {},
            Err(error) => return Err(error),
        }
        if let SharedMemoryState::Revoked = self.state {
            return Err(IpcError::Revoked);
        }
        if !self.state.allows_transfer() {
            return Err(IpcError::NotSealed);
        }
        Ok(())
    }
}

/// Sealing makes a region transferable; pinning alone does not; a revoked
/// region is never transferable, and can be neither pinned nor sealed, so no
/// sequence of these operations undoes a revocation; only sealed or
/// transferred regions are transferable.
pub proof fn lemma_seal_before_transfer(region: SharedMemoryRegion)
    ensures
        region.spec_seal() matches Ok(sealed) ==> sealed.spec_validate_for_transfer() == Ok::<
            (),
            IpcError,
        >(()),
        region.spec_pin() matches Ok(pinned) ==> pinned.spec_validate_for_transfer() == Err::<
            (),
            IpcError,
        >(IpcError::NotSealed),
        (SharedMemoryRegion {
            state: SharedMemoryState::Revoked,
            ..region
        }).spec_validate_for_transfer() is Err,
        region.spec_validate_for_transfer() is Ok ==> region.state.spec_allows_transfer(),
        region.state == SharedMemoryState::Revoked ==> region.spec_pin() is Err
            && region.spec_seal() is Err,
        region.state == SharedMemoryState::Revoked && region.spec_validate_basic() is Ok ==> {
            &&& region.spec_pin() == Err::<SharedMemoryRegion, IpcError>(IpcError::Revoked)
            &&& region.spec_seal() == Err::<SharedMemoryRegion, IpcError>(IpcError::Revoked)
                || region.spec_seal() == Err::<SharedMemoryRegion, IpcError>(IpcError::AccessDenied)
        },
        region.spec_pin() matches Ok(pinned) ==> pinned.state == SharedMemoryState::Pinned,
        region.spec_seal() matches Ok(sealed) ==> sealed.state == SharedMemoryState::Sealed,
{
}

/// A region passes the basic checks exactly when its handle, owner and
/// generation are set, its length lies between 1 and
/// `MAX_SHARED_MEMORY_LEN`, its rights have no reserved bit and include the
/// share-memory right (no other right is asked), and its redaction suits its
/// data class.  The lifecycle state plays no part.
pub proof fn lemma_region_basic_iff(region: SharedMemoryRegion)
    ensures
        region.spec_validate_basic() is Ok <==> {
            &&& region.handle.0 != 0 && region.owner.0 != 0 && region.generation != 0
            &&& 0 < region.len <= MAX_SHARED_MEMORY_LEN
            &&& region.rights.0 & !IPC_KNOWN_RIGHTS == 0
            &&& region.rights.0 & IPC_RIGHT_SHARE_MEMORY == IPC_RIGHT_SHARE_MEMORY
            &&& region.redaction.spec_satisfies(region.data_class)
        },
{
}

/// A region may be transferred exactly when it passes the basic checks and
/// is sealed or already transferred.
pub proof fn lemma_transfer_iff(region: SharedMemoryRegion)
    ensures
        region.spec_validate_for_transfer() is Ok <==> {
            &&& region.spec_validate_basic() is Ok
            &&& (region.state == SharedMemoryState::Sealed || region.state
                == SharedMemoryState::Transferred)
        },
{
}

/// Pinning succeeds exactly when the region passes the basic checks and is
/// not revoked, and then changes only the state, to pinned; sealing succeeds
/// exactly when, in addition, the region's rights include the seal right,
/// and then changes only the state, to sealed.
pub proof fn lemma_pin_seal_iff(region: SharedMemoryRegion)
    ensures
        region.spec_pin() is Ok <==> (region.spec_validate_basic() is Ok && region.state
            != SharedMemoryState::Revoked),
        region.spec_pin() is Ok ==> region.spec_pin() == Ok::<SharedMemoryRegion, IpcError>(
            SharedMemoryRegion { state: SharedMemoryState::Pinned, ..region },
        ),
        region.spec_seal() is Ok <==> {
            &&& region.spec_validate_basic() is Ok
            &&& region.rights.0 & IPC_RIGHT_SEAL == IPC_RIGHT_SEAL
            &&& region.state != SharedMemoryState::Revoked
        },
        region.spec_seal() is Ok ==> region.spec_seal() == Ok::<SharedMemoryRegion, IpcError>(
            SharedMemoryRegion { state: SharedMemoryState::Sealed, ..region },
        ),
{
}

/// Shared memory grant from owner to recipient.
#[derive(Clone, Copy, Debug, PartialEq, Eq, Structural)]
pub struct MemoryGrant {
    /// Region handle.
    pub handle: SharedMemoryHandle,
    /// Source port.
    pub source: PortId,
    /// Target port.
    pub target: PortId,
    /// Access granted to target.
    pub access: MemoryAccess,
    /// Mapping intent.
    pub intent: MemoryMapIntent,
    /// Trace context.
    pub trace: TraceContext,
}

impl MemoryGrant {
    /// Creates a memory grant.
    pub fn new(
        region: SharedMemoryRegion,
        target: PortId,
        access: MemoryAccess,
        intent: MemoryMapIntent,
    ) -> (grant: Self)
        ensures
            grant == (MemoryGrant {
                handle: region.handle,
                source: region.owner,
                target,
                access,
                intent,
                trace: TraceContext::spec_empty(),
            }),
    {
        MemoryGrant {
            handle: region.handle,
            source: region.owner,
            target,
            access,
            intent,
            trace: TraceContext::empty(),
        }
    }

    /// Sets trace context.
    pub fn with_trace(self, trace: TraceContext) -> (grant: Self)
        ensures
            grant == (MemoryGrant { trace, ..self }),
    {
        MemoryGrant { trace, ..self }
    }

    /// What `validate` answers: the region's transfer readiness, the grant's
    /// identity against the region, the target, a write grant on a region
    /// that cannot be written, and finally the trace.
    pub open spec fn spec_validate(self, region: SharedMemoryRegion) -> IpcResult<()> {
        if region.spec_validate_for_transfer() is Err {
            region.spec_validate_for_transfer()
        } else if self.handle.0 != region.handle.0 || self.source.0 != region.owner.0 {
            Err(IpcError::InvalidSharedMemory)
        } else if self.target.spec_validate() is Err {
            self.target.spec_validate()
        } else if self.access.spec_allows_write() && !region.access.spec_allows_write() {
            Err(IpcError::AccessDenied)
        } else {
            self.trace.spec_validate()
        }
    }

    /// Validates grant metadata against a source region.
    pub fn validate(self, region: SharedMemoryRegion) -> (outcome: IpcResult<()>)
        ensures
            outcome == self.spec_validate(region),
    {
        match region.validate_for_transfer() {
            Ok(()) => {},
            Err(error) => return Err(error),
        }
        if self.handle.raw() != region.handle.raw() || self.source.raw() != region.owner.raw() {
            return Err(IpcError::InvalidSharedMemory);
        }
        match self.target.validate() {
            Ok(()) => {},
            Err(error) => return Err(error),
        }
        if self.access.allows_write() && !region.access.allows_write() {
            return Err(IpcError::AccessDenied);
        }
        self.trace.validate()
    }
}

/// A grant made from a region is accepted for that region exactly when the
/// region is ready for transfer, the target is a real port and the grant
/// does not widen read-only access to writing; an accepted grant never
/// writes a region that cannot be written.
pub proof fn lemma_grant_from_region(
    region: SharedMemoryRegion,
    target: PortId,
    access: MemoryAccess,
    intent: MemoryMapIntent,
    grant: MemoryGrant,
)
    ensures
        (MemoryGrant {
            handle: region.handle,
            source: region.owner,
            target,
            access,
            intent,
            trace: TraceContext::spec_empty(),
        }).spec_validate(region) is Ok <==> {
            &&& region.spec_validate_for_transfer() is Ok
            &&& target.0 != 0
            &&& !(access.spec_allows_write() && !region.access.spec_allows_write())
        },
        grant.spec_validate(region) is Ok && grant.access.spec_allows_write()
            ==> region.access.spec_allows_write(),
{
    assert(0u32 & !crate::TRACE_KNOWN_FLAGS == 0) by (bit_vector);
}

/// A grant is accepted against a region exactly when the region may be
/// transferred, the grant names the region's handle and owner, its target is
/// set, it asks for writing only when the region can be written, and its
/// trace is valid.
pub proof fn lemma_grant_valid_iff(grant: MemoryGrant, region: SharedMemoryRegion)
    ensures
        grant.spec_validate(region) is Ok <==> {
            &&& region.spec_validate_for_transfer() is Ok
            &&& grant.handle.0 == region.handle.0 && grant.source.0 == region.owner.0
            &&& grant.target.0 != 0
            &&& (grant.access == MemoryAccess::Write || grant.access == MemoryAccess::ReadWrite)
                ==> (region.access == MemoryAccess::Write || region.access == MemoryAccess::ReadWrite)
            &&& grant.trace.spec_validate() is Ok
        },
{
}

/// Module boundary descriptor.
#[derive(Clone, Debug, PartialEq, Eq)]
pub struct SharedMemoryDescriptor<'a> {
    /// Human-readable descriptor name.
    pub name: &'a str,
    /// Descriptor version.
    pub version: u32,
}

impl<'a> SharedMemoryDescriptor<'a> {
    /// Creates a shared memory module descriptor.
    pub fn new(name: &'a str, version: u32) -> (descriptor: Self)
        ensures
            descriptor == (SharedMemoryDescriptor { name, version }),
    {
        SharedMemoryDescriptor { name, version }
    }
}

} // verus!
