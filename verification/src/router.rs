//! IPC route rules and fixed-capacity router tables.

use vstd::prelude::*;

use crate::channel::{ChannelDescriptor, ChannelId, MessageEnvelope, MessageHeader, MessageKind};
use crate::port::{PortDescriptor, PortId, PortState};
use crate::{accepted, known_rights, IPC_KNOWN_RIGHTS, IpcError, IpcResult, IpcRights, IPC_RIGHT_ROUTE, IPC_RIGHT_SEND};

verus! {

/// Maximum route label length.
pub const MAX_ROUTE_LABEL_LEN: usize = 96;

/// Module boundary descriptor.
#[derive(Clone, Debug, PartialEq, Eq)]
pub struct RouteDescriptor<'a> {
    /// Human-readable descriptor name.
    pub name: &'a str,
    /// Descriptor version.
    pub version: u32,
}

impl<'a> RouteDescriptor<'a> {
    /// Creates a route descriptor.
    pub fn new(name: &'a str, version: u32) -> (descriptor: Self)
        ensures
            descriptor == (RouteDescriptor { name, version }),
    {
        RouteDescriptor { name, version }
    }
}

/// Route lifecycle state.
#[derive(Clone, Copy, Debug, PartialEq, Eq, Structural)]
pub enum RouteState {
    /// Route exists but is not active.
    Created,
    /// Route can be used.
    Active,
    /// Route is administratively disabled.
    Disabled,
    /// Route was revoked.
    Revoked,
}

impl RouteState {
    /// The stable label of each state.
    pub open spec fn spec_label(self) -> Seq<char> {
        match self {
            RouteState::Created => "created"@,
            RouteState::Active => "active"@,
            RouteState::Disabled => "disabled"@,
            RouteState::Revoked => "revoked"@,
        }
    }

    /// Stable route state label.
    pub fn label(self) -> (label: &'static str)
        ensures
            label@ == self.spec_label(),
    {
        match self {
            RouteState::Created => "created",
            RouteState::Active => "active",
            RouteState::Disabled => "disabled",
            RouteState::Revoked => "revoked",
        }
    }

    /// Only an active route carries messages.
    pub open spec fn spec_allows_route(self) -> bool {
        self == RouteState::Active
    }

    /// Returns `true` when routing can proceed.
    pub fn allows_route(self) -> (allowed: bool)
        ensures
            allowed == self.spec_allows_route(),
    {
        match self {
            RouteState::Active => true,
            _ => false,
        }
    }
}

/// One route rule.
#[derive(Clone, Copy, Debug, PartialEq, Eq)]
pub struct RouteRule<'a> {
    /// Route identifier.
    pub id: u64,
    /// Route label.
    pub label: &'a str,
    /// Source port.
    pub source: PortId,
    /// Target port.
    pub target: PortId,
    /// Channel used by the route.
    pub channel: ChannelId,
    /// Optional message kind filter.
    pub kind: Option<MessageKind>,
    /// Required rights.
    pub required_rights: IpcRights,
    /// Route state.
    pub state: RouteState,
    /// Whether route decisions should be auditable.
    pub audit_required: bool,
}

impl<'a> RouteRule<'a> {
    /// Creates a route rule.
    pub fn new(id: u64, label: &'a str, source: PortId, target: PortId, channel: ChannelId) -> (rule:
        Self)
        ensures
            rule == (RouteRule {
                id,
                label,
                source,
                target,
                channel,
                kind: None,
                required_rights: IpcRights(IPC_RIGHT_SEND | IPC_RIGHT_ROUTE),
                state: RouteState::Active,
                audit_required: true,
            }),
    {
        RouteRule {
            id,
            label,
            source,
            target,
            channel,
            kind: None,
            required_rights: IpcRights(IPC_RIGHT_SEND | IPC_RIGHT_ROUTE),
            state: RouteState::Active,
            audit_required: true,
        }
    }

    /// Restricts the route to a message kind.
    pub fn with_kind(self, kind: MessageKind) -> (rule: Self)
        ensures
            rule == (RouteRule { kind: Some(kind), ..self }),
    {
        RouteRule { kind: Some(kind), ..self }
    }

    /// Sets required rights.
    pub fn with_required_rights(self, required_rights: IpcRights) -> (rule: Self)
        ensures
            rule == (RouteRule { required_rights, ..self }),
    {
        RouteRule { required_rights, ..self }
    }

    /// Sets route state.
    pub fn with_state(self, state: RouteState) -> (rule: Self)
        ensures
            rule == (RouteRule { state, ..self }),
    {
        RouteRule { state, ..self }
    }

    /// What `validate` answers: identifier and label, label length, ports,
    /// channel, reserved rights, and finally a revoked state.
    pub open spec fn spec_validate(self) -> IpcResult<()> {
        if self.id == 0 || self.label@.len() == 0 {
            Err(IpcError::MissingField)
        } else if self.label.len() > MAX_ROUTE_LABEL_LEN {
            Err(IpcError::FieldTooLong)
        } else if self.source.0 == 0 || self.target.0 == 0 {
            Err(IpcError::InvalidPort)
        } else if self.channel.0 == 0 {
            Err(IpcError::InvalidChannel)
        } else if !known_rights(self.required_rights.0) {
            Err(IpcError::ReservedBits)
        } else if self.state == RouteState::Revoked {
            Err(IpcError::InvalidRoute)
        } else {
            Ok(())
        }
    }

    /// Validates route metadata.
    pub fn validate(self) -> (outcome: IpcResult<()>)
        ensures
            outcome == self.spec_validate(),
    {
        if self.id == 0 || self.label.is_empty() {
            return Err(IpcError::MissingField);
        }
        if self.label.len() > MAX_ROUTE_LABEL_LEN {
            return Err(IpcError::FieldTooLong);
        }
        self.source.validate()?;
        self.target.validate()?;
        self.channel.validate()?;
        IpcRights::from_bits(self.required_rights.bits())?;
        if let RouteState::Revoked = self.state {
            return Err(IpcError::InvalidRoute);
        }
        Ok(())
    }

    /// A rule matches a message between its ports, of its kind if it has one.
    pub open spec fn spec_matches(self, header: MessageHeader) -> bool {
        &&& self.source == header.source
        &&& self.target == header.target
        &&& match self.kind {
            Some(kind) => kind == header.kind,
            None => true,
        }
    }

    /// Returns `true` when this rule matches an envelope.
    pub fn matches(self, envelope: MessageEnvelope<'_>) -> (matched: bool)
        ensures
            matched == self.spec_matches(envelope.header),
    {
        if self.source.raw() != envelope.header.source.raw() || self.target.raw()
            != envelope.header.target.raw() {
            return false;
        }
        match self.kind {
            Some(kind) => kind == envelope.header.kind,
            None => true,
        }
    }
}

/// Route decision result.
#[derive(Clone, Copy, Debug, PartialEq, Eq)]
pub struct RouteDecision<'a> {
    /// Matched rule.
    pub rule: RouteRule<'a>,
    /// Channel descriptor.
    pub channel: ChannelDescriptor<'a>,
    /// Whether audit evidence should be emitted.
    pub audit_required: bool,
}

impl<'a> RouteDecision<'a> {
    /// What `validate` answers: the rule, the channel, then a rule that
    /// names another channel.
    pub open spec fn spec_validate(self) -> IpcResult<()> {
        if self.rule.spec_validate() is Err {
            self.rule.spec_validate()
        } else if self.channel.spec_validate() is Err {
            self.channel.spec_validate()
        } else if self.rule.channel != self.channel.id {
            Err(IpcError::InvalidRoute)
        } else {
            Ok(())
        }
    }

    /// Validates the route decision.
    pub fn validate(self) -> (outcome: IpcResult<()>)
        ensures
            outcome == self.spec_validate(),
    {
        self.rule.validate()?;
        self.channel.validate()?;
        if self.rule.channel != self.channel.id {
            return Err(IpcError::InvalidRoute);
        }
        Ok(())
    }
}

/// `true` when some rule of `routes` has identifier `id`.
pub open spec fn has_route_id<'a>(routes: Seq<RouteRule<'a>>, id: u64) -> bool {
    exists|i: int| 0 <= i < routes.len() && (#[trigger] routes[i]).id == id
}

/// No two rules of `routes` share an identifier, and every rule validates.
pub open spec fn routes_sound<'a>(routes: Seq<RouteRule<'a>>) -> bool {
    &&& forall|i: int, j: int|
        0 <= i < routes.len() && 0 <= j < routes.len() && i != j ==> (#[trigger] routes[i]).id != (
        #[trigger] routes[j]).id
    &&& forall|i: int| 0 <= i < routes.len() ==> (#[trigger] routes[i]).spec_validate() is Ok
}

/// `i` is the first rule of `routes` that matches `header`.
pub open spec fn first_match_at<'a>(routes: Seq<RouteRule<'a>>, header: MessageHeader, i: int) -> bool {
    &&& 0 <= i < routes.len()
    &&& routes[i].spec_matches(header)
    &&& forall|j: int| 0 <= j < i ==> !(#[trigger] routes[j]).spec_matches(header)
}

/// The first rule of `routes` that matches `header`, if any.
pub open spec fn route_match<'a>(routes: Seq<RouteRule<'a>>, header: MessageHeader) -> Option<
    RouteRule<'a>,
> {
    if exists|i: int| first_match_at(routes, header, i) {
        Some(routes[choose|i: int| first_match_at(routes, header, i)])
    } else {
        None
    }
}

/// `i` is the first channel of `channels` with identifier `id`.
pub open spec fn first_channel_at<'a>(channels: Seq<ChannelDescriptor<'a>>, id: ChannelId, i: int) -> bool {
    &&& 0 <= i < channels.len()
    &&& channels[i].id == id
    &&& forall|j: int| 0 <= j < i ==> (#[trigger] channels[j]).id != id
}

/// The first channel of `channels` with identifier `id`, if any.
pub open spec fn channel_lookup<'a>(channels: Seq<ChannelDescriptor<'a>>, id: ChannelId) -> Option<
    ChannelDescriptor<'a>,
> {
    if exists|i: int| first_channel_at(channels, id, i) {
        Some(channels[choose|i: int| first_channel_at(channels, id, i)])
    } else {
        None
    }
}

/// What routing `envelope` by the matched `route` answers: the rule, its
/// state, the caller's rights for it, its channel, and the envelope against
/// that channel.
pub open spec fn route_outcome<'a>(
    route: RouteRule<'a>,
    envelope: MessageEnvelope,
    channels: Seq<ChannelDescriptor<'a>>,
    rights: IpcRights,
) -> IpcResult<RouteDecision<'a>> {
    match route.spec_validate() {
        Err(error) => Err(error),
        Ok(_) => if !route.state.spec_allows_route() {
            Err(IpcError::InvalidRoute)
        } else {
            match rights.spec_require(route.required_rights) {
                Err(error) => Err(error),
                Ok(_) => match channel_lookup(channels, route.channel) {
                    None => Err(IpcError::InvalidRoute),
                    Some(channel) => match envelope.spec_validate_for_channel(channel, rights) {
                        Err(error) => Err(error),
                        Ok(_) => Ok(
                            RouteDecision {
                                rule: route,
                                channel,
                                audit_required: route.audit_required || channel.audit_required,
                            },
                        ),
                    },
                },
            }
        },
    }
}

/// What resolving `envelope` against `routes` answers: the envelope, the
/// two port descriptors, their identities and states, then the first
/// matching rule decides.
pub open spec fn resolve_outcome<'a>(
    routes: Seq<RouteRule<'a>>,
    envelope: MessageEnvelope,
    source: PortDescriptor,
    target: PortDescriptor,
    channels: Seq<ChannelDescriptor<'a>>,
    rights: IpcRights,
) -> IpcResult<RouteDecision<'a>> {
    if envelope.spec_validate() is Err {
        Err(envelope.spec_validate()->Err_0)
    } else if source.spec_validate() is Err {
        Err(source.spec_validate()->Err_0)
    } else if target.spec_validate() is Err {
        Err(target.spec_validate()->Err_0)
    } else if source.id != envelope.header.source || target.id != envelope.header.target {
        Err(IpcError::InvalidRoute)
    } else if !source.state.spec_allows_message() || !target.state.spec_allows_message() {
        Err(IpcError::Closed)
    } else {
        match route_match(routes, envelope.header) {
            None => Err(IpcError::RouteNotFound),
            Some(route) => route_outcome(route, envelope, channels, rights),
        }
    }
}

/// Fixed-capacity route table.
#[derive(Clone, Copy, Debug, PartialEq, Eq)]
pub struct IpcRouter<'a, const N: usize> {
    routes: [Option<RouteRule<'a>>; N],
    len: usize,
}

impl<'a, const N: usize> View for IpcRouter<'a, N> {
    type V = Seq<RouteRule<'a>>;

    /// The registered rules, in registration order.
    closed spec fn view(&self) -> Seq<RouteRule<'a>> {
        live_routes(self.routes@, self.len as nat)
    }
}

/// The rules held in the first `len` slots.
spec fn live_routes<'a>(slots: Seq<Option<RouteRule<'a>>>, len: nat) -> Seq<RouteRule<'a>> {
    Seq::new(len, |i: int| slots[i]->0)
}

impl<'a, const N: usize> IpcRouter<'a, N> {
    /// The first `len` slots are filled with valid rules of distinct
    /// identifiers, and the others are empty.
    #[verifier::type_invariant]
    spec fn well_formed(self) -> bool {
        &&& self.len <= N
        &&& forall|i: int| 0 <= i < self.len ==> (#[trigger] self.routes@[i]) is Some
        &&& forall|i: int| self.len <= i < N ==> (#[trigger] self.routes@[i]) is None
        &&& routes_sound(self@)
    }

    /// Creates an empty router.
    pub fn new() -> (router: Self)
        ensures
            router@ == Seq::<RouteRule<'a>>::empty(),
    {
        let router = IpcRouter { routes: [None;N], len: 0 };
        assert(router@ =~= Seq::<RouteRule<'a>>::empty());
        router
    }

    /// Returns route count.
    pub fn len(self) -> (count: usize)
        ensures
            count == self@.len(),
            count <= N,
    {
        proof {
            use_type_invariant(&self);
        }
        self.len
    }

    /// Returns `true` when no routes are registered.
    pub fn is_empty(self) -> (empty: bool)
        ensures
            empty == (self@.len() == 0),
    {
        self.len == 0
    }

    /// What `add_route` answers: a full table, an invalid rule, then a
    /// duplicate identifier.
    pub open spec fn spec_add_route(self, route: RouteRule<'a>) -> IpcResult<()> {
        if self@.len() >= N {
            Err(IpcError::CapacityExceeded)
        } else if route.spec_validate() is Err {
            route.spec_validate()
        } else if has_route_id(self@, route.id) {
            Err(IpcError::DuplicateRoute)
        } else {
            Ok(())
        }
    }

    /// Adds a route.
    pub fn add_route(&mut self, route: RouteRule<'a>) -> (outcome: IpcResult<()>)
        ensures
            outcome == old(self).spec_add_route(route),
            outcome is Ok ==> final(self)@ == old(self)@.push(route),
            outcome is Err ==> *final(self) == *old(self),
            route_step(
                old(self)@,
                final(self)@,
                if outcome is Ok {
                    Some(route)
                } else {
                    None
                },
            ),
            routes_sound(final(self)@),
            final(self)@.len() <= N,
    {
        proof {
            use_type_invariant(&*self);
        }
        if self.len >= N {
            return Err(IpcError::CapacityExceeded);
        }
        route.validate()?;
        if self.contains_id(route.id) {
            return Err(IpcError::DuplicateRoute);
        }
        let ghost before = self@;
        let index = self.len;
        let mut routes = self.routes;
        routes[index] = Some(route);
        assert(live_routes(routes@, (index + 1) as nat) =~= before.push(route));
        *self = IpcRouter { routes, len: index + 1 };
        Ok(())
    }

    /// Returns `true` when a route id exists.
    pub fn contains_id(self, id: u64) -> (found: bool)
        ensures
            found == has_route_id(self@, id),
    {
        proof {
            use_type_invariant(&self);
        }
        let mut index: usize = 0;
        while index < self.len
            invariant
                self.len <= N,
                index <= self.len,
                forall|i: int| 0 <= i < self.len ==> (#[trigger] self.routes@[i]) is Some,
                forall|j: int| 0 <= j < index ==> (#[trigger] self@[j]).id != id,
            decreases self.len - index,
        {
            if let Some(route) = self.routes[index] {
                if route.id == id {
                    assert(self@[index as int].id == id);
                    return true;
                }
            }
            assert(self@[index as int].id != id);
            index += 1;
        }
        false
    }

    /// What `resolve` answers.
    pub open spec fn spec_resolve(
        self,
        envelope: MessageEnvelope,
        source: PortDescriptor,
        target: PortDescriptor,
        channels: Seq<ChannelDescriptor<'a>>,
        rights: IpcRights,
    ) -> IpcResult<RouteDecision<'a>> {
        resolve_outcome(self@, envelope, source, target, channels, rights)
    }

    /// Resolves an envelope against registered routes and channel descriptors.
    pub fn resolve<const CHANNELS: usize>(
        self,
        envelope: MessageEnvelope<'_>,
        source: PortDescriptor<'_>,
        target: PortDescriptor<'_>,
        channels: &[ChannelDescriptor<'a>; CHANNELS],
        rights: IpcRights,
    ) -> (decision: IpcResult<RouteDecision<'a>>)
        ensures
            decision == self.spec_resolve(envelope, source, target, channels@, rights),
    {
        proof {
            use_type_invariant(&self);
        }
        envelope.validate()?;
        source.validate()?;
        target.validate()?;
        if source.id != envelope.header.source || target.id != envelope.header.target {
            return Err(IpcError::InvalidRoute);
        }
        if !source.state.allows_message() || !target.state.allows_message() {
            return Err(IpcError::Closed);
        }
        let mut index: usize = 0;
        while index < self.len
            invariant
                self.len <= N,
                index <= self.len,
                forall|i: int| 0 <= i < self.len ==> (#[trigger] self.routes@[i]) is Some,
                forall|j: int| 0 <= j < index ==> !(#[trigger] self@[j]).spec_matches(envelope.header),
                envelope.spec_validate() is Ok,
                source.spec_validate() is Ok,
                target.spec_validate() is Ok,
                source.id == envelope.header.source && target.id == envelope.header.target,
                source.state.spec_allows_message() && target.state.spec_allows_message(),
            decreases self.len - index,
        {
            let route = match self.routes[index] {
                Some(route) => route,
                None => return Err(IpcError::Internal),
            };
            assert(self@[index as int] == route);
            if route.matches(envelope) {
                proof {
                    assert(first_match_at(self@, envelope.header, index as int));
                    let chosen = choose|i: int| first_match_at(self@, envelope.header, i);
                    assert(chosen == index as int) by {
                        if chosen < index as int {
                            assert(!self@[chosen].spec_matches(envelope.header));
                        } else if chosen > index as int {
                            assert(!self@[index as int].spec_matches(envelope.header));
                        }
                    }
                }
                route.validate()?;
                if !route.state.allows_route() {
                    return Err(IpcError::InvalidRoute);
                }
                rights.require(route.required_rights)?;
                let channel = match find_channel(channels, route.channel) {
                    Some(channel) => channel,
                    None => return Err(IpcError::InvalidRoute),
                };
                envelope.validate_for_channel(channel, rights)?;
                return Ok(
                    RouteDecision {
                        rule: route,
                        channel,
                        audit_required: route.audit_required || channel.audit_required,
                    },
                );
            }
            index += 1;
        }
        assert(!exists|i: int| first_match_at(self@, envelope.header, i));
        Err(IpcError::RouteNotFound)
    }
}

impl<'a, const N: usize> Default for IpcRouter<'a, N> {
    fn default() -> (router: Self)
        ensures
            router@ == Seq::<RouteRule<'a>>::empty(),
    {
        Self::new()
    }
}

fn find_channel<'a, const N: usize>(channels: &[ChannelDescriptor<'a>; N], id: ChannelId) -> (found:
    Option<ChannelDescriptor<'a>>)
    ensures
        found == channel_lookup(channels@, id),
{
    let mut index: usize = 0;
    while index < N
        invariant
            index <= N,
            channels@.len() == N,
            forall|j: int| 0 <= j < index ==> (#[trigger] channels@[j]).id != id,
        decreases N - index,
    {
        let channel = channels[index];
        if channel.id == id {
            proof {
                assert(first_channel_at(channels@, id, index as int));
                let chosen = choose|i: int| first_channel_at(channels@, id, i);
                assert(chosen == index as int) by {
                    if chosen < index as int {
                        assert(channels@[chosen].id != id);
                    } else if chosen > index as int {
                        assert(channels@[index as int].id != id);
                    }
                }
            }
            return Some(channel);
        }
        index += 1;
    }
    assert(!exists|i: int| first_channel_at(channels@, id, i));
    None
}

/// Routing fails closed: a resolved decision validates, uses the channel its
/// rule names, is audited when the rule or the channel asks for it, and was
/// reached by an active rule that matches the message, between ports that
/// carry messages, with rights that hold the rule's, the channel's send
/// rights and those of the message kind.
pub proof fn lemma_resolve_fails_closed<'a>(
    routes: Seq<RouteRule<'a>>,
    envelope: MessageEnvelope,
    source: PortDescriptor,
    target: PortDescriptor,
    channels: Seq<ChannelDescriptor<'a>>,
    rights: IpcRights,
)
    requires
        resolve_outcome(routes, envelope, source, target, channels, rights) is Ok,
    ensures
        ({
            let decision = resolve_outcome(routes, envelope, source, target, channels, rights)->Ok_0;
            &&& decision.spec_validate() is Ok
            &&& decision.rule.channel == decision.channel.id
            &&& decision.audit_required == (decision.rule.audit_required
                || decision.channel.audit_required)
            &&& decision.rule.state == RouteState::Active
            &&& decision.rule.spec_matches(envelope.header)
            &&& routes.contains(decision.rule)
            &&& channels.contains(decision.channel)
            &&& source.state.spec_allows_message() && target.state.spec_allows_message()
            &&& known_rights(rights.0)
            &&& rights.spec_contains(decision.rule.required_rights)
            &&& rights.spec_contains(decision.channel.send_rights)
            &&& rights.spec_contains(envelope.header.kind.spec_required_rights())
        }),
{
    let i = choose|i: int| first_match_at(routes, envelope.header, i);
    let route = routes[i];
    let k = choose|k: int| first_channel_at(channels, route.channel, k);
    assert(routes[i] == route);
}

/// One step of building a router: `added` is the rule that was appended, if
/// any; otherwise the rules stay as they were.
pub open spec fn route_step<'a>(
    before: Seq<RouteRule<'a>>,
    after: Seq<RouteRule<'a>>,
    added: Option<RouteRule<'a>>,
) -> bool {
    match added {
        Some(route) => after == before.push(route),
        None => after == before,
    }
}

/// A router made by `new` and then a series of `add_route` calls holds
/// exactly the rules that were accepted, in call order, so it knows an
/// identifier exactly when an accepted rule has it.
pub proof fn lemma_router_holds_accepted_routes<'a, const N: usize>(
    routers: Seq<IpcRouter<'a, N>>,
    added: Seq<Option<RouteRule<'a>>>,
)
    requires
        routers.len() == added.len() + 1,
        routers[0]@ == Seq::<RouteRule<'a>>::empty(),
        forall|i: int|
            0 <= i < added.len() ==> route_step(routers[i]@, routers[i + 1]@, #[trigger] added[i]),
    ensures
        routers.last()@ == accepted(added),
        forall|id: u64| #[trigger] has_route_id(routers.last()@, id) <==> has_route_id(accepted(added), id),
    decreases added.len(),
{
    if added.len() > 0 {
        let k = added.len() - 1;
        assert(route_step(routers[k]@, routers[k + 1]@, added[k]));
        lemma_router_holds_accepted_routes(routers.drop_last(), added.drop_last());
    }
}

/// A rule is accepted exactly when its identifier, label, ports and channel
/// are set, its label is at most `MAX_ROUTE_LABEL_LEN` bytes long, its rights
/// have no reserved bit, and it is not revoked.
pub proof fn lemma_route_valid_iff(rule: RouteRule)
    ensures
        rule.spec_validate() is Ok <==> {
            &&& rule.id != 0 && rule.label@.len() > 0 && rule.label.len() <= MAX_ROUTE_LABEL_LEN
            &&& rule.source.0 != 0 && rule.target.0 != 0 && rule.channel.0 != 0
            &&& rule.required_rights.0 & !IPC_KNOWN_RIGHTS == 0
            &&& rule.state != RouteState::Revoked
        },
{
}

/// A rule matches a message exactly when both ports agree and the rule has
/// no kind or the message's kind.
pub proof fn lemma_matches_iff(rule: RouteRule, header: MessageHeader)
    ensures
        rule.spec_matches(header) <==> {
            &&& rule.source.0 == header.source.0 && rule.target.0 == header.target.0
            &&& (rule.kind is None || rule.kind == Some(header.kind))
        },
{
}

/// A decision is accepted exactly when its rule and its channel are valid and
/// the rule names that channel.
pub proof fn lemma_decision_valid_iff(decision: RouteDecision)
    ensures
        decision.spec_validate() is Ok <==> {
            &&& decision.rule.spec_validate() is Ok
            &&& decision.channel.spec_validate() is Ok
            &&& decision.rule.channel.0 == decision.channel.id.0
        },
{
}

/// A rule is added exactly when the router has room, the rule is valid, and
/// no registered rule has its identifier; other fields, such as the label,
/// may repeat.
pub proof fn lemma_add_route_iff<'a, const N: usize>(router: IpcRouter<'a, N>, route: RouteRule<'a>)
    ensures
        router.spec_add_route(route) is Ok <==> {
            &&& router@.len() < N
            &&& route.spec_validate() is Ok
            &&& forall|i: int| 0 <= i < router@.len() ==> (#[trigger] router@[i]).id != route.id
        },
{
}

/// The earliest registered rule that matches a message decides it: when
/// resolution succeeds, its rule sits at a position with no matching rule
/// before it, and its channel is the first channel carrying the rule's
/// channel identifier.
pub proof fn lemma_resolve_first_match<'a>(
    routes: Seq<RouteRule<'a>>,
    envelope: MessageEnvelope,
    source: PortDescriptor,
    target: PortDescriptor,
    channels: Seq<ChannelDescriptor<'a>>,
    rights: IpcRights,
)
    requires
        resolve_outcome(routes, envelope, source, target, channels, rights) is Ok,
    ensures
        ({
            let decision = resolve_outcome(routes, envelope, source, target, channels, rights)->Ok_0;
            &&& exists|i: int|
                0 <= i < routes.len() && routes[i] == decision.rule && routes[i].spec_matches(
                    envelope.header,
                ) && forall|j: int| 0 <= j < i ==> !(#[trigger] routes[j]).spec_matches(envelope.header)
            &&& exists|k: int|
                0 <= k < channels.len() && channels[k] == decision.channel && channels[k].id
                    == decision.rule.channel && forall|j: int|
                    0 <= j < k ==> (#[trigger] channels[j]).id != decision.rule.channel
        }),
{
    let i = choose|i: int| first_match_at(routes, envelope.header, i);
    let route = routes[i];
    let k = choose|k: int| first_channel_at(channels, route.channel, k);
    assert(first_match_at(routes, envelope.header, i));
    assert(first_channel_at(channels, route.channel, k));
}

/// Resolution succeeds whenever the envelope and both ports are valid and
/// are the message's endpoints, both ports carry messages, the earliest rule
/// matching the message is valid and active, the caller holds every right it
/// requires (more rights are fine), the first channel with the rule's
/// channel identifier accepts the envelope with those rights; the decision is
/// then that rule and that channel, audited when either asks for it.
pub proof fn lemma_resolve_complete<'a>(
    routes: Seq<RouteRule<'a>>,
    envelope: MessageEnvelope,
    source: PortDescriptor,
    target: PortDescriptor,
    channels: Seq<ChannelDescriptor<'a>>,
    rights: IpcRights,
    i: int,
    k: int,
)
    requires
        envelope.spec_validate() is Ok,
        source.spec_validate() is Ok,
        target.spec_validate() is Ok,
        source.id == envelope.header.source && target.id == envelope.header.target,
        source.state == PortState::Listening || source.state == PortState::Connected,
        target.state == PortState::Listening || target.state == PortState::Connected,
        0 <= i < routes.len(),
        routes[i].spec_matches(envelope.header),
        forall|j: int| 0 <= j < i ==> !(#[trigger] routes[j]).spec_matches(envelope.header),
        routes[i].spec_validate() is Ok,
        routes[i].state == RouteState::Active,
        rights.0 & !IPC_KNOWN_RIGHTS == 0,
        rights.0 & routes[i].required_rights.0 == routes[i].required_rights.0,
        0 <= k < channels.len(),
        channels[k].id == routes[i].channel,
        forall|j: int| 0 <= j < k ==> (#[trigger] channels[j]).id != routes[i].channel,
        envelope.spec_validate_for_channel(channels[k], rights) is Ok,
    ensures
        resolve_outcome(routes, envelope, source, target, channels, rights) == Ok::<
            RouteDecision<'a>,
            IpcError,
        >(
            RouteDecision {
                rule: routes[i],
                channel: channels[k],
                audit_required: routes[i].audit_required || channels[k].audit_required,
            },
        ),
{
    assert(first_match_at(routes, envelope.header, i));
    let chosen = choose|c: int| first_match_at(routes, envelope.header, c);
    assert(chosen == i) by {
        if chosen < i {
            assert(!routes[chosen].spec_matches(envelope.header));
        } else if chosen > i {
            assert(!routes[i].spec_matches(envelope.header));
        }
    }
    assert(first_channel_at(channels, routes[i].channel, k));
    let picked = choose|c: int| first_channel_at(channels, routes[i].channel, c);
    assert(picked == k) by {
        if picked < k {
            assert(channels[picked].id != routes[i].channel);
        } else if picked > k {
            assert(channels[k].id != routes[i].channel);
        }
    }
}

/// When no registered rule matches a message whose envelope and ports pass
/// their checks, resolution answers `RouteNotFound`.
pub proof fn lemma_resolve_no_route<'a>(
    routes: Seq<RouteRule<'a>>,
    envelope: MessageEnvelope,
    source: PortDescriptor,
    target: PortDescriptor,
    channels: Seq<ChannelDescriptor<'a>>,
    rights: IpcRights,
)
    requires
        envelope.spec_validate() is Ok,
        source.spec_validate() is Ok,
        target.spec_validate() is Ok,
        source.id == envelope.header.source && target.id == envelope.header.target,
        source.state == PortState::Listening || source.state == PortState::Connected,
        target.state == PortState::Listening || target.state == PortState::Connected,
        forall|j: int| 0 <= j < routes.len() ==> !(#[trigger] routes[j]).spec_matches(envelope.header),
    ensures
        resolve_outcome(routes, envelope, source, target, channels, rights) == Err::<
            RouteDecision<'a>,
            IpcError,
        >(IpcError::RouteNotFound),
{
}

/// A rule that was added cannot be added again.
pub proof fn lemma_add_route_twice<'a, const N: usize>(
    router: IpcRouter<'a, N>,
    after: IpcRouter<'a, N>,
    route: RouteRule<'a>,
)
    requires
        router.spec_add_route(route) is Ok,
        after@ == router@.push(route),
    ensures
        after.spec_add_route(route) is Err,
{
    assert(after@[router@.len() as int] == route);
}

} // verus!
