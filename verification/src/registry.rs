//! The asset handle registry: tickets, their resolution state and payloads.

use vstd::prelude::*;
use crate::error::AssetError;

verus! {

/// What a ticket was requested as.
#[derive(Clone, Copy, Debug, PartialEq, Eq, Hash, Structural)]
pub enum AssetKind {
    SceneGraph,
    AnimationClip,
}

/// A handle for one requested load. The registry owns what stands behind it.
#[derive(Clone, Copy, Debug, PartialEq, Eq, Hash, Structural)]
pub struct AssetTicket {
    pub id: usize,
    pub kind: AssetKind,
}

/// What the decoder made of one asset: its scenes and its animation clips,
/// each list in the order of the file, each entry by its name.
#[derive(Debug)]
pub struct DecodedAsset {
    pub scenes: Vec<String>,
    pub clips: Vec<String>,
}

/// The mathematical content of a `DecodedAsset`.
pub struct AssetView {
    pub scenes: Seq<Seq<char>>,
    pub clips: Seq<Seq<char>>,
}

impl View for DecodedAsset {
    type V = AssetView;

    open spec fn view(&self) -> AssetView {
        AssetView { scenes: self.scenes.deep_view(), clips: self.clips.deep_view() }
    }
}

#[derive(Debug)]
enum TicketState {
    Pending,
    Resolved(DecodedAsset),
    Failed,
}

/// Where one load stands. `Resolved` and `Failed` are terminal.
pub enum StateView {
    Pending,
    Resolved(AssetView),
    Failed,
}

impl View for TicketState {
    type V = StateView;

    closed spec fn view(&self) -> StateView {
        match self {
            TicketState::Pending => StateView::Pending,
            TicketState::Resolved(asset) => StateView::Resolved(asset@),
            TicketState::Failed => StateView::Failed,
        }
    }
}

/// Where one load stands, without the payload.
#[derive(Clone, Copy, Debug, PartialEq, Eq, Hash, Structural)]
pub enum TicketStatus {
    Pending,
    Resolved,
    Failed,
}

impl StateView {
    /// The state without its payload.
    pub open spec fn status(self) -> TicketStatus {
        match self {
            StateView::Pending => TicketStatus::Pending,
            StateView::Resolved(_) => TicketStatus::Resolved,
            StateView::Failed => TicketStatus::Failed,
        }
    }
}

#[derive(Debug)]
struct TicketRecord {
    name: String,
    kind: AssetKind,
    state: TicketState,
}

/// What the registry keeps for one ticket.
pub struct RecordView {
    pub name: Seq<char>,
    pub kind: AssetKind,
    pub state: StateView,
}

impl View for TicketRecord {
    type V = RecordView;

    closed spec fn view(&self) -> RecordView {
        RecordView { name: self.name@, kind: self.kind, state: self.state@ }
    }
}

/// The mathematical content of a registry: one record per ticket issued, by ticket id.
pub struct RegistryView {
    pub records: Seq<RecordView>,
}

impl RegistryView {
    /// `ticket` is one that this registry handed out.
    pub open spec fn issued(self, ticket: AssetTicket) -> bool {
        ticket.id < self.records.len() && self.records[ticket.id as int].kind == ticket.kind
    }

    /// Where the load behind `ticket` stands; `None` for a ticket that was not issued.
    pub open spec fn status(self, ticket: AssetTicket) -> Option<TicketStatus> {
        if self.issued(ticket) {
            Some(self.records[ticket.id as int].state.status())
        } else {
            None
        }
    }

    /// `ticket` was issued and its load has not ended.
    pub open spec fn pending(self, ticket: AssetTicket) -> bool {
        self.status(ticket) == Some(TicketStatus::Pending)
    }

    /// `ticket` was issued and its load has ended well.
    pub open spec fn resolved(self, ticket: AssetTicket) -> bool {
        self.status(ticket) == Some(TicketStatus::Resolved)
    }

    /// `ticket` was issued and its load has ended in a decode error.
    pub open spec fn failed(self, ticket: AssetTicket) -> bool {
        self.status(ticket) == Some(TicketStatus::Failed)
    }

    /// The payload behind a resolved ticket.
    pub open spec fn payload(self, ticket: AssetTicket) -> Option<AssetView> {
        if self.issued(ticket) {
            match self.records[ticket.id as int].state {
                StateView::Resolved(asset) => Some(asset),
                _ => None,
            }
        } else {
            None
        }
    }

    /// The registry after a new load was requested.
    pub open spec fn with_request(self, name: Seq<char>, kind: AssetKind) -> RegistryView {
        RegistryView {
            records: self.records.push(RecordView { name, kind, state: StateView::Pending }),
        }
    }

    /// The registry after the load behind `ticket` ended in `state`.
    pub open spec fn with_state(self, ticket: AssetTicket, state: StateView) -> RegistryView {
        let record = self.records[ticket.id as int];
        RegistryView {
            records: self.records.update(
                ticket.id as int,
                RecordView { name: record.name, kind: record.kind, state },
            ),
        }
    }

    /// Record `i` is the latest one requested under `name`.
    pub open spec fn is_latest(self, name: Seq<char>, i: int) -> bool {
        &&& 0 <= i < self.records.len()
        &&& self.records[i].name == name
        &&& forall|j: int| i < j < self.records.len() ==> (#[trigger] self.records[j]).name != name
    }

    /// No ticket was requested under `name`.
    pub open spec fn unknown(self, name: Seq<char>) -> bool {
        forall|i: int| 0 <= i < self.records.len() ==> (#[trigger] self.records[i]).name != name
    }

    /// `later` can be reached from `self`: tickets are only added, a pending
    /// load may end, and a load that has ended stays as it is.
    pub open spec fn leads_to(self, later: RegistryView) -> bool {
        &&& self.records.len() <= later.records.len()
        &&& forall|i: int|
            0 <= i < self.records.len() ==> {
                &&& (#[trigger] later.records[i]).name == self.records[i].name
                &&& later.records[i].kind == self.records[i].kind
                &&& (self.records[i].state is Pending || later.records[i].state
                    == self.records[i].state)
            }
    }
}

/// Maps requested assets to tickets and keeps where each load stands.
#[derive(Debug)]
pub struct AssetRegistry {
    records: Vec<TicketRecord>,
}

impl View for AssetRegistry {
    type V = RegistryView;

    closed spec fn view(&self) -> RegistryView {
        RegistryView { records: Seq::new(self.records@.len(), |i: int| self.records@[i]@) }
    }
}

impl AssetRegistry {
    /// A registry that has issued no ticket.
    pub fn new() -> (registry: AssetRegistry)
        ensures
            registry@.records.len() == 0,
    {
        AssetRegistry { records: Vec::new() }
    }

    /// How many tickets were issued.
    pub fn len(&self) -> (n: usize)
        ensures
            n == self@.records.len(),
    {
        self.records.len()
    }

    /// Issues a ticket for a new load of `name`. The load starts as pending;
    /// the host reports how it ended with `resolve` or `fail`.
    pub fn request(&mut self, name: String, kind: AssetKind) -> (ticket: AssetTicket)
        ensures
            ticket.id == old(self)@.records.len(),
            ticket.kind == kind,
            final(self)@ == old(self)@.with_request(name@, kind),
            old(self)@.leads_to(final(self)@),
    {
        let id: usize = self.records.len();
        self.records.push(TicketRecord { name, kind, state: TicketState::Pending });
        assert(self@.records =~= old(self)@.with_request(name@, kind).records);
        AssetTicket { id, kind }
    }

    /// Where the load behind `ticket` stands; `None` for a ticket that this
    /// registry did not issue.
    pub fn status(&self, ticket: AssetTicket) -> (status: Option<TicketStatus>)
        ensures
            status == self@.status(ticket),
    {
        if ticket.id < self.records.len() && self.records[ticket.id].kind == ticket.kind {
            match self.records[ticket.id].state {
                TicketState::Pending => Some(TicketStatus::Pending),
                TicketState::Resolved(_) => Some(TicketStatus::Resolved),
                TicketState::Failed => Some(TicketStatus::Failed),
            }
        } else {
            None
        }
    }

    /// Whether the load has ended well. Never blocks.
    pub fn is_resolved(&self, ticket: AssetTicket) -> (resolved: bool)
        ensures
            resolved == self@.resolved(ticket),
    {
        match self.status(ticket) {
            Some(TicketStatus::Resolved) => true,
            _ => false,
        }
    }

    /// Whether the load has ended in a decode error.
    pub fn is_failed(&self, ticket: AssetTicket) -> (failed: bool)
        ensures
            failed == self@.failed(ticket),
    {
        match self.status(ticket) {
            Some(TicketStatus::Failed) => true,
            _ => false,
        }
    }

    /// The decoded payload, present once the ticket is resolved and not before.
    pub fn get(&self, ticket: AssetTicket) -> (payload: Option<&DecodedAsset>)
        ensures
            payload is Some <==> self@.resolved(ticket),
            match payload {
                Some(asset) => self@.payload(ticket) == Some(asset@),
                None => self@.payload(ticket) is None,
            },
    {
        if ticket.id < self.records.len() && self.records[ticket.id].kind == ticket.kind {
            match &self.records[ticket.id].state {
                TicketState::Resolved(asset) => Some(asset),
                _ => None,
            }
        } else {
            None
        }
    }
    /// How the load behind `ticket` ended: nothing while it is pending or for
    /// a ticket that this registry did not issue, the payload once it is
    /// resolved, and the decode error once it has failed.
    pub fn outcome(&self, ticket: AssetTicket) -> (outcome: Option<Result<&DecodedAsset, AssetError>>)
        ensures
            match outcome {
                None => !self@.resolved(ticket) && !self@.failed(ticket),
                Some(Ok(asset)) => self@.payload(ticket) == Some(asset@),
                Some(Err(error)) => error is DecodeError && self@.failed(ticket),
            },
    {
        if ticket.id < self.records.len() && self.records[ticket.id].kind == ticket.kind {
            match &self.records[ticket.id].state {
                TicketState::Pending => None,
                TicketState::Resolved(asset) => Some(Ok(asset)),
                TicketState::Failed => Some(Err(AssetError::DecodeError)),
            }
        } else {
            None
        }
    }

    /// Records that the load behind `ticket` was decoded. Only a pending load
    /// can end: on any other ticket nothing changes and `false` comes back.
    pub fn resolve(&mut self, ticket: AssetTicket, asset: DecodedAsset) -> (applied: bool)
        ensures
            applied == old(self)@.pending(ticket),
            applied ==> final(self)@ == old(self)@.with_state(ticket, StateView::Resolved(asset@)),
            !applied ==> final(self)@ == old(self)@,
            old(self)@.leads_to(final(self)@),
    {
        match self.status(ticket) {
            Some(TicketStatus::Pending) => {
                self.records[ticket.id].state = TicketState::Resolved(asset);
                assert(self@.records =~= old(self)@.with_state(
                    ticket,
                    StateView::Resolved(asset@),
                ).records);
                true
            },
            _ => false,
        }
    }

    /// Records that the decoder could not parse the asset behind `ticket`.
    /// Only a pending load can end: on any other ticket nothing changes and
    /// `false` comes back.
    pub fn fail(&mut self, ticket: AssetTicket) -> (applied: bool)
        ensures
            applied == old(self)@.pending(ticket),
            applied ==> final(self)@ == old(self)@.with_state(ticket, StateView::Failed),
            !applied ==> final(self)@ == old(self)@,
            old(self)@.leads_to(final(self)@),
    {
        match self.status(ticket) {
            Some(TicketStatus::Pending) => {
                self.records[ticket.id].state = TicketState::Failed;
                assert(self@.records =~= old(self)@.with_state(ticket, StateView::Failed).records);
                true
            },
            _ => false,
        }
    }

    /// The latest ticket requested under `name`.
    pub fn find(&self, name: &String) -> (found: Option<AssetTicket>)
        ensures
            match found {
                Some(ticket) => self@.issued(ticket) && self@.is_latest(name@, ticket.id as int),
                None => self@.unknown(name@),
            },
    {
        let mut i: usize = self.records.len();
        while i > 0
            invariant
                i <= self.records.len(),
                forall|j: int| i <= j < self@.records.len() ==> (#[trigger] self@.records[j]).name != name@,
            decreases i,
        {
            i = i - 1;
            if self.records[i].name == *name {
                return Some(AssetTicket { id: i, kind: self.records[i].kind });
            }
        }
        None
    }
}

} // verus!
