//! The state machine of one provisioning run.
//!
//! One run is a fixed sequence: resolve the instance identity, sleep a
//! jittered delay, load the locally cached record or allocate a fresh one,
//! persist it, look up the addresses currently associated with the instance,
//! and associate the record only if none of them carries its allocation id.
//! Every step that touches the outside world (the identity endpoint, the
//! record file, the provider's API) is performed by the surrounding process;
//! its outcome comes back as an [`Event`], and [`step`] decides what happens
//! next. Every failure is terminal for the run: recovery is re-invocation,
//! and the persisted record guarantees that a re-run never allocates twice.

use vstd::prelude::*;

use crate::eip::{eips_view, has_allocation, needs_association, Eip, EipView};
use crate::flags::{Flags, FlagsView};

verus! {

/// How a completed run ended: the instance already held the crate's own
/// allocation id, or one association call was made.
#[derive(Debug, Clone, Copy, PartialEq, Eq, Structural)]
pub enum Outcome {
    AlreadyAssociated,
    NewlyAssociated,
}

/// Why a run failed. Every variant is terminal: nothing is retried within a
/// run. The `retryable` flags merely pass on the provider's hint, for an
/// external supervisor's restart policy.
#[derive(Debug, Clone, Copy, PartialEq, Eq, Structural)]
pub enum RunError {
    IdentityUnavailable,
    RecordCorrupt,
    PersistFailed,
    AllocationFailed { retryable: bool },
    AssociationFailed { retryable: bool },
}

/// Where a run stands. Each non-terminal state names the one outside action
/// the surrounding process must perform next; the action's outcome comes
/// back as the matching [`Event`].
#[derive(Debug, Clone, PartialEq, Eq)]
pub enum State {
    /// Ask the runtime environment for the instance's identity.
    ResolvingIdentity,
    /// Draw the jittered startup delay (entered only when the configured
    /// bound is positive).
    DrawingJitter { instance_id: String },
    /// Sleep for `seconds` (entered only when the drawn delay is positive).
    Sleeping { instance_id: String, seconds: u32 },
    /// Check whether the local record file exists.
    CheckingRecord { instance_id: String },
    /// Load the existing local record.
    LoadingRecord { instance_id: String },
    /// Allocate a fresh address, tagged with both configured pairs.
    Allocating {
        instance_id: String,
        id_tag_key: String,
        id_tag_value: String,
        kind_tag_key: String,
        kind_tag_value: String,
    },
    /// Write the record back to the local file (always, even when it was
    /// just loaded: the on-disk copy must reflect the last known-good
    /// record).
    Persisting { instance_id: String, eip: Eip },
    /// Ask the provider which addresses are associated with the instance.
    LookingUp { instance_id: String, eip: Eip },
    /// Associate the record's allocation id with the instance.
    Associating { instance_id: String, eip: Eip },
    /// The run finished; `eip` is the reconciled record.
    Done { eip: Eip, outcome: Outcome },
    /// The run failed; nothing further may be attempted in this run.
    Failed { error: RunError },
}

/// The outcome of one outside action, fed back into [`step`].
#[derive(Debug, Clone, PartialEq, Eq)]
pub enum Event {
    IdentityResolved { instance_id: String },
    IdentityFailed,
    JitterDrawn { seconds: u32 },
    Slept,
    RecordChecked { exists: bool },
    RecordLoaded { eip: Eip },
    RecordUnparseable,
    Allocated { eip: Eip },
    AllocationRefused { retryable: bool },
    Persisted,
    PersistRefused,
    LookupCompleted { eips: Vec<Eip> },
    LookupRefused { retryable: bool },
    Associated,
    AssociationRefused { retryable: bool },
}

/// Mathematical image of a [`State`].
pub enum StateView {
    ResolvingIdentity,
    DrawingJitter { instance_id: Seq<char> },
    Sleeping { instance_id: Seq<char>, seconds: u32 },
    CheckingRecord { instance_id: Seq<char> },
    LoadingRecord { instance_id: Seq<char> },
    Allocating {
        instance_id: Seq<char>,
        id_tag_key: Seq<char>,
        id_tag_value: Seq<char>,
        kind_tag_key: Seq<char>,
        kind_tag_value: Seq<char>,
    },
    Persisting { instance_id: Seq<char>, eip: EipView },
    LookingUp { instance_id: Seq<char>, eip: EipView },
    Associating { instance_id: Seq<char>, eip: EipView },
    Done { eip: EipView, outcome: Outcome },
    Failed { error: RunError },
}

/// Mathematical image of an [`Event`].
pub enum EventView {
    IdentityResolved { instance_id: Seq<char> },
    IdentityFailed,
    JitterDrawn { seconds: u32 },
    Slept,
    RecordChecked { exists: bool },
    RecordLoaded { eip: EipView },
    RecordUnparseable,
    Allocated { eip: EipView },
    AllocationRefused { retryable: bool },
    Persisted,
    PersistRefused,
    LookupCompleted { eips: Seq<EipView> },
    LookupRefused { retryable: bool },
    Associated,
    AssociationRefused { retryable: bool },
}

impl View for State {
    type V = StateView;

    open spec fn view(&self) -> StateView {
        match self {
            State::ResolvingIdentity => StateView::ResolvingIdentity,
            State::DrawingJitter { instance_id } => StateView::DrawingJitter {
                instance_id: instance_id@,
            },
            State::Sleeping { instance_id, seconds } => StateView::Sleeping {
                instance_id: instance_id@,
                seconds: *seconds,
            },
            State::CheckingRecord { instance_id } => StateView::CheckingRecord {
                instance_id: instance_id@,
            },
            State::LoadingRecord { instance_id } => StateView::LoadingRecord {
                instance_id: instance_id@,
            },
            State::Allocating {
                instance_id,
                id_tag_key,
                id_tag_value,
                kind_tag_key,
                kind_tag_value,
            } => StateView::Allocating {
                instance_id: instance_id@,
                id_tag_key: id_tag_key@,
                id_tag_value: id_tag_value@,
                kind_tag_key: kind_tag_key@,
                kind_tag_value: kind_tag_value@,
            },
            State::Persisting { instance_id, eip } => StateView::Persisting {
                instance_id: instance_id@,
                eip: eip@,
            },
            State::LookingUp { instance_id, eip } => StateView::LookingUp {
                instance_id: instance_id@,
                eip: eip@,
            },
            State::Associating { instance_id, eip } => StateView::Associating {
                instance_id: instance_id@,
                eip: eip@,
            },
            State::Done { eip, outcome } => StateView::Done { eip: eip@, outcome: *outcome },
            State::Failed { error } => StateView::Failed { error: *error },
        }
    }
}

impl View for Event {
    type V = EventView;

    open spec fn view(&self) -> EventView {
        match self {
            Event::IdentityResolved { instance_id } => EventView::IdentityResolved {
                instance_id: instance_id@,
            },
            Event::IdentityFailed => EventView::IdentityFailed,
            Event::JitterDrawn { seconds } => EventView::JitterDrawn { seconds: *seconds },
            Event::Slept => EventView::Slept,
            Event::RecordChecked { exists } => EventView::RecordChecked { exists: *exists },
            Event::RecordLoaded { eip } => EventView::RecordLoaded { eip: eip@ },
            Event::RecordUnparseable => EventView::RecordUnparseable,
            Event::Allocated { eip } => EventView::Allocated { eip: eip@ },
            Event::AllocationRefused { retryable } => EventView::AllocationRefused {
                retryable: *retryable,
            },
            Event::Persisted => EventView::Persisted,
            Event::PersistRefused => EventView::PersistRefused,
            Event::LookupCompleted { eips } => EventView::LookupCompleted {
                eips: eips_view(eips@),
            },
            Event::LookupRefused { retryable } => EventView::LookupRefused {
                retryable: *retryable,
            },
            Event::Associated => EventView::Associated,
            Event::AssociationRefused { retryable } => EventView::AssociationRefused {
                retryable: *retryable,
            },
        }
    }
}

/// A run is over once it is `Done` or `Failed`.
pub open spec fn is_terminal(s: StateView) -> bool {
    s is Done || s is Failed
}

/// What [`step`] computes, state by state. An event that does not answer
/// the pending action leaves the state unchanged.
pub open spec fn step_spec(cfg: FlagsView, s: StateView, e: EventView) -> StateView {
    match (s, e) {
        (StateView::ResolvingIdentity, EventView::IdentityResolved { instance_id }) => {
            if cfg.initial_wait_random_seconds == 0 {
                StateView::CheckingRecord { instance_id }
            } else {
                StateView::DrawingJitter { instance_id }
            }
        },
        (StateView::ResolvingIdentity, EventView::IdentityFailed) => StateView::Failed {
            error: RunError::IdentityUnavailable,
        },
        (StateView::DrawingJitter { instance_id }, EventView::JitterDrawn { seconds }) => {
            if seconds == 0 {
                StateView::CheckingRecord { instance_id }
            } else {
                StateView::Sleeping { instance_id, seconds }
            }
        },
        (StateView::Sleeping { instance_id, .. }, EventView::Slept) => StateView::CheckingRecord {
            instance_id,
        },
        (StateView::CheckingRecord { instance_id }, EventView::RecordChecked { exists }) => {
            if exists {
                StateView::LoadingRecord { instance_id }
            } else {
                StateView::Allocating {
                    instance_id,
                    id_tag_key: cfg.id_tag_key,
                    id_tag_value: cfg.id_tag_value,
                    kind_tag_key: cfg.kind_tag_key,
                    kind_tag_value: cfg.kind_tag_value,
                }
            }
        },
        (StateView::LoadingRecord { instance_id }, EventView::RecordLoaded { eip }) => {
            StateView::Persisting { instance_id, eip }
        },
        (StateView::LoadingRecord { .. }, EventView::RecordUnparseable) => StateView::Failed {
            error: RunError::RecordCorrupt,
        },
        (StateView::Allocating { instance_id, .. }, EventView::Allocated { eip }) => {
            StateView::Persisting { instance_id, eip }
        },
        (StateView::Allocating { .. }, EventView::AllocationRefused { retryable }) => {
            StateView::Failed { error: RunError::AllocationFailed { retryable } }
        },
        (StateView::Persisting { instance_id, eip }, EventView::Persisted) => {
            StateView::LookingUp { instance_id, eip }
        },
        (StateView::Persisting { .. }, EventView::PersistRefused) => StateView::Failed {
            error: RunError::PersistFailed,
        },
        (StateView::LookingUp { instance_id, eip }, EventView::LookupCompleted { eips }) => {
            if has_allocation(eips, eip.allocation_id) {
                StateView::Done { eip, outcome: Outcome::AlreadyAssociated }
            } else {
                StateView::Associating { instance_id, eip }
            }
        },
        (StateView::LookingUp { .. }, EventView::LookupRefused { retryable }) => {
            StateView::Failed { error: RunError::AssociationFailed { retryable } }
        },
        (StateView::Associating { eip, .. }, EventView::Associated) => StateView::Done {
            eip,
            outcome: Outcome::NewlyAssociated,
        },
        (StateView::Associating { .. }, EventView::AssociationRefused { retryable }) => {
            StateView::Failed { error: RunError::AssociationFailed { retryable } }
        },
        (s2, _) => s2,
    }
}

/// The state every run begins in.
pub fn initial_state() -> (r: State)
    ensures
        r@ == StateView::ResolvingIdentity,
{
    State::ResolvingIdentity
}

/// Advances the run by one event. Pure: the one decision with outside input,
/// the matching rule on a lookup's result, is taken by
/// [`needs_association`]; everything else is the fixed sequence of
/// [`step_spec`].
pub fn step(flags: &Flags, s: State, e: Event) -> (r: State)
    ensures
        r@ == step_spec(flags@, s@, e@),
{
    match (s, e) {
        (State::ResolvingIdentity, Event::IdentityResolved { instance_id }) => {
            if flags.initial_wait_random_seconds == 0 {
                State::CheckingRecord { instance_id }
            } else {
                State::DrawingJitter { instance_id }
            }
        },
        (State::ResolvingIdentity, Event::IdentityFailed) => State::Failed {
            error: RunError::IdentityUnavailable,
        },
        (State::DrawingJitter { instance_id }, Event::JitterDrawn { seconds }) => {
            if seconds == 0 {
                State::CheckingRecord { instance_id }
            } else {
                State::Sleeping { instance_id, seconds }
            }
        },
        (State::Sleeping { instance_id, .. }, Event::Slept) => State::CheckingRecord {
            instance_id,
        },
        (State::CheckingRecord { instance_id }, Event::RecordChecked { exists }) => {
            if exists {
                State::LoadingRecord { instance_id }
            } else {
                State::Allocating {
                    instance_id,
                    id_tag_key: flags.id_tag_key.clone(),
                    id_tag_value: flags.id_tag_value.clone(),
                    kind_tag_key: flags.kind_tag_key.clone(),
                    kind_tag_value: flags.kind_tag_value.clone(),
                }
            }
        },
        (State::LoadingRecord { instance_id }, Event::RecordLoaded { eip }) => State::Persisting {
            instance_id,
            eip,
        },
        (State::LoadingRecord { .. }, Event::RecordUnparseable) => State::Failed {
            error: RunError::RecordCorrupt,
        },
        (State::Allocating { instance_id, .. }, Event::Allocated { eip }) => State::Persisting {
            instance_id,
            eip,
        },
        (State::Allocating { .. }, Event::AllocationRefused { retryable }) => State::Failed {
            error: RunError::AllocationFailed { retryable },
        },
        (State::Persisting { instance_id, eip }, Event::Persisted) => State::LookingUp {
            instance_id,
            eip,
        },
        (State::Persisting { .. }, Event::PersistRefused) => State::Failed {
            error: RunError::PersistFailed,
        },
        (State::LookingUp { instance_id, eip }, Event::LookupCompleted { eips }) => {
            if needs_association(&eips, &eip.allocation_id) {
                State::Associating { instance_id, eip }
            } else {
                State::Done { eip, outcome: Outcome::AlreadyAssociated }
            }
        },
        (State::LookingUp { .. }, Event::LookupRefused { retryable }) => State::Failed {
            error: RunError::AssociationFailed { retryable },
        },
        (State::Associating { eip, .. }, Event::Associated) => State::Done {
            eip,
            outcome: Outcome::NewlyAssociated,
        },
        (State::Associating { .. }, Event::AssociationRefused { retryable }) => State::Failed {
            error: RunError::AssociationFailed { retryable },
        },
        (s2, _) => s2,
    }
}

/// The matching rule, as a law: a lookup result that carries the record's
/// own allocation id anywhere — whatever the other entries, positions or
/// address values — ends the run as `AlreadyAssociated`, and no association
/// state is entered.
pub proof fn lemma_match_by_id_means_already_associated(
    cfg: FlagsView,
    instance_id: Seq<char>,
    eip: EipView,
    eips: Seq<EipView>,
)
    requires
        has_allocation(eips, eip.allocation_id),
    ensures
        step_spec(
            cfg,
            StateView::LookingUp { instance_id, eip },
            EventView::LookupCompleted { eips },
        ) == (StateView::Done { eip, outcome: Outcome::AlreadyAssociated }),
{
}

/// The empty-lookup law: when the provider reports no address at all for
/// the instance, the run always moves to exactly one association call, and
/// that call carries the record's own allocation id.
pub proof fn lemma_empty_lookup_triggers_association(
    cfg: FlagsView,
    instance_id: Seq<char>,
    eip: EipView,
    eips: Seq<EipView>,
)
    requires
        eips.len() == 0,
    ensures
        step_spec(
            cfg,
            StateView::LookingUp { instance_id, eip },
            EventView::LookupCompleted { eips },
        ) == (StateView::Associating { instance_id, eip }),
{
}

} // verus!
