//! A model of the world one run acts in, and the laws of whole runs.
//!
//! [`EnvModel`] holds everything outside the process that a run can observe
//! or change: whether the identity endpoint answers, what the local record
//! file holds, which addresses the provider reports for the instance, and
//! whether each provider call would succeed. [`run`] plays a complete run of
//! the state machine against such a world, counting every invocation of the
//! allocator and every sleep, and returning the world as the run leaves it.
//! The laws below — idempotence, no duplicate allocation, corrupt record is
//! fatal — are proved over this model, for every world and configuration.

use vstd::prelude::*;

use crate::eip::{has_allocation, EipView};
use crate::flags::FlagsView;
use crate::machine::{is_terminal, step_spec, EventView, Outcome, RunError, StateView};

verus! {

/// What the local record file holds.
pub enum StoredRecord {
    /// No file at the configured path.
    Absent,
    /// A file that does not parse into a well-formed record.
    Corrupt,
    /// A well-formed record.
    Stored { eip: EipView },
}

/// What the allocator would answer if it were invoked.
pub enum AllocOutcome {
    Granted { eip: EipView },
    Refused { retryable: bool },
}

/// Everything outside the process that one run can observe or change.
pub struct EnvModel {
    /// The instance identity, or `None` when the identity endpoint is
    /// unreachable or answers malformed data.
    pub identity: Option<Seq<char>>,
    /// What the record file holds.
    pub stored: StoredRecord,
    /// The raw jitter the delay draw would yield.
    pub jitter: u32,
    /// The addresses the provider currently reports as associated with the
    /// instance. Foreign tooling may have attached addresses of its own;
    /// the run only inspects them.
    pub associated: Seq<EipView>,
    /// What the allocator would answer.
    pub allocation: AllocOutcome,
    /// Whether a persist call would succeed.
    pub persist_ok: bool,
    /// Whether a lookup call would succeed, and the provider's retry hint
    /// if it would not.
    pub lookup_ok: bool,
    pub lookup_retryable: bool,
    /// Whether an associate call would succeed, and the provider's retry
    /// hint if it would not.
    pub associate_ok: bool,
    pub associate_retryable: bool,
}

/// The event the world answers to the action pending in state `s`.
pub open spec fn env_event(env: EnvModel, s: StateView) -> EventView {
    match s {
        StateView::ResolvingIdentity => match env.identity {
            Option::Some(id) => EventView::IdentityResolved { instance_id: id },
            Option::None => EventView::IdentityFailed,
        },
        StateView::DrawingJitter { .. } => EventView::JitterDrawn { seconds: env.jitter },
        StateView::Sleeping { .. } => EventView::Slept,
        StateView::CheckingRecord { .. } => EventView::RecordChecked {
            exists: !(env.stored is Absent),
        },
        StateView::LoadingRecord { .. } => match env.stored {
            StoredRecord::Stored { eip } => EventView::RecordLoaded { eip },
            _ => EventView::RecordUnparseable,
        },
        StateView::Allocating { .. } => match env.allocation {
            AllocOutcome::Granted { eip } => EventView::Allocated { eip },
            AllocOutcome::Refused { retryable } => EventView::AllocationRefused { retryable },
        },
        StateView::Persisting { .. } => if env.persist_ok {
            EventView::Persisted
        } else {
            EventView::PersistRefused
        },
        StateView::LookingUp { .. } => if env.lookup_ok {
            EventView::LookupCompleted { eips: env.associated }
        } else {
            EventView::LookupRefused { retryable: env.lookup_retryable }
        },
        StateView::Associating { .. } => if env.associate_ok {
            EventView::Associated
        } else {
            EventView::AssociationRefused { retryable: env.associate_retryable }
        },
        // Terminal states ask for nothing; the value is never used.
        _ => EventView::Slept,
    }
}

/// How the world changes when the action pending in state `s` runs. A
/// successful persist overwrites the record file; a successful associate
/// adds the record to what the provider reports. A fresh allocation creates
/// a resource but associates nothing, so nothing this model observes moves.
pub open spec fn env_after(env: EnvModel, s: StateView) -> EnvModel {
    match s {
        StateView::Persisting { eip, .. } => if env.persist_ok {
            EnvModel { stored: StoredRecord::Stored { eip }, ..env }
        } else {
            env
        },
        StateView::Associating { eip, .. } => if env.associate_ok {
            EnvModel { associated: env.associated.push(eip), ..env }
        } else {
            env
        },
        _ => env,
    }
}

/// Where a run ended, the world it left behind, and how often it slept and
/// invoked the allocator.
pub struct RunResult {
    pub state: StateView,
    pub env: EnvModel,
    pub allocator_calls: nat,
    pub sleeps: nat,
}

/// Plays the machine against the world from state `s`, for at most `fuel`
/// transitions.
pub open spec fn run_from(cfg: FlagsView, env: EnvModel, s: StateView, fuel: nat) -> RunResult
    decreases fuel,
{
    if fuel == 0 || is_terminal(s) {
        RunResult { state: s, env, allocator_calls: 0, sleeps: 0 }
    } else {
        let allocs: nat = if s is Allocating {
            1
        } else {
            0
        };
        let slept: nat = if s is Sleeping {
            1
        } else {
            0
        };
        let rest = run_from(
            cfg,
            env_after(env, s),
            step_spec(cfg, s, env_event(env, s)),
            (fuel - 1) as nat,
        );
        RunResult {
            state: rest.state,
            env: rest.env,
            allocator_calls: rest.allocator_calls + allocs,
            sleeps: rest.sleeps + slept,
        }
    }
}

/// One complete run from the start. The longest possible run takes eight
/// transitions; nine units of fuel therefore always reach a terminal state.
pub open spec fn run(cfg: FlagsView, env: EnvModel) -> RunResult {
    run_from(cfg, env, StateView::ResolvingIdentity, 9)
}

/// Every run reaches a terminal state: it either finishes or fails, within
/// the fuel [`run`] grants.
pub proof fn lemma_run_terminates(cfg: FlagsView, env: EnvModel)
    ensures
        is_terminal(run(cfg, env).state),
{
    reveal_with_fuel(run_from, 10);
}

/// No duplicate allocation: as soon as a local record exists — well-formed
/// or not — a run never invokes the allocator, whatever the lookup reports
/// and however the run ends.
pub proof fn lemma_no_duplicate_allocation(cfg: FlagsView, env: EnvModel)
    requires
        !(env.stored is Absent),
    ensures
        run(cfg, env).allocator_calls == 0,
{
    reveal_with_fuel(run_from, 10);
}

/// A corrupt record is fatal, not a trigger for re-allocation: when the
/// record file exists but does not parse, a run that gets past identity
/// resolution fails with `RecordCorrupt`, invokes the allocator not once,
/// and leaves the world untouched.
pub proof fn lemma_corrupt_record_is_fatal(cfg: FlagsView, env: EnvModel)
    requires
        env.stored is Corrupt,
        env.identity is Some,
    ensures
        run(cfg, env).state == (StateView::Failed { error: RunError::RecordCorrupt }),
        run(cfg, env).allocator_calls == 0,
        run(cfg, env).env == env,
{
    reveal_with_fuel(run_from, 10);
}

/// The jitter gate: with a configured bound of zero the run never sleeps at
/// all, and neither does it when the drawn delay is zero.
pub proof fn lemma_zero_jitter_means_no_sleep(cfg: FlagsView, env: EnvModel)
    ensures
        cfg.initial_wait_random_seconds == 0 ==> run(cfg, env).sleeps == 0,
        env.jitter == 0 ==> run(cfg, env).sleeps == 0,
{
    reveal_with_fuel(run_from, 10);
}

/// The shape every successful run leaves the world in: the reconciled
/// record sits in the file, the provider reports its allocation id for the
/// instance, and nothing the run depended on has been disturbed.
pub open spec fn reconciled(env: EnvModel, eip: EipView) -> bool {
    &&& env.identity is Some
    &&& env.stored == StoredRecord::Stored { eip }
    &&& env.persist_ok
    &&& env.lookup_ok
    &&& has_allocation(env.associated, eip.allocation_id)
}

/// A successful run reconciles: whatever record it ends `Done` with, the
/// world it leaves satisfies [`reconciled`] for that record.
pub proof fn lemma_done_run_reconciles(cfg: FlagsView, env: EnvModel)
    requires
        run(cfg, env).state is Done,
    ensures
        reconciled(run(cfg, env).env, run(cfg, env).state->Done_eip),
{
    reveal_with_fuel(run_from, 10);
    assert forall|s: Seq<EipView>, e: EipView| #[trigger] has_allocation(
        s.push(e),
        e.allocation_id,
    ) by {
        assert(s.push(e)[s.len() as int] == e);
    }
}

/// A run against a reconciled world is a pure verification pass: it ends
/// `Done` with outcome `AlreadyAssociated` on the same record, invokes the
/// allocator not once, issues no associate call, and leaves the world
/// exactly as it found it.
pub proof fn lemma_reconciled_run_is_noop(cfg: FlagsView, env: EnvModel, eip: EipView)
    requires
        reconciled(env, eip),
    ensures
        run(cfg, env).state == (StateView::Done { eip, outcome: Outcome::AlreadyAssociated }),
        run(cfg, env).allocator_calls == 0,
        run(cfg, env).env == env,
{
    reveal_with_fuel(run_from, 10);
}

/// Idempotence: after any successful run, running the whole sequence again
/// with no external state change ends `AlreadyAssociated` on the same
/// record, allocates nothing, and leaves the persisted record — indeed the
/// whole world — unchanged.
pub proof fn lemma_idempotent(cfg: FlagsView, env: EnvModel)
    requires
        run(cfg, env).state is Done,
    ensures
        run(cfg, run(cfg, env).env).state == (StateView::Done {
            eip: run(cfg, env).state->Done_eip,
            outcome: Outcome::AlreadyAssociated,
        }),
        run(cfg, run(cfg, env).env).allocator_calls == 0,
        run(cfg, run(cfg, env).env).env == run(cfg, env).env,
{
    let first = run(cfg, env);
    lemma_done_run_reconciles(cfg, env);
    lemma_reconciled_run_is_noop(cfg, first.env, first.state->Done_eip);
}

} // verus!
