//! Whole runs of the state machine against an in-memory world.

use aws_ip_provisioner::eip::Eip;
use aws_ip_provisioner::flags::Flags;
use aws_ip_provisioner::machine::{initial_state, step, Event, Outcome, RunError, State};

#[derive(Clone, Debug, PartialEq)]
enum Disk {
    Absent,
    Corrupt,
    Stored(Eip),
}

/// Everything outside the process, held in memory.
#[derive(Clone)]
struct World {
    identity: Option<String>,
    disk: Disk,
    jitter: u32,
    associated: Vec<Eip>,
    allocation: Result<Eip, bool>,
    persist_ok: bool,
    lookup_ok: bool,
    associate_ok: bool,
}

#[derive(Default)]
struct Counts {
    allocate_calls: usize,
    allocate_tags: Vec<(String, String, String, String)>,
    persist_calls: usize,
    associate_calls: Vec<String>,
    sleep_calls: usize,
}

fn drive(flags: &Flags, world: &mut World) -> (State, Counts) {
    let mut counts = Counts::default();
    let mut state = initial_state();
    for _ in 0..20 {
        if matches!(state, State::Done { .. } | State::Failed { .. }) {
            return (state, counts);
        }
        let event = match &state {
            State::ResolvingIdentity => match &world.identity {
                Some(id) => Event::IdentityResolved { instance_id: id.clone() },
                None => Event::IdentityFailed,
            },
            State::DrawingJitter { .. } => Event::JitterDrawn { seconds: world.jitter },
            State::Sleeping { .. } => {
                counts.sleep_calls += 1;
                Event::Slept
            }
            State::CheckingRecord { .. } => {
                Event::RecordChecked { exists: world.disk != Disk::Absent }
            }
            State::LoadingRecord { .. } => match &world.disk {
                Disk::Stored(eip) => Event::RecordLoaded { eip: eip.clone() },
                _ => Event::RecordUnparseable,
            },
            State::Allocating { id_tag_key, id_tag_value, kind_tag_key, kind_tag_value, .. } => {
                counts.allocate_calls += 1;
                counts.allocate_tags.push((
                    id_tag_key.clone(),
                    id_tag_value.clone(),
                    kind_tag_key.clone(),
                    kind_tag_value.clone(),
                ));
                match &world.allocation {
                    Ok(eip) => Event::Allocated { eip: eip.clone() },
                    Err(retryable) => Event::AllocationRefused { retryable: *retryable },
                }
            }
            State::Persisting { eip, .. } => {
                counts.persist_calls += 1;
                if world.persist_ok {
                    world.disk = Disk::Stored(eip.clone());
                    Event::Persisted
                } else {
                    Event::PersistRefused
                }
            }
            State::LookingUp { .. } => {
                if world.lookup_ok {
                    Event::LookupCompleted { eips: world.associated.clone() }
                } else {
                    Event::LookupRefused { retryable: true }
                }
            }
            State::Associating { eip, .. } => {
                counts.associate_calls.push(eip.allocation_id.clone());
                if world.associate_ok {
                    world.associated.push(eip.clone());
                    Event::Associated
                } else {
                    Event::AssociationRefused { retryable: false }
                }
            }
            State::Done { .. } | State::Failed { .. } => unreachable!(),
        };
        state = step(flags, state, event);
    }
    panic!("the run did not reach a terminal state");
}

fn flags() -> Flags {
    Flags {
        log_level: String::from("info"),
        initial_wait_random_seconds: 5,
        id_tag_key: String::from("Id"),
        id_tag_value: String::from("TEST-ID"),
        kind_tag_key: String::from("Kind"),
        kind_tag_value: String::from("aws-ip-provisioner"),
        mounted_eip_file_path: String::from("/data/eip.yaml"),
    }
}

fn eip(allocation_id: &str, public_ip: &str) -> Eip {
    Eip { allocation_id: String::from(allocation_id), public_ip: String::from(public_ip) }
}

fn cold_world() -> World {
    World {
        identity: Some(String::from("i-123")),
        disk: Disk::Absent,
        jitter: 2,
        associated: Vec::new(),
        allocation: Ok(eip("eipalloc-1", "1.2.3.4")),
        persist_ok: true,
        lookup_ok: true,
        associate_ok: true,
    }
}

#[test]
fn cold_start_allocates_persists_and_associates_once() {
    let f = flags();
    let mut world = cold_world();
    let (state, counts) = drive(&f, &mut world);
    assert_eq!(
        state,
        State::Done { eip: eip("eipalloc-1", "1.2.3.4"), outcome: Outcome::NewlyAssociated }
    );
    assert_eq!(counts.allocate_calls, 1);
    assert_eq!(
        counts.allocate_tags,
        vec![(
            String::from("Id"),
            String::from("TEST-ID"),
            String::from("Kind"),
            String::from("aws-ip-provisioner"),
        )]
    );
    assert_eq!(counts.persist_calls, 1);
    assert_eq!(counts.associate_calls, vec![String::from("eipalloc-1")]);
    assert_eq!(world.disk, Disk::Stored(eip("eipalloc-1", "1.2.3.4")));
}

#[test]
fn second_run_is_a_no_op() {
    let f = flags();
    let mut world = cold_world();
    let (first_state, _) = drive(&f, &mut world);
    assert!(matches!(first_state, State::Done { .. }));

    let disk_between = world.disk.clone();
    let (second_state, counts) = drive(&f, &mut world);
    assert_eq!(
        second_state,
        State::Done { eip: eip("eipalloc-1", "1.2.3.4"), outcome: Outcome::AlreadyAssociated }
    );
    assert_eq!(counts.allocate_calls, 0);
    assert_eq!(counts.associate_calls.len(), 0);
    assert_eq!(counts.persist_calls, 1);
    assert_eq!(world.disk, disk_between);
}

#[test]
fn existing_record_is_never_reallocated() {
    let f = flags();

    // Lookup reports nothing: the record is re-associated, not re-allocated.
    let mut world = cold_world();
    world.disk = Disk::Stored(eip("eipalloc-7", "4.3.2.1"));
    let (state, counts) = drive(&f, &mut world);
    assert_eq!(
        state,
        State::Done { eip: eip("eipalloc-7", "4.3.2.1"), outcome: Outcome::NewlyAssociated }
    );
    assert_eq!(counts.allocate_calls, 0);
    assert_eq!(counts.associate_calls, vec![String::from("eipalloc-7")]);

    // Lookup reports the record: nothing is called at all.
    let mut world = cold_world();
    world.disk = Disk::Stored(eip("eipalloc-7", "4.3.2.1"));
    world.associated = vec![eip("eipalloc-7", "4.3.2.1")];
    let (state, counts) = drive(&f, &mut world);
    assert_eq!(
        state,
        State::Done { eip: eip("eipalloc-7", "4.3.2.1"), outcome: Outcome::AlreadyAssociated }
    );
    assert_eq!(counts.allocate_calls, 0);
    assert_eq!(counts.associate_calls.len(), 0);

    // Even a failing association never re-allocates.
    let mut world = cold_world();
    world.disk = Disk::Stored(eip("eipalloc-7", "4.3.2.1"));
    world.associate_ok = false;
    let (state, counts) = drive(&f, &mut world);
    assert_eq!(state, State::Failed { error: RunError::AssociationFailed { retryable: false } });
    assert_eq!(counts.allocate_calls, 0);
}

#[test]
fn corrupt_record_fails_without_allocating() {
    let f = flags();
    let mut world = cold_world();
    world.disk = Disk::Corrupt;
    let (state, counts) = drive(&f, &mut world);
    assert_eq!(state, State::Failed { error: RunError::RecordCorrupt });
    assert_eq!(counts.allocate_calls, 0);
    assert_eq!(counts.persist_calls, 0);
    assert_eq!(world.disk, Disk::Corrupt);
}

#[test]
fn failed_association_after_fresh_allocation_recovers_on_rerun() {
    let f = flags();
    let mut world = cold_world();
    world.associate_ok = false;
    let (state, counts) = drive(&f, &mut world);
    assert_eq!(state, State::Failed { error: RunError::AssociationFailed { retryable: false } });
    assert_eq!(counts.allocate_calls, 1);
    assert_eq!(world.disk, Disk::Stored(eip("eipalloc-1", "1.2.3.4")));

    // The next run finds the persisted record and only retries association.
    world.associate_ok = true;
    let (state, counts) = drive(&f, &mut world);
    assert_eq!(
        state,
        State::Done { eip: eip("eipalloc-1", "1.2.3.4"), outcome: Outcome::NewlyAssociated }
    );
    assert_eq!(counts.allocate_calls, 0);
    assert_eq!(counts.associate_calls, vec![String::from("eipalloc-1")]);
}

#[test]
fn unavailable_identity_is_fatal_before_any_call() {
    let f = flags();
    let mut world = cold_world();
    world.identity = None;
    let (state, counts) = drive(&f, &mut world);
    assert_eq!(state, State::Failed { error: RunError::IdentityUnavailable });
    assert_eq!(counts.allocate_calls, 0);
    assert_eq!(counts.persist_calls, 0);
    assert_eq!(counts.associate_calls.len(), 0);
}

#[test]
fn failing_persist_is_fatal() {
    let f = flags();
    let mut world = cold_world();
    world.persist_ok = false;
    let (state, _) = drive(&f, &mut world);
    assert_eq!(state, State::Failed { error: RunError::PersistFailed });
}

#[test]
fn failing_lookup_is_fatal() {
    let f = flags();
    let mut world = cold_world();
    world.lookup_ok = false;
    let (state, _) = drive(&f, &mut world);
    assert_eq!(state, State::Failed { error: RunError::AssociationFailed { retryable: true } });
}

#[test]
fn refused_allocation_is_fatal() {
    let f = flags();
    let mut world = cold_world();
    world.allocation = Err(true);
    let (state, counts) = drive(&f, &mut world);
    assert_eq!(state, State::Failed { error: RunError::AllocationFailed { retryable: true } });
    assert_eq!(counts.allocate_calls, 1);
    assert_eq!(counts.persist_calls, 0);
}

#[test]
fn zero_jitter_bound_never_sleeps() {
    let mut f = flags();
    f.initial_wait_random_seconds = 0;
    let mut world = cold_world();
    let (state, counts) = drive(&f, &mut world);
    assert!(matches!(state, State::Done { .. }));
    assert_eq!(counts.sleep_calls, 0);
}

#[test]
fn zero_drawn_delay_never_sleeps() {
    let f = flags();
    let mut world = cold_world();
    world.jitter = 0;
    let (state, counts) = drive(&f, &mut world);
    assert!(matches!(state, State::Done { .. }));
    assert_eq!(counts.sleep_calls, 0);
}
