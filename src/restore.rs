use vstd::prelude::*;

verus! {

/// Where a session restoration stands.
#[derive(Clone, Copy, Debug, PartialEq, Eq, Structural)]
pub enum RestorePhase {
    Uninitialized,
    KeystoreReady,
    Migrated,
    HardwareLoaded,
    ConnectionEstablished,
    ClientReady,
    AnisetteReady,
    AccountRestored,
    Ready,
    Aborted,
}

/// The outcome of the work the previous action asked for.
#[derive(Clone, Copy, Debug, PartialEq, Eq, Structural)]
pub enum RestoreEvent {
    KeystoreInitialized,
    MigrationFinished { ok: bool },
    RecordsRead { hardware: bool, users: bool, identity: bool },
    ConnectionOpened { ok: bool },
    ClientBuilt,
    AnisetteBuilt,
    AccountAttempted,
    Subscribed,
}

/// Why a restoration was aborted.
#[derive(Clone, Copy, Debug, PartialEq, Eq, Structural)]
pub enum RestoreError {
    MigrationFailed,
    MissingHardware,
    MissingUsers,
    BadIdentity,
    OutOfOrder,
}

/// The work to perform next.
#[derive(Clone, Copy, Debug, PartialEq, Eq, Structural)]
pub enum RestoreAction {
    RunMigration,
    LoadRecords,
    OpenConnection,
    /// Build the messaging client, after persisting the hardware state when the
    /// connection came up without error.
    BuildClient { persist_hardware: bool },
    BuildAnisette,
    RestoreAccount,
    Subscribe,
    Finish,
    Abort(RestoreError),
    Nothing,
}

/// The transition table of a restoration.
pub open spec fn restore_next(p: RestorePhase, e: RestoreEvent) -> (RestorePhase, RestoreAction) {
    match (p, e) {
        (RestorePhase::Aborted, _) => (RestorePhase::Aborted, RestoreAction::Nothing),
        (RestorePhase::Ready, _) => (RestorePhase::Ready, RestoreAction::Nothing),
        (RestorePhase::Uninitialized, RestoreEvent::KeystoreInitialized) => (
            RestorePhase::KeystoreReady,
            RestoreAction::RunMigration,
        ),
        (RestorePhase::KeystoreReady, RestoreEvent::MigrationFinished { ok }) => if ok {
            (RestorePhase::Migrated, RestoreAction::LoadRecords)
        } else {
            (RestorePhase::Aborted, RestoreAction::Abort(RestoreError::MigrationFailed))
        },
        (RestorePhase::Migrated, RestoreEvent::RecordsRead { hardware, users, identity }) => if !hardware {
            (RestorePhase::Aborted, RestoreAction::Abort(RestoreError::MissingHardware))
        } else if !users {
            (RestorePhase::Aborted, RestoreAction::Abort(RestoreError::MissingUsers))
        } else if !identity {
            (RestorePhase::Aborted, RestoreAction::Abort(RestoreError::BadIdentity))
        } else {
            (RestorePhase::HardwareLoaded, RestoreAction::OpenConnection)
        },
        (RestorePhase::HardwareLoaded, RestoreEvent::ConnectionOpened { ok }) => (
            RestorePhase::ConnectionEstablished,
            RestoreAction::BuildClient { persist_hardware: ok },
        ),
        (RestorePhase::ConnectionEstablished, RestoreEvent::ClientBuilt) => (
            RestorePhase::ClientReady,
            RestoreAction::BuildAnisette,
        ),
        (RestorePhase::ClientReady, RestoreEvent::AnisetteBuilt) => (
            RestorePhase::AnisetteReady,
            RestoreAction::RestoreAccount,
        ),
        (RestorePhase::AnisetteReady, RestoreEvent::AccountAttempted) => (
            RestorePhase::AccountRestored,
            RestoreAction::Subscribe,
        ),
        (RestorePhase::AccountRestored, RestoreEvent::Subscribed) => (
            RestorePhase::Ready,
            RestoreAction::Finish,
        ),
        _ => (RestorePhase::Aborted, RestoreAction::Abort(RestoreError::OutOfOrder)),
    }
}

/// One step of the restoration: from the current phase and the outcome of the
/// last action to the next phase and action. Missing records, a failed
/// migration or an undecodable identity abort; connection errors and a failed
/// account restoration do not; an event out of order aborts; `Aborted` and
/// `Ready` are final.
pub fn restore_step(p: RestorePhase, e: RestoreEvent) -> (r: (RestorePhase, RestoreAction))
    ensures
        r == restore_next(p, e),
{
    match (p, e) {
        (RestorePhase::Aborted, _) => (RestorePhase::Aborted, RestoreAction::Nothing),
        (RestorePhase::Ready, _) => (RestorePhase::Ready, RestoreAction::Nothing),
        (RestorePhase::Uninitialized, RestoreEvent::KeystoreInitialized) => (
            RestorePhase::KeystoreReady,
            RestoreAction::RunMigration,
        ),
        (RestorePhase::KeystoreReady, RestoreEvent::MigrationFinished { ok }) => {
            if ok {
                (RestorePhase::Migrated, RestoreAction::LoadRecords)
            } else {
                (RestorePhase::Aborted, RestoreAction::Abort(RestoreError::MigrationFailed))
            }
        },
        (RestorePhase::Migrated, RestoreEvent::RecordsRead { hardware, users, identity }) => {
            if !hardware {
                (RestorePhase::Aborted, RestoreAction::Abort(RestoreError::MissingHardware))
            } else if !users {
                (RestorePhase::Aborted, RestoreAction::Abort(RestoreError::MissingUsers))
            } else if !identity {
                (RestorePhase::Aborted, RestoreAction::Abort(RestoreError::BadIdentity))
            } else {
                (RestorePhase::HardwareLoaded, RestoreAction::OpenConnection)
            }
        },
        (RestorePhase::HardwareLoaded, RestoreEvent::ConnectionOpened { ok }) => (
            RestorePhase::ConnectionEstablished,
            RestoreAction::BuildClient { persist_hardware: ok },
        ),
        (RestorePhase::ConnectionEstablished, RestoreEvent::ClientBuilt) => (
            RestorePhase::ClientReady,
            RestoreAction::BuildAnisette,
        ),
        (RestorePhase::ClientReady, RestoreEvent::AnisetteBuilt) => (
            RestorePhase::AnisetteReady,
            RestoreAction::RestoreAccount,
        ),
        (RestorePhase::AnisetteReady, RestoreEvent::AccountAttempted) => (
            RestorePhase::AccountRestored,
            RestoreAction::Subscribe,
        ),
        (RestorePhase::AccountRestored, RestoreEvent::Subscribed) => (
            RestorePhase::Ready,
            RestoreAction::Finish,
        ),
        _ => (RestorePhase::Aborted, RestoreAction::Abort(RestoreError::OutOfOrder)),
    }
}

/// The phases and actions of a restoration fed the events `es` from phase `p`.
pub open spec fn restore_run(p: RestorePhase, es: Seq<RestoreEvent>) -> (RestorePhase, Seq<RestoreAction>)
    decreases es.len(),
{
    if es.len() == 0 {
        (p, seq![])
    } else {
        let (q, a) = restore_next(p, es[0]);
        let rest = restore_run(q, es.drop_first());
        (rest.0, seq![a] + rest.1)
    }
}

pub open spec fn builds_connection_or_client(a: RestoreAction) -> bool {
    a == RestoreAction::OpenConnection || a is BuildClient
}

pub open spec fn reports_hardware(e: RestoreEvent) -> bool {
    e matches RestoreEvent::RecordsRead { hardware: true, .. }
}

pub open spec fn before_load(p: RestorePhase) -> bool {
    p == RestorePhase::Uninitialized || p == RestorePhase::KeystoreReady || p
        == RestorePhase::Migrated || p == RestorePhase::Aborted
}

/// Without a hardware record no connection or client is ever built: a run
/// from the start in which no read of the records finds the hardware state
/// asks for neither, and one that reads the records without it is aborted.
pub proof fn lemma_missing_hardware_is_fatal(es: Seq<RestoreEvent>)
    requires
        forall|i: int| 0 <= i < es.len() ==> !reports_hardware(#[trigger] es[i]),
    ensures
        forall|i: int|
            0 <= i < restore_run(RestorePhase::Uninitialized, es).1.len()
                ==> !builds_connection_or_client(
                #[trigger] restore_run(RestorePhase::Uninitialized, es).1[i],
            ),
        (exists|i: int| 0 <= i < es.len() && es[i] is RecordsRead) ==> restore_run(
            RestorePhase::Uninitialized,
            es,
        ).0 != RestorePhase::Ready,
{
    lemma_run_before_load(RestorePhase::Uninitialized, es);
}

proof fn lemma_run_before_load(p: RestorePhase, es: Seq<RestoreEvent>)
    requires
        before_load(p),
        forall|i: int| 0 <= i < es.len() ==> !reports_hardware(#[trigger] es[i]),
    ensures
        before_load(restore_run(p, es).0),
        restore_run(p, es).1.len() == es.len(),
        forall|i: int|
            0 <= i < restore_run(p, es).1.len() ==> !builds_connection_or_client(
                #[trigger] restore_run(p, es).1[i],
            ),
    decreases es.len(),
{
    if es.len() > 0 {
        let (q, a) = restore_next(p, es[0]);
        assert(!reports_hardware(es[0]));
        assert forall|i: int| 0 <= i < es.drop_first().len() implies !reports_hardware(
            #[trigger] es.drop_first()[i],
        ) by {
            assert(es.drop_first()[i] == es[i + 1]);
        }
        lemma_run_before_load(q, es.drop_first());
        let rest = restore_run(q, es.drop_first());
        assert forall|i: int| 0 <= i < restore_run(p, es).1.len() implies !builds_connection_or_client(
            #[trigger] restore_run(p, es).1[i],
        ) by {
            if i > 0 {
                assert(restore_run(p, es).1[i] == rest.1[i - 1]);
            }
        }
    }
}

} // verus!
