//! The authentication session kept in the operating system's credential
//! store: what each session command reports for each answer of the store.
//!
//! The store itself is reached by the embedding application. It opens the
//! entry under [`AUTH_SERVICE_NAME`] and [`AUTH_SESSION_KEY`], performs one
//! operation on it and hands what happened to the functions below as a
//! [`StoreAccess`].

use vstd::prelude::*;

verus! {

/// Service name under which the session is stored.
pub const AUTH_SERVICE_NAME: &'static str = "com.elizaos.app";

/// Account name under which the session is stored.
pub const AUTH_SESSION_KEY: &'static str = "elizaos_auth_session";

/// What the commands tell apart in a failure of the credential store.
#[derive(Debug, Clone, Copy, PartialEq, Eq, Structural)]
pub enum FaultKind {
    /// The store holds no entry under the identity: none was ever set, or it
    /// was deleted.
    NoEntry,
    /// Any other failure, such as a locked or unavailable store.
    Other,
}

/// A failure reported by the credential store.
#[derive(Debug, PartialEq, Eq)]
pub struct StoreFault {
    pub kind: FaultKind,
    /// The store's own description of the failure.
    pub detail: String,
}

/// One access to the credential store and how it went.
#[derive(Debug, PartialEq, Eq)]
pub enum StoreAccess<T> {
    /// The entry could not be opened; no operation was tried.
    EntryFailed(StoreFault),
    /// The entry was opened and the operation on it failed.
    Failed(StoreFault),
    /// The operation succeeded with this result.
    Done(T),
}

/// Message for an entry that could not be opened.
pub open spec fn entry_failure_text(detail: Seq<char>) -> Seq<char> {
    "Failed to create keyring entry: "@ + detail
}

/// Message for a session that could not be written.
pub open spec fn store_failure_text(detail: Seq<char>) -> Seq<char> {
    "Failed to store session: "@ + detail
}

/// Message for a session that could not be read.
pub open spec fn retrieve_failure_text(detail: Seq<char>) -> Seq<char> {
    "Failed to retrieve session: "@ + detail
}

/// Message for a session that could not be deleted.
pub open spec fn clear_failure_text(detail: Seq<char>) -> Seq<char> {
    "Failed to clear session: "@ + detail
}

/// Mathematical value of what a command without a result reports.
pub open spec fn report_view(outcome: Result<(), String>) -> Result<(), Seq<char>> {
    match outcome {
        Ok(_) => Ok(()),
        Err(message) => Err(message@),
    }
}

/// Mathematical value of what the reading command reports.
pub open spec fn session_view(outcome: Result<Option<String>, String>) -> Result<
    Option<Seq<char>>,
    Seq<char>,
> {
    match outcome {
        Ok(Some(session)) => Ok(Some(session@)),
        Ok(None) => Ok(None),
        Err(message) => Err(message@),
    }
}

/// What storing a session reports. Writing overwrites whatever was stored,
/// so every failure of the store is an error, a missing entry included.
pub open spec fn store_outcome(access: StoreAccess<()>) -> Result<(), Seq<char>> {
    match access {
        StoreAccess::Done(_) => Ok(()),
        StoreAccess::EntryFailed(fault) => Err(entry_failure_text(fault.detail@)),
        StoreAccess::Failed(fault) => Err(store_failure_text(fault.detail@)),
    }
}

/// What reading the session reports. A session that was found is returned
/// as the store holds it; a missing entry is no error but an absent session.
pub open spec fn read_outcome(access: StoreAccess<String>) -> Result<Option<Seq<char>>, Seq<char>> {
    match access {
        StoreAccess::Done(session) => Ok(Some(session@)),
        StoreAccess::EntryFailed(fault) => Err(entry_failure_text(fault.detail@)),
        StoreAccess::Failed(fault) => if fault.kind == FaultKind::NoEntry {
            Ok(None)
        } else {
            Err(retrieve_failure_text(fault.detail@))
        },
    }
}

/// What deleting the session reports. An entry that is already gone counts
/// as deleted.
pub open spec fn clear_outcome(access: StoreAccess<()>) -> Result<(), Seq<char>> {
    match access {
        StoreAccess::Done(_) => Ok(()),
        StoreAccess::EntryFailed(fault) => Err(entry_failure_text(fault.detail@)),
        StoreAccess::Failed(fault) => if fault.kind == FaultKind::NoEntry {
            Ok(())
        } else {
            Err(clear_failure_text(fault.detail@))
        },
    }
}

/// Whether the store answered that it holds no entry.
pub open spec fn found_no_entry<T>(access: StoreAccess<T>) -> bool {
    access matches StoreAccess::Failed(fault) && fault.kind == FaultKind::NoEntry
}

fn entry_failure(fault: &StoreFault) -> (message: String)
    ensures
        message@ == entry_failure_text(fault.detail@),
{
    String::from_str("Failed to create keyring entry: ").concat(fault.detail.as_str())
}

/// Result of the command that stores a session.
pub fn store_auth_session(access: StoreAccess<()>) -> (outcome: Result<(), String>)
    ensures
        report_view(outcome) == store_outcome(access),
{
    match access {
        StoreAccess::Done(_) => Ok(()),
        StoreAccess::EntryFailed(fault) => Err(entry_failure(&fault)),
        StoreAccess::Failed(fault) => Err(
            String::from_str("Failed to store session: ").concat(fault.detail.as_str()),
        ),
    }
}

/// Result of the command that reads the session.
pub fn get_auth_session(access: StoreAccess<String>) -> (outcome: Result<Option<String>, String>)
    ensures
        session_view(outcome) == read_outcome(access),
{
    match access {
        StoreAccess::Done(session) => Ok(Some(session)),
        StoreAccess::EntryFailed(fault) => Err(entry_failure(&fault)),
        StoreAccess::Failed(fault) => match fault.kind {
            FaultKind::NoEntry => Ok(None),
            FaultKind::Other => Err(
                String::from_str("Failed to retrieve session: ").concat(fault.detail.as_str()),
            ),
        },
    }
}

/// Result of the command that deletes the session.
pub fn clear_auth_session(access: StoreAccess<()>) -> (outcome: Result<(), String>)
    ensures
        report_view(outcome) == clear_outcome(access),
{
    match access {
        StoreAccess::Done(_) => Ok(()),
        StoreAccess::EntryFailed(fault) => Err(entry_failure(&fault)),
        StoreAccess::Failed(fault) => match fault.kind {
            FaultKind::NoEntry => Ok(()),
            FaultKind::Other => Err(
                String::from_str("Failed to clear session: ").concat(fault.detail.as_str()),
            ),
        },
    }
}

/// Round trip: once the store has taken a session, storing reports success,
/// and a read to which the store answers with that session returns exactly
/// it, whatever the session holds.
pub proof fn lemma_stored_session_is_read_back(session: String)
    ensures
        store_outcome(StoreAccess::Done(())) is Ok,
        read_outcome(StoreAccess::Done(session)) == Ok::<Option<Seq<char>>, Seq<char>>(
            Some(session@),
        ),
{
}

/// Clearing is idempotent: the first time the store deletes the entry, the
/// second time it finds none, and neither is an error. In general the
/// command succeeds on every answer of the store but a failure to open the
/// entry or a failure other than a missing entry.
pub proof fn lemma_clearing_again_succeeds(first: StoreAccess<()>, second: StoreAccess<()>)
    requires
        first is Done,
        found_no_entry(second),
    ensures
        clear_outcome(first) is Ok,
        clear_outcome(second) is Ok,
{
}

/// Reading a session that was never set, or that was cleared, returns no
/// session and no error: the store answers that it holds no entry.
pub proof fn lemma_missing_session_reads_as_none(access: StoreAccess<String>)
    requires
        found_no_entry(access),
    ensures
        read_outcome(access) == Ok::<Option<Seq<char>>, Seq<char>>(None),
{
}

/// The commands fail exactly when the store did, a missing entry aside:
/// storing on every answer but success, reading and clearing on every
/// answer but success and a missing entry.
pub proof fn lemma_commands_fail_with_the_store(
    written: StoreAccess<()>,
    read: StoreAccess<String>,
    cleared: StoreAccess<()>,
)
    ensures
        store_outcome(written) is Err <==> !(written is Done),
        read_outcome(read) is Err <==> !(read is Done) && !found_no_entry(read),
        clear_outcome(cleared) is Err <==> !(cleared is Done) && !found_no_entry(cleared),
{
}

} // verus!
