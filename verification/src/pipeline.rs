//! The decisions of one download request, as a state machine.
//!
//! The work on the stores and on the network is done by whoever drives the
//! machine: it performs the [`Action`] that a step hands out and reports what
//! came of it as the next [`Event`]. The machine itself only decides, so that
//! the order of the work is fixed here: the token is resolved before a store
//! is touched, the counter is committed before the blob store is asked, and
//! no transaction is open while an archive is read or sent.

use vstd::prelude::*;
use crate::auth::{last_supplied, last_token};
use crate::error::DownloadError;
use crate::version::ArchiveVersion;

verus! {

/// How far a request has come.
#[derive(Debug, Clone, PartialEq, Eq)]
pub enum Phase {
    /// Nothing has been looked at yet.
    Received,
    /// The identity store has been asked whom the token names.
    Authenticating,
    /// The metadata store's transaction is open: lookup and increment.
    Accounting,
    /// The increment is committed for the package stored as `name`; the blob
    /// store has been asked for the archive.
    Fetching { name: String },
    /// The archive is open and is being forwarded to the client.
    Streaming,
    /// The request is answered, or has failed. Nothing more is done.
    Finished,
}

/// What the driver reports to the machine.
#[derive(Debug, Clone, PartialEq, Eq)]
pub enum Event {
    /// The request came in with these values of the authorization header, in
    /// the order in which they were supplied.
    Arrived { tokens: Vec<String> },
    /// The identity store has answered: the token names an author, or nobody.
    TokenResolved { known: bool },
    /// The transaction found the package, stored under `name`, raised its
    /// counter by one and committed.
    Committed { name: String },
    /// The transaction found no record and changed nothing.
    PackageAbsent,
    /// The blob store holds the archive and has opened it for reading.
    BlobOpened,
    /// The blob store holds no archive of that name and version.
    BlobAbsent,
    /// The store that was asked last could not do its work.
    StoreFailed,
    /// The archive has been forwarded to its last byte.
    StreamEnded,
    /// The client went away before the archive was sent in full.
    ClientGone,
}

/// What the machine asks the driver to do.
#[derive(Debug, Clone, PartialEq, Eq)]
pub enum Action {
    /// Ask the identity store whom `token` names.
    ResolveToken { token: String },
    /// In one transaction: look the package up by its canonical name and, if
    /// it is there, raise its counter by one; then commit.
    RunTransaction { canonical_name: String },
    /// Ask the blob store to open the archive for sequential reading.
    OpenBlob { name: String, version: ArchiveVersion },
    /// Answer with `status` and forward the archive's bytes as they are read.
    StreamBody { status: u16 },
    /// Close the archive: the client has all of it, or has gone.
    ReleaseBlob,
    /// Close the archive and cut the connection: the rest cannot be read.
    AbortStream,
    /// Answer with this failure and nothing else.
    Fail { error: DownloadError },
    /// The event does not belong to this phase: do nothing.
    Ignore,
}

/// One download request on its way through the pipeline.
#[derive(Debug, Clone, PartialEq, Eq)]
pub struct Download {
    pub phase: Phase,
    /// The key under which the metadata store is asked.
    pub canonical_name: String,
    /// The version of the archive that is wanted.
    pub version: ArchiveVersion,
}

/// The status of a successful delivery.
pub const STATUS_OK: u16 = 200;

/// The request with its work ended.
pub open spec fn ended(d: Download) -> Download {
    Download { phase: Phase::Finished, canonical_name: d.canonical_name, version: d.version }
}

/// The request moved on to `phase`.
pub open spec fn moved(d: Download, phase: Phase) -> Download {
    Download { phase, canonical_name: d.canonical_name, version: d.version }
}

/// The transition function: the state after `event`, and what is to be done.
pub open spec fn next(d: Download, event: Event) -> (Download, Action) {
    match d.phase {
        Phase::Received => match event {
            Event::Arrived { tokens } => match last_supplied(tokens@) {
                Some(token) => (moved(d, Phase::Authenticating), Action::ResolveToken { token }),
                None => (ended(d), Action::Fail { error: DownloadError::Unauthorized }),
            },
            _ => (d, Action::Ignore),
        },
        Phase::Authenticating => match event {
            Event::TokenResolved { known } => if known {
                (
                    moved(d, Phase::Accounting),
                    Action::RunTransaction { canonical_name: d.canonical_name },
                )
            } else {
                (ended(d), Action::Fail { error: DownloadError::Unauthorized })
            },
            Event::StoreFailed => (ended(d), Action::Fail { error: DownloadError::StoreIoFailure }),
            _ => (d, Action::Ignore),
        },
        Phase::Accounting => match event {
            Event::Committed { name } => (
                moved(d, Phase::Fetching { name }),
                Action::OpenBlob { name, version: d.version },
            ),
            Event::PackageAbsent => (
                ended(d),
                Action::Fail { error: DownloadError::PackageNotFound { name: d.canonical_name } },
            ),
            Event::StoreFailed => (ended(d), Action::Fail { error: DownloadError::StoreIoFailure }),
            _ => (d, Action::Ignore),
        },
        Phase::Fetching { name } => match event {
            Event::BlobOpened => (moved(d, Phase::Streaming), Action::StreamBody { status: 200 }),
            Event::BlobAbsent => (
                ended(d),
                Action::Fail { error: DownloadError::VersionNotFound { name, version: d.version } },
            ),
            Event::StoreFailed => (ended(d), Action::Fail { error: DownloadError::StoreIoFailure }),
            _ => (d, Action::Ignore),
        },
        Phase::Streaming => match event {
            Event::StreamEnded => (ended(d), Action::ReleaseBlob),
            Event::ClientGone => (ended(d), Action::ReleaseBlob),
            Event::StoreFailed => (ended(d), Action::AbortStream),
            _ => (d, Action::Ignore),
        },
        Phase::Finished => (d, Action::Ignore),
    }
}

/// The metadata store's transaction is open.
pub open spec fn transaction_open(d: Download) -> bool {
    d.phase is Accounting
}

/// The blob store is asked for the archive, or the archive is open.
pub open spec fn blob_in_use(d: Download) -> bool {
    d.phase is Fetching || d.phase is Streaming
}

/// The action makes the driver call one of the stores.
pub open spec fn touches_store(action: Action) -> bool {
    action is ResolveToken || action is RunTransaction || action is OpenBlob
}

/// The action closes the archive that was opened for this request.
pub open spec fn releases_blob(action: Action) -> bool {
    action is ReleaseBlob || action is AbortStream
}

/// How far a phase is along the pipeline.
pub open spec fn rank(phase: Phase) -> int {
    match phase {
        Phase::Received => 0,
        Phase::Authenticating => 1,
        Phase::Accounting => 2,
        Phase::Fetching { .. } => 3,
        Phase::Streaming => 4,
        Phase::Finished => 5,
    }
}

impl Download {
    /// A request that has just come in for the archive of `version` of the
    /// package with this canonical name.
    pub fn new(canonical_name: String, version: ArchiveVersion) -> (d: Download)
        ensures
            d == (Download { phase: Phase::Received, canonical_name, version }),
    {
        Download { phase: Phase::Received, canonical_name, version }
    }

    /// Whether the request is answered or has failed.
    pub fn is_finished(&self) -> (done: bool)
        ensures
            done == (self.phase is Finished),
    {
        match &self.phase {
            Phase::Finished => true,
            _ => false,
        }
    }

    /// Takes one event: returns the request in its next state and the action
    /// that the driver is to perform.
    pub fn step(self, event: Event) -> (out: (Download, Action))
        ensures
            out == next(self, event),
    {
        let Download { phase, canonical_name, version } = self;
        match phase {
            Phase::Received => match event {
                Event::Arrived { tokens } => match last_token(&tokens) {
                    Some(token) => (
                        Download { phase: Phase::Authenticating, canonical_name, version },
                        Action::ResolveToken { token },
                    ),
                    None => (
                        Download { phase: Phase::Finished, canonical_name, version },
                        Action::Fail { error: DownloadError::Unauthorized },
                    ),
                },
                _ => (Download { phase: Phase::Received, canonical_name, version }, Action::Ignore),
            },
            Phase::Authenticating => match event {
                Event::TokenResolved { known } => if known {
                    let key = canonical_name.clone();
                    (
                        Download { phase: Phase::Accounting, canonical_name, version },
                        Action::RunTransaction { canonical_name: key },
                    )
                } else {
                    (
                        Download { phase: Phase::Finished, canonical_name, version },
                        Action::Fail { error: DownloadError::Unauthorized },
                    )
                },
                Event::StoreFailed => (
                    Download { phase: Phase::Finished, canonical_name, version },
                    Action::Fail { error: DownloadError::StoreIoFailure },
                ),
                _ => (
                    Download { phase: Phase::Authenticating, canonical_name, version },
                    Action::Ignore,
                ),
            },
            Phase::Accounting => match event {
                Event::Committed { name } => {
                    let wanted = version.duplicate();
                    let stored = name.clone();
                    (
                        Download { phase: Phase::Fetching { name }, canonical_name, version },
                        Action::OpenBlob { name: stored, version: wanted },
                    )
                },
                Event::PackageAbsent => {
                    let key = canonical_name.clone();
                    (
                        Download { phase: Phase::Finished, canonical_name, version },
                        Action::Fail { error: DownloadError::PackageNotFound { name: key } },
                    )
                },
                Event::StoreFailed => (
                    Download { phase: Phase::Finished, canonical_name, version },
                    Action::Fail { error: DownloadError::StoreIoFailure },
                ),
                _ => (Download { phase: Phase::Accounting, canonical_name, version }, Action::Ignore),
            },
            Phase::Fetching { name } => match event {
                Event::BlobOpened => (
                    Download { phase: Phase::Streaming, canonical_name, version },
                    Action::StreamBody { status: STATUS_OK },
                ),
                Event::BlobAbsent => {
                    let wanted = version.duplicate();
                    (
                        Download { phase: Phase::Finished, canonical_name, version },
                        Action::Fail {
                            error: DownloadError::VersionNotFound { name, version: wanted },
                        },
                    )
                },
                Event::StoreFailed => (
                    Download { phase: Phase::Finished, canonical_name, version },
                    Action::Fail { error: DownloadError::StoreIoFailure },
                ),
                _ => (
                    Download { phase: Phase::Fetching { name }, canonical_name, version },
                    Action::Ignore,
                ),
            },
            Phase::Streaming => match event {
                Event::StreamEnded => (
                    Download { phase: Phase::Finished, canonical_name, version },
                    Action::ReleaseBlob,
                ),
                Event::ClientGone => (
                    Download { phase: Phase::Finished, canonical_name, version },
                    Action::ReleaseBlob,
                ),
                Event::StoreFailed => (
                    Download { phase: Phase::Finished, canonical_name, version },
                    Action::AbortStream,
                ),
                _ => (Download { phase: Phase::Streaming, canonical_name, version }, Action::Ignore),
            },
            Phase::Finished => (
                Download { phase: Phase::Finished, canonical_name, version },
                Action::Ignore,
            ),
        }
    }
}

/// The content type under which an archive is delivered.
pub fn content_type() -> (mime: &'static str)
    ensures
        mime@ == "application/octet-stream"@,
{
    "application/octet-stream"
}


/// The actions that a run hands out: one for each event, from state `d` on.
pub open spec fn actions(d: Download, events: Seq<Event>) -> Seq<Action>
    decreases events.len(),
{
    if events.len() == 0 {
        Seq::empty()
    } else {
        seq![next(d, events.first()).1] + actions(next(d, events.first()).0, events.drop_first())
    }
}

/// The state after a run of events from state `d`.
pub open spec fn after(d: Download, events: Seq<Event>) -> Download
    decreases events.len(),
{
    if events.len() == 0 {
        d
    } else {
        after(next(d, events.first()).0, events.drop_first())
    }
}

/// A step never goes back: the phase stays or advances, and the request
/// keeps asking for the same package and version.
pub proof fn law_steps_advance(d: Download, event: Event)
    ensures
        rank(next(d, event).0.phase) >= rank(d.phase),
        next(d, event).0.canonical_name == d.canonical_name,
        next(d, event).0.version == d.version,
        next(d, event).1 is Ignore ==> next(d, event).0 == d,
{
}

/// No store is touched for a requester who has not been authenticated: the
/// only store work before the token is resolved is resolving it, and the
/// transaction is started by nothing but an author found for the token.
pub proof fn law_stores_wait_for_author(d: Download, event: Event)
    ensures
        next(d, event).1 is ResolveToken ==> d.phase is Received && event is Arrived,
        next(d, event).1 is RunTransaction ==> d.phase is Authenticating && event
            == (Event::TokenResolved { known: true }),
        next(d, event).1 is RunTransaction ==> next(d, event).1
            == (Action::RunTransaction { canonical_name: d.canonical_name }),
        transaction_open(next(d, event).0) ==> transaction_open(d) || next(d, event).1 is RunTransaction,
{
}

/// The blob store is asked only once the increment is committed, and for
/// the package under its stored name in the version that was requested.
pub proof fn law_blob_follows_commit(d: Download, event: Event)
    ensures
        next(d, event).1 is OpenBlob ==> transaction_open(d) && event is Committed,
        next(d, event).1 matches Action::OpenBlob { name, version } ==> version == d.version && event
            == (Event::Committed { name }),
        blob_in_use(next(d, event).0) && !blob_in_use(d) ==> transaction_open(d) && event is Committed
            && next(d, event).1 is OpenBlob,
        next(d, event).1 is StreamBody ==> d.phase is Fetching && event is BlobOpened && next(d, event).1
            == (Action::StreamBody { status: 200 }),
{
}

/// No transaction is open while an archive is fetched or sent: the two never
/// hold of one state, and from a state in which the blob store is in use no
/// step opens a transaction.
pub proof fn law_transaction_closed_during_blob_io(d: Download, event: Event)
    ensures
        !(transaction_open(d) && blob_in_use(d)),
        blob_in_use(d) ==> !transaction_open(next(d, event).0) && !(next(d, event).1 is RunTransaction),
        transaction_open(d) && !(next(d, event).1 is Ignore) ==> !transaction_open(next(d, event).0),
{
}

/// Every way out of streaming closes the archive: at its end, when the
/// client goes away, and when reading fails.
pub proof fn law_stream_exit_releases(d: Download, event: Event)
    requires
        d.phase is Streaming,
    ensures
        !(next(d, event).0.phase is Streaming) ==> releases_blob(next(d, event).1),
        event is StreamEnded || event is ClientGone || event is StoreFailed ==> next(d, event).0.phase is Finished
            && releases_blob(next(d, event).1),
        releases_blob(next(d, event).1) ==> next(d, event).0.phase is Finished,
{
}

/// A request that is finished does nothing more, whatever is reported to
/// it: every later action is `Ignore`, and the state stays.
pub proof fn law_finished_is_silent(d: Download, events: Seq<Event>)
    requires
        d.phase is Finished,
    ensures
        after(d, events) == d,
        actions(d, events).len() == events.len(),
        forall|i: int| 0 <= i < events.len() ==> #[trigger] actions(d, events)[i] is Ignore,
    decreases events.len(),
{
    if events.len() > 0 {
        law_finished_is_silent(d, events.drop_first());
    }
}

/// How many transactions a run starts.
pub open spec fn transactions(d: Download, events: Seq<Event>) -> int
    decreases events.len(),
{
    if events.len() == 0 {
        0
    } else {
        (if next(d, events.first()).1 is RunTransaction { 1int } else { 0int }) + transactions(
            next(d, events.first()).0,
            events.drop_first(),
        )
    }
}

/// How many times a run asks the blob store to open an archive.
pub open spec fn blob_opens(d: Download, events: Seq<Event>) -> int
    decreases events.len(),
{
    if events.len() == 0 {
        0
    } else {
        (if next(d, events.first()).1 is OpenBlob { 1int } else { 0int }) + blob_opens(
            next(d, events.first()).0,
            events.drop_first(),
        )
    }
}

/// Whatever is reported to it, and in whatever order, one request starts at
/// most one transaction and opens at most one archive; and a request that
/// has not yet been counted opens no archive unless it also runs its
/// transaction.
pub proof fn law_counts_and_opens_at_most_once(d: Download, events: Seq<Event>)
    ensures
        0 <= transactions(d, events) <= 1,
        0 <= blob_opens(d, events) <= 1,
        rank(d.phase) >= 2 ==> transactions(d, events) == 0,
        rank(d.phase) >= 3 ==> blob_opens(d, events) == 0,
        rank(d.phase) <= 1 ==> blob_opens(d, events) <= transactions(d, events),
    decreases events.len(),
{
    if events.len() > 0 {
        law_counts_and_opens_at_most_once(next(d, events.first()).0, events.drop_first());
    }
}

/// A request without a token fails as unauthorized, with status 401, and in
/// the whole run that follows no store is touched.
pub proof fn law_missing_token_touches_nothing(d: Download, tokens: Vec<String>, later: Seq<Event>)
    requires
        d.phase is Received,
        tokens@.len() == 0,
    ensures
        next(d, Event::Arrived { tokens }) == (
            ended(d),
            Action::Fail { error: DownloadError::Unauthorized },
        ),
        crate::error::status_of(DownloadError::Unauthorized) == 401,
        forall|i: int|
            0 <= i < actions(d, seq![Event::Arrived { tokens }] + later).len() ==> !touches_store(
                #[trigger] actions(d, seq![Event::Arrived { tokens }] + later)[i],
            ),
{
    let events = seq![Event::Arrived { tokens }] + later;
    assert(events.first() == Event::Arrived { tokens });
    assert(events.drop_first() =~= later);
    law_finished_is_silent(ended(d), later);
}

/// A token that names nobody fails the request in the same way: no
/// transaction is run and no archive is opened afterwards.
pub proof fn law_unknown_token_touches_nothing(d: Download, later: Seq<Event>)
    requires
        d.phase is Authenticating,
    ensures
        next(d, Event::TokenResolved { known: false }) == (
            ended(d),
            Action::Fail { error: DownloadError::Unauthorized },
        ),
        forall|i: int|
            0 <= i < actions(d, seq![Event::TokenResolved { known: false }] + later).len()
                ==> !touches_store(
                #[trigger] actions(d, seq![Event::TokenResolved { known: false }] + later)[i],
            ),
{
    let events = seq![Event::TokenResolved { known: false }] + later;
    assert(events.first() == Event::TokenResolved { known: false });
    assert(events.drop_first() =~= later);
    law_finished_is_silent(ended(d), later);
}

/// A package that the metadata store does not have fails the request with
/// `PackageNotFound` under the name that was asked for, and in the whole run
/// that follows the blob store is never asked and no transaction is run.
pub proof fn law_absent_package_touches_nothing(d: Download, later: Seq<Event>)
    requires
        d.phase is Accounting,
    ensures
        next(d, Event::PackageAbsent) == (
            ended(d),
            Action::Fail { error: DownloadError::PackageNotFound { name: d.canonical_name } },
        ),
        forall|i: int|
            0 <= i < actions(d, seq![Event::PackageAbsent] + later).len() ==> !touches_store(
                #[trigger] actions(d, seq![Event::PackageAbsent] + later)[i],
            ),
{
    let events = seq![Event::PackageAbsent] + later;
    assert(events.first() == Event::PackageAbsent);
    assert(events.drop_first() =~= later);
    law_finished_is_silent(ended(d), later);
}

/// An archive that the blob store does not have fails the request with
/// `VersionNotFound`, never with `PackageNotFound`; the state in which this
/// is reported is entered only by a committed increment, which stays.
pub proof fn law_missing_version_after_commit(d: Download, name: String)
    requires
        d.phase == (Phase::Fetching { name }),
    ensures
        next(d, Event::BlobAbsent) == (
            ended(d),
            Action::Fail { error: DownloadError::VersionNotFound { name, version: d.version } },
        ),
        crate::error::status_of(DownloadError::VersionNotFound { name, version: d.version }) == 404,
        forall|before: Download, event: Event|
            #![trigger next(before, event)]
            next(before, event).0 == d && before != d ==> transaction_open(before) && event
                == (Event::Committed { name }),
{
}

} // verus!
