//! Session state and its one-shot publication.
//!
//! The session aggregate (`AppData`) bundles the database handle, the
//! network-client handle, the user identity and the ephemeral cache. It does
//! not exist at process start; a successful bootstrap creates it exactly once
//! and publishes it through a `SessionCell`, after which it lives for the
//! process lifetime. A failed bootstrap leaves the cell permanently failed:
//! there is no retry and no way back to the unpublished state.

use crate::cache::EphemeralCache;
use crate::config::Config;
use crate::InitError;
use vstd::prelude::*;

verus! {

/// Idle window of the session's ephemeral cache, in seconds.
pub const CACHE_IDLE_WINDOW_SECS: u64 = 30 * 60;

/// The user identity triple carried by a credential-change event and held in
/// the session. All fields empty means no user is known yet.
#[derive(Clone, Debug, PartialEq, Eq)]
pub struct UserInfo {
    pub token: String,
    pub refresh_token: String,
    pub uid: String,
}

/// Whether an identity is the default one: no user known, every field empty.
pub open spec fn identity_is_default(u: UserInfo) -> bool {
    u.token@ == Seq::<char>::empty() && u.refresh_token@ == Seq::<char>::empty() && u.uid@
        == Seq::<char>::empty()
}

impl Default for UserInfo {
    /// The default identity: every field empty.
    fn default() -> (u: Self)
        ensures
            identity_is_default(u),
    {
        UserInfo { token: String::new(), refresh_token: String::new(), uid: String::new() }
    }
}

/// An opaque handle to an established database connection. The connection is
/// driver-internal and internally synchronized; this core only carries the
/// handle and records which connection string it was opened with.
#[derive(Clone, Debug, PartialEq, Eq)]
pub struct DbHandle {
    pub descriptor: String,
}

#[verifier::external_type_specification]
#[verifier::external_body]
pub struct ExClient(reqwest::Client);

#[verifier::external_type_specification]
#[verifier::external_body]
pub struct ExError(reqwest::Error);

/// Relies on `reqwest::Client::builder` and `reqwest::ClientBuilder::build`:
/// constructs an HTTP client with the default configuration. Its
/// documentation promises failure only when a TLS backend or the system
/// resolver configuration cannot be initialized, so no outcome is promised
/// here; callers state what holds of either one.
#[verifier::external_body]
pub fn build_request_client() -> Result<reqwest::Client, reqwest::Error> {
    reqwest::Client::builder().build()
}

/// The network-client handle: an HTTP client bound to the backend base URL,
/// plus the two credential slots used to stamp outgoing requests. The slots
/// are two independently updated cells, not one atomic pair: a
/// credential-change event that manages to fill only one of them leaves a
/// torn pair behind (see the listener).
pub struct ClientHandle {
    pub http: reqwest::Client,
    pub base_url: String,
    pub token: Option<String>,
    pub refresh_token: Option<String>,
}

/// The published session aggregate: database handle, network client, user
/// identity and ephemeral cache.
pub struct AppData {
    pub db_conn: DbHandle,
    pub request_client: ClientHandle,
    pub user_info: UserInfo,
    pub cache: EphemeralCache,
}

impl AppData {
    /// Well-formedness carried through every mutation: the cache invariant.
    pub open spec fn wf(self) -> bool {
        self.cache.wf()
    }
}

/// The session's lifecycle: it starts `Uninitialized`, becomes `Ready` on a
/// successful bootstrap or `Failed` on a fatal bootstrap error, and both
/// outcomes are terminal for the process run.
#[derive(Clone, Copy, Debug, PartialEq, Eq, Structural)]
pub enum Lifecycle {
    Uninitialized,
    Ready,
    Failed,
}

/// The publication point: the process-wide slot through which a completed
/// bootstrap makes the session visible to listeners and command handlers,
/// and which late-arriving readers find empty or failed.
pub enum SessionCell {
    /// Bootstrap has not completed; readers find no state.
    Uninitialized,
    /// Bootstrap failed fatally; readers find no state, permanently.
    Failed(InitError),
    /// Bootstrap succeeded; the session lives here for the process lifetime.
    Ready(AppData),
}

/// How a publication attempt transforms the cell: only an `Uninitialized`
/// cell accepts a publication; a `Ready` or `Failed` cell is left untouched
/// and the attempt reports failure.
pub open spec fn publish_transition(cell: SessionCell, data: AppData) -> (SessionCell, bool) {
    if cell is Uninitialized {
        (SessionCell::Ready(data), true)
    } else {
        (cell, false)
    }
}

/// How recording a fatal bootstrap error transforms the cell: only an
/// `Uninitialized` cell moves to `Failed`; a decided cell is left untouched.
pub open spec fn fail_transition(cell: SessionCell, err: InitError) -> (SessionCell, bool) {
    if cell is Uninitialized {
        (SessionCell::Failed(err), true)
    } else {
        (cell, false)
    }
}

impl SessionCell {
    /// The cell's position in the lifecycle state machine.
    pub open spec fn lifecycle(self) -> Lifecycle {
        match self {
            SessionCell::Uninitialized => Lifecycle::Uninitialized,
            SessionCell::Failed(_) => Lifecycle::Failed,
            SessionCell::Ready(_) => Lifecycle::Ready,
        }
    }

    /// An empty cell, as it stands at process start.
    pub fn new() -> (cell: Self)
        ensures
            cell is Uninitialized,
    {
        SessionCell::Uninitialized
    }

    /// Publishes a completed session. Effective only on an `Uninitialized`
    /// cell; a second attempt changes nothing and reports `false`.
    pub fn publish(&mut self, data: AppData) -> (published: bool)
        ensures
            *final(self) == publish_transition(*old(self), data).0,
            published == publish_transition(*old(self), data).1,
    {
        match self {
            SessionCell::Uninitialized => {
                *self = SessionCell::Ready(data);
                true
            },
            _ => false,
        }
    }

    /// Records a fatal bootstrap error. Effective only on an `Uninitialized`
    /// cell; a decided cell changes nothing and the call reports `false`.
    pub fn mark_failed(&mut self, err: InitError) -> (recorded: bool)
        ensures
            *final(self) == fail_transition(*old(self), err).0,
            recorded == fail_transition(*old(self), err).1,
    {
        match self {
            SessionCell::Uninitialized => {
                *self = SessionCell::Failed(err);
                true
            },
            _ => false,
        }
    }

    /// The published session, if bootstrap has completed successfully —
    /// `None` both before publication and after a failed bootstrap.
    pub fn try_state(&self) -> (r: Option<&AppData>)
        ensures
            match r {
                Some(data) => *self is Ready && *data == self->Ready_0,
                None => !(*self is Ready),
            },
    {
        match self {
            SessionCell::Ready(data) => Some(data),
            _ => None,
        }
    }
}

/// The session is published at most once: from `Uninitialized` a publication
/// succeeds and makes the cell `Ready`, and any further publication attempt —
/// with whatever state — reports failure and changes nothing. The lifecycle
/// transition `Uninitialized` → `Ready` therefore happens exactly once.
pub proof fn lemma_publish_once(cell: SessionCell, first: AppData, second: AppData)
    requires
        cell is Uninitialized,
    ensures
        ({
            let (c1, ok1) = publish_transition(cell, first);
            let (c2, ok2) = publish_transition(c1, second);
            ok1 && c1 == SessionCell::Ready(first) && !ok2 && c2 == c1
        }),
{
}

/// A fatally failed bootstrap never publishes: once the cell records a fatal
/// error, every later publication attempt reports failure and leaves the
/// cell `Failed`, so no reader ever observes a session in that process run.
pub proof fn lemma_failed_never_publishes(err: InitError, data: AppData)
    ensures
        ({
            let (c1, recorded) = fail_transition(SessionCell::Uninitialized, err);
            let (c2, ok2) = publish_transition(c1, data);
            recorded && c1 == SessionCell::Failed(err) && !ok2 && c2 == c1
        }),
{
}

/// Assembles the session from the validated configuration, the established
/// database handle and the outcome of the network-client construction: a
/// failed construction is the fatal `ClientError`; a successful one yields
/// the initial session — the given handles, empty credential slots, the
/// default identity, and an empty cache with the configured idle window.
pub fn assemble_session(
    config: &Config,
    db: DbHandle,
    build: Result<reqwest::Client, reqwest::Error>,
) -> (r: Result<AppData, InitError>)
    ensures
        r is Ok <==> build is Ok,
        r is Err ==> r->Err_0 == InitError::ClientError,
        r is Ok ==> ({
            let data = r->Ok_0;
            &&& data.wf()
            &&& data.db_conn == db
            &&& data.request_client.base_url == config.backend_base_url
            &&& data.request_client.token is None
            &&& data.request_client.refresh_token is None
            &&& identity_is_default(data.user_info)
            &&& data.cache.window() == CACHE_IDLE_WINDOW_SECS
            &&& data.cache.contents() == Map::<Seq<char>, (Seq<char>, u64)>::empty()
        }),
{
    match build {
        Ok(http) => Ok(
            AppData {
                db_conn: db,
                request_client: ClientHandle {
                    http,
                    base_url: config.backend_base_url.clone(),
                    token: None,
                    refresh_token: None,
                },
                user_info: UserInfo::default(),
                cache: EphemeralCache::new(CACHE_IDLE_WINDOW_SECS),
            },
        ),
        Err(_) => Err(InitError::ClientError),
    }
}

/// Completes bootstrap after the outside steps — configuration already
/// validated, database connection attempted, migration attempted — by
/// constructing the network client and publishing the session. A missing
/// database connection is the fatal `ConnectionError`; a failed client
/// construction is the fatal `ClientError`; on success the initial session
/// is published and the cell becomes `Ready`. A failed migration
/// (`migration_ok == false`) is deliberately non-fatal: no clause below
/// depends on it, so the outcome is the same either way.
pub fn finish_bootstrap(
    cell: &mut SessionCell,
    config: &Config,
    db: Option<DbHandle>,
    migration_ok: bool,
) -> (r: Result<(), InitError>)
    requires
        *old(cell) is Uninitialized,
    ensures
        db is None ==> r == Result::<(), InitError>::Err(InitError::ConnectionError) && *final(cell)
            == SessionCell::Failed(InitError::ConnectionError),
        db is Some && r is Err ==> r->Err_0 == InitError::ClientError && *final(cell)
            == SessionCell::Failed(InitError::ClientError),
        r is Ok ==> db is Some && *final(cell) is Ready && ({
            let data = final(cell)->Ready_0;
            &&& data.wf()
            &&& data.db_conn == db->0
            &&& data.request_client.base_url == config.backend_base_url
            &&& data.request_client.token is None
            &&& data.request_client.refresh_token is None
            &&& identity_is_default(data.user_info)
            &&& data.cache.window() == CACHE_IDLE_WINDOW_SECS
            &&& data.cache.contents() == Map::<Seq<char>, (Seq<char>, u64)>::empty()
        }),
{
    let db = match db {
        Some(db) => db,
        None => {
            cell.mark_failed(InitError::ConnectionError);
            return Err(InitError::ConnectionError);
        },
    };
    let build = build_request_client();
    match assemble_session(config, db, build) {
        Ok(data) => {
            cell.publish(data);
            Ok(())
        },
        Err(e) => {
            cell.mark_failed(e);
            Err(e)
        },
    }
}

} // verus!
