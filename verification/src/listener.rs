//! The credential-change listener's state step.
//!
//! The listener subscribes once, at process start, to the "identity changed"
//! notification channel — before bootstrap is even scheduled, so that an
//! early event is received (and then deliberately discarded) rather than
//! lost by the channel. The subscription, the channel and the payload
//! deserialization live outside this library; each received notification is
//! handed to [`handle_event`] as an already-decoded payload (`None` when
//! deserialization failed), together with the outcomes of the two
//! independent credential-lock acquisitions. The step mutates the session
//! and tells the caller whether the backfill trigger must now run — outside
//! the locks this step released.

use crate::session::{AppData, ClientHandle, SessionCell, UserInfo};
use vstd::prelude::*;

verus! {

/// What became of one credential-change notification. Discarded events are
/// reported with their reason rather than swallowed, so that callers and
/// tests can observe "discarded because X" and not just an absence of
/// effect.
#[derive(Clone, Debug, PartialEq, Eq)]
pub enum EventOutcome {
    /// The payload was malformed; the event is discarded, not retried.
    DiscardedDeserialization,
    /// The session is not published (bootstrap still running, or failed);
    /// the event is discarded — there is no queueing and no replay.
    DiscardedStateUnavailable,
    /// The event was applied; the backfill trigger must now run for this
    /// user.
    Applied { uid: String },
}

/// How one applied event rewrites a published session: each client
/// credential slot is overwritten only if its own lock attempt succeeded
/// (the slots are independently-fallible resources, so one failed attempt
/// leaves a torn pair), the identity record is overwritten as one atomic
/// unit, and the database handle, the HTTP client, the base URL and the
/// cache are untouched.
pub open spec fn apply_event(
    data: AppData,
    payload: UserInfo,
    token_lock_ok: bool,
    refresh_lock_ok: bool,
) -> AppData {
    AppData {
        db_conn: data.db_conn,
        request_client: ClientHandle {
            http: data.request_client.http,
            base_url: data.request_client.base_url,
            token: if token_lock_ok {
                Some(payload.token)
            } else {
                data.request_client.token
            },
            refresh_token: if refresh_lock_ok {
                Some(payload.refresh_token)
            } else {
                data.request_client.refresh_token
            },
        },
        user_info: payload,
        cache: data.cache,
    }
}

/// The full decision on one notification: a malformed payload is discarded
/// first; an intact payload meeting an unpublished session is discarded as
/// well; only a `Ready` session is rewritten, and only then does backfill
/// run.
pub open spec fn event_transition(
    cell: SessionCell,
    payload: Option<UserInfo>,
    token_lock_ok: bool,
    refresh_lock_ok: bool,
) -> (SessionCell, EventOutcome) {
    if payload is None {
        (cell, EventOutcome::DiscardedDeserialization)
    } else if !(cell is Ready) {
        (cell, EventOutcome::DiscardedStateUnavailable)
    } else {
        (
            SessionCell::Ready(
                apply_event(cell->Ready_0, payload->0, token_lock_ok, refresh_lock_ok),
            ),
            EventOutcome::Applied { uid: payload->0.uid },
        )
    }
}

/// Processes one received credential-change notification: exactly the
/// transition [`event_transition`] describes. `payload` is `None` when the
/// notification's body failed to deserialize; `token_lock_ok` and
/// `refresh_lock_ok` report whether the two independent client-credential
/// locks could be taken. On `Applied`, the caller must invoke the backfill
/// trigger for the returned uid, after this call returned (that is, outside
/// the locks).
pub fn handle_event(
    cell: &mut SessionCell,
    payload: Option<UserInfo>,
    token_lock_ok: bool,
    refresh_lock_ok: bool,
) -> (outcome: EventOutcome)
    ensures
        *final(cell) == event_transition(
            *old(cell),
            payload,
            token_lock_ok,
            refresh_lock_ok,
        ).0,
        outcome == event_transition(*old(cell), payload, token_lock_ok, refresh_lock_ok).1,
{
    let payload = match payload {
        Some(p) => p,
        None => {
            return EventOutcome::DiscardedDeserialization;
        },
    };
    match cell {
        SessionCell::Ready(data) => {
            if token_lock_ok {
                data.request_client.token = Some(payload.token.clone());
            }
            if refresh_lock_ok {
                data.request_client.refresh_token = Some(payload.refresh_token.clone());
            }
            let uid = payload.uid.clone();
            data.user_info = payload;
            EventOutcome::Applied { uid }
        },
        _ => EventOutcome::DiscardedStateUnavailable,
    }
}

/// A credential-change event received while the session is unpublished has
/// no observable effect: whatever the payload and however the lock attempts
/// would have gone, the cell — and with it the default identity — is left
/// exactly as it was, nothing is queued for later, and backfill is not
/// triggered.
pub proof fn lemma_event_before_publication_is_lost(
    cell: SessionCell,
    payload: Option<UserInfo>,
    token_lock_ok: bool,
    refresh_lock_ok: bool,
)
    requires
        !(cell is Ready),
    ensures
        ({
            let (after, outcome) = event_transition(cell, payload, token_lock_ok, refresh_lock_ok);
            after == cell && !(outcome is Applied)
        }),
{
}

/// A well-formed credential-change event received while the session is
/// `Ready` is applied: afterwards the identity equals the payload as one
/// unit; each client credential slot equals the payload's value when its
/// lock attempt succeeded and keeps its old value when it failed (the
/// documented torn update); the database handle, HTTP client, base URL and
/// cache are untouched; the session stays `Ready`; and the backfill trigger
/// is handed exactly the payload's uid.
pub proof fn lemma_event_applied_when_ready(
    data: AppData,
    payload: UserInfo,
    token_lock_ok: bool,
    refresh_lock_ok: bool,
)
    ensures
        ({
            let (after, outcome) = event_transition(
                SessionCell::Ready(data),
                Some(payload),
                token_lock_ok,
                refresh_lock_ok,
            );
            let s = after->Ready_0;
            &&& after is Ready
            &&& s.user_info == payload
            &&& outcome == (EventOutcome::Applied { uid: payload.uid })
            &&& token_lock_ok ==> s.request_client.token == Some(payload.token)
            &&& !token_lock_ok ==> s.request_client.token == data.request_client.token
            &&& refresh_lock_ok ==> s.request_client.refresh_token == Some(payload.refresh_token)
            &&& !refresh_lock_ok ==> s.request_client.refresh_token
                == data.request_client.refresh_token
            &&& s.db_conn == data.db_conn
            &&& s.request_client.http == data.request_client.http
            &&& s.request_client.base_url == data.request_client.base_url
            &&& s.cache == data.cache
        }),
{
}

/// No order is enforced between overlapping credential-change events: the
/// session ends up holding whichever payload was applied last, in real time
/// — not necessarily the one emitted last. Applying two events in
/// succession (both locks taken each time) leaves the identity and both
/// credential slots of the second.
pub proof fn lemma_last_applied_wins(data: AppData, first: UserInfo, second: UserInfo)
    ensures
        ({
            let (mid, _) = event_transition(SessionCell::Ready(data), Some(first), true, true);
            let (after, _) = event_transition(mid, Some(second), true, true);
            let s = after->Ready_0;
            &&& after is Ready
            &&& s.user_info == second
            &&& s.request_client.token == Some(second.token)
            &&& s.request_client.refresh_token == Some(second.refresh_token)
        }),
{
}

} // verus!
