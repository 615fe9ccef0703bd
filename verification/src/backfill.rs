//! The backfill trigger: idempotent check-then-fetch of a user's message
//! history.
//!
//! The persistence layer exposes a per-user "initialized" flag; this core
//! models that flag store as [`InitFlags`] and owns the trigger's decisions.
//! The remote fetch and the persisting of fetched messages are network and
//! database work performed by the caller between [`check_backfill`] and
//! [`complete_backfill`]. Failure does not roll anything back: a partial
//! backfill is tolerated downstream, and the flag — set only after a fully
//! successful sequence — is the only trust signal.

use vstd::prelude::*;

verus! {

/// A backfill failure, surfaced to the caller after being logged there.
#[derive(Clone, Copy, Debug, PartialEq, Eq, Structural)]
pub enum BackfillError {
    /// The remote fetch of the message history failed.
    FetchFailed,
    /// The fetched history (or the flag itself) could not be persisted.
    PersistFailed,
}

/// The decision the trigger takes when invoked for a user.
#[derive(Clone, Copy, Debug, PartialEq, Eq, Structural)]
pub enum BackfillCheck {
    /// The user is already marked initialized: an immediate, successful
    /// no-op; no fetch is performed.
    AlreadyInitialized,
    /// The user is not yet initialized: the caller must fetch the history,
    /// persist it, and report both outcomes to `complete_backfill`.
    FetchRequired,
}

/// The set of uids a sequence of flag records marks as initialized.
pub open spec fn users_of(s: Seq<String>) -> Set<Seq<char>> {
    Set::new(|uid: Seq<char>| exists|i: int| 0 <= i < s.len() && s[i]@ == uid)
}

/// The per-user "initialized" flags, as this core sees the persistence
/// layer's record of which users' histories are already synchronized.
pub struct InitFlags {
    initialized: Vec<String>,
}

/// The trigger's decision over the abstract flag store.
pub open spec fn backfill_decision(users: Set<Seq<char>>, uid: Seq<char>) -> BackfillCheck {
    if users.contains(uid) {
        BackfillCheck::AlreadyInitialized
    } else {
        BackfillCheck::FetchRequired
    }
}

impl View for InitFlags {
    type V = Set<Seq<char>>;

    closed spec fn view(&self) -> Set<Seq<char>> {
        users_of(self.initialized@)
    }
}

impl InitFlags {
    /// A store with no user marked initialized.
    pub fn new() -> (flags: Self)
        ensures
            flags@ == Set::<Seq<char>>::empty(),
    {
        let flags = InitFlags { initialized: Vec::new() };
        proof {
            assert(flags@ =~= Set::<Seq<char>>::empty());
        }
        flags
    }

    /// Whether `uid` is marked initialized.
    pub fn is_initialized(&self, uid: &String) -> (r: bool)
        ensures
            r == self@.contains(uid@),
    {
        let mut i: usize = 0;
        while i < self.initialized.len()
            invariant
                i <= self.initialized@.len(),
                forall|j: int| 0 <= j < i ==> self.initialized@[j]@ != uid@,
            decreases self.initialized@.len() - i,
        {
            if self.initialized[i] == *uid {
                return true;
            }
            i = i + 1;
        }
        false
    }
}

/// The checking half of the trigger: decides, from the flag store alone,
/// whether the user's history must be fetched. Reads the store immutably —
/// a skipped fetch writes nothing, so repeating the invocation decides the
/// same.
pub fn check_backfill(flags: &InitFlags, uid: &String) -> (r: BackfillCheck)
    ensures
        r == backfill_decision(flags@, uid@),
{
    if flags.is_initialized(uid) {
        BackfillCheck::AlreadyInitialized
    } else {
        BackfillCheck::FetchRequired
    }
}

/// The recording half of the trigger: takes the caller's fetch and persist
/// outcomes. Only a fully successful sequence marks the user initialized;
/// any failure leaves the flag store unchanged — partial writes of message
/// data are not rolled back, and the unset flag is what records that the
/// backfill still has to happen.
pub fn complete_backfill(
    flags: &mut InitFlags,
    uid: &String,
    fetched: bool,
    persisted: bool,
) -> (r: Result<(), BackfillError>)
    ensures
        fetched && persisted ==> r is Ok && final(flags)@ == old(flags)@.insert(uid@),
        !fetched ==> r == Result::<(), BackfillError>::Err(BackfillError::FetchFailed)
            && final(flags)@ == old(flags)@,
        fetched && !persisted ==> r == Result::<(), BackfillError>::Err(
            BackfillError::PersistFailed,
        ) && final(flags)@ == old(flags)@,
{
    if !fetched {
        return Err(BackfillError::FetchFailed);
    }
    if !persisted {
        return Err(BackfillError::PersistFailed);
    }
    proof {
        lemma_users_push(flags.initialized@, *uid);
    }
    flags.initialized.push(uid.clone());
    Ok(())
}

/// Appending one record marks exactly that uid in the abstract store.
proof fn lemma_users_push(s: Seq<String>, u: String)
    ensures
        users_of(s.push(u)) == users_of(s).insert(u@),
{
    let t = s.push(u);
    assert forall|k: Seq<char>| users_of(t).contains(k) implies users_of(s).insert(u@).contains(k) by {
        let i = choose|i: int| 0 <= i < t.len() && t[i]@ == k;
        if i < s.len() {
            assert(s[i]@ == k);
        }
    }
    assert forall|k: Seq<char>| users_of(s).insert(u@).contains(k) implies users_of(t).contains(
        k,
    ) by {
        if users_of(s).contains(k) {
            let i = choose|i: int| 0 <= i < s.len() && s[i]@ == k;
            assert(t[i]@ == k);
        } else {
            assert(t[s.len() as int]@ == k);
        }
    }
    assert(users_of(t) =~= users_of(s).insert(u@));
}

/// One whole trigger invocation over the abstract store — the composition
/// of [`check_backfill`] with, when a fetch is required, the outside work
/// and [`complete_backfill`]: the store it leaves behind, and whether the
/// invocation succeeded. `fetched` and `persisted` are the outside work's
/// outcomes; they are irrelevant when the check already succeeds.
pub open spec fn trigger_step(
    users: Set<Seq<char>>,
    uid: Seq<char>,
    fetched: bool,
    persisted: bool,
) -> (Set<Seq<char>>, bool) {
    if users.contains(uid) {
        (users, true)
    } else if fetched && persisted {
        (users.insert(uid), true)
    } else {
        (users, false)
    }
}

/// Backfill is idempotent: invoking the trigger twice in succession for a
/// user already marked initialized performs no fetch either time — both
/// checks decide `AlreadyInitialized` — leaves the flag store untouched,
/// and returns success both times, whatever the outside outcomes would
/// have been.
pub proof fn lemma_backfill_idempotent(
    users: Set<Seq<char>>,
    uid: Seq<char>,
    first_fetched: bool,
    first_persisted: bool,
    second_fetched: bool,
    second_persisted: bool,
)
    requires
        users.contains(uid),
    ensures
        ({
            let (mid, first_ok) = trigger_step(users, uid, first_fetched, first_persisted);
            let (after, second_ok) = trigger_step(mid, uid, second_fetched, second_persisted);
            &&& backfill_decision(users, uid) == BackfillCheck::AlreadyInitialized
            &&& backfill_decision(mid, uid) == BackfillCheck::AlreadyInitialized
            &&& first_ok && mid == users
            &&& second_ok && after == users
        }),
{
}

} // verus!
