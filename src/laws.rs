use vstd::prelude::*;

use crate::auth::{begin_spec, complete_spec, completion_row, pending_for_code_spec, verify_spec, LookupOutcome};
use crate::error::{kind_of, AuthError, ErrorKind};
use crate::roles::{classify_spec, names_of_roles, Role, RoleConfig};
use crate::store::{
    has_pending, is_authenticated, lemma_pending_match_absent, lemma_pending_match_found, lemma_pending_match_single,
    lemma_pending_without_clears, linked_roles, status_of, Status, StoreView,
};
use crate::window::{after_open, is_held, not_held, redeem_spec};

verus! {

/// A second `begin` for a requester whose first one issued a code is refused
/// as a state conflict and leaves the store as it was: no second pending row.
pub proof fn begin_twice_conflicts(
    s: StoreView,
    requester: u64,
    first_id: Seq<char>,
    first_lookup: LookupOutcome,
    first_code: Seq<char>,
    first_now: u64,
    second_id: Seq<char>,
    second_lookup: LookupOutcome,
    second_code: Seq<char>,
    second_now: u64,
)
    requires
        begin_spec(s, requester, first_id, first_lookup, first_code, first_now).1.is_ok(),
    ensures
        ({
            let s1 = begin_spec(s, requester, first_id, first_lookup, first_code, first_now).0;
            &&& s1.pending.len() == s.pending.len() + 1
            &&& begin_spec(s1, requester, second_id, second_lookup, second_code, second_now) == (
                s1,
                Err::<crate::store::PendingView, AuthError>(AuthError::AlreadyPending),
            )
        }),
        kind_of(AuthError::AlreadyPending) == ErrorKind::StateConflict,
{
    let s1 = begin_spec(s, requester, first_id, first_lookup, first_code, first_now).0;
    assert(s1.pending[s1.pending.len() - 1].requester == requester);
    assert(has_pending(s1, requester));
    assert(s1.authenticated == s.authenticated);
}

/// `complete` with a code that was never issued to the requester is refused
/// as not found, grants no role and writes nothing. (A requester who is
/// verified already is refused earlier, as a state conflict.)
pub proof fn unissued_code_not_found(
    s: StoreView,
    requester: u64,
    code: Seq<char>,
    staff: Seq<Seq<char>>,
    config: RoleConfig,
    now: u64,
)
    requires
        !is_authenticated(s, requester),
        forall|i: int|
            0 <= i < s.pending.len() ==> !(s.pending[i].requester == requester
                && s.pending[i].code == code),
    ensures
        verify_spec(s, requester, code, staff, config) == Err::<(Seq<char>, u64), AuthError>(
            AuthError::NoPendingMatch,
        ),
        complete_spec(s, requester, code, staff, config, now) == (
            s,
            Err::<u64, AuthError>(AuthError::NoPendingMatch),
        ),
        kind_of(AuthError::NoPendingMatch) == ErrorKind::NotFound,
{
    lemma_pending_match_absent(s.pending, requester, code);
}

/// `complete` with the right code moves a pending requester to verified and
/// leaves no pending row for them; doing it again with the same code is
/// refused as a state conflict and changes nothing. When the requester has a
/// single pending row, the role granted and the audit row appended are those
/// of that row's identifier.
pub proof fn complete_once(
    s: StoreView,
    requester: u64,
    code: Seq<char>,
    staff: Seq<Seq<char>>,
    config: RoleConfig,
    now: u64,
    later_staff: Seq<Seq<char>>,
    later_config: RoleConfig,
    later_now: u64,
    i: int,
)
    requires
        status_of(s, requester) == Status::Pending,
        0 <= i < s.pending.len(),
        s.pending[i].requester == requester,
        s.pending[i].code == code,
    ensures
        ({
            let (s1, r1) = complete_spec(s, requester, code, staff, config, now);
            &&& r1.is_ok()
            &&& status_of(s1, requester) == Status::Authenticated
            &&& !has_pending(s1, requester)
            &&& s1.authenticated.len() == s.authenticated.len() + 1
            &&& s1.authenticated.drop_last() == s.authenticated
            &&& s1.authenticated.last().requester == requester
            &&& (forall|j: int| 0 <= j < s.pending.len() && s.pending[j].requester == requester ==> j == i)
                ==> {
                &&& r1 == Ok::<u64, AuthError>(classify_spec(s.pending[i].institution, staff, config))
                &&& s1.authenticated.last() == completion_row(
                    requester,
                    s.pending[i].institution,
                    classify_spec(s.pending[i].institution, staff, config),
                    now,
                )
            }
            &&& complete_spec(s1, requester, code, later_staff, later_config, later_now) == (
                s1,
                Err::<u64, AuthError>(AuthError::AlreadyAuthenticated),
            )
        }),
        kind_of(AuthError::AlreadyAuthenticated) == ErrorKind::StateConflict,
{
    lemma_pending_match_found(s.pending, requester, code, i);
    if forall|j: int| 0 <= j < s.pending.len() && s.pending[j].requester == requester ==> j == i {
        lemma_pending_match_single(s.pending, requester, code, i);
    }
    let s1 = complete_spec(s, requester, code, staff, config, now).0;
    assert(s1.authenticated.drop_last() =~= s.authenticated);
    assert(s1.authenticated[s1.authenticated.len() - 1].requester == requester);
    assert(is_authenticated(s1, requester));
    lemma_pending_without_clears(s.pending, requester);
}

/// With a fixed staff snapshot the role is decided by membership alone: an
/// identifier in the snapshot always gets the staff role, any other the
/// member role.
pub proof fn snapshot_decides_role(
    s: StoreView,
    requester: u64,
    code: Seq<char>,
    staff: Seq<Seq<char>>,
    config: RoleConfig,
    now: u64,
)
    requires
        pending_for_code_spec(s, requester, code).is_ok(),
    ensures
        ({
            let institution = pending_for_code_spec(s, requester, code)->Ok_0;
            let granted = complete_spec(s, requester, code, staff, config, now).1;
            &&& staff.contains(institution) ==> granted == Ok::<u64, AuthError>(config.staff_role)
            &&& !staff.contains(institution) ==> granted == Ok::<u64, AuthError>(
                config.member_role,
            )
            &&& complete_spec(s, requester, code, staff, config, now).0.authenticated.last().institution
                == institution
        }),
{
}

/// A second `open` while a window is open keeps the first phrase.
pub proof fn open_keeps_first_phrase(w: Option<Seq<char>>, first: Seq<char>, second: Seq<char>)
    requires
        w.is_none(),
    ensures
        after_open(w, first) == Some(first),
        after_open(w, first).is_some(),
        after_open(after_open(w, first), second) == Some(first),
{
}

/// `close` after `open(x)` gives back `x`.
pub proof fn close_after_open_gives_phrase(w: Option<Seq<char>>, x: Seq<char>)
    requires
        w.is_none(),
    ensures
        after_open(w, x).is_some(),
        after_open(w, x).unwrap() == x,
{
}

/// Redeeming the phrase of the open window grants every role linked to it,
/// reports their names, and reports each as newly granted or as held already.
pub proof fn redeem_grants_linked_roles(
    s: StoreView,
    server: Seq<Role>,
    held: Seq<u64>,
    phrase: Seq<char>,
)
    requires
        linked_roles(s.links, phrase).len() > 0,
    ensures
        ({
            let roles = linked_roles(s.links, phrase);
            let r = redeem_spec(Some(phrase), s, server, held, phrase);
            &&& r.is_ok()
            &&& r->Ok_0.0 == roles
            &&& r->Ok_0.3 == names_of_roles(server, roles)
            &&& forall|k: int|
                0 <= k < roles.len() ==> (#[trigger] held.contains(roles[k])
                    ==> r->Ok_0.2.contains(roles[k])) && (!held.contains(roles[k])
                    ==> r->Ok_0.1.contains(roles[k]))
        }),
{
    let roles = linked_roles(s.links, phrase);
    assert forall|k: int| 0 <= k < roles.len() implies (#[trigger] held.contains(roles[k])
        ==> roles.filter(is_held(held)).contains(roles[k])) && (!held.contains(roles[k])
        ==> roles.filter(not_held(held)).contains(roles[k])) by {
        if held.contains(roles[k]) {
            roles.lemma_filter_contains(is_held(held), k);
        } else {
            roles.lemma_filter_contains(not_held(held), k);
        }
    }
}

/// Redeeming any other phrase while a window is open is refused as a wrong
/// phrase: no role is granted.
pub proof fn wrong_phrase_grants_nothing(
    open: Seq<char>,
    s: StoreView,
    server: Seq<Role>,
    held: Seq<u64>,
    phrase: Seq<char>,
)
    requires
        open != phrase,
    ensures
        redeem_spec(Some(open), s, server, held, phrase) == Err::<
            (Seq<u64>, Seq<u64>, Seq<u64>, Seq<Seq<char>>),
            AuthError,
        >(AuthError::WrongPhrase),
{
}

} // verus!
