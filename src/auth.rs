use vstd::prelude::*;

use crate::error::AuthError;
use crate::roles::{classify, classify_spec, RoleConfig, RoleDirectory, names_of_roles};
use crate::store::{
    is_authenticated, linked_roles, pending_match, status_of, with_completion, with_pending,
    AuthView, Authenticated, PendingAuth, PendingView, Status, Store, StoreView,
};
use crate::text::texts;

verus! {

/// The number of characters in a one-time code.
pub const CODE_LENGTH: usize = 8;

/// The last second (UTC, 9999-12-31T23:59:59Z) that a timestamp can stand for.
pub const LATEST_TIMESTAMP: u64 = 253402300799;

/// The subject of the mail that carries a one-time code.
pub const CODE_MAIL_SUBJECT: &'static str = "TCYSM Discord authentication";

/// The text before the code in the body of that mail.
pub const CODE_MAIL_GREETING: &'static str = "Hello, this is your code: ";

/// What the identity service knows of an institutional identifier.
#[derive(Clone, Debug)]
pub struct Identity {
    pub email: String,
    pub display_name: String,
}

/// The answer of the identity service.
#[derive(Clone, Debug)]
pub enum LookupOutcome {
    /// The service could not be reached.
    Unreachable,
    /// The answer could not be read as an identity.
    NotFound,
    Found(Identity),
}

/// A verification whose code matched: the identity it was issued for and the
/// role that this identity earns.
#[derive(Clone, Debug)]
pub struct Completion {
    pub institution: String,
    pub role: u64,
}

/// A mail ready for the transport.
#[derive(Clone, Debug)]
pub struct OutgoingMail {
    pub recipient: String,
    pub subject: String,
    pub body: String,
}

pub open spec fn is_code_char(c: char) -> bool {
    ('A' <= c && c <= 'Z') || ('a' <= c && c <= 'z') || ('0' <= c && c <= '9')
}

/// The shape of every issued code.
pub open spec fn is_code(s: Seq<char>) -> bool {
    s.len() == CODE_LENGTH && forall|i: int| 0 <= i < s.len() ==> is_code_char(#[trigger] s[i])
}

/// Relies on rand 0.8: `DistString::sample_string` of `Alphanumeric` over
/// `thread_rng()` gives `len` characters, each drawn from A-Z, a-z and 0-9.
#[verifier::external_body]
fn random_alphanumeric(len: usize) -> (r: String)
    ensures
        r@.len() == len,
        forall|i: int| 0 <= i < len ==> is_code_char(#[trigger] r@[i]),
{
    rand::distributions::DistString::sample_string(
        &rand::distributions::Alphanumeric,
        &mut rand::thread_rng(),
        len,
    )
}

/// The RFC 3339 text, to the second and in UTC, of a time given in seconds
/// since the Unix epoch.
pub uninterp spec fn rfc3339_seconds_of(secs: u64) -> Seq<char>;

/// Relies on humantime::format_rfc3339_seconds: UTC as `YYYY-MM-DDTHH:MM:SSZ`,
/// twenty characters. From the year 10000 on its `Display` fails, which
/// `to_string` turns into a panic, hence the bound.
#[verifier::external_body]
fn format_timestamp(secs: u64) -> (r: String)
    requires
        secs <= LATEST_TIMESTAMP,
    ensures
        r@ == rfc3339_seconds_of(secs),
        r@.len() == 20,
{
    let t = std::time::UNIX_EPOCH + std::time::Duration::from_secs(secs);
    humantime::format_rfc3339_seconds(t).to_string()
}

/// Whether lettre reads the text as a mailbox (`Name <user@domain>` or a bare
/// address).
pub uninterp spec fn mailbox_parses(s: Seq<char>) -> bool;

/// Relies on lettre's `FromStr` for `message::Mailbox`: `Ok` exactly when the
/// text is a mailbox it can send to. The result depends on the text alone.
#[verifier::external_body]
fn is_mailbox(s: &str) -> (r: bool)
    ensures
        r == mailbox_parses(s@),
{
    s.parse::<lettre::message::Mailbox>().is_ok()
}

/// Why `begin` refuses, if it does: the requester's state first, then the
/// answer of the identity service.
pub open spec fn begin_refusal(s: StoreView, requester: u64, lookup: LookupOutcome) -> Option<
    AuthError,
> {
    match status_of(s, requester) {
        Status::Authenticated => Some(AuthError::AlreadyAuthenticated),
        Status::Pending => Some(AuthError::AlreadyPending),
        Status::Absent => match lookup {
            LookupOutcome::Unreachable => Some(AuthError::LookupUnreachable),
            LookupOutcome::NotFound => Some(AuthError::LookupNotFound),
            LookupOutcome::Found(_) => None,
        },
    }
}

/// The store and the result after `begin` issued `code`.
pub open spec fn begin_spec(
    s: StoreView,
    requester: u64,
    institution: Seq<char>,
    lookup: LookupOutcome,
    code: Seq<char>,
    now: u64,
) -> (StoreView, Result<PendingView, AuthError>) {
    match begin_refusal(s, requester, lookup) {
        Some(e) => (s, Err(e)),
        None => {
            let row = PendingView { requester, institution, code, created_at: now };
            (with_pending(s, row), Ok(row))
        },
    }
}

pub open spec fn pending_result(r: Result<PendingAuth, AuthError>) -> Result<PendingView, AuthError> {
    match r {
        Ok(row) => Ok(row@),
        Err(e) => Err(e),
    }
}

/// Which identity a code redeems, or why it redeems none.
pub open spec fn pending_for_code_spec(s: StoreView, requester: u64, code: Seq<char>) -> Result<
    Seq<char>,
    AuthError,
> {
    if is_authenticated(s, requester) {
        Err(AuthError::AlreadyAuthenticated)
    } else {
        match pending_match(s.pending, requester, code) {
            None => Err(AuthError::NoPendingMatch),
            Some(institution) => Ok(institution),
        }
    }
}

/// The identity and the role of a matching code, or why there is none.
pub open spec fn verify_spec(
    s: StoreView,
    requester: u64,
    code: Seq<char>,
    staff: Seq<Seq<char>>,
    config: RoleConfig,
) -> Result<(Seq<char>, u64), AuthError> {
    match pending_for_code_spec(s, requester, code) {
        Err(e) => Err(e),
        Ok(institution) => Ok((institution, classify_spec(institution, staff, config))),
    }
}

pub open spec fn completion_result(r: Result<Completion, AuthError>) -> Result<
    (Seq<char>, u64),
    AuthError,
> {
    match r {
        Ok(c) => Ok((c.institution@, c.role)),
        Err(e) => Err(e),
    }
}

/// The audit row of a completed verification.
pub open spec fn completion_row(
    requester: u64,
    institution: Seq<char>,
    role: u64,
    now: u64,
) -> AuthView {
    AuthView { requester, institution, role, granted_at: rfc3339_seconds_of(now) }
}

/// A whole completion whose role grant succeeded: the store after it and the
/// role granted.
pub open spec fn complete_spec(
    s: StoreView,
    requester: u64,
    code: Seq<char>,
    staff: Seq<Seq<char>>,
    config: RoleConfig,
    now: u64,
) -> (StoreView, Result<u64, AuthError>) {
    match verify_spec(s, requester, code, staff, config) {
        Err(e) => (s, Err(e)),
        Ok((institution, role)) => (
            with_completion(s, completion_row(requester, institution, role, now)),
            Ok(role),
        ),
    }
}

/// The recipient of a code mail: `Name<address>`.
pub open spec fn recipient_of(identity: Identity) -> Seq<char> {
    identity.display_name@ + "<"@ + identity.email@ + ">"@
}

/// Why `begin` would refuse, before a code is made.
pub fn begin_check(store: &Store, requester: u64, lookup: &LookupOutcome) -> (r: Option<AuthError>)
    ensures
        r == begin_refusal(store@, requester, *lookup),
{
    match store.status(requester) {
        Status::Authenticated => Some(AuthError::AlreadyAuthenticated),
        Status::Pending => Some(AuthError::AlreadyPending),
        Status::Absent => match lookup {
            LookupOutcome::Unreachable => Some(AuthError::LookupUnreachable),
            LookupOutcome::NotFound => Some(AuthError::LookupNotFound),
            LookupOutcome::Found(_) => None,
        },
    }
}

/// Issues `code` to `requester` for the identifier `kth_id`, whose lookup gave
/// `lookup`: the pending row is stored and returned, so that the code is
/// recorded before it is ever sent.
pub fn begin_with_code(
    store: &mut Store,
    requester: u64,
    kth_id: &str,
    lookup: &LookupOutcome,
    code: String,
    now: u64,
) -> (r: Result<PendingAuth, AuthError>)
    ensures
        (final(store)@, pending_result(r)) == begin_spec(
            old(store)@,
            requester,
            kth_id@,
            *lookup,
            code@,
            now,
        ),
{
    match begin_check(store, requester, lookup) {
        Some(e) => Err(e),
        None => {
            let row = PendingAuth {
                requester,
                institution: String::from_str(kth_id),
                code,
                created_at: now,
            };
            let kept = row.duplicate();
            store.add_pending(row);
            Ok(kept)
        },
    }
}

/// Starts a verification: unless the requester is pending or verified already,
/// or the lookup failed, a fresh random code is issued and recorded.
pub fn begin(store: &mut Store, requester: u64, kth_id: &str, lookup: &LookupOutcome, now: u64) -> (r:
    Result<PendingAuth, AuthError>)
    ensures
        r.is_ok() == begin_refusal(old(store)@, requester, *lookup).is_none(),
        r.is_err() ==> final(store)@ == old(store)@ && Some(r->Err_0) == begin_refusal(
            old(store)@,
            requester,
            *lookup,
        ),
        r.is_ok() ==> is_code(r->Ok_0.code@) && (final(store)@, pending_result(r)) == begin_spec(
            old(store)@,
            requester,
            kth_id@,
            *lookup,
            r->Ok_0.code@,
            now,
        ),
{
    match begin_check(store, requester, lookup) {
        Some(e) => Err(e),
        None => {
            let code = random_alphanumeric(CODE_LENGTH);
            begin_with_code(store, requester, kth_id, lookup, code, now)
        },
    }
}

/// The identity that `code` redeems for `requester`. The lookup goes by the
/// pair, so a wrong code says nothing of other pending codes.
pub fn pending_for_code(store: &Store, requester: u64, code: &str) -> (r: Result<String, AuthError>)
    ensures
        r.is_ok() == pending_for_code_spec(store@, requester, code@).is_ok(),
        r.is_ok() ==> r->Ok_0@ == pending_for_code_spec(store@, requester, code@)->Ok_0,
        r.is_err() ==> r->Err_0 == pending_for_code_spec(store@, requester, code@)->Err_0,
{
    if store.status(requester) == Status::Authenticated {
        return Err(AuthError::AlreadyAuthenticated);
    }
    match store.pending_institution(requester, code) {
        None => Err(AuthError::NoPendingMatch),
        Some(institution) => Ok(institution),
    }
}

/// Decides a submitted code against a staff snapshot: the identity it was
/// issued for and the role to grant. Nothing is written.
pub fn verify(
    store: &Store,
    requester: u64,
    code: &str,
    staff: &Vec<String>,
    config: &RoleConfig,
) -> (r: Result<Completion, AuthError>)
    ensures
        completion_result(r) == verify_spec(store@, requester, code@, texts(staff@), *config),
{
    match pending_for_code(store, requester, code) {
        Err(e) => Err(e),
        Ok(institution) => {
            let role = classify(institution.as_str(), staff, config);
            Ok(Completion { institution, role })
        },
    }
}

/// Records a verification whose role grant succeeded, at `now` seconds since
/// the Unix epoch; the requester's pending rows go.
pub fn record_verification(store: &mut Store, requester: u64, completion: &Completion, now: u64) -> (r:
    Authenticated)
    requires
        now <= LATEST_TIMESTAMP,
    ensures
        r@ == completion_row(requester, completion.institution@, completion.role, now),
        final(store)@ == with_completion(old(store)@, r@),
{
    let row = Authenticated {
        requester,
        institution: completion.institution.clone(),
        role: completion.role,
        granted_at: format_timestamp(now),
    };
    let kept = Authenticated {
        requester,
        institution: row.institution.clone(),
        role: row.role,
        granted_at: row.granted_at.clone(),
    };
    store.add_completion(row);
    kept
}

/// The mail that carries `code` to `identity`, or `None` when the recipient
/// is no mailbox that can be sent to.
pub fn compose_code_mail(identity: &Identity, code: &str) -> (r: Option<OutgoingMail>)
    ensures
        r.is_some() == mailbox_parses(recipient_of(*identity)),
        r.is_some() ==> r->Some_0.recipient@ == recipient_of(*identity) && r->Some_0.subject@
            == CODE_MAIL_SUBJECT@ && r->Some_0.body@ == CODE_MAIL_GREETING@ + code@,
{
    let recipient = identity.display_name.clone().concat("<").concat(identity.email.as_str()).concat(
        ">",
    );
    if !is_mailbox(recipient.as_str()) {
        return None;
    }
    let body = String::from_str(CODE_MAIL_GREETING).concat(code);
    Some(OutgoingMail { recipient, subject: String::from_str(CODE_MAIL_SUBJECT), body })
}

/// The names of the server roles linked to `phrase`, in link order; links to
/// roles that no longer exist are left out.
pub fn list_roles(store: &Store, dir: &RoleDirectory, phrase: &str) -> (r: Vec<String>)
    ensures
        texts(r@) == names_of_roles(dir.roles@, linked_roles(store@.links, phrase@)),
{
    let ids = store.roles_for(phrase);
    dir.names_of(&ids)
}

} // verus!
