use vstd::prelude::*;

use crate::error::AuthError;
use crate::roles::{names_of_roles, Role, RoleDirectory};
use crate::store::{linked_roles, Store, StoreView};
use crate::text::texts;
use crate::text::{contains_id, same_text};

verus! {

/// The moderator-controlled registration window: closed, or open with one
/// shared passphrase. It lives in memory only.
#[derive(Clone, Debug)]
pub struct RegistrationWindow {
    phrase: Option<String>,
}

impl View for RegistrationWindow {
    type V = Option<Seq<char>>;

    closed spec fn view(&self) -> Option<Seq<char>> {
        match self.phrase {
            Some(p) => Some(p@),
            None => None,
        }
    }
}

/// The answer to a request to open the window.
#[derive(Clone, Debug)]
pub enum OpenOutcome {
    Opened,
    /// A window was open already, with this phrase; it stays as it was.
    AlreadyOpen(String),
}

/// What a successful redemption grants.
#[derive(Clone, Debug)]
pub struct RedeemReport {
    /// Every role linked to the phrase, one per link row.
    pub granted: Vec<u64>,
    /// Those of them that the requester did not hold.
    pub newly_granted: Vec<u64>,
    /// Those of them that the requester held already.
    pub already_held: Vec<u64>,
    /// The names of the granted roles that exist on the server.
    pub names: Vec<String>,
}

/// The window after a request to open it with `phrase`.
pub open spec fn after_open(w: Option<Seq<char>>, phrase: Seq<char>) -> Option<Seq<char>> {
    match w {
        None => Some(phrase),
        Some(_) => w,
    }
}

pub open spec fn not_held(held: Seq<u64>) -> spec_fn(u64) -> bool {
    |r: u64| !held.contains(r)
}

pub open spec fn is_held(held: Seq<u64>) -> spec_fn(u64) -> bool {
    |r: u64| held.contains(r)
}

/// The outcome of redeeming `phrase` while the window stands at `w`, for a
/// requester who holds the roles `held`, on a server with the roles `roles`:
/// the granted roles, those newly granted, those held already, and the names
/// of the granted ones.
pub open spec fn redeem_spec(
    w: Option<Seq<char>>,
    s: StoreView,
    server: Seq<Role>,
    held: Seq<u64>,
    phrase: Seq<char>,
) -> Result<(Seq<u64>, Seq<u64>, Seq<u64>, Seq<Seq<char>>), AuthError> {
    match w {
        None => Err(AuthError::RegistrationClosed),
        Some(open) => if open != phrase {
            Err(AuthError::WrongPhrase)
        } else {
            let roles = linked_roles(s.links, phrase);
            if roles.len() == 0 {
                Err(AuthError::NoLinkedRoles)
            } else {
                Ok(
                    (
                        roles,
                        roles.filter(not_held(held)),
                        roles.filter(is_held(held)),
                        names_of_roles(server, roles),
                    ),
                )
            }
        },
    }
}

pub open spec fn report_result(r: Result<RedeemReport, AuthError>) -> Result<
    (Seq<u64>, Seq<u64>, Seq<u64>, Seq<Seq<char>>),
    AuthError,
> {
    match r {
        Ok(rep) => Ok((rep.granted@, rep.newly_granted@, rep.already_held@, texts(rep.names@))),
        Err(e) => Err(e),
    }
}

impl RegistrationWindow {
    /// A closed window.
    pub fn new() -> (r: RegistrationWindow)
        ensures
            r@.is_none(),
    {
        RegistrationWindow { phrase: None }
    }

    /// Opens the window with `phrase`, unless one is open already; an open
    /// window is never overwritten.
    pub fn open(&mut self, phrase: String) -> (r: OpenOutcome)
        ensures
            final(self)@ == after_open(old(self)@, phrase@),
            r is Opened == old(self)@.is_none(),
            r is AlreadyOpen ==> r->AlreadyOpen_0@ == old(self)@.unwrap(),
    {
        match &self.phrase {
            Some(p) => OpenOutcome::AlreadyOpen(p.clone()),
            None => {
                self.phrase = Some(phrase);
                OpenOutcome::Opened
            },
        }
    }

    /// Closes the window and gives the phrase it had, if it was open.
    pub fn close(&mut self) -> (r: Option<String>)
        ensures
            final(self)@.is_none(),
            r.is_some() == old(self)@.is_some(),
            r.is_some() ==> r->Some_0@ == old(self)@.unwrap(),
    {
        let r = self.phrase.take();
        r
    }

    /// The phrase of the open window, if any.
    pub fn status(&self) -> (r: Option<String>)
        ensures
            r.is_some() == self@.is_some(),
            r.is_some() ==> r->Some_0@ == self@.unwrap(),
    {
        match &self.phrase {
            Some(p) => Some(p.clone()),
            None => None,
        }
    }
}

/// Redeems `phrase` for a requester who holds the roles `held`: the window
/// must be open with exactly this phrase, and the phrase must be linked to at
/// least one role. Nothing is changed; the caller grants the reported roles.
pub fn passphrase(
    window: &RegistrationWindow,
    store: &Store,
    server: &RoleDirectory,
    held: &Vec<u64>,
    phrase: &str,
) -> (r: Result<RedeemReport, AuthError>)
    ensures
        report_result(r) == redeem_spec(window@, store@, server.roles@, held@, phrase@),
{
    let open = window.status();
    match open {
        None => {
            return Err(AuthError::RegistrationClosed);
        },
        Some(p) => {
            if !same_text(p.as_str(), phrase) {
                return Err(AuthError::WrongPhrase);
            }
        },
    }
    let roles = store.roles_for(phrase);
    if roles.len() == 0 {
        return Err(AuthError::NoLinkedRoles);
    }
    let mut newly: Vec<u64> = Vec::new();
    let mut already: Vec<u64> = Vec::new();
    let mut i: usize = 0;
    while i < roles.len()
        invariant
            i <= roles@.len(),
            newly@ == roles@.subrange(0, i as int).filter(not_held(held@)),
            already@ == roles@.subrange(0, i as int).filter(is_held(held@)),
        decreases roles@.len() - i,
    {
        let ghost prefix = roles@.subrange(0, i as int);
        assert(roles@.subrange(0, i + 1) =~= prefix.push(roles@[i as int]));
        proof {
            prefix.lemma_filter_push(roles@[i as int], not_held(held@));
            prefix.lemma_filter_push(roles@[i as int], is_held(held@));
        }
        if contains_id(held, roles[i]) {
            already.push(roles[i]);
        } else {
            newly.push(roles[i]);
        }
        i = i + 1;
    }
    assert(roles@.subrange(0, roles@.len() as int) =~= roles@);
    let names = server.names_of(&roles);
    Ok(RedeemReport { granted: roles, newly_granted: newly, already_held: already, names })
}

} // verus!
