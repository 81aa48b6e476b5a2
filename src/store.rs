use vstd::prelude::*;

use crate::text::{contains_text, same_text, texts};

verus! {

/// An issued, unredeemed one-time code.
#[derive(Clone, Debug)]
pub struct PendingAuth {
    pub requester: u64,
    pub institution: String,
    pub code: String,
    pub created_at: u64,
}

/// A completed verification; never removed.
#[derive(Clone, Debug)]
pub struct Authenticated {
    pub requester: u64,
    pub institution: String,
    pub role: u64,
    pub granted_at: String,
}

/// One role that a passphrase grants.
#[derive(Clone, Debug)]
pub struct PassphraseLink {
    pub phrase: String,
    pub role: u64,
}

/// The three tables of the persistent store.
#[derive(Clone, Debug)]
pub struct Store {
    pub pending: Vec<PendingAuth>,
    pub authenticated: Vec<Authenticated>,
    pub links: Vec<PassphraseLink>,
}

pub struct PendingView {
    pub requester: u64,
    pub institution: Seq<char>,
    pub code: Seq<char>,
    pub created_at: u64,
}

pub struct AuthView {
    pub requester: u64,
    pub institution: Seq<char>,
    pub role: u64,
    pub granted_at: Seq<char>,
}

pub struct LinkView {
    pub phrase: Seq<char>,
    pub role: u64,
}

pub struct StoreView {
    pub pending: Seq<PendingView>,
    pub authenticated: Seq<AuthView>,
    pub links: Seq<LinkView>,
}

impl View for PendingAuth {
    type V = PendingView;

    open spec fn view(&self) -> PendingView {
        PendingView {
            requester: self.requester,
            institution: self.institution@,
            code: self.code@,
            created_at: self.created_at,
        }
    }
}

impl View for Authenticated {
    type V = AuthView;

    open spec fn view(&self) -> AuthView {
        AuthView {
            requester: self.requester,
            institution: self.institution@,
            role: self.role,
            granted_at: self.granted_at@,
        }
    }
}

impl View for PassphraseLink {
    type V = LinkView;

    open spec fn view(&self) -> LinkView {
        LinkView { phrase: self.phrase@, role: self.role }
    }
}

impl View for Store {
    type V = StoreView;

    open spec fn view(&self) -> StoreView {
        StoreView {
            pending: self.pending@.map_values(|p: PendingAuth| p@),
            authenticated: self.authenticated@.map_values(|a: Authenticated| a@),
            links: self.links@.map_values(|l: PassphraseLink| l@),
        }
    }
}

/// Where a requester stands in the verification protocol.
#[derive(Clone, Copy, Debug, PartialEq, Eq, Structural)]
pub enum Status {
    Absent,
    Pending,
    Authenticated,
}

pub open spec fn is_authenticated(s: StoreView, requester: u64) -> bool {
    exists|i: int| 0 <= i < s.authenticated.len() && s.authenticated[i].requester == requester
}

pub open spec fn has_pending(s: StoreView, requester: u64) -> bool {
    exists|i: int| 0 <= i < s.pending.len() && s.pending[i].requester == requester
}

/// A completed verification outranks a pending one.
pub open spec fn status_of(s: StoreView, requester: u64) -> Status {
    if is_authenticated(s, requester) {
        Status::Authenticated
    } else if has_pending(s, requester) {
        Status::Pending
    } else {
        Status::Absent
    }
}

/// The identifier of the first pending row for this requester and code.
pub open spec fn pending_match(p: Seq<PendingView>, requester: u64, code: Seq<char>) -> Option<
    Seq<char>,
>
    decreases p.len(),
{
    if p.len() == 0 {
        None
    } else if p[0].requester == requester && p[0].code == code {
        Some(p[0].institution)
    } else {
        pending_match(p.drop_first(), requester, code)
    }
}

/// The pending rows of everyone but `requester`.
pub open spec fn pending_without(p: Seq<PendingView>, requester: u64) -> Seq<PendingView>
    decreases p.len(),
{
    if p.len() == 0 {
        p
    } else {
        let prev = pending_without(p.drop_last(), requester);
        if p.last().requester == requester {
            prev
        } else {
            prev.push(p.last())
        }
    }
}

/// The roles linked to `phrase`, one per link row, in row order.
pub open spec fn linked_roles(links: Seq<LinkView>, phrase: Seq<char>) -> Seq<u64>
    decreases links.len(),
{
    if links.len() == 0 {
        Seq::empty()
    } else {
        let prev = linked_roles(links.drop_last(), phrase);
        if links.last().phrase == phrase {
            prev.push(links.last().role)
        } else {
            prev
        }
    }
}

/// The link rows but those that link `role` to `phrase`.
pub open spec fn links_without(links: Seq<LinkView>, phrase: Seq<char>, role: u64) -> Seq<LinkView>
    decreases links.len(),
{
    if links.len() == 0 {
        links
    } else {
        let prev = links_without(links.drop_last(), phrase, role);
        if links.last().phrase == phrase && links.last().role == role {
            prev
        } else {
            prev.push(links.last())
        }
    }
}

/// Each phrase in use, once, in the order of its first link.
pub open spec fn distinct_phrases(links: Seq<LinkView>) -> Seq<Seq<char>>
    decreases links.len(),
{
    if links.len() == 0 {
        Seq::empty()
    } else {
        let prev = distinct_phrases(links.drop_last());
        if prev.contains(links.last().phrase) {
            prev
        } else {
            prev.push(links.last().phrase)
        }
    }
}

pub open spec fn empty_store() -> StoreView {
    StoreView { pending: Seq::empty(), authenticated: Seq::empty(), links: Seq::empty() }
}

/// The store after a code was issued.
pub open spec fn with_pending(s: StoreView, row: PendingView) -> StoreView {
    StoreView { pending: s.pending.push(row), ..s }
}

/// The store after a completed verification: the audit row is appended and
/// the requester's pending rows are gone.
pub open spec fn with_completion(s: StoreView, row: AuthView) -> StoreView {
    StoreView {
        pending: pending_without(s.pending, row.requester),
        authenticated: s.authenticated.push(row),
        links: s.links,
    }
}

pub open spec fn with_links(s: StoreView, links: Seq<LinkView>) -> StoreView {
    StoreView { links: links, ..s }
}

/// A pending row that matches requester and code gives a match.
pub proof fn lemma_pending_match_found(p: Seq<PendingView>, requester: u64, code: Seq<char>, i: int)
    requires
        0 <= i < p.len(),
        p[i].requester == requester,
        p[i].code == code,
    ensures
        pending_match(p, requester, code).is_some(),
    decreases p.len(),
{
    if i > 0 && !(p[0].requester == requester && p[0].code == code) {
        lemma_pending_match_found(p.drop_first(), requester, code, i - 1);
    }
}

/// When the requester has a single pending row and it holds the code, the
/// match is that row's identifier.
pub proof fn lemma_pending_match_single(p: Seq<PendingView>, requester: u64, code: Seq<char>, i: int)
    requires
        0 <= i < p.len(),
        p[i].requester == requester,
        p[i].code == code,
        forall|j: int| 0 <= j < p.len() && p[j].requester == requester ==> j == i,
    ensures
        pending_match(p, requester, code) == Some(p[i].institution),
    decreases p.len(),
{
    if i > 0 {
        let t = p.drop_first();
        assert forall|j: int| 0 <= j < t.len() && t[j].requester == requester implies j == i
            - 1 by {
            assert(t[j] == p[j + 1]);
        }
        lemma_pending_match_single(t, requester, code, i - 1);
    }
}

/// Without a pending row that matches requester and code there is no match.
pub proof fn lemma_pending_match_absent(p: Seq<PendingView>, requester: u64, code: Seq<char>)
    requires
        forall|i: int| 0 <= i < p.len() ==> !(p[i].requester == requester && p[i].code == code),
    ensures
        pending_match(p, requester, code).is_none(),
    decreases p.len(),
{
    if p.len() > 0 {
        let t = p.drop_first();
        assert forall|i: int| 0 <= i < t.len() implies !(t[i].requester == requester && t[i].code
            == code) by {
            assert(t[i] == p[i + 1]);
        }
        lemma_pending_match_absent(t, requester, code);
    }
}

/// No row of `requester` survives `pending_without`.
pub proof fn lemma_pending_without_clears(p: Seq<PendingView>, requester: u64)
    ensures
        forall|i: int|
            0 <= i < pending_without(p, requester).len() ==> (#[trigger] pending_without(
                p,
                requester,
            )[i]).requester != requester,
    decreases p.len(),
{
    if p.len() > 0 {
        let prev = pending_without(p.drop_last(), requester);
        lemma_pending_without_clears(p.drop_last(), requester);
        let all = pending_without(p, requester);
        assert forall|i: int| 0 <= i < all.len() implies (#[trigger] all[i]).requester
            != requester by {
            if i < prev.len() {
                assert(all[i] == prev[i]);
            }
        }
    }
}

impl PendingAuth {
    /// A copy of the row.
    pub fn duplicate(&self) -> (r: PendingAuth)
        ensures
            r@ == self@,
    {
        PendingAuth {
            requester: self.requester,
            institution: self.institution.clone(),
            code: self.code.clone(),
            created_at: self.created_at,
        }
    }
}

impl PassphraseLink {
    /// A copy of the link.
    pub fn duplicate(&self) -> (r: PassphraseLink)
        ensures
            r@ == self@,
    {
        PassphraseLink { phrase: self.phrase.clone(), role: self.role }
    }
}

impl Store {
    /// A store with empty tables.
    pub fn new() -> (r: Store)
        ensures
            r@ == empty_store(),
    {
        let r = Store { pending: Vec::new(), authenticated: Vec::new(), links: Vec::new() };
        assert(r@.pending =~= Seq::<PendingView>::empty());
        assert(r@.authenticated =~= Seq::<AuthView>::empty());
        assert(r@.links =~= Seq::<LinkView>::empty());
        r
    }

    /// Where `requester` stands.
    pub fn status(&self, requester: u64) -> (r: Status)
        ensures
            r == status_of(self@, requester),
    {
        let mut i: usize = 0;
        while i < self.authenticated.len()
            invariant
                i <= self.authenticated@.len(),
                forall|j: int| 0 <= j < i ==> self@.authenticated[j].requester != requester,
            decreases self.authenticated@.len() - i,
        {
            if self.authenticated[i].requester == requester {
                assert(self@.authenticated[i as int].requester == requester);
                return Status::Authenticated;
            }
            i = i + 1;
        }
        let mut k: usize = 0;
        while k < self.pending.len()
            invariant
                k <= self.pending@.len(),
                forall|j: int| 0 <= j < k ==> self@.pending[j].requester != requester,
                forall|j: int|
                    0 <= j < self@.authenticated.len() ==> self@.authenticated[j].requester
                        != requester,
            decreases self.pending@.len() - k,
        {
            if self.pending[k].requester == requester {
                assert(self@.pending[k as int].requester == requester);
                return Status::Pending;
            }
            k = k + 1;
        }
        Status::Absent
    }

    /// The institutional identifier of the pending row that matches both the
    /// requester and the code.
    pub fn pending_institution(&self, requester: u64, code: &str) -> (r: Option<String>)
        ensures
            r.is_some() == pending_match(self@.pending, requester, code@).is_some(),
            r.is_some() ==> r.unwrap()@ == pending_match(self@.pending, requester, code@).unwrap(),
    {
        let ghost all = self@.pending;
        assert(all.subrange(0, all.len() as int) =~= all);
        let mut i: usize = 0;
        while i < self.pending.len()
            invariant
                i <= all.len(),
                all == self@.pending,
                pending_match(all, requester, code@) == pending_match(
                    all.subrange(i as int, all.len() as int),
                    requester,
                    code@,
                ),
            decreases all.len() - i,
        {
            let ghost rest = all.subrange(i as int, all.len() as int);
            assert(rest.drop_first() =~= all.subrange(i + 1, all.len() as int));
            if self.pending[i].requester == requester && same_text(
                self.pending[i].code.as_str(),
                code,
            ) {
                return Some(self.pending[i].institution.clone());
            }
            i = i + 1;
        }
        None
    }

    /// Appends a pending row.
    pub fn add_pending(&mut self, row: PendingAuth)
        ensures
            final(self)@ == with_pending(old(self)@, row@),
    {
        self.pending.push(row);
        assert(self@.pending =~= old(self)@.pending.push(row@));
    }

    /// Records a completed verification and drops the requester's pending rows.
    pub fn add_completion(&mut self, row: Authenticated)
        ensures
            final(self)@ == with_completion(old(self)@, row@),
    {
        let ghost all = old(self)@.pending;
        let mut kept: Vec<PendingAuth> = Vec::new();
        let mut i: usize = 0;
        while i < self.pending.len()
            invariant
                i <= all.len(),
                all == self@.pending,
                self@ == old(self)@,
                kept@.map_values(|p: PendingAuth| p@) == pending_without(
                    all.subrange(0, i as int),
                    row.requester,
                ),
            decreases all.len() - i,
        {
            assert(all.subrange(0, i + 1).drop_last() =~= all.subrange(0, i as int));
            if self.pending[i].requester != row.requester {
                let ghost before = kept@;
                kept.push(self.pending[i].duplicate());
                assert(kept@.map_values(|p: PendingAuth| p@) =~= before.map_values(
                    |p: PendingAuth| p@,
                ).push(all[i as int]));
            }
            i = i + 1;
        }
        assert(all.subrange(0, all.len() as int) =~= all);
        self.pending = kept;
        self.authenticated.push(row);
        assert(self@.authenticated =~= old(self)@.authenticated.push(row@));
    }

    /// Links `role` to `phrase`. A link that exists already is added again.
    pub fn link_role(&mut self, phrase: String, role: u64)
        ensures
            final(self)@ == with_links(
                old(self)@,
                old(self)@.links.push(LinkView { phrase: phrase@, role: role }),
            ),
    {
        self.links.push(PassphraseLink { phrase, role });
        assert(self@.links =~= old(self)@.links.push(LinkView { phrase: phrase@, role: role }));
    }

    /// Removes every link of `role` to `phrase`; returns how many there were.
    pub fn unlink_role(&mut self, phrase: &str, role: u64) -> (r: usize)
        ensures
            final(self)@ == with_links(old(self)@, links_without(old(self)@.links, phrase@, role)),
            r == old(self)@.links.len() - links_without(old(self)@.links, phrase@, role).len(),
    {
        let ghost all = old(self)@.links;
        let mut kept: Vec<PassphraseLink> = Vec::new();
        let mut i: usize = 0;
        while i < self.links.len()
            invariant
                i <= all.len(),
                all == self@.links,
                self@ == old(self)@,
                kept@.map_values(|l: PassphraseLink| l@) == links_without(
                    all.subrange(0, i as int),
                    phrase@,
                    role,
                ),
                kept@.len() <= i,
            decreases all.len() - i,
        {
            assert(all.subrange(0, i + 1).drop_last() =~= all.subrange(0, i as int));
            if !(self.links[i].role == role && same_text(self.links[i].phrase.as_str(), phrase)) {
                let ghost before = kept@;
                kept.push(self.links[i].duplicate());
                assert(kept@.map_values(|l: PassphraseLink| l@) =~= before.map_values(
                    |l: PassphraseLink| l@,
                ).push(all[i as int]));
            }
            i = i + 1;
        }
        assert(all.subrange(0, all.len() as int) =~= all);
        let removed = self.links.len() - kept.len();
        self.links = kept;
        assert(self@.pending =~= old(self)@.pending);
        assert(self@.authenticated =~= old(self)@.authenticated);
        removed
    }

    /// The roles linked to `phrase`, one per link row.
    pub fn roles_for(&self, phrase: &str) -> (r: Vec<u64>)
        ensures
            r@ == linked_roles(self@.links, phrase@),
    {
        let ghost all = self@.links;
        let mut roles: Vec<u64> = Vec::new();
        let mut i: usize = 0;
        while i < self.links.len()
            invariant
                i <= all.len(),
                all == self@.links,
                roles@ == linked_roles(all.subrange(0, i as int), phrase@),
            decreases all.len() - i,
        {
            assert(all.subrange(0, i + 1).drop_last() =~= all.subrange(0, i as int));
            if same_text(self.links[i].phrase.as_str(), phrase) {
                roles.push(self.links[i].role);
            }
            i = i + 1;
        }
        assert(all.subrange(0, all.len() as int) =~= all);
        roles
    }

    /// Every phrase in use, once each, in the order of its first link.
    pub fn list_phrases(&self) -> (r: Vec<String>)
        ensures
            texts(r@) == distinct_phrases(self@.links),
    {
        let ghost all = self@.links;
        let mut out: Vec<String> = Vec::new();
        let mut i: usize = 0;
        while i < self.links.len()
            invariant
                i <= all.len(),
                all == self@.links,
                texts(out@) == distinct_phrases(all.subrange(0, i as int)),
            decreases all.len() - i,
        {
            assert(all.subrange(0, i + 1).drop_last() =~= all.subrange(0, i as int));
            if !contains_text(&out, self.links[i].phrase.as_str()) {
                let ghost before = out@;
                out.push(self.links[i].phrase.clone());
                assert(texts(out@) =~= texts(before).push(all[i as int].phrase));
            }
            i = i + 1;
        }
        assert(all.subrange(0, all.len() as int) =~= all);
        out
    }
}

} // verus!
