//! The contract's persistent state and its storage operations.  `Storage`
//! holds every record the contract keeps; each list stands for a map (see
//! `keyed`), so a read gives back what the last write under its key wrote.
use vstd::prelude::*;

use crate::address::Address;
use crate::keyed::{as_map, first_at, has_key, lemma_map_push, lemma_map_update};
use crate::types::{Claim, ClaimStatus, OracleTrigger, Policy, TriggerStatus, VoteOption};

verus! {

/// A recorded ballot: `voter` voted `vote` on claim `claim_id`.
#[derive(Clone, Debug)]
pub struct Ballot {
    pub claim_id: u64,
    pub voter: Address,
    pub vote: VoteOption,
}

/// The electorate of a claim, captured when it was filed.
#[derive(Clone, Debug)]
pub struct ClaimVoters {
    pub claim_id: u64,
    pub voters: Vec<Address>,
}

/// The last policy id issued to a holder.
#[derive(Clone, Debug)]
pub struct PolicyCounter {
    pub holder: Address,
    pub last_id: u32,
}

/// A stored oracle trigger and its id.
#[derive(Clone, Debug)]
pub struct StoredTrigger {
    pub trigger_id: u64,
    pub trigger: OracleTrigger,
}

/// The lifecycle status of a stored oracle trigger.
#[derive(Clone, Copy, Debug)]
pub struct StoredTriggerStatus {
    pub trigger_id: u64,
    pub status: TriggerStatus,
}

/// Everything the contract stores.
#[derive(Clone, Debug)]
pub struct Storage {
    pub admin: Option<Address>,
    pub pending_admin: Option<Address>,
    pub token: Option<Address>,
    pub paused: bool,
    pub policies: Vec<Policy>,
    pub policy_counters: Vec<PolicyCounter>,
    pub claims: Vec<Claim>,
    pub claim_counter: u64,
    pub votes: Vec<Ballot>,
    /// The live voter set: every current active policyholder.
    pub voters: Vec<Address>,
    pub claim_voters: Vec<ClaimVoters>,
    pub allowed_assets: Vec<Address>,
    pub oracle_enabled: bool,
    pub trigger_counter: u64,
    pub oracle_triggers: Vec<StoredTrigger>,
    pub trigger_statuses: Vec<StoredTriggerStatus>,
}

/// Claims are keyed by id.
pub open spec fn claim_key() -> spec_fn(Claim) -> u64 {
    |c: Claim| c.claim_id
}

/// Policies are keyed by holder and per-holder policy id.
pub open spec fn policy_key() -> spec_fn(Policy) -> (Seq<char>, u32) {
    |p: Policy| (p.holder@, p.policy_id)
}

/// Ballots are keyed by claim and voter.
pub open spec fn ballot_key() -> spec_fn(Ballot) -> (u64, Seq<char>) {
    |b: Ballot| (b.claim_id, b.voter@)
}

/// Electorate snapshots are keyed by claim.
pub open spec fn snapshot_key() -> spec_fn(ClaimVoters) -> u64 {
    |s: ClaimVoters| s.claim_id
}

/// Policy counters are keyed by holder.
pub open spec fn counter_key() -> spec_fn(PolicyCounter) -> Seq<char> {
    |c: PolicyCounter| c.holder@
}

/// Stored triggers are keyed by trigger id.
pub open spec fn trigger_key() -> spec_fn(StoredTrigger) -> u64 {
    |t: StoredTrigger| t.trigger_id
}

/// Trigger statuses are keyed by trigger id.
pub open spec fn status_key() -> spec_fn(StoredTriggerStatus) -> u64 {
    |t: StoredTriggerStatus| t.trigger_id
}

/// The texts of a list of addresses.
pub open spec fn addrs(s: Seq<Address>) -> Seq<Seq<char>> {
    s.map_values(|a: Address| a@)
}

/// The text of an optional address.
pub open spec fn opt_addr(a: Option<Address>) -> Option<Seq<char>> {
    match a {
        Some(x) => Some(x@),
        None => None,
    }
}

impl Storage {
    /// The stored claims by id.
    pub open spec fn claim_map(&self) -> Map<u64, Claim> {
        as_map(self.claims@, claim_key())
    }

    /// The stored policies by holder text and policy id.
    pub open spec fn policy_map(&self) -> Map<(Seq<char>, u32), Policy> {
        as_map(self.policies@, policy_key())
    }

    /// The recorded ballots by claim id and voter text.
    pub open spec fn ballot_map(&self) -> Map<(u64, Seq<char>), Ballot> {
        as_map(self.votes@, ballot_key())
    }

    /// The electorate snapshots by claim id.
    pub open spec fn snapshot_map(&self) -> Map<u64, ClaimVoters> {
        as_map(self.claim_voters@, snapshot_key())
    }

    /// The policy-id counters by holder text.
    pub open spec fn counter_map(&self) -> Map<Seq<char>, PolicyCounter> {
        as_map(self.policy_counters@, counter_key())
    }

    /// The stored oracle triggers by trigger id.
    pub open spec fn trigger_map(&self) -> Map<u64, StoredTrigger> {
        as_map(self.oracle_triggers@, trigger_key())
    }

    /// The trigger statuses by trigger id.
    pub open spec fn status_map(&self) -> Map<u64, StoredTriggerStatus> {
        as_map(self.trigger_statuses@, status_key())
    }

    /// The live voter set, as address texts.
    pub open spec fn voter_set(&self) -> Seq<Seq<char>> {
        addrs(self.voters@)
    }

    /// The electorate of a claim, as address texts; empty if none was taken.
    pub open spec fn electorate(&self, claim_id: u64) -> Seq<Seq<char>> {
        if self.snapshot_map().dom().contains(claim_id) {
            addrs(self.snapshot_map()[claim_id].voters@)
        } else {
            Seq::empty()
        }
    }

    /// Nothing is stored: no admin, token or proposal, not paused, oracle
    /// off, no records and all counters at 0.
    pub open spec fn is_empty(&self) -> bool {
        &&& self.admin is None
        &&& self.pending_admin is None
        &&& self.token is None
        &&& !self.paused
        &&& self.policies@.len() == 0
        &&& self.policy_counters@.len() == 0
        &&& self.claims@.len() == 0
        &&& self.claim_counter == 0
        &&& self.votes@.len() == 0
        &&& self.voters@.len() == 0
        &&& self.claim_voters@.len() == 0
        &&& self.allowed_assets@.len() == 0
        &&& !self.oracle_enabled
        &&& self.trigger_counter == 0
        &&& self.oracle_triggers@.len() == 0
        &&& self.trigger_statuses@.len() == 0
    }

    /// An empty store.
    pub fn new() -> (st: Storage)
        ensures
            st.is_empty(),
    {
        Storage {
            admin: None,
            pending_admin: None,
            token: None,
            paused: false,
            policies: Vec::new(),
            policy_counters: Vec::new(),
            claims: Vec::new(),
            claim_counter: 0,
            votes: Vec::new(),
            voters: Vec::new(),
            claim_voters: Vec::new(),
            allowed_assets: Vec::new(),
            oracle_enabled: false,
            trigger_counter: 0,
            oracle_triggers: Vec::new(),
            trigger_statuses: Vec::new(),
        }
    }
}

/// A copy of a list of addresses.
pub fn copy_addresses(v: &Vec<Address>) -> (r: Vec<Address>)
    ensures
        addrs(r@) == addrs(v@),
{
    let mut r: Vec<Address> = Vec::new();
    let mut i: usize = 0;
    while i < v.len()
        invariant
            i <= v.len(),
            r@.len() == i,
            forall|j: int| 0 <= j < i ==> (#[trigger] r@[j])@ == v@[j]@,
        decreases v.len() - i,
    {
        r.push(v[i].copied());
        i = i + 1;
    }
    assert(addrs(r@) =~= addrs(v@));
    r
}

/// Whether `a` occurs in the list, compared by text.
pub fn contains_address(v: &Vec<Address>, a: &Address) -> (r: bool)
    ensures
        r == addrs(v@).contains(a@),
{
    let mut i: usize = 0;
    while i < v.len()
        invariant
            i <= v.len(),
            forall|j: int| 0 <= j < i ==> (#[trigger] v@[j])@ != a@,
        decreases v.len() - i,
    {
        if v[i].same(a) {
            assert(addrs(v@)[i as int] == a@);
            return true;
        }
        i = i + 1;
    }
    assert(!addrs(v@).contains(a@)) by {
        if addrs(v@).contains(a@) {
            let k = choose|k: int| 0 <= k < addrs(v@).len() && addrs(v@)[k] == a@;
            assert(v@[k]@ == a@);
        }
    }
    false
}

// ── Admin, token and pause flag ─────────────────────────────────────────────

/// Stores `admin` as the admin.
pub fn set_admin(st: &mut Storage, admin: Address)
    ensures
        *final(st) == (Storage { admin: Some(admin), ..*old(st) }),
{
    st.admin = Some(admin);
}

/// The stored admin.
pub fn get_admin(st: &Storage) -> (a: &Address)
    requires
        st.admin is Some,
    ensures
        *a == st.admin->0,
{
    st.admin.as_ref().unwrap()
}

/// Stores `token` as the treasury token.
pub fn set_token(st: &mut Storage, token: Address)
    ensures
        *final(st) == (Storage { token: Some(token), ..*old(st) }),
{
    st.token = Some(token);
}

/// The stored token.
pub fn get_token(st: &Storage) -> (t: &Address)
    requires
        st.token is Some,
    ensures
        *t == st.token->0,
{
    st.token.as_ref().unwrap()
}

/// Records `pending` as the proposed successor admin.
pub fn set_pending_admin(st: &mut Storage, pending: Address)
    ensures
        *final(st) == (Storage { pending_admin: Some(pending), ..*old(st) }),
{
    st.pending_admin = Some(pending);
}

/// The proposed successor admin, if any.
pub fn get_pending_admin(st: &Storage) -> (p: Option<&Address>)
    ensures
        p == match st.pending_admin {
            Some(a) => Some(&a),
            None => None,
        },
{
    st.pending_admin.as_ref()
}

/// Clears the admin proposal.
pub fn clear_pending_admin(st: &mut Storage)
    ensures
        *final(st) == (Storage { pending_admin: None, ..*old(st) }),
{
    st.pending_admin = None;
}

/// Sets the pause flag.
pub fn set_paused(st: &mut Storage, paused: bool)
    ensures
        *final(st) == (Storage { paused: paused, ..*old(st) }),
{
    st.paused = paused;
}

/// Returns true if the contract is paused.
pub fn is_paused(st: &Storage) -> (r: bool)
    ensures
        r == st.paused,
{
    st.paused
}


// ── Keyed lookups ────────────────────────────────────────────────────────────

/// The first stored claim with id `claim_id`.
fn find_claim(claims: &Vec<Claim>, claim_id: u64) -> (r: Option<usize>)
    ensures
        match r {
            Some(i) => first_at(claims@, claim_key(), claim_id, i as int),
            None => !has_key(claims@, claim_key(), claim_id),
        },
{
    let mut i: usize = 0;
    while i < claims.len()
        invariant
            i <= claims.len(),
            forall|j: int| 0 <= j < i ==> (claim_key())(#[trigger] claims@[j]) != claim_id,
        decreases claims.len() - i,
    {
        if claims[i].claim_id == claim_id {
            return Some(i);
        }
        i = i + 1;
    }
    None
}

/// The first stored policy of `holder` with id `policy_id`.
fn find_policy(policies: &Vec<Policy>, holder: &Address, policy_id: u32) -> (r: Option<usize>)
    ensures
        match r {
            Some(i) => first_at(policies@, policy_key(), (holder@, policy_id), i as int),
            None => !has_key(policies@, policy_key(), (holder@, policy_id)),
        },
{
    let mut i: usize = 0;
    while i < policies.len()
        invariant
            i <= policies.len(),
            forall|j: int| 0 <= j < i ==> (policy_key())(#[trigger] policies@[j]) != (holder@, policy_id),
        decreases policies.len() - i,
    {
        if policies[i].policy_id == policy_id && policies[i].holder.same(holder) {
            return Some(i);
        }
        i = i + 1;
    }
    None
}

/// The first stored ballot of `voter` on claim `claim_id`.
fn find_ballot(votes: &Vec<Ballot>, claim_id: u64, voter: &Address) -> (r: Option<usize>)
    ensures
        match r {
            Some(i) => first_at(votes@, ballot_key(), (claim_id, voter@), i as int),
            None => !has_key(votes@, ballot_key(), (claim_id, voter@)),
        },
{
    let mut i: usize = 0;
    while i < votes.len()
        invariant
            i <= votes.len(),
            forall|j: int| 0 <= j < i ==> (ballot_key())(#[trigger] votes@[j]) != (claim_id, voter@),
        decreases votes.len() - i,
    {
        if votes[i].claim_id == claim_id && votes[i].voter.same(voter) {
            return Some(i);
        }
        i = i + 1;
    }
    None
}

/// The first stored electorate snapshot of claim `claim_id`.
fn find_snapshot(snaps: &Vec<ClaimVoters>, claim_id: u64) -> (r: Option<usize>)
    ensures
        match r {
            Some(i) => first_at(snaps@, snapshot_key(), claim_id, i as int),
            None => !has_key(snaps@, snapshot_key(), claim_id),
        },
{
    let mut i: usize = 0;
    while i < snaps.len()
        invariant
            i <= snaps.len(),
            forall|j: int| 0 <= j < i ==> (snapshot_key())(#[trigger] snaps@[j]) != claim_id,
        decreases snaps.len() - i,
    {
        if snaps[i].claim_id == claim_id {
            return Some(i);
        }
        i = i + 1;
    }
    None
}

/// The first stored policy counter of `holder`.
fn find_counter(counters: &Vec<PolicyCounter>, holder: &Address) -> (r: Option<usize>)
    ensures
        match r {
            Some(i) => first_at(counters@, counter_key(), holder@, i as int),
            None => !has_key(counters@, counter_key(), holder@),
        },
{
    let mut i: usize = 0;
    while i < counters.len()
        invariant
            i <= counters.len(),
            forall|j: int| 0 <= j < i ==> (counter_key())(#[trigger] counters@[j]) != holder@,
        decreases counters.len() - i,
    {
        if counters[i].holder.same(holder) {
            return Some(i);
        }
        i = i + 1;
    }
    None
}

// ── Policies ─────────────────────────────────────────────────────────────────

/// The policy stored under `(holder, policy_id)`, if any.
pub fn get_policy<'a>(st: &'a Storage, holder: &Address, policy_id: u32) -> (r: Option<&'a Policy>)
    ensures
        r == (if st.policy_map().dom().contains((holder@, policy_id)) {
            Some(&st.policy_map()[(holder@, policy_id)])
        } else {
            None
        }),
{
    match find_policy(&st.policies, holder, policy_id) {
        Some(i) => {
            proof {
                crate::keyed::lemma_first_unique(st.policies@, policy_key(), (holder@, policy_id), i as int);
            }
            Some(&st.policies[i])
        },
        None => None,
    }
}

/// Stores `policy` under its `(holder, policy_id)` key.
pub fn set_policy(st: &mut Storage, policy: Policy)
    ensures
        final(st).policy_map() == old(st).policy_map().insert((policy_key())(policy), policy),
        *final(st) == (Storage { policies: final(st).policies, ..*old(st) }),
{
    match find_policy(&st.policies, &policy.holder, policy.policy_id) {
        Some(i) => {
            proof {
                lemma_map_update(st.policies@, policy_key(), i as int, policy);
            }
            st.policies.set(i, policy);
        },
        None => {
            proof {
                lemma_map_push(st.policies@, policy_key(), policy);
            }
            st.policies.push(policy);
        },
    }
}

/// The last policy id issued to `holder`, 0 if none.
pub open spec fn last_policy_id(st: &Storage, holder: Seq<char>) -> u32 {
    if st.counter_map().dom().contains(holder) {
        st.counter_map()[holder].last_id
    } else {
        0
    }
}

/// Returns the next policy id for `holder` and records it as issued.
pub fn next_policy_id(st: &mut Storage, holder: &Address) -> (id: u32)
    requires
        last_policy_id(old(st), holder@) < u32::MAX,
    ensures
        id == last_policy_id(old(st), holder@) + 1,
        last_policy_id(final(st), holder@) == id,
        forall|h: Seq<char>| h != holder@ ==> last_policy_id(final(st), h) == last_policy_id(old(st), h),
        *final(st) == (Storage { policy_counters: final(st).policy_counters, ..*old(st) }),
{
    let entry;
    let next: u32;
    match find_counter(&st.policy_counters, holder) {
        Some(i) => {
            proof {
                crate::keyed::lemma_first_unique(st.policy_counters@, counter_key(), holder@, i as int);
            }
            next = st.policy_counters[i].last_id + 1;
            entry = PolicyCounter { holder: holder.copied(), last_id: next };
            proof {
                lemma_map_update(st.policy_counters@, counter_key(), i as int, entry);
            }
            st.policy_counters.set(i, entry);
        },
        None => {
            next = 1;
            entry = PolicyCounter { holder: holder.copied(), last_id: next };
            proof {
                lemma_map_push(st.policy_counters@, counter_key(), entry);
            }
            st.policy_counters.push(entry);
        },
    }
    next
}

// ── Claims ───────────────────────────────────────────────────────────────────

/// The claim stored under `claim_id`, if any.
pub fn get_claim(st: &Storage, claim_id: u64) -> (r: Option<&Claim>)
    ensures
        r == (if st.claim_map().dom().contains(claim_id) {
            Some(&st.claim_map()[claim_id])
        } else {
            None
        }),
{
    match find_claim(&st.claims, claim_id) {
        Some(i) => {
            proof {
                crate::keyed::lemma_first_unique(st.claims@, claim_key(), claim_id, i as int);
            }
            Some(&st.claims[i])
        },
        None => None,
    }
}

/// Stores `claim` under its id.
pub fn set_claim(st: &mut Storage, claim: Claim)
    ensures
        final(st).claim_map() == old(st).claim_map().insert(claim.claim_id, claim),
        *final(st) == (Storage { claims: final(st).claims, ..*old(st) }),
{
    match find_claim(&st.claims, claim.claim_id) {
        Some(i) => {
            proof {
                lemma_map_update(st.claims@, claim_key(), i as int, claim);
            }
            st.claims.set(i, claim);
        },
        None => {
            proof {
                lemma_map_push(st.claims@, claim_key(), claim);
            }
            st.claims.push(claim);
        },
    }
}

/// Rewrites the voting and payout state of a stored claim: its status, its
/// tallies and its payout time.  Everything else about the claim stays.
pub fn update_claim_state(
    st: &mut Storage,
    claim_id: u64,
    status: ClaimStatus,
    approve_votes: u32,
    reject_votes: u32,
    paid_at: Option<u64>,
)
    requires
        old(st).claim_map().dom().contains(claim_id),
    ensures
        final(st).claim_map() == old(st).claim_map().insert(
            claim_id,
            Claim { status, approve_votes, reject_votes, paid_at, ..old(st).claim_map()[claim_id] },
        ),
        *final(st) == (Storage { claims: final(st).claims, ..*old(st) }),
{
    let found = find_claim(&st.claims, claim_id);
    proof {
        assert(crate::keyed::has_key(st.claims@, claim_key(), claim_id));
    }
    let i = found.unwrap();
    proof {
        crate::keyed::lemma_first_unique(st.claims@, claim_key(), claim_id, i as int);
    }
    let mut c = st.claims.remove(i);
    c.status = status;
    c.approve_votes = approve_votes;
    c.reject_votes = reject_votes;
    c.paid_at = paid_at;
    proof {
        lemma_map_update(old(st).claims@, claim_key(), i as int, c);
    }
    st.claims.insert(i, c);
    assert(st.claims@ =~= old(st).claims@.update(i as int, c));
}

/// Returns the next global claim id and records it as issued.
pub fn next_claim_id(st: &mut Storage) -> (id: u64)
    requires
        old(st).claim_counter < u64::MAX,
    ensures
        id == old(st).claim_counter + 1,
        *final(st) == (Storage { claim_counter: id, ..*old(st) }),
{
    let next = st.claim_counter + 1;
    st.claim_counter = next;
    next
}

// ── Ballots ──────────────────────────────────────────────────────────────────

/// The ballot `voter` cast on claim `claim_id`, if any.
pub fn get_vote(st: &Storage, claim_id: u64, voter: &Address) -> (r: Option<VoteOption>)
    ensures
        r == (if st.ballot_map().dom().contains((claim_id, voter@)) {
            Some(st.ballot_map()[(claim_id, voter@)].vote)
        } else {
            None
        }),
{
    match find_ballot(&st.votes, claim_id, voter) {
        Some(i) => {
            proof {
                crate::keyed::lemma_first_unique(st.votes@, ballot_key(), (claim_id, voter@), i as int);
            }
            Some(st.votes[i].vote)
        },
        None => None,
    }
}

/// Appends a ballot of `voter` on claim `claim_id`, which must not have one.
pub fn add_vote(st: &mut Storage, claim_id: u64, voter: &Address, vote: VoteOption)
    requires
        !old(st).ballot_map().dom().contains((claim_id, voter@)),
    ensures
        final(st).votes@.len() == old(st).votes@.len() + 1,
        final(st).votes@.drop_last() == old(st).votes@,
        final(st).votes@.last().claim_id == claim_id,
        final(st).votes@.last().voter@ == voter@,
        final(st).votes@.last().vote == vote,
        final(st).ballot_map() == old(st).ballot_map().insert((claim_id, voter@), final(st).votes@.last()),
        *final(st) == (Storage { votes: final(st).votes, ..*old(st) }),
{
    let b = Ballot { claim_id, voter: voter.copied(), vote };
    proof {
        assert((ballot_key())(b) == (claim_id, voter@));
        lemma_map_push(st.votes@, ballot_key(), b);
    }
    st.votes.push(b);
    assert(st.votes@.drop_last() =~= old(st).votes@);
}

// ── Live voter set and electorate snapshots ─────────────────────────────────

/// `s` with every occurrence of `a` removed, order kept.
pub open spec fn without(s: Seq<Seq<char>>, a: Seq<char>) -> Seq<Seq<char>>
    decreases s.len(),
{
    if s.len() == 0 {
        s
    } else if s.last() == a {
        without(s.drop_last(), a)
    } else {
        without(s.drop_last(), a).push(s.last())
    }
}

/// `x` occurs in `s.push(y)` exactly when it occurs in `s` or is `y`.
pub proof fn lemma_push_contains(s: Seq<Seq<char>>, y: Seq<char>, x: Seq<char>)
    ensures
        s.push(y).contains(x) <==> (s.contains(x) || x == y),
{
    if s.contains(x) {
        let k = choose|k: int| 0 <= k < s.len() && s[k] == x;
        assert(s.push(y)[k] == x);
    }
    if x == y {
        assert(s.push(y)[s.len() as int] == x);
    }
    if s.push(y).contains(x) {
        let k = choose|k: int| 0 <= k < s.push(y).len() && s.push(y)[k] == x;
        if k < s.len() {
            assert(s[k] == x);
        }
    }
}

/// `a` does not occur in `without(s, a)`, and every other entry of `s` does.
pub proof fn lemma_without(s: Seq<Seq<char>>, a: Seq<char>)
    ensures
        !without(s, a).contains(a),
        forall|x: Seq<char>| x != a ==> (without(s, a).contains(x) <==> s.contains(x)),
        !s.contains(a) ==> without(s, a) == s,
    decreases s.len(),
{
    if s.len() > 0 {
        let d = s.drop_last();
        lemma_without(d, a);
        assert(s =~= d.push(s.last()));
        assert forall|x: Seq<char>| x != a implies (without(s, a).contains(x) <==> s.contains(x)) by {
            lemma_push_contains(d, s.last(), x);
            if s.last() != a {
                lemma_push_contains(without(d, a), s.last(), x);
            }
        }
        lemma_push_contains(d, s.last(), a);
        if s.last() != a {
            lemma_push_contains(without(d, a), s.last(), a);
        }
    }
}

/// Returns a copy of the live voter set.
pub fn get_voters(st: &Storage) -> (r: Vec<Address>)
    ensures
        addrs(r@) == st.voter_set(),
{
    copy_addresses(&st.voters)
}

/// Overwrites the live voter set.
pub fn set_voters(st: &mut Storage, voters: Vec<Address>)
    ensures
        *final(st) == (Storage { voters: voters, ..*old(st) }),
{
    st.voters = voters;
}

/// Adds `holder` to the live voter set if not already present.
pub fn add_voter(st: &mut Storage, holder: &Address)
    ensures
        final(st).voter_set() == (if old(st).voter_set().contains(holder@) {
            old(st).voter_set()
        } else {
            old(st).voter_set().push(holder@)
        }),
        *final(st) == (Storage { voters: final(st).voters, ..*old(st) }),
{
    if contains_address(&st.voters, holder) {
        return;
    }
    st.voters.push(holder.copied());
    assert(addrs(st.voters@) =~= addrs(old(st).voters@).push(holder@));
}

/// Removes `holder` from the live voter set.
pub fn remove_voter(st: &mut Storage, holder: &Address)
    ensures
        final(st).voter_set() == without(old(st).voter_set(), holder@),
        *final(st) == (Storage { voters: final(st).voters, ..*old(st) }),
{
    let mut updated: Vec<Address> = Vec::new();
    let mut i: usize = 0;
    while i < st.voters.len()
        invariant
            i <= st.voters.len(),
            addrs(updated@) == without(addrs(st.voters@).take(i as int), holder@),
        decreases st.voters.len() - i,
    {
        let ghost prev = addrs(st.voters@).take(i as int);
        assert(addrs(st.voters@).take(i + 1) =~= prev.push(st.voters@[i as int]@));
        assert(addrs(st.voters@).take(i + 1).drop_last() =~= prev);
        if !st.voters[i].same(holder) {
            updated.push(st.voters[i].copied());
            assert(addrs(updated@) =~= without(prev, holder@).push(st.voters@[i as int]@));
        }
        i = i + 1;
    }
    assert(addrs(st.voters@).take(st.voters@.len() as int) =~= addrs(st.voters@));
    st.voters = updated;
}

/// Captures the current live voter set as the electorate of `claim_id`.
pub fn snapshot_voters_for_claim(st: &mut Storage, claim_id: u64)
    ensures
        final(st).electorate(claim_id) == old(st).voter_set(),
        forall|c: u64| c != claim_id ==> final(st).electorate(c) == old(st).electorate(c),
        final(st).snapshot_map().dom() == old(st).snapshot_map().dom().insert(claim_id),
        forall|c: u64| c != claim_id && old(st).snapshot_map().dom().contains(c) ==> final(st).snapshot_map()[c] == old(st).snapshot_map()[c],
        *final(st) == (Storage { claim_voters: final(st).claim_voters, ..*old(st) }),
{
    let snap = ClaimVoters { claim_id, voters: copy_addresses(&st.voters) };
    match find_snapshot(&st.claim_voters, claim_id) {
        Some(i) => {
            proof {
                lemma_map_update(st.claim_voters@, snapshot_key(), i as int, snap);
            }
            st.claim_voters.set(i, snap);
        },
        None => {
            proof {
                lemma_map_push(st.claim_voters@, snapshot_key(), snap);
            }
            st.claim_voters.push(snap);
        },
    }
}

/// Returns a copy of the electorate of `claim_id` (empty if none was taken).
pub fn get_claim_voters(st: &Storage, claim_id: u64) -> (r: Vec<Address>)
    ensures
        addrs(r@) == st.electorate(claim_id),
{
    match find_snapshot(&st.claim_voters, claim_id) {
        Some(i) => {
            proof {
                crate::keyed::lemma_first_unique(st.claim_voters@, snapshot_key(), claim_id, i as int);
            }
            copy_addresses(&st.claim_voters[i].voters)
        },
        None => {
            let r: Vec<Address> = Vec::new();
            assert(addrs(r@) =~= Seq::<Seq<char>>::empty());
            r
        },
    }
}

/// Returns true if `voter` is in the electorate of `claim_id`.
pub fn is_eligible_voter(st: &Storage, claim_id: u64, voter: &Address) -> (r: bool)
    ensures
        r == st.electorate(claim_id).contains(voter@),
{
    match find_snapshot(&st.claim_voters, claim_id) {
        Some(i) => {
            proof {
                crate::keyed::lemma_first_unique(st.claim_voters@, snapshot_key(), claim_id, i as int);
            }
            contains_address(&st.claim_voters[i].voters, voter)
        },
        None => false,
    }
}

// ── Asset allowlist ──────────────────────────────────────────────────────────

/// An asset may pay out claims when it is the treasury token or has been
/// allowlisted.
pub open spec fn asset_allowed(st: &Storage, asset: Seq<char>) -> bool {
    opt_addr(st.token) == Some(asset) || addrs(st.allowed_assets@).contains(asset)
}

/// Returns true if `asset` may pay out claims.
pub fn is_allowed_asset(st: &Storage, asset: &Address) -> (r: bool)
    ensures
        r == asset_allowed(st, asset@),
{
    let is_token = match &st.token {
        Some(t) => t.same(asset),
        None => false,
    };
    is_token || contains_address(&st.allowed_assets, asset)
}

/// Adds `asset` to, or removes it from, the allowlist.
pub fn set_allowed_asset(st: &mut Storage, asset: &Address, allowed: bool)
    ensures
        addrs(final(st).allowed_assets@) == (if allowed {
            if addrs(old(st).allowed_assets@).contains(asset@) {
                addrs(old(st).allowed_assets@)
            } else {
                addrs(old(st).allowed_assets@).push(asset@)
            }
        } else {
            without(addrs(old(st).allowed_assets@), asset@)
        }),
        *final(st) == (Storage { allowed_assets: final(st).allowed_assets, ..*old(st) }),
{
    if allowed {
        if !contains_address(&st.allowed_assets, asset) {
            st.allowed_assets.push(asset.copied());
            assert(addrs(st.allowed_assets@) =~= addrs(old(st).allowed_assets@).push(asset@));
        }
    } else {
        let mut updated: Vec<Address> = Vec::new();
        let mut i: usize = 0;
        while i < st.allowed_assets.len()
            invariant
                i <= st.allowed_assets.len(),
                addrs(updated@) == without(addrs(st.allowed_assets@).take(i as int), asset@),
            decreases st.allowed_assets.len() - i,
        {
            let ghost prev = addrs(st.allowed_assets@).take(i as int);
            assert(addrs(st.allowed_assets@).take(i + 1) =~= prev.push(st.allowed_assets@[i as int]@));
            assert(addrs(st.allowed_assets@).take(i + 1).drop_last() =~= prev);
            if !st.allowed_assets[i].same(asset) {
                updated.push(st.allowed_assets[i].copied());
                assert(addrs(updated@) =~= without(prev, asset@).push(st.allowed_assets@[i as int]@));
            }
            i = i + 1;
        }
        assert(addrs(st.allowed_assets@).take(st.allowed_assets@.len() as int) =~= addrs(st.allowed_assets@));
        st.allowed_assets = updated;
    }
}

// ── Oracle triggers ──────────────────────────────────────────────────────────

fn find_trigger(triggers: &Vec<StoredTrigger>, trigger_id: u64) -> (r: Option<usize>)
    ensures
        match r {
            Some(i) => first_at(triggers@, trigger_key(), trigger_id, i as int),
            None => !has_key(triggers@, trigger_key(), trigger_id),
        },
{
    let mut i: usize = 0;
    while i < triggers.len()
        invariant
            i <= triggers.len(),
            forall|j: int| 0 <= j < i ==> (trigger_key())(#[trigger] triggers@[j]) != trigger_id,
        decreases triggers.len() - i,
    {
        if triggers[i].trigger_id == trigger_id {
            return Some(i);
        }
        i = i + 1;
    }
    None
}

fn find_status(statuses: &Vec<StoredTriggerStatus>, trigger_id: u64) -> (r: Option<usize>)
    ensures
        match r {
            Some(i) => first_at(statuses@, status_key(), trigger_id, i as int),
            None => !has_key(statuses@, status_key(), trigger_id),
        },
{
    let mut i: usize = 0;
    while i < statuses.len()
        invariant
            i <= statuses.len(),
            forall|j: int| 0 <= j < i ==> (status_key())(#[trigger] statuses@[j]) != trigger_id,
        decreases statuses.len() - i,
    {
        if statuses[i].trigger_id == trigger_id {
            return Some(i);
        }
        i = i + 1;
    }
    None
}

/// Returns true if oracle trigger processing is enabled (it is off until an
/// admin turns it on).
pub fn is_oracle_enabled(st: &Storage) -> (r: bool)
    ensures
        r == st.oracle_enabled,
{
    st.oracle_enabled
}

/// Turns oracle trigger processing on or off.
pub fn set_oracle_enabled(st: &mut Storage, enabled: bool)
    ensures
        *final(st) == (Storage { oracle_enabled: enabled, ..*old(st) }),
{
    st.oracle_enabled = enabled;
}

/// Returns the next trigger id and records it as issued.
pub fn next_trigger_id(st: &mut Storage) -> (id: u64)
    requires
        old(st).trigger_counter < u64::MAX,
    ensures
        id == old(st).trigger_counter + 1,
        *final(st) == (Storage { trigger_counter: id, ..*old(st) }),
{
    let next = st.trigger_counter + 1;
    st.trigger_counter = next;
    next
}

/// Stores `trigger` under `trigger_id`.
pub fn set_oracle_trigger(st: &mut Storage, trigger_id: u64, trigger: OracleTrigger)
    ensures
        final(st).trigger_map() == old(st).trigger_map().insert(
            trigger_id,
            StoredTrigger { trigger_id, trigger },
        ),
        *final(st) == (Storage { oracle_triggers: final(st).oracle_triggers, ..*old(st) }),
{
    let entry = StoredTrigger { trigger_id, trigger };
    match find_trigger(&st.oracle_triggers, trigger_id) {
        Some(i) => {
            proof {
                lemma_map_update(st.oracle_triggers@, trigger_key(), i as int, entry);
            }
            st.oracle_triggers.set(i, entry);
        },
        None => {
            proof {
                lemma_map_push(st.oracle_triggers@, trigger_key(), entry);
            }
            st.oracle_triggers.push(entry);
        },
    }
}

/// The trigger stored under `trigger_id`, if any.
pub fn get_oracle_trigger(st: &Storage, trigger_id: u64) -> (r: Option<&OracleTrigger>)
    ensures
        r == (if st.trigger_map().dom().contains(trigger_id) {
            Some(&st.trigger_map()[trigger_id].trigger)
        } else {
            None
        }),
{
    match find_trigger(&st.oracle_triggers, trigger_id) {
        Some(i) => {
            proof {
                crate::keyed::lemma_first_unique(st.oracle_triggers@, trigger_key(), trigger_id, i as int);
            }
            Some(&st.oracle_triggers[i].trigger)
        },
        None => None,
    }
}

/// The status recorded for `trigger_id`, if any.
pub open spec fn trigger_status_of(st: &Storage, trigger_id: u64) -> Option<TriggerStatus> {
    if st.status_map().dom().contains(trigger_id) {
        Some(st.status_map()[trigger_id].status)
    } else {
        None
    }
}

/// Records `status` for `trigger_id`.
pub fn set_trigger_status(st: &mut Storage, trigger_id: u64, status: TriggerStatus)
    ensures
        trigger_status_of(final(st), trigger_id) == Some(status),
        forall|t: u64| t != trigger_id ==> trigger_status_of(final(st), t) == trigger_status_of(old(st), t),
        *final(st) == (Storage { trigger_statuses: final(st).trigger_statuses, ..*old(st) }),
{
    let entry = StoredTriggerStatus { trigger_id, status };
    match find_status(&st.trigger_statuses, trigger_id) {
        Some(i) => {
            proof {
                lemma_map_update(st.trigger_statuses@, status_key(), i as int, entry);
            }
            st.trigger_statuses.set(i, entry);
        },
        None => {
            proof {
                lemma_map_push(st.trigger_statuses@, status_key(), entry);
            }
            st.trigger_statuses.push(entry);
        },
    }
}

/// The status recorded for `trigger_id`, if any.
pub fn get_trigger_status(st: &Storage, trigger_id: u64) -> (r: Option<TriggerStatus>)
    ensures
        r == trigger_status_of(st, trigger_id),
{
    match find_status(&st.trigger_statuses, trigger_id) {
        Some(i) => {
            proof {
                crate::keyed::lemma_first_unique(st.trigger_statuses@, status_key(), trigger_id, i as int);
            }
            Some(st.trigger_statuses[i].status)
        },
        None => None,
    }
}

} // verus!
